//! A remote module as the coordinator knows it.
//!
//! A module is identified by its 64-bit radio address: two modules are the
//! same module exactly when their addresses agree, and modules are ordered by
//! address. The logical id, the node name and the versions are what the
//! module reports about itself.

use vstd::prelude::*;
use vstd::std_specs::cmp::{PartialEqSpec, PartialOrdSpec};
use vstd::utf8::{decode_utf8, encode_utf8_decode_utf8, valid_utf8};
use std::cmp::Ordering;
use crate::api::{optional_view, RemoteAtCommandFrame, RemoteAtCommandResponse, RemoteCommandOptions};
use crate::endian::{be16_value, read_be16};
use crate::text::text_from_utf8;

verus! {

/// What is known of the radio of a remote module.
#[derive(Debug, Clone)]
pub struct RemoteDigiMeshDevice {
    pub addr_64bit: u64,
    pub node_id: String,
    pub firmware_version: Option<u16>,
    pub hardware_version: Option<u16>,
}

/// One remote module.
#[derive(Debug, Clone)]
pub struct Module {
    pub id: u16,
    pub device: RemoteDigiMeshDevice,
}

/// A module as a mathematical value.
pub struct ModuleView {
    pub id: u16,
    pub addr_64bit: u64,
    pub node_id: Seq<char>,
    pub firmware_version: Option<u16>,
    pub hardware_version: Option<u16>,
}

impl View for Module {
    type V = ModuleView;

    open spec fn view(&self) -> ModuleView {
        ModuleView {
            id: self.id,
            addr_64bit: self.device.addr_64bit,
            node_id: self.device.node_id@,
            firmware_version: self.device.firmware_version,
            hardware_version: self.device.hardware_version,
        }
    }
}

/// The three things a module is asked about itself, in the order asked.
#[derive(Debug, Clone, Copy, PartialEq, Eq, Structural)]
pub enum InfoQuery {
    NodeName,
    HardwareVersion,
    FirmwareVersion,
}

impl InfoQuery {
    /// The two characters of the AT command that asks the question.
    pub open spec fn spec_mnemonic(self) -> (u8, u8) {
        match self {
            InfoQuery::NodeName => (0x4e, 0x49),
            InfoQuery::HardwareVersion => (0x48, 0x56),
            InfoQuery::FirmwareVersion => (0x56, 0x52),
        }
    }

    /// The AT command that asks the question: `NI`, `HV` or `VR`.
    pub fn mnemonic(&self) -> (m: [u8; 2])
        ensures
            (m@[0], m@[1]) == self.spec_mnemonic(),
    {
        match self {
            InfoQuery::NodeName => [0x4e, 0x49],
            InfoQuery::HardwareVersion => [0x48, 0x56],
            InfoQuery::FirmwareVersion => [0x56, 0x52],
        }
    }
}

/// Whether the data of a response answers the question.
pub open spec fn info_usable(query: InfoQuery, data: Option<Seq<u8>>) -> bool {
    match data {
        None => false,
        Some(d) => match query {
            InfoQuery::NodeName => valid_utf8(d),
            InfoQuery::HardwareVersion => d.len() == 2,
            InfoQuery::FirmwareVersion => d.len() == 2,
        },
    }
}

impl ModuleView {
    /// The module as first heard of: only id and address are known.
    pub open spec fn discovered(id: u16, addr_64bit: u64) -> ModuleView {
        ModuleView {
            id,
            addr_64bit,
            node_id: "NotSet"@,
            firmware_version: None,
            hardware_version: None,
        }
    }

    /// The module after the data of a response was taken in. Data that does
    /// not answer the question leaves the module as it was.
    pub open spec fn with_info(self, query: InfoQuery, data: Option<Seq<u8>>) -> ModuleView {
        if !info_usable(query, data) {
            self
        } else {
            let d = data->0;
            match query {
                InfoQuery::NodeName => ModuleView { node_id: decode_utf8(d), ..self },
                InfoQuery::HardwareVersion => ModuleView {
                    hardware_version: Some(be16_value(d[0], d[1])),
                    ..self
                },
                InfoQuery::FirmwareVersion => ModuleView {
                    firmware_version: Some(be16_value(d[0], d[1])),
                    ..self
                },
            }
        }
    }
}

impl PartialEq for Module {
    /// Whether the two modules have the same radio address.
    fn eq(&self, other: &Self) -> (r: bool) {
        self.device.addr_64bit == other.device.addr_64bit
    }
}

impl vstd::std_specs::cmp::PartialEqSpecImpl for Module {
    open spec fn obeys_eq_spec() -> bool {
        true
    }

    open spec fn eq_spec(&self, other: &Self) -> bool {
        self.device.addr_64bit == other.device.addr_64bit
    }
}

impl PartialOrd for Module {
    /// How the radio addresses of the two modules compare.
    fn partial_cmp(&self, other: &Self) -> (r: Option<Ordering>) {
        self.device.addr_64bit.partial_cmp(&other.device.addr_64bit)
    }
}

impl vstd::std_specs::cmp::PartialOrdSpecImpl for Module {
    open spec fn obeys_partial_cmp_spec() -> bool {
        true
    }

    open spec fn partial_cmp_spec(&self, other: &Self) -> Option<Ordering> {
        if self.device.addr_64bit < other.device.addr_64bit {
            Some(Ordering::Less)
        } else if self.device.addr_64bit == other.device.addr_64bit {
            Some(Ordering::Equal)
        } else {
            Some(Ordering::Greater)
        }
    }
}

impl Module {
    /// The node name of a module that has not been asked for it yet.
    pub fn unset_node_id() -> (s: String)
        ensures
            s@ == "NotSet"@,
    {
        "NotSet".to_owned()
    }

    /// A module as first heard of.
    pub fn discovered(id: u16, addr_64bit: u64) -> (m: Module)
        ensures
            m@ == ModuleView::discovered(id, addr_64bit),
    {
        Module {
            id,
            device: RemoteDigiMeshDevice {
                addr_64bit,
                node_id: Module::unset_node_id(),
                firmware_version: None,
                hardware_version: None,
            },
        }
    }

    /// A copy of the module.
    pub fn duplicate(&self) -> (m: Module)
        ensures
            m@ == self@,
    {
        Module {
            id: self.id,
            device: RemoteDigiMeshDevice {
                addr_64bit: self.device.addr_64bit,
                node_id: self.device.node_id.clone(),
                firmware_version: self.device.firmware_version,
                hardware_version: self.device.hardware_version,
            },
        }
    }

    /// The remote AT command that asks this module the given question.
    pub fn info_request(&self, query: InfoQuery) -> (f: RemoteAtCommandFrame)
        ensures
            f@ == (crate::wire::FrameView::RemoteAtCommand {
                dest_addr: self.device.addr_64bit,
                options: RemoteCommandOptions { apply_changes: false },
                atcmd: query.spec_mnemonic(),
                cmd_param: None,
            }),
    {
        RemoteAtCommandFrame {
            dest_addr: self.device.addr_64bit,
            options: RemoteCommandOptions { apply_changes: false },
            atcmd: query.mnemonic(),
            cmd_param: None,
        }
    }

    /// Takes the data of a response to the given question into the module.
    /// Returns whether the data answered the question.
    pub fn apply_info(&mut self, query: InfoQuery, response: &RemoteAtCommandResponse) -> (attempt:
        bool)
        ensures
            attempt == info_usable(query, optional_view(response.command_data)),
            final(self)@ == old(self)@.with_info(query, optional_view(response.command_data)),
    {
        match &response.command_data {
            None => false,
            Some(data) => match query {
                InfoQuery::NodeName => match text_from_utf8(data.as_slice()) {
                    Some(name) => {
                        proof {
                            encode_utf8_decode_utf8(name@);
                        }
                        self.device.node_id = name.to_owned();
                        true
                    },
                    None => false,
                },
                InfoQuery::HardwareVersion => {
                    if data.len() == 2 {
                        self.device.hardware_version = Some(read_be16(data.as_slice(), 0));
                        true
                    } else {
                        false
                    }
                },
                InfoQuery::FirmwareVersion => {
                    if data.len() == 2 {
                        self.device.firmware_version = Some(read_be16(data.as_slice(), 0));
                        true
                    } else {
                        false
                    }
                },
            },
        }
    }
}

/// Two modules are equal exactly when their radio addresses agree, whatever
/// their ids, names and versions.
pub proof fn lemma_equality_is_by_address(a: Module, b: Module)
    ensures
        a.eq_spec(&b) <==> a@.addr_64bit == b@.addr_64bit,
{
}

/// Modules compare as their radio addresses do, whatever their ids, names
/// and versions.
pub proof fn lemma_order_is_by_address(a: Module, b: Module)
    ensures
        a.partial_cmp_spec(&b) == Some(
            if a@.addr_64bit < b@.addr_64bit {
                Ordering::Less
            } else if a@.addr_64bit == b@.addr_64bit {
                Ordering::Equal
            } else {
                Ordering::Greater
            },
        ),
{
}

} // verus!
