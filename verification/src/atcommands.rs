//! The AT commands of the directly attached radio: the catalog of commands,
//! their text on the wire, and the scan for the end of a response.
//!
//! In command mode the radio takes `AT`, a two-character mnemonic, an
//! optional parameter and a carriage return, and answers with text that
//! ends in one or more carriage returns. Command mode is entered with three
//! `+` characters and no carriage return.

use vstd::prelude::*;
use vstd::utf8::{encode_utf8, is_ascii_chars_encode_utf8};
use bytes::BytesMut;
use crate::wire::optional_bytes;
use crate::buffer::{buffer_bytes, buffer_new, buffer_put, buffer_put_u8};
use crate::error::Error;
use crate::text::same_text;

verus! {

/// The carriage return that ends a command and counts the fields of a
/// response.
pub const CARRIAGE_RETURN: u8 = 0x0d;

/// One AT command, ready to be written out.
#[derive(Debug, Clone, Copy)]
pub struct AtCommand<'a> {
    /// The mnemonic, or the guard sequence that enters command mode.
    pub command: &'a str,
    pub parameter: &'a Option<&'a [u8]>,
    /// The number of carriage returns in the response to this command.
    pub rcr_len: usize,
}

/// The commands the catalog knows.
#[derive(Debug, Clone, Copy)]
pub enum AtCommands<'a> {
    /// Node discovery.
    Discover(Option<&'a [u8]>),
    /// Any command, by mnemonic, with an optional parameter.
    AtCmd((&'a str, Option<&'a [u8]>)),
    /// Enter (`true`) or leave (`false`) command mode.
    CmdMode(bool),
}

/// An AT command as a mathematical value.
pub struct AtCommandView {
    pub command: Seq<char>,
    pub parameter: Option<Seq<u8>>,
    pub rcr_len: usize,
}

/// The view of an optional byte slice.
pub open spec fn optional_slice_view(o: Option<&[u8]>) -> Option<Seq<u8>> {
    match o {
        Some(s) => Some(s@),
        None => None,
    }
}

impl<'a> View for AtCommand<'a> {
    type V = AtCommandView;

    open spec fn view(&self) -> AtCommandView {
        AtCommandView {
            command: self.command@,
            parameter: optional_slice_view(*self.parameter),
            rcr_len: self.rcr_len,
        }
    }
}

impl<'a> AtCommands<'a> {
    /// The catalog entry of a command: its text, its parameter, and the
    /// number of carriage returns its response has, which is 11 for node
    /// discovery and 1 for everything else.
    pub open spec fn spec_create(self) -> AtCommandView {
        match self {
            AtCommands::CmdMode(true) => AtCommandView {
                command: "+++"@,
                parameter: None,
                rcr_len: 1,
            },
            AtCommands::CmdMode(false) => AtCommandView {
                command: "CN"@,
                parameter: None,
                rcr_len: 1,
            },
            AtCommands::Discover(param) => AtCommandView {
                command: "ND"@,
                parameter: optional_slice_view(param),
                rcr_len: 11,
            },
            AtCommands::AtCmd((cmd, param)) => AtCommandView {
                command: cmd@,
                parameter: optional_slice_view(param),
                rcr_len: 1,
            },
        }
    }

    /// Looks the command up in the catalog.
    pub fn create(&self) -> (cmd: AtCommand<'_>)
        ensures
            cmd@ == self.spec_create(),
    {
        match *self {
            AtCommands::CmdMode(ref state) => match state {
                true => AtCommand { command: "+++", parameter: &None, rcr_len: 1 },
                false => AtCommand { command: "CN", parameter: &None, rcr_len: 1 },
            },
            AtCommands::Discover(ref param) => AtCommand {
                command: "ND",
                parameter: param,
                rcr_len: 10 + 1,
            },
            AtCommands::AtCmd((ref cmd, ref param)) => AtCommand {
                command: cmd,
                parameter: param,
                rcr_len: 1,
            },
        }
    }
}

/// The bytes that carry a command to the radio: the guard sequence as it
/// is; anything else as `AT`, the mnemonic, the parameter if there is one,
/// and a carriage return.
pub open spec fn at_text(cmd: AtCommandView) -> Seq<u8> {
    if cmd.command == "+++"@ {
        encode_utf8(cmd.command)
    } else {
        seq![0x41u8, 0x54u8] + encode_utf8(cmd.command) + optional_bytes(cmd.parameter) + seq![
            CARRIAGE_RETURN,
        ]
    }
}

/// Whether the text of a command can be held in memory: a buffer holds at
/// most `isize::MAX` bytes. No command is refused for any other reason.
pub open spec fn at_text_fits(cmd: AtCommandView) -> bool {
    at_text(cmd).len() <= isize::MAX
}

impl<'a> AtCommand<'a> {
    /// Writes the command out as the radio takes it.
    pub fn encode(&self) -> (r: Result<BytesMut, Error>)
        ensures
            at_text_fits(self@) <==> r is Ok,
            r matches Err(e) ==> e == Error::PayloadTooLarge,
            r matches Ok(tx) ==> buffer_bytes(tx) == at_text(self@),
    {
        let limit: usize = isize::MAX as usize;
        let mnemonic = self.command.as_bytes();
        let mut tx = buffer_new();
        if same_text(self.command, "+++") {
            proof {
                reveal_strlit("+++");
                is_ascii_chars_encode_utf8(self.command@);
            }
            buffer_put(&mut tx, mnemonic);
        } else {
            let param_len = match *self.parameter {
                Some(p) => p.len(),
                None => 0,
            };
            if mnemonic.len() > limit - 3 || param_len > limit - 3 - mnemonic.len() {
                return Err(Error::PayloadTooLarge);
            }
            buffer_put_u8(&mut tx, 0x41);
            buffer_put_u8(&mut tx, 0x54);
            buffer_put(&mut tx, mnemonic);
            match *self.parameter {
                Some(p) => {
                    buffer_put(&mut tx, p);
                },
                None => {},
            }
            buffer_put_u8(&mut tx, CARRIAGE_RETURN);
        }
        Ok(tx)
    }
}

/// The number of carriage returns among the bytes.
pub open spec fn count_cr(s: Seq<u8>) -> nat
    decreases s.len(),
{
    if s.len() == 0 {
        0
    } else {
        count_cr(s.drop_last()) + if s.last() == CARRIAGE_RETURN {
            1nat
        } else {
            0nat
        }
    }
}

/// The response to an AT command, as far as it has been received.
#[derive(Debug, Clone, PartialEq, Eq)]
pub struct AtReply {
    /// The bytes received so far.
    pub rx_buf: Vec<u8>,
    /// The carriage returns among them.
    pub cr_seen: usize,
}

impl AtReply {
    /// Whether the count of carriage returns is that of the bytes held.
    pub open spec fn wf(&self) -> bool {
        self.cr_seen == count_cr(self.rx_buf@)
    }

    /// A response of which nothing has been received.
    pub fn new() -> (r: Self)
        ensures
            r.rx_buf@ == Seq::<u8>::empty(),
            r.cr_seen == 0,
            r.wf(),
    {
        AtReply { rx_buf: Vec::new(), cr_seen: 0 }
    }

    /// Takes the next byte of the response in. Returns whether the response
    /// is complete with it: the byte is a carriage return, and it is the
    /// last of the `rcr_len` the command's response has.
    pub fn feed(&mut self, byte: u8, rcr_len: usize) -> (complete: bool)
        ensures
            final(self).rx_buf@ == old(self).rx_buf@.push(byte),
            final(self).cr_seen == if byte == CARRIAGE_RETURN && old(self).cr_seen < usize::MAX {
                old(self).cr_seen + 1
            } else {
                old(self).cr_seen as int
            },
            complete == (byte == CARRIAGE_RETURN && final(self).cr_seen == rcr_len),
            old(self).wf() ==> final(self).wf(),
    {
        let ghost before = self.rx_buf@;
        self.rx_buf.push(byte);
        proof {
            assert(self.rx_buf@.drop_last() =~= before);
            assert(self.rx_buf@.len() == self.rx_buf.len());
            lemma_count_cr_bound(before);
        }
        if byte == CARRIAGE_RETURN && self.cr_seen < usize::MAX {
            self.cr_seen = self.cr_seen + 1;
        }
        byte == CARRIAGE_RETURN && self.cr_seen == rcr_len
    }
}

/// There are no more carriage returns than bytes.
pub proof fn lemma_count_cr_bound(s: Seq<u8>)
    ensures
        count_cr(s) <= s.len(),
    decreases s.len(),
{
    if s.len() > 0 {
        lemma_count_cr_bound(s.drop_last());
    }
}

} // verus!
