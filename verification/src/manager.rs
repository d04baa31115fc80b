//! The module manager: the registry of known modules and the decisions of
//! the protocol engine.
//!
//! The manager never touches the transport. It says which frame to send
//! next and takes in what was received; the caller moves the bytes. One
//! request is outstanding at a time, and the next frame received after a
//! send is taken as its answer.

use vstd::prelude::*;
use crate::api::{
    optional_view, RecieveRequestFrame, RemoteAtCommandFrame, RemoteAtCommandResponse,
    RemoteCommandOptions, TransmitRequestFrame, BROADCAST_ADDR,
};
use crate::wire::FrameView;
use crate::buffer::buffer_slice;
use crate::clock::{local_now, ClockReading};
use crate::commands::{
    build_request_payload, build_set_payload, optional_texts, request_payload, set_payload,
};
use crate::endian::{be16_value, read_be16};
use crate::error::Error;
use crate::modules::{InfoQuery, Module, ModuleView};
use crate::text::{ascii_upper, to_ascii_uppercase};

verus! {

/// The application-level commands a module understands.
#[derive(Debug, Clone, Copy, PartialEq, Eq, Structural)]
pub enum ModuleCommands {
    RequestTime,
    RequestTH,
    RequestDist,
    RequestMotor,
    SetTime,
    SetSchedule,
    SetMotorTime,
    InvalidCmd,
}

impl ModuleCommands {
    /// The opcode of the command.
    pub open spec fn spec_value(self) -> u8 {
        match self {
            ModuleCommands::RequestTH => 0x2b,
            ModuleCommands::RequestTime => 0x1d,
            ModuleCommands::RequestDist => 0x3c,
            ModuleCommands::RequestMotor => 0x4a,
            ModuleCommands::InvalidCmd => 0x00,
            ModuleCommands::SetTime => 0x5e,
            ModuleCommands::SetSchedule => 0x6c,
            ModuleCommands::SetMotorTime => 0x7a,
        }
    }

    /// The opcode byte that goes into a request payload.
    pub fn value(&self) -> (b: u8)
        ensures
            b == self.spec_value(),
    {
        match *self {
            ModuleCommands::RequestTH => 0x2b,
            ModuleCommands::RequestTime => 0x1d,
            ModuleCommands::RequestDist => 0x3c,
            ModuleCommands::RequestMotor => 0x4a,
            ModuleCommands::InvalidCmd => 0x00,
            ModuleCommands::SetTime => 0x5e,
            ModuleCommands::SetSchedule => 0x6c,
            ModuleCommands::SetMotorTime => 0x7a,
        }
    }
}

/// Whether some module of the registry has the given radio address.
pub open spec fn knows_address(mods: Seq<ModuleView>, addr: u64) -> bool {
    exists|i: int| 0 <= i < mods.len() && (#[trigger] mods[i]).addr_64bit == addr
}

/// Whether no radio address occurs twice in the registry.
pub open spec fn distinct_addresses(mods: Seq<ModuleView>) -> bool {
    forall|i: int, j: int|
        0 <= i < j < mods.len() ==> (#[trigger] mods[i]).addr_64bit != (#[trigger] mods[j]).addr_64bit
}

/// The registry after a module was offered to it: unchanged when the
/// module's address is known already, with the module at the end otherwise.
pub open spec fn added_if_new(mods: Seq<ModuleView>, m: ModuleView) -> Seq<ModuleView> {
    if knows_address(mods, m.addr_64bit) {
        mods
    } else {
        mods.push(m)
    }
}

/// The registry that results from offering the modules of a list one by
/// one, in order, to an empty registry.
pub open spec fn deduplicated(mods: Seq<ModuleView>) -> Seq<ModuleView>
    decreases mods.len(),
{
    if mods.len() == 0 {
        Seq::<ModuleView>::empty()
    } else {
        added_if_new(deduplicated(mods.drop_last()), mods.last())
    }
}

/// The views of a list of modules.
pub open spec fn views_of(mods: Seq<Module>) -> Seq<ModuleView> {
    Seq::new(mods.len(), |i: int| mods[i]@)
}

/// The index of the first module with the given node name, if there is one.
pub open spec fn first_named(mods: Seq<ModuleView>, name: Seq<char>, found: Option<usize>) -> bool {
    match found {
        Some(i) => {
            &&& i < mods.len()
            &&& mods[i as int].node_id == name
            &&& forall|j: int| 0 <= j < i ==> (#[trigger] mods[j]).node_id != name
        },
        None => forall|j: int| 0 <= j < mods.len() ==> (#[trigger] mods[j]).node_id != name,
    }
}

/// The index of the first module with the given node name, as a function of
/// the registry.
pub open spec fn position_of_name(mods: Seq<ModuleView>, name: Seq<char>) -> Option<usize>
    decreases mods.len(),
{
    if mods.len() == 0 {
        None
    } else {
        let earlier = position_of_name(mods.drop_last(), name);
        if earlier is Some {
            earlier
        } else if mods.last().node_id == name {
            Some((mods.len() - 1) as usize)
        } else {
            None
        }
    }
}

/// `position_of_name` is the first index at which the name stands.
pub proof fn lemma_position_of_name(mods: Seq<ModuleView>, name: Seq<char>, found: Option<usize>)
    requires
        first_named(mods, name, found),
    ensures
        position_of_name(mods, name) == found,
    decreases mods.len(),
{
    if mods.len() > 0 {
        let front = mods.drop_last();
        if found is Some && found->0 < mods.len() - 1 {
            lemma_position_of_name(front, name, found);
        } else {
            lemma_position_of_name(front, name, None);
        }
    }
}

/// Offering a module keeps the addresses of the registry distinct.
pub proof fn lemma_added_keeps_distinct(mods: Seq<ModuleView>, m: ModuleView)
    requires
        distinct_addresses(mods),
    ensures
        distinct_addresses(added_if_new(mods, m)),
{
}

/// A deduplicated list has distinct addresses.
pub proof fn lemma_deduplicated_distinct(mods: Seq<ModuleView>)
    ensures
        distinct_addresses(deduplicated(mods)),
    decreases mods.len(),
{
    if mods.len() > 0 {
        lemma_deduplicated_distinct(mods.drop_last());
        lemma_added_keeps_distinct(deduplicated(mods.drop_last()), mods.last());
    }
}

/// A list whose addresses are distinct already is its own deduplication: a
/// snapshot that is restored gives the registry it was taken from.
pub proof fn lemma_deduplicated_of_distinct(mods: Seq<ModuleView>)
    requires
        distinct_addresses(mods),
    ensures
        deduplicated(mods) == mods,
    decreases mods.len(),
{
    if mods.len() > 0 {
        let front = mods.drop_last();
        lemma_deduplicated_of_distinct(front);
        assert(!knows_address(front, mods.last().addr_64bit));
    }
}

/// A module offered a second time, under whatever id, name or versions,
/// changes nothing: the registry stays as the first offer left it. Where the
/// address was new, that is the old registry with the first module at its
/// end, so one entry has the address, and it holds the fields first offered.
pub proof fn lemma_second_offer_changes_nothing(mods: Seq<ModuleView>, first: ModuleView, second: ModuleView)
    requires
        first.addr_64bit == second.addr_64bit,
    ensures
        added_if_new(added_if_new(mods, first), second) == added_if_new(mods, first),
        !knows_address(mods, first.addr_64bit) ==> added_if_new(added_if_new(mods, first), second)
            == mods.push(first),
{
    let once = added_if_new(mods, first);
    if !knows_address(mods, first.addr_64bit) {
        assert(once[mods.len() as int].addr_64bit == second.addr_64bit);
    }
}

/// The registry of known modules, in the order in which they were first
/// heard of, with no radio address twice.
#[derive(Debug)]
pub struct ModuleManager {
    modules: Vec<Module>,
}

impl View for ModuleManager {
    type V = Seq<ModuleView>;

    closed spec fn view(&self) -> Seq<ModuleView> {
        views_of(self.modules@)
    }
}

impl ModuleManager {
    /// The registry invariant: no radio address occurs twice. `new`
    /// establishes it and every operation keeps it.
    pub open spec fn wf(&self) -> bool {
        distinct_addresses(self@)
    }

    /// A manager that knows no module.
    pub fn new() -> (r: Self)
        ensures
            r@ == Seq::<ModuleView>::empty(),
            r.wf(),
    {
        ModuleManager { modules: Vec::new() }
    }

    /// The number of known modules.
    pub fn len(&self) -> (n: usize)
        ensures
            n == self@.len(),
    {
        self.modules.len()
    }

    /// The known modules, in registry order.
    pub fn modules(&self) -> (r: &Vec<Module>)
        ensures
            views_of(r@) == self@,
    {
        &self.modules
    }

    /// Whether a module with the given address is known.
    pub fn contains_address(&self, addr_64bit: u64) -> (r: bool)
        ensures
            r == knows_address(self@, addr_64bit),
    {
        let mut i: usize = 0;
        while i < self.modules.len()
            invariant
                i <= self.modules@.len(),
                forall|j: int| 0 <= j < i ==> (#[trigger] self@[j]).addr_64bit != addr_64bit,
            decreases self.modules@.len() - i,
        {
            if self.modules[i].device.addr_64bit == addr_64bit {
                assert(self@[i as int].addr_64bit == addr_64bit);
                return true;
            }
            i = i + 1;
        }
        false
    }

    /// Adds the module unless one with its address is known already.
    /// Returns whether it was added.
    pub fn add_if_new(&mut self, module: Module) -> (added: bool)
        ensures
            final(self)@ == added_if_new(old(self)@, module@),
            added == !knows_address(old(self)@, module@.addr_64bit),
            old(self).wf() ==> final(self).wf(),
    {
        if self.contains_address(module.device.addr_64bit) {
            false
        } else {
            proof {
                if self.wf() {
                    lemma_added_keeps_distinct(self@, module@);
                }
            }
            self.modules.push(module);
            true
        }
    }

    /// Forgets every module.
    pub fn clear(&mut self)
        ensures
            final(self)@ == Seq::<ModuleView>::empty(),
            final(self).wf(),
    {
        self.modules = Vec::new();
    }

    /// Looks a module up by node name. The name given is put in ASCII upper
    /// case and must then match the stored name exactly; the first match in
    /// registry order counts.
    pub fn get_module(&self, node_id: &str) -> (r: Option<usize>)
        ensures
            first_named(self@, ascii_upper(node_id@), r),
            r == position_of_name(self@, ascii_upper(node_id@)),
    {
        let wanted = to_ascii_uppercase(node_id);
        let mut i: usize = 0;
        while i < self.modules.len()
            invariant
                i <= self.modules@.len(),
                wanted@ == ascii_upper(node_id@),
                forall|j: int| 0 <= j < i ==> (#[trigger] self@[j]).node_id != wanted@,
            decreases self.modules@.len() - i,
        {
            if self.modules[i].device.node_id == wanted {
                proof {
                    lemma_position_of_name(self@, wanted@, Some(i));
                }
                return Some(i);
            }
            i = i + 1;
        }
        proof {
            lemma_position_of_name(self@, wanted@, None);
        }
        None
    }

    /// The node names of the known modules, in registry order.
    pub fn get_node_ids(&self) -> (r: Result<Vec<String>, Error>)
        ensures
            r is Ok,
            r->Ok_0@.len() == self@.len(),
            forall|i: int| 0 <= i < self@.len() ==> (#[trigger] r->Ok_0@[i])@ == self@[i].node_id,
    {
        let mut v: Vec<String> = Vec::new();
        let mut i: usize = 0;
        while i < self.modules.len()
            invariant
                i <= self.modules@.len(),
                v@.len() == i,
                forall|j: int| 0 <= j < i ==> (#[trigger] v@[j])@ == self@[j].node_id,
            decreases self.modules@.len() - i,
        {
            v.push(self.modules[i].device.node_id.clone());
            i = i + 1;
        }
        Ok(v)
    }

    /// A copy of the whole registry, for the caller to persist.
    pub fn snapshot(&self) -> (r: Vec<Module>)
        ensures
            views_of(r@) == self@,
    {
        let mut v: Vec<Module> = Vec::new();
        let mut i: usize = 0;
        while i < self.modules.len()
            invariant
                i <= self.modules@.len(),
                v@.len() == i,
                forall|j: int| 0 <= j < i ==> (#[trigger] v@[j])@ == self@[j],
            decreases self.modules@.len() - i,
        {
            v.push(self.modules[i].duplicate());
            i = i + 1;
        }
        v
    }

    /// Replaces the whole registry by the given modules, offered one by one
    /// in order. Nothing of the old registry is kept.
    pub fn restore(&mut self, modules: Vec<Module>)
        ensures
            final(self)@ == deduplicated(views_of(modules@)),
            final(self).wf(),
    {
        proof {
            lemma_deduplicated_distinct(views_of(modules@));
        }
        self.clear();
        let mut done: usize = 0;
        while done < modules.len()
            invariant
                done <= modules@.len(),
                self@ == deduplicated(views_of(modules@).subrange(0, done as int)),
            decreases modules@.len() - done,
        {
            proof {
                let upto = views_of(modules@).subrange(0, done + 1);
                assert(upto.drop_last() =~= views_of(modules@).subrange(0, done as int));
            }
            self.add_if_new(modules[done].duplicate());
            done = done + 1;
        }
        assert(views_of(modules@).subrange(0, done as int) =~= views_of(modules@));
    }

    /// Builds the request that asks the module at `module_idx` to carry out
    /// `cmd`. The reply the caller then reads goes to `check_response`.
    pub fn request(&self, module_idx: usize, cmd: ModuleCommands) -> (r: Result<
        TransmitRequestFrame,
        Error,
    >)
        ensures
            addressed_as(
                self@,
                module_idx,
                if module_idx < self@.len() {
                    Ok(request_payload(self@[module_idx as int].id, cmd.spec_value()))
                } else {
                    Err(Error::NoSuchModule)
                },
                r,
            ),
    {
        if module_idx >= self.modules.len() {
            return Err(Error::NoSuchModule);
        }
        let m = &self.modules[module_idx];
        let payload = build_request_payload(m.id, cmd);
        Ok(
            TransmitRequestFrame {
                dest_addr: m.device.addr_64bit,
                broadcast_radius: 0,
                options: 0,
                payload: vstd::slice::slice_to_vec(buffer_slice(&payload)),
            },
        )
    }

    /// Builds the request that has the module at `module_idx` set what `cmd`
    /// names, with `now` as the wall clock.
    pub fn set_at(
        &self,
        module_idx: usize,
        cmd: ModuleCommands,
        args: Option<&Vec<String>>,
        now: ClockReading,
    ) -> (r: Result<TransmitRequestFrame, Error>)
        ensures
            addressed_as(
                self@,
                module_idx,
                if module_idx < self@.len() {
                    set_payload(self@[module_idx as int].id, cmd, optional_texts(args), now)
                } else {
                    Err(Error::NoSuchModule)
                },
                r,
            ),
    {
        if module_idx >= self.modules.len() {
            return Err(Error::NoSuchModule);
        }
        let m = &self.modules[module_idx];
        let payload = match build_set_payload(m.id, cmd, args, now) {
            Ok(payload) => payload,
            Err(e) => {
                return Err(e);
            },
        };
        Ok(
            TransmitRequestFrame {
                dest_addr: m.device.addr_64bit,
                broadcast_radius: 0,
                options: 0,
                payload: vstd::slice::slice_to_vec(buffer_slice(&payload)),
            },
        )
    }

    /// Builds the request that has the module at `module_idx` set what `cmd`
    /// names. The host's wall clock is read for `SetTime` and for nothing
    /// else.
    pub fn set(&self, module_idx: usize, cmd: ModuleCommands, args: Option<&Vec<String>>) -> (r:
        Result<TransmitRequestFrame, Error>)
        ensures
            exists|now: ClockReading|
                addressed_as(
                    self@,
                    module_idx,
                    if module_idx < self@.len() {
                        set_payload(self@[module_idx as int].id, cmd, optional_texts(args), now)
                    } else {
                        Err(Error::NoSuchModule)
                    },
                    r,
                ),
            cmd != ModuleCommands::SetTime ==> forall|now: ClockReading|
                addressed_as(
                    self@,
                    module_idx,
                    if module_idx < self@.len() {
                        #[trigger] set_payload(
                            self@[module_idx as int].id,
                            cmd,
                            optional_texts(args),
                            now,
                        )
                    } else {
                        Err(Error::NoSuchModule)
                    },
                    r,
                ),
    {
        let now = match cmd {
            ModuleCommands::SetTime => local_now(),
            _ => ClockReading { second: 0, minute: 0, hour: 0, day: 0, month: 0, year: 0 },
        };
        self.set_at(module_idx, cmd, args, now)
    }
}

/// What a request builder returns: a transmit request to the module at
/// `module_idx` with the payload expected, no options and broadcast radius
/// 0; or the error expected.
pub open spec fn addressed_as(
    mods: Seq<ModuleView>,
    module_idx: usize,
    expected: Result<Seq<u8>, Error>,
    r: Result<TransmitRequestFrame, Error>,
) -> bool {
    match r {
        Ok(frame) => {
            &&& module_idx < mods.len()
            &&& expected is Ok
            &&& frame@ == (FrameView::TransmitRequest {
                dest_addr: mods[module_idx as int].addr_64bit,
                broadcast_radius: 0,
                options: 0,
                payload: expected->Ok_0,
            })
        },
        Err(e) => expected == Err::<Seq<u8>, Error>(e),
    }
}

/// The payload of the discovery probe: a marker no application payload
/// starts with.
pub open spec fn discovery_sentinel() -> Seq<u8> {
    seq![0x0au8, 0xaau8]
}

/// Where discovery stands.
#[derive(Debug, Clone, Copy, PartialEq, Eq, Structural)]
pub enum DiscoveryPhase {
    /// The probe is out and replies are being collected.
    Collecting,
    /// The module at `module` is being asked `query`.
    Enriching { module: usize, query: InfoQuery },
    /// Nothing is left to do.
    Finished,
}

/// What the transport brought.
#[derive(Debug, Clone, PartialEq, Eq)]
pub enum DiscoveryEvent {
    /// A data frame was received and decoded.
    Reply(RecieveRequestFrame),
    /// No frame could be received or decoded.
    ReceiveFailed,
    /// The outcome of a query: the response, or nothing where none came.
    Info(Option<RemoteAtCommandResponse>),
}

/// What the caller is to do next.
#[derive(Debug, Clone, PartialEq, Eq)]
pub enum DiscoveryAction {
    /// Send the probe, then receive a data frame.
    Broadcast(TransmitRequestFrame),
    /// Receive a data frame.
    Receive,
    /// Send the remote AT command, then receive its response.
    Query(RemoteAtCommandFrame),
    /// Stop: discovery is over.
    Done,
}

/// An event as a mathematical value.
pub enum DiscoveryEventView {
    Reply { source_addr: u64, rf_data: Seq<u8> },
    ReceiveFailed,
    Info { data: Option<Seq<u8>> },
}

impl View for DiscoveryEvent {
    type V = DiscoveryEventView;

    open spec fn view(&self) -> DiscoveryEventView {
        match *self {
            DiscoveryEvent::Reply(f) => DiscoveryEventView::Reply {
                source_addr: f.source_addr,
                rf_data: f.rf_data@,
            },
            DiscoveryEvent::ReceiveFailed => DiscoveryEventView::ReceiveFailed,
            DiscoveryEvent::Info(Some(resp)) => DiscoveryEventView::Info {
                data: optional_view(resp.command_data),
            },
            DiscoveryEvent::Info(None) => DiscoveryEventView::Info { data: None },
        }
    }
}

/// An action as a mathematical value.
pub enum DiscoveryActionView {
    Broadcast(FrameView),
    Receive,
    Query(FrameView),
    Done,
}

impl View for DiscoveryAction {
    type V = DiscoveryActionView;

    open spec fn view(&self) -> DiscoveryActionView {
        match *self {
            DiscoveryAction::Broadcast(f) => DiscoveryActionView::Broadcast(f@),
            DiscoveryAction::Receive => DiscoveryActionView::Receive,
            DiscoveryAction::Query(f) => DiscoveryActionView::Query(f@),
            DiscoveryAction::Done => DiscoveryActionView::Done,
        }
    }
}

/// The probe that opens discovery: the sentinel, broadcast.
pub open spec fn discovery_probe() -> FrameView {
    FrameView::TransmitRequest {
        dest_addr: BROADCAST_ADDR,
        broadcast_radius: 0,
        options: 0,
        payload: discovery_sentinel(),
    }
}

/// The remote AT command that asks a module a question.
pub open spec fn info_request(m: ModuleView, query: InfoQuery) -> FrameView {
    FrameView::RemoteAtCommand {
        dest_addr: m.addr_64bit,
        options: RemoteCommandOptions { apply_changes: false },
        atcmd: query.spec_mnemonic(),
        cmd_param: None,
    }
}

/// The registry after a reply to the probe: the sender is offered under the
/// id in the first two payload bytes, big-endian. A reply too short to hold
/// an id changes nothing.
pub open spec fn after_reply(mods: Seq<ModuleView>, source_addr: u64, rf_data: Seq<u8>) -> Seq<
    ModuleView,
> {
    if rf_data.len() < 2 {
        mods
    } else {
        added_if_new(mods, ModuleView::discovered(be16_value(rf_data[0], rf_data[1]), source_addr))
    }
}

/// The registry after the outcome of a query to the module at `module`.
pub open spec fn after_info(
    mods: Seq<ModuleView>,
    module: int,
    query: InfoQuery,
    data: Option<Seq<u8>>,
) -> Seq<ModuleView> {
    if 0 <= module < mods.len() {
        mods.update(module, mods[module].with_info(query, data))
    } else {
        mods
    }
}

/// The phase in which the first module is asked its first question; with no
/// module known, discovery is over.
pub open spec fn first_query(known: nat) -> DiscoveryPhase {
    if known == 0 {
        DiscoveryPhase::Finished
    } else {
        DiscoveryPhase::Enriching { module: 0, query: InfoQuery::NodeName }
    }
}

/// The phase that follows a query: node name, hardware version, firmware
/// version, then the next module; after the last module, discovery is over.
pub open spec fn next_query(known: nat, module: usize, query: InfoQuery) -> DiscoveryPhase {
    match query {
        InfoQuery::NodeName => DiscoveryPhase::Enriching { module, query: InfoQuery::HardwareVersion },
        InfoQuery::HardwareVersion => DiscoveryPhase::Enriching {
            module,
            query: InfoQuery::FirmwareVersion,
        },
        InfoQuery::FirmwareVersion => if module + 1 < known {
            DiscoveryPhase::Enriching { module: (module + 1) as usize, query: InfoQuery::NodeName }
        } else {
            DiscoveryPhase::Finished
        },
    }
}

/// One step of discovery: the registry and the phase after `event` arrived
/// in `phase`.
///
/// While collecting, every reply is taken in and collecting goes on; the
/// first failure to receive ends collecting and starts the questions. While
/// asking, the outcome of a query is taken in, usable or not, and the next
/// question follows. An event that the phase does not await changes nothing.
/// A phase that points past the registry counts as finished.
pub open spec fn discovery_next(
    mods: Seq<ModuleView>,
    phase: DiscoveryPhase,
    event: DiscoveryEventView,
) -> (Seq<ModuleView>, DiscoveryPhase) {
    match phase {
        DiscoveryPhase::Collecting => match event {
            DiscoveryEventView::Reply { source_addr, rf_data } => (
                after_reply(mods, source_addr, rf_data),
                DiscoveryPhase::Collecting,
            ),
            DiscoveryEventView::ReceiveFailed => (mods, first_query(mods.len())),
            DiscoveryEventView::Info { .. } => (mods, phase),
        },
        DiscoveryPhase::Enriching { module, query } => if module >= mods.len() {
            (mods, DiscoveryPhase::Finished)
        } else {
            match event {
                DiscoveryEventView::Info { data } => (
                    after_info(mods, module as int, query, data),
                    next_query(mods.len(), module, query),
                ),
                _ => (mods, phase),
            }
        },
        DiscoveryPhase::Finished => (mods, phase),
    }
}

/// What the caller is to do in a phase.
pub open spec fn awaited_action(mods: Seq<ModuleView>, phase: DiscoveryPhase) -> DiscoveryActionView {
    match phase {
        DiscoveryPhase::Collecting => DiscoveryActionView::Receive,
        DiscoveryPhase::Enriching { module, query } => if module < mods.len() {
            DiscoveryActionView::Query(info_request(mods[module as int], query))
        } else {
            DiscoveryActionView::Done
        },
        DiscoveryPhase::Finished => DiscoveryActionView::Done,
    }
}

/// The number of questions still to be asked in a phase: three for each
/// module from the one being asked on, less those it has been asked already.
pub open spec fn questions_left(known: nat, phase: DiscoveryPhase) -> nat {
    match phase {
        DiscoveryPhase::Enriching { module, query } => if module < known {
            (3 * (known - module) - match query {
                InfoQuery::NodeName => 0int,
                InfoQuery::HardwareVersion => 1int,
                InfoQuery::FirmwareVersion => 2int,
            }) as nat
        } else {
            0
        },
        _ => 0,
    }
}

/// While modules are asked, every outcome of a query, usable or not, leaves
/// one question less: each module is asked three questions, and then
/// discovery is over.
pub proof fn lemma_every_outcome_is_progress(
    mods: Seq<ModuleView>,
    phase: DiscoveryPhase,
    data: Option<Seq<u8>>,
)
    requires
        mods.len() <= usize::MAX,
        phase is Enriching,
        questions_left(mods.len(), phase) > 0,
    ensures
        ({
            let next = discovery_next(mods, phase, DiscoveryEventView::Info { data });
            &&& next.0.len() == mods.len()
            &&& questions_left(mods.len(), next.1) == questions_left(mods.len(), phase) - 1
            &&& questions_left(mods.len(), next.1) == 0 <==> next.1 is Finished
        }),
{
}

/// Once the first receive has failed, all questions are still to be asked.
pub proof fn lemma_first_query_asks_everything(known: nat)
    ensures
        questions_left(known, first_query(known)) == 3 * known,
{
}

/// A step of discovery changes no address that was known and keeps the
/// addresses distinct.
pub proof fn lemma_discovery_keeps_distinct(
    mods: Seq<ModuleView>,
    phase: DiscoveryPhase,
    event: DiscoveryEventView,
)
    requires
        distinct_addresses(mods),
    ensures
        distinct_addresses(discovery_next(mods, phase, event).0),
        mods.len() <= discovery_next(mods, phase, event).0.len(),
        forall|i: int|
            0 <= i < mods.len() ==> (#[trigger] discovery_next(mods, phase, event).0[i]).addr_64bit
                == mods[i].addr_64bit,
{
}

impl ModuleManager {
    /// Opens discovery: the caller is to broadcast the probe and then to
    /// report what it receives to `discovery_step`.
    pub fn discovery_mode(&self) -> (r: (DiscoveryPhase, DiscoveryAction))
        ensures
            r.0 == DiscoveryPhase::Collecting,
            r.1@ == DiscoveryActionView::Broadcast(discovery_probe()),
    {
        let mut payload: Vec<u8> = Vec::new();
        payload.push(0x0a);
        payload.push(0xaa);
        assert(payload@ =~= discovery_sentinel());
        let probe = TransmitRequestFrame {
            dest_addr: BROADCAST_ADDR,
            broadcast_radius: 0,
            options: 0,
            payload,
        };
        (DiscoveryPhase::Collecting, DiscoveryAction::Broadcast(probe))
    }

    /// The action that a phase awaits.
    fn action_for(&self, phase: DiscoveryPhase) -> (action: DiscoveryAction)
        ensures
            action@ == awaited_action(self@, phase),
    {
        match phase {
            DiscoveryPhase::Collecting => DiscoveryAction::Receive,
            DiscoveryPhase::Enriching { module, query } => {
                if module < self.modules.len() {
                    DiscoveryAction::Query(self.modules[module].info_request(query))
                } else {
                    DiscoveryAction::Done
                }
            },
            DiscoveryPhase::Finished => DiscoveryAction::Done,
        }
    }

    /// Takes one event of discovery in and says what to do next.
    pub fn discovery_step(&mut self, phase: DiscoveryPhase, event: DiscoveryEvent) -> (r: (
        DiscoveryPhase,
        DiscoveryAction,
    ))
        ensures
            (final(self)@, r.0) == discovery_next(old(self)@, phase, event@),
            r.1@ == awaited_action(final(self)@, r.0),
            old(self).wf() ==> final(self).wf(),
    {
        proof {
            if self.wf() {
                lemma_discovery_keeps_distinct(self@, phase, event@);
            }
        }
        let next = match phase {
            DiscoveryPhase::Collecting => match event {
                DiscoveryEvent::Reply(reply) => {
                    if reply.rf_data.len() >= 2 {
                        let id = read_be16(reply.rf_data.as_slice(), 0);
                        self.add_if_new(Module::discovered(id, reply.source_addr));
                    }
                    DiscoveryPhase::Collecting
                },
                DiscoveryEvent::ReceiveFailed => {
                    if self.modules.len() == 0 {
                        DiscoveryPhase::Finished
                    } else {
                        DiscoveryPhase::Enriching { module: 0, query: InfoQuery::NodeName }
                    }
                },
                DiscoveryEvent::Info(_) => phase,
            },
            DiscoveryPhase::Enriching { module, query } => {
                if module >= self.modules.len() {
                    DiscoveryPhase::Finished
                } else {
                    match event {
                        DiscoveryEvent::Info(outcome) => {
                            match outcome {
                                Some(response) => {
                                    let ghost before = self.modules@;
                                    self.modules[module].apply_info(query, &response);
                                    assert(self@ =~= after_info(
                                        views_of(before),
                                        module as int,
                                        query,
                                        optional_view(response.command_data),
                                    ));
                                },
                                None => {},
                            }
                            match query {
                                InfoQuery::NodeName => DiscoveryPhase::Enriching {
                                    module,
                                    query: InfoQuery::HardwareVersion,
                                },
                                InfoQuery::HardwareVersion => DiscoveryPhase::Enriching {
                                    module,
                                    query: InfoQuery::FirmwareVersion,
                                },
                                InfoQuery::FirmwareVersion => {
                                    if module + 1 < self.modules.len() {
                                        DiscoveryPhase::Enriching {
                                            module: module + 1,
                                            query: InfoQuery::NodeName,
                                        }
                                    } else {
                                        DiscoveryPhase::Finished
                                    }
                                },
                            }
                        },
                        _ => phase,
                    }
                }
            },
            DiscoveryPhase::Finished => phase,
        };
        (next, self.action_for(next))
    }
}

} // verus!
