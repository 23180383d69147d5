//! The mathematical model of the forwarding engine: the registry as a
//! sequence of entries, its invariant, and every transition of the engine
//! as a function from the registry before to the registry after.

use vstd::prelude::*;
use crate::error::EngineError;
use crate::counters::wrapped_sum;
use crate::forwarder::controller::ForwardController;
use crate::forwarder::limits::MAX_CONNECTIONS;
use crate::text::{host_port, opt_view};
use crate::toolbox::{ForwardRuleInput, ForwardRuleView, RuleStatus};

verus! {

/// The mathematical value of one registry entry: the rule, the controller
/// that exists while the rule runs, and the number of the rule's last start.
pub struct RuleEntryView {
    pub rule: ForwardRuleView,
    pub controller: Option<ForwardController>,
    pub run: u64,
}

/// Whether some entry has the id.
pub open spec fn has_rule(entries: Seq<RuleEntryView>, id: Seq<char>) -> bool {
    exists|i: int| 0 <= i < entries.len() && (#[trigger] entries[i]).rule.id == id
}

/// The place of the entry with the id, where [`has_rule`] holds.
pub open spec fn rule_index(entries: Seq<RuleEntryView>, id: Seq<char>) -> int {
    choose|i: int| 0 <= i < entries.len() && (#[trigger] entries[i]).rule.id == id
}

/// No two entries share an id.
pub open spec fn ids_unique(entries: Seq<RuleEntryView>) -> bool {
    forall|i: int, j: int|
        0 <= i < j < entries.len() ==> (#[trigger] entries[i]).rule.id != (#[trigger] entries[j]).rule.id
}

/// The ids of the rules, in the order of the registry.
pub open spec fn rule_ids(entries: Seq<RuleEntryView>) -> Seq<Seq<char>> {
    Seq::new(entries.len(), |i: int| entries[i].rule.id)
}

/// A rule has the id exactly where the id is among the ids of the rules.
pub proof fn lemma_rule_ids(entries: Seq<RuleEntryView>, id: Seq<char>)
    ensures
        has_rule(entries, id) <==> rule_ids(entries).contains(id),
{
    if has_rule(entries, id) {
        let i = rule_index(entries, id);
        assert(rule_ids(entries)[i] == id);
    }
    if rule_ids(entries).contains(id) {
        let i = choose|i: int| 0 <= i < rule_ids(entries).len() && rule_ids(entries)[i] == id;
        assert(entries[i].rule.id == id);
    }
}

/// Whether a running rule listens on `port`.
pub open spec fn port_busy(entries: Seq<RuleEntryView>, port: u16) -> bool {
    exists|i: int|
        0 <= i < entries.len() && (#[trigger] entries[i]).rule.status == RuleStatus::Running
            && entries[i].rule.local_port == port
}

/// No two running rules share a local port.
pub open spec fn running_ports_unique(entries: Seq<RuleEntryView>) -> bool {
    forall|i: int, j: int|
        0 <= i < j < entries.len() && (#[trigger] entries[i]).rule.status == RuleStatus::Running
            && (#[trigger] entries[j]).rule.status == RuleStatus::Running
            ==> entries[i].rule.local_port != entries[j].rule.local_port
}

/// What holds of every entry: a controller exists exactly while the rule
/// runs, it is not stopped and counts at most [`MAX_CONNECTIONS`]
/// connections, and a rule that does not run has all statistics at zero.
pub open spec fn entry_wf(e: RuleEntryView) -> bool {
    &&& e.controller is Some <==> e.rule.status == RuleStatus::Running
    &&& e.controller is Some ==> !e.controller->0.stop && e.controller->0.connections <= MAX_CONNECTIONS
    &&& e.rule.status == RuleStatus::Stopped ==> e.rule == cold(e.rule)
}

/// The invariant of the registry.
pub open spec fn entries_wf(entries: Seq<RuleEntryView>) -> bool {
    &&& ids_unique(entries)
    &&& running_ports_unique(entries)
    &&& forall|i: int| 0 <= i < entries.len() ==> entry_wf(#[trigger] entries[i])
}

/// Where ids are unique, the entry at a place is the entry that its id
/// names.
pub proof fn lemma_rule_at(entries: Seq<RuleEntryView>, i: int)
    requires
        ids_unique(entries),
        0 <= i < entries.len(),
    ensures
        has_rule(entries, entries[i].rule.id),
        rule_index(entries, entries[i].rule.id) == i,
{
    let id = entries[i].rule.id;
    assert(has_rule(entries, id));
    let k = rule_index(entries, id);
    if k < i {
        assert(entries[k].rule.id != entries[i].rule.id);
    } else if i < k {
        assert(entries[i].rule.id != entries[k].rule.id);
    }
}

/// A rule as it is stored while it does not run: stopped, with all
/// statistics at zero.
pub open spec fn cold(r: ForwardRuleView) -> ForwardRuleView {
    ForwardRuleView { status: RuleStatus::Stopped, connections: 0, bytes_in: 0, bytes_out: 0, ..r }
}

/// The entry of a rule that does not run.
pub open spec fn idle_entry(r: ForwardRuleView, run: u64) -> RuleEntryView {
    RuleEntryView { rule: cold(r), controller: None, run }
}

/// The rule that `input` describes, under the given id and creation time.
pub open spec fn new_rule(input: ForwardRuleInput, id: Seq<char>, created_at: Seq<char>) -> ForwardRuleView {
    ForwardRuleView {
        id,
        name: input.name@,
        local_port: input.local_port,
        remote_host: input.remote_host@,
        remote_port: input.remote_port,
        doc_path: opt_view(input.doc_path),
        status: RuleStatus::Stopped,
        connections: 0,
        bytes_in: 0,
        bytes_out: 0,
        created_at,
    }
}

/// A rule with its configuration replaced by `input`; id, creation time,
/// status and statistics stay.
pub open spec fn reconfigured(r: ForwardRuleView, input: ForwardRuleInput) -> ForwardRuleView {
    ForwardRuleView {
        name: input.name@,
        local_port: input.local_port,
        remote_host: input.remote_host@,
        remote_port: input.remote_port,
        doc_path: opt_view(input.doc_path),
        ..r
    }
}

/// The registry after `r` was stored as a rule that does not run: in the
/// place of the entry with its id, or at the end.
pub open spec fn put_rule(entries: Seq<RuleEntryView>, r: ForwardRuleView) -> Seq<RuleEntryView> {
    if has_rule(entries, r.id) {
        let i = rule_index(entries, r.id);
        entries.update(i, idle_entry(r, entries[i].run))
    } else {
        entries.push(idle_entry(r, 0))
    }
}

/// The registry that a stored list of rules gives: each rule in turn is
/// stored as a rule that does not run, a later one taking the place of an
/// earlier one with the same id.
pub open spec fn loaded(rules: Seq<ForwardRuleView>) -> Seq<RuleEntryView>
    decreases rules.len(),
{
    if rules.len() == 0 {
        Seq::<RuleEntryView>::empty()
    } else {
        put_rule(loaded(rules.drop_last()), rules.last())
    }
}

/// Why a new rule is refused, if it is: a zero local port, a zero remote
/// port, an empty remote host, or a local port on which a running rule
/// listens, in this order.
pub open spec fn add_refusal(entries: Seq<RuleEntryView>, input: ForwardRuleInput) -> Option<EngineError> {
    if input.local_port == 0 {
        Some(EngineError::LocalPortZero)
    } else if input.remote_port == 0 {
        Some(EngineError::RemotePortZero)
    } else if input.remote_host@.len() == 0 {
        Some(EngineError::RemoteHostEmpty)
    } else if port_busy(entries, input.local_port) {
        Some(EngineError::PortInUse)
    } else {
        None
    }
}

/// Why a start is refused, if it is: no such rule, the rule runs already, or
/// a running rule listens on its local port.
pub open spec fn start_refusal(entries: Seq<RuleEntryView>, id: Seq<char>) -> Option<EngineError> {
    if !has_rule(entries, id) {
        Some(EngineError::RuleNotFound)
    } else if entries[rule_index(entries, id)].rule.status == RuleStatus::Running {
        Some(EngineError::AlreadyRunning)
    } else if port_busy(entries, entries[rule_index(entries, id)].rule.local_port) {
        Some(EngineError::PortInUse)
    } else {
        None
    }
}

/// A controller as it is when a rule starts.
pub open spec fn fresh_controller() -> ForwardController {
    ForwardController { stop: false, connections: 0, bytes_in: 0, bytes_out: 0 }
}

/// The address on which a rule with the local port listens: the port on
/// every interface.
pub open spec fn listen_addr(local_port: u16) -> Seq<char> {
    host_port("0.0.0.0"@, local_port)
}

/// The registry after the rule `id` was started as run number `run`.
pub open spec fn after_start(entries: Seq<RuleEntryView>, id: Seq<char>, run: u64) -> Seq<RuleEntryView> {
    let i = rule_index(entries, id);
    entries.update(
        i,
        RuleEntryView {
            rule: ForwardRuleView { status: RuleStatus::Running, ..entries[i].rule },
            controller: Some(fresh_controller()),
            run,
        },
    )
}

/// How binding the listener of a started rule ended.
#[derive(Debug, Clone, Copy, PartialEq, Eq, Structural)]
pub enum BindOutcome {
    Bound,
    Failed,
}

/// The registry after the listener of the given run was or was not bound:
/// a failure ends the run at once, as [`after_exit`] does.
pub open spec fn after_bind(
    entries: Seq<RuleEntryView>,
    id: Seq<char>,
    run: u64,
    outcome: BindOutcome,
) -> Seq<RuleEntryView> {
    match outcome {
        BindOutcome::Bound => entries,
        BindOutcome::Failed => after_exit(entries, id, run),
    }
}

/// The registry after the accept loop of the given run has ended: the rule
/// is idle if this run was its last start, else nothing changes.
pub open spec fn after_exit(entries: Seq<RuleEntryView>, id: Seq<char>, run: u64) -> Seq<RuleEntryView> {
    if has_rule(entries, id) && entries[rule_index(entries, id)].run == run {
        after_stop(entries, id)
    } else {
        entries
    }
}

/// The registry after the rule `id` was stopped: its entry is idle, the
/// others are as before. Without such a rule nothing changes.
pub open spec fn after_stop(entries: Seq<RuleEntryView>, id: Seq<char>) -> Seq<RuleEntryView> {
    if has_rule(entries, id) {
        let i = rule_index(entries, id);
        entries.update(i, idle_entry(entries[i].rule, entries[i].run))
    } else {
        entries
    }
}

/// The registry without the rule `id`.
pub open spec fn after_remove(entries: Seq<RuleEntryView>, id: Seq<char>) -> Seq<RuleEntryView> {
    if has_rule(entries, id) {
        entries.remove(rule_index(entries, id))
    } else {
        entries
    }
}

/// The registry after the configuration of the rule `id` was replaced by
/// `input`: the rule is idle and carries the new configuration.
pub open spec fn after_update(entries: Seq<RuleEntryView>, id: Seq<char>, input: ForwardRuleInput) -> Seq<
    RuleEntryView,
> {
    let i = rule_index(entries, id);
    entries.update(i, idle_entry(reconfigured(entries[i].rule, input), entries[i].run))
}

/// An entry with its rule's statistics brought up to its controller's.
pub open spec fn synced(e: RuleEntryView) -> RuleEntryView {
    match e.controller {
        Some(c) => RuleEntryView {
            rule: ForwardRuleView {
                connections: c.connections,
                bytes_in: c.bytes_in,
                bytes_out: c.bytes_out,
                ..e.rule
            },
            ..e
        },
        None => e,
    }
}

/// The registry with the statistics of the rule `id` brought up to its
/// controller's.
pub open spec fn after_sync(entries: Seq<RuleEntryView>, id: Seq<char>) -> Seq<RuleEntryView> {
    if has_rule(entries, id) {
        let i = rule_index(entries, id);
        entries.update(i, synced(entries[i]))
    } else {
        entries
    }
}

/// The registry with the statistics of every rule brought up to date.
pub open spec fn all_synced(entries: Seq<RuleEntryView>) -> Seq<RuleEntryView> {
    Seq::new(entries.len(), |i: int| synced(entries[i]))
}

/// Whether the run numbered `run` of the rule `id` goes on: the rule is
/// there, its last start has this number, and its controller is not stopped.
pub open spec fn run_live(entries: Seq<RuleEntryView>, id: Seq<char>, run: u64) -> bool {
    exists|i: int|
        0 <= i < entries.len() && (#[trigger] entries[i]).rule.id == id && entries[i].run == run
            && entries[i].controller is Some && !entries[i].controller->0.stop
}

/// The place of the live run `run` of the rule `id`, where [`run_live`] holds.
pub open spec fn live_index(entries: Seq<RuleEntryView>, id: Seq<char>, run: u64) -> int {
    choose|i: int|
        0 <= i < entries.len() && (#[trigger] entries[i]).rule.id == id && entries[i].run == run
            && entries[i].controller is Some && !entries[i].controller->0.stop
}

/// An entry with its controller replaced, and its rule's statistics brought
/// up to the new controller.
pub open spec fn with_controller(e: RuleEntryView, c: ForwardController) -> RuleEntryView {
    synced(RuleEntryView { controller: Some(c), ..e })
}

/// What the accept loop of a rule has seen.
#[derive(Debug, Clone, Copy, PartialEq, Eq, Structural)]
pub enum AcceptEvent {
    /// A client has connected and waits to be relayed.
    Connection,
    /// Accepting failed.
    Failed,
    /// The poll interval passed without a connection.
    Tick,
}

/// What the accept loop of a rule does next.
#[derive(Debug, Clone, Copy, PartialEq, Eq, Structural)]
pub enum AcceptAction {
    /// Relay the connection; it has been counted.
    Relay,
    /// Every permit is taken: keep the connection and ask again when one
    /// has been closed.
    Wait,
    /// Go on accepting.
    Continue,
    /// The run is over: close the listener.
    Exit,
}

/// The decision of the accept loop on an event, and the registry after it.
pub open spec fn accept_decision(
    entries: Seq<RuleEntryView>,
    id: Seq<char>,
    run: u64,
    event: AcceptEvent,
) -> (AcceptAction, Seq<RuleEntryView>) {
    if !run_live(entries, id, run) {
        (AcceptAction::Exit, entries)
    } else if event != AcceptEvent::Connection {
        (AcceptAction::Continue, entries)
    } else {
        let i = live_index(entries, id, run);
        let c = entries[i].controller->0;
        if c.connections >= MAX_CONNECTIONS {
            (AcceptAction::Wait, entries)
        } else {
            (
                AcceptAction::Relay,
                entries.update(
                    i,
                    with_controller(entries[i],
                        ForwardController { connections: (c.connections + 1) as u32, ..c }),
                ),
            )
        }
    }
}

/// The registry after a relayed connection of the given run was closed.
pub open spec fn after_close(entries: Seq<RuleEntryView>, id: Seq<char>, run: u64) -> Seq<RuleEntryView> {
    if run_live(entries, id, run) && entries[live_index(entries, id, run)].controller->0.connections > 0 {
        let i = live_index(entries, id, run);
        let c = entries[i].controller->0;
        entries.update(i, with_controller(entries[i],
            ForwardController { connections: (c.connections - 1) as u32, ..c }))
    } else {
        entries
    }
}

/// How the outbound connection of a relay ended.
#[derive(Debug, Clone, Copy, PartialEq, Eq, Structural)]
pub enum ConnectOutcome {
    Connected,
    Failed,
    TimedOut,
}

/// The error that the end of an outbound connection attempt stands for.
pub open spec fn connect_refusal(outcome: ConnectOutcome) -> Option<EngineError> {
    match outcome {
        ConnectOutcome::Connected => None,
        ConnectOutcome::Failed => Some(EngineError::ConnectFailed),
        ConnectOutcome::TimedOut => Some(EngineError::ConnectTimeout),
    }
}

/// The direction of one copy loop of a relay.
#[derive(Debug, Clone, Copy, PartialEq, Eq, Structural)]
pub enum Direction {
    /// From the client to the remote side.
    Outbound,
    /// From the remote side to the client.
    Inbound,
}

/// What one copy loop has seen.
#[derive(Debug, Clone, Copy, PartialEq, Eq)]
pub enum ReadEvent<'a> {
    /// A read returned these bytes; none means the end of the stream.
    Read(&'a [u8]),
    /// A read or the write of the last chunk failed.
    Failed,
    /// The poll interval passed without data.
    Idle,
}

/// What one copy loop does next.
#[derive(Debug, Clone, Copy, PartialEq, Eq)]
pub enum RelayAction<'a> {
    /// Write these bytes to the other side, all of them and in this order.
    Forward(&'a [u8]),
    /// Read again.
    Continue,
    /// Shut down the write side of the other socket and leave the loop; the
    /// opposite direction goes on by itself. The error is that of a failed
    /// read or write; the end of the stream is none.
    HalfClose(Option<EngineError>),
}

/// The decision of a copy loop on an event: bytes that were read are
/// forwarded as they are; the end of the stream and a failure close this
/// direction; an idle interval changes nothing.
pub open spec fn relay_decision<'a>(event: ReadEvent<'a>) -> RelayAction<'a> {
    match event {
        ReadEvent::Read(bytes) => if bytes@.len() == 0 {
            RelayAction::HalfClose(None)
        } else {
            RelayAction::Forward(bytes)
        },
        ReadEvent::Failed => RelayAction::HalfClose(Some(EngineError::TransferFailed)),
        ReadEvent::Idle => RelayAction::Continue,
    }
}

/// The registry after a copy loop of the given run saw `event`: bytes that
/// were read are added to the controller's counter of their direction.
pub open spec fn after_relay(
    entries: Seq<RuleEntryView>,
    id: Seq<char>,
    run: u64,
    direction: Direction,
    event: ReadEvent,
) -> Seq<RuleEntryView> {
    if run_live(entries, id, run) && event is Read && event->Read_0@.len() > 0 {
        let i = live_index(entries, id, run);
        let c = entries[i].controller->0;
        let n = event->Read_0@.len();
        let counted = match direction {
            Direction::Outbound => ForwardController { bytes_out: wrapped_sum(c.bytes_out, n), ..c },
            Direction::Inbound => ForwardController { bytes_in: wrapped_sum(c.bytes_in, n), ..c },
        };
        entries.update(i, RuleEntryView { controller: Some(counted), ..entries[i] })
    } else {
        entries
    }
}

/// The bytes that an action writes to the other side.
pub open spec fn forwarded(action: RelayAction) -> Seq<u8> {
    match action {
        RelayAction::Forward(bytes) => bytes@,
        _ => Seq::empty(),
    }
}

/// The bytes that a copy loop writes to the other side while it sees the
/// events in turn, up to the event that closes its direction.
pub open spec fn written(events: Seq<ReadEvent>) -> Seq<u8>
    decreases events.len(),
{
    if events.len() == 0 {
        Seq::empty()
    } else if relay_decision(events[0]) is HalfClose {
        Seq::empty()
    } else {
        forwarded(relay_decision(events[0])) + written(events.skip(1))
    }
}

/// The bytes that the reads of a stream returned, in their order, up to the
/// end of the stream or its failure.
pub open spec fn arrived(events: Seq<ReadEvent>) -> Seq<u8>
    decreases events.len(),
{
    if events.len() == 0 {
        Seq::empty()
    } else {
        match events[0] {
            ReadEvent::Read(bytes) => if bytes@.len() == 0 {
                Seq::empty()
            } else {
                bytes@ + arrived(events.skip(1))
            },
            ReadEvent::Failed => Seq::empty(),
            ReadEvent::Idle => arrived(events.skip(1)),
        }
    }
}

} // verus!
