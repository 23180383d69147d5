//! The engine itself: the registry of rules with the controllers of those
//! that run, and the operations on it.

use vstd::prelude::*;
use crate::clock::ClockReading;
use crate::error::EngineError;
use crate::forwarder::controller::ForwardController;
use crate::forwarder::limits::MAX_CONNECTIONS;
use crate::forwarder::model::{
    accept_decision, add_refusal, after_bind, after_close, after_exit, after_relay, after_remove,
    after_start, after_stop, after_sync, after_update, all_synced, cold, connect_refusal,
    entries_wf, has_rule, idle_entry, lemma_rule_at, lemma_rule_ids, listen_addr, live_index,
    loaded, new_rule, port_busy, put_rule, relay_decision, rule_ids, rule_index, run_live,
    start_refusal, synced, AcceptAction, AcceptEvent, BindOutcome, ConnectOutcome, Direction,
    ReadEvent, RelayAction, RuleEntryView,
};
use crate::text::{format_host_port, host_port, str_eq};
use crate::toolbox::ids::{
    current_time, generate_id, id_text, id_views, is_lower_hex_text, lemma_id_text_hex,
    lemma_unused_id, time_text_of, unused_id, unused_id_among, IdSource,
};
use crate::toolbox::{ForwardRule, ForwardRuleInput, ForwardStats, RuleStatus};

verus! {

/// A changed rule, and the rule as it was before the change.
#[derive(Debug)]
pub struct RuleUpdate {
    pub rule: ForwardRule,
    pub previous: ForwardRule,
}

/// One entry of the registry: a rule, its controller while it runs, and the
/// number of its last start.
struct RuleEntry {
    rule: ForwardRule,
    controller: Option<ForwardController>,
    run: u64,
}

/// The mathematical value of an entry.
spec fn entry_view(e: RuleEntry) -> RuleEntryView {
    RuleEntryView { rule: e.rule@, controller: e.controller, run: e.run }
}

/// What a started rule needs from the code that drives its sockets: the
/// number of this run, the port to listen on, and the address to relay to.
#[derive(Debug)]
pub struct ForwardTarget {
    pub rule_id: String,
    pub run: u64,
    pub local_port: u16,
    /// The address to listen on: the local port on every interface.
    pub bind_addr: String,
    pub remote_addr: String,
}

/// The registry of forwarding rules with the controllers of those that run.
pub struct ForwardEngine {
    entries: Vec<RuleEntry>,
    next_run: u64,
    ids: IdSource,
}

impl View for ForwardEngine {
    type V = Seq<RuleEntryView>;

    closed spec fn view(&self) -> Seq<RuleEntryView> {
        Seq::new(self.entries@.len(), |i: int| entry_view(self.entries@[i]))
    }
}

impl ForwardEngine {
    /// The number that the next start will get.
    pub closed spec fn next_run(&self) -> u64 {
        self.next_run
    }

    /// The serial number of the next id that the engine draws.
    pub closed spec fn issued(&self) -> nat {
        self.ids.issued()
    }

    /// The invariant of the engine: see [`entries_wf`].
    pub open spec fn wf(&self) -> bool {
        entries_wf(self@)
    }

    /// An engine without rules.
    pub fn new() -> (e: Self)
        ensures
            e.wf(),
            e@ == Seq::<RuleEntryView>::empty(),
            e.next_run() == 0,
            e.issued() == 0,
    {
        let e = ForwardEngine { entries: Vec::new(), next_run: 0, ids: IdSource::new() };
        assert(e@ =~= Seq::<RuleEntryView>::empty());
        e
    }

    /// The place of the rule `id` in the registry.
    fn position(&self, id: &str) -> (r: Option<usize>)
        ensures
            match r {
                Some(i) => i < self@.len() && self@[i as int].rule.id == id@,
                None => !has_rule(self@, id@),
            },
            self.wf() && r is Some ==> r->0 == rule_index(self@, id@) && has_rule(self@, id@),
    {
        let mut i: usize = 0;
        while i < self.entries.len()
            invariant
                i <= self.entries.len(),
                forall|j: int| 0 <= j < i ==> (#[trigger] self@[j]).rule.id != id@,
            decreases self.entries.len() - i,
        {
            if str_eq(self.entries[i].rule.id.as_str(), id) {
                proof {
                    if self.wf() {
                        lemma_rule_at(self@, i as int);
                    }
                }
                return Some(i);
            }
            i += 1;
        }
        None
    }

    /// Whether a running rule listens on `port`.
    fn port_in_use(&self, port: u16) -> (b: bool)
        ensures
            b == port_busy(self@, port),
    {
        let mut i: usize = 0;
        while i < self.entries.len()
            invariant
                i <= self.entries.len(),
                forall|j: int|
                    0 <= j < i ==> !((#[trigger] self@[j]).rule.status == RuleStatus::Running
                        && self@[j].rule.local_port == port),
            decreases self.entries.len() - i,
        {
            if self.entries[i].rule.status == RuleStatus::Running && self.entries[i].rule.local_port == port {
                assert(self@[i as int].rule.status == RuleStatus::Running);
                return true;
            }
            i += 1;
        }
        false
    }

    /// Stores `rule` as a rule that does not run.
    fn store(&mut self, rule: ForwardRule)
        requires
            old(self).wf(),
        ensures
            final(self).wf(),
            final(self).issued() == old(self).issued(),
            final(self)@ == put_rule(old(self)@, rule@),
            final(self).next_run() == old(self).next_run(),
    {
        let mut rule = rule;
        rule.status = RuleStatus::Stopped;
        rule.connections = 0;
        rule.bytes_in = 0;
        rule.bytes_out = 0;
        match self.position(rule.id.as_str()) {
            Some(i) => {
                let run = self.entries[i].run;
                self.entries[i] = RuleEntry { rule, controller: None, run };
            },
            None => {
                self.entries.push(RuleEntry { rule, controller: None, run: 0 });
            },
        }
        assert(self@ =~= put_rule(old(self)@, rule@));
    }

    /// Stores the rule that `input` describes under the given id and creation
    /// time, unless [`add_refusal`] names a reason against it. A refused
    /// input leaves the registry as it was. The new rule does not run; it
    /// takes the place of a rule with the same id, if there is one.
    pub fn add_rule_with(
        &mut self,
        input: ForwardRuleInput,
        id: String,
        created_at: String,
    ) -> (r: Result<ForwardRule, EngineError>)
        requires
            old(self).wf(),
        ensures
            final(self).wf(),
            final(self).issued() == old(self).issued(),
            final(self).next_run() == old(self).next_run(),
            match add_refusal(old(self)@, input) {
                Some(e) => r == Err::<ForwardRule, EngineError>(e) && final(self)@ == old(self)@,
                None => r is Ok && r->Ok_0@ == new_rule(input, id@, created_at@) && final(self)@ == put_rule(
                    old(self)@,
                    new_rule(input, id@, created_at@),
                ),
            },
    {
        match self.refusal(&input) {
            Some(e) => {
                return Err(e);
            },
            None => {},
        }
        let rule = ForwardRule {
            id,
            name: input.name,
            local_port: input.local_port,
            remote_host: input.remote_host,
            remote_port: input.remote_port,
            doc_path: input.doc_path,
            status: RuleStatus::Stopped,
            connections: 0,
            bytes_in: 0,
            bytes_out: 0,
            created_at,
        };
        self.store(rule.clone());
        Ok(rule)
    }

    /// Why a new rule is refused, if it is: see [`add_refusal`].
    fn refusal(&self, input: &ForwardRuleInput) -> (r: Option<EngineError>)
        ensures
            r == add_refusal(self@, *input),
    {
        if input.local_port == 0 {
            Some(EngineError::LocalPortZero)
        } else if input.remote_port == 0 {
            Some(EngineError::RemotePortZero)
        } else if input.remote_host.as_str().is_empty() {
            Some(EngineError::RemoteHostEmpty)
        } else if self.port_in_use(input.local_port) {
            Some(EngineError::PortInUse)
        } else {
            None
        }
    }

    /// The ids of the rules, in the order of the registry.
    fn rule_id_list(&self) -> (ids: Vec<String>)
        ensures
            id_views(ids@) == rule_ids(self@),
    {
        let mut ids: Vec<String> = Vec::new();
        let mut i: usize = 0;
        while i < self.entries.len()
            invariant
                i <= self.entries.len(),
                ids@.len() == i,
                forall|j: int| 0 <= j < i ==> (#[trigger] ids@[j])@ == self@[j].rule.id,
            decreases self.entries.len() - i,
        {
            ids.push(self.entries[i].rule.id.clone());
            i += 1;
        }
        assert(id_views(ids@) =~= rule_ids(self@));
        ids
    }

    /// Creates a rule from `input` with a fresh id, created at the time that
    /// the caller gives as text, unless [`add_refusal`] names a reason against
    /// it; a refused input changes nothing. The id is drawn from the engine's
    /// source: it is made of lower-case hexadecimal digits and is the id of
    /// no rule in the registry, so the new rule stands at the end of the
    /// registry and every other rule is as it was.
    pub fn add_forward_rule_at(&mut self, input: ForwardRuleInput, created_at: String) -> (r: Result<
        ForwardRule,
        EngineError,
    >)
        requires
            old(self).wf(),
        ensures
            final(self).wf(),
            final(self).next_run() == old(self).next_run(),
            match add_refusal(old(self)@, input) {
                Some(e) => r == Err::<ForwardRule, EngineError>(e) && final(self)@ == old(self)@
                    && final(self).issued() == old(self).issued(),
                None => {
                    &&& r is Ok
                    &&& r->Ok_0@ == new_rule(input, r->Ok_0@.id, created_at@)
                    &&& is_lower_hex_text(r->Ok_0@.id)
                    &&& !has_rule(old(self)@, r->Ok_0@.id)
                    &&& exists|reading: Option<ClockReading>|
                        r->Ok_0@.id == unused_id(rule_ids(old(self)@), id_text(reading, old(self).issued()))
                    &&& final(self)@ == old(self)@.push(idle_entry(r->Ok_0@, 0))
                    &&& final(self).issued() == old(self).issued() + 1
                },
            },
    {
        match self.refusal(&input) {
            Some(e) => {
                return Err(e);
            },
            None => {},
        }
        let candidate = generate_id(&mut self.ids);
        let ghost drawn = candidate@;
        let in_use = self.rule_id_list();
        let id = unused_id_among(candidate, &in_use);
        proof {
            let reading = choose|reading: Option<ClockReading>| drawn == id_text(reading, old(self).issued());
            lemma_id_text_hex(reading, old(self).issued());
            lemma_unused_id(id_views(in_use@), drawn);
            assert(id@ == unused_id(rule_ids(old(self)@), id_text(reading, old(self).issued())));
            lemma_rule_ids(old(self)@, id@);
        }
        self.add_rule_with(input, id, created_at)
    }

    /// Creates a rule from `input` with a fresh id and the current time in
    /// UTC: see [`add_forward_rule_at`](Self::add_forward_rule_at), which
    /// takes the time from the caller.
    pub fn add_forward_rule(&mut self, input: ForwardRuleInput) -> (r: Result<ForwardRule, EngineError>)
        requires
            old(self).wf(),
        ensures
            final(self).wf(),
            final(self).next_run() == old(self).next_run(),
            match add_refusal(old(self)@, input) {
                Some(e) => r == Err::<ForwardRule, EngineError>(e) && final(self)@ == old(self)@
                    && final(self).issued() == old(self).issued(),
                None => {
                    &&& r is Ok
                    &&& r->Ok_0@ == new_rule(input, r->Ok_0@.id, r->Ok_0@.created_at)
                    &&& is_lower_hex_text(r->Ok_0@.id)
                    &&& !has_rule(old(self)@, r->Ok_0@.id)
                    &&& exists|reading: Option<ClockReading>|
                        r->Ok_0@.id == unused_id(rule_ids(old(self)@), id_text(reading, old(self).issued()))
                    &&& exists|reading: Option<ClockReading>| r->Ok_0@.created_at == time_text_of(reading)
                    &&& final(self)@ == old(self)@.push(idle_entry(r->Ok_0@, 0))
                    &&& final(self).issued() == old(self).issued() + 1
                },
            },
    {
        let created_at = current_time();
        self.add_forward_rule_at(input, created_at)
    }

    /// The place of the rule `id` while its run `run` goes on.
    fn live_position(&self, id: &str, run: u64) -> (r: Option<usize>)
        requires
            self.wf(),
        ensures
            r is Some <==> run_live(self@, id@, run),
            r is Some ==> r->0 == live_index(self@, id@, run) && r->0 < self@.len(),
    {
        match self.position(id) {
            Some(i) => {
                let live = self.entries[i].run == run && match self.entries[i].controller {
                    Some(c) => !c.stop,
                    None => false,
                };
                if live {
                    assert(self@[i as int].rule.id == id@);
                    Some(i)
                } else {
                    None
                }
            },
            None => None,
        }
    }

    /// Stops the rule `id`: its controller is told to stop and discarded,
    /// and the rule is stopped with its statistics at zero, at once. Says
    /// whether a controller was there to be told.
    pub fn stop_forwarding(&mut self, id: &str) -> (signalled: bool)
        requires
            old(self).wf(),
        ensures
            final(self).wf(),
            final(self).issued() == old(self).issued(),
            final(self)@ == after_stop(old(self)@, id@),
            final(self).next_run() == old(self).next_run(),
            signalled == (has_rule(old(self)@, id@)
                && old(self)@[rule_index(old(self)@, id@)].controller is Some),
    {
        match self.position(id) {
            Some(i) => {
                let signalled = match self.entries[i].controller {
                    Some(c) => {
                        let mut c = c;
                        c.stop();
                        true
                    },
                    None => false,
                };
                self.entries[i].controller = None;
                self.entries[i].rule.status = RuleStatus::Stopped;
                self.entries[i].rule.connections = 0;
                self.entries[i].rule.bytes_in = 0;
                self.entries[i].rule.bytes_out = 0;
                assert(self@ =~= after_stop(old(self)@, id@));
                signalled
            },
            None => false,
        }
    }

    /// Stops and removes the rule `id`. Returns the rule as it was stored
    /// after the stop, so that the caller can put it back.
    pub fn remove_forward_rule(&mut self, id: &str) -> (removed: Option<ForwardRule>)
        requires
            old(self).wf(),
        ensures
            final(self).wf(),
            final(self).issued() == old(self).issued(),
            final(self)@ == after_remove(old(self)@, id@),
            final(self).next_run() == old(self).next_run(),
            removed is Some <==> has_rule(old(self)@, id@),
            removed is Some ==> removed->0@ == cold(old(self)@[rule_index(old(self)@, id@)].rule),
    {
        self.stop_forwarding(id);
        match self.position(id) {
            Some(i) => {
                assert(has_rule(old(self)@, id@)) by {
                    if !has_rule(old(self)@, id@) {
                        assert(self@ == old(self)@);
                    }
                }
                let ghost k = rule_index(old(self)@, id@);
                assert(self@[k].rule.id == id@);
                assert(i as int == k);
                let ghost mid = self@;
                let entry = self.entries.remove(i);
                assert(self@ =~= mid.remove(k));
                assert(mid.remove(k) =~= old(self)@.remove(k));
                Some(entry.rule)
            },
            None => {
                assert(!has_rule(old(self)@, id@)) by {
                    if has_rule(old(self)@, id@) {
                        let k = rule_index(old(self)@, id@);
                        assert(self@[k].rule.id == id@);
                    }
                }
                None
            },
        }
    }

    /// Puts `rule` into the registry as a rule that does not run: stopped,
    /// statistics at zero. It takes the place of a rule with the same id.
    pub fn restore_rule(&mut self, rule: ForwardRule)
        requires
            old(self).wf(),
        ensures
            final(self).wf(),
            final(self).issued() == old(self).issued(),
            final(self)@ == put_rule(old(self)@, rule@),
            final(self).next_run() == old(self).next_run(),
    {
        self.store(rule);
    }

    /// Starts the rule `id`, unless [`start_refusal`] names a reason against
    /// it. The rule gets a fresh controller and the next run number and is
    /// marked as running; the result tells where to listen and where to
    /// relay to. A refused start changes nothing.
    pub fn start_forwarding(&mut self, id: &str) -> (r: Result<ForwardTarget, EngineError>)
        requires
            old(self).wf(),
        ensures
            final(self).wf(),
            final(self).issued() == old(self).issued(),
            match start_refusal(old(self)@, id@) {
                Some(e) => r == Err::<ForwardTarget, EngineError>(e) && final(self)@ == old(self)@
                    && final(self).next_run() == old(self).next_run(),
                None => {
                    let rule = old(self)@[rule_index(old(self)@, id@)].rule;
                    &&& r is Ok
                    &&& r->Ok_0.rule_id@ == id@
                    &&& r->Ok_0.run == old(self).next_run()
                    &&& r->Ok_0.local_port == rule.local_port
                    &&& r->Ok_0.bind_addr@ == listen_addr(rule.local_port)
                    &&& r->Ok_0.remote_addr@ == host_port(rule.remote_host, rule.remote_port)
                    &&& final(self)@ == after_start(old(self)@, id@, old(self).next_run())
                    &&& final(self).next_run() == if old(self).next_run() == u64::MAX {
                        0
                    } else {
                        (old(self).next_run() + 1) as u64
                    }
                },
            },
    {
        let i = match self.position(id) {
            Some(i) => i,
            None => {
                return Err(EngineError::RuleNotFound);
            },
        };
        if self.entries[i].rule.status == RuleStatus::Running {
            return Err(EngineError::AlreadyRunning);
        }
        let local_port = self.entries[i].rule.local_port;
        if self.port_in_use(local_port) {
            return Err(EngineError::PortInUse);
        }
        let run = self.next_run;
        let remote_addr = format_host_port(self.entries[i].rule.remote_host.as_str(),
            self.entries[i].rule.remote_port);
        let bind_addr = format_host_port("0.0.0.0", local_port);
        let rule_id = self.entries[i].rule.id.clone();
        self.next_run = self.next_run.wrapping_add(1);
        self.entries[i].controller = Some(ForwardController::new());
        self.entries[i].run = run;
        self.entries[i].rule.status = RuleStatus::Running;
        assert(self@ =~= after_start(old(self)@, id@, run));
        assert(entries_wf(self@)) by {
            assert(forall|j: int|
                0 <= j < self@.len() && j != i ==> (#[trigger] self@[j]) == old(self)@[j]);
            assert(!port_busy(old(self)@, local_port));
        }
        Ok(ForwardTarget { rule_id, run, local_port, bind_addr, remote_addr })
    }

    /// Copies the statistics of the controller at place `i` into its rule.
    fn sync_at(&mut self, i: usize)
        requires
            old(self).wf(),
            i < old(self)@.len(),
        ensures
            final(self).wf(),
            final(self).issued() == old(self).issued(),
            final(self)@ == old(self)@.update(i as int, synced(old(self)@[i as int])),
            final(self).next_run() == old(self).next_run(),
    {
        match self.entries[i].controller {
            Some(c) => {
                let (connections, bytes_in, bytes_out) = c.get_stats();
                self.entries[i].rule.connections = connections;
                self.entries[i].rule.bytes_in = bytes_in;
                self.entries[i].rule.bytes_out = bytes_out;
            },
            None => {},
        }
        assert(self@ =~= old(self)@.update(i as int, synced(old(self)@[i as int])));
    }

    /// Copies the statistics of the controller of the rule `id` into the
    /// rule. A rule without a controller, or no rule, changes nothing.
    pub fn update_rule_stats(&mut self, id: &str)
        requires
            old(self).wf(),
        ensures
            final(self).wf(),
            final(self).issued() == old(self).issued(),
            final(self)@ == after_sync(old(self)@, id@),
            final(self).next_run() == old(self).next_run(),
    {
        match self.position(id) {
            Some(i) => {
                self.sync_at(i);
            },
            None => {},
        }
    }

    /// All rules, in the order of the registry, each running one with the
    /// statistics of its controller as they are now.
    pub fn get_forward_rules(&mut self) -> (rules: Vec<ForwardRule>)
        requires
            old(self).wf(),
        ensures
            final(self).wf(),
            final(self).issued() == old(self).issued(),
            final(self)@ == all_synced(old(self)@),
            final(self).next_run() == old(self).next_run(),
            rules@.len() == final(self)@.len(),
            forall|i: int| 0 <= i < rules@.len() ==> (#[trigger] rules@[i])@ == final(self)@[i].rule,
    {
        let mut rules: Vec<ForwardRule> = Vec::new();
        let mut i: usize = 0;
        while i < self.entries.len()
            invariant
                self.wf(),
                i <= self@.len(),
                self@.len() == old(self)@.len(),
                self.next_run() == old(self).next_run(),
                self.issued() == old(self).issued(),
                forall|j: int| 0 <= j < i ==> (#[trigger] self@[j]) == synced(old(self)@[j]),
                forall|j: int| i <= j < self@.len() ==> (#[trigger] self@[j]) == old(self)@[j],
                rules@.len() == i,
                forall|j: int| 0 <= j < i ==> (#[trigger] rules@[j])@ == self@[j].rule,
            decreases self.entries.len() - i,
        {
            self.sync_at(i);
            rules.push(self.entries[i].rule.clone());
            i += 1;
        }
        assert(self@ =~= all_synced(old(self)@));
        rules
    }

    /// The rule `id`, with the statistics of its controller as they are now.
    pub fn get_forward_rule(&mut self, id: &str) -> (rule: Option<ForwardRule>)
        requires
            old(self).wf(),
        ensures
            final(self).wf(),
            final(self).issued() == old(self).issued(),
            final(self)@ == after_sync(old(self)@, id@),
            final(self).next_run() == old(self).next_run(),
            rule is Some <==> has_rule(old(self)@, id@),
            rule is Some ==> rule->0@ == synced(old(self)@[rule_index(old(self)@, id@)]).rule,
    {
        match self.position(id) {
            Some(i) => {
                self.sync_at(i);
                assert(self@.len() == self.entries@.len());
                assert(self@[i as int] == entry_view(self.entries@[i as int]));
                Some(self.entries[i].rule.clone())
            },
            None => None,
        }
    }

    /// The statistics of the controller of the rule `id`; zeros where no
    /// controller exists.
    pub fn get_forward_stats(&self, id: String) -> (stats: ForwardStats)
        requires
            self.wf(),
        ensures
            stats.rule_id@ == id@,
            (stats.connections, stats.bytes_in, stats.bytes_out) == if has_rule(self@, id@)
                && self@[rule_index(
                self@,
                id@,
            )].controller is Some {
                let c = self@[rule_index(self@, id@)].controller->0;
                (c.connections, c.bytes_in, c.bytes_out)
            } else {
                (0u32, 0u64, 0u64)
            },
    {
        let found = match self.position(id.as_str()) {
            Some(i) => self.entries[i].controller,
            None => None,
        };
        let (connections, bytes_in, bytes_out) = match found {
            Some(c) => c.get_stats(),
            None => (0, 0, 0),
        };
        ForwardStats { rule_id: id, connections, bytes_in, bytes_out }
    }

    /// Replaces the configuration of the rule `id` by `input`, stopping the
    /// rule first if it runs. Fails only where no such rule exists. Returns
    /// the rule after the change and as it was before.
    pub fn update_forward_rule(
        &mut self,
        id: &str,
        input: ForwardRuleInput,
    ) -> (r: Result<RuleUpdate, EngineError>)
        requires
            old(self).wf(),
        ensures
            final(self).wf(),
            final(self).issued() == old(self).issued(),
            final(self).next_run() == old(self).next_run(),
            r is Ok <==> has_rule(old(self)@, id@),
            r is Err ==> r == Err::<RuleUpdate, EngineError>(EngineError::RuleNotFound)
                && final(self)@ == old(
                self,
            )@,
            r is Ok ==> {
                let i = rule_index(old(self)@, id@);
                &&& final(self)@ == after_update(old(self)@, id@, input)
                &&& r->Ok_0.rule@ == final(self)@[i].rule
                &&& r->Ok_0.previous@ == old(self)@[i].rule
            },
    {
        let i = match self.position(id) {
            Some(i) => i,
            None => {
                return Err(EngineError::RuleNotFound);
            },
        };
        let previous = self.entries[i].rule.clone();
        self.stop_forwarding(id);
        assert(self@.len() == self.entries@.len());
        assert(self@[i as int].rule.id == id@);
        let ghost mid = *self;
        self.entries[i].rule.name = input.name;
        self.entries[i].rule.local_port = input.local_port;
        self.entries[i].rule.remote_host = input.remote_host;
        self.entries[i].rule.remote_port = input.remote_port;
        self.entries[i].rule.doc_path = input.doc_path;
        assert(forall|j: int| 0 <= j < self@.len() && j != i ==> (#[trigger] self@[j]) == mid@[j]);
        assert(self@ =~= after_update(old(self)@, id@, input));
        let rule = self.entries[i].rule.clone();
        Ok(RuleUpdate { rule, previous })
    }

    /// The engine that a stored list of rules gives at startup: see
    /// [`loaded`]. No rule runs, and every statistic is zero.
    pub fn load_rules(rules: &Vec<ForwardRule>) -> (e: Self)
        ensures
            e.wf(),
            e.next_run() == 0,
            e.issued() == 0,
            e@ == loaded(Seq::new(rules@.len(), |i: int| rules@[i]@)),
    {
        let mut e = ForwardEngine::new();
        let ghost views = Seq::new(rules@.len(), |i: int| rules@[i]@);
        let mut i: usize = 0;
        while i < rules.len()
            invariant
                e.wf(),
                e.next_run() == 0,
                e.issued() == 0,
                i <= rules@.len(),
                views == Seq::new(rules@.len(), |i: int| rules@[i]@),
                e@ == loaded(views.take(i as int)),
            decreases rules.len() - i,
        {
            e.store(rules[i].clone());
            assert(views.take(i + 1).drop_last() =~= views.take(i as int));
            i += 1;
        }
        assert(views.take(rules@.len() as int) =~= views);
        e
    }

    /// Whether the run `run` of the rule `id` is over: the rule was stopped,
    /// removed or started anew since.
    pub fn is_stopped(&self, id: &str, run: u64) -> (b: bool)
        requires
            self.wf(),
        ensures
            b == !run_live(self@, id@, run),
    {
        self.live_position(id, run).is_none()
    }

    /// The accept loop's next step after `event`: see [`accept_decision`].
    /// A connection is relayed only while fewer than [`MAX_CONNECTIONS`] are
    /// open; it is then counted, and the rule's statistics follow.
    pub fn accept_step(&mut self, id: &str, run: u64, event: AcceptEvent) -> (action: AcceptAction)
        requires
            old(self).wf(),
        ensures
            final(self).wf(),
            final(self).issued() == old(self).issued(),
            final(self).next_run() == old(self).next_run(),
            (action, final(self)@) == accept_decision(old(self)@, id@, run, event),
    {
        let i = match self.live_position(id, run) {
            Some(i) => i,
            None => {
                return AcceptAction::Exit;
            },
        };
        if event != AcceptEvent::Connection {
            return AcceptAction::Continue;
        }
        let mut c = match self.entries[i].controller {
            Some(c) => c,
            None => {
                return AcceptAction::Exit;
            },
        };
        if c.connections >= MAX_CONNECTIONS {
            return AcceptAction::Wait;
        }
        c.inc_connections();
        self.entries[i].controller = Some(c);
        self.entries[i].rule.connections = c.connections;
        self.entries[i].rule.bytes_in = c.bytes_in;
        self.entries[i].rule.bytes_out = c.bytes_out;
        assert(self@ =~= accept_decision(old(self)@, id@, run, event).1);
        AcceptAction::Relay
    }

    /// Counts one open connection less for the given run, and brings the
    /// rule's statistics up to date. A run that is over, or a count of zero,
    /// changes nothing.
    pub fn connection_closed(&mut self, id: &str, run: u64)
        requires
            old(self).wf(),
        ensures
            final(self).wf(),
            final(self).issued() == old(self).issued(),
            final(self).next_run() == old(self).next_run(),
            final(self)@ == after_close(old(self)@, id@, run),
    {
        let i = match self.live_position(id, run) {
            Some(i) => i,
            None => {
                return ;
            },
        };
        let mut c = match self.entries[i].controller {
            Some(c) => c,
            None => {
                return ;
            },
        };
        if c.connections == 0 {
            return ;
        }
        c.dec_connections();
        self.entries[i].controller = Some(c);
        self.entries[i].rule.connections = c.connections;
        self.entries[i].rule.bytes_in = c.bytes_in;
        self.entries[i].rule.bytes_out = c.bytes_out;
        assert(self@ =~= after_close(old(self)@, id@, run));
    }

    /// A copy loop's next step after `event`: see [`relay_decision`]. Bytes
    /// that were read are forwarded as they are, and are added to the
    /// controller's counter of their direction while the run goes on.
    pub fn relay_step<'a>(
        &mut self,
        id: &str,
        run: u64,
        direction: Direction,
        event: ReadEvent<'a>,
    ) -> (action: RelayAction<'a>)
        requires
            old(self).wf(),
        ensures
            final(self).wf(),
            final(self).issued() == old(self).issued(),
            final(self).next_run() == old(self).next_run(),
            action == relay_decision(event),
            final(self)@ == after_relay(old(self)@, id@, run, direction, event),
    {
        match event {
            ReadEvent::Read(bytes) => {
                let n = bytes.len();
                if n == 0 {
                    return RelayAction::HalfClose(None);
                }
                match self.live_position(id, run) {
                    Some(i) => {
                        match self.entries[i].controller {
                            Some(c) => {
                                let mut c = c;
                                match direction {
                                    Direction::Outbound => c.add_bytes_out(n as u64),
                                    Direction::Inbound => c.add_bytes_in(n as u64),
                                }
                                self.entries[i].controller = Some(c);
                                assert(self@ =~= after_relay(old(self)@, id@, run, direction, event));
                            },
                            None => {},
                        }
                    },
                    None => {},
                }
                RelayAction::Forward(bytes)
            },
            ReadEvent::Failed => RelayAction::HalfClose(Some(EngineError::TransferFailed)),
            ReadEvent::Idle => RelayAction::Continue,
        }
    }

    /// Takes in how binding the listener of the given run ended. A listener
    /// that could not be bound ends the run: the rule is stopped again, can be
    /// started anew, and the caller of the start gets the error.
    pub fn listener_bound(&mut self, id: &str, run: u64, outcome: BindOutcome) -> (r: Result<(), EngineError>)
        requires
            old(self).wf(),
        ensures
            final(self).wf(),
            final(self).issued() == old(self).issued(),
            final(self).next_run() == old(self).next_run(),
            final(self)@ == after_bind(old(self)@, id@, run, outcome),
            match outcome {
                BindOutcome::Bound => r is Ok,
                BindOutcome::Failed => r == Err::<(), EngineError>(EngineError::BindFailed),
            },
    {
        match outcome {
            BindOutcome::Bound => Ok(()),
            BindOutcome::Failed => {
                self.forward_server_exited(id, run);
                Err(EngineError::BindFailed)
            },
        }
    }

    /// Marks the end of the accept loop of the given run: see [`after_exit`].
    pub fn forward_server_exited(&mut self, id: &str, run: u64)
        requires
            old(self).wf(),
        ensures
            final(self).wf(),
            final(self).issued() == old(self).issued(),
            final(self).next_run() == old(self).next_run(),
            final(self)@ == after_exit(old(self)@, id@, run),
    {
        let same_run = match self.position(id) {
            Some(i) => self.entries[i].run == run,
            None => false,
        };
        if same_run {
            self.stop_forwarding(id);
        }
    }
}

/// Whether a relay goes on after its outbound connection attempt: it does
/// only when the connection stands; a failure or a timeout ends this one
/// relay with the matching error.
pub fn connect_result(outcome: ConnectOutcome) -> (r: Result<(), EngineError>)
    ensures
        match connect_refusal(outcome) {
            Some(e) => r == Err::<(), EngineError>(e),
            None => r is Ok,
        },
{
    match outcome {
        ConnectOutcome::Connected => Ok(()),
        ConnectOutcome::Failed => Err(EngineError::ConnectFailed),
        ConnectOutcome::TimedOut => Err(EngineError::ConnectTimeout),
    }
}

} // verus!
