//! What holds of the forwarding engine in every state, proved over its
//! model.

use vstd::prelude::*;
use crate::error::ErrorKind;
use crate::forwarder::limits::MAX_CONNECTIONS;
use crate::forwarder::model::{
    accept_decision, add_refusal, after_close, after_relay, after_remove, after_stop, arrived,
    entries_wf, entry_wf, has_rule, idle_entry, ids_unique, lemma_rule_at, live_index, loaded,
    port_busy, put_rule, rule_index, run_live, running_ports_unique, start_refusal, written,
    AcceptAction, AcceptEvent, Direction, ReadEvent, RuleEntryView,
};
use crate::toolbox::{ForwardRuleInput, ForwardRuleView, RuleStatus};

verus! {

/// Storing a rule keeps the registry well formed; the stored rule does not
/// run.
pub proof fn lemma_put_rule_wf(entries: Seq<RuleEntryView>, r: ForwardRuleView)
    requires
        entries_wf(entries),
    ensures
        entries_wf(put_rule(entries, r)),
        has_rule(put_rule(entries, r), r.id),
        put_rule(entries, r)[rule_index(put_rule(entries, r), r.id)] == idle_entry(
            r,
            put_rule(entries, r)[rule_index(put_rule(entries, r), r.id)].run,
        ),
{
    let after = put_rule(entries, r);
    let at: int = if has_rule(entries, r.id) {
        rule_index(entries, r.id)
    } else {
        entries.len() as int
    };
    assert(after[at].rule.id == r.id);
    assert(forall|j: int| 0 <= j < after.len() && j != at ==> (#[trigger] after[j]) == entries[j]);
    assert(ids_unique(after)) by {
        assert forall|i: int, j: int| 0 <= i < j < after.len() implies (#[trigger] after[i]).rule.id != (
        #[trigger] after[j]).rule.id by {
            if has_rule(entries, r.id) {
                assert(entries[i].rule.id != entries[j].rule.id);
            } else if j == at {
                assert(entries[i].rule.id != r.id);
            } else {
                assert(entries[i].rule.id != entries[j].rule.id);
            }
        }
    }
    assert(running_ports_unique(after)) by {
        assert forall|i: int, j: int|
            0 <= i < j < after.len() && (#[trigger] after[i]).rule.status == RuleStatus::Running && (
            #[trigger] after[j]).rule.status == RuleStatus::Running implies after[i].rule.local_port
            != after[j].rule.local_port by {
            assert(entries[i].rule.local_port != entries[j].rule.local_port);
        }
    }
    assert forall|i: int| 0 <= i < after.len() implies entry_wf(#[trigger] after[i]) by {
        if i != at {
            assert(entry_wf(entries[i]));
        }
    }
    lemma_rule_at(after, at);
}

/// A registry that was loaded from stored rules is well formed, and none of
/// its rules runs: every rule is stopped, has no controller, and has all
/// statistics at zero, whatever was stored.
pub proof fn lemma_loaded_is_idle(rules: Seq<ForwardRuleView>)
    ensures
        entries_wf(loaded(rules)),
        forall|i: int|
            0 <= i < loaded(rules).len() ==> {
                let e = #[trigger] loaded(rules)[i];
                &&& e.controller is None
                &&& e.rule.status == RuleStatus::Stopped
                &&& e.rule.connections == 0
                &&& e.rule.bytes_in == 0
                &&& e.rule.bytes_out == 0
            },
    decreases rules.len(),
{
    if rules.len() > 0 {
        let before = loaded(rules.drop_last());
        lemma_loaded_is_idle(rules.drop_last());
        lemma_put_rule_wf(before, rules.last());
        let after = loaded(rules);
        assert forall|i: int| 0 <= i < after.len() implies {
            let e = #[trigger] after[i];
            &&& e.controller is None
            &&& e.rule.status == RuleStatus::Stopped
            &&& e.rule.connections == 0
            &&& e.rule.bytes_in == 0
            &&& e.rule.bytes_out == 0
        } by {
            if has_rule(before, rules.last().id) {
                if i != rule_index(before, rules.last().id) {
                    assert(after[i] == before[i]);
                }
            } else if i < before.len() {
                assert(after[i] == before[i]);
            }
        }
    }
}

/// A rule that was stored under an id which no rule had, and is then
/// removed, leaves the registry as it was before: a new rule that cannot be
/// kept is taken back without a trace.
pub proof fn lemma_add_then_remove_restores(entries: Seq<RuleEntryView>, r: ForwardRuleView)
    requires
        entries_wf(entries),
        !has_rule(entries, r.id),
    ensures
        put_rule(entries, r) == entries.push(idle_entry(r, 0)),
        after_remove(put_rule(entries, r), r.id) == entries,
{
    let added = put_rule(entries, r);
    lemma_put_rule_wf(entries, r);
    let at = entries.len() as int;
    assert(added[at].rule.id == r.id);
    lemma_rule_at(added, at);
    assert(added.remove(at) =~= entries);
}

/// A new rule whose local port or remote port is zero, or whose remote host
/// is empty, is refused as invalid, whatever the registry holds.
pub proof fn lemma_invalid_rule_is_refused(entries: Seq<RuleEntryView>, input: ForwardRuleInput)
    requires
        input.local_port == 0 || input.remote_port == 0 || input.remote_host@.len() == 0,
    ensures
        add_refusal(entries, input) is Some,
        add_refusal(entries, input)->0.spec_kind() == ErrorKind::Validation,
{
}

/// While a rule runs, a second rule with the same local port cannot be
/// started: the start is refused as a conflict. Once the first rule has been
/// stopped, the start of the second is not refused.
pub proof fn lemma_shared_port_conflicts_until_stopped(
    entries: Seq<RuleEntryView>,
    first: Seq<char>,
    second: Seq<char>,
)
    requires
        entries_wf(entries),
        has_rule(entries, first),
        has_rule(entries, second),
        first != second,
        entries[rule_index(entries, first)].rule.status == RuleStatus::Running,
        entries[rule_index(entries, second)].rule.local_port == entries[rule_index(
            entries,
            first,
        )].rule.local_port,
    ensures
        start_refusal(entries, second) is Some,
        start_refusal(entries, second)->0.spec_kind() == ErrorKind::ResourceConflict,
        start_refusal(after_stop(entries, first), second) is None,
{
    let a = rule_index(entries, first);
    let b = rule_index(entries, second);
    let port = entries[a].rule.local_port;
    assert(entries[a].rule.status == RuleStatus::Running && entries[a].rule.local_port == port);
    assert(port_busy(entries, port));
    assert(entries[b].rule.status == RuleStatus::Stopped) by {
        if entries[b].rule.status == RuleStatus::Running {
            if a < b {
                assert(entries[a].rule.local_port != entries[b].rule.local_port);
            } else {
                assert(entries[b].rule.local_port != entries[a].rule.local_port);
            }
        }
    }
    let after = after_stop(entries, first);
    assert(after == entries.update(a, idle_entry(entries[a].rule, entries[a].run)));
    assert(after[b] == entries[b]);
    assert(after[b].rule.id == second);
    assert(has_rule(after, second));
    let b2 = rule_index(after, second);
    assert(b2 == b) by {
        if b2 != b {
            if b2 == a {
                assert(after[a].rule.id == first);
            } else {
                assert(after[b2] == entries[b2]);
                if b2 < b {
                    assert(entries[b2].rule.id != entries[b].rule.id);
                } else {
                    assert(entries[b].rule.id != entries[b2].rule.id);
                }
            }
        }
    }
    assert(!port_busy(after, port)) by {
        if port_busy(after, port) {
            let j = choose|j: int|
                0 <= j < after.len() && (#[trigger] after[j]).rule.status == RuleStatus::Running
                    && after[j].rule.local_port == port;
            assert(j != a);
            assert(after[j] == entries[j]);
            if j < a {
                assert(entries[j].rule.local_port != entries[a].rule.local_port);
            } else {
                assert(entries[a].rule.local_port != entries[j].rule.local_port);
            }
        }
    }
}

/// A stop takes effect at once: the rule is stopped in the registry, and no
/// run of it goes on, so every loop that asks sees the stop at its next look.
/// The registry stays well formed.
pub proof fn lemma_stop_takes_effect_at_once(entries: Seq<RuleEntryView>, id: Seq<char>, run: u64)
    requires
        entries_wf(entries),
        has_rule(entries, id),
    ensures
        entries_wf(after_stop(entries, id)),
        has_rule(after_stop(entries, id), id),
        after_stop(entries, id)[rule_index(after_stop(entries, id), id)].rule.status == RuleStatus::Stopped,
        after_stop(entries, id)[rule_index(after_stop(entries, id), id)].rule.connections == 0,
        after_stop(entries, id)[rule_index(after_stop(entries, id), id)].rule.bytes_in == 0,
        after_stop(entries, id)[rule_index(after_stop(entries, id), id)].rule.bytes_out == 0,
        !run_live(after_stop(entries, id), id, run),
{
    let a = rule_index(entries, id);
    let after = after_stop(entries, id);
    assert(after[a].rule.id == id);
    assert(forall|j: int| 0 <= j < after.len() && j != a ==> (#[trigger] after[j]) == entries[j]);
    assert(ids_unique(after)) by {
        assert forall|i: int, j: int| 0 <= i < j < after.len() implies (#[trigger] after[i]).rule.id != (
        #[trigger] after[j]).rule.id by {
            assert(entries[i].rule.id != entries[j].rule.id);
        }
    }
    assert(running_ports_unique(after)) by {
        assert forall|i: int, j: int|
            0 <= i < j < after.len() && (#[trigger] after[i]).rule.status == RuleStatus::Running && (
            #[trigger] after[j]).rule.status == RuleStatus::Running implies after[i].rule.local_port
            != after[j].rule.local_port by {
            assert(entries[i].rule.local_port != entries[j].rule.local_port);
        }
    }
    assert forall|i: int| 0 <= i < after.len() implies entry_wf(#[trigger] after[i]) by {
        if i != a {
            assert(entry_wf(entries[i]));
        }
    }
    let k = rule_index(after, id);
    assert(k == a) by {
        if k != a {
            assert(after[k] == entries[k]);
            if k < a {
                assert(entries[k].rule.id != entries[a].rule.id);
            } else {
                assert(entries[a].rule.id != entries[k].rule.id);
            }
        }
    }
    assert(!run_live(after, id, run)) by {
        if run_live(after, id, run) {
            let j = live_index(after, id, run);
            if j != a {
                assert(after[j] == entries[j]);
                if j < a {
                    assert(entries[j].rule.id != entries[a].rule.id);
                } else {
                    assert(entries[a].rule.id != entries[j].rule.id);
                }
            }
        }
    }
}

/// What happens to one connection never changes whether a rule runs: after
/// an accepted or refused connection, a closed one, and bytes or a failure
/// in a copy loop, every rule has the status that it had.
pub proof fn lemma_connections_leave_status(
    entries: Seq<RuleEntryView>,
    id: Seq<char>,
    run: u64,
    accepted: AcceptEvent,
    direction: Direction,
    read: ReadEvent,
    k: int,
)
    requires
        entries_wf(entries),
        0 <= k < entries.len(),
    ensures
        accept_decision(entries, id, run, accepted).1.len() == entries.len(),
        accept_decision(entries, id, run, accepted).1[k].rule.status == entries[k].rule.status,
        after_close(entries, id, run).len() == entries.len(),
        after_close(entries, id, run)[k].rule.status == entries[k].rule.status,
        after_relay(entries, id, run, direction, read).len() == entries.len(),
        after_relay(entries, id, run, direction, read)[k].rule.status == entries[k].rule.status,
{
}

/// A copy loop writes to the other side exactly the bytes that arrived, in
/// the order in which they arrived, however the reads cut the stream into
/// chunks and however many idle intervals lie between them.
pub proof fn lemma_relay_keeps_bytes(events: Seq<ReadEvent>)
    ensures
        written(events) == arrived(events),
    decreases events.len(),
{
    if events.len() > 0 {
        lemma_relay_keeps_bytes(events.skip(1));
        match events[0] {
            ReadEvent::Idle => {
                assert(Seq::<u8>::empty() + written(events.skip(1)) =~= written(events.skip(1)));
            },
            _ => {},
        }
    }
}

/// A payload that straddles the boundary of the buffer, and so arrives in
/// two reads, is written to the other side whole.
pub proof fn lemma_relay_joins_chunks(first: &[u8], second: &[u8])
    requires
        first@.len() > 0,
        second@.len() > 0,
    ensures
        written(seq![ReadEvent::Read(first), ReadEvent::Read(second)]) == first@ + second@,
{
    let events = seq![ReadEvent::Read(first), ReadEvent::Read(second)];
    lemma_relay_keeps_bytes(events);
    assert(events.skip(1) =~= seq![ReadEvent::Read(second)]);
    assert(events.skip(1).skip(1) =~= Seq::<ReadEvent>::empty());
    assert(arrived(events.skip(1).skip(1)) =~= Seq::<u8>::empty());
    assert(arrived(events.skip(1)) =~= second@);
    assert(arrived(events) =~= first@ + second@);
}

/// A rule never relays more connections at a time than
/// [`MAX_CONNECTIONS`]: in a well-formed registry every controller counts at
/// most that many, and a connection that finds them all taken is told to
/// wait.
pub proof fn lemma_connections_are_bounded(entries: Seq<RuleEntryView>, id: Seq<char>, run: u64, k: int)
    requires
        entries_wf(entries),
        0 <= k < entries.len(),
        entries[k].controller is Some,
    ensures
        entries[k].controller->0.connections <= MAX_CONNECTIONS,
        run_live(entries, id, run) && entries[live_index(entries, id, run)].controller->0.connections
            == MAX_CONNECTIONS ==> accept_decision(entries, id, run, AcceptEvent::Connection) == (
            AcceptAction::Wait,
            entries,
        ),
{
    assert(entry_wf(entries[k]));
}

} // verus!
