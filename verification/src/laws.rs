//! Run-wide guarantees of the supervisor, proved over whole event traces.
//!
//! A run is a sequence of events fed to one supervisor. The lemmas here
//! state the supervision policy as it holds over any run: a development
//! build spawns nothing, any run spawns at most once, a release run spawns
//! exactly once, and the process handle is never released while the child's
//! output stream has not ended.

use vstd::prelude::*;

use crate::supervisor::{Event, Supervisor, transition};

verus! {

/// The state a supervisor in state `s` is in after the events `evs` have
/// been fed to it, one at a time, oldest first.
pub open spec fn run_state(s: Supervisor, evs: Seq<Event>) -> Supervisor
    decreases evs.len(),
{
    if evs.len() == 0 {
        s
    } else {
        transition(run_state(s, evs.drop_last()), evs.last()).0
    }
}

/// How many spawn instructions the supervisor hands out over the events
/// `evs`, starting from state `s`. Each one stands for one process-spawn
/// operation the host performs, so this counts the child processes created.
pub open spec fn spawn_count(s: Supervisor, evs: Seq<Event>) -> nat
    decreases evs.len(),
{
    if evs.len() == 0 {
        0
    } else {
        spawn_count(s, evs.drop_last()) + (if transition(
            run_state(s, evs.drop_last()),
            evs.last(),
        ).1 is SpawnBackend {
            1nat
        } else {
            0nat
        })
    }
}

/// Whether a spawn instruction can still be handed out from state `s`: only
/// a release-build supervisor that setup has not reached yet spawns.
pub open spec fn may_spawn(s: Supervisor) -> bool {
    s.phase is NotStarted && s.mode is Release
}

/// One transition keeps the supervisor well-formed.
pub proof fn lemma_transition_preserves_wf(s: Supervisor, ev: Event)
    requires
        s.wf(),
    ensures
        transition(s, ev).0.wf(),
{
}

/// Facts that hold along every run: well-formedness is kept, the build mode
/// never changes, a run hands out at most one spawn instruction (none at all
/// once the chance to spawn has passed), and a state that can still spawn
/// means no spawn has happened yet.
pub proof fn lemma_run_facts(s: Supervisor, evs: Seq<Event>)
    requires
        s.wf(),
    ensures
        run_state(s, evs).wf(),
        run_state(s, evs).mode == s.mode,
        spawn_count(s, evs) <= (if may_spawn(s) {
            1nat
        } else {
            0nat
        }),
        may_spawn(run_state(s, evs)) ==> spawn_count(s, evs) == 0 && may_spawn(s),
    decreases evs.len(),
{
    if evs.len() > 0 {
        lemma_run_facts(s, evs.drop_last());
    }
}

/// In a development build the supervisor performs zero process-spawn
/// operations over any run: the backend is the developer's to start and
/// stop, never the application's.
pub proof fn lemma_development_never_spawns(s: Supervisor, evs: Seq<Event>)
    requires
        s.wf(),
        s.mode is Development,
    ensures
        spawn_count(s, evs) == 0,
{
    lemma_run_facts(s, evs);
}

/// No run of the supervisor, from any reachable state, ever hands out more
/// than one spawn instruction: application setup cannot be made to start a
/// second backend instance.
pub proof fn lemma_at_most_one_spawn(s: Supervisor, evs: Seq<Event>)
    requires
        s.wf(),
    ensures
        spawn_count(s, evs) <= 1,
{
    lemma_run_facts(s, evs);
}

/// A release run spawns exactly once: from a fresh release-build supervisor,
/// any run that begins with application setup hands out one spawn
/// instruction, and never another.
pub proof fn lemma_release_spawns_exactly_once(s: Supervisor, evs: Seq<Event>)
    requires
        s.wf(),
        may_spawn(s),
        evs.len() > 0,
        evs[0] is Start,
    ensures
        spawn_count(s, evs) == 1,
    decreases evs.len(),
{
    lemma_run_facts(s, evs);
    if evs.len() == 1 {
        assert(evs.drop_last().len() == 0);
    } else {
        assert(evs.drop_last()[0] == evs[0]);
        lemma_release_spawns_exactly_once(s, evs.drop_last());
    }
}

/// While the child's output stream has not signalled end, the supervisor
/// stays in its running phase and keeps the process handle live: draining
/// output never costs the child its handle (and with it its input stream).
pub proof fn lemma_drain_keeps_handle(s: Supervisor, evs: Seq<Event>)
    requires
        s.wf(),
        s.phase is Running,
        forall|i: int| 0 <= i < evs.len() ==> !((#[trigger] evs[i]) is StreamEnded),
    ensures
        run_state(s, evs).phase is Running,
        run_state(s, evs).handle_live,
    decreases evs.len(),
{
    if evs.len() > 0 {
        assert forall|i: int| 0 <= i < evs.drop_last().len() implies !((#[trigger] evs.drop_last()[i])
            is StreamEnded) by {
            assert(evs.drop_last()[i] == evs[i]);
        }
        lemma_drain_keeps_handle(s, evs.drop_last());
        lemma_run_facts(s, evs.drop_last());
        assert(!(evs[evs.len() - 1] is StreamEnded));
    }
}

/// The handle's lifetime covers the drain loop's: if the supervisor ever
/// let go of the process handle, the child's output stream had signalled
/// end before that.
pub proof fn lemma_handle_outlives_drain(s: Supervisor, evs: Seq<Event>)
    requires
        s.wf(),
        s.phase is Running,
        !run_state(s, evs).handle_live,
    ensures
        exists|i: int| 0 <= i < evs.len() && (#[trigger] evs[i]) is StreamEnded,
{
    if forall|i: int| 0 <= i < evs.len() ==> !((#[trigger] evs[i]) is StreamEnded) {
        lemma_drain_keeps_handle(s, evs);
        assert(false);
    }
}

} // verus!
