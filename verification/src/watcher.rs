//! Decision logic of the cross-loop wakeup bridge.
//!
//! A background watcher thread periodically performs a zero-timeout OS poll of
//! the host runtime's backend descriptor. The poll itself, the sleep and the
//! GUI toolkit's "post empty event" primitive are outside calls made by the
//! unverified shell; the decision taken after each poll, and the behaviour of
//! the watcher over a whole run, are verified here.

use vstd::assert_seqs_equal;
use vstd::prelude::*;

verus! {

/// What the watcher does after one zero-timeout poll of the backend
/// descriptor.
#[derive(Clone, Copy, PartialEq, Eq, Structural, Debug)]
pub enum WatcherAction {
    /// Nothing ready: sleep for one interval and poll again.
    Idle,
    /// At least one event is pending: post an empty GUI event so a thread
    /// blocked in the GUI wait call returns and the host runtime may run.
    Wake,
    /// The OS poll reported an error: the watcher terminates permanently.
    /// Only the watcher stops; the rest of the process is unaffected.
    Stop,
}

/// The decision taken from one poll result: `0` means nothing is ready, `-1`
/// is the OS error value, and any other result means at least one event is
/// pending (the poll's result is not a count the bridge interprets further).
pub open spec fn spec_poll_action(res: i32) -> WatcherAction {
    if res == 0 {
        WatcherAction::Idle
    } else if res == -1 {
        WatcherAction::Stop
    } else {
        WatcherAction::Wake
    }
}

/// Decides one watcher iteration from the OS poll's result.
pub fn poll_action(res: i32) -> (a: WatcherAction)
    ensures
        a == spec_poll_action(res),
{
    if res == 0 {
        WatcherAction::Idle
    } else if res == -1 {
        WatcherAction::Stop
    } else {
        WatcherAction::Wake
    }
}

/// One watcher iteration under a cancellation signal: a watcher told to stop
/// stops, whatever the poll said; otherwise the poll result alone decides.
pub open spec fn spec_watcher_step(cancelled: bool, res: i32) -> WatcherAction {
    if cancelled {
        WatcherAction::Stop
    } else {
        spec_poll_action(res)
    }
}

/// Decides one watcher iteration, honouring the cancellation signal the
/// watcher checks each iteration before acting on the poll.
pub fn watcher_step(cancelled: bool, res: i32) -> (a: WatcherAction)
    ensures
        a == spec_watcher_step(cancelled, res),
{
    if cancelled {
        WatcherAction::Stop
    } else {
        poll_action(res)
    }
}

/// The actions a watcher takes over a run whose successive poll results are
/// `polls`: one action per poll, cut short immediately after the first error,
/// which is the last poll the watcher ever makes.
pub open spec fn spec_watcher_trace(polls: Seq<i32>) -> Seq<WatcherAction>
    decreases polls.len(),
{
    if polls.len() == 0 {
        Seq::empty()
    } else if polls[0] == -1 {
        seq![WatcherAction::Stop]
    } else {
        seq![spec_poll_action(polls[0])] + spec_watcher_trace(polls.drop_first())
    }
}

/// The number of polls the watcher makes before terminating on its own:
/// everything up to and including the first error, or all of them.
pub open spec fn spec_watcher_steps(polls: Seq<i32>) -> int
    decreases polls.len(),
{
    if polls.len() == 0 {
        0
    } else if polls[0] == -1 {
        1
    } else {
        1 + spec_watcher_steps(polls.drop_first())
    }
}

/// Shape of a watcher run: the watcher acts on every poll up to and including
/// the first error and on none after it, and each action is the decision
/// `spec_poll_action` takes on that poll alone.
pub proof fn lemma_watcher_trace_shape(polls: Seq<i32>)
    ensures
        0 <= spec_watcher_steps(polls) <= polls.len(),
        spec_watcher_trace(polls).len() == spec_watcher_steps(polls),
        forall|i: int|
            0 <= i < spec_watcher_steps(polls) ==> spec_watcher_trace(polls)[i]
                == spec_poll_action(polls[i]),
        forall|i: int| 0 <= i < spec_watcher_steps(polls) - 1 ==> polls[i] != -1,
        spec_watcher_steps(polls) < polls.len() ==> polls[spec_watcher_steps(polls) - 1] == -1,
    decreases polls.len(),
{
    if polls.len() == 0 {
    } else if polls[0] == -1 {
    } else {
        lemma_watcher_trace_shape(polls.drop_first());
        let tail = polls.drop_first();
        assert forall|i: int|
            0 <= i < spec_watcher_steps(polls) implies spec_watcher_trace(polls)[i]
            == spec_poll_action(polls[i]) by {
            if i > 0 {
                assert(spec_watcher_trace(polls)[i] == spec_watcher_trace(tail)[i - 1]);
                assert(tail[i - 1] == polls[i]);
            }
        }
        assert forall|i: int| 0 <= i < spec_watcher_steps(polls) - 1 implies polls[i] != -1 by {
            if i > 0 {
                assert(tail[i - 1] == polls[i]);
            }
        }
    }
}

/// Runs the watcher's decision loop over a recorded sequence of poll results
/// and returns the actions taken, stopping after the first error as the
/// watcher thread does. The run is total: an error ends the watcher's own
/// trace and nothing else.
pub fn run_watcher(polls: &Vec<i32>) -> (actions: Vec<WatcherAction>)
    ensures
        actions@ == spec_watcher_trace(polls@),
{
    let mut actions: Vec<WatcherAction> = Vec::new();
    let mut i: usize = 0;
    let mut stopped: bool = false;
    while i < polls.len() && !stopped
        invariant
            i <= polls@.len(),
            stopped ==> i >= 1 && polls@[i as int - 1] == -1,
            forall|j: int| 0 <= j < i - 1 ==> polls@[j] != -1,
            !stopped ==> forall|j: int| 0 <= j < i ==> polls@[j] != -1,
            actions@.len() == i,
            forall|j: int| 0 <= j < i ==> actions@[j] == spec_poll_action(polls@[j]),
        decreases polls@.len() - i,
    {
        let a = poll_action(polls[i]);
        if a == WatcherAction::Stop {
            stopped = true;
        }
        actions.push(a);
        i = i + 1;
    }
    proof {
        lemma_watcher_trace_shape(polls@);
        if stopped {
            assert(spec_watcher_steps(polls@) == i);
        } else {
            assert(spec_watcher_steps(polls@) == polls@.len());
        }
        assert_seqs_equal!(actions@, spec_watcher_trace(polls@));
    }
    actions
}

/// Wakeup quiescence: over a run in which the backend descriptor is never
/// ready, the watcher never invokes the wakeup primitive — every action it
/// takes is `Idle`.
pub proof fn lemma_wakeup_quiescence(polls: Seq<i32>)
    requires
        forall|i: int| 0 <= i < polls.len() ==> polls[i] == 0,
    ensures
        spec_watcher_trace(polls).len() == polls.len(),
        forall|i: int| 0 <= i < polls.len() ==> spec_watcher_trace(polls)[i]
            == WatcherAction::Idle,
{
    lemma_watcher_trace_shape(polls);
}

/// Wakeup liveness: if the descriptor first becomes ready at poll `t`, the
/// watcher is still running then and wakes the GUI loop at that very poll —
/// within one poll interval of the readiness.
pub proof fn lemma_wakeup_liveness(polls: Seq<i32>, t: int)
    requires
        0 <= t < polls.len(),
        forall|i: int| 0 <= i < t ==> polls[i] == 0,
        polls[t] >= 1,
    ensures
        spec_watcher_trace(polls).len() > t,
        spec_watcher_trace(polls)[t] == WatcherAction::Wake,
{
    lemma_watcher_trace_shape(polls);
    if spec_watcher_steps(polls) <= t {
        assert(polls[spec_watcher_steps(polls) - 1] == -1);
    }
}

/// Poll error containment: the first OS poll error stops the watcher — its
/// run ends at that poll with `Stop` — while every earlier decision stands
/// unchanged. The run itself stays well defined, so nothing beyond the
/// watcher's own thread is affected.
pub proof fn lemma_poll_error_containment(polls: Seq<i32>, t: int)
    requires
        0 <= t < polls.len(),
        polls[t] == -1,
        forall|i: int| 0 <= i < t ==> polls[i] != -1,
    ensures
        spec_watcher_trace(polls).len() == t + 1,
        spec_watcher_trace(polls)[t] == WatcherAction::Stop,
        forall|i: int| 0 <= i < t ==> spec_watcher_trace(polls)[i] == spec_poll_action(polls[i]),
{
    lemma_watcher_trace_shape(polls);
    if spec_watcher_steps(polls) < t + 1 {
        assert(polls[spec_watcher_steps(polls) - 1] == -1);
    }
    if spec_watcher_steps(polls) > t + 1 {
        assert(polls[t] != -1);
    }
}

} // verus!
