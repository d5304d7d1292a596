//! A task followed through a history of events, and what holds of every
//! such history.

use vstd::prelude::*;
use crate::protocol::ProtocolMessage;
use crate::task::{read, replayed, TaskEvent, TaskState};

verus! {

impl TaskState {
    /// The state after the first `n` events of `history`.
    pub open spec fn after<E, K>(self, history: Seq<TaskEvent<E, K>>, n: nat) -> TaskState
        decreases n,
    {
        if n == 0 {
            self
        } else {
            self.after(history, (n - 1) as nat).next(history[n - 1])
        }
    }

    /// Whether `history` can happen to a task in this state, event by
    /// event.
    pub open spec fn follows<E, K>(self, history: Seq<TaskEvent<E, K>>) -> bool {
        forall|k: nat|
            k < history.len() ==> #[trigger] self.after(history, k).accepts(history[k as int])
    }

    /// How many of the first `n` events of `history` ended the task, each
    /// with its last report.
    pub open spec fn reports<E, K>(self, history: Seq<TaskEvent<E, K>>, n: nat) -> nat
        decreases n,
    {
        if n == 0 {
            0
        } else {
            let before = self.reports(history, (n - 1) as nat);
            if self.after(history, (n - 1) as nat).outcome(history[n - 1]) is Continue {
                before
            } else {
                before + 1
            }
        }
    }
}

/// Every accepted event leaves a task in a valid state.
pub proof fn law_task_stays_valid<E, K>(state: TaskState, event: TaskEvent<E, K>)
    requires
        state.wf(),
        state.accepts(event),
    ensures
        state.next(event).wf(),
{
}

/// A task that replays a journal sends each of its entries once, and
/// counts them: when the replay begins, and still when the endpoint's
/// answer ends it, the next entry is the one after the journal's last.
pub proof fn law_replay_ends_at_journal_size<E, K>(state: TaskState, event: TaskEvent<E, K>)
    requires
        state.wf(),
        state.accepts(event),
    ensures
        TaskState::journal_of(event) matches Some(journal) ==> {
            &&& state.next(event).phase is Replaying
            &&& state.next(event).next_journal_index == journal.0.journal_size
            &&& state.next(event).journal_size == Some(journal.0.journal_size)
            &&& state.answer(event).len() == 2 + journal.0.journal_size
            &&& forall|i: int|
                0 <= i < journal.0.journal_size ==> #[trigger] state.answer(event)[2 + i]
                    == replayed::<E, K>(journal.1@)[i]
        },
        state.phase is Replaying && state.next(event).phase is Streaming ==> state.next(
            event,
        ).journal_size == Some(state.next(event).next_journal_index),
{
}

/// Reading a piece of the response reports entries and nothing else.
proof fn lemma_read_emits_entries<E, K>(index: int, messages: Seq<ProtocolMessage<E, K>>, n: nat)
    ensures
        forall|i: int|
            0 <= i < read(index, messages, n).emitted.len() ==> #[trigger] read(
                index,
                messages,
                n,
            ).emitted[i] is NewEntry,
    decreases n,
{
    if n > 0 {
        lemma_read_emits_entries(index, messages, (n - 1) as nat);
    }
}

/// A task's last report comes last, and comes alone: what a task answers
/// to an event holds a last report exactly if the event ends the task, and
/// then as the final action and nowhere else.
pub proof fn law_last_report_comes_last<E, K>(state: TaskState, event: TaskEvent<E, K>)
    requires
        state.accepts(event),
    ensures
        ({
            let answer = state.answer(event);
            &&& forall|i: int| 0 <= i < answer.len() - 1 ==> !(#[trigger] answer[i]).is_terminal()
            &&& !(state.outcome(event) is Continue) <==> answer.len() > 0
                && answer.last().is_terminal()
            &&& state.next(event).phase is Terminated <==> !(state.outcome(event) is Continue)
        }),
{
    match event {
        TaskEvent::ResponseData { messages, failure } => {
            lemma_read_emits_entries(
                state.next_journal_index as int,
                messages@,
                messages@.len(),
            );
        },
        _ => {},
    }
}

/// A task makes exactly one last report: after any history, it has made
/// one if it is over, and none if it is not.
pub proof fn law_one_last_report<E, K>(state: TaskState, history: Seq<TaskEvent<E, K>>, n: nat)
    requires
        !(state.phase is Terminated),
        state.follows(history),
        n <= history.len(),
    ensures
        state.reports(history, n) == if state.after(history, n).phase is Terminated {
            1nat
        } else {
            0nat
        },
    decreases n,
{
    if n > 0 {
        law_one_last_report(state, history, (n - 1) as nat);
        let before = state.after(history, (n - 1) as nat);
        assert(before.accepts(history[n - 1]));
    }
}

} // verus!
