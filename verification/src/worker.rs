//! Where the coordinator's answers meet the dispatcher's completion routines.

use crate::coordinator::{result_view, Completion};
use crate::dispatcher::{completion_retires, steps_keep_well_formed, CommandDispatcher, CommandHandle, DispatchStep, DispatcherView};
use crate::error::CacheError;
use crate::text::copy_bytes;
use vstd::prelude::*;

verus! {

/// A completion routine with the answer to call it with.
pub struct Due<K> {
    pub routine: K,
    pub result: Result<Vec<u8>, CacheError>,
}

/// A routine and its answer as a mathematical value.
pub struct DueView<K> {
    pub routine: K,
    pub result: Result<Seq<u8>, CacheError>,
}

/// The routines that are due for a list of answers, in the order of the
/// answers. An answer for a command that is not running is due to nobody.
pub open spec fn spec_due<C, K>(state: DispatcherView<C, K>, answers: Seq<Completion>) -> Seq<
    DueView<K>,
>
    decreases answers.len(),
{
    if answers.len() == 0 {
        Seq::empty()
    } else {
        let first = answers[0];
        let rest = answers.subrange(1, answers.len() as int);
        if state.is_running(first.handle) {
            seq![
                DueView { routine: state.completion_of(first.handle), result: result_view(first.result) },
            ] + spec_due(state.after_complete(first.handle), rest)
        } else {
            spec_due(state, rest)
        }
    }
}

/// The dispatcher after the commands of a list of answers were completed.
pub open spec fn spec_settled<C, K>(state: DispatcherView<C, K>, answers: Seq<Completion>) -> DispatcherView<
    C,
    K,
>
    decreases answers.len(),
{
    if answers.len() == 0 {
        state
    } else {
        let first = answers[0];
        let rest = answers.subrange(1, answers.len() as int);
        if state.is_running(first.handle) {
            spec_settled(state.after_complete(first.handle), rest)
        } else {
            spec_settled(state, rest)
        }
    }
}

/// The views of a list of due routines.
pub open spec fn due_views<K>(due: Seq<Due<K>>) -> Seq<DueView<K>> {
    Seq::new(due.len(), |i: int| DueView { routine: due[i].routine, result: result_view(due[i].result) })
}

/// Completes the commands that a list of answers names and pairs each
/// completion routine with its answer. Every routine comes out at most once,
/// whatever the list holds: a second answer for the same command finds it
/// completed.
pub fn settle<C, K>(dispatcher: &mut CommandDispatcher<C, K>, answers: &Vec<Completion>) -> (due: Vec<
    Due<K>,
>)
    ensures
        due_views(due@) == spec_due(old(dispatcher)@, answers@),
        final(dispatcher)@ == spec_settled(old(dispatcher)@, answers@),
        final(dispatcher)@.wf(),
{
    let mut due: Vec<Due<K>> = Vec::new();
    let mut i: usize = 0;
    let ghost start = dispatcher@;
    proof {
        assert(answers@.subrange(0, answers@.len() as int) =~= answers@);
        assert(due_views(due@) =~= Seq::<DueView<K>>::empty());
    }
    dispatcher.attest();
    while i < answers.len()
        invariant
            0 <= i <= answers.len(),
            dispatcher@.wf(),
            spec_due(start, answers@) == due_views(due@) + spec_due(
                dispatcher@,
                answers@.subrange(i as int, answers@.len() as int),
            ),
            spec_settled(start, answers@) == spec_settled(
                dispatcher@,
                answers@.subrange(i as int, answers@.len() as int),
            ),
        decreases answers.len() - i,
    {
        let answer = &answers[i];
        let ghost before = dispatcher@;
        let ghost rest = answers@.subrange(i as int, answers@.len() as int);
        let ghost listed = due_views(due@);
        proof {
            assert(rest[0] == answers@[i as int]);
            assert(rest.subrange(1, rest.len() as int) =~= answers@.subrange(
                i + 1,
                answers@.len() as int,
            ));
        }
        match dispatcher.complete(answer.handle) {
            Some(routine) => {
                let result = match &answer.result {
                    Ok(payload) => Ok(copy_bytes(payload)),
                    Err(error) => Err(*error),
                };
                due.push(Due { routine, result });
                proof {
                    let one = seq![
                        DueView {
                            routine: before.completion_of(answer.handle),
                            result: result_view(answer.result),
                        },
                    ];
                    assert(due_views(due@) =~= listed + one);
                    assert(listed + (one + spec_due(
                        before.after_complete(answer.handle),
                        rest.subrange(1, rest.len() as int),
                    )) =~= (listed + one) + spec_due(
                        before.after_complete(answer.handle),
                        rest.subrange(1, rest.len() as int),
                    ));
                }
            },
            None => {},
        }
        i += 1;
    }
    proof {
        assert(answers@.subrange(i as int, answers@.len() as int).len() == 0);
        assert(due_views(due@) + Seq::<DueView<K>>::empty() =~= due_views(due@));
    }
    due
}

/// Completing a command sets no other command running.
pub proof fn completion_starts_nothing<C, K>(
    state: DispatcherView<C, K>,
    done: CommandHandle,
    handle: CommandHandle,
)
    requires
        state.wf(),
        state.is_running(done),
        !state.is_running(handle) || handle == done,
    ensures
        !state.after_complete(done).is_running(handle),
        state.after_complete(done).wf(),
{
    let next = state.after_complete(done);
    steps_keep_well_formed(state, DispatchStep::Complete { handle: done });
    if handle == done {
        completion_retires(state, done);
    } else if next.is_running(handle) {
        let place = state.running_place(done);
        let r = next.running_place(handle);
        let r0 = if r < place { r } else { r + 1 };
        assert(next.running[r] == state.running[r0]);
    }
}

/// Once a list of answers is settled, none of the commands it names is
/// running: each has had its completion routine handed out, or never had one
/// to hand out. A later answer for any of them is due to nobody.
pub proof fn settled_commands_are_done<C, K>(
    state: DispatcherView<C, K>,
    answers: Seq<Completion>,
    handle: CommandHandle,
)
    requires
        state.wf(),
        !state.is_running(handle) || exists|k: int|
            0 <= k < answers.len() && (#[trigger] answers[k]).handle == handle,
    ensures
        !spec_settled(state, answers).is_running(handle),
        spec_settled(state, answers).wf(),
    decreases answers.len(),
{
    if answers.len() > 0 {
        let first = answers[0];
        let rest = answers.subrange(1, answers.len() as int);
        if state.is_running(handle) {
            let k = choose|k: int| 0 <= k < answers.len() && (#[trigger] answers[k]).handle == handle;
            if k > 0 {
                assert(rest[k - 1].handle == handle);
            }
        }
        if state.is_running(first.handle) {
            let next = state.after_complete(first.handle);
            steps_keep_well_formed(state, DispatchStep::Complete { handle: first.handle });
            if first.handle == handle {
                completion_starts_nothing(state, first.handle, handle);
            } else if !state.is_running(handle) {
                completion_starts_nothing(state, first.handle, handle);
            }
            settled_commands_are_done(next, rest, handle);
        } else {
            settled_commands_are_done(state, rest, handle);
        }
    }
}

} // verus!
