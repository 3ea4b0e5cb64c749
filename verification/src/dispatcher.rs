//! The command dispatcher: a queue that many callers fill and one worker
//! drains, and the record of which commands still owe their caller an answer.
//!
//! A command is enqueued together with its completion routine and gets a
//! handle. The worker takes commands in arrival order. When a command's work is
//! done, `complete` hands its completion routine out, once.

use std::collections::VecDeque;
use vstd::prelude::*;

verus! {

/// Names a command from the moment it is enqueued until it is completed.
pub type CommandHandle = u64;

/// A command that waits for the worker.
pub struct Queued<C, K> {
    pub handle: CommandHandle,
    pub command: C,
    pub completion: K,
}

/// A command that the worker has taken and not yet completed.
pub struct Running<K> {
    pub handle: CommandHandle,
    pub completion: K,
}

/// A command that could not be enqueued, handed back with its completion routine.
pub struct Refused<C, K> {
    pub command: C,
    pub completion: K,
}

/// The state of a dispatcher as a mathematical value.
pub struct DispatcherView<C, K> {
    /// How many handles were issued: the next handle.
    pub issued: CommandHandle,
    /// The waiting commands, oldest first.
    pub queued: Seq<Queued<C, K>>,
    /// The commands in the worker's hands.
    pub running: Seq<Running<K>>,
}

impl<C, K> DispatcherView<C, K> {
    /// Whether the command waits for the worker.
    pub open spec fn is_queued(self, handle: CommandHandle) -> bool {
        exists|i: int| 0 <= i < self.queued.len() && (#[trigger] self.queued[i]).handle == handle
    }

    /// Whether the command is in the worker's hands.
    pub open spec fn is_running(self, handle: CommandHandle) -> bool {
        exists|i: int| 0 <= i < self.running.len() && (#[trigger] self.running[i]).handle == handle
    }

    /// Whether the command was enqueued and is not completed.
    pub open spec fn is_pending(self, handle: CommandHandle) -> bool {
        self.is_queued(handle) || self.is_running(handle)
    }

    /// Whether the command was enqueued and is completed.
    pub open spec fn is_retired(self, handle: CommandHandle) -> bool {
        handle < self.issued && !self.is_pending(handle)
    }

    /// Where a running command stands among the running ones.
    pub open spec fn running_place(self, handle: CommandHandle) -> int {
        choose|i: int| 0 <= i < self.running.len() && (#[trigger] self.running[i]).handle == handle
    }

    /// Where a waiting command stands in the queue.
    pub open spec fn queue_place(self, handle: CommandHandle) -> int {
        choose|i: int| 0 <= i < self.queued.len() && (#[trigger] self.queued[i]).handle == handle
    }

    /// The completion routine that is kept for a pending command.
    pub open spec fn completion_of(self, handle: CommandHandle) -> K {
        if self.is_queued(handle) {
            self.queued[self.queue_place(handle)].completion
        } else {
            self.running[self.running_place(handle)].completion
        }
    }

    /// Handles are issued in increasing order and each pending command has a
    /// handle of its own: the queue is in the order of issue, and no handle is
    /// both waiting and running, or running twice.
    pub open spec fn wf(self) -> bool {
        &&& forall|i: int|
            0 <= i < self.queued.len() ==> (#[trigger] self.queued[i]).handle < self.issued
        &&& forall|i: int, j: int|
            0 <= i < j < self.queued.len() ==> (#[trigger] self.queued[i]).handle < (
            #[trigger] self.queued[j]).handle
        &&& forall|i: int|
            0 <= i < self.running.len() ==> (#[trigger] self.running[i]).handle < self.issued
        &&& forall|i: int, j: int|
            0 <= i < j < self.running.len() ==> (#[trigger] self.running[i]).handle != (
            #[trigger] self.running[j]).handle
        &&& forall|i: int, j: int|
            0 <= i < self.queued.len() && 0 <= j < self.running.len() ==> (
            #[trigger] self.queued[i]).handle != (#[trigger] self.running[j]).handle
    }

    /// The state after a command was enqueued under the next handle.
    pub open spec fn after_enqueue(self, command: C, completion: K) -> Self
        recommends
            self.issued < u64::MAX,
    {
        DispatcherView {
            issued: (self.issued + 1) as u64,
            queued: self.queued.push(Queued { handle: self.issued, command, completion }),
            running: self.running,
        }
    }

    /// The state after the worker took the oldest waiting command.
    pub open spec fn after_next(self) -> Self
        recommends
            self.queued.len() > 0,
    {
        DispatcherView {
            issued: self.issued,
            queued: self.queued.subrange(1, self.queued.len() as int),
            running: self.running.push(
                Running { handle: self.queued[0].handle, completion: self.queued[0].completion },
            ),
        }
    }

    /// The state after a running command was completed.
    pub open spec fn after_complete(self, handle: CommandHandle) -> Self
        recommends
            self.is_running(handle),
    {
        DispatcherView {
            issued: self.issued,
            queued: self.queued,
            running: self.running.remove(self.running_place(handle)),
        }
    }
}

/// A queue of commands for a single worker, with the completion routine of
/// every command that is not completed yet.
pub struct CommandDispatcher<C, K> {
    issued: CommandHandle,
    queue: VecDeque<Queued<C, K>>,
    running: Vec<Running<K>>,
}

impl<C, K> CommandDispatcher<C, K> {
    #[verifier::type_invariant]
    spec fn well_formed(&self) -> bool {
        self@.wf()
    }

    /// The state of the dispatcher.
    pub closed spec fn view(&self) -> DispatcherView<C, K> {
        DispatcherView { issued: self.issued, queued: self.queue@, running: self.running@ }
    }

    /// A dispatcher that has seen no command.
    pub fn new() -> (dispatcher: Self)
        ensures
            dispatcher@.issued == 0,
            dispatcher@.queued.len() == 0,
            dispatcher@.running.len() == 0,
            dispatcher@.wf(),
    {
        CommandDispatcher { issued: 0, queue: VecDeque::new(), running: Vec::new() }
    }

    /// A dispatcher that has seen no command and issues `first` as its first
    /// handle, for a process that goes on where another left off.
    pub fn starting_at(first: CommandHandle) -> (dispatcher: Self)
        ensures
            dispatcher@.issued == first,
            dispatcher@.queued.len() == 0,
            dispatcher@.running.len() == 0,
            dispatcher@.wf(),
    {
        CommandDispatcher { issued: first, queue: VecDeque::new(), running: Vec::new() }
    }

    /// Does nothing. It lets a caller know what holds of every dispatcher.
    pub fn attest(&self)
        ensures
            self@.wf(),
    {
        proof {
            use_type_invariant(self);
        }
    }

    /// Moves the state out and leaves a dispatcher that has seen no command.
    fn take(&mut self) -> (state: Self)
        ensures
            state@ == old(self)@,
            state@.wf(),
            state.issued == old(self)@.issued,
            state.queue@ == old(self)@.queued,
            state.running@ == old(self)@.running,
    {
        proof {
            use_type_invariant(&*self);
        }
        let mut state = CommandDispatcher::new();
        core::mem::swap(self, &mut state);
        state
    }

    /// Enqueues a command with its completion routine and returns its handle
    /// at once. The queue has no bound; only when every handle has been issued
    /// is the command handed back.
    pub fn enqueue(&mut self, command: C, completion: K) -> (issued: Result<
        CommandHandle,
        Refused<C, K>,
    >)
        ensures
            issued is Ok <==> old(self)@.issued < u64::MAX,
            match issued {
                Ok(handle) => handle == old(self)@.issued && final(self)@ == old(
                    self,
                )@.after_enqueue(command, completion),
                Err(refused) => refused.command == command && refused.completion == completion
                    && final(self)@ == old(self)@,
            },
            final(self)@.wf(),
    {
        if self.issued == u64::MAX {
            proof {
                use_type_invariant(&*self);
            }
            return Err(Refused { command, completion });
        }
        let ghost before = self@;
        let CommandDispatcher { issued: handle, mut queue, running } = self.take();
        queue.push_back(Queued { handle, command, completion });
        proof {
            steps_keep_well_formed(before, DispatchStep::Enqueue { command, completion });
        }
        *self = CommandDispatcher { issued: handle + 1, queue, running };
        Ok(handle)
    }

    /// Takes the oldest waiting command for the worker. Its completion routine
    /// stays with the dispatcher.
    pub fn next(&mut self) -> (taken: Option<(CommandHandle, C)>)
        ensures
            taken is Some <==> old(self)@.queued.len() > 0,
            match taken {
                Some((handle, command)) => handle == old(self)@.queued[0].handle && command == old(
                    self,
                )@.queued[0].command && final(self)@ == old(self)@.after_next(),
                None => final(self)@ == old(self)@,
            },
            final(self)@.wf(),
    {
        proof {
            use_type_invariant(&*self);
        }
        let ghost before = self@;
        let CommandDispatcher { issued, mut queue, mut running } = self.take();
        let front = queue.pop_front();
        match front {
            None => {
                *self = CommandDispatcher { issued, queue, running };
                None
            },
            Some(queued) => {
                running.push(Running { handle: queued.handle, completion: queued.completion });
                proof {
                    steps_keep_well_formed(before, DispatchStep::Next);
                }
                *self = CommandDispatcher { issued, queue, running };
                Some((queued.handle, queued.command))
            },
        }
    }

    /// Where a running command stands among the running ones.
    fn find_running(&self, handle: CommandHandle) -> (found: Option<usize>)
        ensures
            match found {
                Some(i) => i < self.running@.len() && self.running@[i as int].handle == handle,
                None => !self@.is_running(handle),
            },
    {
        let mut i: usize = 0;
        while i < self.running.len()
            invariant
                0 <= i <= self.running.len(),
                forall|k: int| 0 <= k < i ==> (#[trigger] self.running@[k]).handle != handle,
            decreases self.running.len() - i,
        {
            if self.running[i].handle == handle {
                return Some(i);
            }
            i += 1;
        }
        None
    }

    /// Completes a running command: hands out its completion routine and
    /// forgets the command. A handle that is not running gets nothing: neither
    /// one that was completed before, nor one that still waits, nor one that was
    /// never issued.
    pub fn complete(&mut self, handle: CommandHandle) -> (completion: Option<K>)
        ensures
            completion is Some <==> old(self)@.is_running(handle),
            match completion {
                Some(routine) => routine == old(self)@.completion_of(handle) && final(self)@
                    == old(self)@.after_complete(handle),
                None => final(self)@ == old(self)@,
            },
            final(self)@.wf(),
    {
        proof {
            use_type_invariant(&*self);
        }
        let ghost before = self@;
        match self.find_running(handle) {
            None => None,
            Some(i) => {
                let CommandDispatcher { issued, queue, mut running } = self.take();
                let done = running.remove(i);
                proof {
                    let place = before.running_place(handle);
                    assert(before.running[i as int].handle == handle);
                    assert(place == i);
                    assert(!before.is_queued(handle)) by {
                        if before.is_queued(handle) {
                            let q = before.queue_place(handle);
                            assert(before.queued[q].handle != before.running[i as int].handle);
                        }
                    }
                    steps_keep_well_formed(before, DispatchStep::Complete { handle });
                }
                *self = CommandDispatcher { issued, queue, running };
                Some(done.completion)
            },
        }
    }

    /// Whether a command was enqueued and is not completed.
    pub fn is_pending(&self, handle: CommandHandle) -> (pending: bool)
        ensures
            pending == self@.is_pending(handle),
    {
        if let Some(place) = self.find_running(handle) {
            assert(self@.running[place as int].handle == handle);
            return true;
        }
        let mut i: usize = 0;
        while i < self.queue.len()
            invariant
                0 <= i <= self.queue.len(),
                forall|k: int| 0 <= k < i ==> (#[trigger] self.queue@[k]).handle != handle,
            decreases self.queue.len() - i,
        {
            if self.queue[i].handle == handle {
                assert(self@.queued[i as int].handle == handle);
                return true;
            }
            i += 1;
        }
        false
    }

    /// How many commands wait for the worker.
    pub fn waiting(&self) -> (count: usize)
        ensures
            count == self@.queued.len(),
    {
        self.queue.len()
    }

    /// How many commands are in the worker's hands.
    pub fn in_progress(&self) -> (count: usize)
        ensures
            count == self@.running.len(),
    {
        self.running.len()
    }
}

/// One operation on a dispatcher.
pub enum DispatchStep<C, K> {
    Enqueue { command: C, completion: K },
    Next,
    Complete { handle: CommandHandle },
}

impl<C, K> DispatcherView<C, K> {
    /// The state after an operation. An operation that cannot be carried out
    /// (no handle left, nothing waiting, a handle that is not running) leaves
    /// the state as it is.
    pub open spec fn after(self, step: DispatchStep<C, K>) -> Self {
        match step {
            DispatchStep::Enqueue { command, completion } => if self.issued < u64::MAX {
                self.after_enqueue(command, completion)
            } else {
                self
            },
            DispatchStep::Next => if self.queued.len() > 0 {
                self.after_next()
            } else {
                self
            },
            DispatchStep::Complete { handle } => if self.is_running(handle) {
                self.after_complete(handle)
            } else {
                self
            },
        }
    }
}

/// Every operation keeps the dispatcher well formed.
pub proof fn steps_keep_well_formed<C, K>(state: DispatcherView<C, K>, step: DispatchStep<C, K>)
    requires
        state.wf(),
    ensures
        state.after(step).wf(),
{
    let next = state.after(step);
    match step {
        DispatchStep::Enqueue { command, completion } => {
            if state.issued < u64::MAX {
                assert forall|i: int| 0 <= i < next.queued.len() implies (
                #[trigger] next.queued[i]).handle < next.issued by {
                    if i < state.queued.len() {
                        assert(next.queued[i] == state.queued[i]);
                    }
                }
                assert forall|i: int, j: int| 0 <= i < j < next.queued.len() implies (
                #[trigger] next.queued[i]).handle < (#[trigger] next.queued[j]).handle by {
                    assert(next.queued[i] == state.queued[i]);
                    if j < state.queued.len() {
                        assert(next.queued[j] == state.queued[j]);
                    }
                }
                assert forall|i: int, j: int|
                    0 <= i < next.queued.len() && 0 <= j < next.running.len() implies (
                #[trigger] next.queued[i]).handle != (#[trigger] next.running[j]).handle by {
                    assert(next.running[j] == state.running[j]);
                    if i < state.queued.len() {
                        assert(next.queued[i] == state.queued[i]);
                    }
                }
            }
        },
        DispatchStep::Next => {
            if state.queued.len() > 0 {
                assert forall|i: int| 0 <= i < next.queued.len() implies (
                #[trigger] next.queued[i]).handle < next.issued by {
                    assert(next.queued[i] == state.queued[i + 1]);
                }
                assert forall|i: int, j: int| 0 <= i < j < next.queued.len() implies (
                #[trigger] next.queued[i]).handle < (#[trigger] next.queued[j]).handle by {
                    assert(next.queued[i] == state.queued[i + 1]);
                    assert(next.queued[j] == state.queued[j + 1]);
                }
                assert forall|i: int| 0 <= i < next.running.len() implies (
                #[trigger] next.running[i]).handle < next.issued by {
                    if i < state.running.len() {
                        assert(next.running[i] == state.running[i]);
                    } else {
                        assert(state.queued[0].handle < state.issued);
                    }
                }
                assert forall|i: int, j: int| 0 <= i < j < next.running.len() implies (
                #[trigger] next.running[i]).handle != (#[trigger] next.running[j]).handle by {
                    assert(next.running[i] == state.running[i]);
                    if j < state.running.len() {
                        assert(next.running[j] == state.running[j]);
                    } else {
                        assert(state.queued[0].handle != state.running[i].handle);
                    }
                }
                assert forall|i: int, j: int|
                    0 <= i < next.queued.len() && 0 <= j < next.running.len() implies (
                #[trigger] next.queued[i]).handle != (#[trigger] next.running[j]).handle by {
                    assert(next.queued[i] == state.queued[i + 1]);
                    if j < state.running.len() {
                        assert(next.running[j] == state.running[j]);
                    } else {
                        assert(state.queued[0].handle < state.queued[i + 1].handle);
                    }
                }
            }
        },
        DispatchStep::Complete { handle } => {
            if state.is_running(handle) {
                let place = state.running_place(handle);
                assert forall|a: int| 0 <= a < next.running.len() implies (
                #[trigger] next.running[a]).handle < next.issued by {
                    let a0 = if a < place { a } else { a + 1 };
                    assert(next.running[a] == state.running[a0]);
                }
                assert forall|a: int, b: int| 0 <= a < b < next.running.len() implies (
                #[trigger] next.running[a]).handle != (#[trigger] next.running[b]).handle by {
                    let a0 = if a < place { a } else { a + 1 };
                    let b0 = if b < place { b } else { b + 1 };
                    assert(next.running[a] == state.running[a0]);
                    assert(next.running[b] == state.running[b0]);
                }
                assert forall|a: int, b: int|
                    0 <= a < next.queued.len() && 0 <= b < next.running.len() implies (
                #[trigger] next.queued[a]).handle != (#[trigger] next.running[b]).handle by {
                    let b0 = if b < place { b } else { b + 1 };
                    assert(next.running[b] == state.running[b0]);
                }
            }
        },
    }
}

/// A command that was enqueued is pending, under the handle it was given and
/// with the completion routine it came with.
pub proof fn enqueued_is_pending<C, K>(state: DispatcherView<C, K>, command: C, completion: K)
    requires
        state.wf(),
        state.issued < u64::MAX,
    ensures
        !state.is_pending(state.issued),
        state.after_enqueue(command, completion).is_queued(state.issued),
        state.after_enqueue(command, completion).completion_of(state.issued) == completion,
{
    let next = state.after_enqueue(command, completion);
    let handle = state.issued;
    let last = state.queued.len() as int;
    assert(next.queued[last].handle == handle);
    steps_keep_well_formed(state, DispatchStep::Enqueue { command, completion });
    let place = next.queue_place(handle);
    if place != last {
        if place < last {
            assert(next.queued[place].handle < next.queued[last].handle);
        }
    }
    if state.is_queued(handle) {
        let i = state.queue_place(handle);
        assert(state.queued[i].handle < state.issued);
    }
    if state.is_running(handle) {
        let i = state.running_place(handle);
        assert(state.running[i].handle < state.issued);
    }
}

/// A pending command stays pending, with its completion routine, through
/// every operation but its own completion: the routine is never lost.
pub proof fn pending_until_completed<C, K>(
    state: DispatcherView<C, K>,
    step: DispatchStep<C, K>,
    handle: CommandHandle,
)
    requires
        state.wf(),
        state.is_pending(handle),
        step != (DispatchStep::<C, K>::Complete { handle }),
    ensures
        state.after(step).is_pending(handle),
        state.after(step).completion_of(handle) == state.completion_of(handle),
{
    let next = state.after(step);
    steps_keep_well_formed(state, step);
    match step {
        DispatchStep::Enqueue { command, completion } => {
            if state.issued < u64::MAX {
                if state.is_queued(handle) {
                    let i = state.queue_place(handle);
                    assert(next.queued[i] == state.queued[i]);
                    let k = next.queue_place(handle);
                    if k != i {
                        if k < i {
                            assert(next.queued[k].handle < next.queued[i].handle);
                        } else {
                            assert(next.queued[i].handle < next.queued[k].handle);
                        }
                    }
                } else {
                    let i = state.running_place(handle);
                    assert(next.running[i].handle == handle);
                    if next.is_queued(handle) {
                        let q = next.queue_place(handle);
                        assert(next.queued[q].handle != next.running[i].handle);
                    }
                }
            }
        },
        DispatchStep::Next => {
            if state.queued.len() > 0 {
                if state.is_queued(handle) {
                    let i = state.queue_place(handle);
                    if i == 0 {
                        let last = state.running.len() as int;
                        assert(next.running[last].handle == handle);
                        if next.is_queued(handle) {
                            let q = next.queue_place(handle);
                            assert(next.queued[q].handle != next.running[last].handle);
                        }
                        let r = next.running_place(handle);
                        if r != last {
                            if r < last {
                                assert(next.running[r].handle != next.running[last].handle);
                            }
                        }
                    } else {
                        assert(next.queued[i - 1] == state.queued[i]);
                        let k = next.queue_place(handle);
                        if k != i - 1 {
                            if k < i - 1 {
                                assert(next.queued[k].handle < next.queued[i - 1].handle);
                            } else {
                                assert(next.queued[i - 1].handle < next.queued[k].handle);
                            }
                        }
                    }
                } else {
                    let i = state.running_place(handle);
                    assert(next.running[i] == state.running[i]);
                    if next.is_queued(handle) {
                        let q = next.queue_place(handle);
                        assert(next.queued[q].handle != next.running[i].handle);
                    }
                    let r = next.running_place(handle);
                    if r != i {
                        if r < i {
                            assert(next.running[r].handle != next.running[i].handle);
                        } else {
                            assert(next.running[i].handle != next.running[r].handle);
                        }
                    }
                }
            }
        },
        DispatchStep::Complete { handle: done } => {
            if state.is_running(done) {
                let place = state.running_place(done);
                if state.is_queued(handle) {
                    let i = state.queue_place(handle);
                    assert(next.queued[i].handle == handle);
                } else {
                    let i = state.running_place(handle);
                    let i1 = if i < place { i } else { i - 1 };
                    assert(next.running[i1] == state.running[i]);
                    if next.is_queued(handle) {
                        let q = next.queue_place(handle);
                        assert(next.queued[q].handle != next.running[i1].handle);
                    }
                    let r = next.running_place(handle);
                    if r != i1 {
                        if r < i1 {
                            assert(next.running[r].handle != next.running[i1].handle);
                        } else {
                            assert(next.running[i1].handle != next.running[r].handle);
                        }
                    }
                }
            }
        },
    }
}

/// Completing a running command retires it.
pub proof fn completion_retires<C, K>(state: DispatcherView<C, K>, handle: CommandHandle)
    requires
        state.wf(),
        state.is_running(handle),
    ensures
        state.after_complete(handle).is_retired(handle),
{
    let next = state.after_complete(handle);
    let place = state.running_place(handle);
    assert(state.running[place].handle < state.issued);
    if next.is_queued(handle) {
        let q = next.queue_place(handle);
        assert(state.queued[q].handle != state.running[place].handle);
    }
    if next.is_running(handle) {
        let r = next.running_place(handle);
        let r0 = if r < place { r } else { r + 1 };
        assert(next.running[r] == state.running[r0]);
        if r0 < place {
            assert(state.running[r0].handle != state.running[place].handle);
        } else {
            assert(state.running[place].handle != state.running[r0].handle);
        }
    }
}

/// A retired command stays retired through every operation. Since `complete`
/// hands a routine out only for a running command, and retires it, no
/// completion routine is handed out twice.
pub proof fn retired_stays_retired<C, K>(
    state: DispatcherView<C, K>,
    step: DispatchStep<C, K>,
    handle: CommandHandle,
)
    requires
        state.wf(),
        state.is_retired(handle),
    ensures
        state.after(step).is_retired(handle),
{
    let next = state.after(step);
    match step {
        DispatchStep::Enqueue { command, completion } => {
            if state.issued < u64::MAX {
                if next.is_queued(handle) {
                    let q = next.queue_place(handle);
                    if q < state.queued.len() {
                        assert(state.queued[q].handle == handle);
                    }
                }
                if next.is_running(handle) {
                    let r = next.running_place(handle);
                    assert(state.running[r].handle == handle);
                }
            }
        },
        DispatchStep::Next => {
            if state.queued.len() > 0 {
                if next.is_queued(handle) {
                    let q = next.queue_place(handle);
                    assert(state.queued[q + 1].handle == handle);
                }
                if next.is_running(handle) {
                    let r = next.running_place(handle);
                    if r < state.running.len() {
                        assert(state.running[r].handle == handle);
                    } else {
                        assert(state.queued[0].handle == handle);
                    }
                }
            }
        },
        DispatchStep::Complete { handle: done } => {
            if state.is_running(done) {
                let place = state.running_place(done);
                if next.is_queued(handle) {
                    let q = next.queue_place(handle);
                    assert(state.queued[q].handle == handle);
                }
                if next.is_running(handle) {
                    let r = next.running_place(handle);
                    let r0 = if r < place { r } else { r + 1 };
                    assert(next.running[r] == state.running[r0]);
                    assert(state.running[r0].handle == handle);
                }
            }
        },
    }
}

/// The worker takes commands in arrival order: the command at the head of the
/// queue has the smallest handle of all that wait.
pub proof fn head_is_oldest<C, K>(state: DispatcherView<C, K>, handle: CommandHandle)
    requires
        state.wf(),
        state.is_queued(handle),
    ensures
        state.queued[0].handle <= handle,
{
    let i = state.queue_place(handle);
    if i > 0 {
        assert(state.queued[0].handle < state.queued[i].handle);
    }
}

} // verus!
