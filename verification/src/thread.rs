//! Cooperative green-thread runtime.
//!
//! A thread is a fixed-size stack plus a control record ([`RPIThread`]).
//! All scheduler state lives in one explicit value, [`ThreadRuntime`]:
//! the FIFO run queue, the single `current` slot, the scheduler anchor
//! and the thread-id counter.  Scheduling decisions happen at exactly
//! two voluntary points, [`ThreadRuntime::rpi_yield`] and
//! [`ThreadRuntime::rpi_exit`].
//!
//! On the board, suspending and resuming a context is done by an
//! architecture-specific register save/restore primitive that swaps
//! stack pointers, and a thread's very first activation goes through an
//! entry trampoline that pulls the start function and its argument out
//! of a synthesized initial frame.  Here that sealed primitive is kept
//! behind a narrow, explicit interface: [`make_initial_frame`] writes
//! the synthesized frame at its documented offsets, a [`SavedContext`]
//! records where a suspended thread resumes, and the run loop in
//! [`ThreadRuntime::rpi_thread_start`] plays the role of the switch by
//! carrying resumption points between the lifecycle operations.  A
//! thread's entry function is named by a code index into a table of
//! entry routines, and an entry routine is a sequence of scheduling
//! calls ([`ThreadStep`]); everything a routine does between two
//! scheduling calls is invisible to the scheduler and therefore not
//! modelled.

use std::collections::VecDeque;
use vstd::prelude::*;

verus! {

/// Stack capacity of one thread, in 32-bit words (8 KiB).
pub const THREAD_MAX_STACKSIZE: usize = 2048;

/// Number of words a synthesized initial frame occupies on top of the
/// stack: eight saved registers plus the return address slot.
pub const INITIAL_FRAME_WORDS: usize = 9;

/// Stands for the address of the entry trampoline in a synthesized
/// frame's return-address slot.  The switch primitive loads this slot
/// into the return register, so a fresh thread wakes up inside the
/// trampoline.
pub const TRAMPOLINE_ADDR: u32 = 0x8000;

/// Fill pattern for freshly allocated stack words.
pub const STACK_FILL: u32 = u32::MAX;

/// Where a suspended thread resumes.
///
/// While a thread is the current one its saved context is meaningless
/// and must not be consulted; it only describes threads that are *not*
/// running.
#[derive(Clone, Copy, PartialEq, Eq, Structural, Debug)]
pub enum SavedContext {
    /// A synthesized initial frame: `cursor` is the index of the lowest
    /// word of the frame inside the thread's stack.  Resuming from here
    /// enters the trampoline, which reads the entry code at `cursor`
    /// and the argument at `cursor + 1`.
    Start { cursor: usize },
    /// Suspended inside its entry routine: resuming continues routine
    /// `code` at step `pc`.
    Resume { code: u32, pc: usize },
    /// Not yet initialized (a scheduler anchor before the first start,
    /// or a thread that is current and whose slot is therefore stale).
    Null,
}

/// One scheduling call made by an entry routine.
///
/// An entry routine is a finite sequence of these; whatever else the
/// routine computes between them does not involve the scheduler.  A
/// routine that reaches the end of its sequence returns normally, and
/// the trampoline then exits on its behalf with status 0.
#[derive(Clone, Copy, PartialEq, Eq, Structural, Debug)]
pub enum ThreadStep {
    /// Give the processor up voluntarily (`rpi_yield`).
    Yield,
    /// Terminate explicitly with the given status (`rpi_exit`).
    Exit { status: i32 },
}

/// One observable scheduling event of a whole run.
#[derive(Clone, Copy, PartialEq, Eq, Structural, Debug)]
pub enum ThreadEvent {
    /// The trampoline invoked thread `tid`'s entry function with `arg`.
    Enter { tid: usize, arg: u32 },
    /// Thread `tid` gave the processor up and another context was
    /// switched in.  A yield that found the run queue empty is a no-op
    /// and leaves no event.
    Yielded { tid: usize },
    /// Thread `tid` terminated with `status` (0 for a normal return
    /// from its entry function) and its resources were released.
    Exited { tid: usize, status: i32 },
}

/// Thread control block: the resource record of one thread.
pub struct RPIThread {
    /// Strictly positive id assigned at spawn time; 0 is reserved for
    /// the scheduler anchor.
    pub thread_id: usize,
    /// Resumption point; meaningful only while this thread is not the
    /// current one.
    pub saved_context: SavedContext,
    /// Optional diagnostic label.
    pub annot: Option<String>,
    /// Exclusively owned, fixed-capacity stack.
    pub stack: Vec<u32>,
}

impl RPIThread {
    /// The synthesized frame of a fresh thread sits at the top of the
    /// stack and holds the entry code, the argument and the trampoline
    /// return address at its documented offsets.
    pub open spec fn frame_wf(self) -> bool {
        &&& self.stack@.len() == THREAD_MAX_STACKSIZE
        &&& self.saved_context matches SavedContext::Start { cursor }
        &&& self.saved_context->Start_cursor
            == THREAD_MAX_STACKSIZE - INITIAL_FRAME_WORDS
        &&& self.stack@[THREAD_MAX_STACKSIZE - 1] == TRAMPOLINE_ADDR
    }

    /// Entry code stored in a fresh thread's frame.
    pub open spec fn frame_code(self) -> u32 {
        self.stack@[self.saved_context->Start_cursor as int]
    }

    /// Argument stored in a fresh thread's frame.
    pub open spec fn frame_arg(self) -> u32 {
        self.stack@[self.saved_context->Start_cursor + 1]
    }

    /// A thread at rest (enqueued) either still carries its synthesized
    /// initial frame or was suspended inside its entry routine.
    pub open spec fn wf(self) -> bool {
        match self.saved_context {
            SavedContext::Start { cursor } => self.frame_wf(),
            SavedContext::Resume { code, pc } => true,
            SavedContext::Null => false,
        }
    }
}

/// Writes the synthesized initial frame of a new thread into its stack
/// and returns the frame cursor, the stack index the saved-context
/// cursor of the fresh thread must point at.
///
/// Frame layout, relative to the returned cursor: word 0 holds the
/// entry code (popped into the first callee-saved register), word 1 the
/// argument (popped into the second), words 2..8 the remaining
/// callee-saved registers (left at the fill pattern), and word 8 — the
/// topmost word of the stack — the trampoline return address.
pub fn make_initial_frame(stack: &mut Vec<u32>, code: u32, arg: u32) -> (cursor: usize)
    requires
        old(stack)@.len() == THREAD_MAX_STACKSIZE,
    ensures
        cursor == THREAD_MAX_STACKSIZE - INITIAL_FRAME_WORDS,
        final(stack)@.len() == THREAD_MAX_STACKSIZE,
        final(stack)@[cursor as int] == code,
        final(stack)@[cursor + 1] == arg,
        final(stack)@[THREAD_MAX_STACKSIZE - 1] == TRAMPOLINE_ADDR,
        forall|i: int|
            0 <= i < THREAD_MAX_STACKSIZE && i != cursor && i != cursor + 1
                && i != THREAD_MAX_STACKSIZE - 1
                ==> final(stack)@[i] == old(stack)@[i],
{
    // The return-address slot: the switch primitive loads it last, so a
    // fresh thread wakes up at the trampoline.
    let top: usize = THREAD_MAX_STACKSIZE - 1;
    stack.set(top, TRAMPOLINE_ADDR);

    // Seven words down: the argument register slot.
    let arg_slot: usize = THREAD_MAX_STACKSIZE - INITIAL_FRAME_WORDS + 1;
    stack.set(arg_slot, arg);

    // One more word down: the entry-code register slot, where the
    // stack cursor of the fresh context comes to rest.
    let cursor: usize = THREAD_MAX_STACKSIZE - INITIAL_FRAME_WORDS;
    stack.set(cursor, code);

    cursor
}

/// Mathematical view of a table of entry routines.
pub open spec fn table_seq(table: Seq<Vec<ThreadStep>>) -> Seq<Seq<ThreadStep>> {
    table.map_values(|routine: Vec<ThreadStep>| routine@)
}

/// Number of scheduling calls routine `code` still makes from step
/// `pc`, counting the final (explicit or implicit) exit.
pub open spec fn steps_remaining(
    table: Seq<Seq<ThreadStep>>,
    code: u32,
    pc: usize,
) -> nat {
    if code < table.len() && pc <= table[code as int].len() <= usize::MAX {
        (table[code as int].len() - pc + 1) as nat
    } else {
        0
    }
}

/// Entry code a thread resumes into: from a synthesized frame this is
/// the code stored in the frame, from a suspension the recorded one.
pub open spec fn resume_code(t: RPIThread) -> u32 {
    match t.saved_context {
        SavedContext::Start { cursor } => t.frame_code(),
        SavedContext::Resume { code, pc } => code,
        SavedContext::Null => 0,
    }
}

/// Step a thread resumes at: a fresh thread starts its routine at 0.
pub open spec fn resume_pc(t: RPIThread) -> usize {
    match t.saved_context {
        SavedContext::Start { cursor } => 0,
        SavedContext::Resume { code, pc } => pc,
        SavedContext::Null => 0,
    }
}

/// Scheduling calls a suspended thread still makes once resumed.
pub open spec fn tcb_remaining(table: Seq<Seq<ThreadStep>>, t: RPIThread) -> nat {
    steps_remaining(table, resume_code(t), resume_pc(t))
}

/// Scheduling calls all queued threads together still make.
pub open spec fn queue_remaining(table: Seq<Seq<ThreadStep>>, q: Seq<RPIThread>) -> nat
    decreases q.len(),
{
    if q.len() == 0 {
        0
    } else {
        tcb_remaining(table, q[0]) + queue_remaining(table, q.drop_first())
    }
}

/// Every routine of the table is of machine-representable length, as
/// any table held in a vector is.
pub open spec fn table_fits(table: Seq<Seq<ThreadStep>>) -> bool {
    forall|c: int| 0 <= c < table.len() ==> (#[trigger] table[c]).len() <= usize::MAX
}

/// A suspended thread that the run loop can execute against `table`:
/// well formed, entry code in range, resumption step within its
/// routine.
pub open spec fn tcb_runnable(table: Seq<Seq<ThreadStep>>, t: RPIThread) -> bool {
    &&& t.wf()
    &&& resume_code(t) < table.len()
    &&& resume_pc(t) <= table[resume_code(t) as int].len()
}

/// Every queued thread is runnable against `table`.
pub open spec fn queue_runnable(table: Seq<Seq<ThreadStep>>, q: Seq<RPIThread>) -> bool {
    forall|i: int| 0 <= i < q.len() ==> tcb_runnable(table, #[trigger] q[i])
}

/// Events observed at the moment a thread is switched into: a fresh
/// thread passes through the trampoline, which calls its entry
/// function with the argument synthesized into its frame; resuming a
/// suspended thread is silent.
pub open spec fn entry_events(t: RPIThread) -> Seq<ThreadEvent> {
    match t.saved_context {
        SavedContext::Start { cursor } => seq![
            ThreadEvent::Enter { tid: t.thread_id, arg: t.frame_arg() },
        ],
        SavedContext::Resume { code, pc } => Seq::empty(),
        SavedContext::Null => Seq::empty(),
    }
}

/// The event trace of running thread `cur` from step `pc` of routine
/// `code` with run queue `q`, to completion of every thread.
///
/// This is the mathematical model of the whole runtime: a yield with an
/// empty queue is a silent no-op, a yield otherwise re-enqueues the
/// running thread (suspended at the following step) and switches into
/// the queue head, reaching the end of the routine exits implicitly
/// with status 0, and an exit releases the running thread and switches
/// into the queue head — or, with an empty queue, ends the run.
pub open spec fn run_from(
    table: Seq<Seq<ThreadStep>>,
    cur: RPIThread,
    code: u32,
    pc: usize,
    q: Seq<RPIThread>,
) -> Seq<ThreadEvent>
    decreases steps_remaining(table, code, pc) + queue_remaining(table, q), 0int,
    via run_from_decreases
{
    if !(code < table.len() && pc <= table[code as int].len() <= usize::MAX) {
        Seq::empty()
    } else if pc == table[code as int].len() {
        // the entry function returned: the trampoline exits for it
        seq![ThreadEvent::Exited { tid: cur.thread_id, status: 0 }]
            + (if q.len() == 0 {
                Seq::empty()
            } else {
                switch_into(table, q[0], q.drop_first())
            })
    } else {
        match table[code as int][pc as int] {
            ThreadStep::Yield => {
                if q.len() == 0 {
                    run_from(table, cur, code, (pc + 1) as usize, q)
                } else {
                    seq![ThreadEvent::Yielded { tid: cur.thread_id }] + switch_into(
                        table,
                        q[0],
                        q.drop_first().push(
                            RPIThread {
                                saved_context: SavedContext::Resume {
                                    code,
                                    pc: (pc + 1) as usize,
                                },
                                ..cur
                            },
                        ),
                    )
                }
            },
            ThreadStep::Exit { status } => {
                seq![ThreadEvent::Exited { tid: cur.thread_id, status }]
                    + (if q.len() == 0 {
                        Seq::empty()
                    } else {
                        switch_into(table, q[0], q.drop_first())
                    })
            },
        }
    }
}

/// The event trace from switching into suspended thread `t` with run
/// queue `q`: its trampoline entry, if fresh, then the rest of the run.
pub open spec fn switch_into(
    table: Seq<Seq<ThreadStep>>,
    t: RPIThread,
    q: Seq<RPIThread>,
) -> Seq<ThreadEvent>
    decreases tcb_remaining(table, t) + queue_remaining(table, q), 1int,
{
    entry_events(t) + run_from(table, t, resume_code(t), resume_pc(t), q)
}

/// The event trace of a whole `rpi_thread_start` call on run queue `q`:
/// nothing with an empty queue, otherwise the run that begins by
/// switching into the queue head.
pub open spec fn sched_run(table: Seq<Seq<ThreadStep>>, q: Seq<RPIThread>) -> Seq<ThreadEvent> {
    if q.len() == 0 {
        Seq::empty()
    } else {
        switch_into(table, q[0], q.drop_first())
    }
}

/// The total number of pending scheduling calls falls with every queued
/// thread taken off the measure.
pub proof fn lemma_queue_remaining_push(
    table: Seq<Seq<ThreadStep>>,
    q: Seq<RPIThread>,
    t: RPIThread,
)
    ensures
        queue_remaining(table, q.push(t)) == queue_remaining(table, q) + tcb_remaining(table, t),
    decreases q.len(),
{
    if q.len() == 0 {
        assert(q.push(t).drop_first() =~= q);
    } else {
        assert(q.push(t).drop_first() =~= q.drop_first().push(t));
        lemma_queue_remaining_push(table, q.drop_first(), t);
    }
}

#[via_fn]
proof fn run_from_decreases(
    table: Seq<Seq<ThreadStep>>,
    cur: RPIThread,
    code: u32,
    pc: usize,
    q: Seq<RPIThread>,
) {
    if code < table.len() && pc <= table[code as int].len() <= usize::MAX
        && pc != table[code as int].len() {
        if table[code as int][pc as int] is Yield && q.len() > 0 {
            let resumed = RPIThread {
                saved_context: SavedContext::Resume { code, pc: (pc + 1) as usize },
                ..cur
            };
            lemma_queue_remaining_push(table, q.drop_first(), resumed);
        }
    }
}

/// All process-wide scheduler state as one explicit value: the FIFO run
/// queue, the single `current` slot, the lazily created scheduler
/// anchor, and the monotonically increasing thread-id counter.
pub struct ThreadRuntime {
    /// Ready threads in FIFO order: insertion at the tail, removal at
    /// the head.  This ordering is the entire scheduling policy.
    pub run_q: VecDeque<RPIThread>,
    /// The single currently executing context, if any.
    pub cur_thread: Option<RPIThread>,
    /// Sentinel pseudo-thread with id 0 standing for "no user thread";
    /// its saved context is the return path to the caller of
    /// `rpi_thread_start`.  Created lazily, at most once.
    pub scheduler_thread: Option<RPIThread>,
    /// Next id to assign; seeded at 1, never reset.  Id 0 is reserved
    /// for the scheduler anchor.
    pub thread_id_counter: usize,
}

impl ThreadRuntime {
    /// Ids of the queued threads, head first.
    pub open spec fn queue_ids(self) -> Seq<usize> {
        self.run_q@.map_values(|t: RPIThread| t.thread_id)
    }

    /// Scheduler invariant: queued threads and the current thread are
    /// well formed, carry distinct user ids below the counter, no
    /// queued thread is also current, and the anchor (once created)
    /// has the reserved id 0.
    pub open spec fn wf(self) -> bool {
        &&& self.thread_id_counter >= 1
        &&& forall|i: int|
            0 <= i < self.run_q@.len()
                ==> (#[trigger] self.run_q@[i]).wf()
                    && 1 <= self.run_q@[i].thread_id < self.thread_id_counter
        &&& forall|i: int, j: int|
            0 <= i < j < self.run_q@.len()
                ==> (#[trigger] self.run_q@[i]).thread_id
                    != (#[trigger] self.run_q@[j]).thread_id
        &&& match self.cur_thread {
            Some(t) => {
                &&& 1 <= t.thread_id < self.thread_id_counter
                &&& forall|i: int|
                    0 <= i < self.run_q@.len()
                        ==> (#[trigger] self.run_q@[i]).thread_id != t.thread_id
            },
            None => true,
        }
        &&& match self.scheduler_thread {
            Some(s) => s.thread_id == 0,
            None => true,
        }
    }

    /// A fresh runtime: nothing queued, nothing current, no anchor yet,
    /// ids starting at 1.
    pub fn new() -> (rt: ThreadRuntime)
        ensures
            rt.wf(),
            rt.run_q@ =~= Seq::<RPIThread>::empty(),
            rt.cur_thread is None,
            rt.scheduler_thread is None,
            rt.thread_id_counter == 1,
    {
        ThreadRuntime {
            run_q: VecDeque::new(),
            cur_thread: None,
            scheduler_thread: None,
            thread_id_counter: 1,
        }
    }

    /// Spawns a new thread: allocates its stack, synthesizes the
    /// initial frame so that a later switch lands in the trampoline
    /// with `code` and `arg` readable at the documented offsets,
    /// assigns the next id, and appends the thread to the run-queue
    /// tail.  The new thread cannot run before `rpi_thread_start`,
    /// `rpi_yield` or `rpi_exit` dequeues it.
    pub fn rpi_fork(&mut self, code: u32, arg: u32) -> (tid: usize)
        requires
            old(self).wf(),
            old(self).thread_id_counter < usize::MAX,
        ensures
            final(self).wf(),
            tid == old(self).thread_id_counter,
            final(self).thread_id_counter == old(self).thread_id_counter + 1,
            final(self).cur_thread == old(self).cur_thread,
            final(self).scheduler_thread == old(self).scheduler_thread,
            final(self).run_q@.len() == old(self).run_q@.len() + 1,
            final(self).run_q@.drop_last() =~= old(self).run_q@,
            final(self).run_q@.last().thread_id == tid,
            final(self).run_q@.last().frame_wf(),
            final(self).run_q@.last().frame_code() == code,
            final(self).run_q@.last().frame_arg() == arg,
    {
        let mut stack: Vec<u32> = vec![STACK_FILL; THREAD_MAX_STACKSIZE];
        let cursor = make_initial_frame(&mut stack, code, arg);

        let tid = self.thread_id_counter;
        let new_thread = RPIThread {
            thread_id: tid,
            saved_context: SavedContext::Start { cursor },
            annot: None,
            stack,
        };
        self.thread_id_counter = self.thread_id_counter + 1;
        self.run_q.push_back(new_thread);
        tid
    }

    /// Id of the currently running thread.  Calling this from
    /// non-threaded code (no thread current) is a programming error,
    /// excluded by the precondition.
    pub fn rpi_cur_thread_id(&self) -> (tid: usize)
        requires
            self.cur_thread is Some,
        ensures
            tid == self.cur_thread->Some_0.thread_id,
    {
        match &self.cur_thread {
            Some(t) => t.thread_id,
            None => vstd::pervasive::unreached(),
        }
    }

    /// Voluntary yield of the currently running thread.
    ///
    /// With an empty run queue this is a no-op: the sole ready thread
    /// simply continues and no event is observable.  Otherwise the
    /// current thread is appended to the run-queue tail, suspended at
    /// the resumption point `(resume_code, resume_pc)` that the switch
    /// primitive records on its behalf, and the former queue head
    /// becomes current.  Returns whether a switch took place.
    pub fn rpi_yield(&mut self, resume_code: u32, resume_pc: usize) -> (switched: bool)
        requires
            old(self).wf(),
            old(self).cur_thread is Some,
        ensures
            final(self).wf(),
            final(self).thread_id_counter == old(self).thread_id_counter,
            final(self).scheduler_thread == old(self).scheduler_thread,
            old(self).run_q@.len() == 0 ==> !switched && *final(self) == *old(self),
            old(self).run_q@.len() > 0 ==> {
                &&& switched
                &&& final(self).cur_thread == Some(old(self).run_q@[0])
                &&& final(self).run_q@ =~= old(self).run_q@.drop_first().push(
                    RPIThread {
                        saved_context: SavedContext::Resume {
                            code: resume_code,
                            pc: resume_pc,
                        },
                        ..old(self).cur_thread->Some_0
                    },
                )
            },
    {
        if self.run_q.len() == 0 {
            return false;
        }

        let mut previous_thread = self.cur_thread.take().unwrap();
        previous_thread.saved_context = SavedContext::Resume {
            code: resume_code,
            pc: resume_pc,
        };
        self.run_q.push_back(previous_thread);

        let next_thread = self.run_q.pop_front().unwrap();
        self.cur_thread = Some(next_thread);
        true
    }

    /// Termination of the currently running thread, explicit or — via
    /// the trampoline — implicit.  The current thread's identity is
    /// discarded and its stack released; the status is accepted for
    /// diagnostic purposes only, as no other thread observes it.  If
    /// the run queue is non-empty its head becomes current and the
    /// result is `true`; otherwise control returns to the scheduler
    /// anchor (no thread is current any more) and the result is
    /// `false`.
    pub fn rpi_exit(&mut self, exit_code: i32) -> (switched: bool)
        requires
            old(self).wf(),
            old(self).cur_thread is Some,
        ensures
            final(self).wf(),
            final(self).thread_id_counter == old(self).thread_id_counter,
            final(self).scheduler_thread == old(self).scheduler_thread,
            switched <==> old(self).run_q@.len() > 0,
            old(self).run_q@.len() > 0 ==> {
                &&& final(self).run_q@ =~= old(self).run_q@.drop_first()
                &&& final(self).cur_thread == Some(old(self).run_q@[0])
            },
            old(self).run_q@.len() == 0 ==> {
                &&& final(self).run_q@ =~= old(self).run_q@
                &&& final(self).cur_thread is None
            },
    {
        // Dropping the control block here is the release of the
        // thread's resources; there is no other reclamation path.
        let _released = self.cur_thread.take();
        let _ = exit_code;

        match self.run_q.pop_front() {
            Some(next_thread) => {
                self.cur_thread = Some(next_thread);
                true
            },
            None => false,
        }
    }

    /// Stands in for loading the saved context of the (just made
    /// current) thread: a fresh thread is entered through the
    /// trampoline, which reads the entry code and argument out of the
    /// synthesized frame and calls the entry function; a suspended
    /// thread silently continues at its recorded step.  Returns the
    /// routine code and step to execute from.
    fn switch_in(&self, table: &Vec<Vec<ThreadStep>>, trace: &mut Vec<ThreadEvent>) -> (r: (
        u32,
        usize,
    ))
        requires
            self.cur_thread is Some,
            tcb_runnable(table_seq(table@), self.cur_thread->Some_0),
        ensures
            r.0 == resume_code(self.cur_thread->Some_0),
            r.1 == resume_pc(self.cur_thread->Some_0),
            final(trace)@ =~= old(trace)@ + entry_events(self.cur_thread->Some_0),
    {
        let cur = match &self.cur_thread {
            Some(t) => t,
            None => vstd::pervasive::unreached(),
        };
        match &cur.saved_context {
            SavedContext::Start { cursor } => {
                // the trampoline's view of the synthesized frame
                let code = cur.stack[*cursor];
                let arg = cur.stack[*cursor + 1];
                trace.push(ThreadEvent::Enter { tid: cur.thread_id, arg });
                (code, 0)
            },
            SavedContext::Resume { code, pc } => (*code, *pc),
            SavedContext::Null => vstd::pervasive::unreached(),
        }
    }

    /// The only transition from non-threaded to threaded execution.
    /// Initializes the scheduler anchor if needed, switches into the
    /// head of the run queue, and returns only when every spawned
    /// thread has run to completion: the run queue is drained and no
    /// thread is current.  With an empty run queue it is a safe no-op.
    ///
    /// `table` maps each entry code to its routine; the returned trace
    /// is exactly the run that [`sched_run`] describes.
    pub fn rpi_thread_start(&mut self, table: &Vec<Vec<ThreadStep>>) -> (trace: Vec<
        ThreadEvent,
    >)
        requires
            old(self).wf(),
            old(self).cur_thread is None,
            queue_runnable(table_seq(table@), old(self).run_q@),
        ensures
            final(self).wf(),
            final(self).run_q@.len() == 0,
            final(self).cur_thread is None,
            final(self).thread_id_counter == old(self).thread_id_counter,
            old(self).run_q@.len() == 0 ==> *final(self) == *old(self),
            old(self).run_q@.len() > 0 ==> final(self).scheduler_thread is Some
                && final(self).scheduler_thread->Some_0.thread_id == 0,
            trace@ =~= sched_run(table_seq(table@), old(self).run_q@),
    {
        let ghost tab = table_seq(table@);
        let ghost q0 = self.run_q@;
        let ghost counter0 = self.thread_id_counter;

        let mut trace: Vec<ThreadEvent> = Vec::new();

        if self.run_q.len() == 0 {
            // nothing to run
            return trace;
        }

        // Initialize the scheduler anchor if needed.  Its saved context
        // is the return path out of this call; it owns no stack of its
        // own since it is never entered through the trampoline.
        if self.scheduler_thread.is_none() {
            let sched_thread = RPIThread {
                thread_id: 0,
                saved_context: SavedContext::Null,
                annot: Some("scheduler".to_owned()),
                stack: Vec::new(),
            };
            self.scheduler_thread = Some(sched_thread);
        }

        let next_thread = match self.run_q.pop_front() {
            Some(t) => t,
            None => vstd::pervasive::unreached(),
        };
        self.cur_thread = Some(next_thread);

        // switch(anchor, head): from here on this loop stands in for
        // the switch primitive, carrying each activation's resumption
        // point between the lifecycle operations.
        let r = self.switch_in(table, &mut trace);
        let mut code: u32 = r.0;
        let mut pc: usize = r.1;

        proof {
            assert(trace@ + run_from(tab, self.cur_thread->Some_0, code, pc, self.run_q@)
                =~= sched_run(tab, q0));
        }

        loop
            invariant_except_break
                self.wf(),
                self.cur_thread is Some,
                self.thread_id_counter == counter0,
                self.scheduler_thread is Some,
                self.scheduler_thread->Some_0.thread_id == 0,
                queue_runnable(tab, self.run_q@),
                code < tab.len(),
                pc <= tab[code as int].len(),
                tab == table_seq(table@),
                trace@ + run_from(tab, self.cur_thread->Some_0, code, pc, self.run_q@)
                    =~= sched_run(tab, q0),
            ensures
                self.wf(),
                self.cur_thread is None,
                self.run_q@.len() == 0,
                self.thread_id_counter == counter0,
                self.scheduler_thread is Some,
                self.scheduler_thread->Some_0.thread_id == 0,
                trace@ =~= sched_run(tab, q0),
            decreases steps_remaining(tab, code, pc) + queue_remaining(tab, self.run_q@),
        {
            let cur_tid = self.rpi_cur_thread_id();
            let ghost gcur = self.cur_thread->Some_0;
            let ghost gq = self.run_q@;
            let ghost gcode = code;
            let ghost gpc = pc;

            let routine_len = table[code as usize].len();
            proof {
                assert(tab[gcode as int] == table@[gcode as int]@);
                assert(tab[gcode as int].len() == routine_len);
            }

            if pc == routine_len {
                // The entry function returned normally; the trampoline
                // exits on the thread's behalf with status 0.
                trace.push(ThreadEvent::Exited { tid: cur_tid, status: 0 });
                if !self.rpi_exit(0) {
                    // run queue empty: switch back into the anchor's
                    // saved context, resuming our own caller
                    proof {
                        assert(trace@ =~= sched_run(tab, q0));
                    }
                    break;
                }
                let r = self.switch_in(table, &mut trace);
                code = r.0;
                pc = r.1;
                proof {
                    assert(run_from(tab, gcur, gcode, gpc, gq) =~= seq![
                        ThreadEvent::Exited { tid: gcur.thread_id, status: 0 },
                    ] + switch_into(tab, gq[0], gq.drop_first()));
                    assert(switch_into(tab, gq[0], gq.drop_first()) == entry_events(gq[0])
                        + run_from(tab, gq[0], code, pc, gq.drop_first()));
                    assert(self.run_q@ == gq.drop_first());
                    assert(trace@ + run_from(tab, self.cur_thread->Some_0, code, pc, self.run_q@)
                        =~= sched_run(tab, q0));
                }
            } else {
                let step = table[code as usize][pc];
                match step {
                    ThreadStep::Yield => {
                        if self.run_q.len() == 0 {
                            // nothing to switch to: the sole ready
                            // thread continues
                            pc = pc + 1;
                        } else {
                            let ghost yield_code = code;
                            let ghost yield_pc = pc;
                            trace.push(ThreadEvent::Yielded { tid: cur_tid });
                            self.rpi_yield(code, pc + 1);
                            let r = self.switch_in(table, &mut trace);
                            code = r.0;
                            pc = r.1;
                            proof {
                                let resumed = RPIThread {
                                    saved_context: SavedContext::Resume {
                                        code: yield_code,
                                        pc: (yield_pc + 1) as usize,
                                    },
                                    ..gcur
                                };
                                lemma_queue_remaining_push(tab, gq.drop_first(), resumed);
                                let newq = gq.drop_first().push(resumed);
                                assert(tab[gcode as int][gpc as int] is Yield);
                                assert(run_from(tab, gcur, gcode, gpc, gq) =~= seq![
                                    ThreadEvent::Yielded { tid: gcur.thread_id },
                                ] + switch_into(tab, gq[0], newq));
                                assert(switch_into(tab, gq[0], newq) == entry_events(gq[0])
                                    + run_from(tab, gq[0], code, pc, newq));
                                assert(self.run_q@ == newq);
                                assert(trace@ + run_from(
                                    tab,
                                    self.cur_thread->Some_0,
                                    code,
                                    pc,
                                    self.run_q@,
                                ) =~= sched_run(tab, q0));
                            }
                        }
                    },
                    ThreadStep::Exit { status } => {
                        trace.push(ThreadEvent::Exited { tid: cur_tid, status });
                        if !self.rpi_exit(status) {
                            proof {
                                assert(trace@ =~= sched_run(tab, q0));
                            }
                            break;
                        }
                        let r = self.switch_in(table, &mut trace);
                        code = r.0;
                        pc = r.1;
                        proof {
                            assert(tab[gcode as int][gpc as int] == (ThreadStep::Exit { status }));
                            assert(run_from(tab, gcur, gcode, gpc, gq) =~= seq![
                                ThreadEvent::Exited { tid: gcur.thread_id, status },
                            ] + switch_into(tab, gq[0], gq.drop_first()));
                            assert(switch_into(tab, gq[0], gq.drop_first()) == entry_events(gq[0])
                                + run_from(tab, gq[0], code, pc, gq.drop_first()));
                            assert(self.run_q@ == gq.drop_first());
                            assert(trace@ + run_from(
                                tab,
                                self.cur_thread->Some_0,
                                code,
                                pc,
                                self.run_q@,
                            ) =~= sched_run(tab, q0));
                        }
                    },
                }
            }
        }

        trace
    }
}

} // verus!
