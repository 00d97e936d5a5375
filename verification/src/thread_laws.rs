//! Scheduling laws of the green-thread runtime.
//!
//! Each public proof function here states one guarantee of the runtime
//! over the mathematical run model [`run_from`] / [`sched_run`] that
//! the contract of [`ThreadRuntime::rpi_thread_start`] pins the
//! returned trace to: FIFO completion order, argument integrity and
//! identity of the trampoline entries, release of every spawned
//! thread (implicit exit included), and the no-op behaviour of a
//! yield with an empty run queue.

use crate::thread::{
    entry_events, lemma_queue_remaining_push, queue_remaining, queue_runnable, resume_code,
    resume_pc, run_from, sched_run, steps_remaining, switch_into, table_fits, tcb_runnable,
    RPIThread, SavedContext, ThreadEvent, ThreadStep,
};
use vstd::prelude::*;
use vstd::seq_lib::lemma_multiset_commutative;

verus! {

/// Ids of the `Exited` events of a trace, in order: the completion
/// order of a run.
pub open spec fn exit_order(tr: Seq<ThreadEvent>) -> Seq<usize>
    decreases tr.len(),
{
    if tr.len() == 0 {
        Seq::empty()
    } else {
        match tr[0] {
            ThreadEvent::Exited { tid, status } => seq![tid] + exit_order(tr.drop_first()),
            _ => exit_order(tr.drop_first()),
        }
    }
}

/// Id and argument of each `Enter` event of a trace, in order: which
/// threads the trampoline started, and with what.
pub open spec fn enter_order(tr: Seq<ThreadEvent>) -> Seq<(usize, u32)>
    decreases tr.len(),
{
    if tr.len() == 0 {
        Seq::empty()
    } else {
        match tr[0] {
            ThreadEvent::Enter { tid, arg } => seq![(tid, arg)] + enter_order(tr.drop_first()),
            _ => enter_order(tr.drop_first()),
        }
    }
}

/// Ids of the queued threads, head first.
pub open spec fn queue_tids(q: Seq<RPIThread>) -> Seq<usize> {
    q.map_values(|t: RPIThread| t.thread_id)
}

/// Id and synthesized argument of each queued (fresh) thread.
pub open spec fn queue_entries(q: Seq<RPIThread>) -> Seq<(usize, u32)> {
    q.map_values(|t: RPIThread| (t.thread_id, t.frame_arg()))
}

/// A thread that has never run: it still carries its synthesized
/// initial frame.
pub open spec fn is_fresh(t: RPIThread) -> bool {
    t.saved_context is Start
}

/// A thread suspended inside its entry routine.
pub open spec fn is_suspended(t: RPIThread) -> bool {
    t.saved_context is Resume
}

proof fn lemma_exit_order_concat(a: Seq<ThreadEvent>, b: Seq<ThreadEvent>)
    ensures
        exit_order(a + b) =~= exit_order(a) + exit_order(b),
    decreases a.len(),
{
    if a.len() == 0 {
        assert(a + b =~= b);
    } else {
        assert((a + b).drop_first() =~= a.drop_first() + b);
        lemma_exit_order_concat(a.drop_first(), b);
    }
}

proof fn lemma_enter_order_concat(a: Seq<ThreadEvent>, b: Seq<ThreadEvent>)
    ensures
        enter_order(a + b) =~= enter_order(a) + enter_order(b),
    decreases a.len(),
{
    if a.len() == 0 {
        assert(a + b =~= b);
    } else {
        assert((a + b).drop_first() =~= a.drop_first() + b);
        lemma_enter_order_concat(a.drop_first(), b);
    }
}

/// Projections of a one-event trace.
proof fn lemma_orders_single(ev: ThreadEvent)
    ensures
        ev matches ThreadEvent::Exited { tid, status } ==> exit_order(seq![ev]) =~= seq![tid],
        !(ev is Exited) ==> exit_order(seq![ev]) =~= Seq::<usize>::empty(),
        ev matches ThreadEvent::Enter { tid, arg } ==> enter_order(seq![ev]) =~= seq![(tid, arg)],
        !(ev is Enter) ==> enter_order(seq![ev]) =~= Seq::<(usize, u32)>::empty(),
{
    assert(seq![ev].drop_first().len() == 0);
    assert(exit_order(seq![ev].drop_first()) =~= Seq::<usize>::empty());
    assert(enter_order(seq![ev].drop_first()) =~= Seq::<(usize, u32)>::empty());
}

/// Switching a thread in exits nothing by itself, and enters exactly
/// the thread itself — with the argument out of its frame — when it is
/// fresh, nothing when it is resumed.
proof fn lemma_entry_events_orders(t: RPIThread)
    ensures
        exit_order(entry_events(t)) =~= Seq::<usize>::empty(),
        is_fresh(t) ==> enter_order(entry_events(t)) =~= seq![(t.thread_id, t.frame_arg())],
        !is_fresh(t) ==> enter_order(entry_events(t)) =~= Seq::<(usize, u32)>::empty(),
{
    let es = entry_events(t);
    match t.saved_context {
        SavedContext::Start { cursor } => {
            assert(es.len() == 1);
            let rest = es.drop_first();
            assert(rest.len() == 0);
            assert(exit_order(rest) =~= Seq::<usize>::empty());
            assert(enter_order(rest) =~= Seq::<(usize, u32)>::empty());
            assert(es[0] == (ThreadEvent::Enter { tid: t.thread_id, arg: t.frame_arg() }));
            assert(exit_order(es) =~= exit_order(rest));
            assert(enter_order(es) =~= seq![(t.thread_id, t.frame_arg())] + enter_order(rest));
        },
        _ => {
            assert(es.len() == 0);
        },
    }
}

/// Drain-to-completion, seen from any point of a run: the running
/// thread and every queued thread each exit exactly once before the
/// run ends — a routine that merely returns is exited by the
/// trampoline just like one that calls exit itself, and no thread is
/// ever dropped or run twice.
pub proof fn lemma_run_from_exits_all(
    table: Seq<Seq<ThreadStep>>,
    cur: RPIThread,
    code: u32,
    pc: usize,
    q: Seq<RPIThread>,
)
    requires
        table_fits(table),
        code < table.len(),
        pc <= table[code as int].len(),
        queue_runnable(table, q),
    ensures
        exit_order(run_from(table, cur, code, pc, q)).to_multiset() =~= (seq![cur.thread_id]
            + queue_tids(q)).to_multiset(),
    decreases steps_remaining(table, code, pc) + queue_remaining(table, q),
{
    broadcast use vstd::multiset::group_multiset_axioms;
    broadcast use vstd::seq_lib::group_to_multiset_ensures;

    let run = run_from(table, cur, code, pc, q);
    let routine = table[code as int];
    assert(routine.len() <= usize::MAX);

    if pc < routine.len() && routine[pc as int] is Yield {
        if q.len() == 0 {
            lemma_run_from_exits_all(table, cur, code, (pc + 1) as usize, q);
        } else {
            let resumed = RPIThread {
                saved_context: SavedContext::Resume { code, pc: (pc + 1) as usize },
                ..cur
            };
            let newq = q.drop_first().push(resumed);
            let head = q[0];
            lemma_queue_remaining_push(table, q.drop_first(), resumed);
            assert(queue_runnable(table, newq)) by {
                assert(forall|i: int|
                    0 <= i < q.drop_first().len()
                        ==> tcb_runnable(table, #[trigger] q.drop_first()[i]));
            }
            lemma_run_from_exits_all(
                table,
                head,
                resume_code(head),
                resume_pc(head),
                newq,
            );
            let inner = run_from(table, head, resume_code(head), resume_pc(head), newq);
            // the yield event and the possible trampoline entry of the
            // head exit nothing
            assert(run =~= seq![ThreadEvent::Yielded { tid: cur.thread_id }] + switch_into(
                table,
                head,
                newq,
            ));
            assert(switch_into(table, head, newq) == entry_events(head) + inner);
            assert(run =~= seq![ThreadEvent::Yielded { tid: cur.thread_id }] + (entry_events(head)
                + inner));
            lemma_entry_events_orders(head);
            lemma_exit_order_concat(entry_events(head), inner);
            lemma_exit_order_concat(
                seq![ThreadEvent::Yielded { tid: cur.thread_id }],
                entry_events(head) + inner,
            );
            lemma_orders_single(ThreadEvent::Yielded { tid: cur.thread_id });
            assert(exit_order(run) =~= exit_order(inner));
            // rearrange the multiset bookkeeping
            lemma_multiset_commutative(seq![head.thread_id], queue_tids(newq));
            assert(queue_tids(newq) =~= queue_tids(q.drop_first()).push(cur.thread_id));
            vstd::seq_lib::to_multiset_build(queue_tids(q.drop_first()), cur.thread_id);
            lemma_multiset_commutative(seq![cur.thread_id], queue_tids(q));
            assert(queue_tids(q) =~= seq![head.thread_id] + queue_tids(q.drop_first()));
            lemma_multiset_commutative(seq![head.thread_id], queue_tids(q.drop_first()));
        }
    } else {
        // the running thread exits here: explicitly on an Exit step,
        // implicitly (status 0) when its routine has returned
        let status: i32 = if pc == routine.len() {
            0
        } else {
            routine[pc as int]->Exit_status
        };
        assert(run =~= seq![ThreadEvent::Exited { tid: cur.thread_id, status }] + (if q.len() == 0 {
            Seq::<ThreadEvent>::empty()
        } else {
            switch_into(table, q[0], q.drop_first())
        }));
        if q.len() == 0 {
            lemma_orders_single(ThreadEvent::Exited { tid: cur.thread_id, status });
            assert(run =~= seq![ThreadEvent::Exited { tid: cur.thread_id, status }]);
            assert(exit_order(run) =~= seq![cur.thread_id]);
            assert(seq![cur.thread_id] + queue_tids(q) =~= seq![cur.thread_id]);
        } else {
            let head = q[0];
            let tail = q.drop_first();
            assert(queue_runnable(table, tail)) by {
                assert(forall|i: int|
                    0 <= i < tail.len() ==> tcb_runnable(table, #[trigger] tail[i]));
            }
            lemma_run_from_exits_all(table, head, resume_code(head), resume_pc(head), tail);
            let inner = run_from(table, head, resume_code(head), resume_pc(head), tail);
            assert(run =~= seq![ThreadEvent::Exited { tid: cur.thread_id, status }] + switch_into(
                table,
                head,
                tail,
            ));
            assert(switch_into(table, head, tail) == entry_events(head) + inner);
            assert(run =~= seq![ThreadEvent::Exited { tid: cur.thread_id, status }]
                + (entry_events(head) + inner));
            lemma_entry_events_orders(head);
            lemma_exit_order_concat(entry_events(head), inner);
            lemma_exit_order_concat(
                seq![ThreadEvent::Exited { tid: cur.thread_id, status }],
                entry_events(head) + inner,
            );
            lemma_orders_single(ThreadEvent::Exited { tid: cur.thread_id, status });
            assert(exit_order(run) =~= seq![cur.thread_id] + exit_order(inner));
            lemma_multiset_commutative(seq![cur.thread_id], exit_order(inner));
            lemma_multiset_commutative(seq![head.thread_id], queue_tids(tail));
            lemma_multiset_commutative(seq![cur.thread_id], queue_tids(q));
            assert(queue_tids(q) =~= seq![head.thread_id] + queue_tids(tail));
        }
    }
}

/// Drain-to-completion over a whole `rpi_thread_start` run: the
/// completion order of `sched_run` holds every queued thread's id
/// exactly once.
pub proof fn lemma_sched_run_exits_all(table: Seq<Seq<ThreadStep>>, q: Seq<RPIThread>)
    requires
        table_fits(table),
        queue_runnable(table, q),
    ensures
        exit_order(sched_run(table, q)).to_multiset() =~= queue_tids(q).to_multiset(),
{
    broadcast use vstd::multiset::group_multiset_axioms;
    broadcast use vstd::seq_lib::group_to_multiset_ensures;

    if q.len() == 0 {
        assert(queue_tids(q).len() == 0);
        assert(exit_order(sched_run(table, q)).len() == 0);
    } else {
        let head = q[0];
        let tail = q.drop_first();
        assert(queue_runnable(table, tail)) by {
            assert(forall|i: int| 0 <= i < tail.len() ==> tcb_runnable(table, #[trigger] tail[i]));
        }
        lemma_run_from_exits_all(table, head, resume_code(head), resume_pc(head), tail);
        let inner = run_from(table, head, resume_code(head), resume_pc(head), tail);
        assert(sched_run(table, q) == switch_into(table, head, tail));
        assert(switch_into(table, head, tail) == entry_events(head) + inner);
        assert(sched_run(table, q) =~= entry_events(head) + inner);
        lemma_entry_events_orders(head);
        lemma_exit_order_concat(entry_events(head), inner);
        assert(exit_order(sched_run(table, q)) =~= exit_order(inner));
        lemma_multiset_commutative(seq![head.thread_id], queue_tids(tail));
        assert(queue_tids(q) =~= seq![head.thread_id] + queue_tids(tail));
    }
}

/// Argument integrity and identity, seen from any point of a run
/// whose queue holds fresh threads `fresh` followed by suspended
/// threads `susp` — the shape every reachable queue has, since
/// spawning appends ahead of the first yield and yielding appends
/// suspended threads behind: the trampoline enters exactly the fresh
/// threads, in queue order, each under the id assigned at its spawn
/// and with the argument synthesized into its frame, unmodified.
pub proof fn lemma_run_from_enters(
    table: Seq<Seq<ThreadStep>>,
    cur: RPIThread,
    code: u32,
    pc: usize,
    fresh: Seq<RPIThread>,
    susp: Seq<RPIThread>,
)
    requires
        table_fits(table),
        code < table.len(),
        pc <= table[code as int].len(),
        queue_runnable(table, fresh + susp),
        forall|i: int| 0 <= i < fresh.len() ==> is_fresh(#[trigger] fresh[i]),
        forall|i: int| 0 <= i < susp.len() ==> is_suspended(#[trigger] susp[i]),
    ensures
        enter_order(run_from(table, cur, code, pc, fresh + susp)) =~= queue_entries(fresh),
    decreases steps_remaining(table, code, pc) + queue_remaining(table, fresh + susp),
{
    let q = fresh + susp;
    let run = run_from(table, cur, code, pc, q);
    let routine = table[code as int];
    assert(routine.len() <= usize::MAX);

    if pc < routine.len() && routine[pc as int] is Yield {
        if q.len() == 0 {
            assert(fresh.len() == 0);
            lemma_run_from_enters(table, cur, code, (pc + 1) as usize, fresh, susp);
        } else {
            let resumed = RPIThread {
                saved_context: SavedContext::Resume { code, pc: (pc + 1) as usize },
                ..cur
            };
            let head = q[0];
            let newq = q.drop_first().push(resumed);
            lemma_queue_remaining_push(table, q.drop_first(), resumed);
            assert(queue_runnable(table, newq)) by {
                assert(forall|i: int|
                    0 <= i < q.drop_first().len()
                        ==> tcb_runnable(table, #[trigger] q.drop_first()[i]));
            }
            let inner = run_from(table, head, resume_code(head), resume_pc(head), newq);
            assert(run =~= seq![ThreadEvent::Yielded { tid: cur.thread_id }] + switch_into(
                table,
                head,
                newq,
            ));
            assert(switch_into(table, head, newq) == entry_events(head) + inner);
            lemma_entry_events_orders(head);
            lemma_enter_order_concat(entry_events(head), inner);
            lemma_enter_order_concat(
                seq![ThreadEvent::Yielded { tid: cur.thread_id }],
                entry_events(head) + inner,
            );
            lemma_orders_single(ThreadEvent::Yielded { tid: cur.thread_id });
            if fresh.len() > 0 {
                assert(head == fresh[0]);
                let fresh2 = fresh.drop_first();
                let susp2 = susp.push(resumed);
                assert(newq =~= fresh2 + susp2);
                lemma_run_from_enters(
                    table,
                    head,
                    resume_code(head),
                    resume_pc(head),
                    fresh2,
                    susp2,
                );
                assert(queue_entries(fresh) =~= seq![(head.thread_id, head.frame_arg())]
                    + queue_entries(fresh2));
            } else {
                assert(head == susp[0]);
                let susp2 = susp.drop_first().push(resumed);
                assert(newq =~= fresh + susp2);
                lemma_run_from_enters(
                    table,
                    head,
                    resume_code(head),
                    resume_pc(head),
                    fresh,
                    susp2,
                );
            }
        }
    } else {
        let status: i32 = if pc == routine.len() {
            0
        } else {
            routine[pc as int]->Exit_status
        };
        if q.len() == 0 {
            assert(fresh.len() == 0);
            lemma_orders_single(ThreadEvent::Exited { tid: cur.thread_id, status });
            assert(run =~= seq![ThreadEvent::Exited { tid: cur.thread_id, status }]);
        } else {
            let head = q[0];
            let tail = q.drop_first();
            assert(queue_runnable(table, tail)) by {
                assert(forall|i: int|
                    0 <= i < tail.len() ==> tcb_runnable(table, #[trigger] tail[i]));
            }
            let inner = run_from(table, head, resume_code(head), resume_pc(head), tail);
            assert(run =~= seq![ThreadEvent::Exited { tid: cur.thread_id, status }] + switch_into(
                table,
                head,
                tail,
            ));
            assert(switch_into(table, head, tail) == entry_events(head) + inner);
            lemma_entry_events_orders(head);
            lemma_enter_order_concat(entry_events(head), inner);
            lemma_enter_order_concat(
                seq![ThreadEvent::Exited { tid: cur.thread_id, status }],
                entry_events(head) + inner,
            );
            lemma_orders_single(ThreadEvent::Exited { tid: cur.thread_id, status });
            if fresh.len() > 0 {
                assert(head == fresh[0]);
                let fresh2 = fresh.drop_first();
                assert(tail =~= fresh2 + susp);
                lemma_run_from_enters(
                    table,
                    head,
                    resume_code(head),
                    resume_pc(head),
                    fresh2,
                    susp,
                );
                assert(queue_entries(fresh) =~= seq![(head.thread_id, head.frame_arg())]
                    + queue_entries(fresh2));
            } else {
                assert(head == susp[0]);
                let susp2 = susp.drop_first();
                assert(tail =~= fresh + susp2);
                lemma_run_from_enters(
                    table,
                    head,
                    resume_code(head),
                    resume_pc(head),
                    fresh,
                    susp2,
                );
            }
        }
    }
}

/// Argument integrity and identity over a whole `rpi_thread_start`
/// run on freshly spawned threads: the trampoline enters every thread
/// exactly once, in spawn order, with the spawn-assigned id and the
/// unmodified spawn argument.
pub proof fn lemma_sched_run_enters(table: Seq<Seq<ThreadStep>>, q: Seq<RPIThread>)
    requires
        table_fits(table),
        queue_runnable(table, q),
        forall|i: int| 0 <= i < q.len() ==> is_fresh(#[trigger] q[i]),
    ensures
        enter_order(sched_run(table, q)) =~= queue_entries(q),
{
    if q.len() == 0 {
        assert(enter_order(sched_run(table, q)).len() == 0);
        assert(queue_entries(q).len() == 0);
    } else {
        let head = q[0];
        let tail = q.drop_first();
        assert(queue_runnable(table, tail)) by {
            assert(forall|i: int| 0 <= i < tail.len() ==> tcb_runnable(table, #[trigger] tail[i]));
        }
        assert(tail =~= tail + Seq::<RPIThread>::empty());
        lemma_run_from_enters(
            table,
            head,
            resume_code(head),
            resume_pc(head),
            tail,
            Seq::empty(),
        );
        let inner = run_from(table, head, resume_code(head), resume_pc(head), tail);
        assert(sched_run(table, q) == switch_into(table, head, tail));
        assert(switch_into(table, head, tail) == entry_events(head) + inner);
        lemma_entry_events_orders(head);
        lemma_enter_order_concat(entry_events(head), inner);
        assert(queue_entries(q) =~= seq![(head.thread_id, head.frame_arg())]
            + queue_entries(tail));
    }
}

/// Identity: in a well-formed runtime the concurrently-alive threads
/// — the queued ones and the current one — all carry distinct ids,
/// each below the id counter, so no two alive threads ever answer the
/// current-thread-id query alike.
pub proof fn lemma_alive_ids_distinct(rt: crate::thread::ThreadRuntime)
    requires
        rt.wf(),
    ensures
        queue_tids(rt.run_q@).no_duplicates(),
        forall|i: int|
            0 <= i < rt.run_q@.len() ==> 1 <= #[trigger] queue_tids(rt.run_q@)[i]
                < rt.thread_id_counter,
        rt.cur_thread matches Some(t) ==> !queue_tids(rt.run_q@).contains(t.thread_id),
{
    let tids = queue_tids(rt.run_q@);
    assert forall|i: int, j: int|
        0 <= i < tids.len() && 0 <= j < tids.len() && i != j implies tids[i] != tids[j] by {
        assert(tids[i] == rt.run_q@[i].thread_id);
        assert(tids[j] == rt.run_q@[j].thread_id);
    }
    if rt.cur_thread is Some {
        let t = rt.cur_thread->Some_0;
        assert forall|i: int| 0 <= i < tids.len() implies tids[i] != t.thread_id by {
            assert(tids[i] == rt.run_q@[i].thread_id);
        }
        assert(!tids.contains(t.thread_id));
    }
}

/// No routine of the table ever calls exit explicitly.
pub open spec fn no_exit_steps(table: Seq<Seq<ThreadStep>>) -> bool {
    forall|c: int, i: int|
        0 <= c < table.len() && 0 <= i < table[c].len() ==> !((#[trigger] table[c][i]) is Exit)
}

/// Every termination in the trace reports status 0.
pub open spec fn all_exits_status_zero(tr: Seq<ThreadEvent>) -> bool {
    forall|i: int|
        0 <= i < tr.len() && (#[trigger] tr[i]) is Exited ==> tr[i]->Exited_status == 0
}

proof fn lemma_status_zero_concat(a: Seq<ThreadEvent>, b: Seq<ThreadEvent>)
    requires
        all_exits_status_zero(a),
        all_exits_status_zero(b),
    ensures
        all_exits_status_zero(a + b),
{
    assert forall|i: int|
        0 <= i < (a + b).len() && (#[trigger] (a + b)[i]) is Exited implies (a
        + b)[i]->Exited_status == 0 by {
        if i < a.len() {
            assert((a + b)[i] == a[i]);
        } else {
            assert((a + b)[i] == b[i - a.len()]);
        }
    }
}

/// Implicit exit, seen from any point of a run of routines that never
/// call exit themselves: every thread is still exited — by the
/// trampoline, on the return of its entry function — and every one of
/// those exits carries the default status 0, exactly as an explicit
/// `exit(0)` would.
pub proof fn lemma_run_from_implicit_exit(
    table: Seq<Seq<ThreadStep>>,
    cur: RPIThread,
    code: u32,
    pc: usize,
    q: Seq<RPIThread>,
)
    requires
        table_fits(table),
        no_exit_steps(table),
        code < table.len(),
        pc <= table[code as int].len(),
        queue_runnable(table, q),
    ensures
        all_exits_status_zero(run_from(table, cur, code, pc, q)),
    decreases steps_remaining(table, code, pc) + queue_remaining(table, q),
{
    let run = run_from(table, cur, code, pc, q);
    let routine = table[code as int];
    assert(routine.len() <= usize::MAX);

    if pc < routine.len() {
        // a step below the end can only be a yield here
        assert(routine[pc as int] is Yield);
        if q.len() == 0 {
            lemma_run_from_implicit_exit(table, cur, code, (pc + 1) as usize, q);
        } else {
            let resumed = RPIThread {
                saved_context: SavedContext::Resume { code, pc: (pc + 1) as usize },
                ..cur
            };
            let head = q[0];
            let newq = q.drop_first().push(resumed);
            lemma_queue_remaining_push(table, q.drop_first(), resumed);
            assert(queue_runnable(table, newq)) by {
                assert(forall|i: int|
                    0 <= i < q.drop_first().len()
                        ==> tcb_runnable(table, #[trigger] q.drop_first()[i]));
            }
            lemma_run_from_implicit_exit(
                table,
                head,
                resume_code(head),
                resume_pc(head),
                newq,
            );
            let inner = run_from(table, head, resume_code(head), resume_pc(head), newq);
            assert(run =~= seq![ThreadEvent::Yielded { tid: cur.thread_id }] + switch_into(
                table,
                head,
                newq,
            ));
            assert(switch_into(table, head, newq) == entry_events(head) + inner);
            assert(all_exits_status_zero(seq![ThreadEvent::Yielded { tid: cur.thread_id }]));
            assert(all_exits_status_zero(entry_events(head)));
            lemma_status_zero_concat(entry_events(head), inner);
            lemma_status_zero_concat(
                seq![ThreadEvent::Yielded { tid: cur.thread_id }],
                entry_events(head) + inner,
            );
        }
    } else {
        // the routine has returned: the trampoline exits with status 0
        let ev = ThreadEvent::Exited { tid: cur.thread_id, status: 0 };
        if q.len() == 0 {
            assert(run =~= seq![ev]);
            assert(all_exits_status_zero(seq![ev]));
        } else {
            let head = q[0];
            let tail = q.drop_first();
            assert(queue_runnable(table, tail)) by {
                assert(forall|i: int|
                    0 <= i < tail.len() ==> tcb_runnable(table, #[trigger] tail[i]));
            }
            lemma_run_from_implicit_exit(table, head, resume_code(head), resume_pc(head), tail);
            let inner = run_from(table, head, resume_code(head), resume_pc(head), tail);
            assert(run =~= seq![ev] + switch_into(table, head, tail));
            assert(switch_into(table, head, tail) == entry_events(head) + inner);
            assert(all_exits_status_zero(seq![ev]));
            assert(all_exits_status_zero(entry_events(head)));
            lemma_status_zero_concat(entry_events(head), inner);
            lemma_status_zero_concat(seq![ev], entry_events(head) + inner);
        }
    }
}

/// Implicit exit over a whole `rpi_thread_start` run: with routines
/// that never call exit, every thread still terminates, and with the
/// same status 0 an explicit `exit(0)` would report.
pub proof fn lemma_sched_run_implicit_exit(table: Seq<Seq<ThreadStep>>, q: Seq<RPIThread>)
    requires
        table_fits(table),
        no_exit_steps(table),
        queue_runnable(table, q),
    ensures
        all_exits_status_zero(sched_run(table, q)),
        exit_order(sched_run(table, q)).to_multiset() =~= queue_tids(q).to_multiset(),
{
    lemma_sched_run_exits_all(table, q);
    if q.len() > 0 {
        let head = q[0];
        let tail = q.drop_first();
        assert(queue_runnable(table, tail)) by {
            assert(forall|i: int| 0 <= i < tail.len() ==> tcb_runnable(table, #[trigger] tail[i]));
        }
        lemma_run_from_implicit_exit(table, head, resume_code(head), resume_pc(head), tail);
        let inner = run_from(table, head, resume_code(head), resume_pc(head), tail);
        assert(sched_run(table, q) == switch_into(table, head, tail));
        assert(switch_into(table, head, tail) == entry_events(head) + inner);
        assert(all_exits_status_zero(entry_events(head)));
        lemma_status_zero_concat(entry_events(head), inner);
    }
}

/// A routine that calls yield exactly once and then terminates:
/// either it returns right after the yield (implicit exit) or it makes
/// one explicit exit call.
pub open spec fn one_yield_routine(r: Seq<ThreadStep>) -> bool {
    &&& r.len() >= 1
    &&& r[0] is Yield
    &&& (r.len() == 1 || (r.len() == 2 && r[1] is Exit))
}

/// A suspended thread whose very next activation terminates it: its
/// resumption point is the end of its routine (implicit exit) or an
/// explicit exit step.
pub open spec fn exits_immediately(table: Seq<Seq<ThreadStep>>, t: RPIThread) -> bool {
    &&& tcb_runnable(table, t)
    &&& (resume_pc(t) == table[resume_code(t) as int].len() || table[resume_code(
        t,
    ) as int][resume_pc(t) as int] is Exit)
}

/// A fresh thread whose routine yields exactly once and then
/// terminates.
pub open spec fn fresh_one_yield(table: Seq<Seq<ThreadStep>>, t: RPIThread) -> bool {
    &&& is_fresh(t)
    &&& tcb_runnable(table, t)
    &&& one_yield_routine(table[resume_code(t) as int])
}

/// When the running thread and every queued thread are one activation
/// away from termination, they finish in exactly the current order:
/// the running one first, then the queue, head to tail.
proof fn lemma_run_all_exit_now(
    table: Seq<Seq<ThreadStep>>,
    cur: RPIThread,
    code: u32,
    pc: usize,
    q: Seq<RPIThread>,
)
    requires
        table_fits(table),
        code < table.len(),
        pc <= table[code as int].len(),
        pc == table[code as int].len() || table[code as int][pc as int] is Exit,
        queue_runnable(table, q),
        forall|i: int| 0 <= i < q.len() ==> exits_immediately(table, #[trigger] q[i]),
    ensures
        exit_order(run_from(table, cur, code, pc, q)) =~= seq![cur.thread_id] + queue_tids(q),
    decreases q.len(),
{
    let run = run_from(table, cur, code, pc, q);
    let routine = table[code as int];
    assert(routine.len() <= usize::MAX);
    let status: i32 = if pc == routine.len() {
        0
    } else {
        routine[pc as int]->Exit_status
    };
    lemma_orders_single(ThreadEvent::Exited { tid: cur.thread_id, status });
    if q.len() == 0 {
        assert(run =~= seq![ThreadEvent::Exited { tid: cur.thread_id, status }]);
        assert(seq![cur.thread_id] + queue_tids(q) =~= seq![cur.thread_id]);
    } else {
        let head = q[0];
        let tail = q.drop_first();
        assert(queue_runnable(table, tail) && forall|i: int|
            0 <= i < tail.len() ==> exits_immediately(table, #[trigger] tail[i])) by {
            assert(forall|i: int| 0 <= i < tail.len() ==> tail[i] == q[i + 1]);
        }
        lemma_run_all_exit_now(table, head, resume_code(head), resume_pc(head), tail);
        let inner = run_from(table, head, resume_code(head), resume_pc(head), tail);
        assert(run =~= seq![ThreadEvent::Exited { tid: cur.thread_id, status }] + switch_into(
            table,
            head,
            tail,
        ));
        assert(switch_into(table, head, tail) == entry_events(head) + inner);
        lemma_entry_events_orders(head);
        lemma_exit_order_concat(entry_events(head), inner);
        lemma_exit_order_concat(
            seq![ThreadEvent::Exited { tid: cur.thread_id, status }],
            entry_events(head) + inner,
        );
        assert(queue_tids(q) =~= seq![head.thread_id] + queue_tids(tail));
    }
}

/// FIFO round: the running thread has just entered a one-yield
/// routine; behind it wait the not-yet-entered one-yield threads
/// `fresh`, behind those the already-yielded threads `susp`, each one
/// activation from termination.  Completion order is exactly the
/// round-robin order: first the yielded ones, then the running one,
/// then the fresh ones in queue order.
proof fn lemma_fifo_phase(
    table: Seq<Seq<ThreadStep>>,
    cur: RPIThread,
    code: u32,
    fresh: Seq<RPIThread>,
    susp: Seq<RPIThread>,
)
    requires
        table_fits(table),
        code < table.len(),
        one_yield_routine(table[code as int]),
        queue_runnable(table, fresh + susp),
        forall|i: int| 0 <= i < fresh.len() ==> fresh_one_yield(table, #[trigger] fresh[i]),
        forall|i: int| 0 <= i < susp.len() ==> exits_immediately(table, #[trigger] susp[i]),
    ensures
        exit_order(run_from(table, cur, code, 0, fresh + susp)) =~= queue_tids(susp) + seq![
            cur.thread_id,
        ] + queue_tids(fresh),
    decreases fresh.len(), susp.len(),
{
    let q = fresh + susp;
    let run = run_from(table, cur, code, 0, q);
    let routine = table[code as int];
    assert(routine.len() <= usize::MAX);
    assert(routine[0] is Yield);

    if q.len() == 0 {
        // the yield is a no-op; the next activation terminates
        assert(run == run_from(table, cur, code, 1, q));
        let status: i32 = if 1 == routine.len() {
            0
        } else {
            routine[1]->Exit_status
        };
        lemma_orders_single(ThreadEvent::Exited { tid: cur.thread_id, status });
        assert(run_from(table, cur, code, 1, q) =~= seq![
            ThreadEvent::Exited { tid: cur.thread_id, status },
        ]);
        assert(queue_tids(susp) + seq![cur.thread_id] + queue_tids(fresh) =~= seq![
            cur.thread_id,
        ]);
    } else {
        let resumed = RPIThread {
            saved_context: SavedContext::Resume { code, pc: 1 },
            ..cur
        };
        assert(exits_immediately(table, resumed));
        let head = q[0];
        let newq = q.drop_first().push(resumed);
        assert(queue_runnable(table, newq)) by {
            assert(forall|i: int|
                0 <= i < q.drop_first().len()
                    ==> tcb_runnable(table, #[trigger] q.drop_first()[i]));
        }
        let inner = run_from(table, head, resume_code(head), resume_pc(head), newq);
        assert(run =~= seq![ThreadEvent::Yielded { tid: cur.thread_id }] + switch_into(
            table,
            head,
            newq,
        ));
        assert(switch_into(table, head, newq) == entry_events(head) + inner);
        lemma_entry_events_orders(head);
        lemma_exit_order_concat(entry_events(head), inner);
        lemma_exit_order_concat(
            seq![ThreadEvent::Yielded { tid: cur.thread_id }],
            entry_events(head) + inner,
        );
        lemma_orders_single(ThreadEvent::Yielded { tid: cur.thread_id });
        assert(exit_order(run) =~= exit_order(inner));
        if fresh.len() > 0 {
            assert(head == fresh[0]);
            let fresh2 = fresh.drop_first();
            let susp2 = susp.push(resumed);
            assert(newq =~= fresh2 + susp2);
            assert(forall|i: int|
                0 <= i < fresh2.len() ==> fresh_one_yield(table, #[trigger] fresh2[i])) by {
                assert(forall|i: int| 0 <= i < fresh2.len() ==> fresh2[i] == fresh[i + 1]);
            }
            assert(resume_pc(head) == 0);
            lemma_fifo_phase(table, head, resume_code(head), fresh2, susp2);
            assert(queue_tids(susp2) =~= queue_tids(susp) + seq![cur.thread_id]);
            assert(queue_tids(fresh) =~= seq![head.thread_id] + queue_tids(fresh2));
        } else {
            assert(head == susp[0]);
            let susp2 = susp.drop_first().push(resumed);
            assert(newq =~= susp2);
            assert(forall|i: int|
                0 <= i < susp2.len() ==> exits_immediately(table, #[trigger] susp2[i])) by {
                assert(forall|i: int|
                    0 <= i < susp.drop_first().len() ==> susp.drop_first()[i] == susp[i + 1]);
            }
            lemma_run_all_exit_now(table, head, resume_code(head), resume_pc(head), susp2);
            assert(exit_order(inner) =~= seq![head.thread_id] + queue_tids(susp2));
            assert(queue_tids(susp2) =~= queue_tids(susp.drop_first()) + seq![cur.thread_id]);
            assert(queue_tids(susp) =~= seq![head.thread_id] + queue_tids(susp.drop_first()));
            assert(queue_tids(fresh).len() == 0);
        }
    }
}

/// FIFO fairness: threads spawned in queue order, each running a
/// routine that yields exactly once and then terminates, complete in
/// exactly their spawn order.
pub proof fn lemma_fifo_fairness(table: Seq<Seq<ThreadStep>>, q: Seq<RPIThread>)
    requires
        table_fits(table),
        queue_runnable(table, q),
        forall|i: int| 0 <= i < q.len() ==> fresh_one_yield(table, #[trigger] q[i]),
    ensures
        exit_order(sched_run(table, q)) =~= queue_tids(q),
{
    if q.len() == 0 {
        assert(exit_order(sched_run(table, q)).len() == 0);
        assert(queue_tids(q).len() == 0);
    } else {
        let head = q[0];
        let tail = q.drop_first();
        assert(queue_runnable(table, tail)) by {
            assert(forall|i: int| 0 <= i < tail.len() ==> tcb_runnable(table, #[trigger] tail[i]));
        }
        assert(forall|i: int|
            0 <= i < tail.len() ==> fresh_one_yield(table, #[trigger] tail[i])) by {
            assert(forall|i: int| 0 <= i < tail.len() ==> tail[i] == q[i + 1]);
        }
        assert(tail =~= tail + Seq::<RPIThread>::empty());
        assert(resume_pc(head) == 0);
        lemma_fifo_phase(table, head, resume_code(head), tail, Seq::empty());
        let inner = run_from(table, head, resume_code(head), 0, tail);
        assert(sched_run(table, q) == switch_into(table, head, tail));
        assert(switch_into(table, head, tail) == entry_events(head) + inner);
        lemma_entry_events_orders(head);
        lemma_exit_order_concat(entry_events(head), inner);
        assert(exit_order(inner) =~= Seq::<usize>::empty() + seq![head.thread_id] + queue_tids(
            tail,
        ));
        assert(queue_tids(q) =~= seq![head.thread_id] + queue_tids(tail));
    }
}

/// No-op yield on a singleton: a running thread whose routine from
/// step `pc` on only yields, with nothing in the run queue, keeps
/// running undisturbed — however many yields remain — and the whole
/// rest of the run is its own implicit exit with status 0.
pub proof fn lemma_singleton_yields(
    table: Seq<Seq<ThreadStep>>,
    cur: RPIThread,
    code: u32,
    pc: usize,
)
    requires
        code < table.len(),
        pc <= table[code as int].len() <= usize::MAX,
        forall|i: int|
            pc <= i < table[code as int].len() ==> table[code as int][i] is Yield,
    ensures
        run_from(table, cur, code, pc, Seq::empty()) =~= seq![
            ThreadEvent::Exited { tid: cur.thread_id, status: 0 },
        ],
    decreases table[code as int].len() - pc,
{
    if pc < table[code as int].len() {
        lemma_singleton_yields(table, cur, code, (pc + 1) as usize);
    }
}

} // verus!
