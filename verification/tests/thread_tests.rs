use crab_pi::thread::{
    RPIThread, SavedContext, ThreadEvent, ThreadRuntime, ThreadStep, INITIAL_FRAME_WORDS,
    THREAD_MAX_STACKSIZE, TRAMPOLINE_ADDR,
};
use std::collections::VecDeque;

fn exited_tids(trace: &[ThreadEvent]) -> Vec<usize> {
    trace
        .iter()
        .filter_map(|ev| match ev {
            ThreadEvent::Exited { tid, .. } => Some(*tid),
            _ => None,
        })
        .collect()
}

fn entered(trace: &[ThreadEvent]) -> Vec<(usize, u32)> {
    trace
        .iter()
        .filter_map(|ev| match ev {
            ThreadEvent::Enter { tid, arg } => Some((*tid, *arg)),
            _ => None,
        })
        .collect()
}

#[test]
fn fork_synthesizes_initial_frame() {
    let mut rt = ThreadRuntime::new();
    let tid = rt.rpi_fork(7, 0xdead_beef);
    assert_eq!(tid, 1);
    assert_eq!(rt.thread_id_counter, 2);
    assert_eq!(rt.run_q.len(), 1);

    let t = &rt.run_q[0];
    assert_eq!(t.thread_id, 1);
    let cursor = THREAD_MAX_STACKSIZE - INITIAL_FRAME_WORDS;
    assert_eq!(t.saved_context, SavedContext::Start { cursor });
    assert_eq!(t.stack.len(), THREAD_MAX_STACKSIZE);
    assert_eq!(t.stack[cursor], 7);
    assert_eq!(t.stack[cursor + 1], 0xdead_beef);
    assert_eq!(t.stack[THREAD_MAX_STACKSIZE - 1], TRAMPOLINE_ADDR);
}

#[test]
fn ids_are_assigned_in_spawn_order_from_one() {
    let mut rt = ThreadRuntime::new();
    for i in 0..5u32 {
        let tid = rt.rpi_fork(0, i);
        assert_eq!(tid, (i + 1) as usize);
    }
    let ids: Vec<usize> = rt.run_q.iter().map(|t| t.thread_id).collect();
    assert_eq!(ids, vec![1, 2, 3, 4, 5]);
}

#[test]
fn start_on_empty_queue_is_a_noop() {
    let mut rt = ThreadRuntime::new();
    let table: Vec<Vec<ThreadStep>> = vec![vec![]];
    let trace = rt.rpi_thread_start(&table);
    assert!(trace.is_empty());
    assert!(rt.cur_thread.is_none());
    assert!(rt.scheduler_thread.is_none());
    assert_eq!(rt.thread_id_counter, 1);
}

#[test]
fn explicit_exit_runs_all_threads_in_order() {
    // each thread only calls exit; completion order is spawn order
    let table: Vec<Vec<ThreadStep>> = vec![vec![ThreadStep::Exit { status: 0 }]];
    let mut rt = ThreadRuntime::new();
    for i in 0..10u32 {
        rt.rpi_fork(0, i);
    }
    let trace = rt.rpi_thread_start(&table);
    assert_eq!(rt.run_q.len(), 0);
    assert!(rt.cur_thread.is_none());
    assert_eq!(
        exited_tids(&trace),
        vec![1, 2, 3, 4, 5, 6, 7, 8, 9, 10]
    );
}

#[test]
fn yield_once_then_exit_completes_in_spawn_order() {
    // the FIFO-fairness scenario: every thread yields exactly once
    let table: Vec<Vec<ThreadStep>> = vec![vec![
        ThreadStep::Yield,
        ThreadStep::Exit { status: 0 },
    ]];
    let mut rt = ThreadRuntime::new();
    for i in 0..10u32 {
        rt.rpi_fork(0, i);
    }
    let trace = rt.rpi_thread_start(&table);
    assert_eq!(
        exited_tids(&trace),
        vec![1, 2, 3, 4, 5, 6, 7, 8, 9, 10]
    );
}

#[test]
fn implicit_exit_releases_every_thread() {
    // a routine that returns without calling exit still exits with 0
    let table: Vec<Vec<ThreadStep>> = vec![vec![]];
    let mut rt = ThreadRuntime::new();
    let n = 30u32;
    for i in 0..n {
        rt.rpi_fork(0, i);
    }
    let trace = rt.rpi_thread_start(&table);
    assert_eq!(rt.run_q.len(), 0);
    assert!(rt.cur_thread.is_none());

    let exits: Vec<(usize, i32)> = trace
        .iter()
        .filter_map(|ev| match ev {
            ThreadEvent::Exited { tid, status } => Some((*tid, *status)),
            _ => None,
        })
        .collect();
    assert_eq!(exits.len(), n as usize);
    for (k, (tid, status)) in exits.iter().enumerate() {
        assert_eq!(*tid, k + 1);
        assert_eq!(*status, 0);
    }

    // the counter-sum observation: each entry carries its spawn argument
    let sum: u64 = entered(&trace).iter().map(|(_, arg)| *arg as u64).sum();
    assert_eq!(sum, (0..n as u64).sum::<u64>());
}

#[test]
fn arguments_reach_the_entry_unmodified() {
    let table: Vec<Vec<ThreadStep>> = vec![vec![]];
    let mut rt = ThreadRuntime::new();
    rt.rpi_fork(0, 0);
    rt.rpi_fork(0, u32::MAX);
    rt.rpi_fork(0, 0x1234_5678);
    let trace = rt.rpi_thread_start(&table);
    assert_eq!(
        entered(&trace),
        vec![(1, 0), (2, u32::MAX), (3, 0x1234_5678)]
    );
}

#[test]
fn entry_ids_match_spawn_ids_and_are_distinct() {
    let table: Vec<Vec<ThreadStep>> = vec![vec![ThreadStep::Yield]];
    let mut rt = ThreadRuntime::new();
    let mut spawned: Vec<usize> = Vec::new();
    for i in 0..8u32 {
        spawned.push(rt.rpi_fork(0, i));
    }
    let trace = rt.rpi_thread_start(&table);
    let entered_ids: Vec<usize> = entered(&trace).iter().map(|(tid, _)| *tid).collect();
    assert_eq!(entered_ids, spawned);
    let mut dedup = entered_ids.clone();
    dedup.sort();
    dedup.dedup();
    assert_eq!(dedup.len(), entered_ids.len());
}

#[test]
fn singleton_thread_survives_many_noop_yields() {
    // one thread yielding 10_000 times on an empty queue: no switch,
    // no event besides its entry and its implicit exit
    let mut routine: Vec<ThreadStep> = Vec::new();
    for _ in 0..10_000 {
        routine.push(ThreadStep::Yield);
    }
    let table: Vec<Vec<ThreadStep>> = vec![routine];
    let mut rt = ThreadRuntime::new();
    let tid = rt.rpi_fork(0, 42);
    let trace = rt.rpi_thread_start(&table);
    assert_eq!(
        trace,
        vec![
            ThreadEvent::Enter { tid, arg: 42 },
            ThreadEvent::Exited { tid, status: 0 },
        ]
    );
    assert_eq!(rt.run_q.len(), 0);
    assert!(rt.cur_thread.is_none());
}

#[test]
fn exit_status_is_carried_through() {
    let table: Vec<Vec<ThreadStep>> = vec![
        vec![ThreadStep::Exit { status: 17 }],
        vec![ThreadStep::Exit { status: -3 }],
    ];
    let mut rt = ThreadRuntime::new();
    rt.rpi_fork(0, 0);
    rt.rpi_fork(1, 0);
    let trace = rt.rpi_thread_start(&table);
    let exits: Vec<(usize, i32)> = trace
        .iter()
        .filter_map(|ev| match ev {
            ThreadEvent::Exited { tid, status } => Some((*tid, *status)),
            _ => None,
        })
        .collect();
    assert_eq!(exits, vec![(1, 17), (2, -3)]);
}

#[test]
fn yield_events_record_the_yielding_thread() {
    let table: Vec<Vec<ThreadStep>> = vec![vec![
        ThreadStep::Yield,
        ThreadStep::Exit { status: 0 },
    ]];
    let mut rt = ThreadRuntime::new();
    rt.rpi_fork(0, 0);
    rt.rpi_fork(0, 1);
    let trace = rt.rpi_thread_start(&table);
    assert_eq!(
        trace,
        vec![
            ThreadEvent::Enter { tid: 1, arg: 0 },
            ThreadEvent::Yielded { tid: 1 },
            ThreadEvent::Enter { tid: 2, arg: 1 },
            ThreadEvent::Yielded { tid: 2 },
            ThreadEvent::Exited { tid: 1, status: 0 },
            ThreadEvent::Exited { tid: 2, status: 0 },
        ]
    );
}

#[test]
fn anchor_is_created_once_with_id_zero() {
    let table: Vec<Vec<ThreadStep>> = vec![vec![]];
    let mut rt = ThreadRuntime::new();
    rt.rpi_fork(0, 0);
    rt.rpi_thread_start(&table);
    let anchor = rt.scheduler_thread.as_ref().expect("anchor exists");
    assert_eq!(anchor.thread_id, 0);

    // a second round reuses the runtime and keeps counting upward
    let tid = rt.rpi_fork(0, 9);
    assert_eq!(tid, 2);
    let trace = rt.rpi_thread_start(&table);
    assert_eq!(entered(&trace), vec![(2, 9)]);
    assert_eq!(rt.scheduler_thread.as_ref().unwrap().thread_id, 0);
}

#[test]
fn cur_thread_id_reports_the_current_thread() {
    let rt = ThreadRuntime {
        run_q: VecDeque::new(),
        cur_thread: Some(RPIThread {
            thread_id: 5,
            saved_context: SavedContext::Null,
            annot: None,
            stack: Vec::new(),
        }),
        scheduler_thread: None,
        thread_id_counter: 6,
    };
    assert_eq!(rt.rpi_cur_thread_id(), 5);
}

#[test]
fn yield_on_empty_queue_keeps_the_thread_running() {
    // the no-op branch of yield: nothing to switch to
    let mut rt = ThreadRuntime {
        run_q: VecDeque::new(),
        cur_thread: Some(RPIThread {
            thread_id: 3,
            saved_context: SavedContext::Null,
            annot: None,
            stack: Vec::new(),
        }),
        scheduler_thread: None,
        thread_id_counter: 4,
    };
    for _ in 0..1000 {
        let switched = rt.rpi_yield(0, 1);
        assert!(!switched);
        assert_eq!(rt.rpi_cur_thread_id(), 3);
        assert!(rt.run_q.is_empty());
    }
}

#[test]
fn yield_with_ready_thread_switches_to_the_head() {
    let mut run_q = VecDeque::new();
    run_q.push_back(RPIThread {
        thread_id: 8,
        saved_context: SavedContext::Resume { code: 0, pc: 1 },
        annot: None,
        stack: Vec::new(),
    });
    let mut rt = ThreadRuntime {
        run_q,
        cur_thread: Some(RPIThread {
            thread_id: 3,
            saved_context: SavedContext::Null,
            annot: None,
            stack: Vec::new(),
        }),
        scheduler_thread: None,
        thread_id_counter: 9,
    };
    let switched = rt.rpi_yield(2, 7);
    assert!(switched);
    assert_eq!(rt.rpi_cur_thread_id(), 8);
    assert_eq!(rt.run_q.len(), 1);
    let tail = &rt.run_q[0];
    assert_eq!(tail.thread_id, 3);
    assert_eq!(tail.saved_context, SavedContext::Resume { code: 2, pc: 7 });
}

#[test]
fn exit_releases_current_and_switches_or_returns() {
    let mut run_q = VecDeque::new();
    run_q.push_back(RPIThread {
        thread_id: 2,
        saved_context: SavedContext::Resume { code: 0, pc: 0 },
        annot: None,
        stack: Vec::new(),
    });
    let mut rt = ThreadRuntime {
        run_q,
        cur_thread: Some(RPIThread {
            thread_id: 1,
            saved_context: SavedContext::Null,
            annot: None,
            stack: Vec::new(),
        }),
        scheduler_thread: None,
        thread_id_counter: 3,
    };
    assert!(rt.rpi_exit(0));
    assert_eq!(rt.rpi_cur_thread_id(), 2);
    assert!(rt.run_q.is_empty());

    // last thread out: control returns to the anchor
    assert!(!rt.rpi_exit(1));
    assert!(rt.cur_thread.is_none());
    assert!(rt.run_q.is_empty());
}
