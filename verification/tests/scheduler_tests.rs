use kernel::memory::{FrameAllocator, PageMapper, PAGE_SIZE};
use kernel::stack::{StackAllocator, StackRegion};
use kernel::scheduler::{ContextSwitch, Scheduler};
use kernel::thread::{SavedContext, Thread, ThreadEntry, ThreadId, ThreadIdCounter, ThreadState};

fn frame(i: u64) -> u64 {
    0x20_0000 + i * PAGE_SIZE
}

fn pool(n: u64) -> FrameAllocator {
    let mut v: Vec<u64> = Vec::new();
    let mut i: u64 = 0;
    while i < n {
        v.push(frame(i));
        i += 1;
    }
    FrameAllocator::with_frames(v)
}

// A ready control block on a stackless (empty) region, for scheduler-only
// scenarios that never release it.
fn ready_thread(id: u64) -> Thread {
    Thread {
        id: ThreadId(id),
        state: ThreadState::Ready,
        stack: StackRegion { base_page: 1, page_count: 0 },
        saved_context: SavedContext { stack_pointer: 0 },
        entry: ThreadEntry::Function { address: 0 },
    }
}

#[test]
fn new_scheduler_runs_the_boot_context() {
    let boot = Thread::bootstrap(ThreadId(7));
    let s = Scheduler::new(boot);
    assert_eq!(s.current_thread_id(), ThreadId(7));
    assert_eq!(s.thread_count(), 1);
    assert_eq!(s.ready_count(), 0);
    assert!(s.contains_thread(ThreadId(7)));
    assert_eq!(s.thread_state(ThreadId(7)), ThreadState::Running);
    assert_eq!(s.idle_thread_id(), None);
}

#[test]
fn registration_keeps_fifo_order() {
    let mut s = Scheduler::new(Thread::bootstrap(ThreadId(100)));
    s.set_idle_thread(ready_thread(99));
    s.add_new_thread(ready_thread(1));
    s.add_new_thread(ready_thread(2));
    s.add_new_thread(ready_thread(3));
    assert_eq!(s.thread_count(), 5);
    assert_eq!(s.ready_count(), 3);
    assert_eq!(s.ready_at(0), ThreadId(1));
    assert_eq!(s.ready_at(1), ThreadId(2));
    assert_eq!(s.ready_at(2), ThreadId(3));
    // the idle thread is registered but never sits in the queue
    assert_eq!(s.idle_thread_id(), Some(ThreadId(99)));
    assert!(s.contains_thread(ThreadId(99)));
    assert_eq!(s.thread_state(ThreadId(99)), ThreadState::Ready);
}

#[test]
fn two_yields_rotate_through_ready_threads() {
    // three ready threads [A, B, C] with current A: two back-to-back
    // yields produce the current sequence A -> B -> C
    let a = ThreadId(10);
    let mut s = Scheduler::new(Thread::bootstrap(a));
    s.set_idle_thread(ready_thread(99));
    s.add_new_thread(ready_thread(11)); // B
    s.add_new_thread(ready_thread(12)); // C
    assert_eq!(s.current_thread_id(), a);

    let sw1 = s.yield_now().unwrap();
    assert_eq!(sw1, ContextSwitch { from: ThreadId(10), to: ThreadId(11) });
    assert_eq!(s.current_thread_id(), ThreadId(11));
    assert_eq!(s.thread_state(ThreadId(10)), ThreadState::Ready);
    assert_eq!(s.thread_state(ThreadId(11)), ThreadState::Running);

    let sw2 = s.yield_now().unwrap();
    assert_eq!(sw2, ContextSwitch { from: ThreadId(11), to: ThreadId(12) });
    assert_eq!(s.current_thread_id(), ThreadId(12));
    // preempted threads went to the back of the queue, in order
    assert_eq!(s.ready_at(0), ThreadId(10));
    assert_eq!(s.ready_at(1), ThreadId(11));
}

#[test]
fn ticks_visit_threads_in_cyclic_order() {
    // threads enqueued in order [1, 2, 3], none yielding early: repeated
    // ticks visit them 1, 2, 3, 1, 2, 3, ...
    let mut mapper = PageMapper::new();
    let mut frames = pool(4);
    let mut s = Scheduler::new(Thread::bootstrap(ThreadId(100)));
    s.set_idle_thread(ready_thread(99));
    // retire the boot context so the idle thread is the one running
    let (_, sw) = s.exit_thread(&mut mapper, &mut frames);
    assert_eq!(sw.to, ThreadId(99));
    s.add_new_thread(ready_thread(1));
    s.add_new_thread(ready_thread(2));
    s.add_new_thread(ready_thread(3));

    let expected = [1u64, 2, 3, 1, 2, 3, 1, 2];
    for want in expected {
        s.tick();
        assert_eq!(s.current_thread_id(), ThreadId(want));
        // the idle thread never sits in the queue while others are ready
        assert_eq!(s.ready_count(), 2);
        assert_ne!(s.ready_at(0), ThreadId(99));
        assert_ne!(s.ready_at(1), ThreadId(99));
    }
}

#[test]
fn empty_queue_falls_back_to_idle() {
    let mut s = Scheduler::new(Thread::bootstrap(ThreadId(100)));
    s.set_idle_thread(ready_thread(99));
    // nothing is ready: the tick switches to the idle thread
    let sw = s.tick().unwrap();
    assert_eq!(sw, ContextSwitch { from: ThreadId(100), to: ThreadId(99) });
    assert_eq!(s.current_thread_id(), ThreadId(99));
    // the preempted boot context was re-enqueued
    assert_eq!(s.ready_count(), 1);
    assert_eq!(s.ready_at(0), ThreadId(100));
    // with the queue empty and the idle thread running, a tick is a no-op
    let sw2 = s.tick().unwrap();
    assert_eq!(sw2.to, ThreadId(100));
    let mut mapper = PageMapper::new();
    let mut frames = pool(0);
    let (_, sw3) = s.exit_thread(&mut mapper, &mut frames);
    assert_eq!(sw3.to, ThreadId(99));
    assert_eq!(s.tick(), None);
    assert_eq!(s.current_thread_id(), ThreadId(99));
}

#[test]
fn terminated_threads_are_never_selected() {
    let mut mapper = PageMapper::new();
    let mut frames = pool(0);
    let mut s = Scheduler::new(Thread::bootstrap(ThreadId(100)));
    s.set_idle_thread(ready_thread(99));
    s.add_new_thread(ready_thread(1));
    let (dead, sw) = s.exit_thread(&mut mapper, &mut frames);
    assert_eq!(dead.id, ThreadId(100));
    assert_eq!(dead.state, ThreadState::Terminated);
    assert_eq!(sw, ContextSwitch { from: ThreadId(100), to: ThreadId(1) });
    assert!(!s.contains_thread(ThreadId(100)));
    // from here on, rotation only ever visits thread 1 and the idle thread
    for _ in 0..6 {
        s.tick();
        let c = s.current_thread_id();
        assert!(c == ThreadId(1) || c == ThreadId(99));
    }
}

#[test]
fn saved_context_is_stored_and_returned() {
    let mut s = Scheduler::new(Thread::bootstrap(ThreadId(0)));
    s.add_new_thread(ready_thread(1));
    s.set_saved_context(ThreadId(1), SavedContext { stack_pointer: 0xAAA0 });
    assert_eq!(s.saved_context_of(ThreadId(1)), SavedContext { stack_pointer: 0xAAA0 });
    assert_eq!(s.thread_state(ThreadId(1)), ThreadState::Ready);
    assert_eq!(s.thread_stack(ThreadId(1)), StackRegion { base_page: 1, page_count: 0 });
}

#[test]
fn ten_workers_run_their_slices_and_exit() {
    // one idle thread plus workers with ids 1..=10, two pages of stack
    // each; worker i runs i+1 slices then exits; afterwards the table
    // holds only the idle thread and the frame pool is back to baseline
    let mut ids = ThreadIdCounter::new();
    let mut stacks = StackAllocator::new(0x1000);
    let mut mapper = PageMapper::new();
    let mut frames = pool(64);

    let mut s = Scheduler::new(Thread::bootstrap(ThreadId(1000)));
    let idle = Thread::create(0x1D1E, 2, &mut ids, &mut stacks, &mut mapper, &mut frames)
        .unwrap();
    assert_eq!(idle.id, ThreadId(0));
    let idle_id = idle.id;
    s.set_idle_thread(idle);

    let baseline = frames.free_count();
    for i in 1..=10u64 {
        let t = Thread::create(0xE000 + i, 2, &mut ids, &mut stacks, &mut mapper, &mut frames)
            .unwrap();
        assert_eq!(t.id, ThreadId(i));
        s.add_new_thread(t);
    }
    assert_eq!(frames.free_count(), baseline - 20);
    assert_eq!(s.thread_count(), 12);

    // the boot context retires once the workers are registered
    s.exit_thread(&mut mapper, &mut frames);

    let mut slices = [0u64; 11];
    let mut steps = 0;
    loop {
        let c = s.current_thread_id();
        if c == idle_id {
            if s.thread_count() == 1 {
                break;
            }
            s.tick();
        } else {
            let i = c.as_u64() as usize;
            slices[i] += 1;
            if slices[i] == c.as_u64() + 1 {
                let (dead, _) = s.exit_thread(&mut mapper, &mut frames);
                assert_eq!(dead.state, ThreadState::Terminated);
            } else {
                s.yield_now();
            }
        }
        steps += 1;
        assert!(steps < 10_000);
    }

    // worker i ran exactly i+1 slices
    for i in 1..=10u64 {
        assert_eq!(slices[i as usize], i + 1);
    }
    // only the idle thread survives, and every stack came back
    assert_eq!(s.thread_count(), 1);
    assert!(s.contains_thread(idle_id));
    assert_eq!(frames.free_count(), baseline);
}

#[test]
fn tick_and_yield_share_one_algorithm() {
    let build = || {
        let mut s = Scheduler::new(Thread::bootstrap(ThreadId(50)));
        s.set_idle_thread(ready_thread(99));
        s.add_new_thread(ready_thread(1));
        s.add_new_thread(ready_thread(2));
        s
    };
    let mut by_tick = build();
    let mut by_yield = build();
    let sw_t = by_tick.tick();
    let sw_y = by_yield.yield_now();
    assert_eq!(sw_t, sw_y);
    assert_eq!(by_tick.current_thread_id(), by_yield.current_thread_id());
    assert_eq!(by_tick.ready_count(), by_yield.ready_count());
    for i in 0..by_tick.ready_count() {
        assert_eq!(by_tick.ready_at(i), by_yield.ready_at(i));
    }
}
