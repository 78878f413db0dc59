use async_flow::factory::{FlowExtensions, FlowFactory};
use async_flow::flow::{Barrier, Generator, Node, Sequence};
use async_flow::future::AsyncFuture;
use async_flow::host::StepHost;
use async_flow::kernel::AsyncKernel;
use async_flow::timer::{PeriodicTimer, Timer};
use async_flow::trigger::Trigger;

const MS: u64 = 1_000_000;

struct RecordingHost {
    timer_fired: Vec<u128>,
    periodic_fired: Vec<u128>,
    trigger_answer: bool,
    trigger_fired: Vec<u128>,
}

impl RecordingHost {
    fn new() -> Self {
        RecordingHost {
            timer_fired: Vec::new(),
            periodic_fired: Vec::new(),
            trigger_answer: false,
            trigger_fired: Vec::new(),
        }
    }
}

impl StepHost<i32> for RecordingHost {
    fn timer_elapsed(&mut self, id: u128) {
        self.timer_fired.push(id);
    }
    fn periodic_elapsed(&mut self, id: u128) {
        self.periodic_fired.push(id);
    }
    fn trigger_condition(&mut self, _id: u128) -> bool {
        self.trigger_answer
    }
    fn trigger_fired(&mut self, id: u128) {
        self.trigger_fired.push(id);
    }
    fn coroutine_step(&mut self, _id: u128) -> Option<i32> {
        None
    }
}

#[test]
fn test_node_child_management() {
    let mut node: Node<i32> = Node::new();
    assert_eq!(node.child_count(), 0);
    let child = Timer::new(10);
    let child_id = child.base.id;
    node.add_child(Generator::Timer(child));
    node.add_child(Generator::Trigger(Trigger::new()));
    assert_eq!(node.child_count(), 2);
    assert!(node.remove_child(child_id));
    assert_eq!(node.child_count(), 1);
    assert!(!node.remove_child(child_id));
    assert_eq!(node.child_count(), 1);
}

#[test]
fn test_node_clear_completed() {
    let mut node: Node<i32> = Node::new();
    let mut done = Timer::new(0);
    done.step(1); // completes at once
    let done_id = done.base.id;
    let pending = Timer::new(1000 * MS);
    let pending_id = pending.base.id;
    node.add_child(Generator::Timer(done));
    node.add_child(Generator::Timer(pending));
    node.clear_completed();
    assert_eq!(node.child_count(), 1);
    assert_eq!(node.child(0).id(), pending_id);
    assert_ne!(node.child(0).id(), done_id);
}

#[test]
fn test_node_fans_out_and_never_self_completes() {
    let mut node: Node<i32> = Node::new();
    node.add_child(Generator::Timer(Timer::new(10 * MS)));
    node.add_child(Generator::Timer(Timer::new(20 * MS)));
    let mut host = RecordingHost::new();
    let mut now: u64 = 0;
    for _ in 0..10 {
        now += 5 * MS;
        node = node.step(now, &mut host);
    }
    assert_eq!(host.timer_fired.len(), 2);
    assert!(node.child(0).is_completed());
    assert!(node.child(1).is_completed());
    // the node itself never completes on account of its children
    assert!(!node.base.is_completed());
    assert!(node.base.is_running());
}

#[test]
fn test_sequence_empty_completes_on_first_step() {
    let seq: Sequence<i32> = Sequence::new();
    let mut host = RecordingHost::new();
    let seq = seq.step(1, &mut host);
    assert!(seq.base.is_completed());
}

#[test]
fn test_sequence_orders_children_and_completes_once() {
    let mut seq: Sequence<i32> = Sequence::new();
    let mut ids = Vec::new();
    for _ in 0..3 {
        let t = Timer::new(30 * MS);
        ids.push(t.base.id);
        seq.add_child(Generator::Timer(t));
    }
    let mut host = RecordingHost::new();
    let mut now: u64 = 0;
    let mut completion_count = 0;
    for _ in 0..40 {
        now += 10 * MS;
        let was_completed = seq.base.is_completed();
        seq = seq.step(now, &mut host);
        if seq.base.is_completed() && !was_completed {
            completion_count += 1;
        }
        // a later child is never started while an earlier one is unfinished
        if !seq.base.is_completed() {
            let cursor = seq.current_index();
            for i in (cursor + 1)..seq.child_count() {
                if let Generator::Timer(t) = seq.child(i) {
                    assert!(t.start_time.is_none());
                }
            }
        }
    }
    // children fired in index order, each exactly once
    assert_eq!(host.timer_fired, ids);
    assert!(seq.base.is_completed());
    assert_eq!(completion_count, 1);
    assert_eq!(seq.current_index(), 3);
}

#[test]
fn test_sequence_cursor_is_monotone() {
    let mut seq: Sequence<i32> = Sequence::new();
    seq.add_child(Generator::Timer(Timer::new(10 * MS)));
    seq.add_child(Generator::Timer(Timer::new(10 * MS)));
    let mut host = RecordingHost::new();
    let mut now: u64 = 0;
    let mut last_cursor = 0;
    for _ in 0..20 {
        now += 5 * MS;
        seq = seq.step(now, &mut host);
        let cursor = seq.current_index();
        assert!(cursor >= last_cursor);
        last_cursor = cursor;
    }
    assert_eq!(last_cursor, 2);
}

#[test]
fn test_barrier_empty_completes_on_first_step() {
    let bar: Barrier<i32> = Barrier::new();
    let mut host = RecordingHost::new();
    let bar = bar.step(1, &mut host);
    assert!(bar.base.is_completed());
}

#[test]
fn test_barrier_completes_iff_all_children_completed() {
    let mut bar: Barrier<i32> = Barrier::new();
    bar.add_child(Generator::Timer(Timer::new(10 * MS)));
    bar.add_child(Generator::Timer(Timer::new(30 * MS)));
    let mut host = RecordingHost::new();
    let mut now: u64 = 0;
    for _ in 0..10 {
        now += 5 * MS;
        bar = bar.step(now, &mut host);
        // completed exactly when every child is
        assert_eq!(bar.base.is_completed(), bar.all_children_completed());
    }
    assert!(bar.base.is_completed());
    assert_eq!(host.timer_fired.len(), 2);
}

#[test]
fn test_basic_kernel_operations() {
    let kernel: AsyncKernel<i32> = AsyncKernel::new();
    assert!(kernel.base.is_active());
    assert!(kernel.base.is_running());
    assert!(!kernel.base.is_completed());
    assert!(!kernel.is_breaking());
    assert!(!kernel.is_waiting());
    assert_eq!(kernel.child_count(), 0);
    assert_eq!(kernel.time_frame().now, 0);
}

#[test]
fn test_kernel_drains_and_prunes_completed_children() {
    let mut kernel: AsyncKernel<i32> = AsyncKernel::new();
    kernel.add_child(Generator::Timer(Timer::new(20 * MS)));
    kernel.add_child(Generator::Timer(Timer::new(50 * MS)));
    let mut host = RecordingHost::new();
    let mut cycles = 0;
    while kernel.child_count() > 0 && cycles < 100 {
        kernel.update(10 * MS, &mut host);
        cycles += 1;
    }
    assert_eq!(kernel.child_count(), 0);
    assert_eq!(host.timer_fired.len(), 2);
    assert!(kernel.time_frame().now >= 50 * MS);
}

#[test]
fn test_kernel_break_flow_stops_stepping() {
    let mut kernel: AsyncKernel<i32> = AsyncKernel::new();
    kernel.add_child(Generator::Timer(Timer::new(10 * MS)));
    kernel.break_flow();
    assert!(kernel.is_breaking());
    let mut host = RecordingHost::new();
    for _ in 0..20 {
        kernel.update(10 * MS, &mut host);
    }
    // the frame advances but nothing is stepped or pruned
    assert_eq!(kernel.child_count(), 1);
    assert_eq!(host.timer_fired.len(), 0);
    assert_eq!(kernel.time_frame().now, 200 * MS);
}

#[test]
fn test_kernel_wait_suspends_stepping() {
    let mut kernel: AsyncKernel<i32> = AsyncKernel::new();
    kernel.add_child(Generator::Timer(Timer::new(10 * MS)));
    kernel.wait(100 * MS);
    assert!(kernel.is_waiting());
    let mut host = RecordingHost::new();
    // while waiting, cycles are no-ops
    for _ in 0..5 {
        kernel.update(10 * MS, &mut host);
        assert_eq!(kernel.child_count(), 1);
        assert_eq!(host.timer_fired.len(), 0);
    }
    // the deadline passes with the frame
    for _ in 0..10 {
        kernel.update(10 * MS, &mut host);
    }
    assert!(!kernel.is_waiting());
    assert_eq!(kernel.child_count(), 0);
    assert_eq!(host.timer_fired.len(), 1);
}

#[test]
fn test_kernel_clear_wait_resumes() {
    let mut kernel: AsyncKernel<i32> = AsyncKernel::new();
    kernel.add_child(Generator::Timer(Timer::new(5 * MS)));
    kernel.wait(1_000_000 * MS);
    let mut host = RecordingHost::new();
    kernel.update(10 * MS, &mut host);
    assert_eq!(kernel.child_count(), 1);
    kernel.clear_wait();
    assert!(!kernel.is_waiting());
    kernel.update(10 * MS, &mut host);
    kernel.update(10 * MS, &mut host);
    assert_eq!(kernel.child_count(), 0);
}

#[test]
fn test_kernel_update_real_time_uses_wall_clock_reading() {
    let mut kernel: AsyncKernel<i32> = AsyncKernel::new();
    kernel.add_child(Generator::Timer(Timer::new(20 * MS)));
    let mut host = RecordingHost::new();
    kernel.update_real_time(15 * MS, &mut host);
    assert_eq!(kernel.time_frame().now, 15 * MS);
    assert_eq!(kernel.child_count(), 1);
    kernel.update_real_time(40 * MS, &mut host);
    assert_eq!(kernel.time_frame().delta, 25 * MS);
    kernel.update_real_time(60 * MS, &mut host);
    assert_eq!(kernel.child_count(), 0);
    assert_eq!(host.timer_fired.len(), 1);
}

#[test]
fn test_trigger_in_tree_answers_predicate_per_step() {
    let mut kernel: AsyncKernel<i32> = AsyncKernel::new();
    let tr = Trigger::new();
    let tr_id = tr.base.id;
    kernel.add_child(Generator::Trigger(tr));
    let mut host = RecordingHost::new();
    kernel.update(1 * MS, &mut host);
    assert_eq!(kernel.child_count(), 1);
    host.trigger_answer = true;
    kernel.update(1 * MS, &mut host);
    assert_eq!(host.trigger_fired, vec![tr_id]);
    assert_eq!(kernel.child_count(), 0);
}

#[test]
fn test_future_in_tree_set_through_child_mut() {
    let mut kernel: AsyncKernel<i32> = AsyncKernel::new();
    kernel.add_child(Generator::Future(AsyncFuture::new()));
    let mut host = RecordingHost::new();
    kernel.update(1, &mut host);
    assert_eq!(kernel.child_count(), 1); // empty cell: stays pending
    match kernel.root.child_mut(0) {
        Generator::Future(f) => f.set_value(9),
        _ => unreachable!(),
    }
    match kernel.root.child(0) {
        Generator::Future(f) => {
            assert!(f.base.is_completed());
            assert_eq!(f.get_value(), Some(9));
        }
        _ => unreachable!(),
    }
    kernel.update(1, &mut host);
    assert_eq!(kernel.child_count(), 0); // completed cell is pruned
}

#[test]
fn test_future_in_tree_completes_by_polling() {
    let mut kernel: AsyncKernel<i32> = AsyncKernel::new();
    kernel.add_child(Generator::Future(AsyncFuture::new()));
    let mut host = RecordingHost::new();
    kernel.update(1, &mut host);
    assert_eq!(kernel.child_count(), 1);
    // fill the slot without completing: the redundant completion path in
    // `step` must observe the value and complete the cell on the next cycle
    match kernel.root.child_mut(0) {
        Generator::Future(f) => f.value = Some(3),
        _ => unreachable!(),
    }
    assert!(!kernel.root.child(0).is_completed());
    kernel.update(1, &mut host);
    assert_eq!(kernel.child_count(), 0);
}

#[test]
fn test_nested_barriers_complete_inside_out() {
    let mut inner: Barrier<i32> = Barrier::new();
    inner.add_child(Generator::Timer(Timer::new(20 * MS)));
    inner.add_child(Generator::Timer(Timer::new(40 * MS)));
    let mut outer: Barrier<i32> = Barrier::new();
    outer.add_child(Generator::Barrier(inner));
    outer.add_child(Generator::Timer(Timer::new(10 * MS)));
    let mut kernel: AsyncKernel<i32> = AsyncKernel::new();
    kernel.add_child(Generator::Barrier(outer));
    let mut host = RecordingHost::new();
    let mut cycles = 0;
    while kernel.child_count() > 0 && cycles < 100 {
        kernel.update(5 * MS, &mut host);
        cycles += 1;
    }
    assert_eq!(kernel.child_count(), 0);
    assert_eq!(host.timer_fired.len(), 3);
    assert!(kernel.time_frame().now >= 40 * MS);
}

#[test]
fn test_sequence_nested_in_node_with_peers() {
    let mut seq: Sequence<i32> = Sequence::new();
    seq.add_child(Generator::Timer(Timer::new(10 * MS)));
    seq.add_child(Generator::Timer(Timer::new(10 * MS)));
    let mut kernel: AsyncKernel<i32> = AsyncKernel::new();
    kernel.add_child(Generator::Sequence(seq));
    kernel.add_child(Generator::Timer(Timer::new(5 * MS)));
    let mut host = RecordingHost::new();
    let mut cycles = 0;
    while kernel.child_count() > 0 && cycles < 100 {
        kernel.update(5 * MS, &mut host);
        cycles += 1;
    }
    assert_eq!(kernel.child_count(), 0);
    assert_eq!(host.timer_fired.len(), 3);
}

#[test]
fn test_deactivated_child_is_skipped_but_kept() {
    let mut node: Node<i32> = Node::new();
    let mut t = Timer::new(5 * MS);
    t.base.deactivate();
    node.add_child(Generator::Timer(t));
    let mut host = RecordingHost::new();
    let mut now: u64 = 0;
    for _ in 0..5 {
        now += 5 * MS;
        node = node.step(now, &mut host);
    }
    // an inactive child performs no work at all
    assert!(host.timer_fired.is_empty());
    assert!(!node.child(0).is_completed());
    if let Generator::Timer(t) = node.child(0) {
        assert!(t.start_time.is_none());
    }
    // reactivated, it resumes from scratch
    node.child_mut(0).activate();
    node = node.step(now + 5 * MS, &mut host);
    if let Generator::Timer(t) = node.child(0) {
        assert_eq!(t.start_time, Some(now + 5 * MS));
    }
}

#[test]
fn test_periodic_timer_in_tree_never_drains() {
    let mut kernel: AsyncKernel<i32> = AsyncKernel::new();
    kernel.add_child(Generator::PeriodicTimer(PeriodicTimer::new(20 * MS)));
    let mut host = RecordingHost::new();
    for _ in 0..10 {
        kernel.update(10 * MS, &mut host);
    }
    // fires at 10, 30, 50, 70 and 90ms; never completed, never pruned
    assert_eq!(host.periodic_fired.len(), 5);
    assert_eq!(kernel.child_count(), 1);
    // stopping it is the host's business
    kernel.root.child_mut(0).complete();
    kernel.update(10 * MS, &mut host);
    assert_eq!(kernel.child_count(), 0);
    assert_eq!(host.periodic_fired.len(), 5);
}

#[test]
fn test_generator_enum_lifecycle_delegation() {
    let t = Timer::new(10);
    let id = t.base.id;
    let mut g: Generator<i32> = Generator::Timer(t);
    assert_eq!(g.id(), id);
    assert!(g.is_active());
    assert!(g.is_running());
    assert!(!g.is_completed());
    assert!(g.name().is_none());
    g.set_name(String::from("leaf"));
    assert_eq!(g.name().as_deref(), Some("leaf"));
    g.deactivate();
    assert!(!g.is_active());
    g.activate();
    assert!(g.is_active());
    g.complete();
    assert!(g.is_completed());
    assert!(!g.is_running());
    g.complete();
    assert!(g.is_completed());
    assert_eq!(g.id(), id);
}

#[test]
fn test_child_mut_on_sequence_and_barrier() {
    let mut seq: Sequence<i32> = Sequence::new();
    seq.add_child(Generator::Timer(Timer::new(10)));
    seq.child_mut(0).set_name(String::from("first"));
    assert_eq!(seq.child(0).name().as_deref(), Some("first"));
    let mut bar: Barrier<i32> = Barrier::new();
    bar.add_child(Generator::Timer(Timer::new(10)));
    bar.child_mut(0).complete();
    assert!(bar.child(0).is_completed());
    assert!(bar.all_children_completed());
}

#[test]
fn test_flow_factory_constructors() {
    let node: Node<i32> = FlowFactory::new_node_with_name(String::from("group"));
    assert_eq!(node.base.name().as_deref(), Some("group"));
    let timer = FlowFactory::new_timer(7);
    assert_eq!(timer.duration, 7);
    let seq: Sequence<i32> = FlowFactory::new_sequence();
    assert_eq!(seq.current_index(), 0);
    let bar: Barrier<i32> = FlowFactory::new_barrier_with_name(String::from("join"));
    assert_eq!(bar.base.name().as_deref(), Some("join"));
    let tr = FlowFactory::new_trigger();
    assert!(!tr.is_triggered());
    let g: Generator<i32> = Generator::Timer(FlowFactory::new_timer(3)).named(String::from("t"));
    assert_eq!(g.name().as_deref(), Some("t"));
    assert!(!g.is_completed());
}
