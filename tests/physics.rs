use std::cell::RefCell;
use std::rc::Rc;

use azer::delta_time::DeltaTime;
use azer::event::WindowEvent;
use azer::layer::Layer;
use azer::layer_stack::LayerStack;
use azer::physics::{physics_update, update, FIXED_PHYSICS_STEP_NANOS, MAX_PHYSICS_STEPS};
use azer::renderer::Renderer;

type Log = Rc<RefCell<Vec<(usize, String)>>>;

struct Probe {
    id: usize,
    log: Log,
}

impl Layer for Probe {
    fn on_ready(&mut self) {
        self.log.borrow_mut().push((self.id, "ready".to_string()));
    }
    fn on_update(&mut self, delta: &DeltaTime) {
        self.log.borrow_mut().push((self.id, format!("update {}", delta.as_nanos())));
    }
    fn on_render(&mut self, renderer: &mut Renderer) {
        renderer.draw_triangle();
        self.log.borrow_mut().push((self.id, "render".to_string()));
    }
    fn on_physics_update(&mut self, delta: &DeltaTime) {
        self.log.borrow_mut().push((self.id, format!("physics {}", delta.as_nanos())));
    }
    fn on_event(&mut self, _event: &WindowEvent) {
        self.log.borrow_mut().push((self.id, "event".to_string()));
    }
    fn on_close(&mut self) {
        self.log.borrow_mut().push((self.id, "close".to_string()));
    }
}

fn stack_of(n: usize, log: &Log) -> LayerStack<Probe> {
    let mut stack = LayerStack::new();
    for id in 0..n {
        stack.push(Probe { id, log: log.clone() });
    }
    stack
}

fn physics_calls(log: &Log) -> usize {
    log.borrow().iter().filter(|(_, s)| s.starts_with("physics")).count()
}

#[test]
fn long_stall_is_capped_at_ten_steps() {
    let log: Log = Rc::new(RefCell::new(Vec::new()));
    let mut stack = stack_of(1, &log);
    let mut acc: u64 = 0;
    physics_update(&mut stack, 200_000_000, &mut acc);
    assert_eq!(physics_calls(&log), 10);
    assert_eq!(acc, 200_000_000 - 10 * 16_666_666);
    assert!(acc >= FIXED_PHYSICS_STEP_NANOS);
    assert_eq!(MAX_PHYSICS_STEPS, 10);
}

#[test]
fn every_step_hands_exactly_one_step_to_each_layer() {
    let log: Log = Rc::new(RefCell::new(Vec::new()));
    let mut stack = stack_of(2, &log);
    let mut acc: u64 = 0;
    physics_update(&mut stack, 50_000_000, &mut acc);
    let expected: Vec<(usize, String)> = (0..3)
        .flat_map(|_| (0..2).map(|id| (id, "physics 16666666".to_string())))
        .collect();
    assert_eq!(*log.borrow(), expected);
    assert_eq!(acc, 2);
}

#[test]
fn short_frame_only_accumulates() {
    let log: Log = Rc::new(RefCell::new(Vec::new()));
    let mut stack = stack_of(1, &log);
    let mut acc: u64 = 0;
    physics_update(&mut stack, 10_000_000, &mut acc);
    assert_eq!(physics_calls(&log), 0);
    assert_eq!(acc, 10_000_000);
    physics_update(&mut stack, 10_000_000, &mut acc);
    assert_eq!(physics_calls(&log), 1);
    assert_eq!(acc, 20_000_000 - 16_666_666);
}

#[test]
fn zero_elapsed_from_empty_carry_takes_no_step() {
    let log: Log = Rc::new(RefCell::new(Vec::new()));
    let mut stack = stack_of(1, &log);
    let mut acc: u64 = 0;
    physics_update(&mut stack, 0, &mut acc);
    assert_eq!(physics_calls(&log), 0);
    assert_eq!(acc, 0);
}

#[test]
fn exact_multiple_of_a_step_keeps_one_step() {
    let log: Log = Rc::new(RefCell::new(Vec::new()));
    let mut stack = stack_of(1, &log);
    let mut acc: u64 = 0;
    physics_update(&mut stack, 2 * FIXED_PHYSICS_STEP_NANOS, &mut acc);
    assert_eq!(physics_calls(&log), 1);
    assert_eq!(acc, FIXED_PHYSICS_STEP_NANOS);
}

#[test]
fn uncapped_advance_leaves_less_than_a_step() {
    for elapsed in [1u64, 5_000_000, 16_666_667, 40_000_000, 123_456_789] {
        let log: Log = Rc::new(RefCell::new(Vec::new()));
        let mut stack = stack_of(1, &log);
        let mut acc: u64 = 3;
        physics_update(&mut stack, elapsed, &mut acc);
        assert!(physics_calls(&log) <= 10);
        if physics_calls(&log) < 10 {
            assert!(acc < FIXED_PHYSICS_STEP_NANOS);
        }
    }
}

#[test]
fn carry_saturates_at_the_largest_value() {
    let log: Log = Rc::new(RefCell::new(Vec::new()));
    let mut stack = stack_of(1, &log);
    let mut acc: u64 = u64::MAX - 1;
    physics_update(&mut stack, 5, &mut acc);
    assert_eq!(physics_calls(&log), 10);
    assert_eq!(acc, u64::MAX - 10 * FIXED_PHYSICS_STEP_NANOS);
}

#[test]
fn update_hands_raw_elapsed_time_in_push_order() {
    let log: Log = Rc::new(RefCell::new(Vec::new()));
    let mut stack = stack_of(3, &log);
    update(&mut stack, 7_000_000);
    let expected: Vec<(usize, String)> =
        (0..3).map(|id| (id, "update 7000000".to_string())).collect();
    assert_eq!(*log.borrow(), expected);
}

#[test]
fn delta_time_views() {
    let d = DeltaTime::new(1_500_000);
    assert_eq!(d.as_nanos(), 1_500_000);
    assert_eq!(d.to_milliseconds(), 1);
    assert_eq!(d.to_microseconds(), 1_500);
    let n = DeltaTime::new(-1_500_000);
    assert_eq!(n.as_nanos(), 0);
    assert_eq!(n.to_milliseconds(), -1);
    assert_eq!(n.to_microseconds(), -1_500);
}
