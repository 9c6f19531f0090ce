use std::cell::RefCell;
use std::rc::Rc;

use azer::delta_time::DeltaTime;
use azer::event::{Extent, WindowEvent};
use azer::layer::Layer;
use azer::layer_stack::LayerStack;
use azer::renderer::{ClearColor, RenderCommand, Renderer};

type Log = Rc<RefCell<Vec<(usize, &'static str)>>>;

struct Tracer {
    id: usize,
    log: Log,
}

impl Layer for Tracer {
    fn on_ready(&mut self) {
        self.log.borrow_mut().push((self.id, "ready"));
    }
    fn on_update(&mut self, _delta: &DeltaTime) {
        self.log.borrow_mut().push((self.id, "update"));
    }
    fn on_render(&mut self, renderer: &mut Renderer) {
        renderer.draw_triangle();
        self.log.borrow_mut().push((self.id, "render"));
    }
    fn on_physics_update(&mut self, _delta: &DeltaTime) {
        self.log.borrow_mut().push((self.id, "physics"));
    }
    fn on_event(&mut self, _event: &WindowEvent) {
        self.log.borrow_mut().push((self.id, "event"));
    }
    fn on_close(&mut self) {
        self.log.borrow_mut().push((self.id, "close"));
    }
}

fn stack_of(n: usize, log: &Log) -> LayerStack<Tracer> {
    let mut stack = LayerStack::new();
    for id in 0..n {
        stack.push(Tracer { id, log: log.clone() });
    }
    stack
}

fn in_order(n: usize, what: &'static str) -> Vec<(usize, &'static str)> {
    (0..n).map(|id| (id, what)).collect()
}

#[test]
fn every_callback_goes_to_each_layer_once_in_push_order() {
    let log: Log = Rc::new(RefCell::new(Vec::new()));
    let mut stack = stack_of(4, &log);
    stack.ready_all();
    assert_eq!(*log.borrow(), in_order(4, "ready"));
    log.borrow_mut().clear();
    stack.update_all(DeltaTime::new(5));
    assert_eq!(*log.borrow(), in_order(4, "update"));
    log.borrow_mut().clear();
    stack.physics_update_all(DeltaTime::new(5));
    assert_eq!(*log.borrow(), in_order(4, "physics"));
    log.borrow_mut().clear();
    stack.event_all(WindowEvent::CursorMoved { x: 3, y: 4 });
    assert_eq!(*log.borrow(), in_order(4, "event"));
    log.borrow_mut().clear();
    stack.close_all();
    assert_eq!(*log.borrow(), in_order(4, "close"));
}

#[test]
fn render_goes_to_each_layer_in_push_order_inside_the_scope() {
    let log: Log = Rc::new(RefCell::new(Vec::new()));
    let mut stack = stack_of(2, &log);
    let viewport = Extent { width: 640, height: 480 };
    let mut renderer = Renderer::new(viewport);
    let grey = ClearColor { r: 1, g: 2, b: 3, a: 4 };
    renderer.begin(0, grey);
    stack.render_all(&mut renderer);
    assert!(renderer.is_recording());
    renderer.end();
    let list = renderer.submit();
    assert_eq!(*log.borrow(), in_order(2, "render"));
    assert_eq!(
        list.commands,
        vec![
            RenderCommand::BeginRenderPass { framebuffer: 0, clear_color: grey },
            RenderCommand::DrawTriangle { viewport },
            RenderCommand::DrawTriangle { viewport },
            RenderCommand::EndRenderPass,
        ]
    );
}

#[test]
fn pop_returns_the_last_pushed_layer() {
    let log: Log = Rc::new(RefCell::new(Vec::new()));
    let mut stack = stack_of(3, &log);
    assert_eq!(stack.len(), 3);
    let top = stack.pop().unwrap();
    assert_eq!(top.id, 2);
    assert_eq!(stack.len(), 2);
    assert_eq!(stack.get(1).id, 1);
    stack.clear();
    assert_eq!(stack.len(), 0);
    assert!(stack.pop().is_none());
}

#[test]
fn empty_stack_dispatches_nothing() {
    let log: Log = Rc::new(RefCell::new(Vec::new()));
    let mut stack = stack_of(0, &log);
    stack.update_all(DeltaTime::new(1));
    stack.close_all();
    assert!(log.borrow().is_empty());
}
