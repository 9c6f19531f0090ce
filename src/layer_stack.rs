use vstd::prelude::*;
use crate::layer::{Layer, LayerCallback};
use crate::renderer::Renderer;
use crate::delta_time::DeltaTime;
use crate::event::WindowEvent;

verus! {

/// One callback delivered to the layer at an index of the stack.
pub type Dispatch = (int, LayerCallback);

/// One round of `callback` over `n` layers: each index once, in push order.
pub open spec fn round(n: int, callback: LayerCallback) -> Seq<Dispatch> {
    Seq::new(n as nat, |i: int| (i, callback))
}

/// A round reaches every layer exactly once, and in push order: its entry
/// at position `i` is the layer at index `i`.
pub proof fn lemma_round_in_push_order(n: nat, callback: LayerCallback)
    ensures
        round(n as int, callback).len() == n,
        forall|i: int|
            0 <= i < n ==> (#[trigger] round(n as int, callback)[i]) == (i, callback),
        forall|i: int, j: int|
            0 <= i < j < n ==> round(n as int, callback)[i].0 < round(n as int, callback)[j].0,
{
}

/// `k` rounds of `callback` over `n` layers, one after the other.
pub open spec fn rounds(k: nat, n: int, callback: LayerCallback) -> Seq<Dispatch>
    decreases k,
{
    if k == 0 {
        Seq::empty()
    } else {
        rounds((k - 1) as nat, n, callback) + round(n, callback)
    }
}

/// The layers of the application, in the order they were pushed.
///
/// Every callback goes to the layers in push order. The ghost history
/// records each delivery as it happens, so that contracts can say which
/// layers were called, how often and in what order.
pub struct LayerStack<L> {
    stack: Vec<L>,
    history: Ghost<Seq<Dispatch>>,
}

impl<L: Layer> LayerStack<L> {
    /// The layers, bottom (first pushed) first.
    pub closed spec fn layers(&self) -> Seq<L> {
        self.stack@
    }

    /// Every callback delivered so far, oldest first.
    pub closed spec fn history(&self) -> Seq<Dispatch> {
        self.history@
    }

    pub fn new() -> (r: LayerStack<L>)
        ensures
            r.layers() == Seq::<L>::empty(),
            r.history() == Seq::<Dispatch>::empty(),
    {
        LayerStack { stack: Vec::new(), history: Ghost(Seq::empty()) }
    }

    pub fn len(&self) -> (r: usize)
        ensures
            r == self.layers().len(),
    {
        self.stack.len()
    }

    pub fn get(&self, i: usize) -> (r: &L)
        requires
            i < self.layers().len(),
        ensures
            *r == self.layers()[i as int],
    {
        &self.stack[i]
    }

    /// Puts `layer` on top of the stack.
    pub fn push(&mut self, layer: L)
        ensures
            final(self).layers() == old(self).layers().push(layer),
            final(self).history() == old(self).history(),
    {
        self.stack.push(layer);
    }

    /// Takes the top layer off the stack and hands it back.
    pub fn pop(&mut self) -> (r: Option<L>)
        ensures
            old(self).layers().len() == 0 ==> r is None && final(self).layers() == old(
                self,
            ).layers(),
            old(self).layers().len() > 0 ==> r == Some(old(self).layers().last())
                && final(self).layers() == old(self).layers().drop_last(),
            final(self).history() == old(self).history(),
    {
        self.stack.pop()
    }

    /// Removes every layer.
    pub fn clear(&mut self)
        ensures
            final(self).layers() == Seq::<L>::empty(),
            final(self).history() == old(self).history(),
    {
        self.stack.clear();
    }

    /// Delivers `callback` to every layer once, in push order.
    fn dispatch(&mut self, callback: LayerCallback)
        requires
            !(callback is Render),
        ensures
            final(self).layers().len() == old(self).layers().len(),
            final(self).history() == old(self).history() + round(
                old(self).layers().len() as int,
                callback,
            ),
    {
        let n = self.stack.len();
        let mut i: usize = 0;
        while i < n
            invariant
                n == self.stack.len(),
                n == old(self).layers().len(),
                i <= n,
                self.history@ == old(self).history() + round(i as int, callback),
            decreases n - i,
        {
            let layer = &mut self.stack[i];
            match callback {
                LayerCallback::Ready => layer.on_ready(),
                LayerCallback::Update(delta) => layer.on_update(&delta),
                LayerCallback::PhysicsUpdate(delta) => layer.on_physics_update(&delta),
                LayerCallback::Event(event) => layer.on_event(&event),
                LayerCallback::Close => layer.on_close(),
                LayerCallback::Render => {},
            }
            proof {
                assert(round(i as int + 1, callback) =~= round(i as int, callback).push(
                    (i as int, callback),
                ));
            }
            self.history = Ghost(self.history@.push((i as int, callback)));
            i += 1;
        }
    }

    /// Calls every layer's `on_ready`, in push order.
    pub fn ready_all(&mut self)
        ensures
            final(self).layers().len() == old(self).layers().len(),
            final(self).history() == old(self).history() + round(
                old(self).layers().len() as int,
                LayerCallback::Ready,
            ),
    {
        self.dispatch(LayerCallback::Ready);
    }

    /// Calls every layer's `on_update` with `delta`, in push order.
    pub fn update_all(&mut self, delta: DeltaTime)
        ensures
            final(self).layers().len() == old(self).layers().len(),
            final(self).history() == old(self).history() + round(
                old(self).layers().len() as int,
                LayerCallback::Update(delta),
            ),
    {
        self.dispatch(LayerCallback::Update(delta));
    }

    /// Calls every layer's `on_physics_update` with `delta`, in push order.
    pub fn physics_update_all(&mut self, delta: DeltaTime)
        ensures
            final(self).layers().len() == old(self).layers().len(),
            final(self).history() == old(self).history() + round(
                old(self).layers().len() as int,
                LayerCallback::PhysicsUpdate(delta),
            ),
    {
        self.dispatch(LayerCallback::PhysicsUpdate(delta));
    }

    /// Calls every layer's `on_event` with `event`, in push order.
    pub fn event_all(&mut self, event: WindowEvent)
        ensures
            final(self).layers().len() == old(self).layers().len(),
            final(self).history() == old(self).history() + round(
                old(self).layers().len() as int,
                LayerCallback::Event(event),
            ),
    {
        self.dispatch(LayerCallback::Event(event));
    }

    /// Calls every layer's `on_close`, in push order.
    pub fn close_all(&mut self)
        ensures
            final(self).layers().len() == old(self).layers().len(),
            final(self).history() == old(self).history() + round(
                old(self).layers().len() as int,
                LayerCallback::Close,
            ),
    {
        self.dispatch(LayerCallback::Close);
    }

    /// Calls every layer's `on_render` on the open scope of `renderer`, in
    /// push order; the scope is still open afterwards.
    pub fn render_all(&mut self, renderer: &mut Renderer)
        requires
            old(renderer).scope() is Some,
        ensures
            final(self).layers().len() == old(self).layers().len(),
            final(self).history() == old(self).history() + round(
                old(self).layers().len() as int,
                LayerCallback::Render,
            ),
            final(renderer).scope() == old(renderer).scope(),
            final(renderer).viewport_spec() == old(renderer).viewport_spec(),
            old(renderer).recorded().is_prefix_of(final(renderer).recorded()),
    {
        let n = self.stack.len();
        let mut i: usize = 0;
        while i < n
            invariant
                n == self.stack.len(),
                n == old(self).layers().len(),
                i <= n,
                self.history@ == old(self).history() + round(i as int, LayerCallback::Render),
                old(renderer).scope() is Some,
                old(renderer).recorded().is_prefix_of(renderer.recorded()),
                renderer.scope() == old(renderer).scope(),
                renderer.viewport_spec() == old(renderer).viewport_spec(),
            decreases n - i,
        {
            self.stack[i].on_render(renderer);
            proof {
                assert(round(i as int + 1, LayerCallback::Render) =~= round(
                    i as int,
                    LayerCallback::Render,
                ).push((i as int, LayerCallback::Render)));
            }
            self.history = Ghost(self.history@.push((i as int, LayerCallback::Render)));
            i += 1;
        }
    }
}

} // verus!
