//! One screen: an ordered stack of full-area view layers.
//!
//! Layers are drawn bottom to top, so later layers occlude earlier ones;
//! only the topmost layer receives input; identity lookup searches from the
//! top down.

use vstd::prelude::*;

use crate::event::{Event, EventResult};
use crate::printer::{Frame, Printer};
use crate::view::{spec_widget_draw, spec_widget_on_event, Widget, WidgetModel};
use crate::xy::Vec2;

verus! {

/// A query locating a view in the tree.
pub enum Selector<'a> {
    /// Locate the view registered under this name.
    Id(&'a str),
}

/// One layer of a screen: a view, optionally registered under a name.
#[derive(Clone, Debug, PartialEq, Eq)]
pub struct Layer {
    /// The name lookup finds this layer under, if any.
    pub id: Option<String>,
    /// The view occupying the layer.
    pub widget: Widget,
}

/// The mathematical value of a layer.
#[verifier::ext_equal]
pub struct LayerModel {
    /// The registered name, if any.
    pub id: Option<Seq<char>>,
    /// The modelled view.
    pub widget: WidgetModel,
}

impl Layer {
    /// The mathematical value of this layer.
    pub open spec fn model(self) -> LayerModel {
        LayerModel {
            id: match self.id {
                Some(s) => Some(s@),
                None => None,
            },
            widget: self.widget.model(),
        }
    }

    /// An anonymous layer.
    pub fn new(widget: Widget) -> (r: Layer)
        ensures
            r.model() == (LayerModel { id: None, widget: widget.model() }),
    {
        Layer { id: None, widget }
    }

    /// A layer registered under a name for later lookup.
    pub fn named(id: &str, widget: Widget) -> (r: Layer)
        ensures
            r.model() == (LayerModel { id: Some(id@), widget: widget.model() }),
    {
        Layer { id: Some(id.to_owned()), widget }
    }

    /// Lays the layer's view out against the full screen size.
    pub fn layout(&mut self, size: Vec2)
        ensures
            final(self).model() == (LayerModel {
                id: old(self).model().id,
                widget: old(self).model().widget.with_size(size),
            }),
    {
        self.widget.layout(size);
    }
}

/// Hands out a mutable reference to one element of a vector.
pub(crate) fn vec_mut<T>(v: &mut Vec<T>, i: usize) -> (r: &mut T)
    requires
        i < old(v).len(),
    ensures
        *r == old(v)@[i as int],
        final(v)@ == old(v)@.update(i as int, *final(r)),
{
    &mut v[i]
}

/// The index of the topmost layer among the first `n` whose name is `id`.
pub open spec fn spec_find_from(ms: Seq<LayerModel>, id: Seq<char>, n: int) -> Option<int>
    decreases n,
{
    if n <= 0 {
        None
    } else if ms[n - 1].id == Some(id) {
        Some(n - 1)
    } else {
        spec_find_from(ms, id, n - 1)
    }
}

/// The index of the topmost layer whose name is `id`.
pub open spec fn spec_find(ms: Seq<LayerModel>, id: Seq<char>) -> Option<int> {
    spec_find_from(ms, id, ms.len() as int)
}

/// The grid after the first `n` layers paint themselves, bottom first, so a
/// later layer occludes an earlier one wherever both write.
pub open spec fn spec_draw_prefix(
    ms: Seq<LayerModel>,
    n: int,
    p: Printer,
    grid: Seq<Seq<char>>,
    fsize: Vec2,
) -> Seq<Seq<char>>
    decreases n,
{
    if n <= 0 {
        grid
    } else {
        spec_widget_draw(ms[n - 1].widget, p, spec_draw_prefix(ms, n - 1, p, grid, fsize), fsize)
    }
}

/// The grid after a whole stack paints itself.
pub open spec fn spec_draw_stack(
    ms: Seq<LayerModel>,
    p: Printer,
    grid: Seq<Seq<char>>,
    fsize: Vec2,
) -> Seq<Seq<char>> {
    spec_draw_prefix(ms, ms.len() as int, p, grid, fsize)
}

/// Two stacks that agree on their first `n` layers paint those layers the
/// same way.
proof fn lemma_draw_prefix_same(
    a: Seq<LayerModel>,
    b: Seq<LayerModel>,
    n: int,
    p: Printer,
    grid: Seq<Seq<char>>,
    fsize: Vec2,
)
    requires
        forall|j: int| 0 <= j < n ==> a[j] == b[j],
    ensures
        spec_draw_prefix(a, n, p, grid, fsize) == spec_draw_prefix(b, n, p, grid, fsize),
    decreases n,
{
    if n > 0 {
        lemma_draw_prefix_same(a, b, n - 1, p, grid, fsize);
    }
}

/// Pushing a layer and drawing paints the new layer last: it occludes
/// everything the previous stack painted, which keeps its own order below.
pub proof fn lemma_draw_after_push(
    ms: Seq<LayerModel>,
    l: LayerModel,
    p: Printer,
    grid: Seq<Seq<char>>,
    fsize: Vec2,
)
    ensures
        spec_draw_stack(ms.push(l), p, grid, fsize) == spec_widget_draw(
            l.widget,
            p,
            spec_draw_stack(ms, p, grid, fsize),
            fsize,
        ),
{
    let n = ms.len() as int;
    lemma_draw_prefix_same(ms.push(l), ms, n, p, grid, fsize);
    assert(ms.push(l)[n] == l);
}

/// Popping the top layer and drawing paints exactly the remaining stack,
/// in its unchanged bottom-to-top order.
pub proof fn lemma_draw_after_pop(
    ms: Seq<LayerModel>,
    p: Printer,
    grid: Seq<Seq<char>>,
    fsize: Vec2,
)
    requires
        ms.len() > 0,
    ensures
        spec_draw_stack(ms.drop_last(), p, grid, fsize) == spec_draw_prefix(
            ms,
            ms.len() - 1,
            p,
            grid,
            fsize,
        ),
{
    lemma_draw_prefix_same(ms.drop_last(), ms, ms.len() - 1, p, grid, fsize);
}

/// The result a stack gives an event: the topmost layer alone is offered
/// it; an empty stack ignores everything.
pub open spec fn spec_stack_on_event(ms: Seq<LayerModel>, e: Event) -> EventResult {
    if ms.len() == 0 {
        EventResult::Ignored
    } else {
        spec_widget_on_event(ms.last().widget, e)
    }
}

/// An ordered stack of full-area view layers.
#[derive(Clone, Debug, PartialEq, Eq)]
pub struct StackView {
    layers: Vec<Layer>,
}

impl StackView {
    /// The mathematical value of this stack: its layers, bottom first.
    pub closed spec fn model(self) -> Seq<LayerModel> {
        self.layers@.map_values(|l: Layer| l.model())
    }

    /// An empty stack.
    pub fn new() -> (r: StackView)
        ensures
            r.model() == Seq::<LayerModel>::empty(),
    {
        let r = StackView { layers: Vec::new() };
        proof {
            assert(r.model() =~= Seq::<LayerModel>::empty());
        }
        r
    }

    /// How many layers the stack holds.
    pub fn len(&self) -> (r: usize)
        ensures
            r == self.model().len(),
    {
        self.layers.len()
    }

    /// Appends a new top layer; it immediately becomes the event target.
    pub fn add_layer(&mut self, layer: Layer)
        ensures
            final(self).model() == old(self).model().push(layer.model()),
    {
        let ghost m = layer.model();
        self.layers.push(layer);
        proof {
            assert(self.model() =~= old(self).model().push(m));
        }
    }

    /// Removes and returns the top layer; an empty stack is left unchanged.
    pub fn pop_layer(&mut self) -> (r: Option<Layer>)
        ensures
            old(self).model().len() == 0 ==> final(self).model() == old(self).model() && r
                is None,
            old(self).model().len() > 0 ==> final(self).model() == old(self).model().drop_last()
                && (match r {
                Some(l) => l.model() == old(self).model().last(),
                None => false,
            }),
    {
        let r = self.layers.pop();
        proof {
            if old(self).model().len() > 0 {
                assert(self.model() =~= old(self).model().drop_last());
            } else {
                assert(self.model() =~= old(self).model());
            }
        }
        r
    }

    /// Lays every layer out against the full screen size: layers are
    /// full-screen overlays by design.
    #[verifier::loop_isolation(false)]
    pub fn layout(&mut self, size: Vec2)
        ensures
            final(self).model().len() == old(self).model().len(),
            forall|k: int|
                0 <= k < old(self).model().len() ==> #[trigger] final(self).model()[k]
                    == (LayerModel {
                    id: old(self).model()[k].id,
                    widget: old(self).model()[k].widget.with_size(size),
                }),
    {
        let n = self.layers.len();
        let mut i: usize = 0;
        while i < n
            invariant
                n == self.layers@.len(),
                i <= n,
                self.model().len() == old(self).model().len(),
                forall|k: int|
                    i <= k < n ==> #[trigger] self.model()[k] == old(self).model()[k],
                forall|k: int|
                    0 <= k < i ==> #[trigger] self.model()[k] == (LayerModel {
                        id: old(self).model()[k].id,
                        widget: old(self).model()[k].widget.with_size(size),
                    }),
            decreases n - i,
        {
            let ghost prev = *self;
            vec_mut(&mut self.layers, i).layout(size);
            proof {
                assert forall|k: int| 0 <= k < n && k != i implies self.model()[k]
                    == prev.model()[k] by {
                    assert(self.layers@[k] == prev.layers@[k]);
                }
                assert(self.model()[i as int] == (LayerModel {
                    id: prev.model()[i as int].id,
                    widget: prev.model()[i as int].widget.with_size(size),
                }));
                assert forall|k: int| i + 1 <= k < n implies self.model()[k] == old(
                    self,
                ).model()[k] by {
                    assert(self.model()[k] == prev.model()[k]);
                }
                assert forall|k: int| 0 <= k < i + 1 implies self.model()[k] == (LayerModel {
                    id: old(self).model()[k].id,
                    widget: old(self).model()[k].widget.with_size(size),
                }) by {
                    if k < i {
                        assert(self.model()[k] == prev.model()[k]);
                    }
                }
            }
            i = i + 1;
        }
    }

    /// Paints the layers bottom to top into the same full-area region, so
    /// each layer occludes the ones below it.
    pub fn draw(&self, p: &Printer, frame: &mut Frame)
        requires
            old(frame).wf(),
            p.wf(),
        ensures
            final(frame).wf(),
            final(frame).size == old(frame).size,
            final(frame).grid() == spec_draw_stack(
                self.model(),
                *p,
                old(frame).grid(),
                old(frame).size,
            ),
    {
        let n = self.layers.len();
        let mut i: usize = 0;
        while i < n
            invariant
                n == self.layers@.len(),
                i <= n,
                frame.wf(),
                frame.size == old(frame).size,
                frame.grid() == spec_draw_prefix(
                    self.model(),
                    i as int,
                    *p,
                    old(frame).grid(),
                    old(frame).size,
                ),
                p.wf(),
            decreases n - i,
        {
            self.layers[i].widget.draw(p, frame);
            i = i + 1;
        }
    }

    /// Offers an event to the topmost layer only; when that layer ignores
    /// it, the stack ignores it — lower layers are never consulted.
    pub fn on_event(&self, event: Event) -> (r: EventResult)
        ensures
            r == spec_stack_on_event(self.model(), event),
    {
        let n = self.layers.len();
        if n == 0 {
            EventResult::Ignored
        } else {
            self.layers[n - 1].widget.on_event(event)
        }
    }

    /// Reads the view of the layer at `i`.
    pub fn widget_at(&self, i: usize) -> (r: &Widget)
        requires
            i < self.model().len(),
        ensures
            r.model() == self.model()[i as int].widget,
    {
        &self.layers[i].widget
    }

    /// Hands out a mutable reference to the view of the layer at `i`.
    pub fn widget_mut(&mut self, i: usize) -> (r: &mut Widget)
        requires
            i < old(self).model().len(),
        ensures
            (*r).model() == old(self).model()[i as int].widget,
            final(self).model().len() == old(self).model().len(),
            final(self).model()[i as int].id == old(self).model()[i as int].id,
            final(self).model()[i as int].widget == (*final(r)).model(),
            forall|k: int|
                0 <= k < old(self).model().len() && k != i ==> #[trigger] final(self).model()[k]
                    == old(self).model()[k],
    {
        let layer = vec_mut(&mut self.layers, i);
        &mut layer.widget
    }

    /// The index of the topmost layer registered under `id`, if any.
    pub fn find_index(&self, id: &str) -> (r: Option<usize>)
        ensures
            (match r {
                Some(j) => j < self.model().len() && spec_find(self.model(), id@) == Some(
                    j as int,
                ),
                None => spec_find(self.model(), id@) is None,
            }),
    {
        let id_o: String = id.to_owned();
        let n = self.layers.len();
        let mut i: usize = n;
        while i > 0
            invariant
                n == self.layers@.len(),
                i <= n,
                id_o@ == id@,
                spec_find(self.model(), id@) == spec_find_from(self.model(), id@, i as int),
            decreases i,
        {
            let matches_here = match &self.layers[i - 1].id {
                Some(s) => *s == id_o,
                None => false,
            };
            if matches_here {
                assert(spec_find(self.model(), id@) == Some(i - 1));
                return Some(i - 1);
            }
            i = i - 1;
        }
        None
    }

    /// Searches the layers top to bottom for one named `id` and hands out a
    /// mutable reference to its view; the topmost match wins.
    pub fn find_mut(&mut self, id: &str) -> (r: Option<&mut Widget>)
        ensures
            spec_find(old(self).model(), id@) is None ==> r is None && *final(self) == *old(self),
            (match spec_find(old(self).model(), id@) {
                Some(j) => r is Some && (*r.unwrap()).model() == old(self).model()[j].widget
                    && final(self).model().len() == old(self).model().len() && final(self).model()[j].id == old(self).model()[j].id && final(self).model()[j].widget == (
                *final(r.unwrap())).model() && (forall|k: int|
                    0 <= k < old(self).model().len() && k != j ==> #[trigger] final(self).model()[k] == old(self).model()[k]),
                None => true,
            }),
    {
        match self.find_index(id) {
            None => None,
            Some(j) => Some(self.widget_mut(j)),
        }
    }
}

} // verus!
