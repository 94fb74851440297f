//! The frame layout: widgets stacked on top of each other.

use vstd::prelude::*;

use crate::chain::{Chain, ChainElement, Link};
use crate::geometry::{BoundingBox, MeasureSpec, MeasuredSize, Position, max_u32};
use crate::input::{InputContext, InputEvent};
use crate::state::WidgetState;
use crate::rendering::{Canvas, WidgetRenderer};
use crate::widgets::layouts::linear::private::{
    cell_offset, lemma_cell_offset_at_least, lemma_cell_offset_monotonic,
    lemma_cell_offset_prefix,
};
use crate::widgets::Widget;

verus! {

/// A stack of widgets.
pub struct FrameLayout<CE> {
    pub widgets: CE,
    pub bounds: BoundingBox,
}

impl<CE: ChainElement> FrameLayout<CE> {
    /// Adds a new widget on top of the previous layers.
    pub fn add_layer<W>(self, inner: W) -> (r: FrameLayout<Link<W, CE>>)
        ensures
            r.widgets.parent == self.widgets,
            r.widgets.object == inner,
            r.bounds == self.bounds,
    {
        FrameLayout { widgets: self.widgets.append(inner), bounds: self.bounds }
    }
}

/// The largest width among the first `n` boxes.
pub open spec fn max_width(bs: Seq<BoundingBox>, n: nat) -> u32
    decreases n,
{
    if n == 0 {
        0
    } else {
        let m = max_width(bs, (n - 1) as nat);
        let w = bs[n - 1].size.width;
        if m >= w {
            m
        } else {
            w
        }
    }
}

/// The largest height among the first `n` boxes.
pub open spec fn max_height(bs: Seq<BoundingBox>, n: nat) -> u32
    decreases n,
{
    if n == 0 {
        0
    } else {
        let m = max_height(bs, (n - 1) as nat);
        let h = bs[n - 1].size.height;
        if m >= h {
            m
        } else {
            h
        }
    }
}

/// The size that covers the first `n` boxes: the largest width and the largest height.
pub open spec fn covering_size(bs: Seq<BoundingBox>, n: nat) -> MeasuredSize {
    MeasuredSize { width: max_width(bs, n), height: max_height(bs, n) }
}

proof fn lemma_covering_prefix(bs: Seq<BoundingBox>, x: BoundingBox, n: nat)
    requires
        n <= bs.len(),
    ensures
        covering_size(bs.push(x), n) == covering_size(bs, n),
    decreases n,
{
    if n > 0 {
        lemma_covering_prefix(bs, x, (n - 1) as nat);
    }
}

/// The covering size is as wide and as high as every box, and as wide as one box and as
/// high as one box.
proof fn lemma_covering_covers(bs: Seq<BoundingBox>, n: nat)
    requires
        n <= bs.len(),
    ensures
        forall|k: int| 0 <= k < n ==> #[trigger] bs[k].size.width <= covering_size(bs, n).width
            && bs[k].size.height <= covering_size(bs, n).height,
        n > 0 ==> exists|k: int| 0 <= k < n && #[trigger] bs[k].size.width == covering_size(bs, n).width,
        n > 0 ==> exists|k: int| 0 <= k < n && #[trigger] bs[k].size.height == covering_size(bs, n).height,
    decreases n,
{
    if n > 0 {
        lemma_covering_covers(bs, (n - 1) as nat);
        let last = n - 1;
        if n > 1 {
            let kw = choose|k: int| 0 <= k < n - 1 && #[trigger] bs[k].size.width == covering_size(bs, (n - 1) as nat).width;
            let kh = choose|k: int| 0 <= k < n - 1 && #[trigger] bs[k].size.height == covering_size(bs, (n - 1) as nat).height;
            assert(bs[kw].size.width == covering_size(bs, n).width || bs[last].size.width == covering_size(bs, n).width);
            assert(bs[kh].size.height == covering_size(bs, n).height || bs[last].size.height == covering_size(bs, n).height);
        } else {
            assert(max_width(bs, 0) == 0 && max_height(bs, 0) == 0);
            assert(bs[last].size.width == covering_size(bs, n).width);
            assert(bs[last].size.height == covering_size(bs, n).height);
        }
    }
}

/// The layers of a frame layout; layer 0 is the bottom one.
pub trait FrameLayoutChainElement: ChainElement {
    /// The bounding boxes of the layers.
    spec fn spec_bounds(&self) -> Seq<BoundingBox>;

    /// The number of descendants of each layer.
    spec fn spec_child_counts() -> Seq<nat>;

    /// The number of widgets in the chain, descendants included.
    spec fn spec_count_widgets() -> nat;

    /// The parent index of the bottom layer.
    spec fn spec_first_parent_index(&self) -> usize;

    /// Whether asking the layers for `event`, bottom to top, may turn the chain into
    /// `after` with the answer `r`, counted over the widgets of the chain.
    spec fn spec_chain_tests_input(&self, event: InputEvent, after: Self, r: Option<usize>) -> bool;

    /// Whether measuring every layer under `spec` may turn the chain into `after`.
    spec fn spec_chain_measures_to(&self, spec: MeasureSpec, after: Self) -> bool;

    /// Whether telling every layer of the state `state` may turn the chain into `after`.
    spec fn spec_chain_state_changes_to(&self, state: WidgetState, after: Self) -> bool;

    /// Whether updating every layer may turn the chain into `after`.
    spec fn spec_chain_updates_to(&self, after: Self) -> bool;

    /// Whether `reset_changed` on every layer may turn the chain into `after`.
    spec fn spec_chain_resets_to(&self, after: Self) -> bool;

    proof fn lemma_shape(&self)
        ensures
            self.spec_bounds().len() == Self::spec_len(),
            Self::spec_child_counts().len() == Self::spec_len(),
            Self::spec_count_widgets() == cell_offset(Self::spec_child_counts(), Self::spec_len()),
            Self::spec_len() >= 1,
    ;

    fn children_at(&self, index: usize) -> (r: usize)
        requires
            index < Self::spec_len(),
            Self::spec_count_widgets() < usize::MAX,
        ensures
            r == Self::spec_child_counts()[index as int],
    ;

    fn attach_at(&mut self, index: usize, parent: usize, child_index: usize)
        requires
            index < Self::spec_len(),
            Self::spec_count_widgets() < usize::MAX,
        ensures
            final(self).spec_bounds() == old(self).spec_bounds(),
            index == 0 ==> final(self).spec_first_parent_index() == parent,
            index != 0 ==> final(self).spec_first_parent_index() == old(self).spec_first_parent_index(),
    ;

    fn test_input(&mut self, event: InputEvent) -> (r: Option<usize>)
        requires
            Self::spec_count_widgets() < usize::MAX,
        ensures
            r matches Some(i) ==> i < Self::spec_count_widgets(),
            old(self).spec_chain_tests_input(event, *final(self), r),
    ;

    fn count_widgets(&self) -> (r: usize)
        requires
            Self::spec_count_widgets() <= usize::MAX,
        ensures
            r == Self::spec_count_widgets(),
    ;

    /// Measures every layer and returns the size that covers them all.
    fn measure(&mut self, spec: MeasureSpec) -> (r: MeasuredSize)
        requires
            Self::spec_count_widgets() < usize::MAX,
        ensures
            final(self).spec_bounds().len() == old(self).spec_bounds().len(),
            forall|k: int|
                0 <= k < old(self).spec_bounds().len() ==> #[trigger] final(self).spec_bounds()[k].position
                    == old(self).spec_bounds()[k].position,
            r == covering_size(final(self).spec_bounds(), Self::spec_len()),
            old(self).spec_chain_measures_to(spec, *final(self)),
    ;

    /// Places every layer at `position`.
    fn arrange(&mut self, position: Position)
        requires
            Self::spec_count_widgets() < usize::MAX,
        ensures
            final(self).spec_bounds().len() == old(self).spec_bounds().len(),
            forall|k: int|
                0 <= k < old(self).spec_bounds().len() ==> #[trigger] final(self).spec_bounds()[k]
                    == (BoundingBox { position, size: old(self).spec_bounds()[k].size }),
    ;

    fn on_state_changed(&mut self, state: WidgetState)
        ensures
            old(self).spec_chain_state_changes_to(state, *final(self)),
    ;

    fn update(&mut self)
        ensures
            old(self).spec_chain_updates_to(*final(self)),
    ;

    fn reset_changed(&mut self)
        ensures
            old(self).spec_chain_resets_to(*final(self)),
    ;

    fn first_parent_index(&self) -> (r: usize)
        ensures
            r == self.spec_first_parent_index(),
    ;
}

impl<W: Widget> FrameLayoutChainElement for Chain<W> {
    open spec fn spec_bounds(&self) -> Seq<BoundingBox> {
        seq![self.object.spec_bounding_box()]
    }

    open spec fn spec_child_counts() -> Seq<nat> {
        seq![W::spec_children()]
    }

    open spec fn spec_count_widgets() -> nat {
        W::spec_children() + 1
    }

    open spec fn spec_first_parent_index(&self) -> usize {
        self.object.spec_parent_index()
    }

    open spec fn spec_chain_tests_input(&self, event: InputEvent, after: Self, r: Option<usize>) -> bool {
        self.object.spec_tests_input(event, after.object, r)
    }

    open spec fn spec_chain_state_changes_to(&self, state: WidgetState, after: Self) -> bool {
        self.object.spec_state_changes_to(state, after.object)
    }

    open spec fn spec_chain_measures_to(&self, spec: MeasureSpec, after: Self) -> bool {
        self.object.spec_measures_to(spec, after.object)
    }

    open spec fn spec_chain_updates_to(&self, after: Self) -> bool {
        self.object.spec_updates_to(after.object)
    }

    open spec fn spec_chain_resets_to(&self, after: Self) -> bool {
        self.object.spec_resets_to(after.object)
    }

    proof fn lemma_shape(&self) {
        assert(cell_offset(Self::spec_child_counts(), 1) == W::spec_children() + 1) by {
            reveal_with_fuel(cell_offset, 2);
        }
    }

    fn children_at(&self, index: usize) -> (r: usize) {
        self.object.children()
    }

    fn attach_at(&mut self, index: usize, parent: usize, child_index: usize) {
        self.object.attach(parent, child_index);
    }

    fn test_input(&mut self, event: InputEvent) -> (r: Option<usize>) {
        self.object.test_input(event)
    }

    fn count_widgets(&self) -> (r: usize) {
        self.object.children() + 1
    }

    fn measure(&mut self, spec: MeasureSpec) -> (r: MeasuredSize) {
        self.object.measure(spec);
        proof {
            reveal_with_fuel(max_width, 2);
            reveal_with_fuel(max_height, 2);
        }
        self.object.bounding_box().size
    }

    fn arrange(&mut self, position: Position) {
        self.object.arrange(position);
    }

    fn on_state_changed(&mut self, state: WidgetState) {
        self.object.on_state_changed(state);
    }

    fn update(&mut self) {
        self.object.update();
    }

    fn reset_changed(&mut self) {
        self.object.reset_changed();
    }

    fn first_parent_index(&self) -> (r: usize) {
        self.object.parent_index()
    }
}

impl<W: Widget, CE: FrameLayoutChainElement> FrameLayoutChainElement for Link<W, CE> {
    open spec fn spec_bounds(&self) -> Seq<BoundingBox> {
        self.parent.spec_bounds().push(self.object.spec_bounding_box())
    }

    open spec fn spec_child_counts() -> Seq<nat> {
        CE::spec_child_counts().push(W::spec_children())
    }

    open spec fn spec_count_widgets() -> nat {
        W::spec_children() + 1 + CE::spec_count_widgets()
    }

    open spec fn spec_first_parent_index(&self) -> usize {
        self.parent.spec_first_parent_index()
    }

    open spec fn spec_chain_tests_input(&self, event: InputEvent, after: Self, r: Option<usize>) -> bool {
        exists|pr: Option<usize>|
            #![trigger self.parent.spec_chain_tests_input(event, after.parent, pr)]
            self.parent.spec_chain_tests_input(event, after.parent, pr) && match pr {
                Some(_) => r == pr && after.object == self.object,
                None => match r {
                    Some(i) => i >= CE::spec_count_widgets() && self.object.spec_tests_input(
                        event,
                        after.object,
                        Some((i - CE::spec_count_widgets()) as usize),
                    ),
                    None => self.object.spec_tests_input(event, after.object, None),
                },
            }
    }

    open spec fn spec_chain_state_changes_to(&self, state: WidgetState, after: Self) -> bool {
        self.object.spec_state_changes_to(state, after.object) && self.parent.spec_chain_state_changes_to(state, after.parent)
    }

    open spec fn spec_chain_measures_to(&self, spec: MeasureSpec, after: Self) -> bool {
        self.object.spec_measures_to(spec, after.object) && self.parent.spec_chain_measures_to(spec, after.parent)
    }

    open spec fn spec_chain_updates_to(&self, after: Self) -> bool {
        self.object.spec_updates_to(after.object) && self.parent.spec_chain_updates_to(after.parent)
    }

    open spec fn spec_chain_resets_to(&self, after: Self) -> bool {
        self.object.spec_resets_to(after.object) && self.parent.spec_chain_resets_to(after.parent)
    }

    proof fn lemma_shape(&self) {
        self.parent.lemma_shape();
        CE::lemma_len_positive();
        lemma_cell_offset_prefix(CE::spec_child_counts(), W::spec_children(), CE::spec_len());
    }

    fn children_at(&self, index: usize) -> (r: usize) {
        proof {
            self.lemma_shape();
            self.parent.lemma_shape();
            lemma_cell_offset_at_least(Self::spec_child_counts(), Self::spec_len());
        }
        if index == self.len() - 1 {
            return self.object.children();
        }
        self.parent.children_at(index)
    }

    fn attach_at(&mut self, index: usize, parent: usize, child_index: usize) {
        proof {
            self.lemma_shape();
            self.parent.lemma_shape();
            lemma_cell_offset_at_least(Self::spec_child_counts(), Self::spec_len());
        }
        if index == self.len() - 1 {
            self.object.attach(parent, child_index);
        } else {
            self.parent.attach_at(index, parent, child_index);
        }
    }

    fn test_input(&mut self, event: InputEvent) -> (r: Option<usize>) {
        let pr = self.parent.test_input(event);
        let ghost after_parent = self.parent;
        let r = match pr {
            Some(idx) => Some(idx),
            None => match self.object.test_input(event) {
                Some(idx) => Some(idx + self.parent.count_widgets()),
                None => None,
            },
        };
        assert(old(self).parent.spec_chain_tests_input(event, after_parent, pr));
        assert(self.parent == after_parent);
        match pr {
            Some(_) => {
                assert(self.object == old(self).object);
            },
            None => {
                match r {
                    Some(i) => {
                        assert(old(self).object.spec_tests_input(event, self.object, Some((i - CE::spec_count_widgets()) as usize)));
                    },
                    None => {
                        assert(old(self).object.spec_tests_input(event, self.object, None));
                    },
                }
            },
        }
        r
    }

    fn count_widgets(&self) -> (r: usize) {
        self.object.children() + 1 + self.parent.count_widgets()
    }

    fn measure(&mut self, spec: MeasureSpec) -> (r: MeasuredSize) {
        proof {
            self.parent.lemma_shape();
        }
        let inner_size = self.parent.measure(spec);
        self.object.measure(spec);
        let size = self.object.bounding_box().size;
        proof {
            self.parent.lemma_shape();
            lemma_covering_prefix(self.parent.spec_bounds(), self.object.spec_bounding_box(), CE::spec_len());
            assert(self.spec_bounds().len() == CE::spec_len() + 1);
        }
        MeasuredSize {
            width: max_u32(inner_size.width, size.width),
            height: max_u32(inner_size.height, size.height),
        }
    }

    fn arrange(&mut self, position: Position) {
        proof {
            self.parent.lemma_shape();
        }
        self.parent.arrange(position);
        self.object.arrange(position);
        proof {
            self.parent.lemma_shape();
            assert forall|k: int| 0 <= k < old(self).spec_bounds().len() implies #[trigger] self.spec_bounds()[k]
                == (BoundingBox { position, size: old(self).spec_bounds()[k].size }) by {
                if k < CE::spec_len() {
                    assert(self.spec_bounds()[k] == self.parent.spec_bounds()[k]);
                }
            }
        }
    }

    fn on_state_changed(&mut self, state: WidgetState) {
        self.object.on_state_changed(state);
        self.parent.on_state_changed(state);
    }

    fn update(&mut self) {
        self.object.update();
        self.parent.update();
    }

    fn reset_changed(&mut self) {
        self.object.reset_changed();
        self.parent.reset_changed();
    }

    fn first_parent_index(&self) -> (r: usize) {
        self.parent.first_parent_index()
    }
}

impl<CE: FrameLayoutChainElement> FrameLayout<CE> {
    /// Finds the layer that holds the descendant `idx` of the layout: `Some((layer, j))`
    /// where `j` is 0 for the layer's widget itself and `j > 0` for its `j`-th
    /// descendant; `None` if the layout has fewer descendants.
    pub fn locate(&self, idx: usize) -> (r: Option<(usize, usize)>)
        requires
            CE::spec_count_widgets() < usize::MAX,
        ensures
            r is None <==> idx >= CE::spec_count_widgets(),
            r matches Some((layer, j)) ==> {
                &&& layer < CE::spec_len()
                &&& j <= CE::spec_child_counts()[layer as int]
                &&& cell_offset(CE::spec_child_counts(), layer as nat) + j == idx
            },
    {
        proof {
            self.widgets.lemma_shape();
            lemma_cell_offset_at_least(CE::spec_child_counts(), CE::spec_len());
        }
        let ghost counts = CE::spec_child_counts();
        let children = self.widgets.len();
        let mut rest = idx;
        let mut i: usize = 0;
        while i < children
            invariant
                CE::spec_count_widgets() < usize::MAX,
                counts == CE::spec_child_counts(),
                counts.len() == children,
                children == CE::spec_len(),
                CE::spec_count_widgets() == cell_offset(counts, children as nat),
                i <= children,
                idx >= cell_offset(counts, i as nat),
                rest == idx - cell_offset(counts, i as nat),
            decreases children - i,
        {
            let grandchildren = self.widgets.children_at(i);
            if rest <= grandchildren {
                proof {
                    lemma_cell_offset_monotonic(counts, (i + 1) as nat, children as nat);
                }
                return Some((i, rest));
            }
            rest = rest - (grandchildren + 1);
            i = i + 1;
        }
        None
    }
}

impl<CE: FrameLayoutChainElement> FrameLayout<CE> {
    /// Law: a measured frame layout covers every layer: it is at least as wide and as high
    /// as each of them, and exactly as wide as its widest layer and as high as its highest.
    pub proof fn law_frame_covers_every_layer(&self, measure_spec: MeasureSpec, after: Self)
        requires
            self.spec_measures_to(measure_spec, after),
        ensures
            forall|k: int| 0 <= k < after.widgets.spec_bounds().len() ==>
                #[trigger] after.widgets.spec_bounds()[k].size.width <= after.bounds.size.width
                    && after.widgets.spec_bounds()[k].size.height <= after.bounds.size.height,
            exists|k: int| 0 <= k < after.widgets.spec_bounds().len()
                && #[trigger] after.widgets.spec_bounds()[k].size.width == after.bounds.size.width,
            exists|k: int| 0 <= k < after.widgets.spec_bounds().len()
                && #[trigger] after.widgets.spec_bounds()[k].size.height == after.bounds.size.height,
    {
        after.widgets.lemma_shape();
        lemma_covering_covers(after.widgets.spec_bounds(), CE::spec_len());
    }
}

impl<CE: FrameLayoutChainElement> Widget for FrameLayout<CE> {
    open spec fn spec_bounding_box(&self) -> BoundingBox {
        self.bounds
    }

    open spec fn spec_children() -> nat {
        CE::spec_count_widgets()
    }

    open spec fn spec_parent_index(&self) -> usize {
        self.widgets.spec_first_parent_index()
    }

    open spec fn spec_is_selectable(&self) -> bool {
        false
    }

    open spec fn spec_measures_to(&self, measure_spec: MeasureSpec, after: Self) -> bool {
        after.bounds.size == covering_size(after.widgets.spec_bounds(), CE::spec_len())
            && self.widgets.spec_chain_measures_to(measure_spec, after.widgets)
            && after == (FrameLayout { bounds: BoundingBox { size: after.bounds.size, ..self.bounds }, widgets: after.widgets })
    }

    open spec fn spec_resizes_to(&self, size: MeasuredSize, after: Self) -> bool {
        after == (FrameLayout { bounds: BoundingBox { size, ..self.bounds }, ..*self })
    }

    open spec fn spec_updates_to(&self, after: Self) -> bool {
        self.widgets.spec_chain_updates_to(after.widgets) && after == (FrameLayout { widgets: after.widgets, ..*self })
    }

    open spec fn spec_resets_to(&self, after: Self) -> bool {
        self.widgets.spec_chain_resets_to(after.widgets) && after == (FrameLayout { widgets: after.widgets, ..*self })
    }

    open spec fn spec_tests_input(&self, event: InputEvent, after: Self, r: Option<usize>) -> bool {
        after == (FrameLayout { widgets: after.widgets, ..*self }) && match r {
            Some(i) => i >= 1 && self.widgets.spec_chain_tests_input(event, after.widgets, Some((i - 1) as usize)),
            None => self.widgets.spec_chain_tests_input(event, after.widgets, None),
        }
    }

    open spec fn spec_handles_input(&self, ctxt: InputContext, event: InputEvent, after: Self, r: bool) -> bool {
        !r && after == *self
    }

    open spec fn spec_state_changes_to(&self, state: WidgetState, after: Self) -> bool {
        self.widgets.spec_chain_state_changes_to(state, after.widgets) && after == (FrameLayout { widgets: after.widgets, ..*self })
    }

    /// Attaches the layers: the bottom one gets `index`, each following one the index
    /// after the previous one's descendants.
    fn attach(&mut self, parent: usize, index: usize) {
        proof {
            self.widgets.lemma_shape();
            lemma_cell_offset_at_least(CE::spec_child_counts(), CE::spec_len());
        }
        let count = self.widgets.len();
        let mut children = index;
        let mut i: usize = 0;
        while i < count
            invariant
                CE::spec_count_widgets() < usize::MAX,
                count == CE::spec_len(),
                i <= count,
                i > 0 ==> self.widgets.spec_first_parent_index() == parent,
                self.bounds == old(self).bounds,
            decreases count - i,
        {
            self.widgets.attach_at(i, parent, children.wrapping_add(i));
            children = children.wrapping_add(self.widgets.children_at(i));
            i = i + 1;
        }
    }

    fn bounding_box(&self) -> (r: BoundingBox) {
        self.bounds
    }

    fn children(&self) -> (r: usize) {
        self.widgets.count_widgets()
    }

    /// The layout is as large as its largest layer in each direction.
    fn measure(&mut self, measure_spec: MeasureSpec)
        ensures
            final(self).bounds.size == covering_size(final(self).widgets.spec_bounds(), CE::spec_len()),
            old(self).widgets.spec_chain_measures_to(measure_spec, final(self).widgets),
            final(self).bounds.position == old(self).bounds.position,
    {
        self.bounds.size = self.widgets.measure(measure_spec);
    }

    /// Places the layout and every layer at `position`.
    fn arrange(&mut self, position: Position)
        ensures
            final(self).widgets.spec_bounds().len() == old(self).widgets.spec_bounds().len(),
            forall|k: int|
                0 <= k < old(self).widgets.spec_bounds().len() ==> #[trigger] final(self).widgets.spec_bounds()[k]
                    == (BoundingBox { position, size: old(self).widgets.spec_bounds()[k].size }),
    {
        self.bounds.position = position;
        self.widgets.arrange(position);
    }

    fn set_measured_size(&mut self, size: MeasuredSize)
        ensures
            final(self).bounds == (BoundingBox { size, ..old(self).bounds }),
    {
        self.bounds.size = size;
    }

    fn update(&mut self) {
        self.widgets.update();
    }

    fn reset_changed(&mut self) {
        self.widgets.reset_changed();
    }

    /// The parent index of the bottom layer.
    fn parent_index(&self) -> (r: usize) {
        self.widgets.first_parent_index()
    }

    fn set_parent(&mut self, index: usize) {
    }

    fn test_input(&mut self, event: InputEvent) -> (r: Option<usize>) {
        match self.widgets.test_input(event) {
            Some(idx) => Some(idx + 1),
            None => None,
        }
    }

    /// A layout handles no input itself.
    fn handle_input(&mut self, ctxt: InputContext, event: InputEvent) -> (r: bool)
        ensures
            !r,
            *final(self) == *old(self),
    {
        false
    }

    fn on_state_changed(&mut self, state: WidgetState) {
        self.widgets.on_state_changed(state);
    }

    fn is_selectable(&self) -> (r: bool) {
        false
    }
}

impl<C, W> WidgetRenderer<C> for Chain<W> where W: Widget + WidgetRenderer<C>, C: Canvas {
    open spec fn spec_draws(&self, canvas: C, after: Self, canvas_after: C, r: Result<(), C::Error>) -> bool {
        self.object.spec_draws(canvas, after.object, canvas_after, r) && after == (Chain { object: after.object })
    }

    fn draw(&mut self, canvas: &mut C) -> (r: Result<(), C::Error>) {
        self.object.draw(canvas)
    }
}

impl<C, W, CE> WidgetRenderer<C> for Link<W, CE> where
    W: Widget + WidgetRenderer<C>,
    CE: FrameLayoutChainElement + WidgetRenderer<C>,
    C: Canvas,
 {
    open spec fn spec_draws(&self, canvas: C, after: Self, canvas_after: C, r: Result<(), C::Error>) -> bool {
        exists|mid_canvas: C, pr: Result<(), C::Error>|
            #![trigger self.parent.spec_draws(canvas, after.parent, mid_canvas, pr)]
            self.parent.spec_draws(canvas, after.parent, mid_canvas, pr) && match pr {
                Ok(_) => self.object.spec_draws(mid_canvas, after.object, canvas_after, r),
                Err(e) => r == pr && after.object == self.object && canvas_after == mid_canvas,
            }
    }

    /// Draws the lower layers, then this one on top; a failure stops the drawing.
    fn draw(&mut self, canvas: &mut C) -> (r: Result<(), C::Error>) {
        let pr = self.parent.draw(canvas);
        let ghost gpr = pr;
        let ghost mid_canvas = *canvas;
        let ghost after_parent = self.parent;
        let r = match pr {
            Ok(_) => self.object.draw(canvas),
            Err(e) => Err(e),
        };
        proof {
            assert(old(self).parent.spec_draws(*old(canvas), after_parent, mid_canvas, gpr));
            assert(self.parent == after_parent);
            match gpr {
                Ok(_) => {
                    assert(old(self).object.spec_draws(mid_canvas, self.object, *canvas, r));
                },
                Err(_) => {
                    assert(self.object == old(self).object && *canvas == mid_canvas && r == gpr);
                },
            }
        }
        r
    }
}

impl<C, CE> WidgetRenderer<C> for FrameLayout<CE> where
    CE: FrameLayoutChainElement + WidgetRenderer<C>,
    C: Canvas,
 {
    open spec fn spec_draws(&self, canvas: C, after: Self, canvas_after: C, r: Result<(), C::Error>) -> bool {
        self.widgets.spec_draws(canvas, after.widgets, canvas_after, r) && after == (FrameLayout { widgets: after.widgets, ..*self })
    }

    /// Draws the layers, bottom to top.
    fn draw(&mut self, canvas: &mut C) -> (r: Result<(), C::Error>)
        ensures
            final(self).bounds == old(self).bounds,
    {
        self.widgets.draw(canvas)
    }
}

} // verus!
