//! The view tree: a view owns an ordered sequence of component nodes —
//! widgets, nested views and decorations — in z-order, and is laid out as a
//! vertical stack, a horizontal stack or an overlay.
//!
//! Every view operation is specified against a mathematical model of the
//! tree ([`ViewModel`]), in which the children form a sequence.

use vstd::prelude::*;
use crate::color::Color;
use crate::geometry::{Alignment, Padding, Rect};
use crate::views::divider::Decoration;
use crate::widgets::widget::Widget;

verus! {

/// The container variants.
#[derive(Clone, Copy, PartialEq, Eq, Structural, Debug)]
pub enum ViewKind {
    VStack,
    HStack,
    Overlay,
}

/// One node of the component tree.
pub enum ViewComponent {
    Widget(Widget),
    View(Box<ViewNode>),
    Decoration(Decoration),
}

/// A container view. Its `kind` decides the stacking axis; `x`/`y` is its
/// own draw origin, and `view_width`/`view_height` its effective size —
/// assigned through a builder, or computed from its children during layout.
pub struct ViewNode {
    pub kind: ViewKind,
    /// The children, in declaration order: that order is both the layout
    /// order and the z-order used for hit testing and painting.
    pub components: Vec<ViewComponent>,
    pub padding: Padding,
    /// The gap between consecutive children along the stacking axis.
    pub spacing: u32,
    pub alignment: Alignment,
    /// The translucent backdrop color an overlay is dimmed with.
    pub overlay_color: Color,
    pub x: i32,
    pub y: i32,
    pub view_width: u32,
    pub view_height: u32,
    pub assigned_width: bool,
    pub assigned_height: bool,
}

/// The model of a component node.
pub enum ComponentModel {
    Widget(Widget),
    View(ViewModel),
    Decoration(Decoration),
}

/// The model of a view: the same data, with the children as a sequence.
pub struct ViewModel {
    pub kind: ViewKind,
    pub children: Seq<ComponentModel>,
    pub padding: Padding,
    pub spacing: u32,
    pub alignment: Alignment,
    pub overlay_color: Color,
    pub x: i32,
    pub y: i32,
    pub view_width: u32,
    pub view_height: u32,
    pub assigned_width: bool,
    pub assigned_height: bool,
}

/// The models of a sequence of exec components.
pub open spec fn models_of(s: Seq<ViewComponent>) -> Seq<ComponentModel>
    decreases s,
{
    if s.len() == 0 {
        Seq::empty()
    } else {
        models_of(s.drop_last()).push(s.last().model())
    }
}

pub proof fn lemma_models_of(s: Seq<ViewComponent>)
    ensures
        models_of(s).len() == s.len(),
        forall|i: int| 0 <= i < s.len() ==> models_of(s)[i] == #[trigger] s[i].model(),
    decreases s,
{
    if s.len() > 0 {
        lemma_models_of(s.drop_last());
        assert forall|i: int| 0 <= i < s.len() implies models_of(s)[i] == #[trigger] s[i].model() by {
            if i < s.len() - 1 {
                assert(s.drop_last()[i] == s[i]);
            }
        }
    }
}

impl ViewComponent {
    pub open spec fn model(self) -> ComponentModel
        decreases self,
    {
        match self {
            ViewComponent::Widget(w) => ComponentModel::Widget(w),
            ViewComponent::View(v) => ComponentModel::View(v.model()),
            ViewComponent::Decoration(d) => ComponentModel::Decoration(d),
        }
    }
}

impl ViewNode {
    pub open spec fn model(self) -> ViewModel
        decreases self,
    {
        ViewModel {
            kind: self.kind,
            children: models_of(self.components@),
            padding: self.padding,
            spacing: self.spacing,
            alignment: self.alignment,
            overlay_color: self.overlay_color,
            x: self.x,
            y: self.y,
            view_width: self.view_width,
            view_height: self.view_height,
            assigned_width: self.assigned_width,
            assigned_height: self.assigned_height,
        }
    }
}

impl ViewModel {
    /// Whether this view stacks its children vertically.
    pub open spec fn vertical(self) -> bool {
        self.kind != ViewKind::HStack
    }
}

impl ComponentModel {
    /// The width this child contributes to its parent's sizing. A nested
    /// view contributes its effective size, so an assigned size
    /// short-circuits the intrinsic one.
    pub open spec fn spec_width(self) -> int {
        match self {
            ComponentModel::Widget(w) => w.spec_draw_width() as int,
            ComponentModel::View(v) => v.view_width as int,
            ComponentModel::Decoration(d) => d.spec_draw_width() as int,
        }
    }

    pub open spec fn spec_height(self) -> int {
        match self {
            ComponentModel::Widget(w) => w.spec_draw_height() as int,
            ComponentModel::View(v) => v.view_height as int,
            ComponentModel::Decoration(d) => d.spec_draw_height() as int,
        }
    }

    /// The child's draw origin.
    pub open spec fn spec_x(self) -> int {
        match self {
            ComponentModel::Widget(w) => w.spec_origin().0,
            ComponentModel::View(v) => v.x as int,
            ComponentModel::Decoration(d) => d.spec_pos().0,
        }
    }

    pub open spec fn spec_y(self) -> int {
        match self {
            ComponentModel::Widget(w) => w.spec_origin().1,
            ComponentModel::View(v) => v.y as int,
            ComponentModel::Decoration(d) => d.spec_pos().1,
        }
    }
}

impl ViewNode {
    /// A vertical stack of `components`, with the default padding, spacing
    /// and centered alignment; it is positioned and sized by `layout_at`.
    pub fn vstack(components: Vec<ViewComponent>) -> (v: ViewNode)
        ensures
            v.model() == (ViewModel {
                kind: ViewKind::VStack,
                children: models_of(components@),
                padding: Padding { left: 10u32, right: 10u32, top: 10u32, bottom: 10u32 },
                spacing: 10u32,
                alignment: Alignment::Center,
                overlay_color: Color { r: 0u8, g: 0u8, b: 0u8, a: 180u8 },
                x: 0i32,
                y: 0i32,
                view_width: 0u32,
                view_height: 0u32,
                assigned_width: false,
                assigned_height: false,
            }),
    {
        ViewNode {
            kind: ViewKind::VStack,
            components,
            padding: Padding::uniform_default(),
            spacing: 10,
            alignment: Alignment::Center,
            overlay_color: Color::rgba(0, 0, 0, 180),
            x: 0,
            y: 0,
            view_width: 0,
            view_height: 0,
            assigned_width: false,
            assigned_height: false,
        }
    }

    /// A horizontal stack of `components`.
    pub fn hstack(components: Vec<ViewComponent>) -> (v: ViewNode)
        ensures
            v.model() == (ViewModel {
                kind: ViewKind::HStack,
                children: models_of(components@),
                padding: Padding { left: 10u32, right: 10u32, top: 10u32, bottom: 10u32 },
                spacing: 10u32,
                alignment: Alignment::Center,
                overlay_color: Color { r: 0u8, g: 0u8, b: 0u8, a: 180u8 },
                x: 0i32,
                y: 0i32,
                view_width: 0u32,
                view_height: 0u32,
                assigned_width: false,
                assigned_height: false,
            }),
    {
        ViewNode {
            kind: ViewKind::HStack,
            components,
            padding: Padding::uniform_default(),
            spacing: 10,
            alignment: Alignment::Center,
            overlay_color: Color::rgba(0, 0, 0, 180),
            x: 0,
            y: 0,
            view_width: 0,
            view_height: 0,
            assigned_width: false,
            assigned_height: false,
        }
    }

    /// An overlay holding `components`, stacked vertically and always
    /// centered; a translucent full-window backdrop is drawn beneath it.
    pub fn overlay(components: Vec<ViewComponent>) -> (v: ViewNode)
        ensures
            v.model() == (ViewModel {
                kind: ViewKind::Overlay,
                children: models_of(components@),
                padding: Padding { left: 10u32, right: 10u32, top: 10u32, bottom: 10u32 },
                spacing: 10u32,
                alignment: Alignment::Center,
                overlay_color: Color { r: 0u8, g: 0u8, b: 0u8, a: 180u8 },
                x: 0i32,
                y: 0i32,
                view_width: 0u32,
                view_height: 0u32,
                assigned_width: false,
                assigned_height: false,
            }),
    {
        ViewNode {
            kind: ViewKind::Overlay,
            components,
            padding: Padding::uniform_default(),
            spacing: 10,
            alignment: Alignment::Center,
            overlay_color: Color::rgba(0, 0, 0, 180),
            x: 0,
            y: 0,
            view_width: 0,
            view_height: 0,
            assigned_width: false,
            assigned_height: false,
        }
    }

    pub fn alignment(self, alignment: Alignment) -> (v: ViewNode)
        ensures
            v == (ViewNode { alignment, ..self }),
    {
        ViewNode { alignment, ..self }
    }

    /// Fix the view's width; sizing the parent then uses this width instead
    /// of the intrinsic one.
    pub fn fixed_width(self, width: u32) -> (v: ViewNode)
        ensures
            v == (ViewNode { view_width: width, assigned_width: true, ..self }),
    {
        ViewNode { view_width: width, assigned_width: true, ..self }
    }

    pub fn fixed_height(self, height: u32) -> (v: ViewNode)
        ensures
            v == (ViewNode { view_height: height, assigned_height: true, ..self }),
    {
        ViewNode { view_height: height, assigned_height: true, ..self }
    }

    pub fn fixed_size(self, width: u32, height: u32) -> (v: ViewNode)
        ensures
            v == (ViewNode {
                view_width: width,
                view_height: height,
                assigned_width: true,
                assigned_height: true,
                ..self
            }),
    {
        ViewNode {
            view_width: width,
            view_height: height,
            assigned_width: true,
            assigned_height: true,
            ..self
        }
    }

    pub fn padding(self, left: u32, right: u32, top: u32, bottom: u32) -> (v: ViewNode)
        ensures
            v == (ViewNode { padding: Padding { left, right, top, bottom }, ..self }),
    {
        ViewNode { padding: Padding { left, right, top, bottom }, ..self }
    }

    /// Change the gap between consecutive children.
    pub fn with_spacing(self, spacing: u32) -> (v: ViewNode)
        ensures
            v == (ViewNode { spacing, ..self }),
    {
        ViewNode { spacing, ..self }
    }

    pub fn with_overlay_color(self, color: Color) -> (v: ViewNode)
        ensures
            v == (ViewNode { overlay_color: color, ..self }),
    {
        ViewNode { overlay_color: color, ..self }
    }

    /// The view's effective size.
    pub fn view_size(&self) -> (s: (u32, u32))
        ensures
            s == (self.view_width, self.view_height),
    {
        (self.view_width, self.view_height)
    }

    /// Attach an overlay on top of this view's components. Overlays never
    /// nest: pushing onto an overlay is a configuration error, left out by
    /// contract.
    pub fn push_overlay(&mut self, ov: ViewNode)
        requires
            old(self).kind != ViewKind::Overlay,
            ov.kind == ViewKind::Overlay,
        ensures
            final(self).model() == (ViewModel {
                children: old(self).model().children.push(ComponentModel::View(ov.model())),
                ..old(self).model()
            }),
    {
        self.components.push(ViewComponent::View(Box::new(ov)));
        proof {
            assert(self.components@.drop_last() =~= old(self).components@);
        }
    }
}

/// The widgets among this view's direct children, in declaration order;
/// nested views keep their own.
pub open spec fn direct_widgets(s: Seq<ComponentModel>) -> Seq<Widget>
    decreases s,
{
    if s.len() == 0 {
        Seq::empty()
    } else {
        direct_widgets(s.drop_last()) + (match s.last() {
            ComponentModel::Widget(w) => seq![w],
            _ => Seq::empty(),
        })
    }
}

impl ViewNode {
    /// The view's own widgets — its direct children only, as the
    /// view-local sizing uses them; event routing flattens the whole
    /// subtree instead.
    pub fn widgets(&self) -> (ws: Vec<&Widget>)
        ensures
            ws@.len() == direct_widgets(self.model().children).len(),
            forall|j: int|
                0 <= j < ws@.len() ==> *(#[trigger] ws@[j]) == direct_widgets(
                    self.model().children,
                )[j],
    {
        let mut ws: Vec<&Widget> = Vec::new();
        let n = self.components.len();
        proof {
            lemma_models_of(self.components@);
            assert(models_of(self.components@).take(0) =~= Seq::<ComponentModel>::empty());
        }
        let mut i: usize = 0;
        while i < n
            invariant
                i <= n,
                n == self.components@.len(),
                ws@.len() == direct_widgets(models_of(self.components@).take(i as int)).len(),
                forall|j: int|
                    0 <= j < ws@.len() ==> *(#[trigger] ws@[j]) == direct_widgets(
                        models_of(self.components@).take(i as int),
                    )[j],
            decreases n - i,
        {
            proof {
                lemma_models_of(self.components@);
                let m = models_of(self.components@);
                assert(m.take(i + 1).drop_last() =~= m.take(i as int));
                assert(m.take(i + 1).last() == m[i as int]);
                assert(m[i as int] == self.components@[i as int].model());
            }
            let ghost pre = ws@;
            match &self.components[i] {
                ViewComponent::Widget(w) => {
                    ws.push(w);
                }
                _ => {}
            }
            proof {
                let m = models_of(self.components@);
                assert(ws@.len() == direct_widgets(m.take(i + 1)).len());
                assert forall|j: int| 0 <= j < ws@.len() implies *(#[trigger] ws@[j])
                    == direct_widgets(m.take(i + 1))[j] by {
                    if j < pre.len() {
                        assert(ws@[j] == pre[j]);
                        assert(*pre[j] == direct_widgets(m.take(i as int))[j]);
                    }
                }
            }
            i = i + 1;
        }
        proof {
            assert(models_of(self.components@).take(n as int) =~= models_of(self.components@));
        }
        ws
    }
}

/// Implemented by the application's state type: build the root view that
/// shows the current state. The frame driver rebuilds the tree through
/// this whenever the state changes.
pub trait GenerateView {
    fn generate_view(&self) -> ViewNode;
}

} // verus!
