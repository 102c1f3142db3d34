//! The layout engine's sizing pass: intrinsic sizes, the placement
//! predicate, and the placement pass itself.
//!
//! A view's children are stacked along its main axis in declaration order:
//! the first child starts one padding in from the origin, and each further
//! child follows the previous one's extent plus the view's spacing. A
//! view's draw size is the bounding box of its children plus its padding.

use vstd::prelude::*;
use crate::geometry::Rect;
use crate::views::divider::Decoration;
use crate::views::view::{
    lemma_models_of, models_of, ComponentModel, ViewComponent, ViewKind, ViewModel, ViewNode,
};
use crate::widgets::widget::Widget;

verus! {

/// The widest child in the sequence; zero when there is none.
pub open spec fn max_child_width(s: Seq<ComponentModel>) -> int
    decreases s,
{
    if s.len() == 0 {
        0
    } else {
        let rest = max_child_width(s.drop_last());
        let last = s.last().spec_width();
        if last > rest {
            last
        } else {
            rest
        }
    }
}

/// The tallest child in the sequence; zero when there is none.
pub open spec fn max_child_height(s: Seq<ComponentModel>) -> int
    decreases s,
{
    if s.len() == 0 {
        0
    } else {
        let rest = max_child_height(s.drop_last());
        let last = s.last().spec_height();
        if last > rest {
            last
        } else {
            rest
        }
    }
}

/// The lowest bottom edge among the children, at least `base`.
pub open spec fn max_bottom(s: Seq<ComponentModel>, base: int) -> int
    decreases s,
{
    if s.len() == 0 {
        base
    } else {
        let rest = max_bottom(s.drop_last(), base);
        let last = s.last().spec_y() + s.last().spec_height();
        if last > rest {
            last
        } else {
            rest
        }
    }
}

/// The rightmost right edge among the children, at least `base`.
pub open spec fn max_right(s: Seq<ComponentModel>, base: int) -> int
    decreases s,
{
    if s.len() == 0 {
        base
    } else {
        let rest = max_right(s.drop_last(), base);
        let last = s.last().spec_x() + s.last().spec_width();
        if last > rest {
            last
        } else {
            rest
        }
    }
}

/// The main-axis span of the children as stacked: each child's extent plus
/// one spacing gap.
pub open spec fn stack_span(s: Seq<ComponentModel>, spacing: int, vertical: bool) -> int
    decreases s,
{
    if s.len() == 0 {
        0
    } else {
        stack_span(s.drop_last(), spacing, vertical) + (if vertical {
            s.last().spec_height()
        } else {
            s.last().spec_width()
        }) + spacing
    }
}

/// The sum of the children's heights.
pub open spec fn sum_heights(s: Seq<ComponentModel>) -> int
    decreases s,
{
    if s.len() == 0 {
        0
    } else {
        sum_heights(s.drop_last()) + s.last().spec_height()
    }
}

/// The sum of the children's widths.
pub open spec fn sum_widths(s: Seq<ComponentModel>) -> int
    decreases s,
{
    if s.len() == 0 {
        0
    } else {
        sum_widths(s.drop_last()) + s.last().spec_width()
    }
}

/// The stacked span is the summed extents plus one spacing per child.
pub proof fn lemma_stack_span_sum(s: Seq<ComponentModel>, spacing: int, vertical: bool)
    ensures
        stack_span(s, spacing, vertical) == (if vertical {
            sum_heights(s)
        } else {
            sum_widths(s)
        }) + s.len() * spacing,
    decreases s,
{
    if s.len() > 0 {
        lemma_stack_span_sum(s.drop_last(), spacing, vertical);
        assert(s.len() * spacing == (s.len() - 1) * spacing + spacing) by (nonlinear_arith);
    }
}

impl ViewModel {
    /// The view's draw width, from its children's current frames plus its
    /// padding. Along the cross axis it is width-based, so alignment does
    /// not change it; along the main axis it is position-based.
    pub open spec fn spec_draw_width(self) -> int {
        if self.vertical() {
            max_child_width(self.children) + self.padding.left + self.padding.right
        } else {
            max_right(self.children, self.x + self.padding.left) - self.x + self.padding.right
        }
    }

    pub open spec fn spec_draw_height(self) -> int {
        if self.vertical() {
            max_bottom(self.children, self.y + self.padding.top) - self.y + self.padding.bottom
        } else {
            max_child_height(self.children) + self.padding.top + self.padding.bottom
        }
    }
}

impl ComponentModel {
    /// The width this child will contribute after layout: its current width
    /// for widgets and decorations, and for a nested view its assigned
    /// width or its intrinsic one.
    pub open spec fn intrinsic_width(self) -> int
        decreases self,
    {
        match self {
            ComponentModel::View(v) => if v.assigned_width {
                v.view_width as int
            } else {
                v.intrinsic_draw_width()
            },
            _ => self.spec_width(),
        }
    }

    pub open spec fn intrinsic_height(self) -> int
        decreases self,
    {
        match self {
            ComponentModel::View(v) => if v.assigned_height {
                v.view_height as int
            } else {
                v.intrinsic_draw_height()
            },
            _ => self.spec_height(),
        }
    }
}

/// The widest intrinsic child width.
pub open spec fn max_intrinsic_width(s: Seq<ComponentModel>) -> int
    decreases s,
{
    if s.len() == 0 {
        0
    } else {
        let rest = max_intrinsic_width(s.drop_last());
        let last = s.last().intrinsic_width();
        if last > rest {
            last
        } else {
            rest
        }
    }
}

/// The tallest intrinsic child height.
pub open spec fn max_intrinsic_height(s: Seq<ComponentModel>) -> int
    decreases s,
{
    if s.len() == 0 {
        0
    } else {
        let rest = max_intrinsic_height(s.drop_last());
        let last = s.last().intrinsic_height();
        if last > rest {
            last
        } else {
            rest
        }
    }
}

/// The main-axis span the children will take once stacked.
pub open spec fn intrinsic_span(s: Seq<ComponentModel>, spacing: int, vertical: bool) -> int
    decreases s,
{
    if s.len() == 0 {
        0
    } else {
        intrinsic_span(s.drop_last(), spacing, vertical) + (if vertical {
            s.last().intrinsic_height()
        } else {
            s.last().intrinsic_width()
        }) + spacing
    }
}

impl ViewModel {
    /// The draw width the view will have once its children are stacked.
    pub open spec fn intrinsic_draw_width(self) -> int
        decreases self,
    {
        if self.vertical() {
            max_intrinsic_width(self.children) + self.padding.left + self.padding.right
        } else {
            (if self.children.len() == 0 {
                0
            } else {
                intrinsic_span(self.children, self.spacing as int, false) - self.spacing
            }) + self.padding.left + self.padding.right
        }
    }

    pub open spec fn intrinsic_draw_height(self) -> int
        decreases self,
    {
        if self.vertical() {
            (if self.children.len() == 0 {
                0
            } else {
                intrinsic_span(self.children, self.spacing as int, true) - self.spacing
            }) + self.padding.top + self.padding.bottom
        } else {
            max_intrinsic_height(self.children) + self.padding.top + self.padding.bottom
        }
    }
}

impl ViewModel {
    /// Every child sits at its standard main-axis position: one padding in
    /// from the view's origin, after the stacked span of its predecessors;
    /// and every nested view is recursively laid out. The cross-axis
    /// positions are free — alignment owns them.
    pub open spec fn children_placed(self) -> bool
        decreases self, 0int,
    {
        forall|i: int|
            0 <= i < self.children.len() ==> {
                let c = #[trigger] self.children[i];
                &&& (if self.vertical() {
                    c.spec_y() == self.y + self.padding.top + stack_span(
                        self.children.take(i),
                        self.spacing as int,
                        true,
                    )
                } else {
                    c.spec_x() == self.x + self.padding.left + stack_span(
                        self.children.take(i),
                        self.spacing as int,
                        false,
                    )
                })
                &&& (c matches ComponentModel::View(v) ==> v.placed())
            }
    }

    /// The view is laid out: its children are placed, and its effective
    /// size is the assigned one where assigned, else the drawn one.
    pub open spec fn placed(self) -> bool
        decreases self, 1int,
    {
        &&& self.children_placed()
        &&& (!self.assigned_width ==> self.view_width == self.spec_draw_width())
        &&& (!self.assigned_height ==> self.view_height == self.spec_draw_height())
    }
}

/// The child `b` is the child `a` with only draw origins changed — and,
/// for a nested view, an effective size recomputed where it was not
/// assigned. This is everything a placement may do to a child.
pub open spec fn moved_c(a: ComponentModel, b: ComponentModel) -> bool
    decreases a, 0int,
{
    match (a, b) {
        (ComponentModel::Widget(wa), ComponentModel::Widget(wb)) => wb == wa.spec_placed(
            wb.spec_origin().0 as i32,
            wb.spec_origin().1 as i32,
        ),
        (ComponentModel::View(va), ComponentModel::View(vb)) => moved_v(va, vb),
        (ComponentModel::Decoration(da), ComponentModel::Decoration(db)) => db == da.spec_placed(
            db.spec_pos().0 as i32,
            db.spec_pos().1 as i32,
        ),
        _ => false,
    }
}

/// The view `b` is the view `a` with only positions changed and effective
/// sizes recomputed where they were not assigned.
pub open spec fn moved_v(a: ViewModel, b: ViewModel) -> bool
    decreases a, 1int,
{
    &&& b.kind == a.kind
    &&& b.padding == a.padding
    &&& b.spacing == a.spacing
    &&& b.alignment == a.alignment
    &&& b.overlay_color == a.overlay_color
    &&& b.assigned_width == a.assigned_width
    &&& b.assigned_height == a.assigned_height
    &&& (a.assigned_width ==> b.view_width == a.view_width)
    &&& (a.assigned_height ==> b.view_height == a.view_height)
    &&& b.children.len() == a.children.len()
    &&& forall|i: int|
        0 <= i < a.children.len() ==> moved_c(#[trigger] a.children[i], #[trigger] b.children[i])
}

/// Placement does not change a widget's draw sizes.
pub proof fn lemma_widget_placed_static(w: Widget, x: i32, y: i32)
    ensures
        w.spec_placed(x, y).spec_draw_width() == w.spec_draw_width(),
        w.spec_placed(x, y).spec_draw_height() == w.spec_draw_height(),
        w.spec_placed(x, y).spec_origin() == (x as int, y as int),
{
}

/// A moved child keeps its intrinsic sizes.
pub proof fn lemma_moved_intrinsic_c(a: ComponentModel, b: ComponentModel)
    requires
        moved_c(a, b),
    ensures
        b.intrinsic_width() == a.intrinsic_width(),
        b.intrinsic_height() == a.intrinsic_height(),
    decreases a, 0int,
{
    match (a, b) {
        (ComponentModel::Widget(wa), ComponentModel::Widget(wb)) => {
            lemma_widget_placed_static(wa, wb.spec_origin().0 as i32, wb.spec_origin().1 as i32);
        },
        (ComponentModel::View(va), ComponentModel::View(vb)) => {
            lemma_moved_intrinsic_v(va, vb);
        },
        _ => {},
    }
}

/// Pointwise moved children keep the aggregate intrinsic sizes.
pub proof fn lemma_moved_intrinsic_seq(sa: Seq<ComponentModel>, sb: Seq<ComponentModel>, spacing: int)
    requires
        sb.len() == sa.len(),
        forall|i: int| 0 <= i < sa.len() ==> moved_c(#[trigger] sa[i], #[trigger] sb[i]),
    ensures
        max_intrinsic_width(sb) == max_intrinsic_width(sa),
        max_intrinsic_height(sb) == max_intrinsic_height(sa),
        intrinsic_span(sb, spacing, true) == intrinsic_span(sa, spacing, true),
        intrinsic_span(sb, spacing, false) == intrinsic_span(sa, spacing, false),
    decreases sa, 1int,
{
    if sa.len() > 0 {
        assert forall|i: int| 0 <= i < sa.len() - 1 implies moved_c(
            #[trigger] sa.drop_last()[i],
            #[trigger] sb.drop_last()[i],
        ) by {
            assert(sa.drop_last()[i] == sa[i] && sb.drop_last()[i] == sb[i]);
            assert(moved_c(sa[i], sb[i]));
        }
        lemma_moved_intrinsic_seq(sa.drop_last(), sb.drop_last(), spacing);
        assert(moved_c(sa.last(), sb.last()));
        lemma_moved_intrinsic_c(sa.last(), sb.last());
    }
}

/// A moved view keeps its intrinsic draw sizes.
pub proof fn lemma_moved_intrinsic_v(a: ViewModel, b: ViewModel)
    requires
        moved_v(a, b),
    ensures
        b.intrinsic_draw_width() == a.intrinsic_draw_width(),
        b.intrinsic_draw_height() == a.intrinsic_draw_height(),
    decreases a, 2int,
{
    lemma_moved_intrinsic_seq(a.children, b.children, a.spacing as int);
}

/// A child whose nested views are placed contributes exactly its intrinsic
/// sizes to its parent.
pub proof fn lemma_placed_c(c: ComponentModel)
    requires
        c matches ComponentModel::View(v) ==> v.placed(),
    ensures
        c.spec_width() == c.intrinsic_width(),
        c.spec_height() == c.intrinsic_height(),
    decreases c, 2int,
{
    match c {
        ComponentModel::View(v) => {
            lemma_placed_v(v);
        },
        _ => {},
    }
}

/// For a sequence of placed children, the current aggregates equal the
/// intrinsic ones.
pub proof fn lemma_placed_seq(s: Seq<ComponentModel>, spacing: int)
    requires
        forall|i: int|
            0 <= i < s.len() ==> (#[trigger] s[i] matches ComponentModel::View(v) ==> v.placed()),
    ensures
        max_child_width(s) == max_intrinsic_width(s),
        max_child_height(s) == max_intrinsic_height(s),
        stack_span(s, spacing, true) == intrinsic_span(s, spacing, true),
        stack_span(s, spacing, false) == intrinsic_span(s, spacing, false),
    decreases s, 3int,
{
    if s.len() > 0 {
        assert forall|i: int|
            0 <= i < s.len() - 1 implies (#[trigger] s.drop_last()[i]
            matches ComponentModel::View(v) ==> v.placed()) by {
            assert(s.drop_last()[i] == s[i]);
        }
        lemma_placed_seq(s.drop_last(), spacing);
        lemma_placed_c(s.last());
    }
}

/// When every child sits at its stacked main-axis position, the farthest
/// edge is the full stacked span past the base.
pub proof fn lemma_max_bottom_stacked(s: Seq<ComponentModel>, y0: int, spacing: int)
    requires
        spacing >= 0,
        forall|i: int|
            0 <= i < s.len() ==> (#[trigger] s[i]).spec_y() == y0 + stack_span(
                s.take(i),
                spacing,
                true,
            ),
    ensures
        max_bottom(s, y0) == y0 + (if s.len() == 0 {
            0
        } else {
            stack_span(s, spacing, true) - spacing
        }),
        stack_span(s, spacing, true) >= (if s.len() == 0 {
            0
        } else {
            spacing
        }),
    decreases s,
{
    if s.len() > 0 {
        assert forall|i: int|
            0 <= i < s.len() - 1 implies (#[trigger] s.drop_last()[i]).spec_y() == y0 + stack_span(
            s.drop_last().take(i),
            spacing,
            true,
        ) by {
            assert(s.drop_last()[i] == s[i]);
            assert(s.drop_last().take(i) =~= s.take(i));
        }
        lemma_max_bottom_stacked(s.drop_last(), y0, spacing);
        assert(s.take(s.len() - 1) =~= s.drop_last());
        assert(s[s.len() - 1] == s.last());
    }
}

/// The horizontal counterpart of [`lemma_max_bottom_stacked`].
pub proof fn lemma_max_right_stacked(s: Seq<ComponentModel>, x0: int, spacing: int)
    requires
        spacing >= 0,
        forall|i: int|
            0 <= i < s.len() ==> (#[trigger] s[i]).spec_x() == x0 + stack_span(
                s.take(i),
                spacing,
                false,
            ),
    ensures
        max_right(s, x0) == x0 + (if s.len() == 0 {
            0
        } else {
            stack_span(s, spacing, false) - spacing
        }),
    decreases s,
{
    if s.len() > 0 {
        assert forall|i: int|
            0 <= i < s.len() - 1 implies (#[trigger] s.drop_last()[i]).spec_x() == x0 + stack_span(
            s.drop_last().take(i),
            spacing,
            false,
        ) by {
            assert(s.drop_last()[i] == s[i]);
            assert(s.drop_last().take(i) =~= s.take(i));
        }
        lemma_max_right_stacked(s.drop_last(), x0, spacing);
        assert(s.take(s.len() - 1) =~= s.drop_last());
        assert(s[s.len() - 1] == s.last());
    }
}

/// A laid-out view draws at exactly its intrinsic size.
pub proof fn lemma_placed_v(v: ViewModel)
    requires
        v.children_placed(),
    ensures
        v.spec_draw_width() == v.intrinsic_draw_width(),
        v.spec_draw_height() == v.intrinsic_draw_height(),
    decreases v, 3int,
{
    assert forall|i: int|
        0 <= i < v.children.len() implies (#[trigger] v.children[i]
        matches ComponentModel::View(sub) ==> sub.placed()) by {
        assert(v.children_placed());
    }
    lemma_placed_seq(v.children, v.spacing as int);
    if v.vertical() {
        lemma_max_bottom_stacked(v.children, v.y + v.padding.top, v.spacing as int);
    } else {
        lemma_max_right_stacked(v.children, v.x + v.padding.left, v.spacing as int);
    }
}

/// What placing this child at `(px, py)` needs: the position representable
/// and the child's own placement requirements met.
pub open spec fn can_place_c(c: ComponentModel, px: int, py: int) -> bool
    decreases c, 1int,
{
    &&& i32::MIN <= px <= i32::MAX
    &&& i32::MIN <= py <= i32::MAX
    &&& (match c {
        ComponentModel::Widget(w) => w.can_place(px, py),
        ComponentModel::View(v) => v.can_layout(px, py),
        ComponentModel::Decoration(d) => d is Divider,
    })
}

/// What stacking the children needs, walking them with the running
/// main-axis offset each will be placed at.
pub open spec fn can_layout_children(
    s: Seq<ComponentModel>,
    cross: int,
    main: int,
    spacing: int,
    vertical: bool,
) -> bool
    decreases s, 2int,
{
    s.len() > 0 ==> {
        let c = s.first();
        &&& can_place_c(
            c,
            if vertical {
                cross
            } else {
                main
            },
            if vertical {
                main
            } else {
                cross
            },
        )
        &&& can_layout_children(
            s.drop_first(),
            cross,
            main + (if vertical {
                c.intrinsic_height()
            } else {
                c.intrinsic_width()
            }) + spacing,
            spacing,
            vertical,
        )
    }
}

impl ViewModel {
    /// What laying the view out at `(x, y)` needs: a representable origin,
    /// computed sizes that fit `u32`, and placeable children all the way
    /// down.
    pub open spec fn can_layout(self, x: int, y: int) -> bool
        decreases self, 3int,
    {
        &&& i32::MIN <= x <= i32::MAX
        &&& i32::MIN <= y <= i32::MAX
        &&& (!self.assigned_width ==> self.intrinsic_draw_width() <= u32::MAX)
        &&& (!self.assigned_height ==> self.intrinsic_draw_height() <= u32::MAX)
        &&& can_layout_children(
            self.children,
            (if self.vertical() {
                x + self.padding.left
            } else {
                y + self.padding.top
            }),
            (if self.vertical() {
                y + self.padding.top
            } else {
                x + self.padding.left
            }),
            self.spacing as int,
            self.vertical(),
        )
    }
}

impl ViewComponent {
    /// The width this child contributes to its parent's sizing.
    pub fn comp_width(&self) -> (w: u32)
        ensures
            w as int == self.model().spec_width(),
    {
        match self {
            ViewComponent::Widget(w) => w.draw_width(),
            ViewComponent::View(v) => v.view_width,
            ViewComponent::Decoration(d) => d.draw_width(),
        }
    }

    pub fn comp_height(&self) -> (h: u32)
        ensures
            h as int == self.model().spec_height(),
    {
        match self {
            ViewComponent::Widget(w) => w.draw_height(),
            ViewComponent::View(v) => v.view_height,
            ViewComponent::Decoration(d) => d.draw_height(),
        }
    }

    /// The child's draw origin.
    pub fn comp_pos(&self) -> (p: (i32, i32))
        ensures
            p.0 as int == self.model().spec_x(),
            p.1 as int == self.model().spec_y(),
    {
        match self {
            ViewComponent::Widget(w) => w.origin(),
            ViewComponent::View(v) => (v.x, v.y),
            ViewComponent::Decoration(d) => d.pos(),
        }
    }
}

impl ViewNode {
    /// The view's draw width: the bounding box of its children's current
    /// frames plus its padding.
    pub fn draw_width(&self) -> (w: u32)
        requires
            self.model().spec_draw_width() <= u32::MAX,
        ensures
            w as int == self.model().spec_draw_width(),
    {
        proof {
            lemma_models_of(self.components@);
        }
        let ghost m_seq = models_of(self.components@);
        let n = self.components.len();
        let vertical = match self.kind {
            ViewKind::HStack => false,
            _ => true,
        };
        if vertical {
            let mut m: u64 = 0;
            let mut i: usize = 0;
            proof {
                assert(m_seq.take(0) =~= Seq::<ComponentModel>::empty());
            }
            while i < n
                invariant
                    i <= n,
                    n == self.components@.len(),
                    m_seq == models_of(self.components@),
                    m as int == max_child_width(m_seq.take(i as int)),
                    m <= u32::MAX,
                decreases n - i,
            {
                proof {
                    lemma_models_of(self.components@);
                    assert(m_seq.take(i + 1).drop_last() =~= m_seq.take(i as int));
                    assert(m_seq.take(i + 1).last() == m_seq[i as int]);
                }
                let cw = self.components[i].comp_width();
                if cw as u64 > m {
                    m = cw as u64;
                }
                i = i + 1;
            }
            proof {
                assert(m_seq.take(n as int) =~= m_seq);
            }
            let total: u64 = m + self.padding.left as u64 + self.padding.right as u64;
            total as u32
        } else {
            let base: i64 = self.x as i64 + self.padding.left as i64;
            let mut m: i64 = base;
            let mut i: usize = 0;
            proof {
                assert(m_seq.take(0) =~= Seq::<ComponentModel>::empty());
            }
            while i < n
                invariant
                    i <= n,
                    n == self.components@.len(),
                    m_seq == models_of(self.components@),
                    base == self.x + self.padding.left,
                    m as int == max_right(m_seq.take(i as int), base as int),
                    base <= m <= 0x2_0000_0000i64,
                decreases n - i,
            {
                proof {
                    lemma_models_of(self.components@);
                    assert(m_seq.take(i + 1).drop_last() =~= m_seq.take(i as int));
                    assert(m_seq.take(i + 1).last() == m_seq[i as int]);
                }
                let (cx, _) = self.components[i].comp_pos();
                let cw = self.components[i].comp_width();
                let r: i64 = cx as i64 + cw as i64;
                if r > m {
                    m = r;
                }
                i = i + 1;
            }
            proof {
                assert(m_seq.take(n as int) =~= m_seq);
            }
            let total: i64 = m - self.x as i64 + self.padding.right as i64;
            total as u32
        }
    }

    /// The view's draw height.
    pub fn draw_height(&self) -> (h: u32)
        requires
            self.model().spec_draw_height() <= u32::MAX,
        ensures
            h as int == self.model().spec_draw_height(),
    {
        proof {
            lemma_models_of(self.components@);
        }
        let ghost m_seq = models_of(self.components@);
        let n = self.components.len();
        let vertical = match self.kind {
            ViewKind::HStack => false,
            _ => true,
        };
        if vertical {
            let base: i64 = self.y as i64 + self.padding.top as i64;
            let mut m: i64 = base;
            let mut i: usize = 0;
            proof {
                assert(m_seq.take(0) =~= Seq::<ComponentModel>::empty());
            }
            while i < n
                invariant
                    i <= n,
                    n == self.components@.len(),
                    m_seq == models_of(self.components@),
                    base == self.y + self.padding.top,
                    m as int == max_bottom(m_seq.take(i as int), base as int),
                    base <= m <= 0x2_0000_0000i64,
                decreases n - i,
            {
                proof {
                    lemma_models_of(self.components@);
                    assert(m_seq.take(i + 1).drop_last() =~= m_seq.take(i as int));
                    assert(m_seq.take(i + 1).last() == m_seq[i as int]);
                }
                let (_, cy) = self.components[i].comp_pos();
                let ch = self.components[i].comp_height();
                let b: i64 = cy as i64 + ch as i64;
                if b > m {
                    m = b;
                }
                i = i + 1;
            }
            proof {
                assert(m_seq.take(n as int) =~= m_seq);
            }
            let total: i64 = m - self.y as i64 + self.padding.bottom as i64;
            total as u32
        } else {
            let mut m: u64 = 0;
            let mut i: usize = 0;
            proof {
                assert(m_seq.take(0) =~= Seq::<ComponentModel>::empty());
            }
            while i < n
                invariant
                    i <= n,
                    n == self.components@.len(),
                    m_seq == models_of(self.components@),
                    m as int == max_child_height(m_seq.take(i as int)),
                    m <= u32::MAX,
                decreases n - i,
            {
                proof {
                    lemma_models_of(self.components@);
                    assert(m_seq.take(i + 1).drop_last() =~= m_seq.take(i as int));
                    assert(m_seq.take(i + 1).last() == m_seq[i as int]);
                }
                let ch = self.components[i].comp_height();
                if ch as u64 > m {
                    m = ch as u64;
                }
                i = i + 1;
            }
            proof {
                assert(m_seq.take(n as int) =~= m_seq);
            }
            let total: u64 = m + self.padding.top as u64 + self.padding.bottom as u64;
            total as u32
        }
    }
}

/// The first `i` children are already placed: each is a moved copy of the
/// original, nested views are laid out, and each sits at its stacked
/// main-axis position.
pub open spec fn layout_prefix_ok(
    old_m: Seq<ComponentModel>,
    cur_m: Seq<ComponentModel>,
    i: int,
    main0: int,
    spacing: int,
    vertical: bool,
) -> bool {
    forall|j: int|
        0 <= j < i ==> {
            let c = #[trigger] cur_m[j];
            &&& moved_c(old_m[j], c)
            &&& (c matches ComponentModel::View(v) ==> v.placed())
            &&& (if vertical {
                c.spec_y()
            } else {
                c.spec_x()
            }) == main0 + stack_span(cur_m.take(j), spacing, vertical)
        }
}

/// One placement step preserves the prefix state and advances the spans.
pub proof fn lemma_layout_step(
    old_m: Seq<ComponentModel>,
    pre_m: Seq<ComponentModel>,
    cur_m: Seq<ComponentModel>,
    i: int,
    main0: int,
    main: int,
    spacing: int,
    vertical: bool,
)
    requires
        0 <= i < old_m.len(),
        pre_m.len() == old_m.len(),
        cur_m.len() == old_m.len(),
        layout_prefix_ok(old_m, pre_m, i, main0, spacing, vertical),
        forall|j: int| 0 <= j < old_m.len() && j != i ==> #[trigger] cur_m[j] == pre_m[j],
        moved_c(old_m[i], cur_m[i]),
        cur_m[i] matches ComponentModel::View(v) ==> v.placed(),
        (if vertical {
            cur_m[i].spec_y()
        } else {
            cur_m[i].spec_x()
        }) == main,
        main == main0 + stack_span(pre_m.take(i), spacing, vertical),
        main == main0 + intrinsic_span(old_m.take(i), spacing, vertical),
    ensures
        layout_prefix_ok(old_m, cur_m, i + 1, main0, spacing, vertical),
        main0 + stack_span(cur_m.take(i + 1), spacing, vertical) == main + (if vertical {
            cur_m[i].spec_height()
        } else {
            cur_m[i].spec_width()
        }) + spacing,
        main0 + intrinsic_span(old_m.take(i + 1), spacing, vertical) == main + (if vertical {
            old_m[i].intrinsic_height()
        } else {
            old_m[i].intrinsic_width()
        }) + spacing,
        (if vertical {
            cur_m[i].spec_height()
        } else {
            cur_m[i].spec_width()
        }) == (if vertical {
            old_m[i].intrinsic_height()
        } else {
            old_m[i].intrinsic_width()
        }),
{
    assert forall|j: int| 0 <= j <= i implies cur_m.take(j) =~= pre_m.take(j) by {}
    assert(cur_m.take(i + 1).drop_last() =~= cur_m.take(i));
    assert(cur_m.take(i + 1).last() == cur_m[i]);
    assert(old_m.take(i + 1).drop_last() =~= old_m.take(i));
    assert(old_m.take(i + 1).last() == old_m[i]);
    match (old_m[i], cur_m[i]) {
        (ComponentModel::View(va), ComponentModel::View(vb)) => {
            lemma_placed_v(vb);
            lemma_moved_intrinsic_v(va, vb);
        },
        (ComponentModel::Widget(wa), ComponentModel::Widget(wb)) => {
            lemma_widget_placed_static(wa, wb.spec_origin().0 as i32, wb.spec_origin().1 as i32);
        },
        _ => {},
    }
    assert forall|j: int|
        0 <= j < i + 1 implies {
        let c = #[trigger] cur_m[j];
        &&& moved_c(old_m[j], c)
        &&& (c matches ComponentModel::View(v) ==> v.placed())
        &&& (if vertical {
            c.spec_y()
        } else {
            c.spec_x()
        }) == main0 + stack_span(cur_m.take(j), spacing, vertical)
    } by {
        if j < i {
            assert(cur_m[j] == pre_m[j]);
            assert(cur_m.take(j) =~= pre_m.take(j));
        }
    }
}

impl ViewNode {
    /// Lay the view out with its origin at `(x, y)`: stack the children in
    /// declaration order along the main axis — each one padding in on the
    /// cross axis, following the previous child's extent plus the spacing —
    /// lay out nested views recursively, and record the effective size.
    #[verifier::rlimit(100)]
    pub fn layout_at(&mut self, x: i32, y: i32)
        requires
            old(self).model().can_layout(x as int, y as int),
        ensures
            final(self).model().placed(),
            moved_v(old(self).model(), final(self).model()),
            final(self).x == x,
            final(self).y == y,
        decreases *old(self),
    {
        self.x = x;
        self.y = y;
        let vertical = match self.kind {
            ViewKind::HStack => false,
            _ => true,
        };
        let cross: i64 = if vertical {
            x as i64 + self.padding.left as i64
        } else {
            y as i64 + self.padding.top as i64
        };
        let ghost main0: int = if vertical {
            y + self.padding.top
        } else {
            x + self.padding.left
        };
        let mut main: i64 = if vertical {
            y as i64 + self.padding.top as i64
        } else {
            x as i64 + self.padding.left as i64
        };
        let ghost old_m = models_of(old(self).components@);
        let n = self.components.len();
        proof {
            lemma_models_of(old(self).components@);
            assert(old_m.skip(0) =~= old_m);
            assert(models_of(self.components@).take(0) =~= Seq::<ComponentModel>::empty());
            assert(old_m.take(0) =~= Seq::<ComponentModel>::empty());
        }
        let mut i: usize = 0;
        while i < n
            invariant
                i <= n,
                n == self.components@.len() == old(self).components@.len(),
                old_m == models_of(old(self).components@),
                old_m.len() == n,
                self.kind == old(self).kind,
                self.padding == old(self).padding,
                self.spacing == old(self).spacing,
                self.alignment == old(self).alignment,
                self.overlay_color == old(self).overlay_color,
                self.view_width == old(self).view_width,
                self.view_height == old(self).view_height,
                self.assigned_width == old(self).assigned_width,
                self.assigned_height == old(self).assigned_height,
                self.x == x,
                self.y == y,
                vertical == self.model().vertical(),
                cross == (if vertical {
                    x + self.padding.left
                } else {
                    y + self.padding.top
                }),
                main0 == (if vertical {
                    y + self.padding.top
                } else {
                    x + self.padding.left
                }),
                forall|j: int| i <= j < n ==> self.components@[j] == old(self).components@[j],
                layout_prefix_ok(
                    old_m,
                    models_of(self.components@),
                    i as int,
                    main0,
                    self.spacing as int,
                    vertical,
                ),
                main == main0 + stack_span(
                    models_of(self.components@).take(i as int),
                    self.spacing as int,
                    vertical,
                ),
                main == main0 + intrinsic_span(
                    old_m.take(i as int),
                    self.spacing as int,
                    vertical,
                ),
                can_layout_children(
                    old_m.skip(i as int),
                    cross as int,
                    main as int,
                    self.spacing as int,
                    vertical,
                ),
            decreases n - i,
        {
            let ghost pre_c = self.components@;
            let ghost pre_m = models_of(self.components@);
            proof {
                lemma_models_of(self.components@);
                lemma_models_of(old(self).components@);
                assert(old_m.skip(i as int).len() == n - i);
                assert(old_m.skip(i as int).first() == old_m[i as int]);
                assert(self.components@[i as int] == old(self).components@[i as int]);
                assert(pre_m[i as int] == self.components@[i as int].model());
                assert(old_m[i as int] == old(self).components@[i as int].model());
                assert(old_m[i as int] == pre_m[i as int]);
            }
            let (px, py): (i64, i64) = if vertical {
                (cross, main)
            } else {
                (main, cross)
            };
            let ghost adv_spec: int = if vertical {
                old_m[i as int].intrinsic_height()
            } else {
                old_m[i as int].intrinsic_width()
            };
            proof {
                assert(can_place_c(old_m[i as int], px as int, py as int));
            }
            match &mut self.components[i] {
                ViewComponent::Widget(w) => {
                    w.place(px as i32, py as i32);
                    proof {
                        lemma_widget_placed_static(*w, px as i32, py as i32);
                    }
                }
                ViewComponent::View(v) => {
                    v.layout_at(px as i32, py as i32);
                }
                ViewComponent::Decoration(d) => {
                    d.place(px as i32, py as i32);
                }
            }
            let adv: u32 = if vertical {
                self.components[i].comp_height()
            } else {
                self.components[i].comp_width()
            };
            proof {
                lemma_models_of(self.components@);
                lemma_models_of(pre_c);
                let cur_m = models_of(self.components@);
                assert(forall|j: int|
                    0 <= j < n && j != i ==> self.components@[j] == #[trigger] pre_c[j]);
                assert forall|j: int| 0 <= j < n && j != i implies #[trigger] cur_m[j]
                    == pre_m[j] by {
                    assert(cur_m[j] == self.components@[j].model());
                    assert(pre_m[j] == pre_c[j].model());
                }
                if old_m[i as int] is Widget {
                    lemma_widget_placed_static(old_m[i as int]->Widget_0, px as i32, py as i32);
                }
                assert(moved_c(old_m[i as int], cur_m[i as int]));
                lemma_layout_step(
                    old_m,
                    pre_m,
                    cur_m,
                    i as int,
                    main0,
                    main as int,
                    self.spacing as int,
                    vertical,
                );
                assert(adv as int == adv_spec);
                assert(old_m.skip(i as int).drop_first() =~= old_m.skip(i + 1));
            }
            main = main + adv as i64 + self.spacing as i64;
            i = i + 1;
        }
        proof {
            lemma_models_of(self.components@);
            assert(models_of(self.components@).take(n as int) =~= models_of(self.components@));
            assert(old_m.take(n as int) =~= old_m);
            assert(self.model().children_placed());
            lemma_placed_v(self.model());
            lemma_moved_intrinsic_seq(old_m, models_of(self.components@), self.spacing as int);
        }
        if !self.assigned_width {
            let w = self.draw_width();
            self.view_width = w;
        }
        if !self.assigned_height {
            let h = self.draw_height();
            self.view_height = h;
        }
        proof {
            assert(final(self).model().children_placed());
        }
    }
}

/// The vertical-stack height identity: once a vertical view is laid out,
/// its draw height is the sum of its children's heights, one spacing gap
/// between each pair of neighbours, and the top and bottom padding; with
/// no children it is the two paddings alone.
pub proof fn lemma_vstack_height_identity(v: ViewModel)
    requires
        v.placed(),
        v.vertical(),
    ensures
        v.children.len() > 0 ==> v.spec_draw_height() == sum_heights(v.children) + (v.children.len()
            - 1) * v.spacing + v.padding.top + v.padding.bottom,
        v.children.len() == 0 ==> v.spec_draw_height() == v.padding.top + v.padding.bottom,
{
    assert(v.children_placed());
    lemma_max_bottom_stacked(v.children, v.y + v.padding.top, v.spacing as int);
    lemma_stack_span_sum(v.children, v.spacing as int, true);
    if v.children.len() > 0 {
        assert((v.children.len() as int) * (v.spacing as int) == (v.children.len() - 1)
            * v.spacing + v.spacing) by (nonlinear_arith);
    }
}

/// The horizontal-stack width identity, the mirror image of
/// [`lemma_vstack_height_identity`].
pub proof fn lemma_hstack_width_identity(v: ViewModel)
    requires
        v.placed(),
        !v.vertical(),
    ensures
        v.children.len() > 0 ==> v.spec_draw_width() == sum_widths(v.children) + (v.children.len()
            - 1) * v.spacing + v.padding.left + v.padding.right,
        v.children.len() == 0 ==> v.spec_draw_width() == v.padding.left + v.padding.right,
{
    assert(v.children_placed());
    lemma_max_right_stacked(v.children, v.x + v.padding.left, v.spacing as int);
    lemma_stack_span_sum(v.children, v.spacing as int, false);
    if v.children.len() > 0 {
        assert((v.children.len() as int) * (v.spacing as int) == (v.children.len() - 1)
            * v.spacing + v.spacing) by (nonlinear_arith);
    }
}

/// A horizontal stack is as tall as its tallest child plus its vertical
/// paddings, whatever the children's positions.
pub proof fn lemma_hstack_height_identity(v: ViewModel)
    requires
        !v.vertical(),
    ensures
        v.spec_draw_height() == max_child_height(v.children) + v.padding.top + v.padding.bottom,
{
}

} // verus!
