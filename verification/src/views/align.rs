//! The alignment pass: after placement, each view repositions its children
//! along its cross axis — centered, left-flush or right-flush within the
//! view's own width (an overlay is always centered) — and nested views are
//! aligned recursively. Alignment is a pure repositioning: running it on an
//! already aligned tree changes nothing.

use vstd::prelude::*;
use crate::geometry::Alignment;
use crate::views::divider::Decoration;
use crate::views::view::{
    lemma_models_of, models_of, ComponentModel, ViewComponent, ViewKind, ViewModel, ViewNode,
};
use crate::views::layout::{moved_c, moved_v};
use crate::views::translate::{
    can_translate_vm, lemma_translated_children, translated_c, translated_children, translated_vm,
};
use crate::widgets::widget::Widget;

verus! {

/// The number of nodes in the subtree below this child.
pub open spec fn c_size(c: ComponentModel) -> nat
    decreases c, 0int,
{
    match c {
        ComponentModel::View(v) => vm_size(v),
        _ => 1,
    }
}

pub open spec fn seq_size(s: Seq<ComponentModel>) -> nat
    decreases s, 1int,
{
    if s.len() == 0 {
        0
    } else {
        seq_size(s.drop_last()) + c_size(s.last())
    }
}

/// The number of nodes in the view's subtree.
pub open spec fn vm_size(v: ViewModel) -> nat
    decreases v, 2int,
{
    1 + seq_size(v.children)
}

/// Each child's subtree is strictly smaller than its parent's.
pub proof fn lemma_child_size_lt(s: Seq<ComponentModel>, i: int)
    requires
        0 <= i < s.len(),
    ensures
        c_size(s[i]) <= seq_size(s),
    decreases s,
{
    if i == s.len() - 1 {
    } else {
        lemma_child_size_lt(s.drop_last(), i);
        assert(s.drop_last()[i] == s[i]);
    }
}

/// Translation does not change subtree sizes.
pub proof fn lemma_translated_size_c(c: ComponentModel, dx: i32, dy: i32)
    ensures
        c_size(translated_c(c, dx, dy)) == c_size(c),
    decreases c, 0int,
{
    match c {
        ComponentModel::View(v) => {
            lemma_translated_size_vm(v, dx, dy);
        },
        _ => {},
    }
}

pub proof fn lemma_translated_size_seq(s: Seq<ComponentModel>, dx: i32, dy: i32)
    ensures
        seq_size(translated_children(s, dx, dy)) == seq_size(s),
    decreases s, 1int,
{
    if s.len() > 0 {
        lemma_translated_size_seq(s.drop_last(), dx, dy);
        lemma_translated_size_c(s.last(), dx, dy);
        assert(translated_children(s, dx, dy).drop_last() =~= translated_children(
            s.drop_last(),
            dx,
            dy,
        ));
    }
}

pub proof fn lemma_translated_size_vm(v: ViewModel, dx: i32, dy: i32)
    ensures
        vm_size(translated_vm(v, dx, dy)) == vm_size(v),
    decreases v, 2int,
{
    lemma_translated_size_seq(v.children, dx, dy);
}

impl ViewModel {
    /// The alignment the view positions its children with: an overlay is
    /// always centered.
    pub open spec fn effective_alignment(self) -> Alignment {
        if self.kind == ViewKind::Overlay {
            Alignment::Center
        } else {
            self.alignment
        }
    }

    /// The cross-axis position a child of cross-extent `cw` is moved to.
    pub open spec fn spec_cross_target(self, cw: int) -> int {
        if self.vertical() {
            match self.effective_alignment() {
                Alignment::Center => self.x + self.view_width / 2 - cw / 2,
                Alignment::Left => self.x + self.padding.left,
                Alignment::Right => self.x + self.view_width - self.padding.right - cw,
            }
        } else {
            match self.effective_alignment() {
                Alignment::Center => self.y + self.view_height / 2 - cw / 2,
                Alignment::Left => self.y + self.padding.top,
                Alignment::Right => self.y + self.view_height - self.padding.bottom - cw,
            }
        }
    }
}

/// The child's extent along its parent's cross axis.
pub open spec fn cross_extent(c: ComponentModel, vertical: bool) -> int {
    if vertical {
        c.spec_width()
    } else {
        c.spec_height()
    }
}

/// The child's position along its parent's cross axis.
pub open spec fn cross_pos(c: ComponentModel, vertical: bool) -> int {
    if vertical {
        c.spec_x()
    } else {
        c.spec_y()
    }
}

impl ViewModel {
    /// What aligning the view needs: every computed target and shift stays
    /// within `i32`, every shifted subtree stays within `i32`, and the same
    /// holds for each nested view once it is shifted to its target.
    pub open spec fn can_align(self) -> bool
        decreases vm_size(self),
        via Self::can_align_decreases
    {
        forall|i: int|
            0 <= i < self.children.len() ==> {
                let c = #[trigger] self.children[i];
                let t = self.spec_cross_target(cross_extent(c, self.vertical()));
                let d = t - cross_pos(c, self.vertical());
                match c {
                    ComponentModel::Widget(w) => {
                        &&& i32::MIN <= t <= i32::MAX
                        &&& i32::MIN <= d <= i32::MAX
                        &&& (if self.vertical() {
                            w.can_translate(d, 0)
                        } else {
                            w.can_translate(0, d)
                        })
                    },
                    ComponentModel::View(sub) => {
                        &&& i32::MIN <= t <= i32::MAX
                        &&& i32::MIN <= d <= i32::MAX
                        &&& (if self.vertical() {
                            can_translate_vm(sub, d, 0) && translated_vm(
                                sub,
                                d as i32,
                                0,
                            ).can_align()
                        } else {
                            can_translate_vm(sub, 0, d) && translated_vm(
                                sub,
                                0,
                                d as i32,
                            ).can_align()
                        })
                    },
                    ComponentModel::Decoration(_) => true,
                }
            }
    }

    #[via_fn]
    proof fn can_align_decreases(self) {
        assert forall|i: int|
            0 <= i < self.children.len() && self.children[i] is View implies c_size(
            #[trigger] self.children[i],
        ) <= seq_size(self.children) by {
            lemma_child_size_lt(self.children, i);
        }
        assert forall|i: int, dx: i32, dy: i32|
            0 <= i < self.children.len() && self.children[i] is View implies vm_size(
            translated_vm(#[trigger] self.children[i]->View_0, dx, dy),
        ) < vm_size(self) by {
            lemma_child_size_lt(self.children, i);
            lemma_translated_size_vm(self.children[i]->View_0, dx, dy);
        }
    }
}

/// Exactly what alignment does: decorations stay, every widget is shifted
/// to its cross-axis target, and every nested view is shifted to its
/// target and then aligned itself. Everything else about the view is
/// unchanged.
pub open spec fn align_rel(a: ViewModel, b: ViewModel) -> bool
    decreases vm_size(a),
    via align_rel_decreases
{
    &&& b == (ViewModel { children: b.children, ..a })
    &&& b.children.len() == a.children.len()
    &&& forall|i: int|
        0 <= i < a.children.len() ==> {
            let c = #[trigger] a.children[i];
            let t = a.spec_cross_target(cross_extent(c, a.vertical()));
            let d = t - cross_pos(c, a.vertical());
            match c {
                ComponentModel::Widget(w) => {
                    &&& i32::MIN <= t <= i32::MAX
                    &&& i32::MIN <= d <= i32::MAX
                    &&& b.children[i] == (if a.vertical() {
                        ComponentModel::Widget(w.spec_translated(d as i32, 0))
                    } else {
                        ComponentModel::Widget(w.spec_translated(0, d as i32))
                    })
                },
                ComponentModel::View(sub) => {
                    &&& i32::MIN <= t <= i32::MAX
                    &&& i32::MIN <= d <= i32::MAX
                    &&& (if a.vertical() {
                        can_translate_vm(sub, d, 0)
                    } else {
                        can_translate_vm(sub, 0, d)
                    })
                    &&& (b.children[i] matches ComponentModel::View(bsub) && align_rel(
                        (if a.vertical() {
                            translated_vm(sub, d as i32, 0)
                        } else {
                            translated_vm(sub, 0, d as i32)
                        }),
                        bsub,
                    ))
                },
                ComponentModel::Decoration(_) => b.children[i] == c,
            }
        }
}

#[via_fn]
proof fn align_rel_decreases(a: ViewModel, b: ViewModel) {
    assert forall|i: int, dx: i32, dy: i32|
        0 <= i < a.children.len() && a.children[i] is View implies vm_size(
        translated_vm(#[trigger] a.children[i]->View_0, dx, dy),
    ) < vm_size(a) by {
        lemma_child_size_lt(a.children, i);
        lemma_translated_size_vm(a.children[i]->View_0, dx, dy);
    }
}

/// Translation shifts a widget's rectangle exactly and keeps its sizes.
pub proof fn lemma_widget_translated_static(w: Widget, dx: i32, dy: i32)
    requires
        w.can_translate(dx as int, dy as int),
    ensures
        w.spec_translated(dx, dy).spec_draw_width() == w.spec_draw_width(),
        w.spec_translated(dx, dy).spec_draw_height() == w.spec_draw_height(),
        w.spec_translated(dx, dy).spec_origin().0 == w.spec_origin().0 + dx,
        w.spec_translated(dx, dy).spec_origin().1 == w.spec_origin().1 + dy,
{
}

/// One aligned child: what `align` has made of the child `c` of the view
/// `a`, mirroring one step of [`align_rel`].
pub open spec fn align_child_ok(a: ViewModel, c: ComponentModel, bc: ComponentModel) -> bool {
    let t = a.spec_cross_target(cross_extent(c, a.vertical()));
    let d = t - cross_pos(c, a.vertical());
    match c {
        ComponentModel::Widget(w) => {
            &&& i32::MIN <= t <= i32::MAX
            &&& i32::MIN <= d <= i32::MAX
            &&& bc == (if a.vertical() {
                ComponentModel::Widget(w.spec_translated(d as i32, 0))
            } else {
                ComponentModel::Widget(w.spec_translated(0, d as i32))
            })
        },
        ComponentModel::View(sub) => {
            &&& i32::MIN <= t <= i32::MAX
            &&& i32::MIN <= d <= i32::MAX
            &&& (if a.vertical() {
                can_translate_vm(sub, d, 0)
            } else {
                can_translate_vm(sub, 0, d)
            })
            &&& (bc matches ComponentModel::View(bsub) && align_rel(
                (if a.vertical() {
                    translated_vm(sub, d as i32, 0)
                } else {
                    translated_vm(sub, 0, d as i32)
                }),
                bsub,
            ))
        },
        ComponentModel::Decoration(_) => bc == c,
    }
}

impl ViewNode {
    /// Align the view's children along its cross axis and recurse into
    /// nested views, as [`align_rel`] prescribes.
    pub fn align(&mut self)
        requires
            old(self).model().can_align(),
        ensures
            align_rel(old(self).model(), final(self).model()),
        decreases vm_size(old(self).model()),
    {
        let ghost a = old(self).model();
        let ghost old_m = models_of(old(self).components@);
        let vertical = match self.kind {
            ViewKind::HStack => false,
            _ => true,
        };
        let centered = match self.kind {
            ViewKind::Overlay => true,
            _ => match self.alignment {
                Alignment::Center => true,
                _ => false,
            },
        };
        let leftish = match self.kind {
            ViewKind::Overlay => false,
            _ => match self.alignment {
                Alignment::Left => true,
                _ => false,
            },
        };
        let n = self.components.len();
        proof {
            lemma_models_of(old(self).components@);
            assert(a.children == old_m);
        }
        let mut i: usize = 0;
        while i < n
            invariant
                i <= n,
                n == self.components@.len() == old(self).components@.len(),
                a == old(self).model(),
                old_m == models_of(old(self).components@),
                a.children == old_m,
                old_m.len() == n,
                a.can_align(),
                self.kind == old(self).kind,
                self.padding == old(self).padding,
                self.spacing == old(self).spacing,
                self.alignment == old(self).alignment,
                self.overlay_color == old(self).overlay_color,
                self.view_width == old(self).view_width,
                self.view_height == old(self).view_height,
                self.assigned_width == old(self).assigned_width,
                self.assigned_height == old(self).assigned_height,
                self.x == old(self).x,
                self.y == old(self).y,
                vertical == a.vertical(),
                centered == (a.effective_alignment() is Center),
                leftish == (a.effective_alignment() is Left),
                forall|j: int| i <= j < n ==> self.components@[j] == old(self).components@[j],
                forall|j: int|
                    0 <= j < i ==> align_child_ok(
                        a,
                        old_m[j],
                        #[trigger] models_of(self.components@)[j],
                    ),
            decreases n - i,
        {
            let ghost pre_c = self.components@;
            let ghost pre_m = models_of(self.components@);
            proof {
                lemma_models_of(self.components@);
                lemma_models_of(old(self).components@);
                assert(self.components@[i as int] == old(self).components@[i as int]);
                assert(pre_m[i as int] == self.components@[i as int].model());
                assert(old_m[i as int] == pre_m[i as int]);
            }
            let cw: u32 = if vertical {
                self.components[i].comp_width()
            } else {
                self.components[i].comp_height()
            };
            let pos = self.components[i].comp_pos();
            let cp: i32 = if vertical {
                pos.0
            } else {
                pos.1
            };
            let t64: i64 = if vertical {
                if centered {
                    self.x as i64 + (self.view_width / 2) as i64 - (cw / 2) as i64
                } else if leftish {
                    self.x as i64 + self.padding.left as i64
                } else {
                    self.x as i64 + self.view_width as i64 - self.padding.right as i64 - cw as i64
                }
            } else {
                if centered {
                    self.y as i64 + (self.view_height / 2) as i64 - (cw / 2) as i64
                } else if leftish {
                    self.y as i64 + self.padding.top as i64
                } else {
                    self.y as i64 + self.view_height as i64 - self.padding.bottom as i64
                        - cw as i64
                }
            };
            let ghost t_spec = a.spec_cross_target(cross_extent(old_m[i as int], a.vertical()));
            let ghost d_spec = t_spec - cross_pos(old_m[i as int], a.vertical());
            proof {
                if !(old_m[i as int] is Decoration) {
                    assert(t64 as int == t_spec);
                    assert(i32::MIN <= d_spec <= i32::MAX);
                }
            }
            let d64: i64 = t64 - cp as i64;
            match &mut self.components[i] {
                ViewComponent::Widget(w) => {
                    let d: i32 = d64 as i32;
                    if vertical {
                        w.translate(d, 0);
                    } else {
                        w.translate(0, d);
                    }
                }
                ViewComponent::View(v) => {
                    let d: i32 = d64 as i32;
                    if vertical {
                        v.translate(d, 0);
                    } else {
                        v.translate(0, d);
                    }
                    proof {
                        lemma_child_size_lt(a.children, i as int);
                        lemma_translated_size_vm(old_m[i as int]->View_0, d, 0);
                        lemma_translated_size_vm(old_m[i as int]->View_0, 0, d);
                    }
                    v.align();
                }
                ViewComponent::Decoration(_) => {}
            }
            proof {
                lemma_models_of(self.components@);
                lemma_models_of(pre_c);
                let cur_m = models_of(self.components@);
                assert(forall|j: int|
                    0 <= j < n && j != i ==> self.components@[j] == #[trigger] pre_c[j]);
                assert forall|j: int| 0 <= j < n && j != i implies #[trigger] cur_m[j]
                    == pre_m[j] by {
                    assert(cur_m[j] == self.components@[j].model());
                    assert(pre_m[j] == pre_c[j].model());
                }
                assert(cur_m[i as int] == self.components@[i as int].model());
                assert(align_child_ok(a, old_m[i as int], cur_m[i as int]));
            }
            i = i + 1;
        }
        proof {
            lemma_models_of(self.components@);
        }
    }
}

/// No backdrop stands in the tree itself: the layout engine refuses them
/// as children, since an overlay's backdrop is synthesised when the tree
/// is flattened.
pub open spec fn no_backdrops(v: ViewModel) -> bool
    decreases v,
{
    forall|i: int|
        0 <= i < v.children.len() ==> (match #[trigger] v.children[i] {
            ComponentModel::Decoration(d) => d is Divider,
            ComponentModel::View(sub) => no_backdrops(sub),
            ComponentModel::Widget(_) => true,
        })
}

/// A placeable tree holds no backdrops.
pub proof fn lemma_can_layout_no_backdrops(v: ViewModel, x: int, y: int)
    requires
        v.can_layout(x, y),
    ensures
        no_backdrops(v),
    decreases v, 4int,
{
    lemma_can_layout_children_no_backdrops(
        v.children,
        (if v.vertical() {
            x + v.padding.left
        } else {
            y + v.padding.top
        }),
        (if v.vertical() {
            y + v.padding.top
        } else {
            x + v.padding.left
        }),
        v.spacing as int,
        v.vertical(),
    );
}

pub proof fn lemma_can_layout_children_no_backdrops(
    s: Seq<ComponentModel>,
    cross: int,
    main: int,
    spacing: int,
    vertical: bool,
)
    requires
        crate::views::layout::can_layout_children(s, cross, main, spacing, vertical),
    ensures
        forall|i: int|
            0 <= i < s.len() ==> (match #[trigger] s[i] {
                ComponentModel::Decoration(d) => d is Divider,
                ComponentModel::View(sub) => no_backdrops(sub),
                ComponentModel::Widget(_) => true,
            }),
    decreases s, 5int,
{
    if s.len() > 0 {
        let c = s.first();
        let px = if vertical {
            cross
        } else {
            main
        };
        let py = if vertical {
            main
        } else {
            cross
        };
        assert(crate::views::layout::can_place_c(c, px, py));
        match c {
            ComponentModel::View(sub) => {
                lemma_can_layout_no_backdrops(
                    sub,
                    (if vertical {
                        cross
                    } else {
                        main
                    }),
                    (if vertical {
                        main
                    } else {
                        cross
                    }),
                );
            },
            _ => {},
        }
        lemma_can_layout_children_no_backdrops(
            s.drop_first(),
            cross,
            main + (if vertical {
                c.intrinsic_height()
            } else {
                c.intrinsic_width()
            }) + spacing,
            spacing,
            vertical,
        );
        assert(forall|i: int|
            1 <= i < s.len() ==> #[trigger] s[i] == s.drop_first()[i - 1]);
    }
}

/// Placement never makes a backdrop.
pub proof fn lemma_moved_no_backdrops(a: ViewModel, b: ViewModel)
    requires
        moved_v(a, b),
        no_backdrops(a),
    ensures
        no_backdrops(b),
    decreases a,
{
    assert forall|i: int|
        0 <= i < b.children.len() implies (match #[trigger] b.children[i] {
        ComponentModel::Decoration(d) => d is Divider,
        ComponentModel::View(sub) => no_backdrops(sub),
        ComponentModel::Widget(_) => true,
    }) by {
        assert(moved_c(a.children[i], b.children[i]));
        match (a.children[i], b.children[i]) {
            (ComponentModel::View(va), ComponentModel::View(vb)) => {
                lemma_moved_no_backdrops(va, vb);
            },
            _ => {},
        }
    }
}

/// Translation keeps a widget's draw sizes, unconditionally.
pub proof fn lemma_widget_translated_sizes(w: Widget, dx: i32, dy: i32)
    ensures
        w.spec_translated(dx, dy).spec_draw_width() == w.spec_draw_width(),
        w.spec_translated(dx, dy).spec_draw_height() == w.spec_draw_height(),
{
}

/// When the shifted origin stays within `i32`, translation shifts the
/// origin exactly.
pub proof fn lemma_widget_origin_shift(w: Widget, dx: i32, dy: i32)
    requires
        i32::MIN <= w.spec_origin().0 + dx <= i32::MAX,
        i32::MIN <= w.spec_origin().1 + dy <= i32::MAX,
    ensures
        w.spec_translated(dx, dy).spec_origin().0 == w.spec_origin().0 + dx,
        w.spec_translated(dx, dy).spec_origin().1 == w.spec_origin().1 + dy,
{
}

/// A widget that has just been translated is a fixpoint of the zero
/// translation: in particular a scrollbar's slider already tracks its
/// value's pixel.
pub proof fn lemma_widget_translated_zero(w: Widget, dx: i32, dy: i32)
    ensures
        w.spec_translated(dx, dy).spec_translated(0, 0) == w.spec_translated(dx, dy),
{
}

/// An aligned view is a fixpoint of the zero translation.
pub proof fn lemma_aligned_translate_zero(a: ViewModel, b: ViewModel)
    requires
        align_rel(a, b),
    ensures
        translated_vm(b, 0, 0) == b,
    decreases vm_size(a),
{
    lemma_translated_children(b.children, 0, 0);
    assert forall|i: int| 0 <= i < b.children.len() implies translated_c(
        #[trigger] b.children[i],
        0,
        0,
    ) == b.children[i] by {
        let c = a.children[i];
        match c {
            ComponentModel::Widget(w) => {
                let t = a.spec_cross_target(cross_extent(c, a.vertical()));
                let d = (t - cross_pos(c, a.vertical())) as i32;
                if a.vertical() {
                    lemma_widget_translated_zero(w, d, 0);
                } else {
                    lemma_widget_translated_zero(w, 0, d);
                }
            },
            ComponentModel::View(sub) => {
                let t = a.spec_cross_target(cross_extent(c, a.vertical()));
                let d = (t - cross_pos(c, a.vertical())) as i32;
                let shifted = if a.vertical() {
                    translated_vm(sub, d, 0)
                } else {
                    translated_vm(sub, 0, d)
                };
                lemma_child_size_lt(a.children, i);
                lemma_translated_size_vm(sub, d, 0);
                lemma_translated_size_vm(sub, 0, d);
                lemma_aligned_translate_zero(shifted, b.children[i]->View_0);
            },
            ComponentModel::Decoration(_) => {},
        }
    }
    assert(translated_children(b.children, 0, 0) =~= b.children);
}

/// Alignment is idempotent: aligning an already aligned tree leaves every
/// frame exactly where it is.
pub proof fn lemma_align_idempotent(a: ViewModel, b: ViewModel, c: ViewModel)
    requires
        align_rel(a, b),
        align_rel(b, c),
    ensures
        c == b,
    decreases vm_size(a),
{
    assert forall|i: int| 0 <= i < b.children.len() implies #[trigger] c.children[i]
        == b.children[i] by {
        let ca = a.children[i];
        let t = a.spec_cross_target(cross_extent(ca, a.vertical()));
        let d = (t - cross_pos(ca, a.vertical())) as i32;
        match ca {
            ComponentModel::Widget(w) => {
                if a.vertical() {
                    lemma_widget_translated_sizes(w, d, 0);
                    lemma_widget_origin_shift(w, d, 0);
                    lemma_widget_translated_zero(w, d, 0);
                } else {
                    lemma_widget_translated_sizes(w, 0, d);
                    lemma_widget_origin_shift(w, 0, d);
                    lemma_widget_translated_zero(w, 0, d);
                }
                assert(cross_pos(b.children[i], b.vertical()) == t);
                assert(b.spec_cross_target(cross_extent(b.children[i], b.vertical())) == t);
            },
            ComponentModel::View(sub) => {
                let shifted = if a.vertical() {
                    translated_vm(sub, d, 0)
                } else {
                    translated_vm(sub, 0, d)
                };
                let bsub = b.children[i]->View_0;
                let csub = c.children[i]->View_0;
                assert(align_rel(shifted, bsub));
                assert(cross_pos(b.children[i], b.vertical()) == t);
                assert(b.spec_cross_target(cross_extent(b.children[i], b.vertical())) == t);
                lemma_aligned_translate_zero(shifted, bsub);
                assert(align_rel(bsub, csub));
                lemma_child_size_lt(a.children, i);
                lemma_translated_size_vm(sub, d, 0);
                lemma_translated_size_vm(sub, 0, d);
                lemma_align_idempotent(shifted, bsub, csub);
            },
            ComponentModel::Decoration(_) => {},
        }
    }
    assert(c.children =~= b.children);
}

/// Translation keeps every child's contributed sizes.
pub proof fn lemma_translated_c_sizes(c: ComponentModel, dx: i32, dy: i32)
    ensures
        translated_c(c, dx, dy).spec_width() == c.spec_width(),
        translated_c(c, dx, dy).spec_height() == c.spec_height(),
{
    match c {
        ComponentModel::Widget(w) => {
            lemma_widget_translated_sizes(w, dx, dy);
        },
        _ => {},
    }
}

/// Within bounds, translation shifts every child's draw origin exactly —
/// except a backdrop, which has no origin of its own.
pub proof fn lemma_translated_c_pos(c: ComponentModel, dx: i32, dy: i32)
    requires
        crate::views::translate::can_translate_c(c, dx as int, dy as int),
        !(c matches ComponentModel::Decoration(d) && d is Backdrop),
    ensures
        translated_c(c, dx, dy).spec_x() == c.spec_x() + dx,
        translated_c(c, dx, dy).spec_y() == c.spec_y() + dy,
{
    match c {
        ComponentModel::Widget(w) => {
            lemma_widget_origin_shift(w, dx, dy);
        },
        _ => {},
    }
}

/// Two child sequences with pairwise equal extents span the same length
/// and share their aggregate widths and heights.
pub proof fn lemma_aggregates_pointwise(sa: Seq<ComponentModel>, sb: Seq<ComponentModel>, spacing: int)
    requires
        sb.len() == sa.len(),
        forall|i: int|
            0 <= i < sa.len() ==> (#[trigger] sb[i]).spec_width() == sa[i].spec_width() && sb[
                i
            ].spec_height() == sa[i].spec_height(),
    ensures
        crate::views::layout::max_child_width(sb) == crate::views::layout::max_child_width(sa),
        crate::views::layout::max_child_height(sb) == crate::views::layout::max_child_height(sa),
        crate::views::layout::stack_span(sb, spacing, true) == crate::views::layout::stack_span(
            sa,
            spacing,
            true,
        ),
        crate::views::layout::stack_span(sb, spacing, false) == crate::views::layout::stack_span(
            sa,
            spacing,
            false,
        ),
    decreases sa,
{
    if sa.len() > 0 {
        assert forall|i: int|
            0 <= i < sa.len() - 1 implies (#[trigger] sb.drop_last()[i]).spec_width()
            == sa.drop_last()[i].spec_width() && sb.drop_last()[i].spec_height()
            == sa.drop_last()[i].spec_height() by {
            assert(sa.drop_last()[i] == sa[i] && sb.drop_last()[i] == sb[i]);
        }
        lemma_aggregates_pointwise(sa.drop_last(), sb.drop_last(), spacing);
        assert(sb.last().spec_width() == sa.last().spec_width());
        assert(sb.last().spec_height() == sa.last().spec_height());
    }
}

/// Two child sequences with pairwise equal bottom and right edges share
/// their farthest edges.
pub proof fn lemma_edges_pointwise(
    sa: Seq<ComponentModel>,
    sb: Seq<ComponentModel>,
    base_b: int,
    base_r: int,
)
    requires
        sb.len() == sa.len(),
        forall|i: int|
            0 <= i < sa.len() ==> (#[trigger] sb[i]).spec_x() == sa[i].spec_x() && sb[i].spec_y()
                == sa[i].spec_y() && sb[i].spec_width() == sa[i].spec_width() && sb[
                i
            ].spec_height() == sa[i].spec_height(),
    ensures
        crate::views::layout::max_bottom(sb, base_b) == crate::views::layout::max_bottom(
            sa,
            base_b,
        ),
        crate::views::layout::max_right(sb, base_r) == crate::views::layout::max_right(sa, base_r),
    decreases sa,
{
    if sa.len() > 0 {
        assert forall|i: int|
            0 <= i < sa.len() - 1 implies (#[trigger] sb.drop_last()[i]).spec_x()
            == sa.drop_last()[i].spec_x() && sb.drop_last()[i].spec_y() == sa.drop_last()[
            i
        ].spec_y() && sb.drop_last()[i].spec_width() == sa.drop_last()[i].spec_width()
            && sb.drop_last()[i].spec_height() == sa.drop_last()[i].spec_height() by {
            assert(sa.drop_last()[i] == sa[i] && sb.drop_last()[i] == sb[i]);
        }
        lemma_edges_pointwise(sa.drop_last(), sb.drop_last(), base_b, base_r);
    }
}

/// Translating a laid-out, backdrop-free tree within bounds keeps it laid
/// out: every relative offset, and with it every draw size, is preserved.
pub proof fn lemma_translate_preserves_placed(v: ViewModel, dx: i32, dy: i32)
    requires
        v.placed(),
        no_backdrops(v),
        can_translate_vm(v, dx as int, dy as int),
    ensures
        translated_vm(v, dx, dy).placed(),
        no_backdrops(translated_vm(v, dx, dy)),
    decreases vm_size(v),
{
    let t = translated_vm(v, dx, dy);
    lemma_translated_children(v.children, dx, dy);
    assert forall|i: int|
        0 <= i < t.children.len() implies {
        let c = #[trigger] t.children[i];
        &&& (if t.vertical() {
            c.spec_y() == t.y + t.padding.top + crate::views::layout::stack_span(
                t.children.take(i),
                t.spacing as int,
                true,
            )
        } else {
            c.spec_x() == t.x + t.padding.left + crate::views::layout::stack_span(
                t.children.take(i),
                t.spacing as int,
                false,
            )
        })
        &&& (c matches ComponentModel::View(sub) ==> sub.placed())
        &&& (match c {
            ComponentModel::Decoration(d) => d is Divider,
            ComponentModel::View(sub) => no_backdrops(sub),
            ComponentModel::Widget(_) => true,
        })
    } by {
        assert(v.children_placed());
        lemma_translated_c_pos(v.children[i], dx, dy);
        assert forall|j: int|
            0 <= j < i implies (#[trigger] t.children.take(i)[j]).spec_width()
            == v.children.take(i)[j].spec_width() && t.children.take(i)[j].spec_height()
            == v.children.take(i)[j].spec_height() by {
            assert(t.children.take(i)[j] == t.children[j]);
            assert(v.children.take(i)[j] == v.children[j]);
            lemma_translated_c_sizes(v.children[j], dx, dy);
        }
        lemma_aggregates_pointwise(v.children.take(i), t.children.take(i), v.spacing as int);
        match v.children[i] {
            ComponentModel::View(sub) => {
                lemma_child_size_lt(v.children, i);
                lemma_translated_size_vm(sub, dx, dy);
                lemma_translate_preserves_placed(sub, dx, dy);
            },
            _ => {},
        }
    }
    assert forall|i: int|
        0 <= i < t.children.len() implies (#[trigger] t.children[i]).spec_x() == v.children[
        i
    ].spec_x() + dx && t.children[i].spec_y() == v.children[i].spec_y() + dy && t.children[
        i
    ].spec_width() == v.children[i].spec_width() && t.children[i].spec_height() == v.children[
        i
    ].spec_height() by {
        lemma_translated_c_pos(v.children[i], dx, dy);
        lemma_translated_c_sizes(v.children[i], dx, dy);
    }
    if !v.assigned_width || !v.assigned_height {
        lemma_aggregates_pointwise(v.children, t.children, v.spacing as int);
        assert forall|i: int|
            0 <= i < t.children.len() implies (#[trigger] t.children[i]).spec_x() - dx
            == v.children[i].spec_x() && t.children[i].spec_y() - dy == v.children[i].spec_y() by {}
        lemma_edges_shifted(v.children, t.children, v.y + v.padding.top, v.x + v.padding.left, dx as int, dy as int);
    }
}

/// Shifting every child by the same offset shifts the farthest edges by
/// that offset.
pub proof fn lemma_edges_shifted(
    sa: Seq<ComponentModel>,
    sb: Seq<ComponentModel>,
    base_b: int,
    base_r: int,
    dx: int,
    dy: int,
)
    requires
        sb.len() == sa.len(),
        forall|i: int|
            0 <= i < sa.len() ==> (#[trigger] sb[i]).spec_x() == sa[i].spec_x() + dx && sb[
                i
            ].spec_y() == sa[i].spec_y() + dy && sb[i].spec_width() == sa[i].spec_width() && sb[
                i
            ].spec_height() == sa[i].spec_height(),
    ensures
        crate::views::layout::max_bottom(sb, base_b + dy) == crate::views::layout::max_bottom(
            sa,
            base_b,
        ) + dy,
        crate::views::layout::max_right(sb, base_r + dx) == crate::views::layout::max_right(
            sa,
            base_r,
        ) + dx,
    decreases sa,
{
    if sa.len() > 0 {
        assert forall|i: int|
            0 <= i < sa.len() - 1 implies (#[trigger] sb.drop_last()[i]).spec_x()
            == sa.drop_last()[i].spec_x() + dx && sb.drop_last()[i].spec_y() == sa.drop_last()[
            i
        ].spec_y() + dy && sb.drop_last()[i].spec_width() == sa.drop_last()[i].spec_width()
            && sb.drop_last()[i].spec_height() == sa.drop_last()[i].spec_height() by {
            assert(sa.drop_last()[i] == sa[i] && sb.drop_last()[i] == sb[i]);
        }
        lemma_edges_shifted(sa.drop_last(), sb.drop_last(), base_b, base_r, dx, dy);
    }
}

/// What aligning does to one child: the cross shift keeps the main-axis
/// position and every size, and keeps a nested view laid out.
pub proof fn lemma_align_child_static(a: ViewModel, c: ComponentModel, bc: ComponentModel)
    requires
        align_child_ok(a, c, bc),
        c matches ComponentModel::View(sub) ==> sub.placed() && no_backdrops(sub),
        c matches ComponentModel::Decoration(d) ==> d is Divider,
    ensures
        bc.spec_width() == c.spec_width(),
        bc.spec_height() == c.spec_height(),
        (if a.vertical() {
            bc.spec_y() == c.spec_y()
        } else {
            bc.spec_x() == c.spec_x()
        }),
        bc matches ComponentModel::View(bsub) ==> bsub.placed() && no_backdrops(bsub),
        bc matches ComponentModel::Decoration(d) ==> d is Divider,
    decreases c_size(c), 3int,
{
    let t = a.spec_cross_target(cross_extent(c, a.vertical()));
    let d = (t - cross_pos(c, a.vertical())) as i32;
    match c {
        ComponentModel::Widget(w) => {
            if a.vertical() {
                lemma_widget_translated_sizes(w, d, 0);
            } else {
                lemma_widget_translated_sizes(w, 0, d);
            }
        },
        ComponentModel::View(sub) => {
            lemma_translated_size_vm(sub, d, 0);
            lemma_translated_size_vm(sub, 0, d);
            if a.vertical() {
                lemma_translate_preserves_placed(sub, d, 0);
                lemma_align_preserves_placed(translated_vm(sub, d, 0), bc->View_0);
            } else {
                lemma_translate_preserves_placed(sub, 0, d);
                lemma_align_preserves_placed(translated_vm(sub, 0, d), bc->View_0);
            }
        },
        ComponentModel::Decoration(_) => {},
    }
}

/// What aligning one level does to each child, pointwise.
pub proof fn lemma_align_children_static(a: ViewModel, b: ViewModel)
    requires
        a.placed(),
        no_backdrops(a),
        align_rel(a, b),
    ensures
        forall|i: int|
            0 <= i < b.children.len() ==> (#[trigger] b.children[i]).spec_width() == a.children[
                i
            ].spec_width() && b.children[i].spec_height() == a.children[i].spec_height() && (
            if a.vertical() {
                b.children[i].spec_y() == a.children[i].spec_y()
            } else {
                b.children[i].spec_x() == a.children[i].spec_x()
            }) && (b.children[i] matches ComponentModel::View(bsub) ==> bsub.placed()
                && no_backdrops(bsub)) && (match b.children[i] {
                ComponentModel::Decoration(d) => d is Divider,
                _ => true,
            }),
    decreases vm_size(a), 0int,
{
    assert forall|i: int|
        0 <= i < b.children.len() implies (#[trigger] b.children[i]).spec_width() == a.children[
        i
    ].spec_width() && b.children[i].spec_height() == a.children[i].spec_height() && (if a.vertical() {
        b.children[i].spec_y() == a.children[i].spec_y()
    } else {
        b.children[i].spec_x() == a.children[i].spec_x()
    }) && (b.children[i] matches ComponentModel::View(bsub) ==> bsub.placed() && no_backdrops(
        bsub,
    )) && (match b.children[i] {
        ComponentModel::Decoration(d) => d is Divider,
        _ => true,
    }) by {
        assert(a.children_placed());
        assert(align_child_ok(a, a.children[i], b.children[i]));
        lemma_child_size_lt(a.children, i);
        lemma_align_child_static(a, a.children[i], b.children[i]);
    }
}

/// Alignment never alters the stacking-axis positions nor any draw size:
/// aligning a laid-out, backdrop-free tree keeps it laid out.
pub proof fn lemma_align_preserves_placed(a: ViewModel, b: ViewModel)
    requires
        a.placed(),
        no_backdrops(a),
        align_rel(a, b),
    ensures
        b.placed(),
        no_backdrops(b),
    decreases vm_size(a), 2int,
{
    lemma_align_children_static(a, b);
    assert(a.children_placed());
    assert forall|i: int|
        0 <= i < b.children.len() implies {
        let c = #[trigger] b.children[i];
        if b.vertical() {
            c.spec_y() == b.y + b.padding.top + crate::views::layout::stack_span(
                b.children.take(i),
                b.spacing as int,
                true,
            )
        } else {
            c.spec_x() == b.x + b.padding.left + crate::views::layout::stack_span(
                b.children.take(i),
                b.spacing as int,
                false,
            )
        }
    } by {
        assert forall|j: int|
            0 <= j < i implies (#[trigger] b.children.take(i)[j]).spec_width() == a.children.take(
            i,
        )[j].spec_width() && b.children.take(i)[j].spec_height() == a.children.take(
            i,
        )[j].spec_height() by {
            assert(b.children.take(i)[j] == b.children[j]);
            assert(a.children.take(i)[j] == a.children[j]);
        }
        lemma_aggregates_pointwise(a.children.take(i), b.children.take(i), a.spacing as int);
    }
    if !b.assigned_width || !b.assigned_height {
        lemma_aggregates_pointwise(a.children, b.children, a.spacing as int);
        if b.vertical() {
            lemma_bottom_pointwise_cross(a.children, b.children, a.y + a.padding.top);
        } else {
            lemma_right_pointwise_cross(a.children, b.children, a.x + a.padding.left);
        }
    }
}

/// Children that keep their y positions and heights keep the farthest
/// bottom edge.
pub proof fn lemma_bottom_pointwise_cross(
    sa: Seq<ComponentModel>,
    sb: Seq<ComponentModel>,
    base: int,
)
    requires
        sb.len() == sa.len(),
        forall|i: int|
            0 <= i < sa.len() ==> (#[trigger] sb[i]).spec_y() == sa[i].spec_y() && sb[
                i
            ].spec_height() == sa[i].spec_height(),
    ensures
        crate::views::layout::max_bottom(sb, base) == crate::views::layout::max_bottom(sa, base),
    decreases sa,
{
    if sa.len() > 0 {
        assert forall|i: int|
            0 <= i < sa.len() - 1 implies (#[trigger] sb.drop_last()[i]).spec_y()
            == sa.drop_last()[i].spec_y() && sb.drop_last()[i].spec_height() == sa.drop_last()[
            i
        ].spec_height() by {
            assert(sa.drop_last()[i] == sa[i] && sb.drop_last()[i] == sb[i]);
        }
        lemma_bottom_pointwise_cross(sa.drop_last(), sb.drop_last(), base);
    }
}

/// Children that keep their x positions and widths keep the farthest
/// right edge.
pub proof fn lemma_right_pointwise_cross(
    sa: Seq<ComponentModel>,
    sb: Seq<ComponentModel>,
    base: int,
)
    requires
        sb.len() == sa.len(),
        forall|i: int|
            0 <= i < sa.len() ==> (#[trigger] sb[i]).spec_x() == sa[i].spec_x() && sb[
                i
            ].spec_width() == sa[i].spec_width(),
    ensures
        crate::views::layout::max_right(sb, base) == crate::views::layout::max_right(sa, base),
    decreases sa,
{
    if sa.len() > 0 {
        assert forall|i: int|
            0 <= i < sa.len() - 1 implies (#[trigger] sb.drop_last()[i]).spec_x()
            == sa.drop_last()[i].spec_x() && sb.drop_last()[i].spec_width() == sa.drop_last()[
            i
        ].spec_width() by {
            assert(sa.drop_last()[i] == sa[i] && sb.drop_last()[i] == sb[i]);
        }
        lemma_right_pointwise_cross(sa.drop_last(), sb.drop_last(), base);
    }
}

} // verus!
