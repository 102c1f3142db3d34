//! Translating a whole subtree: every owned widget and decoration moves by
//! the same offset, and nested views move recursively, so relative child
//! offsets are preserved.

use vstd::prelude::*;
use crate::views::divider::Decoration;
use crate::views::view::{
    lemma_models_of, models_of, ComponentModel, ViewComponent, ViewModel, ViewNode,
};
use crate::widgets::widget::Widget;

verus! {

/// Whether shifting the child's whole subtree by `(dx, dy)` stays within
/// `i32`.
pub open spec fn can_translate_c(c: ComponentModel, dx: int, dy: int) -> bool
    decreases c, 0int,
{
    match c {
        ComponentModel::Widget(w) => w.can_translate(dx, dy),
        ComponentModel::View(v) => can_translate_vm(v, dx, dy),
        ComponentModel::Decoration(d) => d.can_translate(dx, dy),
    }
}

pub open spec fn can_translate_vm(v: ViewModel, dx: int, dy: int) -> bool
    decreases v, 1int,
{
    &&& i32::MIN <= v.x + dx <= i32::MAX
    &&& i32::MIN <= v.y + dy <= i32::MAX
    &&& forall|i: int|
        0 <= i < v.children.len() ==> can_translate_c(#[trigger] v.children[i], dx, dy)
}

/// The child with its whole subtree shifted by `(dx, dy)`.
pub open spec fn translated_c(c: ComponentModel, dx: i32, dy: i32) -> ComponentModel
    decreases c, 0int,
{
    match c {
        ComponentModel::Widget(w) => ComponentModel::Widget(w.spec_translated(dx, dy)),
        ComponentModel::View(v) => ComponentModel::View(translated_vm(v, dx, dy)),
        ComponentModel::Decoration(d) => ComponentModel::Decoration(d.spec_translated(dx, dy)),
    }
}

pub open spec fn translated_children(s: Seq<ComponentModel>, dx: i32, dy: i32) -> Seq<
    ComponentModel,
>
    decreases s, 1int,
{
    if s.len() == 0 {
        Seq::empty()
    } else {
        translated_children(s.drop_last(), dx, dy).push(translated_c(s.last(), dx, dy))
    }
}

pub open spec fn translated_vm(v: ViewModel, dx: i32, dy: i32) -> ViewModel
    decreases v, 2int,
{
    ViewModel {
        x: (v.x + dx) as i32,
        y: (v.y + dy) as i32,
        children: translated_children(v.children, dx, dy),
        ..v
    }
}

pub proof fn lemma_translated_children(s: Seq<ComponentModel>, dx: i32, dy: i32)
    ensures
        translated_children(s, dx, dy).len() == s.len(),
        forall|i: int|
            0 <= i < s.len() ==> translated_children(s, dx, dy)[i] == translated_c(
                #[trigger] s[i],
                dx,
                dy,
            ),
    decreases s,
{
    if s.len() > 0 {
        lemma_translated_children(s.drop_last(), dx, dy);
        assert forall|i: int| 0 <= i < s.len() implies translated_children(s, dx, dy)[i]
            == translated_c(#[trigger] s[i], dx, dy) by {
            if i < s.len() - 1 {
                assert(s.drop_last()[i] == s[i]);
            }
        }
    }
}

impl ViewNode {
    /// Shift this view and its whole subtree by `(dx, dy)`.
    pub fn translate(&mut self, dx: i32, dy: i32)
        requires
            can_translate_vm(old(self).model(), dx as int, dy as int),
        ensures
            final(self).model() == translated_vm(old(self).model(), dx, dy),
        decreases *old(self),
    {
        self.x = self.x + dx;
        self.y = self.y + dy;
        let n = self.components.len();
        let ghost old_m = models_of(old(self).components@);
        proof {
            lemma_models_of(old(self).components@);
        }
        let mut i: usize = 0;
        while i < n
            invariant
                i <= n,
                n == self.components@.len() == old(self).components@.len(),
                old_m == models_of(old(self).components@),
                old_m.len() == n,
                can_translate_vm(old(self).model(), dx as int, dy as int),
                self.kind == old(self).kind,
                self.padding == old(self).padding,
                self.spacing == old(self).spacing,
                self.alignment == old(self).alignment,
                self.overlay_color == old(self).overlay_color,
                self.view_width == old(self).view_width,
                self.view_height == old(self).view_height,
                self.assigned_width == old(self).assigned_width,
                self.assigned_height == old(self).assigned_height,
                self.x == old(self).x + dx,
                self.y == old(self).y + dy,
                forall|j: int| i <= j < n ==> self.components@[j] == old(self).components@[j],
                forall|j: int|
                    0 <= j < i ==> #[trigger] models_of(self.components@)[j] == translated_c(
                        old_m[j],
                        dx,
                        dy,
                    ),
            decreases n - i,
        {
            let ghost pre_c = self.components@;
            let ghost pre_m = models_of(self.components@);
            proof {
                lemma_models_of(self.components@);
                lemma_models_of(old(self).components@);
                assert(self.components@[i as int] == old(self).components@[i as int]);
                assert(pre_m[i as int] == self.components@[i as int].model());
                assert(old_m[i as int] == old(self).components@[i as int].model());
                assert(old(self).model().children == old_m);
                assert(can_translate_c(old_m[i as int], dx as int, dy as int));
            }
            match &mut self.components[i] {
                ViewComponent::Widget(w) => {
                    w.translate(dx, dy);
                }
                ViewComponent::View(v) => {
                    v.translate(dx, dy);
                }
                ViewComponent::Decoration(d) => {
                    d.translate(dx, dy);
                }
            }
            proof {
                lemma_models_of(self.components@);
                lemma_models_of(pre_c);
                let cur_m = models_of(self.components@);
                assert(forall|j: int|
                    0 <= j < n && j != i ==> self.components@[j] == #[trigger] pre_c[j]);
                assert forall|j: int| 0 <= j < n && j != i implies #[trigger] cur_m[j]
                    == pre_m[j] by {
                    assert(cur_m[j] == self.components@[j].model());
                    assert(pre_m[j] == pre_c[j].model());
                }
                assert(cur_m[i as int] == self.components@[i as int].model());
                assert(cur_m[i as int] == translated_c(old_m[i as int], dx, dy));
            }
            i = i + 1;
        }
        proof {
            lemma_models_of(self.components@);
            lemma_translated_children(old_m, dx, dy);
            assert(models_of(self.components@) =~= translated_children(old_m, dx, dy));
        }
    }
}

} // verus!
