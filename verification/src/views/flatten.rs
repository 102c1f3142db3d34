//! Flattening the tree for the per-frame work: every widget in z-order
//! (depth first, children before later siblings) for event routing and
//! rendering, and every decoration in the same order for the render pass.
//! An overlay contributes its full-window backdrop before its own
//! decorations.

use vstd::prelude::*;
use crate::views::divider::{Backdrop, Decoration};
use crate::views::view::{
    lemma_models_of, models_of, ComponentModel, ViewComponent, ViewKind, ViewModel, ViewNode,
};
use crate::widgets::widget::Widget;

verus! {

/// The widgets in this child's subtree, in z-order.
pub open spec fn flat_widgets_c(c: ComponentModel) -> Seq<Widget>
    decreases c, 0int,
{
    match c {
        ComponentModel::Widget(w) => seq![w],
        ComponentModel::View(v) => flat_widgets_vm(v),
        ComponentModel::Decoration(_) => Seq::empty(),
    }
}

pub open spec fn flat_widgets_seq(s: Seq<ComponentModel>) -> Seq<Widget>
    decreases s, 1int,
{
    if s.len() == 0 {
        Seq::empty()
    } else {
        flat_widgets_c(s.first()) + flat_widgets_seq(s.drop_first())
    }
}

pub open spec fn flat_widgets_vm(v: ViewModel) -> Seq<Widget>
    decreases v, 2int,
{
    flat_widgets_seq(v.children)
}

/// The decorations in this child's subtree, in z-order.
pub open spec fn flat_decorations_c(c: ComponentModel) -> Seq<Decoration>
    decreases c, 0int,
{
    match c {
        ComponentModel::Widget(_) => Seq::empty(),
        ComponentModel::View(v) => flat_decorations_vm(v),
        ComponentModel::Decoration(d) => seq![d],
    }
}

pub open spec fn flat_decorations_seq(s: Seq<ComponentModel>) -> Seq<Decoration>
    decreases s, 1int,
{
    if s.len() == 0 {
        Seq::empty()
    } else {
        flat_decorations_c(s.first()) + flat_decorations_seq(s.drop_first())
    }
}

pub open spec fn flat_decorations_vm(v: ViewModel) -> Seq<Decoration>
    decreases v, 2int,
{
    (if v.kind == ViewKind::Overlay {
        seq![Decoration::Backdrop(Backdrop { color: v.overlay_color })]
    } else {
        Seq::empty()
    }) + flat_decorations_seq(v.children)
}

impl ViewNode {
    /// Consume the laid-out tree, returning its widgets and decorations,
    /// each flattened in z-order.
    pub fn flatten(self) -> (r: (Vec<Widget>, Vec<Decoration>))
        ensures
            r.0@ == flat_widgets_vm(self.model()),
            r.1@ == flat_decorations_vm(self.model()),
        decreases self,
    {
        let mut widgets: Vec<Widget> = Vec::new();
        let mut decorations: Vec<Decoration> = Vec::new();
        let is_overlay = match self.kind {
            ViewKind::Overlay => true,
            _ => false,
        };
        if is_overlay {
            decorations.push(Decoration::Backdrop(Backdrop { color: self.overlay_color }));
        }
        let mut comps = self.components;
        let total = comps.len();
        let ghost all_c = comps@;
        let mut idx: usize = 0;
        proof {
            lemma_models_of(all_c);
            assert(all_c.skip(0) =~= all_c);
        }
        let ghost all_m = models_of(all_c);
        while comps.len() > 0
            invariant
                idx <= all_c.len(),
                all_c.len() == total,
                comps@.len() == all_c.len() - idx,
                comps@ =~= all_c.skip(idx as int),
                all_m == models_of(all_c),
                all_c == self.components@,
                flat_widgets_seq(all_m) =~= widgets@ + flat_widgets_seq(models_of(comps@)),
                flat_decorations_vm(self.model()) =~= decorations@ + flat_decorations_seq(
                    models_of(comps@),
                ),
            decreases comps.len(),
        {
            let ghost pre = models_of(comps@);
            proof {
                lemma_models_of(comps@);
            }
            let c = comps.remove(0);
            proof {
                lemma_models_of(comps@);
                assert(idx < all_c.len());
                assert(c == all_c[idx as int]);
                assert(comps@ =~= all_c.skip(idx + 1));
                assert(models_of(comps@) =~= pre.drop_first()) by {
                    lemma_models_of(comps@);
                    lemma_models_of(all_c.skip(idx as int));
                    assert forall|j: int| 0 <= j < comps@.len() implies models_of(comps@)[j]
                        == pre.drop_first()[j] by {
                        assert(models_of(comps@)[j] == comps@[j].model());
                        assert(pre.drop_first()[j] == all_c.skip(idx as int)[j + 1].model());
                    }
                }
                assert(c.model() == pre.first());
            }
            let ghost m_c = c.model();
            let ghost pre_w = widgets@;
            let ghost pre_d = decorations@;
            proof {
                assert(flat_widgets_seq(pre) =~= flat_widgets_c(m_c) + flat_widgets_seq(
                    models_of(comps@),
                ));
                assert(flat_decorations_seq(pre) =~= flat_decorations_c(m_c)
                    + flat_decorations_seq(models_of(comps@)));
            }
            match c {
                ViewComponent::Widget(w) => {
                    proof {
                        assert(flat_widgets_c(m_c) =~= seq![w]);
                    }
                    widgets.push(w);
                }
                ViewComponent::View(v) => {
                    proof {
                        assert(self.components@[idx as int] == ViewComponent::View(v));
                    }
                    let (mut ws, mut ds) = (*v).flatten();
                    widgets.append(&mut ws);
                    decorations.append(&mut ds);
                }
                ViewComponent::Decoration(d) => {
                    proof {
                        assert(flat_decorations_c(m_c) =~= seq![d]);
                    }
                    decorations.push(d);
                }
            }
            proof {
                assert(widgets@ =~= pre_w + flat_widgets_c(m_c));
                assert(decorations@ =~= pre_d + flat_decorations_c(m_c));
                assert(widgets@ + flat_widgets_seq(models_of(comps@)) =~= flat_widgets_seq(all_m));
                assert(decorations@ + flat_decorations_seq(models_of(comps@))
                    =~= flat_decorations_vm(self.model()));
            }
            idx = idx + 1;
        }
        (widgets, decorations)
    }
}

} // verus!
