//! Classification of the items of an interface, and the binding list that
//! follows from it.

use vstd::prelude::*;
use crate::derived::{Binding, BindingView};
use crate::model::{views, MethodItem, MethodItemView, ReturnKind, SignatureView};

verus! {

/// The label of a method item. Only `Bindable` items contribute to the bounds
/// of a derived declaration.
#[derive(Debug, Clone, Copy, PartialEq, Eq, Structural)]
pub enum Classification {
    Bindable,
    Plain,
}

/// A signature is bindable when the method is asynchronous or declares an
/// opaque return type.
pub open spec fn signature_is_bindable(sig: SignatureView) -> bool {
    sig.is_async || sig.output == ReturnKind::Opaque
}

/// An item is bindable when it is a function with a bindable signature.
pub open spec fn is_bindable(item: MethodItemView) -> bool {
    match item {
        MethodItemView::Function(sig) => signature_is_bindable(sig),
        _ => false,
    }
}

/// The label of an item: `Bindable` when it is bindable, else `Plain`.
pub open spec fn classify_spec(item: MethodItemView) -> Classification {
    if is_bindable(item) {
        Classification::Bindable
    } else {
        Classification::Plain
    }
}

/// The name of a function item; empty for any other item.
pub open spec fn method_name(item: MethodItemView) -> Seq<char> {
    match item {
        MethodItemView::Function(sig) => sig.name,
        _ => Seq::empty(),
    }
}

/// The binding that pins the return value of `item` to `target`.
pub open spec fn binding_for(item: MethodItemView, target: Seq<char>) -> BindingView {
    BindingView { method: method_name(item), target }
}

/// The binding list of an interface: its bindable items, in declaration
/// order, each bound to `target`.
pub open spec fn bindings_spec(items: Seq<MethodItemView>, target: Seq<char>) -> Seq<BindingView> {
    items.filter(|item: MethodItemView| is_bindable(item)).map_values(
        |item: MethodItemView| binding_for(item, target),
    )
}

/// The positions of the bindable items of an interface, in increasing order.
pub open spec fn bindable_positions(items: Seq<MethodItemView>) -> Seq<int>
    decreases items.len(),
{
    if items.len() == 0 {
        Seq::empty()
    } else if is_bindable(items.last()) {
        bindable_positions(items.drop_last()).push(items.len() - 1)
    } else {
        bindable_positions(items.drop_last())
    }
}

/// Labels one item.
pub fn classify(item: &MethodItem) -> (label: Classification)
    ensures
        label == classify_spec(item@),
{
    match item {
        MethodItem::Function(sig) => {
            let opaque = match sig.output {
                ReturnKind::Opaque => true,
                _ => false,
            };
            if sig.is_async || opaque {
                Classification::Bindable
            } else {
                Classification::Plain
            }
        },
        _ => Classification::Plain,
    }
}

proof fn lemma_bindings_empty(target: Seq<char>)
    ensures
        bindings_spec(Seq::empty(), target) == Seq::<BindingView>::empty(),
{
    reveal(Seq::filter);
}

proof fn lemma_bindings_push(items: Seq<MethodItemView>, item: MethodItemView, target: Seq<char>)
    ensures
        bindings_spec(items.push(item), target) == if is_bindable(item) {
            bindings_spec(items, target).push(binding_for(item, target))
        } else {
            bindings_spec(items, target)
        },
{
    reveal(Seq::filter);
    assert(items.push(item).drop_last() =~= items);
}

/// Builds the binding list of `items` for the capability `target`.
pub fn binding_list(items: &Vec<MethodItem>, target: &str) -> (bindings: Vec<Binding>)
    ensures
        views(bindings@) == bindings_spec(views(items@), target@),
{
    let mut bindings: Vec<Binding> = Vec::new();
    let mut i: usize = 0;
    proof {
        lemma_bindings_empty(target@);
    }
    while i < items.len()
        invariant
            i <= items.len(),
            views(bindings@) == bindings_spec(views(items@).take(i as int), target@),
        decreases items.len() - i,
    {
        proof {
            assert(views(items@).take(i + 1) =~= views(items@).take(i as int).push(
                items[i as int]@,
            ));
            lemma_bindings_push(views(items@).take(i as int), items[i as int]@, target@);
        }
        match &items[i] {
            MethodItem::Function(sig) => {
                match classify(&items[i]) {
                    Classification::Bindable => {
                        bindings.push(
                            Binding { method: sig.name.clone(), target: target.to_owned() },
                        );
                    },
                    Classification::Plain => {},
                }
            },
            _ => {},
        }
        i += 1;
    }
    proof {
        assert(views(items@).take(items.len() as int) =~= views(items@));
    }
    bindings
}

/// Two items have the same shape when both are functions that agree on being
/// asynchronous and on the kind of their return type, or when neither is a
/// function.
pub open spec fn same_shape(a: MethodItemView, b: MethodItemView) -> bool {
    match (a, b) {
        (MethodItemView::Function(first), MethodItemView::Function(second)) => first.is_async
            == second.is_async && first.output == second.output,
        (MethodItemView::Function(_), _) => false,
        (_, MethodItemView::Function(_)) => false,
        _ => true,
    }
}

/// Classification is a function of the shape of an item and of nothing else:
/// items of the same shape get the same label, whatever their names, so an
/// interface that has not changed is labelled as before.
pub proof fn lemma_classification_depends_on_shape(a: MethodItemView, b: MethodItemView)
    requires
        same_shape(a, b),
    ensures
        classify_spec(a) == classify_spec(b),
{
}

/// An item that is not a function is never bindable.
pub proof fn lemma_other_items_are_plain(item: MethodItemView)
    requires
        !(item is Function),
    ensures
        classify_spec(item) == Classification::Plain,
{
}

/// The binding list follows the declaration order: its entries are the
/// bindable items of the interface, each exactly once, in the order in which
/// they are declared, and no plain item contributes an entry.
pub proof fn lemma_bindings_preserve_order(items: Seq<MethodItemView>, target: Seq<char>)
    ensures
        bindable_positions(items).len() == bindings_spec(items, target).len(),
        forall|k: int|
            0 <= k < bindable_positions(items).len() ==> {
                let p = #[trigger] bindable_positions(items)[k];
                &&& 0 <= p < items.len()
                &&& is_bindable(items[p])
                &&& bindings_spec(items, target)[k] == binding_for(items[p], target)
            },
        forall|j: int, k: int|
            0 <= j < k < bindable_positions(items).len() ==> bindable_positions(items)[j]
                < bindable_positions(items)[k],
        forall|p: int|
            0 <= p < items.len() && is_bindable(#[trigger] items[p]) ==> bindable_positions(
                items,
            ).contains(p),
    decreases items.len(),
{
    if items.len() == 0 {
        lemma_bindings_empty(target);
    } else {
        let front = items.drop_last();
        lemma_bindings_preserve_order(front, target);
        lemma_bindings_push(front, items.last(), target);
        assert(front.push(items.last()) =~= items);
        let pos = bindable_positions(items);
        let front_pos = bindable_positions(front);
        assert forall|p: int| 0 <= p < items.len() && is_bindable(
            #[trigger] items[p],
        ) implies pos.contains(p) by {
            if p < items.len() - 1 {
                let k = choose|k: int| 0 <= k < front_pos.len() && front_pos[k] == p;
                assert(pos[k] == p);
            } else {
                assert(pos[pos.len() - 1] == p);
            }
        }
    }
}

} // verus!
