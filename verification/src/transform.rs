//! The transformation itself: from a transform request and the source
//! interface to the derived declaration and its blanket implementation, and
//! from a configuration to one such pair for each request.

use vstd::prelude::*;
use crate::classify::{
    bindable_positions, binding_list, bindings_spec, is_bindable, lemma_bindings_preserve_order,
};
use crate::derived::{
    Bound, BoundView, DerivedImpl, DerivedImplView, DerivedPair, DerivedPairView, DerivedTrait,
    DerivedTraitView, Specialization, SpecializationView,
};
use crate::model::{
    views, written_order, Configuration, GenericParamView, Generics, GenericsView,
    SourceInterface, SourceInterfaceView, TransformRequest, TransformRequestView,
};

verus! {

/// The name of the type parameter that a blanket implementation introduces.
pub open spec fn synthetic_name() -> Seq<char> {
    "__WSelf"@
}

/// The generic arguments that apply a declaration to its own parameters: the
/// names of the parameters, in the order in which parameters are written.
pub open spec fn generic_args_spec(generics: GenericsView) -> Seq<Seq<char>> {
    written_order(generics.params).map_values(|param: GenericParamView| param.name)
}

/// The source interface specialized for a request: applied to its own
/// generic arguments, with each bindable method bound to the request's
/// target.
pub open spec fn specialization_spec(
    request: TransformRequestView,
    source: SourceInterfaceView,
) -> SpecializationView {
    SpecializationView {
        source: source.ident,
        args: generic_args_spec(source.generics),
        bindings: bindings_spec(source.items, request.subtrait_target),
    }
}

/// The two bounds that a request puts on the derived declaration and on the
/// synthetic parameter of its implementation: the specialized source
/// interface, then the target capability.
pub open spec fn supertraits_spec(
    request: TransformRequestView,
    source: SourceInterfaceView,
) -> Seq<BoundView> {
    seq![
        BoundView::Specialized(specialization_spec(request, source)),
        BoundView::Capability(request.subtrait_target),
    ]
}

/// The derived interface declaration of a request.
pub open spec fn derived_trait_spec(
    request: TransformRequestView,
    source: SourceInterfaceView,
) -> DerivedTraitView {
    DerivedTraitView {
        vis: source.vis,
        unsafety: source.unsafety,
        auto_token: source.auto_token,
        ident: request.subtrait_name,
        generics: source.generics,
        supertraits: supertraits_spec(request, source),
    }
}

/// The blanket implementation of a request.
pub open spec fn derived_impl_spec(
    request: TransformRequestView,
    source: SourceInterfaceView,
) -> DerivedImplView {
    DerivedImplView {
        unsafety: source.unsafety,
        generics: source.generics,
        synthetic: synthetic_name(),
        bounds: supertraits_spec(request, source),
        trait_name: request.subtrait_name,
        trait_args: generic_args_spec(source.generics),
        self_ty: synthetic_name(),
    }
}

/// What one request produces.
pub open spec fn derived_pair_spec(
    request: TransformRequestView,
    source: SourceInterfaceView,
) -> DerivedPairView {
    DerivedPairView {
        declaration: derived_trait_spec(request, source),
        implementation: derived_impl_spec(request, source),
    }
}

/// What a configuration produces: the pair of each request, in request order.
pub open spec fn transform_spec(
    config: Seq<TransformRequestView>,
    source: SourceInterfaceView,
) -> Seq<DerivedPairView> {
    config.map_values(|request: TransformRequestView| derived_pair_spec(request, source))
}

/// A pair holds together: the declaration has exactly two supertraits, a
/// specialization whose bindings all name the capability that follows it;
/// the implementation is of that declaration, applied to the generic
/// arguments of the parameters they share, for its own synthetic parameter,
/// which carries the same two bounds.
pub open spec fn pair_is_coherent(pair: DerivedPairView) -> bool {
    let declaration = pair.declaration;
    let implementation = pair.implementation;
    &&& declaration.supertraits.len() == 2
    &&& declaration.supertraits[0] matches BoundView::Specialized(specialized)
    &&& declaration.supertraits[1] matches BoundView::Capability(target)
    &&& specialized.args == generic_args_spec(declaration.generics)
    &&& forall|k: int|
        0 <= k < specialized.bindings.len() ==> (#[trigger] specialized.bindings[k]).target
            == target
    &&& implementation.bounds == declaration.supertraits
    &&& implementation.unsafety == declaration.unsafety
    &&& implementation.generics == declaration.generics
    &&& implementation.trait_name == declaration.ident
    &&& implementation.trait_args == generic_args_spec(declaration.generics)
    &&& implementation.self_ty == implementation.synthetic
}

/// The names of the parameters of `generics`, in the order in which
/// parameters are written.
pub fn generic_args(generics: &Generics) -> (args: Vec<String>)
    ensures
        views(args@) == generic_args_spec(generics@),
{
    let ordered = generics.in_written_order();
    let mut args: Vec<String> = Vec::new();
    let mut i: usize = 0;
    while i < ordered.len()
        invariant
            i <= ordered.len(),
            views(ordered@) == written_order(generics@.params),
            views(args@) == generic_args_spec(generics@).take(i as int),
        decreases ordered.len() - i,
    {
        let ghost before = views(args@);
        args.push(ordered[i].name.clone());
        assert(views(ordered@)[i as int] == ordered[i as int]@);
        assert(views(args@) =~= before.push(ordered[i as int].name@));
        assert(generic_args_spec(generics@).take(i + 1) =~= generic_args_spec(generics@).take(
            i as int,
        ).push(ordered[i as int].name@));
        i += 1;
    }
    assert(views(ordered@).len() == ordered.len());
    assert(generic_args_spec(generics@).take(ordered.len() as int) =~= generic_args_spec(
        generics@,
    ));
    args
}

/// The two bounds of a request: the specialized source interface and the
/// target capability.
pub fn supertraits(request: &TransformRequest, source: &SourceInterface) -> (bounds: Vec<Bound>)
    ensures
        views(bounds@) == supertraits_spec(request@, source@),
{
    let specialized = Specialization {
        source: source.ident.clone(),
        args: generic_args(&source.generics),
        bindings: binding_list(&source.items, request.subtrait_target.as_str()),
    };
    let mut bounds: Vec<Bound> = Vec::new();
    bounds.push(Bound::Specialized(specialized));
    bounds.push(Bound::Capability(request.subtrait_target.clone()));
    bounds
}

/// Builds the derived interface declaration of a request: the source's
/// visibility, modifiers and generics under the requested name, with the two
/// bounds of the request as supertraits.
pub fn derive_trait(request: &TransformRequest, source: &SourceInterface) -> (declaration:
    DerivedTrait)
    ensures
        declaration@ == derived_trait_spec(request@, source@),
{
    DerivedTrait {
        vis: source.vis.clone(),
        unsafety: source.unsafety,
        auto_token: source.auto_token,
        ident: request.subtrait_name.clone(),
        generics: source.generics.duplicate(),
        supertraits: supertraits(request, source),
    }
}

/// Builds the blanket implementation of a request: for every type `__WSelf`
/// that meets the two bounds of the request, an implementation of the derived
/// interface applied to the source's own generic arguments.
pub fn derive_impl(request: &TransformRequest, source: &SourceInterface) -> (implementation:
    DerivedImpl)
    ensures
        implementation@ == derived_impl_spec(request@, source@),
{
    DerivedImpl {
        unsafety: source.unsafety,
        generics: source.generics.duplicate(),
        synthetic: "__WSelf".to_owned(),
        bounds: supertraits(request, source),
        trait_name: request.subtrait_name.clone(),
        trait_args: generic_args(&source.generics),
        self_ty: "__WSelf".to_owned(),
    }
}

/// Transforms the source interface for one request.
pub fn transform_request(request: &TransformRequest, source: &SourceInterface) -> (pair:
    DerivedPair)
    ensures
        pair@ == derived_pair_spec(request@, source@),
{
    DerivedPair {
        declaration: derive_trait(request, source),
        implementation: derive_impl(request, source),
    }
}

/// Transforms the source interface for every request of the configuration,
/// in request order. The source is left as it is.
pub fn transform_trait(config: &Configuration, source: &SourceInterface) -> (pairs: Vec<
    DerivedPair,
>)
    ensures
        views(pairs@) == transform_spec(config@, source@),
{
    let mut pairs: Vec<DerivedPair> = Vec::new();
    let mut i: usize = 0;
    while i < config.requests.len()
        invariant
            i <= config.requests.len(),
            views(pairs@) == transform_spec(config@, source@).take(i as int),
        decreases config.requests.len() - i,
    {
        pairs.push(transform_request(&config.requests[i], source));
        assert(transform_spec(config@, source@).take(i + 1) =~= transform_spec(
            config@,
            source@,
        ).take(i as int).push(derived_pair_spec(config.requests[i as int]@, source@)));
        i += 1;
    }
    pairs
}

/// Every pair that the transformation produces is coherent, whatever the
/// request and the source interface.
pub proof fn lemma_derived_pair_is_coherent(
    request: TransformRequestView,
    source: SourceInterfaceView,
)
    ensures
        pair_is_coherent(derived_pair_spec(request, source)),
{
}

/// An interface without any bindable method still gets its pair: the binding
/// list is empty, so the first supertrait is the source interface applied to
/// its own generic arguments and nothing more, the second is the target, and
/// the pair is coherent.
pub proof fn lemma_no_bindable_method(request: TransformRequestView, source: SourceInterfaceView)
    requires
        forall|i: int| 0 <= i < source.items.len() ==> !is_bindable(#[trigger] source.items[i]),
    ensures
        bindings_spec(source.items, request.subtrait_target).len() == 0,
        derived_pair_spec(request, source).declaration.supertraits == seq![
            BoundView::Specialized(
                SpecializationView {
                    source: source.ident,
                    args: generic_args_spec(source.generics),
                    bindings: Seq::empty(),
                },
            ),
            BoundView::Capability(request.subtrait_target),
        ],
        pair_is_coherent(derived_pair_spec(request, source)),
{
    lemma_derived_pair_is_coherent(request, source);
    lemma_bindings_preserve_order(source.items, request.subtrait_target);
    let positions = bindable_positions(source.items);
    if positions.len() > 0 {
        assert(is_bindable(source.items[positions[0]]));
    }
    assert(bindings_spec(source.items, request.subtrait_target) =~= Seq::empty());
}

/// Requests do not interfere: a configuration yields one pair for each
/// request, in request order, and the pair of a request is the same in every
/// configuration that holds the request, at whatever position and whatever
/// the other requests are.
pub proof fn lemma_requests_are_independent(
    first: Seq<TransformRequestView>,
    i: int,
    second: Seq<TransformRequestView>,
    j: int,
    source: SourceInterfaceView,
)
    requires
        0 <= i < first.len(),
        0 <= j < second.len(),
        first[i] == second[j],
    ensures
        transform_spec(first, source).len() == first.len(),
        transform_spec(first, source)[i] == derived_pair_spec(first[i], source),
        transform_spec(first, source)[i] == transform_spec(second, source)[j],
{
}

} // verus!
