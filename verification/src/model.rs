//! The data that the transformation works on: a transform request, the source
//! interface with its generics and method items, and the mathematical view of
//! each of them. Identifiers, paths and other fragments of syntax are held as
//! token text.

use vstd::prelude::*;

verus! {

/// The views of the elements of a sequence, in the same order.
pub open spec fn views<T: View>(items: Seq<T>) -> Seq<T::V> {
    Seq::new(items.len(), |i: int| items[i]@)
}

/// One entry of the configuration: the name of the interface to generate and
/// the capability that every bindable method must additionally satisfy.
#[derive(Debug, Clone, PartialEq, Eq)]
pub struct TransformRequest {
    pub subtrait_name: String,
    pub subtrait_target: String,
}

pub struct TransformRequestView {
    pub subtrait_name: Seq<char>,
    pub subtrait_target: Seq<char>,
}

impl View for TransformRequest {
    type V = TransformRequestView;

    open spec fn view(&self) -> TransformRequestView {
        TransformRequestView {
            subtrait_name: self.subtrait_name@,
            subtrait_target: self.subtrait_target@,
        }
    }
}

/// The ordered list of transform requests. Each request produces its own
/// output, in the order given.
#[derive(Debug, Clone, PartialEq, Eq)]
pub struct Configuration {
    pub requests: Vec<TransformRequest>,
}

impl View for Configuration {
    type V = Seq<TransformRequestView>;

    open spec fn view(&self) -> Seq<TransformRequestView> {
        views(self.requests@)
    }
}

/// The three kinds of generic parameter.
#[derive(Debug, Clone, Copy, PartialEq, Eq, Structural)]
pub enum ParamKind {
    Lifetime,
    Type,
    Const,
}

/// One generic parameter of the source interface: `name` is what stands for
/// it in a list of generic arguments (`'a`, `T`, `N`), `decl` is its whole
/// declaration (`'a: 'b`, `T: Clone`, `const N: usize`).
#[derive(Debug, Clone, PartialEq, Eq)]
pub struct GenericParam {
    pub kind: ParamKind,
    pub name: String,
    pub decl: String,
}

pub struct GenericParamView {
    pub kind: ParamKind,
    pub name: Seq<char>,
    pub decl: Seq<char>,
}

impl View for GenericParam {
    type V = GenericParamView;

    open spec fn view(&self) -> GenericParamView {
        GenericParamView { kind: self.kind, name: self.name@, decl: self.decl@ }
    }
}

/// The generic parameter list of a declaration and its `where` clause. The
/// clause is held as written, keyword included, and is empty when there is
/// none.
#[derive(Debug, Clone, PartialEq, Eq)]
pub struct Generics {
    pub params: Vec<GenericParam>,
    pub where_clause: String,
}

pub struct GenericsView {
    pub params: Seq<GenericParamView>,
    pub where_clause: Seq<char>,
}

impl View for Generics {
    type V = GenericsView;

    open spec fn view(&self) -> GenericsView {
        GenericsView { params: views(self.params@), where_clause: self.where_clause@ }
    }
}

/// Whether a parameter is a lifetime.
pub open spec fn is_lifetime(param: GenericParamView) -> bool {
    param.kind == ParamKind::Lifetime
}

/// The order in which a parameter list is written: the lifetimes first, then
/// the types and constants, each group in declaration order. This is the
/// declaration order wherever the lifetimes are declared first.
pub open spec fn written_order(params: Seq<GenericParamView>) -> Seq<GenericParamView> {
    params.filter(|param: GenericParamView| is_lifetime(param)) + params.filter(
        |param: GenericParamView| !is_lifetime(param),
    )
}

proof fn lemma_filter_push(
    params: Seq<GenericParamView>,
    param: GenericParamView,
    keep: spec_fn(GenericParamView) -> bool,
)
    ensures
        params.push(param).filter(keep) == if keep(param) {
            params.filter(keep).push(param)
        } else {
            params.filter(keep)
        },
{
    reveal(Seq::filter);
    assert(params.push(param).drop_last() =~= params);
}

proof fn lemma_filter_empty(keep: spec_fn(GenericParamView) -> bool)
    ensures
        Seq::<GenericParamView>::empty().filter(keep) == Seq::<GenericParamView>::empty(),
{
    reveal(Seq::filter);
}

proof fn lemma_all_lifetimes(params: Seq<GenericParamView>)
    requires
        forall|i: int| 0 <= i < params.len() ==> is_lifetime(#[trigger] params[i]),
    ensures
        params.filter(|param: GenericParamView| is_lifetime(param)) == params,
        params.filter(|param: GenericParamView| !is_lifetime(param)) == Seq::<
            GenericParamView,
        >::empty(),
    decreases params.len(),
{
    let first = |param: GenericParamView| is_lifetime(param);
    let second = |param: GenericParamView| !is_lifetime(param);
    if params.len() == 0 {
        lemma_filter_empty(first);
        lemma_filter_empty(second);
        assert(params =~= Seq::empty());
    } else {
        lemma_all_lifetimes(params.drop_last());
        lemma_filter_push(params.drop_last(), params.last(), first);
        lemma_filter_push(params.drop_last(), params.last(), second);
        assert(params.drop_last().push(params.last()) =~= params);
    }
}

/// Where the lifetimes are declared before the other parameters, as the
/// compiler asks, the parameters are written in the order of their
/// declaration: the list is the source's own. Here the first `lifetimes`
/// parameters are the lifetimes.
pub proof fn lemma_written_order_of_ordered_params(params: Seq<GenericParamView>, lifetimes: int)
    requires
        0 <= lifetimes <= params.len(),
        forall|i: int| 0 <= i < lifetimes ==> is_lifetime(#[trigger] params[i]),
        forall|i: int| lifetimes <= i < params.len() ==> !is_lifetime(#[trigger] params[i]),
    ensures
        written_order(params) == params,
    decreases params.len(),
{
    let first = |param: GenericParamView| is_lifetime(param);
    let second = |param: GenericParamView| !is_lifetime(param);
    if lifetimes == params.len() {
        lemma_all_lifetimes(params);
        assert(params + Seq::<GenericParamView>::empty() =~= params);
    } else {
        let front = params.drop_last();
        let last = params.last();
        assert(!is_lifetime(last));
        assert(front.push(last) =~= params);
        lemma_written_order_of_ordered_params(front, lifetimes);
        lemma_filter_push(front, last, first);
        lemma_filter_push(front, last, second);
        let kept = front.filter(first);
        let rest = front.filter(second);
        assert(params.filter(first) == kept);
        assert(params.filter(second) == rest.push(last));
        assert(kept + rest.push(last) =~= (kept + rest).push(last));
    }
}

/// Whatever the order of declaration, the parameters that are written are
/// those that are declared, each once: the lifetimes, then the others.
pub proof fn lemma_written_order_keeps_every_param(params: Seq<GenericParamView>)
    ensures
        written_order(params).len() == params.len(),
        written_order(params).to_multiset() == params.to_multiset(),
    decreases params.len(),
{
    let first = |param: GenericParamView| is_lifetime(param);
    let second = |param: GenericParamView| !is_lifetime(param);
    vstd::seq_lib::lemma_multiset_commutative(params.filter(first), params.filter(second));
    if params.len() == 0 {
        lemma_filter_empty(first);
        lemma_filter_empty(second);
        assert(written_order(params) =~= params);
    } else {
        let front = params.drop_last();
        lemma_written_order_keeps_every_param(front);
        lemma_filter_push(front, params.last(), first);
        lemma_filter_push(front, params.last(), second);
        assert(front.push(params.last()) =~= params);
        vstd::seq_lib::lemma_multiset_commutative(front.filter(first), front.filter(second));
        vstd::seq_lib::lemma_multiset_commutative(params.filter(first), params.filter(second));
        front.to_multiset_ensures();
        params.to_multiset_ensures();
        front.filter(first).to_multiset_ensures();
        front.filter(second).to_multiset_ensures();
        assert(params.to_multiset() =~= front.to_multiset().insert(params.last()));
        assert(written_order(params).to_multiset() =~= written_order(front).to_multiset().insert(
            params.last(),
        ));
    }
}

impl GenericParam {
    /// A copy of this parameter.
    pub fn duplicate(&self) -> (copy: GenericParam)
        ensures
            copy@ == self@,
    {
        GenericParam { kind: self.kind, name: self.name.clone(), decl: self.decl.clone() }
    }
}

impl Generics {
    /// A copy of these generics: the same parameters in the same order, and
    /// the same `where` clause.
    pub fn duplicate(&self) -> (copy: Generics)
        ensures
            copy@ == self@,
    {
        let mut params: Vec<GenericParam> = Vec::new();
        let mut i: usize = 0;
        while i < self.params.len()
            invariant
                i <= self.params.len(),
                views(params@) == views(self.params@).take(i as int),
            decreases self.params.len() - i,
        {
            params.push(self.params[i].duplicate());
            assert(views(self.params@).take(i + 1) =~= views(self.params@).take(i as int).push(
                self.params[i as int]@,
            ));
            i += 1;
        }
        assert(views(self.params@).take(self.params.len() as int) =~= views(self.params@));
        Generics { params, where_clause: self.where_clause.clone() }
    }

    /// The parameters in the order in which they are written.
    pub fn in_written_order(&self) -> (ordered: Vec<GenericParam>)
        ensures
            views(ordered@) == written_order(self@.params),
    {
        let ghost all = views(self.params@);
        let ghost first = |param: GenericParamView| is_lifetime(param);
        let ghost second = |param: GenericParamView| !is_lifetime(param);
        let mut ordered: Vec<GenericParam> = Vec::new();
        let mut i: usize = 0;
        proof {
            lemma_filter_empty(first);
            lemma_filter_empty(second);
            assert(all.take(0) =~= Seq::empty());
            assert(views(ordered@) =~= Seq::empty());
        }
        while i < self.params.len()
            invariant
                i <= self.params.len(),
                all == views(self.params@),
                first == |param: GenericParamView| is_lifetime(param),
                views(ordered@) == all.take(i as int).filter(first),
            decreases self.params.len() - i,
        {
            let ghost before = views(ordered@);
            proof {
                assert(all.take(i + 1) =~= all.take(i as int).push(self.params[i as int]@));
                lemma_filter_push(all.take(i as int), self.params[i as int]@, first);
            }
            match self.params[i].kind {
                ParamKind::Lifetime => {
                    ordered.push(self.params[i].duplicate());
                    assert(views(ordered@) =~= before.push(self.params[i as int]@));
                },
                _ => {},
            }
            i += 1;
        }
        let mut j: usize = 0;
        proof {
            assert(all.take(self.params.len() as int) =~= all);
            assert(views(ordered@) =~= all.filter(first) + all.take(0).filter(second));
        }
        while j < self.params.len()
            invariant
                j <= self.params.len(),
                all == views(self.params@),
                first == |param: GenericParamView| is_lifetime(param),
                second == |param: GenericParamView| !is_lifetime(param),
                views(ordered@) == all.filter(first) + all.take(j as int).filter(second),
            decreases self.params.len() - j,
        {
            let ghost before = views(ordered@);
            proof {
                assert(all.take(j + 1) =~= all.take(j as int).push(self.params[j as int]@));
                lemma_filter_push(all.take(j as int), self.params[j as int]@, second);
            }
            match self.params[j].kind {
                ParamKind::Lifetime => {},
                _ => {
                    ordered.push(self.params[j].duplicate());
                    assert(views(ordered@) =~= before.push(self.params[j as int]@));
                    assert(views(ordered@) =~= all.filter(first) + all.take(j + 1).filter(second));
                },
            }
            j += 1;
        }
        proof {
            assert(all.take(self.params.len() as int) =~= all);
        }
        ordered
    }
}

/// What a method declares as its return type, as far as classification looks:
/// nothing, an opaque type (`impl Trait`), or any other type. Only the
/// outermost level of the type counts.
#[derive(Debug, Clone, Copy, PartialEq, Eq, Structural)]
pub enum ReturnKind {
    Default,
    Opaque,
    Concrete,
}

/// The part of a method signature that the transformation reads.
#[derive(Debug, Clone, PartialEq, Eq)]
pub struct Signature {
    pub name: String,
    pub is_async: bool,
    pub output: ReturnKind,
}

pub struct SignatureView {
    pub name: Seq<char>,
    pub is_async: bool,
    pub output: ReturnKind,
}

impl View for Signature {
    type V = SignatureView;

    open spec fn view(&self) -> SignatureView {
        SignatureView { name: self.name@, is_async: self.is_async, output: self.output }
    }
}

/// An item of the source interface: a function signature, an associated
/// type, or anything else (an associated constant, a macro invocation).
#[derive(Debug, Clone, PartialEq, Eq)]
pub enum MethodItem {
    Function(Signature),
    AssociatedType,
    Other,
}

pub enum MethodItemView {
    Function(SignatureView),
    AssociatedType,
    Other,
}

impl View for MethodItem {
    type V = MethodItemView;

    open spec fn view(&self) -> MethodItemView {
        match self {
            MethodItem::Function(sig) => MethodItemView::Function(sig@),
            MethodItem::AssociatedType => MethodItemView::AssociatedType,
            MethodItem::Other => MethodItemView::Other,
        }
    }
}

/// The annotated interface declaration. It is only read: the derived
/// declarations copy its visibility, modifiers and generics, and never its
/// attributes, supertraits or items. The visibility is empty when the
/// declaration has none.
#[derive(Debug, Clone, PartialEq, Eq)]
pub struct SourceInterface {
    pub vis: String,
    pub unsafety: bool,
    pub auto_token: bool,
    pub ident: String,
    pub generics: Generics,
    pub items: Vec<MethodItem>,
}

pub struct SourceInterfaceView {
    pub vis: Seq<char>,
    pub unsafety: bool,
    pub auto_token: bool,
    pub ident: Seq<char>,
    pub generics: GenericsView,
    pub items: Seq<MethodItemView>,
}

impl View for SourceInterface {
    type V = SourceInterfaceView;

    open spec fn view(&self) -> SourceInterfaceView {
        SourceInterfaceView {
            vis: self.vis@,
            unsafety: self.unsafety,
            auto_token: self.auto_token,
            ident: self.ident@,
            generics: self.generics@,
            items: views(self.items@),
        }
    }
}

} // verus!
