//! The derived declarations as token text. Tokens are separated by single
//! spaces, a declaration and its implementation by a line break.
//!
//! The text is written here and not by `syn`'s printer. A derived declaration
//! is no node of `syn`'s syntax tree: the bound `Source < .. , method (..) :
//! Target >` has no place in one but as verbatim tokens, and a tree could
//! only be had from the token text that the library holds by parsing it
//! again, which can fail where writing cannot. What is written follows what
//! `syn` writes for a trait and for an implementation of this shape: the
//! same parts in the same order, the parameters with the lifetimes first.
//! `syn` may leave a comma after the last parameter; none is written here.

use vstd::prelude::*;
use crate::derived::{
    Binding, BindingView, Bound, BoundView, DerivedImpl, DerivedImplView, DerivedPair,
    DerivedPairView, DerivedTrait, DerivedTraitView, Specialization, SpecializationView,
};
use crate::model::{views, written_order, GenericParamView, Generics, GenericsView};

verus! {

/// The parts in order, with the separator between each two neighbours.
pub open spec fn joined(parts: Seq<Seq<char>>, separator: Seq<char>) -> Seq<char>
    decreases parts.len(),
{
    if parts.len() == 0 {
        Seq::empty()
    } else if parts.len() == 1 {
        parts[0]
    } else {
        joined(parts.drop_last(), separator) + separator + parts.last()
    }
}

/// A binding: `method (..) : target`.
pub open spec fn binding_text(binding: BindingView) -> Seq<char> {
    binding.method + " (..) : "@ + binding.target
}

/// A list of generic arguments between angle brackets.
pub open spec fn angle_text(entries: Seq<Seq<char>>) -> Seq<char> {
    if entries.len() == 0 {
        "< >"@
    } else {
        "< "@ + joined(entries, " , "@) + " >"@
    }
}

/// The entries of a specialization: the generic arguments, then the bindings.
pub open spec fn specialization_entries(specialized: SpecializationView) -> Seq<Seq<char>> {
    specialized.args + specialized.bindings.map_values(|b: BindingView| binding_text(b))
}

/// A specialization: the source interface, then its entries between angle
/// brackets.
pub open spec fn specialization_text(specialized: SpecializationView) -> Seq<char> {
    specialized.source + " "@ + angle_text(specialization_entries(specialized))
}

/// A bound: the specialization as above, or the path of the capability.
pub open spec fn bound_text(bound: BoundView) -> Seq<char> {
    match bound {
        BoundView::Specialized(specialized) => specialization_text(specialized),
        BoundView::Capability(path) => path,
    }
}

/// A list of bounds, joined by `+`.
pub open spec fn bounds_text(bounds: Seq<BoundView>) -> Seq<char> {
    joined(bounds.map_values(|b: BoundView| bound_text(b)), " + "@)
}

/// The declarations of the parameters, in the order in which parameters are
/// written.
pub open spec fn param_decls(generics: GenericsView) -> Seq<Seq<char>> {
    written_order(generics.params).map_values(|param: GenericParamView| param.decl)
}

/// `fragment` followed by a space, or nothing when `fragment` is empty.
pub open spec fn leading(fragment: Seq<char>) -> Seq<char> {
    if fragment.len() == 0 {
        Seq::empty()
    } else {
        fragment + " "@
    }
}

/// A space followed by `fragment`, or nothing when `fragment` is empty.
pub open spec fn trailing(fragment: Seq<char>) -> Seq<char> {
    if fragment.len() == 0 {
        Seq::empty()
    } else {
        " "@ + fragment
    }
}

/// `keyword` followed by a space when `present`, else nothing.
pub open spec fn keyword_text(present: bool, keyword: Seq<char>) -> Seq<char> {
    if present {
        keyword + " "@
    } else {
        Seq::empty()
    }
}

/// The parameter list of a declaration between angle brackets, with a space
/// before it; nothing when there are no parameters.
pub open spec fn param_list_text(generics: GenericsView) -> Seq<char> {
    if generics.params.len() == 0 {
        Seq::empty()
    } else {
        " < "@ + joined(param_decls(generics), " , "@) + " >"@
    }
}

/// A derived interface declaration:
/// `vis unsafe auto trait Name < params > : bounds where ... { }`.
pub open spec fn trait_text(declaration: DerivedTraitView) -> Seq<char> {
    leading(declaration.vis) + keyword_text(declaration.unsafety, "unsafe"@) + keyword_text(
        declaration.auto_token,
        "auto"@,
    ) + "trait "@ + declaration.ident + param_list_text(declaration.generics) + " : "@
        + bounds_text(declaration.supertraits) + trailing(declaration.generics.where_clause)
        + " { }"@
}

/// The declaration of the synthetic parameter: its name and its bounds.
pub open spec fn synthetic_decl(implementation: DerivedImplView) -> Seq<char> {
    implementation.synthetic + " : "@ + bounds_text(implementation.bounds)
}

/// A blanket implementation:
/// `unsafe impl < params , synthetic : bounds > Name < args > for self_ty where ... { }`.
pub open spec fn impl_text(implementation: DerivedImplView) -> Seq<char> {
    keyword_text(implementation.unsafety, "unsafe"@) + "impl < "@ + joined(
        param_decls(implementation.generics).push(synthetic_decl(implementation)),
        " , "@,
    ) + " > "@ + implementation.trait_name + " "@ + angle_text(implementation.trait_args)
        + " for "@ + implementation.self_ty + trailing(implementation.generics.where_clause)
        + " { }"@
}

/// A pair: the declaration, a line break, the implementation.
pub open spec fn pair_text(pair: DerivedPairView) -> Seq<char> {
    trait_text(pair.declaration) + "\n"@ + impl_text(pair.implementation)
}

/// The pairs in order, each after a line break.
pub open spec fn pairs_text(pairs: Seq<DerivedPairView>) -> Seq<char>
    decreases pairs.len(),
{
    if pairs.len() == 0 {
        Seq::empty()
    } else {
        pairs_text(pairs.drop_last()) + "\n"@ + pair_text(pairs.last())
    }
}

/// Joins `parts` with `separator`.
pub fn join(parts: &Vec<String>, separator: &str) -> (text: String)
    ensures
        text@ == joined(views(parts@), separator@),
{
    let mut text = String::new();
    let mut i: usize = 0;
    while i < parts.len()
        invariant
            i <= parts.len(),
            text@ == joined(views(parts@).take(i as int), separator@),
        decreases parts.len() - i,
    {
        let ghost done = views(parts@).take(i as int);
        let ghost next = views(parts@).take(i + 1);
        assert(next.drop_last() =~= done);
        if i > 0 {
            text.append(separator);
        }
        text.append(parts[i].as_str());
        i += 1;
    }
    assert(views(parts@).take(parts.len() as int) =~= views(parts@));
    text
}

/// The text of a binding.
pub fn render_binding(binding: &Binding) -> (text: String)
    ensures
        text@ == binding_text(binding@),
{
    let mut text = binding.method.clone();
    text.append(" (..) : ");
    text.append(binding.target.as_str());
    text
}

/// The text of a list of generic arguments.
pub fn render_angle(entries: &Vec<String>) -> (text: String)
    ensures
        text@ == angle_text(views(entries@)),
{
    if entries.len() == 0 {
        "< >".to_owned()
    } else {
        let mut text = "< ".to_owned();
        let list = join(entries, " , ");
        text.append(list.as_str());
        text.append(" >");
        text
    }
}

/// The text of a specialization.
pub fn render_specialization(specialized: &Specialization) -> (text: String)
    ensures
        text@ == specialization_text(specialized@),
{
    let mut entries: Vec<String> = Vec::new();
    let mut i: usize = 0;
    while i < specialized.args.len()
        invariant
            i <= specialized.args.len(),
            views(entries@) == specialized@.args.take(i as int),
        decreases specialized.args.len() - i,
    {
        let ghost before = views(entries@);
        entries.push(specialized.args[i].clone());
        assert(views(entries@) =~= before.push(specialized.args[i as int]@));
        i += 1;
    }
    let ghost rendered = specialized@.bindings.map_values(|b: BindingView| binding_text(b));
    let mut j: usize = 0;
    while j < specialized.bindings.len()
        invariant
            j <= specialized.bindings.len(),
            rendered == specialized@.bindings.map_values(|b: BindingView| binding_text(b)),
            views(entries@) == specialized@.args + rendered.take(j as int),
        decreases specialized.bindings.len() - j,
    {
        let ghost before = views(entries@);
        entries.push(render_binding(&specialized.bindings[j]));
        assert(views(entries@) =~= before.push(binding_text(specialized.bindings[j as int]@)));
        j += 1;
    }
    assert(views(entries@) =~= specialization_entries(specialized@));
    let mut text = specialized.source.clone();
    text.append(" ");
    let list = render_angle(&entries);
    text.append(list.as_str());
    text
}

/// The text of a bound.
pub fn render_bound(bound: &Bound) -> (text: String)
    ensures
        text@ == bound_text(bound@),
{
    match bound {
        Bound::Specialized(specialized) => render_specialization(specialized),
        Bound::Capability(path) => path.clone(),
    }
}

/// The text of a list of bounds.
pub fn render_bounds(bounds: &Vec<Bound>) -> (text: String)
    ensures
        text@ == bounds_text(views(bounds@)),
{
    let mut parts: Vec<String> = Vec::new();
    let ghost rendered = views(bounds@).map_values(|b: BoundView| bound_text(b));
    let mut i: usize = 0;
    while i < bounds.len()
        invariant
            i <= bounds.len(),
            rendered == views(bounds@).map_values(|b: BoundView| bound_text(b)),
            views(parts@) == rendered.take(i as int),
        decreases bounds.len() - i,
    {
        let ghost before = views(parts@);
        parts.push(render_bound(&bounds[i]));
        assert(views(parts@) =~= before.push(bound_text(bounds[i as int]@)));
        i += 1;
    }
    assert(views(parts@) =~= rendered);
    join(&parts, " + ")
}

/// The declarations of the parameters of `generics`, in the order in which
/// parameters are written.
pub fn declarations(generics: &Generics) -> (decls: Vec<String>)
    ensures
        views(decls@) == param_decls(generics@),
{
    let ordered = generics.in_written_order();
    let mut decls: Vec<String> = Vec::new();
    let mut i: usize = 0;
    while i < ordered.len()
        invariant
            i <= ordered.len(),
            views(ordered@) == written_order(generics@.params),
            views(decls@) == param_decls(generics@).take(i as int),
        decreases ordered.len() - i,
    {
        let ghost before = views(decls@);
        decls.push(ordered[i].decl.clone());
        assert(views(ordered@)[i as int] == ordered[i as int]@);
        assert(views(decls@) =~= before.push(ordered[i as int].decl@));
        assert(param_decls(generics@).take(i + 1) =~= param_decls(generics@).take(i as int).push(
            ordered[i as int].decl@,
        ));
        i += 1;
    }
    assert(views(ordered@).len() == ordered.len());
    assert(param_decls(generics@).take(ordered.len() as int) =~= param_decls(generics@));
    decls
}

/// Appends `keyword` and a space to `text` when `present`.
fn append_keyword(text: &mut String, present: bool, keyword: &str)
    ensures
        final(text)@ == old(text)@ + keyword_text(present, keyword@),
{
    if present {
        text.append(keyword);
        text.append(" ");
    }
}

/// Appends a space and `fragment` to `text`, unless `fragment` is empty.
fn append_trailing(text: &mut String, fragment: &str)
    ensures
        final(text)@ == old(text)@ + trailing(fragment@),
{
    if !fragment.is_empty() {
        text.append(" ");
        text.append(fragment);
    }
}

/// The text of a derived interface declaration.
pub fn render_trait(declaration: &DerivedTrait) -> (text: String)
    ensures
        text@ == trait_text(declaration@),
{
    let mut text = String::new();
    if !declaration.vis.as_str().is_empty() {
        text.append(declaration.vis.as_str());
        text.append(" ");
    }
    append_keyword(&mut text, declaration.unsafety, "unsafe");
    append_keyword(&mut text, declaration.auto_token, "auto");
    text.append("trait ");
    text.append(declaration.ident.as_str());
    if declaration.generics.params.len() > 0 {
        let decls = declarations(&declaration.generics);
        let list = join(&decls, " , ");
        text.append(" < ");
        text.append(list.as_str());
        text.append(" >");
    }
    text.append(" : ");
    let bounds = render_bounds(&declaration.supertraits);
    text.append(bounds.as_str());
    append_trailing(&mut text, declaration.generics.where_clause.as_str());
    text.append(" { }");
    text
}

/// The text of a blanket implementation.
pub fn render_impl(implementation: &DerivedImpl) -> (text: String)
    ensures
        text@ == impl_text(implementation@),
{
    let mut text = String::new();
    append_keyword(&mut text, implementation.unsafety, "unsafe");
    text.append("impl < ");
    let mut decls = declarations(&implementation.generics);
    let mut synthetic = implementation.synthetic.clone();
    synthetic.append(" : ");
    let bounds = render_bounds(&implementation.bounds);
    synthetic.append(bounds.as_str());
    let ghost before = views(decls@);
    decls.push(synthetic);
    assert(views(decls@) =~= before.push(synthetic_decl(implementation@)));
    let list = join(&decls, " , ");
    text.append(list.as_str());
    text.append(" > ");
    text.append(implementation.trait_name.as_str());
    text.append(" ");
    let args = render_angle(&implementation.trait_args);
    text.append(args.as_str());
    text.append(" for ");
    text.append(implementation.self_ty.as_str());
    append_trailing(&mut text, implementation.generics.where_clause.as_str());
    text.append(" { }");
    text
}

/// The text of a pair.
pub fn render_pair(pair: &DerivedPair) -> (text: String)
    ensures
        text@ == pair_text(pair@),
{
    let mut text = render_trait(&pair.declaration);
    text.append("\n");
    let implementation = render_impl(&pair.implementation);
    text.append(implementation.as_str());
    text
}

/// The text of a list of pairs.
pub fn render_pairs(pairs: &Vec<DerivedPair>) -> (text: String)
    ensures
        text@ == pairs_text(views(pairs@)),
{
    let mut text = String::new();
    let mut i: usize = 0;
    while i < pairs.len()
        invariant
            i <= pairs.len(),
            text@ == pairs_text(views(pairs@).take(i as int)),
        decreases pairs.len() - i,
    {
        let ghost done = views(pairs@).take(i as int);
        let ghost next = views(pairs@).take(i + 1);
        assert(next.drop_last() =~= done);
        text.append("\n");
        let pair = render_pair(&pairs[i]);
        text.append(pair.as_str());
        i += 1;
    }
    assert(views(pairs@).take(pairs.len() as int) =~= views(pairs@));
    text
}

/// A single pair is written after one line break.
pub proof fn lemma_pairs_text_of_one(pair: DerivedPairView)
    ensures
        pairs_text(seq![pair]) == "\n"@ + pair_text(pair),
{
    assert(pairs_text(seq![pair].drop_last()) == Seq::<char>::empty());
}

/// The text of a list of pairs is the text of each pair in turn: what a pair
/// contributes does not depend on the pairs around it.
pub proof fn lemma_pairs_text_concatenates(
    first: Seq<DerivedPairView>,
    second: Seq<DerivedPairView>,
)
    ensures
        pairs_text(first + second) == pairs_text(first) + pairs_text(second),
    decreases second.len(),
{
    if second.len() == 0 {
    } else {
        lemma_pairs_text_concatenates(first, second.drop_last());
        assert((first + second).drop_last() =~= first + second.drop_last());
    }
}

} // verus!
