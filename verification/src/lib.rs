//! Rewrites an interface declaration, some of whose methods are asynchronous
//! or return an opaque type, into derived interface declarations and blanket
//! implementations: one pair for each transform request, each pinning the
//! return values of those methods to the capability that the request names.

use vstd::prelude::*;

pub mod classify;
pub mod derived;
pub mod model;
pub mod parse;
pub mod render;
pub mod syntax;
pub mod transform;

use crate::derived::DerivedPairView;
use crate::model::{Configuration, SourceInterface, SourceInterfaceView, TransformRequestView};
use crate::parse::{
    configuration_spec, parse_configuration, parse_interface, ParseError, ParseErrorView,
};
use crate::render::{
    lemma_pairs_text_concatenates, lemma_pairs_text_of_one, pair_text, pairs_text, render_pairs,
};
use crate::syntax::declared;
use crate::transform::{derived_pair_spec, transform_spec, transform_trait};

verus! {

/// The output fragment: the annotated item as it was given, then the derived
/// pairs in request order, each after a line break.
pub open spec fn fragment_text(item: Seq<char>, pairs: Seq<DerivedPairView>) -> Seq<char> {
    item + pairs_text(pairs)
}

/// Writes the output fragment for a configuration and a source interface
/// that were parsed already; `item` is the text of the annotated item.
pub fn emit(config: &Configuration, source: &SourceInterface, item: &str) -> (text: String)
    ensures
        text@ == fragment_text(item@, transform_spec(config@, source@)),
{
    let pairs = transform_trait(config, source);
    let mut text = item.to_owned();
    let derived = render_pairs(&pairs);
    text.append(derived.as_str());
    text
}

/// What expanding the attribute gives: the output fragment where both texts
/// parse; else the error of the configuration, which is looked at first, or
/// the error of the declaration.
pub open spec fn expansion_spec(attr: Seq<char>, item: Seq<char>) -> Result<
    Seq<char>,
    ParseErrorView,
> {
    match configuration_spec(attr) {
        Err(message) => Err(ParseErrorView::Configuration(message)),
        Ok(config) => match declared(item) {
            Err(message) => Err(ParseErrorView::Declaration(message)),
            Ok(source) => Ok(fragment_text(item, transform_spec(config, source))),
        },
    }
}

/// Expands the attribute: parses the configuration out of `attr` and the
/// source interface out of `item`, and writes the output fragment. Where
/// either text is malformed there is no output, and the error is that of the
/// parser that failed; the configuration is looked at first.
pub fn trait_transformer(attr: &str, item: &str) -> (r: Result<String, ParseError>)
    ensures
        match r {
            Ok(text) => expansion_spec(attr@, item@) == Ok::<_, ParseErrorView>(text@),
            Err(error) => expansion_spec(attr@, item@) == Err::<Seq<char>, _>(error@),
        },
{
    let config = match parse_configuration(attr) {
        Ok(config) => config,
        Err(error) => {
            return Err(error);
        },
    };
    let source = match parse_interface(item) {
        Ok(source) => source,
        Err(error) => {
            return Err(error);
        },
    };
    Ok(emit(&config, &source, item))
}

/// The output starts with the annotated item as it was given, and each
/// request adds its own pair after what the requests before it gave: the
/// part of a request depends on the request and on the source interface, and
/// on no other request.
pub proof fn lemma_output_grows_by_request(
    item: Seq<char>,
    config: Seq<TransformRequestView>,
    request: TransformRequestView,
    source: SourceInterfaceView,
)
    ensures
        fragment_text(item, transform_spec(Seq::empty(), source)) == item,
        fragment_text(item, transform_spec(config.push(request), source)) == fragment_text(
            item,
            transform_spec(config, source),
        ) + "\n"@ + pair_text(derived_pair_spec(request, source)),
{
    let pair = derived_pair_spec(request, source);
    assert(transform_spec(config.push(request), source) =~= transform_spec(config, source)
        + seq![pair]);
    lemma_pairs_text_concatenates(transform_spec(config, source), seq![pair]);
    lemma_pairs_text_of_one(pair);
}

} // verus!
