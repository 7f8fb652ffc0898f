//! What the library takes from `syn`, `quote` and `proc-macro2`: the parsers of
//! the host grammar and the readers of a parsed trait declaration. Nothing in
//! this file is proved; each item says what is believed of the outside
//! function that it names.
//!
//! Token text goes in and comes out as strings. `proc-macro2` has two lexers
//! and two printers, the compiler's and its own, and a flag of the process
//! says which is in use. Every function here that lexes text or prints a
//! token stream first calls `proc_macro2::fallback::force`, which sets that
//! flag to `proc-macro2`'s own for the whole process, also inside a
//! compiler's macro expansion, and leaves it so. Its own printer separates
//! tokens by single spaces and, as its documentation says, prints a token
//! stream so that lexing the text again gives the same tokens. An identifier
//! and the message of an error print themselves, whatever the flag says.

use vstd::prelude::*;
use crate::model::{
    views, GenericParam, MethodItem, ParamKind, ReturnKind, Signature, SourceInterfaceView,
};

verus! {

/// `syn::Error`, the error of every parser of `syn`.
#[verifier::external_type_specification]
#[verifier::external_body]
pub struct ExSynError(syn::Error);

/// `syn::ItemTrait`, a parsed trait declaration.
#[verifier::external_type_specification]
#[verifier::external_body]
pub struct ExItemTrait(syn::ItemTrait);

/// The message that an error carries: what its `Display` writes.
pub uninterp spec fn reported(error: syn::Error) -> Seq<char>;

/// The number of token trees that `proc-macro2`'s own lexer makes of `text`.
pub uninterp spec fn token_count(text: Seq<char>) -> nat;

/// What `<syn::Ident as Parse>::parse` makes of the front of `text`: the
/// identifier and the tokens after it, or the message of its error.
pub uninterp spec fn ident_prefix(text: Seq<char>) -> Result<(Seq<char>, Seq<char>), Seq<char>>;

/// What `<Token![:] as Parse>::parse` makes of the front of `text`: the
/// tokens after the colon, or the message of its error.
pub uninterp spec fn colon_prefix(text: Seq<char>) -> Result<Seq<char>, Seq<char>>;

/// What `<syn::Path as Parse>::parse` makes of the front of `text`: the path
/// and the tokens after it, or the message of its error.
pub uninterp spec fn path_prefix(text: Seq<char>) -> Result<(Seq<char>, Seq<char>), Seq<char>>;

/// What `<Token![,] as Parse>::parse` makes of the front of `text`: the
/// tokens after the comma, or the message of its error.
pub uninterp spec fn comma_prefix(text: Seq<char>) -> Result<Seq<char>, Seq<char>>;

/// What `syn::parse_str::<syn::ItemTrait>` makes of `text`: the declaration,
/// as far as the library reads it, or the message of its error.
pub uninterp spec fn declared(text: Seq<char>) -> Result<SourceInterfaceView, Seq<char>>;

/// What a parsed trait declaration holds, as far as the library reads it.
pub uninterp spec fn shape_of(declaration: syn::ItemTrait) -> SourceInterfaceView;

/// Calls `<syn::Error as Display>::fmt` through `to_string`, which writes
/// the error's first message.
#[verifier::external_body]
pub(crate) fn error_message(error: &syn::Error) -> (message: String)
    ensures
        message@ == reported(*error),
{
    error.to_string()
}

/// Selects `proc-macro2`'s own lexer and printer for the process, then calls
/// `<syn::Ident as Parse>::parse` on the tokens of `text` and takes the
/// remaining tokens with `<TokenStream as Parse>::parse`.
///
/// Believed: with that lexer and printer the outcome depends on `text`
/// alone. The parser takes exactly one token where it succeeds, so what
/// remains has fewer tokens than `text`.
#[verifier::external_body]
pub(crate) fn take_ident(text: &str) -> (r: Result<(String, String), syn::Error>)
    ensures
        match r {
            Ok((ident, rest)) => ident_prefix(text@) == Ok::<_, Seq<char>>((ident@, rest@))
                && token_count(rest@) < token_count(text@),
            Err(error) => ident_prefix(text@) == Err::<(Seq<char>, Seq<char>), _>(
                reported(error),
            ),
        },
{
    proc_macro2::fallback::force();
    syn::parse::Parser::parse_str(
        |input: syn::parse::ParseStream| {
            let ident: syn::Ident = input.parse()?;
            let rest: proc_macro2::TokenStream = input.parse()?;
            Ok((ident.to_string(), rest.to_string()))
        },
        text,
    )
}

/// Selects `proc-macro2`'s own lexer and printer for the process, then calls
/// `<Token![:] as Parse>::parse` on the tokens of `text` and takes the
/// remaining tokens with `<TokenStream as Parse>::parse`.
///
/// Believed: with that lexer and printer the outcome depends on `text`
/// alone. The parser takes exactly one token where it succeeds, so what
/// remains has fewer tokens than `text`.
#[verifier::external_body]
pub(crate) fn take_colon(text: &str) -> (r: Result<String, syn::Error>)
    ensures
        match r {
            Ok(rest) => colon_prefix(text@) == Ok::<_, Seq<char>>(rest@) && token_count(rest@)
                < token_count(text@),
            Err(error) => colon_prefix(text@) == Err::<Seq<char>, _>(reported(error)),
        },
{
    proc_macro2::fallback::force();
    syn::parse::Parser::parse_str(
        |input: syn::parse::ParseStream| {
            let _colon: syn::token::Colon = input.parse()?;
            let rest: proc_macro2::TokenStream = input.parse()?;
            Ok(rest.to_string())
        },
        text,
    )
}

/// Selects `proc-macro2`'s own lexer and printer for the process, then calls
/// `<syn::Path as Parse>::parse` on the tokens of `text` and takes the
/// remaining tokens with `<TokenStream as Parse>::parse`. The path is
/// printed by its `ToTokens`.
///
/// Believed: with that lexer and printer the outcome depends on `text`
/// alone. A path has at least one segment, so what remains has fewer tokens
/// than `text`.
#[verifier::external_body]
pub(crate) fn take_path(text: &str) -> (r: Result<(String, String), syn::Error>)
    ensures
        match r {
            Ok((path, rest)) => path_prefix(text@) == Ok::<_, Seq<char>>((path@, rest@))
                && token_count(rest@) < token_count(text@),
            Err(error) => path_prefix(text@) == Err::<(Seq<char>, Seq<char>), _>(
                reported(error),
            ),
        },
{
    proc_macro2::fallback::force();
    syn::parse::Parser::parse_str(
        |input: syn::parse::ParseStream| {
            let path: syn::Path = input.parse()?;
            let rest: proc_macro2::TokenStream = input.parse()?;
            Ok((quote::ToTokens::to_token_stream(&path).to_string(), rest.to_string()))
        },
        text,
    )
}

/// Selects `proc-macro2`'s own lexer and printer for the process, then calls
/// `<Token![,] as Parse>::parse` on the tokens of `text` and takes the
/// remaining tokens with `<TokenStream as Parse>::parse`.
///
/// Believed: with that lexer and printer the outcome depends on `text`
/// alone. The parser takes exactly one token where it succeeds, so what
/// remains has fewer tokens than `text`.
#[verifier::external_body]
pub(crate) fn take_comma(text: &str) -> (r: Result<String, syn::Error>)
    ensures
        match r {
            Ok(rest) => comma_prefix(text@) == Ok::<_, Seq<char>>(rest@) && token_count(rest@)
                < token_count(text@),
            Err(error) => comma_prefix(text@) == Err::<Seq<char>, _>(reported(error)),
        },
{
    proc_macro2::fallback::force();
    syn::parse::Parser::parse_str(
        |input: syn::parse::ParseStream| {
            let _comma: syn::token::Comma = input.parse()?;
            let rest: proc_macro2::TokenStream = input.parse()?;
            Ok(rest.to_string())
        },
        text,
    )
}

/// Selects `proc-macro2`'s own lexer for the process, then calls
/// `syn::parse_str::<syn::ItemTrait>`.
///
/// Believed: with that lexer, whether it succeeds, what the declaration
/// holds where it does and what the error reports where it does not depend
/// on `text` alone.
#[verifier::external_body]
pub(crate) fn parse_item_trait(text: &str) -> (r: Result<syn::ItemTrait, syn::Error>)
    ensures
        match r {
            Ok(declaration) => declared(text@) == Ok::<_, Seq<char>>(shape_of(declaration)),
            Err(error) => declared(text@) == Err::<SourceInterfaceView, _>(reported(error)),
        },
{
    proc_macro2::fallback::force();
    syn::parse_str::<syn::ItemTrait>(text)
}

/// Selects `proc-macro2`'s own printer for the process, then reads the
/// fields `vis`, `unsafety`, `auto_token`, `ident` and
/// `generics.where_clause` of a `syn::ItemTrait`, in this order. The
/// visibility and the `where` clause are printed by their `ToTokens`, which
/// prints nothing for an inherited visibility and for a missing or empty
/// clause; the identifier by `Ident::to_string`.
#[verifier::external_body]
pub(crate) fn read_header(declaration: &syn::ItemTrait) -> (header: (
    String,
    bool,
    bool,
    String,
    String,
))
    ensures
        header.0@ == shape_of(*declaration).vis,
        header.1 == shape_of(*declaration).unsafety,
        header.2 == shape_of(*declaration).auto_token,
        header.3@ == shape_of(*declaration).ident,
        header.4@ == shape_of(*declaration).generics.where_clause,
{
    proc_macro2::fallback::force();
    (
        quote::ToTokens::to_token_stream(&declaration.vis).to_string(),
        declaration.unsafety.is_some(),
        declaration.auto_token.is_some(),
        declaration.ident.to_string(),
        quote::ToTokens::to_token_stream(&declaration.generics.where_clause).to_string(),
    )
}

/// Selects `proc-macro2`'s own printer for the process, then reads
/// `generics.params` of a `syn::ItemTrait`, one `GenericParam` for each
/// `syn::GenericParam`, in order: its variant, the lifetime or identifier
/// that it declares, and the whole parameter as its `ToTokens` prints it.
#[verifier::external_body]
pub(crate) fn read_params(declaration: &syn::ItemTrait) -> (params: Vec<GenericParam>)
    ensures
        views(params@) == shape_of(*declaration).generics.params,
{
    proc_macro2::fallback::force();
    declaration.generics.params.iter().map(|param| {
        let (kind, name) = match param {
            syn::GenericParam::Lifetime(p) => (ParamKind::Lifetime, p.lifetime.to_string()),
            syn::GenericParam::Type(p) => (ParamKind::Type, p.ident.to_string()),
            syn::GenericParam::Const(p) => (ParamKind::Const, p.ident.to_string()),
        };
        GenericParam { kind, name, decl: quote::ToTokens::to_token_stream(param).to_string() }
    }).collect()
}

/// Reads `items` of a `syn::ItemTrait`, one `MethodItem` for each
/// `syn::TraitItem`, in order. Of `TraitItem::Fn` it keeps `sig.ident`,
/// whether `sig.asyncness` is there, and of `sig.output` whether it is
/// `ReturnType::Default`, a `Type::ImplTrait` or any other type;
/// `TraitItem::Type` becomes `AssociatedType`, every other variant `Other`.
#[verifier::external_body]
pub(crate) fn read_items(declaration: &syn::ItemTrait) -> (items: Vec<MethodItem>)
    ensures
        views(items@) == shape_of(*declaration).items,
{
    declaration.items.iter().map(|item| match item {
        syn::TraitItem::Fn(function) => MethodItem::Function(Signature {
            name: function.sig.ident.to_string(),
            is_async: function.sig.asyncness.is_some(),
            output: match &function.sig.output {
                syn::ReturnType::Default => ReturnKind::Default,
                syn::ReturnType::Type(_, ty) => match ty.as_ref() {
                    syn::Type::ImplTrait(_) => ReturnKind::Opaque,
                    _ => ReturnKind::Concrete,
                },
            },
        }),
        syn::TraitItem::Type(_) => MethodItem::AssociatedType,
        _ => MethodItem::Other,
    }).collect()
}

} // verus!
