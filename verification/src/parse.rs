//! The declaration parser: the configuration grammar, read off the attribute
//! text token by token, and the source interface, read off a parsed trait
//! declaration.
//!
//! The configuration grammar is
//! `(identifier ':' path) (',' identifier ':' path)* ','?`.

use vstd::prelude::*;
use crate::model::{
    views, Configuration, Generics, SourceInterface, SourceInterfaceView, TransformRequest,
    TransformRequestView,
};
use crate::syntax::{
    colon_prefix, comma_prefix, declared, error_message, ident_prefix, parse_item_trait,
    path_prefix, read_header, read_items, read_params, reported, take_colon, take_comma,
    take_ident, take_path, token_count,
};

verus! {

/// Why no output was produced. Each variant carries the error of the host
/// grammar's parser as it was reported.
#[derive(Debug)]
pub enum ParseError {
    /// The attribute text is not a list of transform requests.
    Configuration(syn::Error),
    /// The annotated item is not an interface declaration.
    Declaration(syn::Error),
}

/// A parse error as its kind and the message that the parser reported.
pub enum ParseErrorView {
    Configuration(Seq<char>),
    Declaration(Seq<char>),
}

impl ParseErrorView {
    /// The message that the parser reported.
    pub open spec fn message(self) -> Seq<char> {
        match self {
            ParseErrorView::Configuration(message) => message,
            ParseErrorView::Declaration(message) => message,
        }
    }
}

impl View for ParseError {
    type V = ParseErrorView;

    open spec fn view(&self) -> ParseErrorView {
        match self {
            ParseError::Configuration(error) => ParseErrorView::Configuration(reported(*error)),
            ParseError::Declaration(error) => ParseErrorView::Declaration(reported(*error)),
        }
    }
}

impl ParseError {
    /// The message of the parser's error, word for word.
    pub fn message(&self) -> (text: String)
        ensures
            text@ == self@.message(),
    {
        match self {
            ParseError::Configuration(error) => error_message(error),
            ParseError::Declaration(error) => error_message(error),
        }
    }
}

/// One transform request at the front of `text`, `identifier ':' path`, and
/// the tokens after it; where `text` does not start with one, the message of
/// the first parser that fails.
pub open spec fn request_spec(text: Seq<char>) -> Result<
    (TransformRequestView, Seq<char>),
    Seq<char>,
> {
    match ident_prefix(text) {
        Err(message) => Err(message),
        Ok((name, after_name)) => match colon_prefix(after_name) {
            Err(message) => Err(message),
            Ok(after_colon) => match path_prefix(after_colon) {
                Err(message) => Err(message),
                Ok((target, rest)) => Ok(
                    (TransformRequestView { subtrait_name: name, subtrait_target: target }, rest),
                ),
            },
        },
    }
}

/// The configuration that `text` spells: one request, then any number of
/// requests that each follow a comma, then at most one more comma. Where
/// `text` is not of this form, the message of the first parser that fails;
/// no request that came before it is kept.
///
/// Every token that is taken leaves fewer behind, which is what the
/// recursion goes down on; the last case is there for that alone and never
/// arises.
pub open spec fn configuration_spec(text: Seq<char>) -> Result<
    Seq<TransformRequestView>,
    Seq<char>,
>
    decreases token_count(text),
{
    match request_spec(text) {
        Err(message) => Err(message),
        Ok((request, rest)) => if rest.len() == 0 {
            Ok(seq![request])
        } else {
            match comma_prefix(rest) {
                Err(message) => Err(message),
                Ok(more) => if more.len() == 0 {
                    Ok(seq![request])
                } else if token_count(more) < token_count(text) {
                    match configuration_spec(more) {
                        Err(message) => Err(message),
                        Ok(requests) => Ok(seq![request] + requests),
                    }
                } else {
                    Err(Seq::empty())
                },
            }
        },
    }
}

/// `done` followed by what `rest` spells, where it spells a configuration.
spec fn continued(done: Seq<TransformRequestView>, rest: Seq<char>) -> Result<
    Seq<TransformRequestView>,
    Seq<char>,
> {
    match configuration_spec(rest) {
        Err(message) => Err(message),
        Ok(requests) => Ok(done + requests),
    }
}

/// Parses one transform request off the front of `text` and hands back the
/// request and the tokens after it, or the error of the parser that failed.
pub fn parse_request(text: &str) -> (r: Result<(TransformRequest, String), ParseError>)
    ensures
        match r {
            Ok((request, rest)) => request_spec(text@) == Ok::<_, Seq<char>>((request@, rest@))
                && token_count(rest@) < token_count(text@),
            Err(error) => error@ matches ParseErrorView::Configuration(message) && request_spec(
                text@,
            ) == Err::<(TransformRequestView, Seq<char>), _>(message),
        },
{
    let (subtrait_name, after_name) = match take_ident(text) {
        Ok(found) => found,
        Err(error) => {
            return Err(ParseError::Configuration(error));
        },
    };
    let after_colon = match take_colon(after_name.as_str()) {
        Ok(rest) => rest,
        Err(error) => {
            return Err(ParseError::Configuration(error));
        },
    };
    let (subtrait_target, rest) = match take_path(after_colon.as_str()) {
        Ok(found) => found,
        Err(error) => {
            return Err(ParseError::Configuration(error));
        },
    };
    Ok((TransformRequest { subtrait_name, subtrait_target }, rest))
}

/// Parses the attribute text into a configuration. The text must hold at
/// least one request; a comma after the last one is allowed. Where it fails,
/// the error is that of the parser that failed.
pub fn parse_configuration(text: &str) -> (r: Result<Configuration, ParseError>)
    ensures
        match r {
            Ok(config) => configuration_spec(text@) == Ok::<_, Seq<char>>(config@),
            Err(error) => error@ matches ParseErrorView::Configuration(message)
                && configuration_spec(text@) == Err::<Seq<TransformRequestView>, _>(message),
        },
{
    let mut requests: Vec<TransformRequest> = Vec::new();
    let mut current: String = text.to_owned();
    assert(continued(views(requests@), current@) == configuration_spec(text@));
    loop
        invariant
            continued(views(requests@), current@) == configuration_spec(text@),
        decreases token_count(current@),
    {
        let ghost done = views(requests@);
        let (request, rest) = match parse_request(current.as_str()) {
            Ok(found) => found,
            Err(error) => {
                return Err(error);
            },
        };
        let ghost parsed = request@;
        requests.push(request);
        assert(views(requests@) =~= done.push(parsed));
        assert(done + seq![parsed] =~= done.push(parsed));
        if rest.as_str().is_empty() {
            return Ok(Configuration { requests });
        }
        let more = match take_comma(rest.as_str()) {
            Ok(more) => more,
            Err(error) => {
                return Err(ParseError::Configuration(error));
            },
        };
        if more.as_str().is_empty() {
            return Ok(Configuration { requests });
        }
        assert(continued(done.push(parsed), more@) == configuration_spec(text@)) by {
            if let Ok(tail) = configuration_spec(more@) {
                assert(done + (seq![parsed] + tail) =~= done.push(parsed) + tail);
            }
        }
        current = more;
    }
}

/// Parses the annotated item into the source interface, or hands back the
/// error of the declaration's parser.
pub fn parse_interface(text: &str) -> (r: Result<SourceInterface, ParseError>)
    ensures
        match r {
            Ok(source) => declared(text@) == Ok::<_, Seq<char>>(source@),
            Err(error) => error@ matches ParseErrorView::Declaration(message) && declared(text@)
                == Err::<SourceInterfaceView, _>(message),
        },
{
    match parse_item_trait(text) {
        Ok(declaration) => {
            let (vis, unsafety, auto_token, ident, where_clause) = read_header(&declaration);
            let params = read_params(&declaration);
            let items = read_items(&declaration);
            Ok(
                SourceInterface {
                    vis,
                    unsafety,
                    auto_token,
                    ident,
                    generics: Generics { params, where_clause },
                    items,
                },
            )
        },
        Err(error) => Err(ParseError::Declaration(error)),
    }
}

} // verus!
