use trait_transformer::model::{
    GenericParam, Generics, MethodItem, ParamKind, ReturnKind, Signature, SourceInterface, TransformRequest,
};
use trait_transformer::parse::{
    parse_configuration, parse_interface, parse_request, ParseError,
};

fn request(name: &str, target: &str) -> TransformRequest {
    TransformRequest { subtrait_name: name.to_string(), subtrait_target: target.to_string() }
}

fn configuration_error(text: &str) -> String {
    match parse_configuration(text) {
        Err(error) => {
            assert!(matches!(error, ParseError::Configuration(_)));
            error.message()
        }
        other => panic!("expected a configuration error, got {:?}", other),
    }
}

fn declaration_error(text: &str) -> String {
    match parse_interface(text) {
        Err(error) => {
            assert!(matches!(error, ParseError::Declaration(_)));
            error.message()
        }
        other => panic!("expected a declaration error, got {:?}", other),
    }
}

fn function(name: &str, is_async: bool, output: ReturnKind) -> MethodItem {
    MethodItem::Function(Signature { name: name.to_string(), is_async, output })
}

#[test]
fn request_is_split_off_the_front() {
    let (first, rest) = parse_request("Foo: Send, Bar: Sync").unwrap();
    assert_eq!(first, request("Foo", "Send"));
    assert_eq!(rest, ", Bar : Sync");
    let (last, rest) = parse_request("Bar : Sync").unwrap();
    assert_eq!(last, request("Bar", "Sync"));
    assert_eq!(rest, "");
}

#[test]
fn request_fails_with_the_error_of_the_parser_that_failed() {
    let message = |text: &str| match parse_request(text) {
        Err(error) => {
            assert!(matches!(error, ParseError::Configuration(_)));
            error.message()
        }
        Ok(found) => panic!("expected an error, got {:?}", found),
    };
    assert_eq!(message("3: Send"), "expected identifier");
    assert_eq!(message("Foo Send"), "expected `:`");
    assert_eq!(message("Foo: 3"), "expected identifier");
    assert_eq!(message("Foo: Bar::"), "unexpected end of input, expected identifier");
}

#[test]
fn message_is_the_parsers_own() {
    match parse_configuration("Foo Send") {
        Err(ParseError::Configuration(error)) => {
            let text = error.to_string();
            assert_eq!(ParseError::Configuration(error).message(), text);
        }
        other => panic!("expected a configuration error, got {:?}", other),
    }
    match parse_interface("struct S;") {
        Err(ParseError::Declaration(error)) => {
            let text = error.to_string();
            assert_eq!(ParseError::Declaration(error).message(), text);
        }
        other => panic!("expected a declaration error, got {:?}", other),
    }
}

#[test]
fn malformed_second_entry_fails_with_its_own_error() {
    assert_eq!(configuration_error("A: Send, Foo Sync"), "expected `:`");
    assert_eq!(configuration_error("A: Send, B: 7"), "expected identifier");
    assert!(parse_configuration("A: Send, Foo Sync").is_err());
}

#[test]
fn request_needs_identifier_colon_and_path() {
    assert!(matches!(parse_request(": Send"), Err(ParseError::Configuration(_))));
    assert!(matches!(parse_request("Foo Send"), Err(ParseError::Configuration(_))));
    assert!(matches!(parse_request("Foo :"), Err(ParseError::Configuration(_))));
    assert!(matches!(parse_request("Foo : 3"), Err(ParseError::Configuration(_))));
}

#[test]
fn single_request() {
    assert_eq!(
        parse_configuration("SendRunner: Send").unwrap().requests,
        vec![request("SendRunner", "Send")]
    );
}

#[test]
fn requests_keep_their_order() {
    assert_eq!(
        parse_configuration("C: Sync, A: Send, B: Unpin").unwrap().requests,
        vec![request("C", "Sync"), request("A", "Send"), request("B", "Unpin")]
    );
}

#[test]
fn trailing_comma_is_allowed() {
    assert_eq!(parse_configuration("A: Send,").unwrap().requests, vec![request("A", "Send")]);
    assert_eq!(
        parse_configuration("A: Send, B: Sync ,").unwrap().requests,
        vec![request("A", "Send"), request("B", "Sync")]
    );
}

#[test]
fn repeated_requests_are_kept() {
    assert_eq!(
        parse_configuration("A: Send, A: Send").unwrap().requests,
        vec![request("A", "Send"), request("A", "Send")]
    );
}

#[test]
fn target_may_be_a_long_path() {
    assert_eq!(
        parse_configuration("A: ::core::marker::Send, B: std::marker::Sync").unwrap().requests,
        vec![request("A", ":: core :: marker :: Send"), request("B", "std :: marker :: Sync")]
    );
}

#[test]
fn target_may_carry_generic_arguments() {
    assert_eq!(
        parse_configuration("A: Into<String>, B: Pair<u8, u16>, C: Send").unwrap().requests,
        vec![
            request("A", "Into < String >"),
            request("B", "Pair < u8 , u16 >"),
            request("C", "Send"),
        ]
    );
}

#[test]
fn layout_and_comments_do_not_matter() {
    assert_eq!(
        parse_configuration("  A :Send ,\n\tB: /* thread safe */ Sync // done\n").unwrap().requests,
        vec![request("A", "Send"), request("B", "Sync")]
    );
}

#[test]
fn raw_identifier_is_a_name() {
    assert_eq!(
        parse_configuration("r#type: Send").unwrap().requests,
        vec![request("r#type", "Send")]
    );
}

#[test]
fn empty_text_is_rejected() {
    assert_eq!(configuration_error(""), "unexpected end of input, expected identifier");
    assert_eq!(configuration_error("  \n "), "unexpected end of input, expected identifier");
}

#[test]
fn missing_colon_is_rejected() {
    assert_eq!(configuration_error("Foo Send"), "expected `:`");
    assert_eq!(configuration_error("A: Send, Foo Send"), "expected `:`");
}

#[test]
fn missing_name_is_rejected() {
    assert_eq!(configuration_error(": Send"), "expected identifier");
    assert_eq!(configuration_error(","), "expected identifier");
    assert_eq!(configuration_error("A: Send,, B: Sync"), "expected identifier");
}

#[test]
fn keyword_is_no_name() {
    assert_eq!(configuration_error("fn: Send"), "expected identifier, found keyword `fn`");
}

#[test]
fn missing_target_is_rejected() {
    assert_eq!(configuration_error("A:"), "unexpected end of input, expected identifier");
    assert_eq!(configuration_error("A: , B: Send"), "expected identifier");
}

#[test]
fn missing_comma_is_rejected() {
    assert_eq!(configuration_error("A: Send B: Sync"), "expected `,`");
    assert_eq!(configuration_error("A: Send;"), "expected `,`");
}

#[test]
fn text_that_does_not_lex_is_rejected() {
    assert!(matches!(parse_configuration("A: ("), Err(ParseError::Configuration(_))));
    assert!(matches!(parse_configuration("A: Send, \"open"), Err(ParseError::Configuration(_))));
}

#[test]
fn bare_interface() {
    assert_eq!(
        parse_interface("trait Empty {}").unwrap(),
        SourceInterface {
            vis: String::new(),
            unsafety: false,
            auto_token: false,
            ident: "Empty".to_string(),
            generics: Generics { params: Vec::new(), where_clause: String::new() },
            items: Vec::new(),
        }
    );
}

#[test]
fn modifiers_generics_and_where_clause_are_read() {
    let source = parse_interface(
        "#[doc = \"a store\"] pub(crate) unsafe trait Store<'a, T: Clone = u8, const N: usize>: Sized
         where T: 'a { fn get(&self) -> T; }",
    )
    .unwrap();
    assert_eq!(
        source,
        SourceInterface {
            vis: "pub (crate)".to_string(),
            unsafety: true,
            auto_token: false,
            ident: "Store".to_string(),
            generics: Generics {
                params: vec![
                    GenericParam {
                        kind: ParamKind::Lifetime,
                        name: "'a".to_string(),
                        decl: "'a".to_string(),
                    },
                    GenericParam {
                        kind: ParamKind::Type,
                        name: "T".to_string(),
                        decl: "T : Clone = u8".to_string(),
                    },
                    GenericParam {
                        kind: ParamKind::Const,
                        name: "N".to_string(),
                        decl: "const N : usize".to_string(),
                    },
                ],
                where_clause: "where T : 'a".to_string(),
            },
            items: vec![function("get", false, ReturnKind::Concrete)],
        }
    );
}

#[test]
fn auto_trait_is_read() {
    let source = parse_interface("pub auto trait Marker {}").unwrap();
    assert_eq!(source.vis, "pub");
    assert!(source.auto_token);
    assert!(!source.unsafety);
}

#[test]
fn empty_where_clause_reads_as_none() {
    assert_eq!(parse_interface("trait A where {}").unwrap().generics.where_clause, "");
}

#[test]
fn every_kind_of_item_is_read_in_order() {
    let source = parse_interface(
        "trait Mixed {
            type Item;
            const LIMIT: usize;
            fn plain(&self) -> u32;
            async fn fetch(&self) -> Vec<u8>;
            fn nothing(&mut self);
            async fn fire(&self);
            fn iter(&self) -> impl Iterator<Item = u8>;
            async fn stream(&self) -> impl Sized;
            fn boxed(&self) -> Box<impl Sized>;
            fn wrapped(&self) -> (impl Sized);
            fn with_body(&self) -> u8 { 0 }
            helper!();
        }",
    )
    .unwrap();
    assert_eq!(
        source.items,
        vec![
            MethodItem::AssociatedType,
            MethodItem::Other,
            function("plain", false, ReturnKind::Concrete),
            function("fetch", true, ReturnKind::Concrete),
            function("nothing", false, ReturnKind::Default),
            function("fire", true, ReturnKind::Default),
            function("iter", false, ReturnKind::Opaque),
            function("stream", true, ReturnKind::Opaque),
            function("boxed", false, ReturnKind::Concrete),
            function("wrapped", false, ReturnKind::Concrete),
            function("with_body", false, ReturnKind::Concrete),
            MethodItem::Other,
        ]
    );
}

#[test]
fn item_that_is_no_interface_is_rejected() {
    assert_eq!(declaration_error("struct Point { x: u8 }"), "expected `trait`");
    assert_eq!(declaration_error(""), "unexpected end of input, expected `trait`");
    assert_eq!(declaration_error("trait"), "unexpected end of input, expected identifier");
}

#[test]
fn tokens_after_the_interface_are_rejected() {
    assert_eq!(declaration_error("trait A {} trait B {}"), "unexpected token");
}

#[test]
fn malformed_interface_body_is_rejected() {
    assert!(matches!(parse_interface("trait A { fn }"), Err(ParseError::Declaration(_))));
    assert!(matches!(parse_interface("trait A {"), Err(ParseError::Declaration(_))));
}
