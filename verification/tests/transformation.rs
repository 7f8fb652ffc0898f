use trait_transformer::derived::{Binding, Bound, DerivedPair, Specialization};
use trait_transformer::emit;
use trait_transformer::model::{
    Configuration, GenericParam, Generics, MethodItem, ParamKind, ReturnKind, Signature, SourceInterface,
    TransformRequest,
};
use trait_transformer::parse::{parse_interface, ParseError};
use trait_transformer::render::{render_pair, render_pairs};
use trait_transformer::trait_transformer;
use trait_transformer::transform::{
    derive_impl, derive_trait, generic_args, supertraits, transform_request, transform_trait,
};

fn request(name: &str, target: &str) -> TransformRequest {
    TransformRequest { subtrait_name: name.to_string(), subtrait_target: target.to_string() }
}

fn configuration(entries: &[(&str, &str)]) -> Configuration {
    Configuration {
        requests: entries.iter().map(|(name, target)| request(name, target)).collect(),
    }
}

fn function(name: &str, is_async: bool, output: ReturnKind) -> MethodItem {
    MethodItem::Function(Signature { name: name.to_string(), is_async, output })
}

fn plain_source() -> SourceInterface {
    SourceInterface {
        vis: String::new(),
        unsafety: false,
        auto_token: false,
        ident: "Plain".to_string(),
        generics: Generics {
            params: vec![GenericParam {
                kind: ParamKind::Type,
                name: "T".to_string(),
                decl: "T".to_string(),
            }],
            where_clause: String::new(),
        },
        items: vec![function("id", false, ReturnKind::Concrete), MethodItem::AssociatedType],
    }
}

fn store_source() -> SourceInterface {
    SourceInterface {
        vis: "pub".to_string(),
        unsafety: true,
        auto_token: false,
        ident: "Store".to_string(),
        generics: Generics {
            params: vec![
                GenericParam {
                    kind: ParamKind::Lifetime,
                    name: "'a".to_string(),
                    decl: "'a".to_string(),
                },
                GenericParam {
                    kind: ParamKind::Type,
                    name: "T".to_string(),
                    decl: "T : Clone".to_string(),
                },
                GenericParam {
                    kind: ParamKind::Const,
                    name: "N".to_string(),
                    decl: "const N : usize".to_string(),
                },
            ],
            where_clause: "where T : 'a".to_string(),
        },
        items: vec![
            function("len", false, ReturnKind::Concrete),
            function("get", true, ReturnKind::Concrete),
            function("keys", false, ReturnKind::Opaque),
        ],
    }
}

#[test]
fn generic_arguments_are_the_parameter_names() {
    assert_eq!(generic_args(&store_source().generics), vec!["'a", "T", "N"]);
    assert_eq!(
        generic_args(&Generics { params: Vec::new(), where_clause: String::new() }),
        Vec::<String>::new()
    );
}

#[test]
fn parameters_declared_out_of_order_are_written_as_syn_writes_them() {
    let item = "trait Odd<T, 'a, const N: usize, 'b: 'a> { fn id(&self) -> u32; }";
    let source = parse_interface(item).unwrap();
    assert_eq!(generic_args(&source.generics), vec!["'a", "'b", "T", "N"]);
    let output = trait_transformer("SendOdd: Send", item).unwrap();
    let lines: Vec<&str> = output.lines().collect();
    assert_eq!(
        lines[1],
        "trait SendOdd < 'a , 'b : 'a , T , const N : usize > : \
         Odd < 'a , 'b , T , N > + Send { }"
    );
    assert_eq!(
        lines[2],
        "impl < 'a , 'b : 'a , T , const N : usize , \
         __WSelf : Odd < 'a , 'b , T , N > + Send > SendOdd < 'a , 'b , T , N > for __WSelf { }"
    );
    let mut derived = syn::parse_str::<syn::ItemTrait>(item).unwrap();
    derived.ident = syn::Ident::new("SendOdd", proc_macro2::Span::call_site());
    derived.items = Vec::new();
    derived.supertraits = syn::parse_str::<syn::ItemTrait>(
        "trait X: Odd<'a, 'b, T, N> + Send {}",
    )
    .unwrap()
    .supertraits;
    // syn keeps the comma that followed a parameter in the source, so it may
    // leave one after the last parameter.
    let by_syn = quote::ToTokens::to_token_stream(&derived).to_string();
    let written: proc_macro2::TokenStream = lines[1].parse().unwrap();
    assert_eq!(
        by_syn.replace(' ', "").replace(",>", ">"),
        written.to_string().replace(' ', "")
    );
}

#[test]
fn supertraits_are_the_specialized_source_and_the_target() {
    let bounds = supertraits(&request("SyncStore", "Sync"), &store_source());
    assert_eq!(
        bounds,
        vec![
            Bound::Specialized(Specialization {
                source: "Store".to_string(),
                args: vec!["'a".to_string(), "T".to_string(), "N".to_string()],
                bindings: vec![
                    Binding { method: "get".to_string(), target: "Sync".to_string() },
                    Binding { method: "keys".to_string(), target: "Sync".to_string() },
                ],
            }),
            Bound::Capability("Sync".to_string()),
        ]
    );
}

#[test]
fn derived_trait_copies_modifiers_and_generics() {
    let source = store_source();
    let declaration = derive_trait(&request("SyncStore", "Sync"), &source);
    assert_eq!(declaration.ident, "SyncStore");
    assert_eq!(declaration.vis, "pub");
    assert!(declaration.unsafety);
    assert!(!declaration.auto_token);
    assert_eq!(declaration.generics, source.generics);
    assert_eq!(declaration.supertraits, supertraits(&request("SyncStore", "Sync"), &source));
}

#[test]
fn derived_impl_is_for_the_synthetic_parameter() {
    let source = store_source();
    let implementation = derive_impl(&request("SyncStore", "Sync"), &source);
    assert_eq!(implementation.synthetic, "__WSelf");
    assert_eq!(implementation.self_ty, "__WSelf");
    assert_eq!(implementation.trait_name, "SyncStore");
    assert_eq!(implementation.trait_args, vec!["'a", "T", "N"]);
    assert!(implementation.unsafety);
    assert_eq!(implementation.generics, source.generics);
    assert_eq!(implementation.bounds, supertraits(&request("SyncStore", "Sync"), &source));
}

#[test]
fn pair_holds_the_trait_and_its_impl() {
    let source = store_source();
    let pair = transform_request(&request("SyncStore", "Sync"), &source);
    assert_eq!(pair.declaration, derive_trait(&request("SyncStore", "Sync"), &source));
    assert_eq!(pair.implementation, derive_impl(&request("SyncStore", "Sync"), &source));
}

#[test]
fn store_output() {
    let pair = transform_request(&request("SyncStore", "Sync"), &store_source());
    assert_eq!(
        render_pair(&pair),
        "pub unsafe trait SyncStore < 'a , T : Clone , const N : usize > : \
         Store < 'a , T , N , get (..) : Sync , keys (..) : Sync > + Sync where T : 'a { }\n\
         unsafe impl < 'a , T : Clone , const N : usize , \
         __WSelf : Store < 'a , T , N , get (..) : Sync , keys (..) : Sync > + Sync > \
         SyncStore < 'a , T , N > for __WSelf where T : 'a { }"
    );
}

#[test]
fn source_without_bindable_methods_still_gets_a_pair() {
    let pairs = transform_trait(&configuration(&[("SendPlain", "Send")]), &plain_source());
    assert_eq!(pairs.len(), 1);
    assert_eq!(
        pairs[0].declaration.supertraits,
        vec![
            Bound::Specialized(Specialization {
                source: "Plain".to_string(),
                args: vec!["T".to_string()],
                bindings: Vec::new(),
            }),
            Bound::Capability("Send".to_string()),
        ]
    );
    assert_eq!(pairs[0].implementation.bounds, pairs[0].declaration.supertraits);
}

#[test]
fn output_without_bindable_methods_is_well_formed() {
    let text = render_pairs(&transform_trait(
        &configuration(&[("SendPlain", "Send")]),
        &plain_source(),
    ));
    assert_eq!(
        text,
        "\ntrait SendPlain < T > : Plain < T > + Send { }\n\
         impl < T , __WSelf : Plain < T > + Send > SendPlain < T > for __WSelf { }"
    );
    let file = syn::parse_str::<syn::File>(&text).unwrap();
    assert_eq!(file.items.len(), 2);
    let expected = syn::parse_str::<syn::File>(
        "trait SendPlain<T>: Plain<T> + Send {}
         impl<T, __WSelf: Plain<T> + Send> SendPlain<T> for __WSelf {}",
    )
    .unwrap();
    assert_eq!(file, expected);
}

#[test]
fn output_for_an_interface_without_generics_or_methods_is_well_formed() {
    let output = trait_transformer("SendEmpty: Send", "trait Empty {}").unwrap();
    assert_eq!(
        output,
        "trait Empty {}\n\
         trait SendEmpty : Empty < > + Send { }\n\
         impl < __WSelf : Empty < > + Send > SendEmpty < > for __WSelf { }"
    );
    let file = syn::parse_str::<syn::File>(&output).unwrap();
    assert_eq!(file.items.len(), 3);
    assert!(matches!(&file.items[0], syn::Item::Trait(item) if item.ident == "Empty"));
    assert!(matches!(&file.items[1], syn::Item::Trait(item) if item.ident == "SendEmpty"
        && item.items.is_empty() && item.attrs.is_empty() && item.supertraits.len() == 2));
    assert!(matches!(&file.items[2], syn::Item::Impl(item) if item.items.is_empty()));
}

#[test]
fn pair_of_a_request_does_not_depend_on_the_other_requests() {
    let source = store_source();
    let alone = transform_trait(&configuration(&[("A", "Send")]), &source);
    let first = transform_trait(&configuration(&[("A", "Send"), ("B", "Sync")]), &source);
    let last = transform_trait(
        &configuration(&[("C", "Unpin"), ("B", "Sync"), ("A", "Send")]),
        &source,
    );
    assert_eq!(alone.len(), 1);
    assert_eq!(first.len(), 2);
    assert_eq!(last.len(), 3);
    assert_eq!(first[0], alone[0]);
    assert_eq!(last[2], alone[0]);
    assert_eq!(first[1], last[1]);
    assert_eq!(alone[0], transform_request(&request("A", "Send"), &source));
}

#[test]
fn output_of_a_request_does_not_depend_on_the_other_requests() {
    let source = store_source();
    let a = render_pairs(&transform_trait(&configuration(&[("A", "Send")]), &source));
    let b = render_pairs(&transform_trait(&configuration(&[("B", "Sync")]), &source));
    let ab = render_pairs(&transform_trait(&configuration(&[("A", "Send"), ("B", "Sync")]), &source));
    let ba = render_pairs(&transform_trait(&configuration(&[("B", "Sync"), ("A", "Send")]), &source));
    assert_eq!(ab, format!("{}{}", a, b));
    assert_eq!(ba, format!("{}{}", b, a));
}

#[test]
fn repeated_names_are_not_merged() {
    let pairs = transform_trait(&configuration(&[("A", "Send"), ("A", "Send")]), &plain_source());
    assert_eq!(pairs.len(), 2);
    assert_eq!(pairs[0], pairs[1]);
}

#[test]
fn empty_configuration_gives_no_pairs() {
    assert_eq!(
        transform_trait(&configuration(&[]), &store_source()),
        Vec::<DerivedPair>::new()
    );
    assert_eq!(emit(&configuration(&[]), &store_source(), "trait X {}"), "trait X {}");
}

#[test]
fn transformation_leaves_the_source_as_it_is() {
    let source = store_source();
    let before = source.clone();
    let _ = transform_trait(&configuration(&[("A", "Send"), ("B", "Sync")]), &source);
    assert_eq!(source, before);
}

#[test]
fn emit_puts_the_item_first() {
    let item = "pub unsafe trait Store<'a, T: Clone, const N: usize> where T: 'a { }";
    let text = emit(&configuration(&[("SyncStore", "Sync")]), &store_source(), item);
    let pair = transform_request(&request("SyncStore", "Sync"), &store_source());
    assert_eq!(text, format!("{}\n{}", item, render_pair(&pair)));
}

#[test]
fn attributes_supertraits_and_items_are_not_carried_over() {
    let output = trait_transformer(
        "SendJob: Send",
        "#[allow(unused)] pub trait Job: Sized { type Out; async fn run(self) -> Self::Out; }",
    )
    .unwrap();
    let lines: Vec<&str> = output.lines().collect();
    assert_eq!(lines.len(), 3);
    assert_eq!(lines[1], "pub trait SendJob : Job < run (..) : Send > + Send { }");
    assert_eq!(
        lines[2],
        "impl < __WSelf : Job < run (..) : Send > + Send > SendJob < > for __WSelf { }"
    );
}

#[test]
fn end_to_end_agrees_with_the_steps() {
    let item = "unsafe trait Store<'a, T: Clone> where T: 'a {
        fn len(&self) -> usize;
        async fn get(&self, key: &'a str) -> T;
        fn keys(&self) -> impl Iterator<Item = &'a str>;
    }";
    let source = parse_interface(item).unwrap();
    let pairs = transform_trait(&configuration(&[("S", "Send"), ("Y", "Sync")]), &source);
    let output = trait_transformer("S: Send, Y: Sync", item).unwrap();
    assert_eq!(output, format!("{}{}", item, render_pairs(&pairs)));
    assert!(output.contains("Store < 'a , T , get (..) : Send , keys (..) : Send > + Send"));
    assert!(output.contains("Store < 'a , T , get (..) : Sync , keys (..) : Sync > + Sync"));
}

#[test]
fn malformed_declaration_produces_no_output() {
    match trait_transformer("A: Send", "struct S;") {
        Err(error) => {
            assert!(matches!(error, ParseError::Declaration(_)));
            assert_eq!(error.message(), "expected `trait`");
        }
        Ok(output) => panic!("expected no output, got {}", output),
    }
}

#[test]
fn configuration_is_looked_at_first() {
    match trait_transformer("A Send", "struct NotATrait;") {
        Err(error) => {
            assert!(matches!(error, ParseError::Configuration(_)));
            assert_eq!(error.message(), "expected `:`");
        }
        Ok(output) => panic!("expected no output, got {}", output),
    }
    assert!(matches!(trait_transformer("", "trait A {}"), Err(ParseError::Configuration(_))));
}
