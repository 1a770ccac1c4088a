//! The routine of a parsed type definition, spliced into an impl and held
//! against the expected expansion token by token.

use arbitrary_routine::{generate, Alternative, Field, FieldKind, TypeShape};
use proc_macro2::TokenStream;
use quote::ToTokens;
use std::str::FromStr;

fn tokens(text: &str) -> TokenStream {
    TokenStream::from_str(text).expect("text should be a valid token stream")
}

fn fields_of<'a, I: Iterator<Item = &'a syn::Field>>(fields: I) -> Vec<Field> {
    fields
        .map(|field| Field {
            name: field.ident.as_ref().map(|ident| ident.to_string()),
            type_ref: field.ty.clone().into_token_stream().to_string(),
        })
        .collect()
}

fn shape_of(structure: &synstructure::Structure) -> TypeShape {
    let owner = structure.ast().ident.to_string();
    let is_enum = match structure.ast().data {
        syn::Data::Enum(_) => true,
        _ => false,
    };
    let alternatives = structure
        .variants()
        .iter()
        .map(|variant| {
            let ast = variant.ast();
            let label = if is_enum {
                format!("{}::{}", owner, ast.ident)
            } else {
                owner.clone()
            };
            let (kind, fields) = match ast.fields {
                syn::Fields::Unit => (FieldKind::Unit, Vec::new()),
                syn::Fields::Unnamed(unnamed) => {
                    (FieldKind::Positional, fields_of(unnamed.unnamed.iter()))
                }
                syn::Fields::Named(named) => (FieldKind::Named, fields_of(named.named.iter())),
            };
            Alternative { label, fields, kind }
        })
        .collect();
    TypeShape { alternatives }
}

fn derive(definition: &str) -> String {
    let input: syn::DeriveInput = syn::parse_str(definition).expect("definition should parse");
    let structure = synstructure::Structure::new(&input);
    let routine = match generate(&shape_of(&structure)) {
        Ok(routine) => routine,
        Err(error) => panic!("{}", error.message()),
    };
    let template = format!(
        "extern crate quickcheck;
         extern crate rand;

         use quickcheck::{{Arbitrary, Gen}};

         #[allow(unused_imports)]
         use rand::Rng;

         gen impl Arbitrary for @Self {{
             {}
         }}",
        routine.entry_point_source()
    );
    structure.gen_impl(tokens(&template)).to_string()
}

#[test]
fn test_arbitrary_unit_struct() {
    let got = derive(
        "#[derive(Clone)]
         struct ArbitraryTest;",
    );
    let expected = tokens(
        "#[allow(non_upper_case_globals)]
         const _DERIVE_Arbitrary_FOR_ArbitraryTest: () = {
             extern crate quickcheck;
             extern crate rand;

             use quickcheck::{Arbitrary, Gen};

             #[allow(unused_imports)]
             use rand::Rng;

             impl Arbitrary for ArbitraryTest {
                 fn arbitrary<G: Gen>(_g: &mut G) -> Self {
                     ArbitraryTest
                 }
             }
         };",
    );
    assert_eq!(got, expected.to_string());
}

#[test]
fn test_arbitrary_struct() {
    let got = derive(
        "#[derive(Clone)]
         struct ArbitraryTest(u8, bool);",
    );
    let expected = tokens(
        "#[allow(non_upper_case_globals)]
         const _DERIVE_Arbitrary_FOR_ArbitraryTest: () = {
             extern crate quickcheck;
             extern crate rand;

             use quickcheck::{Arbitrary, Gen};

             #[allow(unused_imports)]
             use rand::Rng;

             impl Arbitrary for ArbitraryTest {
                 fn arbitrary<G: Gen>(g: &mut G) -> Self {
                     ArbitraryTest(Arbitrary::arbitrary(g),
                                   Arbitrary::arbitrary(g), )
                 }
             }
         };",
    );
    assert_eq!(got, expected.to_string());
}

#[test]
#[should_panic(expected = "Cannot derive `Arbitrary` for an enum with no variants.")]
fn test_arbitrary_zero_variant_enum() {
    derive(
        "#[derive(Clone)]
         enum ArbitraryTest {}",
    );
}

#[test]
fn test_arbitrary_enum() {
    let got = derive(
        "#[derive(Clone)]
         enum ArbitraryTest {
             A,
             B(usize, u32),
             C{ b: bool, d: (u16, u16) }
         }",
    );
    let expected = tokens(
        "#[allow(non_upper_case_globals)]
         const _DERIVE_Arbitrary_FOR_ArbitraryTest: () = {
             extern crate quickcheck;
             extern crate rand;

             use quickcheck::{Arbitrary, Gen};

             #[allow(unused_imports)]
             use rand::Rng;

             impl Arbitrary for ArbitraryTest {
                 fn arbitrary<G: Gen>(g: &mut G) -> Self {
                     match g.gen_range(0, 3usize) {
                         0usize => ArbitraryTest::A,
                         1usize => ArbitraryTest::B(Arbitrary::arbitrary(g),
                                                    Arbitrary::arbitrary(g),
                                                   ),
                         2usize => ArbitraryTest::C {
                                 b : Arbitrary::arbitrary(g),
                                 d : Arbitrary::arbitrary(g),
                             },
                         _ => unreachable!()
                     }
                 }
             }
         };",
    );
    assert_eq!(got, expected.to_string());
}

/// The text of each construction lexes to the tokens that synstructure's
/// `construct` produces for the same variant.
#[test]
fn construction_text_matches_synstructure_construct() {
    let definitions = [
        "struct Unit;",
        "struct Empty();",
        "struct Hollow {}",
        "struct Pair(u8, Vec<String>);",
        "struct Point<T> { x: T, y: T }",
        "enum Tree { Leaf, Node(Box<Tree>, Box<Tree>), Tagged { r#type: u8, left: Option<Box<Tree>> } }",
    ];
    for definition in definitions.iter() {
        let input: syn::DeriveInput = syn::parse_str(definition).expect("definition should parse");
        let structure = synstructure::Structure::new(&input);
        let shape = shape_of(&structure);
        assert_eq!(shape.alternatives.len(), structure.variants().len());
        for (alternative, variant) in shape.alternatives.iter().zip(structure.variants()) {
            let construction = arbitrary_routine::construct_alternative(alternative);
            let theirs = variant.construct(|_, _| tokens("Arbitrary::arbitrary(g)"));
            assert_eq!(tokens(&construction.to_source()).to_string(), theirs.to_string());
        }
    }
}
