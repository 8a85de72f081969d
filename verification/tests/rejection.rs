//! What is answered where no implementation block is emitted.

use enum_variant_name_const::model::{Body, Declaration, GenericSignature, InvalidTarget, Mode};
use enum_variant_name_const::report::{report, INVALID_TARGET_MESSAGE};
use enum_variant_name_const::{
    enum_variant_name_const_derive, expand, expand_text, generate, Rejection,
};

const RECORD: &str = "struct Record<'a, T, const N: usize> { held: &'a [T; N] }";

fn no_generics() -> GenericSignature {
    GenericSignature {
        declaration_side: String::new(),
        usage_side: String::new(),
        constraint: String::new(),
    }
}

#[test]
fn the_message_names_sum_types() {
    assert_eq!(INVALID_TARGET_MESSAGE, "directive applicable only to sum types");
}

#[test]
fn annotated_record_gets_one_diagnostic_and_no_code() {
    match enum_variant_name_const_derive(RECORD) {
        Err(Rejection::InvalidTarget(diagnostic)) => {
            assert_eq!(diagnostic.message, "directive applicable only to sum types");
            let start = diagnostic.location.start();
            let end = diagnostic.location.end();
            assert_eq!((start.line, start.column), (1, 7));
            assert_eq!((end.line, end.column), (1, 13));
        }
        other => panic!("not refused as a target: {:?}", other),
    }
}

#[test]
fn annotated_union_is_refused() {
    match enum_variant_name_const_derive("union Overlap { a: u8, b: i8 }") {
        Err(Rejection::InvalidTarget(diagnostic)) => {
            assert_eq!(diagnostic.message, "directive applicable only to sum types");
            assert_eq!(diagnostic.location.start().column, 6);
        }
        other => panic!("not refused as a target: {:?}", other),
    }
}

#[test]
fn annotated_tuple_and_unit_records_are_refused() {
    for declaration in ["struct Pair(u8, u8);", "struct Unit;"] {
        assert!(matches!(
            enum_variant_name_const_derive(declaration),
            Err(Rejection::InvalidTarget(_))
        ));
    }
}

#[test]
fn attached_record_is_refused_alike() {
    match expand_text(RECORD, Mode::Attachment) {
        Err(Rejection::InvalidTarget(diagnostic)) => {
            assert_eq!(diagnostic.message, "directive applicable only to sum types");
            assert_eq!(diagnostic.location.start().column, 7);
        }
        other => panic!("not refused as a target: {:?}", other),
    }
}

#[test]
fn text_that_is_no_declaration_is_the_parsers_to_refuse() {
    for text in ["", "enum", "enum { A }", "fn f() {}", "enum E { A } trailing", "enum E { A(] }"] {
        for mode in [Mode::Attachment, Mode::Annotation] {
            match expand_text(text, mode) {
                Err(Rejection::Unparsed(error)) => assert!(!error.to_string().is_empty()),
                other => panic!("{:?} was not refused by the parser: {:?}", text, other),
            }
        }
    }
}

#[test]
fn parsed_record_is_refused_in_both_modes() {
    let input: syn::DeriveInput = syn::parse_str(RECORD).expect("a declaration");
    for mode in [Mode::Attachment, Mode::Annotation] {
        let diagnostic = expand(&input, mode, RECORD).expect_err("no sum type");
        assert_eq!(diagnostic.message, "directive applicable only to sum types");
        assert_eq!(diagnostic.location.start().column, 7);
    }
}

#[test]
fn plain_record_is_refused_in_both_modes() {
    for mode in [Mode::Attachment, Mode::Annotation] {
        for body in [Body::Record, Body::Union] {
            let declaration = Declaration {
                name: "Plain".to_string(),
                location: proc_macro2::Span::call_site(),
                generics: no_generics(),
                body,
            };
            assert!(!declaration.declares_sum());
            let diagnostic = generate(declaration, mode, "struct Plain;").expect_err("no sum type");
            assert_eq!(diagnostic.message, "directive applicable only to sum types");
        }
    }
}

#[test]
fn report_puts_the_message_at_the_location() {
    let input: syn::DeriveInput = syn::parse_str("\n\n   struct Far;").expect("a declaration");
    let diagnostic = report(InvalidTarget { location: input.ident.span() });
    assert_eq!(diagnostic.message, "directive applicable only to sum types");
    let start = diagnostic.location.start();
    assert_eq!((start.line, start.column), (3, 10));
}
