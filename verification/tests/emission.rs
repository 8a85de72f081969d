//! The emitted text, letter for letter.

use enum_variant_name_const::emit::{emit, emit_implementation};
use enum_variant_name_const::model::{Branch, GenericSignature, Mode, Shape};
use enum_variant_name_const::pattern::{synthesize, synthesize_all, Arm, Marker, Pattern};
use enum_variant_name_const::{enum_variant_name_const_derive, expand_text};

fn annotated(declaration: &str) -> String {
    enum_variant_name_const_derive(declaration).expect("an implementation block")
}

fn signature(declaration_side: &str, usage_side: &str, constraint: &str) -> GenericSignature {
    GenericSignature {
        declaration_side: declaration_side.to_string(),
        usage_side: usage_side.to_string(),
        constraint: constraint.to_string(),
    }
}

fn arm(branch: &str, marker: Marker) -> Arm {
    Arm {
        pattern: Pattern { branch: branch.to_string(), marker },
        label: branch.to_string(),
    }
}

const BASIC_BLOCK: &str = "impl Basic {
    /// The identifier of the active variant.
    #[inline(always)]
    pub const fn variant_name(&self) -> &'static str {
        match self {
            Self::Unit => \"Unit\",
            Self::Tuple(..) => \"Tuple\",
            Self::Struct { .. } => \"Struct\",
        }
    }
}
";

#[test]
fn three_shapes_give_three_patterns() {
    let text = annotated("enum Basic { Unit, Tuple(i32, i32), Struct { field: u8 } }");
    assert_eq!(text, BASIC_BLOCK);
}

#[test]
fn emission_from_plain_values() {
    let arms = vec![
        arm("Unit", Marker::Bare),
        arm("Tuple", Marker::AnyPositional),
        arm("Struct", Marker::AnyNamed),
    ];
    assert_eq!(emit_implementation("Basic", &signature("", "", ""), &arms), BASIC_BLOCK);
}

#[test]
fn arms_keep_declaration_order() {
    let text = annotated("enum Order { Zulu, Alpha(u8), Mike { x: u8 } }");
    let zulu = text.find("Self::Zulu => \"Zulu\",").expect("the arm of Zulu");
    let alpha = text.find("Self::Alpha(..) => \"Alpha\",").expect("the arm of Alpha");
    let mike = text.find("Self::Mike { .. } => \"Mike\",").expect("the arm of Mike");
    assert!(zulu < alpha && alpha < mike);
    assert_eq!(text.matches(" => ").count(), 3);
}

#[test]
fn generic_parameters_reach_the_header() {
    let text = annotated("enum Generic<'a, T, const N: usize> { Empty, Ref(&'a T), Array([T; N]) }");
    let header = text.lines().next().expect("a header line");
    assert_eq!(header, "impl < 'a , T , const N : usize > Generic < 'a , T , N > {");
}

#[test]
fn bounds_stay_on_the_declaration_side_only() {
    let text = annotated("enum Bounded<'a, T: Clone + 'a> { Held(&'a T) }");
    let header = text.lines().next().expect("a header line");
    assert_eq!(header, "impl < 'a , T : Clone + 'a > Bounded < 'a , T > {");
}

#[test]
fn defaults_are_left_off() {
    let text = annotated("enum Defaulted<T = u8, const N: usize = 3> { One(T), Many([T; N]) }");
    let header = text.lines().next().expect("a header line");
    assert_eq!(header, "impl < T , const N : usize > Defaulted < T , N > {");
}

#[test]
fn constraint_clause_passes_through() {
    let text = annotated("enum Constrained<T> where T: Clone + Send { Held(T) }");
    let header = text.lines().next().expect("a header line");
    assert_eq!(header, "impl < T > Constrained < T > where T : Clone + Send {");
}

#[test]
fn header_from_plain_values() {
    let generics = signature("<T: Copy>", "<T>", "where T: Send");
    let text = emit_implementation("Held", &generics, &Vec::new());
    let header = text.lines().next().expect("a header line");
    assert_eq!(header, "impl <T: Copy> Held <T> where T: Send {");
}

#[test]
fn payload_size_does_not_reach_the_pattern() {
    let one = annotated("enum Sized { Tuple(u8), Struct { a: u8 } }");
    let many = annotated("enum Sized { Tuple(u8, u16, u32), Struct { a: u8, b: u16 } }");
    assert_eq!(one, many);
}

#[test]
fn empty_payload_lists_keep_their_markers() {
    let text = annotated("enum Hollow { Tuple(), Struct {} }");
    assert!(text.contains("            Self::Tuple(..) => \"Tuple\",\n"));
    assert!(text.contains("            Self::Struct { .. } => \"Struct\",\n"));
}

#[test]
fn raw_identifiers_keep_their_source_text() {
    let text = annotated("enum Keyword { r#type, r#match(u8) }");
    assert!(text.contains("            Self::r#type => \"r#type\",\n"));
    assert!(text.contains("            Self::r#match(..) => \"r#match\",\n"));
}

#[test]
fn names_are_not_altered() {
    let text = annotated("enum Mixed { lower, UPPER, Camel_Snake9 }");
    assert!(text.contains("Self::lower => \"lower\","));
    assert!(text.contains("Self::UPPER => \"UPPER\","));
    assert!(text.contains("Self::Camel_Snake9 => \"Camel_Snake9\","));
}

#[test]
fn no_branch_gives_no_arm() {
    let text = annotated("enum Never {}");
    assert_eq!(
        text,
        "impl Never {\n    /// The identifier of the active variant.\n    #[inline(always)]\n    pub const fn variant_name(&self) -> &'static str {\n        match self {\n        }\n    }\n}\n"
    );
}

#[test]
fn annotation_does_not_repeat_the_declaration() {
    let text = annotated("enum Basic { Unit, Tuple(i32, i32), Struct { field: u8 } }");
    assert!(!text.contains("enum Basic"));
    assert!(text.starts_with("impl Basic {"));
}

#[test]
fn attachment_repeats_the_declaration_unchanged() {
    let declaration = "#[derive(Debug)]\nenum  Basic {\n    Unit, // first\n    Tuple(i32, i32),\n    Struct { field: u8 },\n}";
    let text = expand_text(declaration, Mode::Attachment).expect("an implementation block");
    assert_eq!(text, format!("{}\n{}", declaration, BASIC_BLOCK));
}

#[test]
fn emit_in_both_modes_from_plain_values() {
    let arms = vec![arm("Only", Marker::Bare)];
    let generics = signature("", "", "");
    let block = emit_implementation("Single", &generics, &arms);
    let observed = emit(Mode::Annotation, "enum Single { Only }", "Single", &generics, &arms);
    let wrapped = emit(Mode::Attachment, "enum Single { Only }", "Single", &generics, &arms);
    assert_eq!(observed, block);
    assert_eq!(wrapped, format!("enum Single {{ Only }}\n{}", block));
}

#[test]
fn output_is_reproducible() {
    let declaration = "enum Generic<'a, T, const N: usize> { Empty, Ref(&'a T), Array([T; N]) }";
    assert_eq!(annotated(declaration), annotated(declaration));
}

#[test]
fn accessor_is_marked_for_inlining_and_constant() {
    let text = annotated("enum Constable { Alpha, Beta }");
    assert_eq!(
        text.matches("    #[inline(always)]\n    pub const fn variant_name(&self) -> &'static str {\n").count(),
        1
    );
    assert_eq!(text.matches("fn ").count(), 1);
}

#[test]
fn synthesizer_picks_the_marker_by_shape_alone() {
    let unit = synthesize(&Branch { name: "U".to_string(), shape: Shape::Empty });
    let one = synthesize(&Branch { name: "P".to_string(), shape: Shape::Positional(1) });
    let nine = synthesize(&Branch { name: "P".to_string(), shape: Shape::Positional(9) });
    let named = synthesize(&Branch {
        name: "N".to_string(),
        shape: Shape::Named(vec!["a".to_string(), "b".to_string()]),
    });
    assert_eq!(unit.pattern.marker, Marker::Bare);
    assert_eq!(one.pattern.marker, Marker::AnyPositional);
    assert_eq!(nine.pattern.marker, Marker::AnyPositional);
    assert_eq!(named.pattern.marker, Marker::AnyNamed);
    assert_eq!((unit.pattern.branch.as_str(), unit.label.as_str()), ("U", "U"));
    assert_eq!((named.pattern.branch.as_str(), named.label.as_str()), ("N", "N"));
}

#[test]
fn synthesizer_gives_one_arm_per_branch_in_order() {
    let branches = vec![
        Branch { name: "C".to_string(), shape: Shape::Named(Vec::new()) },
        Branch { name: "A".to_string(), shape: Shape::Empty },
        Branch { name: "B".to_string(), shape: Shape::Positional(2) },
    ];
    let arms = synthesize_all(&branches);
    let labels: Vec<&str> = arms.iter().map(|arm| arm.label.as_str()).collect();
    let markers: Vec<Marker> = arms.iter().map(|arm| arm.pattern.marker).collect();
    assert_eq!(labels, ["C", "A", "B"]);
    assert_eq!(markers, [Marker::AnyNamed, Marker::Bare, Marker::AnyPositional]);
    assert!(synthesize_all(&Vec::new()).is_empty());
}

#[test]
fn the_host_puts_lifetimes_first() {
    let text = annotated("enum Late<T, 'a> { Held(&'a T) }");
    let header = text.lines().next().expect("a header line");
    assert_eq!(header, "impl < 'a , T , > Late < 'a , T , > {");
}

#[test]
fn an_empty_constraint_clause_leaves_nothing() {
    let text = annotated("enum Bare<T> where { Held(T) }");
    let header = text.lines().next().expect("a header line");
    assert_eq!(header, "impl < T > Bare < T > {");
}

#[test]
fn discriminants_and_attributes_do_not_reach_the_arms() {
    let plain = annotated("enum Coded { Low, High }");
    let coded = annotated("#[repr(u8)] pub enum Coded { #[doc = \"first\"] Low = 1, /** second */ High = 200 }");
    assert_eq!(plain, coded);
}
