//! The accessor in a constant expression.

use enum_variant_name_const::enum_variant_name_const_derive;

enum Constable {
    Alpha,
    Beta,
}

// What the engine emits for `Constable`, but for the inlining attribute.
impl Constable {
    /// The identifier of the active variant.
    pub const fn variant_name(&self) -> &'static str {
        match self {
            Self::Alpha => "Alpha",
            Self::Beta => "Beta",
        }
    }
}

const NAME_ALPHA: &str = Constable::Alpha.variant_name();

const NAME_BETA: &str = {
    let v = Constable::Beta;
    v.variant_name() // evaluated at compile-time
};

const EMITTED: &str = "impl Constable {
    /// The identifier of the active variant.
    #[inline(always)]
    pub const fn variant_name(&self) -> &'static str {
        match self {
            Self::Alpha => \"Alpha\",
            Self::Beta => \"Beta\",
        }
    }
}
";

#[test]
fn variant_name_is_const() {
    assert_eq!(NAME_BETA, "Beta");
    let emitted = enum_variant_name_const_derive("enum Constable { Alpha, Beta }");
    assert_eq!(emitted.expect("an implementation block"), EMITTED);
}

#[test]
fn every_branch_has_its_constant() {
    assert_eq!(NAME_ALPHA, "Alpha");
}
