//! The dispatch emitter: the implementation block as source text.

use crate::model::{GenericSignature, GenericSignatureView, Mode};
use crate::pattern::{arm_views, Arm, ArmView, Marker, PatternView};
use vstd::prelude::*;
use vstd::string::StringExecFns;

verus! {

/// The keyword that opens the implementation block.
pub const BLOCK_KEYWORD: &'static str = "impl";

/// What separates two parts of the block's header.
pub const SEPARATOR: &'static str = " ";

/// Opens the body of the implementation block.
pub const BLOCK_OPEN: &'static str = " {\n";

/// The documentation line of the accessor.
pub const ACCESSOR_DOC: &'static str = "    /// The identifier of the active variant.\n";

/// Marks the accessor for inlining.
pub const ACCESSOR_ATTRIBUTE: &'static str = "    #[inline(always)]\n";

/// What stands before the accessor's signature on its line.
pub const ACCESSOR_INDENT: &'static str = "    ";

/// The accessor's signature: constant-evaluable, an immutable reference to
/// the value in, statically allocated text out.
pub const ACCESSOR_SIGNATURE: &'static str = "pub const fn variant_name(&self) -> &'static str";

/// Opens the accessor's body and the dispatch in it.
pub const DISPATCH_OPEN: &'static str = " {\n        match self {\n";

/// What stands before each arm on its line.
pub const ARM_INDENT: &'static str = "            ";

/// The path under which an arm's pattern names its branch.
pub const PATTERN_PATH: &'static str = "Self::";

/// The marker that ignores all of a positional payload.
pub const POSITIONAL_MARKER: &'static str = "(..)";

/// The marker that ignores all of a named payload.
pub const NAMED_MARKER: &'static str = " { .. }";

/// Stands between an arm's pattern and its literal name, and opens the name.
pub const ARM_ARROW: &'static str = " => \"";

/// Closes an arm's literal name and the arm.
pub const ARM_CLOSE: &'static str = "\",\n";

/// Closes the dispatch, the accessor and the implementation block.
pub const DISPATCH_CLOSE: &'static str = "        }\n    }\n}\n";

/// Stands between the repeated declaration and the implementation block.
pub const LINE_BREAK: &'static str = "\n";

/// A part of the header with the separator before it; nothing for an empty
/// part.
pub open spec fn led(part: Seq<char>) -> Seq<char> {
    if part.len() == 0 {
        part
    } else {
        SEPARATOR@ + part
    }
}

/// The header of the implementation block: the keyword, the declaration-side
/// parameter list, the type's name, the usage-side parameter list and the
/// constraint clause, each as it was handed in.
pub open spec fn header_text(name: Seq<char>, generics: GenericSignatureView) -> Seq<char> {
    BLOCK_KEYWORD@ + led(generics.declaration_side) + led(name) + led(generics.usage_side) + led(
        generics.constraint,
    )
}

/// The text of a marker.
pub open spec fn marker_text(marker: Marker) -> Seq<char> {
    match marker {
        Marker::Bare => Seq::empty(),
        Marker::AnyPositional => POSITIONAL_MARKER@,
        Marker::AnyNamed => NAMED_MARKER@,
    }
}

/// The text of a structural pattern.
pub open spec fn pattern_text(pattern: PatternView) -> Seq<char> {
    PATTERN_PATH@ + pattern.branch + marker_text(pattern.marker)
}

/// The line of one arm.
pub open spec fn arm_text(arm: ArmView) -> Seq<char> {
    ARM_INDENT@ + pattern_text(arm.pattern) + ARM_ARROW@ + arm.label + ARM_CLOSE@
}

/// The lines of all arms, in order.
pub open spec fn arms_text(arms: Seq<ArmView>) -> Seq<char>
    decreases arms.len(),
{
    if arms.len() == 0 {
        Seq::empty()
    } else {
        arms_text(arms.drop_last()) + arm_text(arms.last())
    }
}

/// What stands between the header and the first arm.
pub open spec fn opening_text() -> Seq<char> {
    BLOCK_OPEN@ + ACCESSOR_DOC@ + ACCESSOR_ATTRIBUTE@ + ACCESSOR_INDENT@ + ACCESSOR_SIGNATURE@
        + DISPATCH_OPEN@
}

/// The implementation block.
pub open spec fn implementation_text(
    name: Seq<char>,
    generics: GenericSignatureView,
    arms: Seq<ArmView>,
) -> Seq<char> {
    header_text(name, generics) + opening_text() + arms_text(arms) + DISPATCH_CLOSE@
}

/// The whole output: an attachment repeats the declaration it wraps before
/// the implementation block, an annotation gives the block alone.
pub open spec fn output_text(mode: Mode, source: Seq<char>, implementation: Seq<char>) -> Seq<
    char,
> {
    match mode {
        Mode::Attachment => source + LINE_BREAK@ + implementation,
        Mode::Annotation => implementation,
    }
}

/// Appends a part of the header, led by the separator unless it is empty.
fn push_led(out: &mut String, part: &str)
    ensures
        final(out)@ == old(out)@ + led(part@),
{
    if !part.is_empty() {
        out.append(SEPARATOR);
        out.append(part);
        assert(out@ =~= old(out)@ + (SEPARATOR@ + part@));
    } else {
        assert(out@ =~= old(out)@ + part@);
    }
}

/// Writes the line of one arm.
fn emit_arm(arm: &Arm) -> (line: String)
    ensures
        line@ == arm_text(arm@),
{
    let mut pattern = String::from_str(PATTERN_PATH);
    pattern.append(arm.pattern.branch.as_str());
    match arm.pattern.marker {
        Marker::Bare => {
            assert(pattern@ =~= pattern_text(arm@.pattern));
        },
        Marker::AnyPositional => {
            pattern.append(POSITIONAL_MARKER);
        },
        Marker::AnyNamed => {
            pattern.append(NAMED_MARKER);
        },
    }
    let mut line = String::from_str(ARM_INDENT);
    line.append(pattern.as_str());
    line.append(ARM_ARROW);
    line.append(arm.label.as_str());
    line.append(ARM_CLOSE);
    line
}

/// Emits the implementation block for a type of the given name and generic
/// signature: one accessor, whose body is the dispatch over the given arms in
/// the given order.
pub fn emit_implementation(name: &str, generics: &GenericSignature, arms: &Vec<Arm>) -> (text: String)
    ensures
        text@ == implementation_text(name@, generics@, arm_views(arms@)),
{
    let mut text = String::from_str(BLOCK_KEYWORD);
    push_led(&mut text, generics.declaration_side.as_str());
    push_led(&mut text, name);
    push_led(&mut text, generics.usage_side.as_str());
    push_led(&mut text, generics.constraint.as_str());
    text.append(BLOCK_OPEN);
    text.append(ACCESSOR_DOC);
    text.append(ACCESSOR_ATTRIBUTE);
    text.append(ACCESSOR_INDENT);
    text.append(ACCESSOR_SIGNATURE);
    text.append(DISPATCH_OPEN);
    let ghost start = header_text(name@, generics@) + opening_text();
    assert(text@ =~= start);
    let ghost all = arm_views(arms@);
    assert(all.take(0) =~= Seq::<ArmView>::empty());
    let mut at: usize = 0;
    while at < arms.len()
        invariant
            at <= arms.len(),
            all == arm_views(arms@),
            text@ == start + arms_text(all.take(at as int)),
        decreases arms.len() - at,
    {
        let line = emit_arm(&arms[at]);
        text.append(line.as_str());
        proof {
            let next = all.take(at + 1);
            assert(next.drop_last() =~= all.take(at as int));
            assert(next.last() == arms[at as int]@);
            assert(text@ =~= start + arms_text(next));
        }
        at += 1;
    }
    assert(all.take(at as int) =~= all);
    text.append(DISPATCH_CLOSE);
    text
}

/// Emits the whole output for one invocation.
pub fn emit(
    mode: Mode,
    source: &str,
    name: &str,
    generics: &GenericSignature,
    arms: &Vec<Arm>,
) -> (text: String)
    ensures
        text@ == output_text(
            mode,
            source@,
            implementation_text(name@, generics@, arm_views(arms@)),
        ),
{
    let implementation = emit_implementation(name, generics, arms);
    match mode {
        Mode::Attachment => {
            let mut text = String::from_str(source);
            text.append(LINE_BREAK);
            text.append(implementation.as_str());
            text
        },
        Mode::Annotation => implementation,
    }
}

/// `part` stands in `text`, unaltered, from offset `at` on.
pub open spec fn stands_at(text: Seq<char>, part: Seq<char>, at: int) -> bool {
    0 <= at && at + part.len() <= text.len() && text.subrange(at, at + part.len()) == part
}

/// The implementation block carries the generic signature as it was handed
/// in: after the keyword stand the declaration-side list, the type's name,
/// the usage-side list and the constraint clause, in this order, each
/// unaltered, and the body of the block opens right behind them.
pub proof fn generic_signature_is_carried_unchanged(
    name: Seq<char>,
    generics: GenericSignatureView,
    arms: Seq<ArmView>,
)
    ensures
        ({
            let text = implementation_text(name, generics, arms);
            let declaration_at = BLOCK_KEYWORD@.len();
            let name_at = declaration_at + led(generics.declaration_side).len();
            let usage_at = name_at + led(name).len();
            let constraint_at = usage_at + led(generics.usage_side).len();
            let body_at = constraint_at + led(generics.constraint).len();
            &&& stands_at(text, BLOCK_KEYWORD@, 0)
            &&& stands_at(text, led(generics.declaration_side), declaration_at as int)
            &&& stands_at(text, led(name), name_at as int)
            &&& stands_at(text, led(generics.usage_side), usage_at as int)
            &&& stands_at(text, led(generics.constraint), constraint_at as int)
            &&& stands_at(text, BLOCK_OPEN@, body_at as int)
        }),
{
    let text = implementation_text(name, generics, arms);
    let declaration_at = BLOCK_KEYWORD@.len() as int;
    let name_at = declaration_at + led(generics.declaration_side).len();
    let usage_at = name_at + led(name).len();
    let constraint_at = usage_at + led(generics.usage_side).len();
    let body_at = constraint_at + led(generics.constraint).len();
    assert(text.subrange(0, declaration_at) =~= BLOCK_KEYWORD@);
    assert(text.subrange(declaration_at, name_at) =~= led(generics.declaration_side));
    assert(text.subrange(name_at, usage_at) =~= led(name));
    assert(text.subrange(usage_at, constraint_at) =~= led(generics.usage_side));
    assert(text.subrange(constraint_at, body_at) =~= led(generics.constraint));
    assert(text.subrange(body_at, body_at + BLOCK_OPEN@.len()) =~= BLOCK_OPEN@);
}

/// Where the line of the arm at `index` begins in the implementation block;
/// with the number of arms for `index`, where the dispatch closes.
pub open spec fn arm_offset(
    name: Seq<char>,
    generics: GenericSignatureView,
    arms: Seq<ArmView>,
    index: int,
) -> int {
    (header_text(name, generics) + opening_text()).len() + arms_text(arms.take(index)).len() as int
}

/// The lines of the arms before `index` are the head of the lines of all
/// arms, and the line of the arm at `index` follows them at once.
proof fn arm_line_follows_its_predecessors(arms: Seq<ArmView>, index: int)
    requires
        0 <= index < arms.len(),
    ensures
        stands_at(arms_text(arms), arms_text(arms.take(index)), 0),
        stands_at(arms_text(arms), arm_text(arms[index]), arms_text(arms.take(index)).len() as int),
        arms_text(arms.take(index + 1)) == arms_text(arms.take(index)) + arm_text(arms[index]),
    decreases arms.len(),
{
    let before = arms_text(arms.take(index));
    let line = arm_text(arms[index]);
    let from = before.len() as int;
    let to = from + line.len();
    assert(arms.take(index + 1).drop_last() =~= arms.take(index));
    assert(arms.take(index + 1).last() == arms[index]);
    if index == arms.len() - 1 {
        assert(arms.drop_last() =~= arms.take(index));
        assert(arms_text(arms).subrange(0, from) =~= before);
        assert(arms_text(arms).subrange(from, to) =~= line);
    } else {
        let front = arms.drop_last();
        arm_line_follows_its_predecessors(front, index);
        assert(front.take(index) =~= arms.take(index));
        assert(front[index] == arms[index]);
        assert(arms_text(arms).subrange(0, from) =~= arms_text(front).subrange(0, from));
        assert(arms_text(arms).subrange(from, to) =~= arms_text(front).subrange(from, to));
    }
}

/// The dispatch in the implementation block is the lines of the arms and
/// nothing else: the line of the first arm begins where the dispatch opens,
/// the line of each further arm where the line before it ends, and the
/// dispatch closes where the line of the last arm ends. So the block holds
/// one case for each arm, in the order of the arms.
pub proof fn arms_fill_the_dispatch(
    name: Seq<char>,
    generics: GenericSignatureView,
    arms: Seq<ArmView>,
)
    ensures
        arm_offset(name, generics, arms, 0) == (header_text(name, generics) + opening_text()).len(),
        forall|index: int|
            0 <= index < arms.len() ==> stands_at(
                implementation_text(name, generics, arms),
                arm_text(arms[index]),
                #[trigger] arm_offset(name, generics, arms, index),
            ),
        forall|index: int|
            0 <= index < arms.len() ==> arm_offset(name, generics, arms, index + 1)
                == #[trigger] arm_offset(name, generics, arms, index) + arm_text(arms[index]).len(),
        stands_at(
            implementation_text(name, generics, arms),
            DISPATCH_CLOSE@,
            arm_offset(name, generics, arms, arms.len() as int),
        ),
        implementation_text(name, generics, arms).len() == arm_offset(
            name,
            generics,
            arms,
            arms.len() as int,
        ) + DISPATCH_CLOSE@.len(),
{
    let text = implementation_text(name, generics, arms);
    let start = header_text(name, generics) + opening_text();
    assert(arms.take(0) =~= Seq::<ArmView>::empty());
    assert(arms.take(arms.len() as int) =~= arms);
    assert forall|index: int| 0 <= index < arms.len() implies stands_at(
        text,
        arm_text(arms[index]),
        #[trigger] arm_offset(name, generics, arms, index),
    ) && arm_offset(name, generics, arms, index + 1) == arm_offset(name, generics, arms, index)
        + arm_text(arms[index]).len() by {
        arm_line_follows_its_predecessors(arms, index);
        let at = arm_offset(name, generics, arms, index);
        let line = arm_text(arms[index]);
        let within = arms_text(arms.take(index)).len() as int;
        assert(text.subrange(at, at + line.len()) =~= arms_text(arms).subrange(
            within,
            within + line.len(),
        ));
    }
    let close_at = arm_offset(name, generics, arms, arms.len() as int);
    assert(text.subrange(close_at, close_at + DISPATCH_CLOSE@.len()) =~= DISPATCH_CLOSE@);
}

/// The accessor can be called in a constant expression: whatever the type and
/// its branches, the implementation block declares it by the one signature
/// [`ACCESSOR_SIGNATURE`], a `const fn` named `variant_name`, under the
/// attribute that marks it for inlining.
pub proof fn accessor_is_constant_evaluable(
    name: Seq<char>,
    generics: GenericSignatureView,
    arms: Seq<ArmView>,
)
    ensures
        stands_at(ACCESSOR_SIGNATURE@, "pub const fn variant_name("@, 0),
        exists|at: int|
            stands_at(
                implementation_text(name, generics, arms),
                ACCESSOR_ATTRIBUTE@ + ACCESSOR_INDENT@ + ACCESSOR_SIGNATURE@,
                at,
            ),
{
    reveal_strlit("pub const fn variant_name(&self) -> &'static str");
    reveal_strlit("pub const fn variant_name(");
    assert(ACCESSOR_SIGNATURE@.subrange(0, "pub const fn variant_name("@.len() as int)
        =~= "pub const fn variant_name("@);
    let text = implementation_text(name, generics, arms);
    let part = ACCESSOR_ATTRIBUTE@ + ACCESSOR_INDENT@ + ACCESSOR_SIGNATURE@;
    let at = (header_text(name, generics) + BLOCK_OPEN@ + ACCESSOR_DOC@).len() as int;
    assert(text.subrange(at, at + part.len()) =~= part);
    assert(stands_at(text, part, at));
}

} // verus!
