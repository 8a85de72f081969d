//! The dispatch itself: what the generated accessor computes on a value.
//!
//! The emitted text is one `match` over the arms of a [`Dispatch`]. This
//! module gives that `match` its meaning on values of the sum type, so that
//! the engine's promises about the accessor can be stated and proved.

use crate::model::{ShapeView, SumType, SumTypeView};
use crate::pattern::{
    arm_for, arm_views, arms_for, synthesize_all, Arm, ArmView, Marker, Pattern, PatternView,
};
use vstd::prelude::*;

verus! {

/// One field of a named payload: the field identifier and the value it holds,
/// as source text.
#[derive(Debug)]
pub struct Entry {
    pub field: String,
    pub value: String,
}

/// Mathematical value of an [`Entry`].
pub struct EntryView {
    pub field: Seq<char>,
    pub value: Seq<char>,
}

impl View for Entry {
    type V = EntryView;

    open spec fn view(&self) -> EntryView {
        EntryView { field: self.field@, value: self.value@ }
    }
}

/// What a value carries besides its branch. Field values are source text.
#[derive(Debug)]
pub enum Payload {
    Empty,
    Positional(Vec<String>),
    Named(Vec<Entry>),
}

/// Mathematical value of a [`Payload`].
pub enum PayloadView {
    Empty,
    Positional(Seq<Seq<char>>),
    Named(Seq<EntryView>),
}

impl View for Payload {
    type V = PayloadView;

    open spec fn view(&self) -> PayloadView {
        match self {
            Payload::Empty => PayloadView::Empty,
            Payload::Positional(values) => PayloadView::Positional(values.deep_view()),
            Payload::Named(entries) => PayloadView::Named(
                Seq::new(entries@.len(), |i: int| entries@[i]@),
            ),
        }
    }
}

/// A value of some sum type: the branch it was built with, and its payload.
#[derive(Debug)]
pub struct Value {
    pub branch: String,
    pub payload: Payload,
}

/// Mathematical value of a [`Value`].
pub struct ValueView {
    pub branch: Seq<char>,
    pub payload: PayloadView,
}

impl View for Value {
    type V = ValueView;

    open spec fn view(&self) -> ValueView {
        ValueView { branch: self.branch@, payload: self.payload@ }
    }
}

/// A payload is one that a branch of the given shape can carry.
pub open spec fn fits(shape: ShapeView, payload: PayloadView) -> bool {
    match shape {
        ShapeView::Empty => payload is Empty,
        ShapeView::Positional(arity) => payload matches PayloadView::Positional(values)
            && values.len() == arity,
        ShapeView::Named(fields) => payload matches PayloadView::Named(entries)
            && entries.len() == fields.len()
            && forall|i: int| 0 <= i < fields.len() ==> (#[trigger] entries[i]).field == fields[i],
    }
}

impl SumTypeView {
    /// `value` was built with the branch at `index`.
    pub open spec fn builds(self, index: int, value: ValueView) -> bool {
        &&& 0 <= index < self.branches.len()
        &&& self.branches[index].name == value.branch
        &&& fits(self.branches[index].shape, value.payload)
    }

    /// `value` is a value of this sum type.
    pub open spec fn admits(self, value: ValueView) -> bool {
        exists|index: int| self.builds(index, value)
    }
}

/// The marker lets a payload through: the two are of the same case.
pub open spec fn lets_through(marker: Marker, payload: PayloadView) -> bool {
    match marker {
        Marker::Bare => payload is Empty,
        Marker::AnyPositional => payload is Positional,
        Marker::AnyNamed => payload is Named,
    }
}

impl PatternView {
    /// The pattern matches the value: it names the value's branch, and its
    /// marker lets the payload through whatever the payload holds.
    pub open spec fn covers(self, value: ValueView) -> bool {
        self.branch == value.branch && lets_through(self.marker, value.payload)
    }
}

/// What the dispatch evaluates to on a value: the literal name of the first
/// arm whose pattern matches, or nothing where the value falls through.
pub open spec fn evaluate(arms: Seq<ArmView>, value: ValueView) -> Option<Seq<char>>
    decreases arms.len(),
{
    if arms.len() == 0 {
        None
    } else if arms.first().pattern.covers(value) {
        Some(arms.first().label)
    } else {
        evaluate(arms.drop_first(), value)
    }
}

impl Pattern {
    /// Tests the pattern against a value.
    pub fn covers(&self, value: &Value) -> (yes: bool)
        ensures
            yes == self@.covers(value@),
    {
        let through = match self.marker {
            Marker::Bare => matches!(value.payload, Payload::Empty),
            Marker::AnyPositional => matches!(value.payload, Payload::Positional(_)),
            Marker::AnyNamed => matches!(value.payload, Payload::Named(_)),
        };
        through && self.branch == value.branch
    }
}

/// The exhaustive dispatch of one sum type: its arms, in branch order.
#[derive(Debug)]
pub struct Dispatch {
    pub arms: Vec<Arm>,
}

impl View for Dispatch {
    type V = Seq<ArmView>;

    open spec fn view(&self) -> Seq<ArmView> {
        arm_views(self.arms@)
    }
}

impl Dispatch {
    /// Builds the dispatch of a sum type: one arm per branch, in declaration
    /// order.
    pub fn of(sum: &SumType) -> (dispatch: Dispatch)
        ensures
            dispatch@ == arms_for(sum@.branches),
    {
        Dispatch { arms: synthesize_all(&sum.branches) }
    }

    /// Runs the dispatch on a value, as the generated accessor does: the
    /// arms are tried in order and the first that matches gives the name.
    pub fn variant_name(&self, value: &Value) -> (name: Option<&str>)
        ensures
            name is None <==> evaluate(self@, value@) is None,
            name matches Some(text) ==> evaluate(self@, value@) == Some(text@),
    {
        let mut at: usize = 0;
        assert(self@.skip(0) =~= self@);
        while at < self.arms.len()
            invariant
                at <= self.arms.len(),
                evaluate(self@, value@) == evaluate(self@.skip(at as int), value@),
            decreases self.arms.len() - at,
        {
            proof {
                assert(self@.skip(at as int).first() == self.arms[at as int]@);
                assert(self@.skip(at as int).drop_first() =~= self@.skip(at + 1));
            }
            if self.arms[at].pattern.covers(value) {
                return Some(self.arms[at].label.as_str());
            }
            at += 1;
        }
        None
    }
}

/// The arm at `index` is the first that matches `value`.
pub open spec fn first_match(arms: Seq<ArmView>, value: ValueView, index: int) -> bool {
    &&& 0 <= index < arms.len()
    &&& arms[index].pattern.covers(value)
    &&& forall|earlier: int| 0 <= earlier < index ==> !(#[trigger] arms[earlier]).pattern.covers(value)
}

/// The dispatch evaluates to the literal name of the first arm that matches,
/// and falls through exactly where no arm matches.
pub proof fn evaluate_takes_first_match(arms: Seq<ArmView>, value: ValueView)
    ensures
        evaluate(arms, value) matches Some(name) ==> exists|index: int|
            first_match(arms, value, index) && arms[index].label == name,
        evaluate(arms, value) is None ==> forall|index: int|
            0 <= index < arms.len() ==> !(#[trigger] arms[index]).pattern.covers(value),
    decreases arms.len(),
{
    if arms.len() == 0 {
    } else if arms.first().pattern.covers(value) {
        assert(first_match(arms, value, 0));
    } else {
        let rest = arms.drop_first();
        evaluate_takes_first_match(rest, value);
        assert forall|index: int| 0 <= index < rest.len() implies rest[index] == arms[index + 1] by {}
        if evaluate(rest, value) is Some {
            let name = evaluate(rest, value)->Some_0;
            let found = choose|index: int| first_match(rest, value, index) && rest[index].label == name;
            assert forall|earlier: int| 0 <= earlier < found + 1 implies !(#[trigger] arms[earlier]).pattern.covers(value) by {
                if earlier > 0 {
                    assert(rest[earlier - 1] == arms[earlier]);
                }
            }
            assert(first_match(arms, value, found + 1));
        } else {
            assert forall|index: int| 0 <= index < arms.len() implies !(#[trigger] arms[index]).pattern.covers(value) by {
                if index > 0 {
                    assert(rest[index - 1] == arms[index]);
                }
            }
        }
    }
}

/// The dispatch of a sum type with N branches has exactly N cases, the case at
/// each place being the one for the branch at that place. Each case matches
/// every value built with its own branch. Where no two branches share a name,
/// no value matches two cases, and every value of the type matches one.
pub proof fn dispatch_is_exhaustive_and_disjoint(sum: SumTypeView)
    requires
        sum.distinct_names(),
    ensures
        arms_for(sum.branches).len() == sum.branches.len(),
        forall|index: int|
            0 <= index < sum.branches.len() ==> (#[trigger] arms_for(sum.branches)[index])
                == arm_for(sum.branches[index]),
        forall|index: int, value: ValueView|
            sum.builds(index, value) ==> #[trigger] arms_for(sum.branches)[index].pattern.covers(
                value,
            ),
        forall|first: int, second: int, value: ValueView|
            0 <= first < sum.branches.len() && 0 <= second < sum.branches.len() && first != second
                && #[trigger] arms_for(sum.branches)[first].pattern.covers(value)
                ==> !#[trigger] arms_for(sum.branches)[second].pattern.covers(value),
        forall|value: ValueView|
            #[trigger] sum.admits(value) ==> exists|index: int|
                0 <= index < sum.branches.len() && #[trigger] arms_for(
                    sum.branches,
                )[index].pattern.covers(value),
{
    let arms = arms_for(sum.branches);
    assert forall|value: ValueView| #[trigger] sum.admits(value) implies exists|index: int|
        0 <= index < sum.branches.len() && #[trigger] arms[index].pattern.covers(value) by {
        let built = choose|index: int| sum.builds(index, value);
        assert(arms[built].pattern.covers(value));
    }
}

/// On every value of a sum type the accessor returns the identifier of the
/// branch that the value was built with, whatever the payload is and holds.
pub proof fn accessor_names_the_branch(sum: SumTypeView, value: ValueView)
    requires
        sum.admits(value),
    ensures
        evaluate(arms_for(sum.branches), value) == Some(value.branch),
{
    let arms = arms_for(sum.branches);
    let built = choose|index: int| sum.builds(index, value);
    assert(arms[built].pattern.covers(value));
    evaluate_takes_first_match(arms, value);
}

} // verus!
