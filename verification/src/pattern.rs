//! The branch pattern synthesizer: one dispatch arm per branch.

use crate::model::{branch_views, Branch, BranchView, Shape, ShapeView};
use vstd::prelude::*;

verus! {

/// What a structural pattern writes after the branch name.
#[derive(Clone, Copy, Debug, PartialEq, Eq, Structural)]
pub enum Marker {
    /// Nothing: the pattern is the bare name.
    Bare,
    /// The marker that ignores a positional payload of any arity.
    AnyPositional,
    /// The marker that ignores a named payload with any fields.
    AnyNamed,
}

/// The pattern that matches every value of one branch, whatever its payload.
#[derive(Debug)]
pub struct Pattern {
    pub branch: String,
    pub marker: Marker,
}

/// Mathematical value of a [`Pattern`].
pub struct PatternView {
    pub branch: Seq<char>,
    pub marker: Marker,
}

impl View for Pattern {
    type V = PatternView;

    open spec fn view(&self) -> PatternView {
        PatternView { branch: self.branch@, marker: self.marker }
    }
}

/// One case of the dispatch: a pattern and the literal name it evaluates to.
#[derive(Debug)]
pub struct Arm {
    pub pattern: Pattern,
    pub label: String,
}

/// Mathematical value of an [`Arm`].
pub struct ArmView {
    pub pattern: PatternView,
    pub label: Seq<char>,
}

impl View for Arm {
    type V = ArmView;

    open spec fn view(&self) -> ArmView {
        ArmView { pattern: self.pattern@, label: self.label@ }
    }
}

/// The views of a sequence of arms, in order.
pub open spec fn arm_views(arms: Seq<Arm>) -> Seq<ArmView> {
    Seq::new(arms.len(), |i: int| arms[i]@)
}

/// The marker for a shape. Only the case of the shape counts: neither the
/// arity nor the field names reach the pattern.
pub open spec fn marker_for(shape: ShapeView) -> Marker {
    match shape {
        ShapeView::Empty => Marker::Bare,
        ShapeView::Positional(_) => Marker::AnyPositional,
        ShapeView::Named(_) => Marker::AnyNamed,
    }
}

/// The arm for a branch: its wildcard-payload pattern, and its own
/// identifier, unaltered, as the literal name.
pub open spec fn arm_for(branch: BranchView) -> ArmView {
    ArmView {
        pattern: PatternView { branch: branch.name, marker: marker_for(branch.shape) },
        label: branch.name,
    }
}

/// The arms for a list of branches: one per branch, in the same order.
pub open spec fn arms_for(branches: Seq<BranchView>) -> Seq<ArmView> {
    Seq::new(branches.len(), |i: int| arm_for(branches[i]))
}

/// Synthesizes the arm for one branch.
pub fn synthesize(branch: &Branch) -> (arm: Arm)
    ensures
        arm@ == arm_for(branch@),
{
    let marker = match &branch.shape {
        Shape::Empty => Marker::Bare,
        Shape::Positional(_) => Marker::AnyPositional,
        Shape::Named(_) => Marker::AnyNamed,
    };
    Arm { pattern: Pattern { branch: branch.name.clone(), marker }, label: branch.name.clone() }
}

/// Synthesizes the arms for all branches, in declaration order.
pub fn synthesize_all(branches: &Vec<Branch>) -> (arms: Vec<Arm>)
    ensures
        arm_views(arms@) == arms_for(branch_views(branches@)),
{
    let mut arms: Vec<Arm> = Vec::new();
    let mut at: usize = 0;
    while at < branches.len()
        invariant
            at <= branches.len(),
            arms.len() == at,
            forall|k: int| 0 <= k < at ==> arms[k]@ == arm_for(#[trigger] branches[k]@),
        decreases branches.len() - at,
    {
        arms.push(synthesize(&branches[at]));
        at += 1;
    }
    assert(arm_views(arms@) =~= arms_for(branch_views(branches@)));
    arms
}

} // verus!
