//! What a routine does when it runs: the steps it takes on the randomness
//! handle, and the alternative it builds.

use crate::routine::{
    Construction, ConstructionRoutine, ConstructionRoutineView, ConstructionView, FieldCall,
    FieldCallView, RoutineBody, RoutineBodyView,
};
use crate::shape::copy_name;
use vstd::prelude::*;

verus! {

/// One use of the randomness handle.
#[derive(Clone, Debug, PartialEq, Eq)]
pub enum Step {
    /// Draws an index uniformly from the range that starts at zero and ends
    /// before `bound`.
    DrawIndex { bound: usize },
    /// Constructs the value of one field by a recursive call.
    ConstructField(FieldCall),
}

/// Mathematical model of a [`Step`].
pub enum StepView {
    DrawIndex { bound: nat },
    ConstructField(FieldCallView),
}

impl View for Step {
    type V = StepView;

    open spec fn view(&self) -> StepView {
        match self {
            Step::DrawIndex { bound } => StepView::DrawIndex { bound: *bound as nat },
            Step::ConstructField(call) => StepView::ConstructField(call@),
        }
    }
}

/// How one run of a routine ends.
#[derive(Clone, Debug, PartialEq, Eq)]
pub enum Outcome {
    /// The alternative named `label` was built after `steps`.
    Built { label: String, steps: Vec<Step> },
    /// The drawn index has no arm: the handle broke its promise, and the
    /// routine stops fatally after `steps`.
    Fatal { steps: Vec<Step> },
}

/// Mathematical model of an [`Outcome`].
pub enum OutcomeView {
    Built { label: Seq<char>, steps: Seq<StepView> },
    Fatal { steps: Seq<StepView> },
}

impl View for Outcome {
    type V = OutcomeView;

    open spec fn view(&self) -> OutcomeView {
        match self {
            Outcome::Built { label, steps } => OutcomeView::Built {
                label: label@,
                steps: steps@.map_values(|s: Step| s@),
            },
            Outcome::Fatal { steps } => OutcomeView::Fatal {
                steps: steps@.map_values(|s: Step| s@),
            },
        }
    }
}

/// The steps of one construction: its calls, in order.
pub open spec fn construction_steps(construction: ConstructionView) -> Seq<StepView> {
    Seq::new(construction.calls.len(), |i: int| StepView::ConstructField(construction.calls[i]))
}

/// The run of `routine` in which the handle answers a draw with `drawn`.
///
/// A direct construction makes its calls and draws nothing. A dispatch draws
/// one index first; the arm at that index makes its calls, and an index
/// without an arm is fatal.
pub open spec fn run_spec(routine: ConstructionRoutineView, drawn: nat) -> OutcomeView {
    match routine.body {
        RoutineBodyView::Construct(construction) => OutcomeView::Built {
            label: construction.label,
            steps: construction_steps(construction),
        },
        RoutineBodyView::Dispatch(arms) => {
            let draw = seq![StepView::DrawIndex { bound: arms.len() }];
            if drawn < arms.len() {
                OutcomeView::Built {
                    label: arms[drawn as int].label,
                    steps: draw + construction_steps(arms[drawn as int]),
                }
            } else {
                OutcomeView::Fatal { steps: draw }
            }
        },
    }
}

/// Copies one call.
fn copy_call(call: &FieldCall) -> (copy: FieldCall)
    ensures
        copy@ == call@,
{
    FieldCall { name: copy_name(&call.name), type_ref: call.type_ref.clone() }
}

/// Appends the steps of `construction` to `steps`.
fn push_construction_steps(steps: &mut Vec<Step>, construction: &Construction)
    ensures
        final(steps)@.map_values(|s: Step| s@) == old(steps)@.map_values(|s: Step| s@)
            + construction_steps(construction@),
{
    let ghost before = steps@.map_values(|s: Step| s@);
    let mut i: usize = 0;
    while i < construction.calls.len()
        invariant
            i <= construction.calls.len(),
            steps@.len() == before.len() + i,
            forall|j: int| 0 <= j < before.len() ==> (#[trigger] steps@[j])@ == before[j],
            forall|k: int|
                before.len() <= k < before.len() + i ==> (#[trigger] steps@[k])@
                    == StepView::ConstructField(construction.calls[k - before.len()]@),
        decreases construction.calls.len() - i,
    {
        steps.push(Step::ConstructField(copy_call(&construction.calls[i])));
        i += 1;
    }
}

impl ConstructionRoutine {
    /// Runs the routine against a handle that answers a draw with `drawn`,
    /// and reports what the routine did.
    pub fn simulate(&self, drawn: usize) -> (outcome: Outcome)
        ensures
            outcome@ == run_spec(self@, drawn as nat),
    {
        match &self.body {
            RoutineBody::Construct(construction) => {
                let mut steps: Vec<Step> = Vec::new();
                push_construction_steps(&mut steps, construction);
                Outcome::Built { label: construction.label.clone(), steps }
            },
            RoutineBody::Dispatch(arms) => {
                let mut steps: Vec<Step> = Vec::new();
                steps.push(Step::DrawIndex { bound: arms.len() });
                let ghost draw = seq![StepView::DrawIndex { bound: arms.len() as nat }];
                assert(steps@.map_values(|s: Step| s@) =~= draw);
                if drawn < arms.len() {
                    push_construction_steps(&mut steps, &arms[drawn]);
                    Outcome::Built { label: arms[drawn].label.clone(), steps }
                } else {
                    Outcome::Fatal { steps }
                }
            },
        }
    }
}

} // verus!
