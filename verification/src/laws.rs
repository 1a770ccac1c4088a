//! What holds of every generated routine.
//!
//! Each law speaks of a shape and of the routine that generation yields for
//! it, as `generate` states it: `generate_spec(shape) == Ok(routine)`.

use crate::generate::{call_for, construction_for, generate_spec};
use crate::render::{body_source, entry_point_source};
use crate::routine::{ConstructionRoutineView, HandleUse, RoutineBodyView};
use crate::shape::{FieldKind, ShapeError, TypeShape, TypeShapeView};
use crate::trace::{construction_steps, run_spec, OutcomeView, StepView};
use vstd::prelude::*;

verus! {

/// A shape without alternatives has no routine: generation fails, and with
/// the one error there is. Every other shape has a routine.
pub proof fn lemma_fails_exactly_without_alternatives(shape: TypeShapeView)
    ensures
        shape.alternatives.len() == 0 <==> generate_spec(shape) is Err,
        shape.alternatives.len() == 0 <==> generate_spec(shape) == Err::<
            ConstructionRoutineView,
            ShapeError,
        >(ShapeError::NoAlternatives),
{
}

/// The routine of a single unit alternative leaves its handle unused, and
/// every run of it builds that alternative without one step on the handle,
/// whatever the handle would have answered.
pub proof fn lemma_single_unit_takes_no_step(
    shape: TypeShapeView,
    routine: ConstructionRoutineView,
    drawn: nat,
)
    requires
        generate_spec(shape) == Ok::<ConstructionRoutineView, ShapeError>(routine),
        shape.alternatives.len() == 1,
        shape.alternatives[0].kind == FieldKind::Unit,
    ensures
        routine.handle == HandleUse::Unused,
        run_spec(routine, drawn) == (OutcomeView::Built {
            label: shape.alternatives[0].label,
            steps: Seq::empty(),
        }),
{
    assert(run_spec(routine, drawn)->Built_steps =~= Seq::<StepView>::empty());
}

/// The text of the routine of a single unit alternative is the alternative's
/// label and nothing else, so it cannot refer to the handle; and the
/// function around it names its handle `_g`.
pub proof fn lemma_single_unit_source_is_label(
    shape: TypeShapeView,
    routine: ConstructionRoutineView,
)
    requires
        generate_spec(shape) == Ok::<ConstructionRoutineView, ShapeError>(routine),
        shape.alternatives.len() == 1,
        shape.alternatives[0].kind == FieldKind::Unit,
    ensures
        body_source(routine.body) == shape.alternatives[0].label,
        entry_point_source(routine) == "fn arbitrary<G: Gen>("@ + "_g"@
            + ": &mut G) -> Self { "@ + shape.alternatives[0].label + " }"@,
{
}

/// The handle is left unused by no other routine than that of a single unit
/// alternative.
pub proof fn lemma_handle_unused_only_for_single_unit(
    shape: TypeShapeView,
    routine: ConstructionRoutineView,
)
    requires
        generate_spec(shape) == Ok::<ConstructionRoutineView, ShapeError>(routine),
    ensures
        routine.handle == HandleUse::Unused <==> (shape.alternatives.len() == 1
            && shape.alternatives[0].kind == FieldKind::Unit),
{
}

/// The routine of a single alternative with fields draws no index: every run
/// of it makes exactly one construction call per field, in declaration
/// order, each for its field's type, and then builds the alternative. In a
/// named alternative each call carries its field's name.
pub proof fn lemma_single_alternative_calls_each_field_in_order(
    shape: TypeShapeView,
    routine: ConstructionRoutineView,
    drawn: nat,
)
    requires
        generate_spec(shape) == Ok::<ConstructionRoutineView, ShapeError>(routine),
        shape.alternatives.len() == 1,
        shape.alternatives[0].kind != FieldKind::Unit,
    ensures
        run_spec(routine, drawn) is Built,
        run_spec(routine, drawn)->Built_label == shape.alternatives[0].label,
        run_spec(routine, drawn)->Built_steps.len() == shape.alternatives[0].fields.len(),
        forall|i: int|
            0 <= i < shape.alternatives[0].fields.len() ==> #[trigger] run_spec(
                routine,
                drawn,
            )->Built_steps[i] == StepView::ConstructField(
                call_for(shape.alternatives[0].fields[i], shape.alternatives[0].kind),
            ),
{
}

/// The routine of two or more alternatives draws exactly one index below
/// their number, before any construction call. A drawn index selects the
/// alternative declared at that position: the run builds it, after one call
/// per field of it in declaration order, or after the draw alone if it is a
/// unit.
pub proof fn lemma_dispatch_draws_once_then_builds_drawn(
    shape: TypeShapeView,
    routine: ConstructionRoutineView,
    drawn: nat,
)
    requires
        generate_spec(shape) == Ok::<ConstructionRoutineView, ShapeError>(routine),
        shape.alternatives.len() >= 2,
        drawn < shape.alternatives.len(),
    ensures
        run_spec(routine, drawn) == (OutcomeView::Built {
            label: shape.alternatives[drawn as int].label,
            steps: seq![StepView::DrawIndex { bound: shape.alternatives.len() }]
                + construction_steps(construction_for(shape.alternatives[drawn as int])),
        }),
        run_spec(routine, drawn)->Built_steps[0] == (StepView::DrawIndex {
            bound: shape.alternatives.len(),
        }),
        shape.alternatives[drawn as int].kind == FieldKind::Unit ==> run_spec(
            routine,
            drawn,
        )->Built_steps.len() == 1,
        shape.alternatives[drawn as int].kind != FieldKind::Unit ==> {
            &&& run_spec(routine, drawn)->Built_steps.len() == 1
                + shape.alternatives[drawn as int].fields.len()
            &&& forall|i: int|
                0 <= i < shape.alternatives[drawn as int].fields.len() ==> #[trigger] run_spec(
                    routine,
                    drawn,
                )->Built_steps[1 + i] == StepView::ConstructField(
                    call_for(
                        shape.alternatives[drawn as int].fields[i],
                        shape.alternatives[drawn as int].kind,
                    ),
                )
        },
{
}

/// A drawn value that is no index of an alternative ends the run fatally,
/// right after the draw.
pub proof fn lemma_dispatch_outside_range_is_fatal(
    shape: TypeShapeView,
    routine: ConstructionRoutineView,
    drawn: nat,
)
    requires
        generate_spec(shape) == Ok::<ConstructionRoutineView, ShapeError>(routine),
        shape.alternatives.len() >= 2,
        drawn >= shape.alternatives.len(),
    ensures
        run_spec(routine, drawn) == (OutcomeView::Fatal {
            steps: seq![StepView::DrawIndex { bound: shape.alternatives.len() }],
        }),
{
}

/// The arms of a dispatch follow the declaration order: there is one arm per
/// alternative, and the arm at an index is the construction of the
/// alternative declared there.
pub proof fn lemma_arm_follows_declaration_order(
    shape: TypeShapeView,
    routine: ConstructionRoutineView,
    index: int,
)
    requires
        generate_spec(shape) == Ok::<ConstructionRoutineView, ShapeError>(routine),
        shape.alternatives.len() >= 2,
        0 <= index < shape.alternatives.len(),
    ensures
        routine.body is Dispatch,
        routine.body->Dispatch_0.len() == shape.alternatives.len(),
        routine.body->Dispatch_0[index] == construction_for(shape.alternatives[index]),
{
}

/// Generation is a function of what the shape holds: two shapes with the
/// same alternatives, wherever they are stored, yield the same result.
pub proof fn lemma_generation_is_deterministic(first: TypeShape, second: TypeShape)
    requires
        first@ == second@,
    ensures
        generate_spec(first@) == generate_spec(second@),
{
}

/// The routine of a well-formed shape is well formed.
pub proof fn lemma_routine_is_well_formed(
    shape: TypeShapeView,
    routine: ConstructionRoutineView,
)
    requires
        generate_spec(shape) == Ok::<ConstructionRoutineView, ShapeError>(routine),
        shape.well_formed(),
    ensures
        routine.well_formed(),
{
    assert forall|k: int| 0 <= k < shape.alternatives.len() implies construction_for(
        #[trigger] shape.alternatives[k],
    ).well_formed() by {
        assert(shape.alternatives[k].well_formed());
    }
}

} // verus!
