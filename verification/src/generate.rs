//! The generator: from a type shape to its construction routine.

use crate::routine::{
    Construction, ConstructionRoutine, ConstructionRoutineView, ConstructionView, FieldCall,
    FieldCallView, HandleUse, RoutineBody, RoutineBodyView,
};
use crate::shape::{
    copy_name, Alternative, AlternativeView, FieldKind, FieldView, ShapeError, TypeShape,
    TypeShapeView,
};
use vstd::prelude::*;

verus! {

/// The call that constructs `field` in an alternative of kind `kind`: it
/// carries the field's type, and the field's name where fields are named.
pub open spec fn call_for(field: FieldView, kind: FieldKind) -> FieldCallView {
    FieldCallView {
        name: if kind == FieldKind::Named {
            field.name
        } else {
            None
        },
        type_ref: field.type_ref,
    }
}

/// The construction of `alt`: no call for a unit alternative, else one call
/// per field in declaration order.
pub open spec fn construction_for(alt: AlternativeView) -> ConstructionView {
    ConstructionView {
        label: alt.label,
        kind: alt.kind,
        calls: if alt.kind == FieldKind::Unit {
            Seq::empty()
        } else {
            Seq::new(alt.fields.len(), |i: int| call_for(alt.fields[i], alt.kind))
        },
    }
}

/// The routine of a shape that has at least one alternative.
///
/// A single alternative is constructed directly, and the handle stays unused
/// exactly when that alternative is a unit. Two or more alternatives become
/// the arms of a dispatch, in declaration order.
pub open spec fn routine_for(shape: TypeShapeView) -> ConstructionRoutineView
    recommends
        shape.alternatives.len() > 0,
{
    if shape.alternatives.len() == 1 {
        ConstructionRoutineView {
            handle: if shape.alternatives[0].kind == FieldKind::Unit {
                HandleUse::Unused
            } else {
                HandleUse::Threaded
            },
            body: RoutineBodyView::Construct(construction_for(shape.alternatives[0])),
        }
    } else {
        ConstructionRoutineView {
            handle: HandleUse::Threaded,
            body: RoutineBodyView::Dispatch(
                Seq::new(
                    shape.alternatives.len(),
                    |i: int| construction_for(shape.alternatives[i]),
                ),
            ),
        }
    }
}

/// What generation yields for `shape`: the routine, or the one error.
pub open spec fn generate_spec(shape: TypeShapeView) -> Result<
    ConstructionRoutineView,
    ShapeError,
> {
    if shape.alternatives.len() == 0 {
        Err(ShapeError::NoAlternatives)
    } else {
        Ok(routine_for(shape))
    }
}

/// Builds the construction of one alternative.
pub fn construct_alternative(alt: &Alternative) -> (construction: Construction)
    ensures
        construction@ == construction_for(alt@),
{
    let mut calls: Vec<FieldCall> = Vec::new();
    if alt.kind != FieldKind::Unit {
        let mut i: usize = 0;
        while i < alt.fields.len()
            invariant
                i <= alt.fields.len(),
                calls.len() == i,
                forall|j: int|
                    0 <= j < i ==> (#[trigger] calls[j])@ == call_for(alt.fields[j]@, alt.kind),
            decreases alt.fields.len() - i,
        {
            let field = &alt.fields[i];
            let name = if alt.kind == FieldKind::Named {
                copy_name(&field.name)
            } else {
                None
            };
            calls.push(FieldCall { name, type_ref: field.type_ref.clone() });
            i += 1;
        }
    }
    let construction = Construction { label: alt.label.clone(), kind: alt.kind, calls };
    assert(construction@.calls =~= construction_for(alt@).calls);
    construction
}

/// Generates the construction routine of `shape`.
///
/// Fails with [`ShapeError::NoAlternatives`] exactly when the shape has no
/// alternatives; every other shape has a routine.
pub fn generate(shape: &TypeShape) -> (result: Result<ConstructionRoutine, ShapeError>)
    ensures
        result is Err <==> shape.alternatives.len() == 0,
        match result {
            Ok(routine) => generate_spec(shape@) == Ok::<ConstructionRoutineView, ShapeError>(
                routine@,
            ),
            Err(error) => generate_spec(shape@) == Err::<ConstructionRoutineView, ShapeError>(
                error,
            ),
        },
{
    let count = shape.alternatives.len();
    if count == 0 {
        return Err(ShapeError::NoAlternatives);
    }
    if count == 1 {
        let only = &shape.alternatives[0];
        let handle = if only.kind == FieldKind::Unit {
            HandleUse::Unused
        } else {
            HandleUse::Threaded
        };
        let body = RoutineBody::Construct(construct_alternative(only));
        return Ok(ConstructionRoutine { handle, body });
    }
    let mut arms: Vec<Construction> = Vec::new();
    let mut i: usize = 0;
    while i < count
        invariant
            count == shape.alternatives.len(),
            i <= count,
            arms.len() == i,
            forall|j: int|
                0 <= j < i ==> (#[trigger] arms[j])@ == construction_for(
                    shape.alternatives[j]@,
                ),
        decreases count - i,
    {
        arms.push(construct_alternative(&shape.alternatives[i]));
        i += 1;
    }
    let routine = ConstructionRoutine {
        handle: HandleUse::Threaded,
        body: RoutineBody::Dispatch(arms),
    };
    assert(routine@.body == routine_for(shape@).body) by {
        assert(arms@.map_values(|c: Construction| c@) =~= Seq::new(
            shape@.alternatives.len(),
            |i: int| construction_for(shape@.alternatives[i]),
        ));
    }
    Ok(routine)
}

} // verus!
