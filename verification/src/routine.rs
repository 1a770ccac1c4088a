//! The construction routine: what the generator produces.

use crate::shape::{name_view, FieldKind};
use vstd::prelude::*;

verus! {

/// One recursive construction of a field's value through the randomness
/// handle. In a named alternative the value is paired with the field's name.
#[derive(Clone, Debug, PartialEq, Eq)]
pub struct FieldCall {
    pub name: Option<String>,
    pub type_ref: String,
}

/// Mathematical model of a [`FieldCall`].
pub struct FieldCallView {
    pub name: Option<Seq<char>>,
    pub type_ref: Seq<char>,
}

impl View for FieldCall {
    type V = FieldCallView;

    open spec fn view(&self) -> FieldCallView {
        FieldCallView { name: name_view(self.name), type_ref: self.type_ref@ }
    }
}

/// The construction of one alternative: its label, and one call per field in
/// the order in which the calls are made.
#[derive(Clone, Debug, PartialEq, Eq)]
pub struct Construction {
    pub label: String,
    pub kind: FieldKind,
    pub calls: Vec<FieldCall>,
}

/// Mathematical model of a [`Construction`].
pub struct ConstructionView {
    pub label: Seq<char>,
    pub kind: FieldKind,
    pub calls: Seq<FieldCallView>,
}

impl ConstructionView {
    /// The calls agree with the kind: a unit makes none, calls by position
    /// carry no name, calls by name carry one each.
    pub open spec fn well_formed(self) -> bool {
        match self.kind {
            FieldKind::Unit => self.calls.len() == 0,
            FieldKind::Positional => forall|i: int|
                0 <= i < self.calls.len() ==> (#[trigger] self.calls[i]).name is None,
            FieldKind::Named => forall|i: int|
                0 <= i < self.calls.len() ==> (#[trigger] self.calls[i]).name is Some,
        }
    }
}

impl View for Construction {
    type V = ConstructionView;

    open spec fn view(&self) -> ConstructionView {
        ConstructionView {
            label: self.label@,
            kind: self.kind,
            calls: self.calls@.map_values(|c: FieldCall| c@),
        }
    }
}

/// Whether the routine refers to its randomness handle.
#[derive(Clone, Copy, Debug, PartialEq, Eq, Structural)]
pub enum HandleUse {
    /// The handle parameter is present but never referred to.
    Unused,
    /// The handle is threaded through the body.
    Threaded,
}

/// The body of a routine.
#[derive(Clone, Debug, PartialEq, Eq)]
pub enum RoutineBody {
    /// Build the one alternative.
    Construct(Construction),
    /// Draw an index uniformly below the number of arms and build the arm at
    /// that index. Any other drawn value is fatal.
    Dispatch(Vec<Construction>),
}

/// Mathematical model of a [`RoutineBody`].
pub enum RoutineBodyView {
    Construct(ConstructionView),
    Dispatch(Seq<ConstructionView>),
}

impl View for RoutineBody {
    type V = RoutineBodyView;

    open spec fn view(&self) -> RoutineBodyView {
        match self {
            RoutineBody::Construct(c) => RoutineBodyView::Construct(c@),
            RoutineBody::Dispatch(arms) => RoutineBodyView::Dispatch(
                arms@.map_values(|c: Construction| c@),
            ),
        }
    }
}

/// A procedure that takes a randomness handle and returns a value of the
/// type it was generated for.
#[derive(Clone, Debug, PartialEq, Eq)]
pub struct ConstructionRoutine {
    pub handle: HandleUse,
    pub body: RoutineBody,
}

/// Mathematical model of a [`ConstructionRoutine`].
pub struct ConstructionRoutineView {
    pub handle: HandleUse,
    pub body: RoutineBodyView,
}

impl ConstructionRoutineView {
    /// Every construction is well formed, a dispatch has at least two arms,
    /// and the handle is unused exactly where the body is the construction
    /// of a unit.
    pub open spec fn well_formed(self) -> bool {
        match self.body {
            RoutineBodyView::Construct(construction) => {
                &&& construction.well_formed()
                &&& self.handle == HandleUse::Unused <==> construction.kind == FieldKind::Unit
            },
            RoutineBodyView::Dispatch(arms) => {
                &&& arms.len() >= 2
                &&& self.handle == HandleUse::Threaded
                &&& forall|i: int| 0 <= i < arms.len() ==> (#[trigger] arms[i]).well_formed()
            },
        }
    }
}

impl View for ConstructionRoutine {
    type V = ConstructionRoutineView;

    open spec fn view(&self) -> ConstructionRoutineView {
        ConstructionRoutineView { handle: self.handle, body: self.body@ }
    }
}

} // verus!
