//! The shape of a data type: its alternatives and their fields.

use vstd::prelude::*;
use vstd::string::*;

verus! {

/// How the fields of an alternative are addressed.
#[derive(Clone, Copy, Debug, PartialEq, Eq, Structural)]
pub enum FieldKind {
    /// The alternative has no fields.
    Unit,
    /// Fields are addressed by position.
    Positional,
    /// Fields are addressed by name.
    Named,
}

/// One member of an alternative.
#[derive(Clone, Debug, PartialEq, Eq)]
pub struct Field {
    /// The field's name; present only in an alternative of kind `Named`.
    pub name: Option<String>,
    /// Reference to the field's own type. It is carried along, never inspected.
    pub type_ref: String,
}

/// Mathematical model of a [`Field`].
pub struct FieldView {
    pub name: Option<Seq<char>>,
    pub type_ref: Seq<char>,
}

/// The characters of an optional string.
pub open spec fn name_view(name: Option<String>) -> Option<Seq<char>> {
    match name {
        Some(n) => Some(n@),
        None => None,
    }
}

/// Copies an optional string.
pub(crate) fn copy_name(name: &Option<String>) -> (copy: Option<String>)
    ensures
        name_view(copy) == name_view(*name),
{
    match name {
        Some(n) => Some(n.clone()),
        None => None,
    }
}

impl View for Field {
    type V = FieldView;

    open spec fn view(&self) -> FieldView {
        FieldView { name: name_view(self.name), type_ref: self.type_ref@ }
    }
}

/// One labelled construction case: a struct, or one variant of a choice type.
#[derive(Clone, Debug, PartialEq, Eq)]
pub struct Alternative {
    /// Names the constructed value, such as `Point` or `Shape::Circle`.
    pub label: String,
    /// The fields in declaration order.
    pub fields: Vec<Field>,
    /// How the fields are addressed.
    pub kind: FieldKind,
}

/// Mathematical model of an [`Alternative`].
pub struct AlternativeView {
    pub label: Seq<char>,
    pub fields: Seq<FieldView>,
    pub kind: FieldKind,
}

impl AlternativeView {
    /// The kind agrees with the fields: a unit alternative has none, a
    /// positional one has unnamed fields only, a named one has named fields only.
    pub open spec fn well_formed(self) -> bool {
        match self.kind {
            FieldKind::Unit => self.fields.len() == 0,
            FieldKind::Positional => forall|i: int|
                0 <= i < self.fields.len() ==> (#[trigger] self.fields[i]).name is None,
            FieldKind::Named => forall|i: int|
                0 <= i < self.fields.len() ==> (#[trigger] self.fields[i]).name is Some,
        }
    }
}

impl View for Alternative {
    type V = AlternativeView;

    open spec fn view(&self) -> AlternativeView {
        AlternativeView {
            label: self.label@,
            fields: self.fields@.map_values(|f: Field| f@),
            kind: self.kind,
        }
    }
}

/// The input descriptor: the alternatives of a type in declaration order.
///
/// A shape without alternatives is a valid value; it describes a type that
/// has no values, for which no routine can be generated.
#[derive(Clone, Debug, PartialEq, Eq)]
pub struct TypeShape {
    pub alternatives: Vec<Alternative>,
}

/// Mathematical model of a [`TypeShape`].
pub struct TypeShapeView {
    pub alternatives: Seq<AlternativeView>,
}

impl TypeShapeView {
    /// Every alternative is well formed.
    pub open spec fn well_formed(self) -> bool {
        forall|i: int|
            0 <= i < self.alternatives.len() ==> (#[trigger] self.alternatives[i]).well_formed()
    }
}

impl View for TypeShape {
    type V = TypeShapeView;

    open spec fn view(&self) -> TypeShapeView {
        TypeShapeView { alternatives: self.alternatives@.map_values(|a: Alternative| a@) }
    }
}

/// Why a shape cannot be turned into a routine.
#[derive(Clone, Copy, Debug, PartialEq, Eq, Structural)]
pub enum ShapeError {
    /// The shape has no alternatives: the type has no possible values.
    NoAlternatives,
}

impl ShapeError {
    /// The fixed message that reports the error to a person.
    pub open spec fn message_text(self) -> Seq<char> {
        "Cannot derive `Arbitrary` for an enum with no variants."@
    }

    /// The message that reports the error to a person.
    pub fn message(&self) -> (text: String)
        ensures
            text@ == self.message_text(),
    {
        String::from_str("Cannot derive `Arbitrary` for an enum with no variants.")
    }
}

impl Field {
    /// A field that is addressed by position.
    pub fn positional(type_ref: &str) -> (field: Field)
        ensures
            field@ == (FieldView { name: None, type_ref: type_ref@ }),
    {
        Field { name: None, type_ref: String::from_str(type_ref) }
    }

    /// A field that is addressed by `name`.
    pub fn named(name: &str, type_ref: &str) -> (field: Field)
        ensures
            field@ == (FieldView { name: Some(name@), type_ref: type_ref@ }),
    {
        Field { name: Some(String::from_str(name)), type_ref: String::from_str(type_ref) }
    }
}

impl Alternative {
    /// An alternative without fields.
    pub fn unit(label: &str) -> (alt: Alternative)
        ensures
            alt@ == (AlternativeView {
                label: label@,
                fields: Seq::empty(),
                kind: FieldKind::Unit,
            }),
            alt@.well_formed(),
    {
        let alt = Alternative {
            label: String::from_str(label),
            fields: Vec::new(),
            kind: FieldKind::Unit,
        };
        assert(alt@.fields =~= Seq::empty());
        alt
    }

    /// An alternative whose fields go by position, one for each type in
    /// `type_refs`, in that order.
    pub fn positional(label: &str, type_refs: &Vec<String>) -> (alt: Alternative)
        ensures
            alt@.label == label@,
            alt@.kind == FieldKind::Positional,
            alt@.fields == type_refs@.map_values(
                |t: String| FieldView { name: None, type_ref: t@ },
            ),
            alt@.well_formed(),
    {
        let mut fields: Vec<Field> = Vec::new();
        let mut i: usize = 0;
        while i < type_refs.len()
            invariant
                i <= type_refs.len(),
                fields.len() == i,
                forall|j: int|
                    0 <= j < i ==> (#[trigger] fields[j])@ == (FieldView {
                        name: None,
                        type_ref: type_refs[j]@,
                    }),
            decreases type_refs.len() - i,
        {
            fields.push(Field { name: None, type_ref: type_refs[i].clone() });
            i += 1;
        }
        let alt = Alternative {
            label: String::from_str(label),
            fields,
            kind: FieldKind::Positional,
        };
        assert(alt@.fields =~= type_refs@.map_values(
            |t: String| FieldView { name: None, type_ref: t@ },
        ));
        alt
    }

    /// An alternative whose fields go by name, one for each pair of a name
    /// and a type in `fields`, in that order.
    pub fn named(label: &str, fields: &Vec<(String, String)>) -> (alt: Alternative)
        ensures
            alt@.label == label@,
            alt@.kind == FieldKind::Named,
            alt@.fields == fields@.map_values(
                |f: (String, String)| FieldView { name: Some(f.0@), type_ref: f.1@ },
            ),
            alt@.well_formed(),
    {
        let mut members: Vec<Field> = Vec::new();
        let mut i: usize = 0;
        while i < fields.len()
            invariant
                i <= fields.len(),
                members.len() == i,
                forall|j: int|
                    0 <= j < i ==> (#[trigger] members[j])@ == (FieldView {
                        name: Some(fields[j].0@),
                        type_ref: fields[j].1@,
                    }),
            decreases fields.len() - i,
        {
            members.push(
                Field { name: Some(fields[i].0.clone()), type_ref: fields[i].1.clone() },
            );
            i += 1;
        }
        let alt = Alternative {
            label: String::from_str(label),
            fields: members,
            kind: FieldKind::Named,
        };
        assert(alt@.fields =~= fields@.map_values(
            |f: (String, String)| FieldView { name: Some(f.0@), type_ref: f.1@ },
        ));
        alt
    }
}

impl TypeShape {
    /// The shape with the given alternatives, in declaration order.
    pub fn new(alternatives: Vec<Alternative>) -> (shape: TypeShape)
        ensures
            shape.alternatives == alternatives,
    {
        TypeShape { alternatives }
    }
}

} // verus!
