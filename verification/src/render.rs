//! The routine as Rust source text.
//!
//! The text names the handle `g`, or `_g` where the routine leaves it unused.
//! A field's value is written as the call `Arbitrary::arbitrary(g)`, a draw
//! as `g.gen_range(0, N)`, and the fatal fallback as `unreachable!()`.

use crate::routine::{
    Construction, ConstructionRoutine, ConstructionRoutineView, ConstructionView, FieldCall,
    FieldCallView, HandleUse, RoutineBody, RoutineBodyView,
};
use crate::shape::FieldKind;
use vstd::prelude::*;
use vstd::string::*;

verus! {

/// The character of one decimal digit.
pub open spec fn digit(d: nat) -> char
    recommends
        d < 10,
{
    if d == 0 {
        '0'
    } else if d == 1 {
        '1'
    } else if d == 2 {
        '2'
    } else if d == 3 {
        '3'
    } else if d == 4 {
        '4'
    } else if d == 5 {
        '5'
    } else if d == 6 {
        '6'
    } else if d == 7 {
        '7'
    } else if d == 8 {
        '8'
    } else {
        '9'
    }
}

/// The decimal digits of `n`, most significant first, without leading zeros.
pub open spec fn decimal(n: nat) -> Seq<char>
    decreases n,
{
    if n < 10 {
        seq![digit(n)]
    } else {
        decimal(n / 10).push(digit(n % 10))
    }
}

/// An index as a literal of the machine's index type, such as `3usize`.
pub open spec fn index_literal_source(n: nat) -> Seq<char> {
    decimal(n) + "usize"@
}

/// One call and the comma after it; a named call starts with `name: `.
pub open spec fn call_source(call: FieldCallView) -> Seq<char> {
    match call.name {
        Some(name) => name + ": "@ + "Arbitrary::arbitrary(g)"@ + ", "@,
        None => "Arbitrary::arbitrary(g)"@ + ", "@,
    }
}

/// The calls of a construction, in order.
pub open spec fn calls_source(calls: Seq<FieldCallView>) -> Seq<char>
    decreases calls.len(),
{
    if calls.len() == 0 {
        Seq::empty()
    } else {
        calls_source(calls.drop_last()) + call_source(calls.last())
    }
}

/// A construction: the bare label of a unit, the label and the calls in
/// round brackets where fields go by position, in braces where they go by name.
pub open spec fn construction_source(construction: ConstructionView) -> Seq<char> {
    match construction.kind {
        FieldKind::Unit => construction.label,
        FieldKind::Positional => construction.label + "("@ + calls_source(construction.calls)
            + ")"@,
        FieldKind::Named => construction.label + " { "@ + calls_source(construction.calls)
            + "}"@,
    }
}

/// The arm of a dispatch for index `index`.
pub open spec fn arm_source(index: nat, construction: ConstructionView) -> Seq<char> {
    index_literal_source(index) + " => "@ + construction_source(construction) + ", "@
}

/// The arms of a dispatch, numbered from zero in order.
pub open spec fn arms_source(arms: Seq<ConstructionView>) -> Seq<char>
    decreases arms.len(),
{
    if arms.len() == 0 {
        Seq::empty()
    } else {
        arms_source(arms.drop_last()) + arm_source((arms.len() - 1) as nat, arms.last())
    }
}

/// The body of a routine.
pub open spec fn body_source(body: RoutineBodyView) -> Seq<char> {
    match body {
        RoutineBodyView::Construct(construction) => construction_source(construction),
        RoutineBodyView::Dispatch(arms) => "match g.gen_range(0, "@ + index_literal_source(
            arms.len(),
        ) + ") { "@ + arms_source(arms) + "_ => unreachable!() }"@,
    }
}

/// The name that the routine gives its handle.
pub open spec fn handle_name_source(handle: HandleUse) -> Seq<char> {
    match handle {
        HandleUse::Unused => "_g"@,
        HandleUse::Threaded => "g"@,
    }
}

/// The routine as one function: it takes the handle and returns the value.
pub open spec fn entry_point_source(routine: ConstructionRoutineView) -> Seq<char> {
    "fn arbitrary<G: Gen>("@ + handle_name_source(routine.handle) + ": &mut G) -> Self { "@
        + body_source(routine.body) + " }"@
}

/// One decimal digit as text.
fn digit_text(d: usize) -> (text: &'static str)
    requires
        d < 10,
    ensures
        text@ == seq![digit(d as nat)],
{
    proof {
        reveal_strlit("0");
        reveal_strlit("1");
        reveal_strlit("2");
        reveal_strlit("3");
        reveal_strlit("4");
        reveal_strlit("5");
        reveal_strlit("6");
        reveal_strlit("7");
        reveal_strlit("8");
        reveal_strlit("9");
    }
    let text = if d == 0 {
        "0"
    } else if d == 1 {
        "1"
    } else if d == 2 {
        "2"
    } else if d == 3 {
        "3"
    } else if d == 4 {
        "4"
    } else if d == 5 {
        "5"
    } else if d == 6 {
        "6"
    } else if d == 7 {
        "7"
    } else if d == 8 {
        "8"
    } else {
        "9"
    };
    text
}

/// Appends the decimal digits of `n` to `out`.
fn push_decimal(out: &mut String, n: usize)
    ensures
        final(out)@ == old(out)@ + decimal(n as nat),
    decreases n,
{
    if n < 10 {
        out.append(digit_text(n));
    } else {
        push_decimal(out, n / 10);
        out.append(digit_text(n % 10));
    }
}

/// Writes `n` as a literal of the machine's index type.
pub fn index_literal(n: usize) -> (text: String)
    ensures
        text@ == index_literal_source(n as nat),
{
    let mut text = String::new();
    push_decimal(&mut text, n);
    text.append("usize");
    text
}

/// Appends one call and its comma to `out`.
fn push_call(out: &mut String, call: &FieldCall)
    ensures
        final(out)@ == old(out)@ + call_source(call@),
{
    match &call.name {
        Some(name) => {
            out.append(name.as_str());
            out.append(": ");
        },
        None => {},
    }
    out.append("Arbitrary::arbitrary(g)");
    out.append(", ");
}

/// Appends the calls in order to `out`.
fn push_calls(out: &mut String, calls: &Vec<FieldCall>)
    ensures
        final(out)@ == old(out)@ + calls_source(calls@.map_values(|c: FieldCall| c@)),
{
    let ghost all = calls@.map_values(|c: FieldCall| c@);
    let mut i: usize = 0;
    while i < calls.len()
        invariant
            i <= calls.len(),
            all == calls@.map_values(|c: FieldCall| c@),
            out@ == old(out)@ + calls_source(all.take(i as int)),
        decreases calls.len() - i,
    {
        push_call(out, &calls[i]);
        assert(all.take(i + 1).drop_last() =~= all.take(i as int));
        i += 1;
    }
    assert(all.take(i as int) =~= all);
}

/// Appends a construction to `out`.
fn push_construction(out: &mut String, construction: &Construction)
    ensures
        final(out)@ == old(out)@ + construction_source(construction@),
{
    out.append(construction.label.as_str());
    match construction.kind {
        FieldKind::Unit => {},
        FieldKind::Positional => {
            out.append("(");
            push_calls(out, &construction.calls);
            out.append(")");
        },
        FieldKind::Named => {
            out.append(" { ");
            push_calls(out, &construction.calls);
            out.append("}");
        },
    }
}

/// Appends the arms of a dispatch, numbered from zero, to `out`.
fn push_arms(out: &mut String, arms: &Vec<Construction>)
    ensures
        final(out)@ == old(out)@ + arms_source(arms@.map_values(|c: Construction| c@)),
{
    let ghost all = arms@.map_values(|c: Construction| c@);
    let mut i: usize = 0;
    while i < arms.len()
        invariant
            i <= arms.len(),
            all == arms@.map_values(|c: Construction| c@),
            out@ == old(out)@ + arms_source(all.take(i as int)),
        decreases arms.len() - i,
    {
        let literal = index_literal(i);
        out.append(literal.as_str());
        out.append(" => ");
        push_construction(out, &arms[i]);
        out.append(", ");
        assert(all.take(i + 1).drop_last() =~= all.take(i as int));
        i += 1;
    }
    assert(all.take(i as int) =~= all);
}

impl Construction {
    /// The construction as source text.
    pub fn to_source(&self) -> (text: String)
        ensures
            text@ == construction_source(self@),
    {
        let mut text = String::new();
        push_construction(&mut text, self);
        text
    }
}

impl ConstructionRoutine {
    /// The name that the routine gives its handle: `_g` where the handle is
    /// unused, so that no warning is raised for it, else `g`.
    pub fn handle_name(&self) -> (name: &'static str)
        ensures
            name@ == handle_name_source(self.handle),
    {
        match self.handle {
            HandleUse::Unused => "_g",
            HandleUse::Threaded => "g",
        }
    }

    /// The body of the routine as source text.
    pub fn body_source(&self) -> (text: String)
        ensures
            text@ == body_source(self@.body),
    {
        let mut text = String::new();
        match &self.body {
            RoutineBody::Construct(construction) => {
                push_construction(&mut text, construction);
            },
            RoutineBody::Dispatch(arms) => {
                text.append("match g.gen_range(0, ");
                let bound = index_literal(arms.len());
                text.append(bound.as_str());
                text.append(") { ");
                push_arms(&mut text, arms);
                text.append("_ => unreachable!() }");
            },
        }
        text
    }

    /// The routine as the source text of one function.
    pub fn entry_point_source(&self) -> (text: String)
        ensures
            text@ == entry_point_source(self@),
    {
        let mut text = String::new();
        text.append("fn arbitrary<G: Gen>(");
        text.append(self.handle_name());
        text.append(": &mut G) -> Self { ");
        let body = self.body_source();
        text.append(body.as_str());
        text.append(" }");
        text
    }
}

} // verus!
