//! Sequences of stack operations, and what a caller observes of them.
//!
//! The meaning of an operation is given once, on the sequence of values that
//! a stack holds. [`apply`] and [`run_ops`] carry operations out on any
//! realization of [`Stack`]; what they return is stated over the contents
//! alone, so it cannot depend on the realization.

use vstd::prelude::*;

use crate::Stack;
use crate::{popped, pushed, top_of};

verus! {

/// One operation on a stack.
#[derive(Clone, Copy, Debug, PartialEq, Eq)]
pub enum Op {
    /// Put the value on top.
    Push(i32),
    /// Look at the value on top.
    Top,
    /// Take the value on top off the stack.
    Pop,
}

/// What a caller observes of one operation.
#[derive(Clone, Copy, Debug, PartialEq, Eq)]
pub struct Seen {
    /// The value that a peek or a pop returned; `None` when the stack was
    /// empty, and for a push, which returns nothing.
    pub value: Option<i32>,
    /// Whether the stack was empty after the operation.
    pub empty: bool,
}

/// The contents after `op` on a stack that held `s`.
pub open spec fn step(s: Seq<i32>, op: Op) -> Seq<i32> {
    match op {
        Op::Push(value) => pushed(s, value),
        Op::Top => s,
        Op::Pop => popped(s),
    }
}

/// What a caller observes of `op` on a stack that held `s`.
pub open spec fn seen(s: Seq<i32>, op: Op) -> Seen {
    Seen {
        value: match op {
            Op::Push(_) => None,
            Op::Top => top_of(s),
            Op::Pop => top_of(s),
        },
        empty: step(s, op).len() == 0,
    }
}

/// The contents after the operations `ops`, in order, on a stack that held `s`.
pub open spec fn run(s: Seq<i32>, ops: Seq<Op>) -> Seq<i32>
    decreases ops.len(),
{
    if ops.len() == 0 {
        s
    } else {
        step(run(s, ops.drop_last()), ops.last())
    }
}

/// What a caller observes of each of the operations `ops`, carried out in
/// order on a stack that held `s`.
pub open spec fn outputs(s: Seq<i32>, ops: Seq<Op>) -> Seq<Seen> {
    Seq::new(ops.len(), |k: int| seen(run(s, ops.take(k)), ops[k]))
}

/// Carries out one operation and reports what it returned and whether the
/// stack is empty afterwards.
pub fn apply<S: Stack>(stack: &mut S, op: Op) -> (out: Seen)
    ensures
        final(stack)@ == step(old(stack)@, op),
        out == seen(old(stack)@, op),
{
    let value: Option<i32> = match op {
        Op::Push(value) => {
            stack.push_val(value);
            None
        },
        Op::Top => match stack.top_val() {
            Some(value) => Some(*value),
            None => None,
        },
        Op::Pop => stack.pop_val(),
    };
    Seen { value, empty: stack.is_empty() }
}

/// Carries out the operations `ops` in order and reports what each of them
/// showed.
pub fn run_ops<S: Stack>(stack: &mut S, ops: &Vec<Op>) -> (out: Vec<Seen>)
    ensures
        final(stack)@ == run(old(stack)@, ops@),
        out@ == outputs(old(stack)@, ops@),
{
    let ghost start = stack@;
    let mut out: Vec<Seen> = Vec::new();
    let mut i: usize = 0;
    while i < ops.len()
        invariant
            i <= ops.len(),
            stack@ == run(start, ops@.take(i as int)),
            out@ == outputs(start, ops@.take(i as int)),
        decreases ops.len() - i,
    {
        let ghost before = ops@.take(i as int);
        let ghost after = ops@.take(i + 1);
        assert(after.drop_last() == before);
        assert(after.last() == ops@[i as int]);
        let seen_now = apply(stack, ops[i]);
        out.push(seen_now);
        i += 1;
        assert(out@ == outputs(start, after)) by {
            assert forall|k: int| 0 <= k < after.len() implies out@[k] == outputs(start, after)[k] by {
                assert(after.take(k) == ops@.take(k));
                if k < before.len() {
                    assert(before.take(k) == ops@.take(k));
                }
            }
        }
    }
    assert(ops@.take(ops.len() as int) == ops@);
    out
}

} // verus!
