//! A last-in-first-out stack of `i32` values, in two interchangeable
//! realizations: a growable array and a chain of heap-allocated nodes.
//!
//! Every realization is described by one mathematical model, the sequence of
//! its values from bottom to top, and every operation of [`Stack`] is pinned
//! down as a function of that sequence.

use vstd::prelude::*;

pub mod laws;
pub mod stack;
pub mod trace;

verus! {

/// The value on top of the contents `s`, if there is one.
pub open spec fn top_of(s: Seq<i32>) -> Option<i32> {
    if s.len() == 0 {
        None
    } else {
        Some(s.last())
    }
}

/// The contents `s` with `value` put on top.
pub open spec fn pushed(s: Seq<i32>, value: i32) -> Seq<i32> {
    s.push(value)
}

/// The contents `s` without its top value; empty contents stay empty.
pub open spec fn popped(s: Seq<i32>) -> Seq<i32> {
    if s.len() == 0 {
        s
    } else {
        s.drop_last()
    }
}

/// A last-in-first-out stack of `i32` values.
///
/// The view of a stack is the sequence of its values from bottom to top; the
/// last element of the sequence is the top of the stack.
pub trait Stack: View<V = Seq<i32>> + Sized {
    /// Creates an empty stack.
    fn init() -> (stack: Self)
        ensures
            stack@ == Seq::<i32>::empty(),
    ;

    /// Puts `i` on top of the stack. Everything below stays as it was.
    fn push_val(&mut self, i: i32)
        ensures
            final(self)@ == pushed(old(self)@, i),
    ;

    /// Returns the value on top of the stack, or `None` if the stack is empty.
    fn top_val(&self) -> (top: Option<&i32>)
        ensures
            top_of(self@) == match top {
                Some(value) => Some(*value),
                None => None,
            },
    ;

    /// Removes the value on top of the stack and returns it. On an empty stack
    /// this returns `None` and the stack stays empty.
    fn pop_val(&mut self) -> (top: Option<i32>)
        ensures
            top == top_of(old(self)@),
            final(self)@ == popped(old(self)@),
    ;

    /// Tells whether the stack holds no value.
    fn is_empty(&self) -> (empty: bool)
        ensures
            empty <==> self@.len() == 0,
    ;
}

} // verus!
