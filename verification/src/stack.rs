//! The two realizations of [`Stack`]: `Vec<i32>`, which keeps its values in
//! one growable block, and [`ListStack`], a chain of nodes in which each node
//! owns the chain beneath it.

use vstd::prelude::*;

use crate::Stack;

use ListStack::Nil;
use ListStack::Val;

verus! {

impl Stack for Vec<i32> {
    fn init() -> (stack: Self) {
        Vec::new()
    }

    fn push_val(&mut self, i: i32) {
        self.push(i);
    }

    fn top_val(&self) -> (top: Option<&i32>) {
        self.last()
    }

    fn pop_val(&mut self) -> (top: Option<i32>) {
        self.pop()
    }

    fn is_empty(&self) -> (empty: bool) {
        self.is_empty()
    }
}

/// A stack held as a chain of heap-allocated nodes.
///
/// `Nil` is the empty stack. `Val(value, rest)` is a node: `value` is on top,
/// and the node owns everything beneath it. The bottom node has no `rest`.
#[derive(Debug)]
pub enum ListStack {
    Val(i32, Option<Box<ListStack>>),
    Nil,
}

impl ListStack {
    /// The values of the chain from the bottom node up to the top node.
    pub open spec fn contents(self) -> Seq<i32>
        decreases self,
    {
        match self {
            Nil => Seq::empty(),
            Val(value, None) => seq![value],
            Val(value, Some(rest)) => rest.contents().push(value),
        }
    }

    /// The number of nodes in the chain.
    pub open spec fn depth(self) -> nat
        decreases self,
    {
        match self {
            Nil => 0,
            Val(_, None) => 1,
            Val(_, Some(rest)) => 1 + rest.depth(),
        }
    }

    /// A chain is well formed when `Nil` stands only for the whole empty
    /// stack: no node owns a boxed `Nil`, the bottom node owns nothing.
    pub open spec fn well_formed(self) -> bool
        decreases self,
    {
        match self {
            Nil => true,
            Val(_, None) => true,
            Val(_, Some(rest)) => !(*rest is Nil) && rest.well_formed(),
        }
    }

    /// The chain with `value` put on top: a new node that owns the whole old
    /// chain, or owns nothing when the old chain was `Nil`.
    pub open spec fn with_top(self, value: i32) -> ListStack {
        match self {
            Nil => Val(value, None),
            Val(_, _) => Val(value, Some(Box::new(self))),
        }
    }

    /// The chain that the top node owns; `Nil` when there is no top node or
    /// it owns nothing.
    pub open spec fn beneath(self) -> ListStack {
        match self {
            Val(_, Some(rest)) => *rest,
            _ => Nil,
        }
    }

    /// Taking the top node off a chain that just got one gives back the
    /// chain as it was, node for node.
    pub proof fn lemma_with_top_beneath(self, value: i32)
        ensures
            self.with_top(value).beneath() == self,
            self.well_formed() ==> self.with_top(value).well_formed(),
            self.with_top(value)@ == self@.push(value),
    {
    }

    /// The depth of a chain is the number of values it holds.
    pub proof fn lemma_depth_is_len(self)
        ensures
            self.depth() == self@.len(),
        decreases self,
    {
        if let Val(_, Some(rest)) = self {
            rest.lemma_depth_is_len();
        }
    }

    /// Each sequence of values has exactly one well-formed chain: two
    /// well-formed chains with the same contents are the same chain.
    pub proof fn lemma_well_formed_unique(self, other: ListStack)
        requires
            self.well_formed(),
            other.well_formed(),
            self@ == other@,
        ensures
            self == other,
        decreases self,
    {
        self.lemma_depth_is_len();
        other.lemma_depth_is_len();
        assert(self@.len() == other@.len());
        match (self, other) {
            (Val(value, None), Val(other_value, None)) => {
                assert(value == self@[0]);
                assert(other_value == other@[0]);
            },
            (Val(value, Some(rest)), Val(other_value, Some(other_rest))) => {
                assert(value == self@.last());
                assert(other_value == other@.last());
                assert(rest@ == self@.drop_last());
                assert(other_rest@ == other@.drop_last());
                rest.lemma_well_formed_unique(*other_rest);
            },
            (Val(_, Some(rest)), _) => {
                rest.lemma_depth_is_len();
            },
            (_, Val(_, Some(other_rest))) => {
                other_rest.lemma_depth_is_len();
            },
            _ => {},
        }
    }
}

impl View for ListStack {
    type V = Seq<i32>;

    open spec fn view(&self) -> Seq<i32> {
        self.contents()
    }
}

impl Stack for ListStack {
    fn init() -> (stack: Self)
        ensures
            stack == Nil,
    {
        Nil
    }

    fn push_val(&mut self, i: i32)
        ensures
            *final(self) == old(self).with_top(i),
            old(self).well_formed() ==> final(self).well_formed(),
    {
        match self {
            Val(value, other) => *self = Val(i, Some(Box::new(Val(*value, other.take())))),
            Nil => *self = Val(i, None),
        };
    }

    fn top_val(&self) -> (top: Option<&i32>) {
        match self {
            Val(value, _) => Some(value),
            Nil => None,
        }
    }

    fn pop_val(&mut self) -> (top: Option<i32>)
        ensures
            *final(self) == old(self).beneath(),
            old(self).well_formed() ==> final(self).well_formed(),
    {
        match self {
            Val(value, other) => {
                let popped_value: i32 = *value;
                match other.take() {
                    None => *self = Nil,
                    Some(other) => *self = *other,
                };
                Some(popped_value)
            },
            Nil => None,
        }
    }

    fn is_empty(&self) -> (empty: bool) {
        matches!(self, Nil)
    }
}

} // verus!
