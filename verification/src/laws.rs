//! What holds of every stack, whatever its realization.
//!
//! Each statement is made over the contents of a stack and the functions
//! that the contracts of [`Stack`](crate::Stack) are written in, so it holds
//! of the array and of the chain of nodes alike.

use vstd::prelude::*;

use crate::trace::{outputs, run, seen, step, Op, Seen};
use crate::Stack;
use crate::{popped, pushed, top_of};

verus! {

/// The operations that push `values`, first to last.
pub open spec fn pushes(values: Seq<i32>) -> Seq<Op> {
    Seq::new(values.len(), |k: int| Op::Push(values[k]))
}

/// `n` pops in a row.
pub open spec fn pops(n: nat) -> Seq<Op> {
    Seq::new(n, |k: int| Op::Pop)
}

/// `n` peeks in a row.
pub open spec fn peeks(n: nat) -> Seq<Op> {
    Seq::new(n, |k: int| Op::Top)
}

/// Running `first + second` is running `second` on what `first` left.
pub proof fn lemma_run_concat(s: Seq<i32>, first: Seq<Op>, second: Seq<Op>)
    ensures
        run(s, first + second) == run(run(s, first), second),
    decreases second.len(),
{
    if second.len() == 0 {
        assert(first + second == first);
    } else {
        lemma_run_concat(s, first, second.drop_last());
        assert((first + second).drop_last() == first + second.drop_last());
        assert((first + second).last() == second.last());
    }
}

/// Pushing `values` puts them on top of what was there, the last one topmost.
pub proof fn lemma_run_pushes(s: Seq<i32>, values: Seq<i32>)
    ensures
        run(s, pushes(values)) == s + values,
    decreases values.len(),
{
    if values.len() == 0 {
        assert(s + values == s);
    } else {
        lemma_run_pushes(s, values.drop_last());
        assert(pushes(values).drop_last() == pushes(values.drop_last()));
        assert(pushes(values).last() == Op::Push(values.last()));
        assert((s + values.drop_last()).push(values.last()) == s + values);
    }
}

/// `n` pops take the top `n` values off, or all of them if there are fewer.
pub proof fn lemma_run_pops(s: Seq<i32>, n: nat)
    ensures
        run(s, pops(n)) == if n <= s.len() {
            s.take(s.len() - n)
        } else {
            Seq::empty()
        },
    decreases n,
{
    if n == 0 {
        assert(s.take(s.len() as int) == s);
    } else {
        let fewer = (n - 1) as nat;
        lemma_run_pops(s, fewer);
        assert(pops(n).drop_last() == pops(fewer));
        assert(pops(n).last() == Op::Pop);
        if n <= s.len() {
            assert(s.take(s.len() - fewer).drop_last() == s.take(s.len() - n));
        }
    }
}

/// Last in, first out: after `values` are pushed in order with no pop in
/// between, as many pops return them from the last one pushed to the first,
/// each exactly once, and leave the stack as it was before the pushes.
pub proof fn lemma_lifo(s: Seq<i32>, values: Seq<i32>)
    ensures
        ({
            let n = values.len();
            let ops = pushes(values) + pops(n);
            &&& run(s, ops) == s
            &&& outputs(s, ops).len() == 2 * n
            &&& forall|k: int|
                0 <= k < n ==> (#[trigger] outputs(s, ops)[n + k]).value == Some(
                    values[n - 1 - k],
                )
        }),
{
    let n = values.len();
    let ops = pushes(values) + pops(n);
    lemma_run_concat(s, pushes(values), pops(n));
    lemma_run_pushes(s, values);
    lemma_run_pops(s + values, n);
    assert((s + values).take(s.len() as int) == s);
    assert forall|k: int| 0 <= k < n implies (#[trigger] outputs(s, ops)[n + k]).value == Some(
        values[n - 1 - k],
    ) by {
        let done = pops(k as nat);
        assert(ops.take(n + k) == pushes(values) + done);
        lemma_run_concat(s, pushes(values), done);
        lemma_run_pops(s + values, k as nat);
        assert(ops[n + k] == Op::Pop);
        let left = (s + values).take(s.len() + n - k);
        assert(left.last() == values[n - 1 - k]);
    }
}

/// A stack is empty when it is new and after its last value is popped, and
/// not empty after a push. A push makes the stack one value larger, a pop
/// on a stack that is not empty one value smaller.
pub proof fn lemma_emptiness(s: Seq<i32>, value: i32)
    ensures
        Seq::<i32>::empty().len() == 0,
        pushed(s, value).len() == s.len() + 1,
        pushed(s, value).len() != 0,
        s.len() > 0 ==> popped(s).len() == s.len() - 1,
        s.len() == 1 ==> popped(s).len() == 0,
        popped(pushed(Seq::<i32>::empty(), value)).len() == 0,
{
}

/// Looking at the top any number of times in a row shows the same value, or
/// the same absence, every time, and leaves the stack as it was.
pub proof fn lemma_peek_idempotent(s: Seq<i32>, n: nat)
    ensures
        run(s, peeks(n)) == s,
        outputs(s, peeks(n)).len() == n,
        forall|k: int|
            0 <= k < n ==> #[trigger] outputs(s, peeks(n))[k] == (Seen {
                value: top_of(s),
                empty: s.len() == 0,
            }),
    decreases n,
{
    if n > 0 {
        let fewer = (n - 1) as nat;
        lemma_peek_idempotent(s, fewer);
        assert(peeks(n).drop_last() == peeks(fewer));
        assert forall|k: int| 0 <= k < n implies #[trigger] outputs(s, peeks(n))[k] == (Seen {
            value: top_of(s),
            empty: s.len() == 0,
        }) by {
            assert(peeks(n).take(k) == peeks(k as nat));
            lemma_peek_idempotent(s, k as nat);
        }
    }
}

/// A pop on an empty stack returns nothing and leaves the stack empty.
pub proof fn lemma_pop_on_empty(s: Seq<i32>)
    requires
        s.len() == 0,
    ensures
        top_of(s) == None::<i32>,
        popped(s) == s,
        seen(s, Op::Pop) == (Seen { value: None, empty: true }),
        step(s, Op::Pop) == s,
{
}

/// A push followed at once by a pop returns the value pushed and leaves the
/// stack as it was before the two: the same contents, so the same top value
/// and the same emptiness.
pub proof fn lemma_push_then_pop(s: Seq<i32>, value: i32)
    ensures
        top_of(pushed(s, value)) == Some(value),
        popped(pushed(s, value)) == s,
        run(s, seq![Op::Push(value), Op::Pop]) == s,
{
    assert(pushed(s, value).drop_last() == s);
    let ops = seq![Op::Push(value), Op::Pop];
    assert(ops.drop_last() == seq![Op::Push(value)]);
    assert(seq![Op::Push(value)].drop_last() == Seq::<Op>::empty());
    assert(run(s, Seq::<Op>::empty()) == s);
    assert(run(s, seq![Op::Push(value)]) == pushed(s, value));
}

/// Two stacks with the same contents, of the same realization or of two,
/// show the same thing at every step of the same operations and end with the
/// same contents.
pub proof fn lemma_realizations_agree<A: Stack, B: Stack>(a: A, b: B, ops: Seq<Op>)
    requires
        a@ == b@,
    ensures
        outputs(a@, ops) == outputs(b@, ops),
        run(a@, ops) == run(b@, ops),
{
}

} // verus!
