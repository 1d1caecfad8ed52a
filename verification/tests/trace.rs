use lifo_stack::stack::ListStack;
use lifo_stack::trace::{apply, run_ops, Op, Seen};
use lifo_stack::Stack;

fn seen(value: Option<i32>, empty: bool) -> Seen {
    Seen { value, empty }
}

#[test]
fn apply_reports_value_and_emptiness() {
    let mut stack = ListStack::init();
    assert_eq!(apply(&mut stack, Op::Top), seen(None, true));
    assert_eq!(apply(&mut stack, Op::Pop), seen(None, true));
    assert_eq!(apply(&mut stack, Op::Push(3)), seen(None, false));
    assert_eq!(apply(&mut stack, Op::Top), seen(Some(3), false));
    assert_eq!(apply(&mut stack, Op::Push(4)), seen(None, false));
    assert_eq!(apply(&mut stack, Op::Pop), seen(Some(4), false));
    assert_eq!(apply(&mut stack, Op::Pop), seen(Some(3), true));
    assert!(stack.is_empty());
}

#[test]
fn run_ops_reports_each_step() {
    let ops = vec![
        Op::Push(1),
        Op::Top,
        Op::Push(2),
        Op::Top,
        Op::Push(-3),
        Op::Top,
        Op::Pop,
        Op::Pop,
        Op::Pop,
        Op::Pop,
    ];
    let expected = vec![
        seen(None, false),
        seen(Some(1), false),
        seen(None, false),
        seen(Some(2), false),
        seen(None, false),
        seen(Some(-3), false),
        seen(Some(-3), false),
        seen(Some(2), false),
        seen(Some(1), true),
        seen(None, true),
    ];
    let mut list = ListStack::init();
    assert_eq!(run_ops(&mut list, &ops), expected);
    assert!(list.is_empty());
    let mut array: Vec<i32> = Stack::init();
    assert_eq!(run_ops(&mut array, &ops), expected);
    assert!(Stack::is_empty(&array));
}

#[test]
fn run_ops_on_no_operations_changes_nothing() {
    let mut array: Vec<i32> = vec![8, 9];
    assert_eq!(run_ops(&mut array, &Vec::new()), Vec::new());
    assert_eq!(array, vec![8, 9]);
}

#[test]
fn both_stacks_show_the_same_on_a_long_mix() {
    let mut ops = Vec::new();
    let mut state: u32 = 12345;
    for _ in 0..20_000 {
        state = state.wrapping_mul(1_103_515_245).wrapping_add(12_345);
        let pick = (state >> 16) % 5;
        let value = (state >> 8) as i32;
        ops.push(match pick {
            0 | 1 => Op::Push(value),
            2 => Op::Top,
            _ => Op::Pop,
        });
    }
    let mut list = ListStack::init();
    let mut array: Vec<i32> = Stack::init();
    let from_list = run_ops(&mut list, &ops);
    let from_array = run_ops(&mut array, &ops);
    assert_eq!(from_list.len(), ops.len());
    assert_eq!(from_list, from_array);
    while let Some(value) = array.pop_val() {
        assert_eq!(list.pop_val(), Some(value));
    }
    assert!(list.is_empty());
}

#[test]
fn values_pushed_in_order_pop_in_reverse() {
    let values = vec![5, -1, 5, 0, i32::MIN, i32::MAX];
    let mut ops: Vec<Op> = Vec::new();
    for value in &values {
        ops.push(Op::Push(*value));
    }
    for _ in 0..values.len() {
        ops.push(Op::Pop);
    }
    let mut list = ListStack::init();
    list.push_val(77);
    let out = run_ops(&mut list, &ops);
    assert_eq!(out.len(), 12);
    for k in 0..values.len() {
        assert_eq!(out[values.len() + k].value, Some(values[values.len() - 1 - k]));
        assert!(!out[values.len() + k].empty);
    }
    assert_eq!(list.top_val(), Some(&77));
    assert_eq!(list.pop_val(), Some(77));
    assert!(list.is_empty());
}
