//! The arithmetic-family dispatcher: binary Q16.16 operations on the data
//! stack.

use vstd::prelude::*;

use crate::fp::{fp_div, fp_div_spec, fp_mul, fp_mul_spec};
use crate::opcodes::{arithmetic_op_of, ArithmeticOpTypes};
use crate::vm::{Vm, VmState, RAM_SIZE};

verus! {

/// The result of one arithmetic operation on two popped words, `a` popped
/// first (the old top of the stack). Add and Sub wrap on overflow; Mul and
/// Div scale as Q16.16, and dividing by zero yields 0.
pub open spec fn arith_result(t: ArithmeticOpTypes, a: i32, b: i32) -> i32 {
    match t {
        ArithmeticOpTypes::Add => vstd::wrapping::i32_specs::wrapping_add(a, b),
        ArithmeticOpTypes::Sub => vstd::wrapping::i32_specs::wrapping_sub(a, b),
        ArithmeticOpTypes::Mul => fp_mul_spec(a, b),
        ArithmeticOpTypes::Div => fp_div_spec(a, b),
        ArithmeticOpTypes::Invalid => 0,
    }
}

/// What one arithmetic-family instruction does to the machine state: pop
/// `a`, pop `b`, push the operation's result. With only one word on the
/// stack the word is popped and pushed back, leaving the state unchanged;
/// with an empty stack nothing happens.
pub open spec fn arith_cycle_spec(s: VmState, inst: u8) -> VmState {
    if s.data.len() < 2 {
        s
    } else {
        let a = s.data[s.data.len() - 1];
        let b = s.data[s.data.len() - 2];
        VmState {
            data: s.data.drop_last().drop_last().push(arith_result(arithmetic_op_of(inst), a, b)),
            ..s
        }
    }
}

/// Executes one arithmetic-family instruction.
pub(super) fn cycle_op(vm: &mut Vm, inst: u8)
    requires
        old(vm).wf(),
        old(vm).pc <= RAM_SIZE,
    ensures
        final(vm).wf(),
        final(vm).pc <= RAM_SIZE,
        final(vm)@ == arith_cycle_spec(old(vm)@, inst),
{
    let op_type = ArithmeticOpTypes::from_byte(inst);
    if let Some(a) = vm.data_stack.pop() {
        if let Some(b) = vm.data_stack.pop() {
            let c = match op_type {
                ArithmeticOpTypes::Add => a.wrapping_add(b),
                ArithmeticOpTypes::Sub => a.wrapping_sub(b),
                ArithmeticOpTypes::Mul => fp_mul(a, b),
                ArithmeticOpTypes::Div => fp_div(a, b),
                ArithmeticOpTypes::Invalid => {
                    proof {
                        assert(false);
                    }
                    0
                },
            };
            vm.data_stack.push(c);
        } else {
            vm.data_stack.push(a);
        }
    }
    proof {
        assert(vm@ =~~= arith_cycle_spec(old(vm)@, inst));
    }
}

} // verus!
