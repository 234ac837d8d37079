//! The bit-manipulation dispatcher: shifts, rotations and logical
//! operations on raw 32-bit patterns. Only the shift or rotation amount is
//! read as a Q16.16 word, by taking its integer part.

use vstd::prelude::*;

use crate::opcodes::{bit_op_of, BitOpTypes};
use crate::stk::popped;
use crate::vm::{Vm, VmState, RAM_SIZE};

verus! {

/// A 32-bit left rotation by an amount already reduced into [0, 31].
pub open spec fn rotl32(v: i32, r: u32) -> i32
    recommends
        r < 32,
{
    if r == 0 {
        v
    } else {
        (((v as u32) << r) | ((v as u32) >> (32 - r) as u32)) as i32
    }
}

/// A 32-bit right rotation by an amount already reduced into [0, 31].
pub open spec fn rotr32(v: i32, r: u32) -> i32
    recommends
        r < 32,
{
    if r == 0 {
        v
    } else {
        (((v as u32) >> r) | ((v as u32) << (32 - r) as u32)) as i32
    }
}

/// What a shift or rotation does once the amount has been popped: the
/// amount is the integer part of the popped Q16.16 word. A negative
/// amount, a shift amount past the word width, or an empty stack leaves
/// the remaining state unchanged; the popped amount stays popped.
/// Rotation amounts are taken modulo the word width.
pub open spec fn shift_result(t: BitOpTypes, v: i32, n: i32) -> i32
    recommends
        n >= 0,
{
    match t {
        BitOpTypes::Shl => {
            if n < 32 {
                v << (n as u32)
            } else {
                v
            }
        },
        BitOpTypes::Shr => {
            if n < 32 {
                v >> (n as u32)
            } else {
                v
            }
        },
        BitOpTypes::Rotl => rotl32(v, (n % 32) as u32),
        BitOpTypes::Rotr => rotr32(v, (n % 32) as u32),
        _ => v,
    }
}

/// Whether a shift or rotate by integer amount `n` goes ahead: the amount
/// must not be negative, and a plain shift by the word width or more is
/// absorbed as a no-op.
pub open spec fn shift_applies(t: BitOpTypes, n: i32) -> bool {
    match t {
        BitOpTypes::Shl | BitOpTypes::Shr => 0 <= n < 32,
        _ => n >= 0,
    }
}

/// What one bit-manipulation instruction does to the machine state.
/// Shifts and rotations pop the amount, then the value; logical binary
/// operations pop `a` then `b` and push the result, a single operand being
/// pushed back; Not pops one word and pushes its complement.
pub open spec fn bit_cycle_spec(s: VmState, inst: u8) -> VmState {
    match bit_op_of(inst) {
        BitOpTypes::Shl | BitOpTypes::Shr | BitOpTypes::Rotl | BitOpTypes::Rotr => {
            if s.data.len() == 0 {
                s
            } else {
                let n = s.data.last() >> 16u32;
                let s1 = VmState { data: popped(s.data), ..s };
                if !shift_applies(bit_op_of(inst), n) || s1.data.len() == 0 {
                    s1
                } else {
                    VmState {
                        data: s1.data.drop_last().push(
                            shift_result(bit_op_of(inst), s1.data.last(), n),
                        ),
                        ..s1
                    }
                }
            }
        },
        BitOpTypes::And | BitOpTypes::Or | BitOpTypes::Xor => {
            if s.data.len() < 2 {
                s
            } else {
                let a = s.data[s.data.len() - 1];
                let b = s.data[s.data.len() - 2];
                let c = match bit_op_of(inst) {
                    BitOpTypes::And => a & b,
                    BitOpTypes::Or => a | b,
                    _ => a ^ b,
                };
                VmState { data: s.data.drop_last().drop_last().push(c), ..s }
            }
        },
        BitOpTypes::Not => {
            if s.data.len() == 0 {
                s
            } else {
                VmState { data: s.data.drop_last().push(!s.data.last()), ..s }
            }
        },
        BitOpTypes::Invalid => s,
    }
}

/// Executes one bit-manipulation instruction.
pub(super) fn cycle_op(vm: &mut Vm, inst: u8)
    requires
        old(vm).wf(),
        old(vm).pc <= RAM_SIZE,
    ensures
        final(vm).wf(),
        final(vm).pc <= RAM_SIZE,
        final(vm)@ == bit_cycle_spec(old(vm)@, inst),
{
    let op_type = BitOpTypes::from_byte(inst);
    match op_type {
        BitOpTypes::Shl | BitOpTypes::Shr | BitOpTypes::Rotl | BitOpTypes::Rotr => {
            if let Some(amt) = vm.data_stack.pop() {
                proof {
                    crate::fp::lemma_int_part_bounds(amt);
                }
                let n = amt >> 16u32;
                let applies = match op_type {
                    BitOpTypes::Shl | BitOpTypes::Shr => 0 <= n && n < 32,
                    _ => n >= 0,
                };
                if applies {
                    if let Some(val) = vm.data_stack.pop() {
                        let c = match op_type {
                            BitOpTypes::Shl => val << (n as u32),
                            BitOpTypes::Shr => val >> (n as u32),
                            BitOpTypes::Rotl => {
                                let r = (n % 32) as u32;
                                if r == 0 {
                                    val
                                } else {
                                    #[verifier::truncate] ((((val as u32) << r) | ((val as u32)
                                        >> (32 - r))) as i32)
                                }
                            },
                            _ => {
                                let r = (n % 32) as u32;
                                if r == 0 {
                                    val
                                } else {
                                    #[verifier::truncate] ((((val as u32) >> r) | ((val as u32)
                                        << (32 - r))) as i32)
                                }
                            },
                        };
                        vm.data_stack.push(c);
                    }
                }
            }
        },
        BitOpTypes::And | BitOpTypes::Or | BitOpTypes::Xor => {
            if let Some(a) = vm.data_stack.pop() {
                if let Some(b) = vm.data_stack.pop() {
                    let c = match op_type {
                        BitOpTypes::And => a & b,
                        BitOpTypes::Or => a | b,
                        _ => a ^ b,
                    };
                    vm.data_stack.push(c);
                } else {
                    vm.data_stack.push(a);
                }
            }
        },
        BitOpTypes::Not => {
            if let Some(a) = vm.data_stack.pop() {
                vm.data_stack.push(!a);
            }
        },
        BitOpTypes::Invalid => {},
    }
    proof {
        assert(vm@ =~~= bit_cycle_spec(old(vm)@, inst));
    }
}

} // verus!
