//! The stack-family dispatcher: data movement between the instruction
//! stream, memory, the data stack and the call stack.

use vstd::prelude::*;

use crate::bytes::{read_word, word_at, word_stored, write_word};
use crate::opcodes::{addr_mode_of, stack_op_of, OpAddrMode, StackOpTypes};
use crate::stk::{popped, pushed};
use crate::vm::{
    get_addr, get_addr_spec, get_addr_val, get_addr_val_spec, valid_addr, Vm, VmState, RAM_SIZE,
};

verus! {

/// What a Push operation does: resolve a value and place it on the data
/// stack. Under the Stack addressing mode the popped word is itself a
/// Q16.16 memory address, and the word read there is pushed instead; an
/// out-of-range address drops the operation, the popped word staying
/// popped.
pub open spec fn op_push_spec(s: VmState, mode: OpAddrMode) -> VmState {
    let r = get_addr_val_spec(s, mode);
    match r.0 {
        None => r.1,
        Some(v) => match mode {
            OpAddrMode::Stack => {
                let a = (v >> 16u32) as int;
                if valid_addr(a) {
                    VmState { data: pushed(r.1.data, word_at(r.1.ram, a)), ..r.1 }
                } else {
                    r.1
                }
            },
            _ => VmState { data: pushed(r.1.data, v), ..r.1 },
        },
    }
}

/// What a Store operation does: resolve an address, pop a word from the
/// data stack, and write its four bytes there. If no address resolves or
/// the stack is empty, nothing further happens.
pub open spec fn op_store_spec(s: VmState, mode: OpAddrMode) -> VmState {
    let r = get_addr_spec(s, mode);
    match r.0 {
        None => r.1,
        Some(a) => {
            if r.1.data.len() == 0 {
                r.1
            } else {
                VmState {
                    ram: word_stored(r.1.ram, a, r.1.data.last()),
                    data: popped(r.1.data),
                    ..r.1
                }
            }
        },
    }
}

/// What one stack-family instruction does to the machine state, the opcode
/// byte already fetched. Push and Store honour the addressing-mode bits;
/// the remaining types ignore them.
pub open spec fn stack_cycle_spec(s: VmState, inst: u8) -> VmState {
    match stack_op_of(inst) {
        StackOpTypes::Push => op_push_spec(s, addr_mode_of(inst)),
        StackOpTypes::Store => op_store_spec(s, addr_mode_of(inst)),
        StackOpTypes::Pop => VmState { data: popped(s.data), ..s },
        StackOpTypes::Dup => {
            if s.data.len() == 0 {
                s
            } else {
                VmState { data: pushed(s.data, s.data.last()), ..s }
            }
        },
        StackOpTypes::Rot => {
            if s.data.len() < 3 {
                s
            } else {
                let n = s.data.len() as int;
                VmState {
                    data: s.data.update(n - 3, s.data[n - 2]).update(n - 2, s.data[n - 1]).update(
                        n - 1,
                        s.data[n - 3],
                    ),
                    ..s
                }
            }
        },
        StackOpTypes::Swap => {
            if s.data.len() < 2 {
                s
            } else {
                let n = s.data.len() as int;
                VmState {
                    data: s.data.update(n - 2, s.data[n - 1]).update(n - 1, s.data[n - 2]),
                    ..s
                }
            }
        },
        StackOpTypes::MovToRts => {
            if s.data.len() == 0 {
                s
            } else {
                VmState { data: popped(s.data), call: pushed(s.call, s.data.last()), ..s }
            }
        },
        StackOpTypes::MovFromRts => {
            if s.call.len() == 0 {
                s
            } else {
                VmState { call: popped(s.call), data: pushed(s.data, s.call.last()), ..s }
            }
        },
        StackOpTypes::Invalid => s,
    }
}

/// Executes one stack-family instruction.
pub(super) fn cycle_op(vm: &mut Vm, inst: u8)
    requires
        old(vm).wf(),
        old(vm).pc <= RAM_SIZE,
    ensures
        final(vm).wf(),
        final(vm).pc <= RAM_SIZE,
        final(vm)@ == stack_cycle_spec(old(vm)@, inst),
{
    let op_type = StackOpTypes::from_byte(inst);
    let addr_mode = OpAddrMode::from_byte(inst);
    match op_type {
        StackOpTypes::Push => op_push(vm, addr_mode),
        StackOpTypes::Store => op_store(vm, addr_mode),
        StackOpTypes::Pop => {
            let _ = vm.data_stack.pop();
        },
        StackOpTypes::Dup => {
            if let Some(val) = vm.data_stack.peek() {
                vm.data_stack.push(val);
            }
        },
        StackOpTypes::Rot => {
            if let Some(c) = vm.data_stack.pop() {
                if let Some(b) = vm.data_stack.pop() {
                    if let Some(a) = vm.data_stack.pop() {
                        vm.data_stack.push(b);
                        vm.data_stack.push(c);
                        vm.data_stack.push(a);
                    } else {
                        vm.data_stack.push(b);
                        vm.data_stack.push(c);
                    }
                } else {
                    vm.data_stack.push(c);
                }
            }
            proof {
                assert(vm@.data =~= stack_cycle_spec(old(vm)@, inst).data);
            }
        },
        StackOpTypes::Swap => {
            if let Some(c) = vm.data_stack.pop() {
                if let Some(b) = vm.data_stack.pop() {
                    vm.data_stack.push(c);
                    vm.data_stack.push(b);
                } else {
                    vm.data_stack.push(c);
                }
            }
            proof {
                assert(vm@.data =~= stack_cycle_spec(old(vm)@, inst).data);
            }
        },
        StackOpTypes::MovToRts => {
            if let Some(val) = vm.data_stack.pop() {
                vm.call_stack.push(val);
            }
        },
        StackOpTypes::MovFromRts => {
            if let Some(val) = vm.call_stack.pop() {
                vm.data_stack.push(val);
            }
        },
        StackOpTypes::Invalid => {},
    }
    proof {
        assert(vm@ =~~= stack_cycle_spec(old(vm)@, inst));
    }
}

/// Executes a Push operation under the given addressing mode.
pub fn op_push(vm: &mut Vm, addr_mode: OpAddrMode)
    requires
        old(vm).wf(),
        old(vm).pc <= RAM_SIZE,
    ensures
        final(vm).wf(),
        final(vm).pc <= RAM_SIZE,
        final(vm)@ == op_push_spec(old(vm)@, addr_mode),
{
    let arg: Option<i32> = get_addr_val(vm, &addr_mode);
    if let Some(p_val) = arg {
        if let OpAddrMode::Stack = addr_mode {
            proof {
                crate::fp::lemma_int_part_bounds(p_val);
            }
            let a = p_val >> 16u32;
            if a >= 0 && a + 4 <= RAM_SIZE as i32 {
                let w = read_word(&vm.ram, a as usize);
                vm.data_stack.push(w);
            }
        } else {
            vm.data_stack.push(p_val);
        }
    }
    proof {
        assert(vm@ =~~= op_push_spec(old(vm)@, addr_mode));
    }
}

/// Executes a Store operation under the given addressing mode.
pub fn op_store(vm: &mut Vm, addr_mode: OpAddrMode)
    requires
        old(vm).wf(),
        old(vm).pc <= RAM_SIZE,
    ensures
        final(vm).wf(),
        final(vm).pc <= RAM_SIZE,
        final(vm)@ == op_store_spec(old(vm)@, addr_mode),
{
    if let Some(addr) = get_addr(vm, &addr_mode) {
        if let Some(data) = vm.data_stack.pop() {
            write_word(&mut vm.ram, addr as usize, data);
        }
    }
    proof {
        assert(vm@ =~~= op_store_spec(old(vm)@, addr_mode));
    }
}

} // verus!
