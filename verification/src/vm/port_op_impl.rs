//! The port-family dispatcher: moving words from the data stack onto the
//! host-visible port stacks. The low three bits of the instruction byte
//! select the port instead of an addressing mode.

use vstd::prelude::*;

use crate::opcodes::{port_op_of, PortOpTypes};
use crate::stk::{popped, pushed};
use crate::vm::{Vm, VmState, RAM_SIZE};

verus! {

/// What one port-family instruction does to the machine state: pop a word
/// from the data stack and push it onto the selected port stack. An empty
/// data stack means nothing happens; a full port stack swallows the word.
pub open spec fn port_cycle_spec(s: VmState, inst: u8) -> VmState {
    match port_op_of(inst) {
        PortOpTypes::Push => {
            if s.data.len() == 0 {
                s
            } else {
                let j = (inst & 0b0000_0111) as int;
                VmState {
                    data: popped(s.data),
                    ports: s.ports.update(j, pushed(s.ports[j], s.data.last())),
                    ..s
                }
            }
        },
        PortOpTypes::Invalid => s,
    }
}

/// Executes one port-family instruction.
pub(super) fn cycle_op(vm: &mut Vm, inst: u8)
    requires
        old(vm).wf(),
        old(vm).pc <= RAM_SIZE,
    ensures
        final(vm).wf(),
        final(vm).pc <= RAM_SIZE,
        final(vm)@ == port_cycle_spec(old(vm)@, inst),
{
    let op_type = PortOpTypes::from_byte(inst);
    match op_type {
        PortOpTypes::Push => {
            if let Some(val) = vm.data_stack.pop() {
                let port_val = (inst & 0b0000_0111) as usize;
                proof {
                    assert(inst & 0b0000_0111 < 8) by (bit_vector);
                }
                vm.ports[port_val].push(val);
            }
        },
        PortOpTypes::Invalid => {},
    }
    proof {
        assert(vm@ =~~= port_cycle_spec(old(vm)@, inst));
    }
}

} // verus!
