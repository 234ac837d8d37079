//! The machine shell: memory, program counter, evaluation stacks, interrupt
//! table and port stacks, together with the shared address-mode resolver
//! that every operand-taking operation goes through.

use vstd::prelude::*;

use crate::bytes::{half_of, read_half, read_word, word_at};
use crate::opcodes::OpAddrMode;
use crate::opcodes::OpFamily;
use crate::stk::{popped, Stack};

pub mod arithmetic_op_impl;
pub mod bit_op_impl;
pub mod port_op_impl;
pub mod stack_op_impl;

verus! {

/// Size of the machine's linear memory in bytes; code and data share it.
pub const RAM_SIZE: usize = 0x8000;

/// Number of interrupt-table slots.
pub const NUM_INTERRUPTS: usize = 8;

/// Number of host-visible port stacks.
pub const NUM_PORTS: usize = 8;

/// Interrupt-table entry marking a slot with no handler installed.
pub const INVALID_INTERRUPT: i16 = -1;

/// The machine state as mathematics: memory and program counter, the two
/// evaluation stacks bottom-first, the interrupt table, and the contents of
/// each port stack.
#[verifier::ext_equal]
pub struct VmState {
    pub ram: Seq<u8>,
    pub pc: int,
    pub data: Seq<i32>,
    pub call: Seq<i32>,
    pub interrupts: Seq<i16>,
    pub ports: Seq<Seq<i32>>,
}

/// The machine: a fixed-size byte memory shared by code and data, a program
/// counter, a data stack, a call stack, an interrupt table and eight port
/// stacks. The machine is crash-free on any byte pattern: undefined
/// encodings, out-of-range addresses, stack underflow and overflow are all
/// absorbed silently.
pub struct Vm {
    pub ram: Vec<u8>,
    pub pc: usize,
    pub data_stack: Stack,
    pub call_stack: Stack,
    pub interrupts: Vec<i16>,
    pub ports: Vec<Stack>,
}

impl View for Vm {
    type V = VmState;

    open spec fn view(&self) -> VmState {
        VmState {
            ram: self.ram@,
            pc: self.pc as int,
            data: self.data_stack@,
            call: self.call_stack@,
            interrupts: self.interrupts@,
            ports: Seq::new(NUM_PORTS as nat, |i: int| self.ports@[i]@),
        }
    }
}

/// Whether a resolved address may be read or written: the four bytes of a
/// word starting there must lie inside RAM.
pub open spec fn valid_addr(a: int) -> bool {
    0 <= a && a + 4 <= RAM_SIZE as int
}

/// The program counter after consuming `n` operand bytes: it advances by
/// `n` but never past the end of RAM.
pub open spec fn pc_plus(pc: int, n: int) -> int {
    if pc + n <= RAM_SIZE as int {
        pc + n
    } else {
        RAM_SIZE as int
    }
}

/// What the address resolver yields for each addressing mode: perhaps an
/// address, and the machine state after operand bytes and stack slots have
/// been consumed. A popped operand stays popped even when the resolved
/// address is out of range.
pub open spec fn get_addr_spec(s: VmState, mode: OpAddrMode) -> (Option<int>, VmState) {
    match mode {
        OpAddrMode::Immediate => {
            if s.pc + 4 > RAM_SIZE as int {
                (None, VmState { pc: pc_plus(s.pc, 4), ..s })
            } else {
                let a = (word_at(s.ram, s.pc) >> 16u32) as int;
                (
                    if valid_addr(a) {
                        Some(a)
                    } else {
                        None
                    },
                    VmState { pc: s.pc + 4, ..s },
                )
            }
        },
        OpAddrMode::IndexStack => {
            if s.pc + 2 > RAM_SIZE as int {
                (None, VmState { pc: pc_plus(s.pc, 2), ..s })
            } else if s.data.len() == 0 {
                (None, VmState { pc: s.pc + 2, ..s })
            } else {
                let base = half_of(s.ram[s.pc], s.ram[s.pc + 1]) as int;
                let a = base + ((s.data.last() >> 16u32) as int);
                (
                    if valid_addr(a) {
                        Some(a)
                    } else {
                        None
                    },
                    VmState { pc: s.pc + 2, data: popped(s.data), ..s },
                )
            }
        },
        OpAddrMode::IndexImmediate => {
            if s.pc + 2 > RAM_SIZE as int {
                (None, VmState { pc: pc_plus(s.pc, 2), ..s })
            } else if s.data.len() == 0 {
                (None, VmState { pc: s.pc + 2, ..s })
            } else {
                let offset = half_of(s.ram[s.pc], s.ram[s.pc + 1]) as int;
                let a = ((s.data.last() >> 16u32) as int) + offset;
                (
                    if valid_addr(a) {
                        Some(a)
                    } else {
                        None
                    },
                    VmState { pc: s.pc + 2, data: popped(s.data), ..s },
                )
            }
        },
        OpAddrMode::Stack => {
            if s.data.len() == 0 {
                (None, s)
            } else {
                let a = (s.data.last() >> 16u32) as int;
                (
                    if valid_addr(a) {
                        Some(a)
                    } else {
                        None
                    },
                    VmState { data: popped(s.data), ..s },
                )
            }
        },
        OpAddrMode::Invalid => (None, s),
    }
}

/// What the value resolver yields for each addressing mode: perhaps a
/// 32-bit word, and the machine state afterwards. Immediate takes the word
/// from the instruction stream, the indexed modes read it from the resolved
/// address, and Stack pops it directly.
pub open spec fn get_addr_val_spec(s: VmState, mode: OpAddrMode) -> (Option<i32>, VmState) {
    match mode {
        OpAddrMode::Immediate => {
            if s.pc + 4 > RAM_SIZE as int {
                (None, VmState { pc: pc_plus(s.pc, 4), ..s })
            } else {
                (Some(word_at(s.ram, s.pc)), VmState { pc: s.pc + 4, ..s })
            }
        },
        OpAddrMode::IndexStack | OpAddrMode::IndexImmediate => {
            let r = get_addr_spec(s, mode);
            match r.0 {
                Some(a) => (Some(word_at(r.1.ram, a)), r.1),
                None => (None, r.1),
            }
        },
        OpAddrMode::Stack => {
            if s.data.len() == 0 {
                (None, s)
            } else {
                (Some(s.data.last()), VmState { data: popped(s.data), ..s })
            }
        },
        OpAddrMode::Invalid => (None, s),
    }
}

/// Whether an executable address option agrees with a spec-level one.
pub open spec fn addr_opt_matches(r: Option<isize>, a: Option<int>) -> bool {
    match r {
        Some(x) => a == Some(x as int),
        None => a is None,
    }
}

impl Vm {
    /// Memory, interrupt table and port table have their fixed sizes, and
    /// every stack is well-formed.
    pub open spec fn wf(&self) -> bool {
        &&& self.ram@.len() == RAM_SIZE
        &&& self.data_stack.wf()
        &&& self.call_stack.wf()
        &&& self.interrupts@.len() == NUM_INTERRUPTS
        &&& self.ports@.len() == NUM_PORTS
        &&& forall|i: int| 0 <= i < NUM_PORTS ==> (#[trigger] self.ports@[i]).wf()
    }

    /// Constructs the machine in its zero state: RAM zeroed, program
    /// counter at 0, both stacks empty, every interrupt slot invalid, every
    /// port empty.
    pub fn new() -> (vm: Vm)
        ensures
            vm.wf(),
            vm@.ram == Seq::new(RAM_SIZE as nat, |i: int| 0u8),
            vm@.pc == 0,
            vm@.data == Seq::<i32>::empty(),
            vm@.call == Seq::<i32>::empty(),
            vm@.interrupts == Seq::new(NUM_INTERRUPTS as nat, |i: int| INVALID_INTERRUPT),
            vm@.ports == Seq::new(NUM_PORTS as nat, |i: int| Seq::<i32>::empty()),
    {
        let mut ram: Vec<u8> = Vec::new();
        let mut i: usize = 0;
        while i < RAM_SIZE
            invariant
                i <= RAM_SIZE,
                ram@.len() == i,
                forall|k: int| 0 <= k < i ==> ram@[k] == 0u8,
            decreases RAM_SIZE - i,
        {
            ram.push(0);
            i = i + 1;
        }
        let mut interrupts: Vec<i16> = Vec::new();
        let mut j: usize = 0;
        while j < NUM_INTERRUPTS
            invariant
                j <= NUM_INTERRUPTS,
                interrupts@.len() == j,
                forall|k: int| 0 <= k < j ==> interrupts@[k] == INVALID_INTERRUPT,
            decreases NUM_INTERRUPTS - j,
        {
            interrupts.push(INVALID_INTERRUPT);
            j = j + 1;
        }
        let mut ports: Vec<Stack> = Vec::new();
        let mut p: usize = 0;
        while p < NUM_PORTS
            invariant
                p <= NUM_PORTS,
                ports@.len() == p,
                forall|k: int| 0 <= k < p ==> (#[trigger] ports@[k]).wf() && ports@[k]@
                    == Seq::<i32>::empty(),
            decreases NUM_PORTS - p,
        {
            ports.push(Stack::new());
            p = p + 1;
        }
        let vm = Vm {
            ram,
            pc: 0,
            data_stack: Stack::new(),
            call_stack: Stack::new(),
            interrupts,
            ports,
        };
        proof {
            assert(vm@.ram =~= Seq::new(RAM_SIZE as nat, |i: int| 0u8));
            assert(vm@.interrupts =~= Seq::new(NUM_INTERRUPTS as nat, |i: int| INVALID_INTERRUPT));
            assert(vm@.ports =~~= Seq::new(NUM_PORTS as nat, |i: int| Seq::<i32>::empty()));
        }
        vm
    }

    /// Copies an image into the low portion of RAM, leaving the rest as it
    /// was. Fails, changing nothing, when the image is larger than RAM.
    /// Loading resets neither the program counter nor the stacks.
    pub fn load(&mut self, code_in: &[u8]) -> (r: bool)
        requires
            old(self).wf(),
        ensures
            final(self).wf(),
            r == (code_in@.len() <= RAM_SIZE),
            r ==> final(self)@ == (VmState {
                ram: code_in@ + old(self)@.ram.skip(code_in@.len() as int),
                ..old(self)@
            }),
            !r ==> *final(self) == *old(self),
    {
        let n = code_in.len();
        if n > RAM_SIZE {
            return false;
        }
        let mut i: usize = 0;
        while i < n
            invariant
                i <= n,
                n == code_in@.len(),
                n <= RAM_SIZE,
                self.ram@.len() == RAM_SIZE,
                forall|k: int| 0 <= k < i ==> self.ram@[k] == code_in@[k],
                forall|k: int| i <= k < RAM_SIZE ==> self.ram@[k] == old(self).ram@[k],
                self.pc == old(self).pc,
                self.data_stack == old(self).data_stack,
                self.call_stack == old(self).call_stack,
                self.interrupts == old(self).interrupts,
                self.ports == old(self).ports,
            decreases n - i,
        {
            self.ram[i] = code_in[i];
            i = i + 1;
        }
        proof {
            assert(self@.ram =~= code_in@ + old(self)@.ram.skip(code_in@.len() as int));
            assert(self@ =~~= (VmState {
                ram: code_in@ + old(self)@.ram.skip(code_in@.len() as int),
                ..old(self)@
            }));
        }
        true
    }
}

/// What one whole cycle does to the machine state: with the program
/// counter past the end of RAM nothing happens; otherwise the byte at the
/// program counter is fetched, the counter advances past it, and the
/// instruction's family dispatcher takes over. A reserved family code is a
/// no-op with no operand bytes consumed.
pub open spec fn cycle_spec(s: VmState) -> VmState {
    if !(0 <= s.pc < RAM_SIZE as int) {
        s
    } else {
        let inst = s.ram[s.pc];
        let s1 = VmState { pc: s.pc + 1, ..s };
        match crate::opcodes::family_of(inst) {
            OpFamily::StackOp => stack_op_impl::stack_cycle_spec(s1, inst),
            OpFamily::ArithmeticOp => arithmetic_op_impl::arith_cycle_spec(s1, inst),
            OpFamily::BitManipOp => bit_op_impl::bit_cycle_spec(s1, inst),
            OpFamily::PortOp => port_op_impl::port_cycle_spec(s1, inst),
            OpFamily::Invalid => s1,
        }
    }
}

impl Vm {
    /// Fetches, decodes and executes one instruction. With the program
    /// counter at or past the end of RAM this is a no-op: the machine has
    /// run off the end and stays exactly as it is.
    pub fn cycle_once(&mut self)
        requires
            old(self).wf(),
        ensures
            final(self).wf(),
            final(self)@ == cycle_spec(old(self)@),
            old(self).pc >= RAM_SIZE ==> *final(self) == *old(self),
            old(self).pc <= RAM_SIZE ==> old(self).pc <= final(self).pc <= RAM_SIZE,
    {
        if self.pc >= RAM_SIZE {
            return;
        }
        let next_inst = self.ram[self.pc];
        self.pc = self.pc + 1;
        let fam = OpFamily::from_byte(next_inst);
        match fam {
            OpFamily::StackOp => {
                stack_op_impl::cycle_op(self, next_inst);
            },
            OpFamily::ArithmeticOp => {
                arithmetic_op_impl::cycle_op(self, next_inst);
            },
            OpFamily::BitManipOp => {
                bit_op_impl::cycle_op(self, next_inst);
            },
            OpFamily::PortOp => {
                port_op_impl::cycle_op(self, next_inst);
            },
            OpFamily::Invalid => {},
        }
        proof {
            assert(self@ =~~= cycle_spec(old(self)@));
            lemma_cycle_pc_in_range(old(self)@);
        }
    }
}

/// The resolver advances the program counter, never moves it backwards,
/// and never moves it past the end of RAM.
pub proof fn lemma_get_addr_pc(s: VmState, mode: OpAddrMode)
    requires
        0 <= s.pc <= RAM_SIZE as int,
    ensures
        s.pc <= get_addr_spec(s, mode).1.pc <= RAM_SIZE as int,
{
}

/// The value resolver advances the program counter, never moves it
/// backwards, and never moves it past the end of RAM.
pub proof fn lemma_get_addr_val_pc(s: VmState, mode: OpAddrMode)
    requires
        0 <= s.pc <= RAM_SIZE as int,
    ensures
        s.pc <= get_addr_val_spec(s, mode).1.pc <= RAM_SIZE as int,
{
    lemma_get_addr_pc(s, mode);
}

/// After a cycle from any state whose program counter lies within RAM
/// bounds, the counter still lies within [0, RAM_SIZE], and it never moves
/// backwards: no instruction of the machine jumps.
pub proof fn lemma_cycle_pc_in_range(s: VmState)
    requires
        0 <= s.pc <= RAM_SIZE as int,
    ensures
        s.pc <= cycle_spec(s).pc <= RAM_SIZE as int,
{
    if 0 <= s.pc < RAM_SIZE as int {
        let inst = s.ram[s.pc];
        let s1 = VmState { pc: s.pc + 1, ..s };
        let mode = crate::opcodes::addr_mode_of(inst);
        lemma_get_addr_pc(s1, mode);
        lemma_get_addr_val_pc(s1, mode);
    }
}

/// Resolves the addressing mode to a memory address, consuming operand
/// bytes and stack slots as the mode requires. Yields nothing when the
/// operand bytes would cross the end of RAM, the needed stack slot is
/// missing, or the resolved address is out of range.
pub fn get_addr(vm: &mut Vm, addr_mode: &OpAddrMode) -> (r: Option<isize>)
    requires
        old(vm).wf(),
        old(vm).pc <= RAM_SIZE,
    ensures
        final(vm).wf(),
        final(vm).pc <= RAM_SIZE,
        final(vm)@ == get_addr_spec(old(vm)@, *addr_mode).1,
        addr_opt_matches(r, get_addr_spec(old(vm)@, *addr_mode).0),
        r is Some ==> valid_addr(r.unwrap() as int),
{
    match addr_mode {
        OpAddrMode::Immediate => {
            if vm.pc + 4 > RAM_SIZE {
                vm.pc = RAM_SIZE;
                return None;
            }
            let w = read_word(&vm.ram, vm.pc);
            vm.pc = vm.pc + 4;
            let a = w >> 16u32;
            proof {
                crate::fp::lemma_int_part_bounds(w);
            }
            if a >= 0 && a + 4 <= RAM_SIZE as i32 {
                Some(a as isize)
            } else {
                None
            }
        },
        OpAddrMode::IndexStack => {
            if vm.pc + 2 > RAM_SIZE {
                vm.pc = RAM_SIZE;
                return None;
            }
            let base = read_half(&vm.ram, vm.pc);
            vm.pc = vm.pc + 2;
            match vm.data_stack.pop() {
                Some(offset) => {
                    proof {
                        crate::fp::lemma_int_part_bounds(offset);
                    }
                    let a = (base as i32) + (offset >> 16u32);
                    if a >= 0 && a + 4 <= RAM_SIZE as i32 {
                        Some(a as isize)
                    } else {
                        None
                    }
                },
                None => None,
            }
        },
        OpAddrMode::IndexImmediate => {
            if vm.pc + 2 > RAM_SIZE {
                vm.pc = RAM_SIZE;
                return None;
            }
            let offset = read_half(&vm.ram, vm.pc);
            vm.pc = vm.pc + 2;
            match vm.data_stack.pop() {
                Some(base) => {
                    proof {
                        crate::fp::lemma_int_part_bounds(base);
                    }
                    let a = (base >> 16u32) + (offset as i32);
                    if a >= 0 && a + 4 <= RAM_SIZE as i32 {
                        Some(a as isize)
                    } else {
                        None
                    }
                },
                None => None,
            }
        },
        OpAddrMode::Stack => {
            match vm.data_stack.pop() {
                Some(v) => {
                    let a = v >> 16u32;
                    proof {
                        crate::fp::lemma_int_part_bounds(v);
                    }
                    if a >= 0 && a + 4 <= RAM_SIZE as i32 {
                        Some(a as isize)
                    } else {
                        None
                    }
                },
                None => None,
            }
        },
        OpAddrMode::Invalid => None,
    }
}

/// Resolves the addressing mode to a 32-bit value: the immediate word, the
/// word in memory at the resolved address, or the word popped from the data
/// stack.
pub fn get_addr_val(vm: &mut Vm, addr_mode: &OpAddrMode) -> (r: Option<i32>)
    requires
        old(vm).wf(),
        old(vm).pc <= RAM_SIZE,
    ensures
        final(vm).wf(),
        final(vm).pc <= RAM_SIZE,
        final(vm)@ == get_addr_val_spec(old(vm)@, *addr_mode).1,
        r == get_addr_val_spec(old(vm)@, *addr_mode).0,
{
    match addr_mode {
        OpAddrMode::Immediate => {
            if vm.pc + 4 > RAM_SIZE {
                vm.pc = RAM_SIZE;
                return None;
            }
            let w = read_word(&vm.ram, vm.pc);
            vm.pc = vm.pc + 4;
            Some(w)
        },
        OpAddrMode::IndexStack | OpAddrMode::IndexImmediate => {
            match get_addr(vm, addr_mode) {
                Some(a) => Some(read_word(&vm.ram, a as usize)),
                None => None,
            }
        },
        OpAddrMode::Stack => vm.data_stack.pop(),
        OpAddrMode::Invalid => None,
    }
}

} // verus!
