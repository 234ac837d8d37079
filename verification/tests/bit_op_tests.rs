use seqstk::opcodes::OpCodes;
use seqstk::vm::{Vm, INVALID_INTERRUPT, RAM_SIZE};

const FP_LSB: f32 = 1.0 / ((1 << 16) as f32);

fn float_to_fix(a: f32) -> i32 {
    (a / FP_LSB) as i32
}

fn init_vm() -> Vm {
    let vm = Vm::new();
    assert!(vm.pc == 0);
    assert!(vm.data_stack.empty());
    assert!(vm.call_stack.empty());
    for p in vm.ports.iter() {
        assert!(p.empty());
    }
    for i in vm.interrupts.iter() {
        assert_eq!(*i, INVALID_INTERRUPT);
    }
    vm
}

#[test]
fn test_shl() {
    let mut vm = init_vm();
    let a = 0xFFFFFFFFu32 as i32;
    let shift_amt = float_to_fix(1.0);
    let expected = a << 1;
    vm.data_stack.push(a);
    vm.data_stack.push(shift_amt);
    let mut code = [0u8; RAM_SIZE];
    code[0] = OpCodes::Shl.to_byte();
    vm.load(&code);
    vm.cycle_once();
    assert_eq!(vm.pc, 1, "Shiftl failed to increment program counter!");
    let result = vm.data_stack.pop();
    assert!(!result.is_none(), "NONE on stack pop!");
    assert_eq!(
        result.unwrap(),
        expected,
        "Shiftl expected {:x} but found {:x}!",
        expected,
        result.unwrap()
    );
}

#[test]
fn test_shr() {
    let mut vm = init_vm();
    let a = 0xFFFFFFFFu32 as i32;
    let shift_amt = float_to_fix(1.0);
    let expected = a >> 1;
    vm.data_stack.push(a);
    vm.data_stack.push(shift_amt);
    let mut code = [0u8; RAM_SIZE];
    code[0] = OpCodes::Shr.to_byte();
    vm.load(&code);
    vm.cycle_once();
    assert_eq!(vm.pc, 1, "Shiftr failed to increment program counter!");
    let result = vm.data_stack.pop();
    assert!(!result.is_none(), "NONE on stack pop!");
    assert_eq!(
        result.unwrap(),
        expected,
        "Shiftr expected {:x} but found {:x}!",
        expected,
        result.unwrap()
    );
}

#[test]
fn test_rotl() {
    let mut vm = init_vm();
    let a = 0x8FFFFFFFu32 as i32;
    let expected = 0x1FFFFFFFu32 as i32;
    let rot_amt = float_to_fix(1.0);
    vm.data_stack.push(a);
    vm.data_stack.push(rot_amt);
    let mut code = [0u8; RAM_SIZE];
    code[0] = OpCodes::Rotl.to_byte();
    vm.load(&code);
    vm.cycle_once();
    assert_eq!(vm.pc, 1, "Rotl failed to increment program counter!");
    let result = vm.data_stack.pop();
    assert!(!result.is_none(), "NONE on stack pop!");
    assert_eq!(
        result.unwrap(),
        expected,
        "Rotl expected {:x} but found {:x}!",
        expected,
        result.unwrap()
    );
}

fn run_bit_op(op: u8, first_pushed: i32, second_pushed: i32) -> Vm {
    let mut vm = init_vm();
    vm.data_stack.push(first_pushed);
    vm.data_stack.push(second_pushed);
    let mut code = [0u8; RAM_SIZE];
    code[0] = op;
    assert!(vm.load(&code));
    vm.cycle_once();
    assert_eq!(vm.pc, 1);
    vm
}

#[test]
fn test_rotr() {
    let mut vm = run_bit_op(OpCodes::Rotr.to_byte(), 0x1FFFFFFFu32 as i32, float_to_fix(1.0));
    assert_eq!(vm.data_stack.pop(), Some(0x8FFFFFFFu32 as i32));
    assert!(vm.data_stack.pop().is_none());
}

#[test]
fn rotl_by_32_leaves_value() {
    let mut vm = run_bit_op(OpCodes::Rotl.to_byte(), 0x12345678, float_to_fix(32.0));
    assert_eq!(vm.data_stack.pop(), Some(0x12345678));
    assert!(vm.data_stack.pop().is_none());
}

#[test]
fn shift_by_negative_amount_is_noop() {
    let mut vm = run_bit_op(OpCodes::Shl.to_byte(), 0x0F0F0F0F, float_to_fix(-1.0));
    // The amount is consumed; the value stays unshifted.
    assert_eq!(vm.data_stack.pop(), Some(0x0F0F0F0F));
    assert!(vm.data_stack.pop().is_none());
}

#[test]
fn shift_by_width_or_more_is_noop() {
    let mut vm = run_bit_op(OpCodes::Shr.to_byte(), 0x0F0F0F0F, float_to_fix(32.0));
    assert_eq!(vm.data_stack.pop(), Some(0x0F0F0F0F));
    assert!(vm.data_stack.pop().is_none());
}

#[test]
fn test_and_op() {
    let mut vm = run_bit_op(OpCodes::And.to_byte(), 0x0F0F0F0F, 0x00FF00FF);
    assert_eq!(vm.data_stack.pop(), Some(0x000F000F));
    assert!(vm.data_stack.pop().is_none());
}

#[test]
fn test_or_op() {
    let mut vm = run_bit_op(OpCodes::Or.to_byte(), 0x0F0F0F0F, 0x00FF00FF);
    assert_eq!(vm.data_stack.pop(), Some(0x0FFF0FFF));
    assert!(vm.data_stack.pop().is_none());
}

#[test]
fn test_xor_op() {
    let mut vm = run_bit_op(OpCodes::Xor.to_byte(), 0x0F0F0F0F, 0x00FF00FF);
    assert_eq!(vm.data_stack.pop(), Some(0x0FF00FF0));
    assert!(vm.data_stack.pop().is_none());
}

#[test]
fn test_not_op() {
    let mut vm = init_vm();
    vm.data_stack.push(0x0F0F0F0Fu32 as i32);
    let code = [OpCodes::Not.to_byte(); 1];
    assert!(vm.load(&code));
    vm.cycle_once();
    assert_eq!(vm.pc, 1);
    assert_eq!(vm.data_stack.pop(), Some(0xF0F0F0F0u32 as i32));
    assert!(vm.data_stack.pop().is_none());
}

#[test]
fn bit_binop_with_single_operand_pushes_it_back() {
    let mut vm = init_vm();
    vm.data_stack.push(0x55AA55AA);
    let code = [OpCodes::Xor.to_byte(); 1];
    assert!(vm.load(&code));
    vm.cycle_once();
    assert_eq!(vm.pc, 1);
    assert_eq!(vm.data_stack.pop(), Some(0x55AA55AA));
    assert!(vm.data_stack.pop().is_none());
}
