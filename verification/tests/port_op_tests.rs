use seqstk::opcodes::{port_push_opcode, OpCodes};
use seqstk::vm::{Vm, INVALID_INTERRUPT, RAM_SIZE};

fn init_vm() -> Vm {
    let vm = Vm::new();
    assert!(vm.pc == 0);
    assert!(vm.data_stack.empty());
    assert!(vm.call_stack.empty());
    for p in vm.ports.iter() {
        assert!(p.empty());
    }
    for i in vm.interrupts.iter() {
        assert_eq!(*i, INVALID_INTERRUPT);
    }
    vm
}

#[test]
fn test_push() {
    let mut vm = init_vm();
    let val = 0xDEADC0EDu32 as i32;
    vm.data_stack.push(val);
    let mut code = [0u8; RAM_SIZE];
    code[0] = OpCodes::PortPush.to_byte();
    vm.load(&code);
    vm.cycle_once();
    assert!(vm.data_stack.empty(), "PortPush failed to modify data stack!");
    assert_eq!(vm.pc, 1, "PortPush failed to increment program counter!");
    let port_val = vm.ports[0].pop();
    assert!(!port_val.is_none(), "PortPush failed to push to port!");
    assert_eq!(port_val.unwrap(), val, "PortPush pushed wrong value to port!");
}

#[test]
fn port_push_selects_port_seven() {
    let mut vm = init_vm();
    vm.data_stack.push(31337);
    let mut code = [0u8; RAM_SIZE];
    code[0] = port_push_opcode(7);
    assert!(vm.load(&code));
    vm.cycle_once();
    assert_eq!(vm.pc, 1);
    assert!(vm.data_stack.empty());
    for j in 0..7 {
        assert!(vm.ports[j].empty());
    }
    assert_eq!(vm.ports[7].pop(), Some(31337));
}

#[test]
fn port_push_on_empty_data_stack_is_noop() {
    let mut vm = init_vm();
    let code = [port_push_opcode(3); 1];
    assert!(vm.load(&code));
    vm.cycle_once();
    assert_eq!(vm.pc, 1);
    for p in vm.ports.iter() {
        assert!(p.empty());
    }
}

#[test]
fn port_family_with_reserved_type_is_noop() {
    let mut vm = init_vm();
    vm.data_stack.push(5);
    let mut code = [0u8; RAM_SIZE];
    // Family PortOp with a reserved type code: absorbed silently.
    code[0] = 0b1000_0000;
    assert!(vm.load(&code));
    vm.cycle_once();
    assert_eq!(vm.pc, 1);
    assert_eq!(vm.data_stack.peek(), Some(5));
    for p in vm.ports.iter() {
        assert!(p.empty());
    }
}

#[test]
fn port_push_on_full_port_swallows_word() {
    let mut vm = init_vm();
    while !vm.ports[0].full() {
        vm.ports[0].push(1);
    }
    vm.data_stack.push(777);
    let mut code = [0u8; RAM_SIZE];
    code[0] = port_push_opcode(0);
    assert!(vm.load(&code));
    vm.cycle_once();
    assert_eq!(vm.pc, 1);
    assert!(vm.data_stack.empty());
    assert!(vm.ports[0].full());
    assert_eq!(vm.ports[0].peek(), Some(1));
}
