//! The opcode decoder: every instruction is one byte, partitioned into a
//! family field (bits 7-5), a type field (bits 4-2) and an addressing-mode
//! field (bits 1-0). Port operations reuse the low three bits as a port
//! index instead of an addressing mode.

use vstd::prelude::*;

verus! {

/// The three bit-field masks that partition an instruction byte.
#[derive(Clone, Copy, PartialEq, Eq, Structural)]
pub enum OpMasks {
    Family,
    Type,
    AddrMode,
    Invalid,
}

/// The mask bits selected by each `OpMasks` value.
pub open spec fn mask_bits(m: OpMasks) -> u8 {
    match m {
        OpMasks::Family => 0b1110_0000,
        OpMasks::Type => 0b0001_1100,
        OpMasks::AddrMode => 0b0000_0011,
        OpMasks::Invalid => 0,
    }
}

impl OpMasks {
    /// The mask as a byte, ready to be applied to an instruction.
    pub fn value(self) -> (r: u8)
        ensures
            r == mask_bits(self),
    {
        match self {
            OpMasks::Family => 0b1110_0000,
            OpMasks::Type => 0b0001_1100,
            OpMasks::AddrMode => 0b0000_0011,
            OpMasks::Invalid => 0,
        }
    }
}

/// The opcode family selected by bits 7-5 of the instruction byte.
#[derive(Clone, Copy, PartialEq, Eq, Structural)]
pub enum OpFamily {
    StackOp,
    ArithmeticOp,
    BitManipOp,
    PortOp,
    Invalid,
}

/// Which family an instruction byte selects: StackOp = 111, ArithmeticOp =
/// 110, BitManipOp = 101, PortOp = 100; every other family code is reserved.
pub open spec fn family_of(b: u8) -> OpFamily {
    if b & 0b1110_0000 == 0b1110_0000 {
        OpFamily::StackOp
    } else if b & 0b1110_0000 == 0b1100_0000 {
        OpFamily::ArithmeticOp
    } else if b & 0b1110_0000 == 0b1010_0000 {
        OpFamily::BitManipOp
    } else if b & 0b1110_0000 == 0b1000_0000 {
        OpFamily::PortOp
    } else {
        OpFamily::Invalid
    }
}

impl OpFamily {
    /// Decodes the family field of an instruction byte.
    pub fn from_byte(b: u8) -> (f: OpFamily)
        ensures
            f == family_of(b),
    {
        let masked = b & 0b1110_0000;
        if masked == 0b1110_0000 {
            OpFamily::StackOp
        } else if masked == 0b1100_0000 {
            OpFamily::ArithmeticOp
        } else if masked == 0b1010_0000 {
            OpFamily::BitManipOp
        } else if masked == 0b1000_0000 {
            OpFamily::PortOp
        } else {
            OpFamily::Invalid
        }
    }
}

/// The addressing mode selected by bits 1-0 of the instruction byte.
#[derive(Clone, Copy, PartialEq, Eq, Structural)]
pub enum OpAddrMode {
    Immediate,
    IndexStack,
    IndexImmediate,
    Stack,
    Invalid,
}

/// Which addressing mode an instruction byte selects: Immediate = 11,
/// IndexStack = 10, IndexImmediate = 01, Stack = 00.
pub open spec fn addr_mode_of(b: u8) -> OpAddrMode {
    if b & 0b0000_0011 == 0b0000_0011 {
        OpAddrMode::Immediate
    } else if b & 0b0000_0011 == 0b0000_0010 {
        OpAddrMode::IndexStack
    } else if b & 0b0000_0011 == 0b0000_0001 {
        OpAddrMode::IndexImmediate
    } else {
        OpAddrMode::Stack
    }
}

impl OpAddrMode {
    /// Decodes the addressing-mode field of an instruction byte.
    pub fn from_byte(b: u8) -> (m: OpAddrMode)
        ensures
            m == addr_mode_of(b),
    {
        let masked = b & 0b0000_0011;
        if masked == 0b0000_0011 {
            OpAddrMode::Immediate
        } else if masked == 0b0000_0010 {
            OpAddrMode::IndexStack
        } else if masked == 0b0000_0001 {
            OpAddrMode::IndexImmediate
        } else {
            OpAddrMode::Stack
        }
    }
}

/// The operation types of the stack family, selected by bits 4-2.
#[derive(Clone, Copy, PartialEq, Eq, Structural)]
pub enum StackOpTypes {
    Push,
    Store,
    Pop,
    Dup,
    Rot,
    Swap,
    MovToRts,
    MovFromRts,
    Invalid,
}

/// Which stack operation an instruction byte selects: Push = 111, Store =
/// 000, Pop = 110, Dup = 101, Rot = 100, Swap = 011, MovToRts = 010,
/// MovFromRts = 001.
pub open spec fn stack_op_of(b: u8) -> StackOpTypes {
    if b & 0b0001_1100 == 0b0001_1100 {
        StackOpTypes::Push
    } else if b & 0b0001_1100 == 0b0000_0000 {
        StackOpTypes::Store
    } else if b & 0b0001_1100 == 0b0001_1000 {
        StackOpTypes::Pop
    } else if b & 0b0001_1100 == 0b0001_0100 {
        StackOpTypes::Dup
    } else if b & 0b0001_1100 == 0b0001_0000 {
        StackOpTypes::Rot
    } else if b & 0b0001_1100 == 0b0000_1100 {
        StackOpTypes::Swap
    } else if b & 0b0001_1100 == 0b0000_1000 {
        StackOpTypes::MovToRts
    } else {
        StackOpTypes::MovFromRts
    }
}

impl StackOpTypes {
    /// Decodes the type field of a stack-family instruction byte.
    pub fn from_byte(b: u8) -> (t: StackOpTypes)
        ensures
            t == stack_op_of(b),
    {
        let masked = b & 0b0001_1100;
        if masked == 0b0001_1100 {
            StackOpTypes::Push
        } else if masked == 0b0000_0000 {
            StackOpTypes::Store
        } else if masked == 0b0001_1000 {
            StackOpTypes::Pop
        } else if masked == 0b0001_0100 {
            StackOpTypes::Dup
        } else if masked == 0b0001_0000 {
            StackOpTypes::Rot
        } else if masked == 0b0000_1100 {
            StackOpTypes::Swap
        } else if masked == 0b0000_1000 {
            StackOpTypes::MovToRts
        } else {
            StackOpTypes::MovFromRts
        }
    }
}

/// The operation types of the arithmetic family. Only bits 4-3 select the
/// operation; the lowest type bit is unused.
#[derive(Clone, Copy, PartialEq, Eq, Structural)]
pub enum ArithmeticOpTypes {
    Add,
    Sub,
    Mul,
    Div,
    Invalid,
}

/// Which arithmetic operation an instruction byte selects: Add = 11, Sub =
/// 10, Mul = 01, Div = 00 in bits 4-3.
pub open spec fn arithmetic_op_of(b: u8) -> ArithmeticOpTypes {
    if b & 0b0001_1000 == 0b0001_1000 {
        ArithmeticOpTypes::Add
    } else if b & 0b0001_1000 == 0b0001_0000 {
        ArithmeticOpTypes::Sub
    } else if b & 0b0001_1000 == 0b0000_1000 {
        ArithmeticOpTypes::Mul
    } else {
        ArithmeticOpTypes::Div
    }
}

impl ArithmeticOpTypes {
    /// Decodes the type field of an arithmetic-family instruction byte.
    pub fn from_byte(b: u8) -> (t: ArithmeticOpTypes)
        ensures
            t == arithmetic_op_of(b),
    {
        let masked = b & 0b0001_1000;
        if masked == 0b0001_1000 {
            ArithmeticOpTypes::Add
        } else if masked == 0b0001_0000 {
            ArithmeticOpTypes::Sub
        } else if masked == 0b0000_1000 {
            ArithmeticOpTypes::Mul
        } else {
            ArithmeticOpTypes::Div
        }
    }
}

/// The operation types of the bit-manipulation family, selected by bits 4-2.
#[derive(Clone, Copy, PartialEq, Eq, Structural)]
pub enum BitOpTypes {
    Shl,
    Shr,
    Rotl,
    Rotr,
    And,
    Or,
    Xor,
    Not,
    Invalid,
}

/// Which bit operation an instruction byte selects: Shl = 111, Shr = 110,
/// Rotl = 101, Rotr = 100, And = 011, Or = 010, Xor = 001, Not = 000.
pub open spec fn bit_op_of(b: u8) -> BitOpTypes {
    if b & 0b0001_1100 == 0b0001_1100 {
        BitOpTypes::Shl
    } else if b & 0b0001_1100 == 0b0001_1000 {
        BitOpTypes::Shr
    } else if b & 0b0001_1100 == 0b0001_0100 {
        BitOpTypes::Rotl
    } else if b & 0b0001_1100 == 0b0001_0000 {
        BitOpTypes::Rotr
    } else if b & 0b0001_1100 == 0b0000_1100 {
        BitOpTypes::And
    } else if b & 0b0001_1100 == 0b0000_1000 {
        BitOpTypes::Or
    } else if b & 0b0001_1100 == 0b0000_0100 {
        BitOpTypes::Xor
    } else {
        BitOpTypes::Not
    }
}

impl BitOpTypes {
    /// Decodes the type field of a bit-manipulation instruction byte.
    pub fn from_byte(b: u8) -> (t: BitOpTypes)
        ensures
            t == bit_op_of(b),
    {
        let masked = b & 0b0001_1100;
        if masked == 0b0001_1100 {
            BitOpTypes::Shl
        } else if masked == 0b0001_1000 {
            BitOpTypes::Shr
        } else if masked == 0b0001_0100 {
            BitOpTypes::Rotl
        } else if masked == 0b0001_0000 {
            BitOpTypes::Rotr
        } else if masked == 0b0000_1100 {
            BitOpTypes::And
        } else if masked == 0b0000_1000 {
            BitOpTypes::Or
        } else if masked == 0b0000_0100 {
            BitOpTypes::Xor
        } else {
            BitOpTypes::Not
        }
    }
}

/// The operation types of the port family. One operation is defined: Push.
/// The low three bits of the byte select the port, overlapping the lowest
/// type bit, so only bits 4-3 of the type field distinguish the operation.
#[derive(Clone, Copy, PartialEq, Eq, Structural)]
pub enum PortOpTypes {
    Push,
    Invalid,
}

/// Which port operation an instruction byte selects: Push = 11 in bits 4-3;
/// every other type code is reserved.
pub open spec fn port_op_of(b: u8) -> PortOpTypes {
    if b & 0b0001_1000 == 0b0001_1000 {
        PortOpTypes::Push
    } else {
        PortOpTypes::Invalid
    }
}

impl PortOpTypes {
    /// Decodes the type field of a port-family instruction byte.
    pub fn from_byte(b: u8) -> (t: PortOpTypes)
        ensures
            t == port_op_of(b),
    {
        if b & 0b0001_1000 == 0b0001_1000 {
            PortOpTypes::Push
        } else {
            PortOpTypes::Invalid
        }
    }
}

/// Every defined opcode, named after its family, type and addressing mode.
#[derive(Clone, Copy, PartialEq, Eq, Structural)]
pub enum OpCodes {
    PushImm,
    PushIndStk,
    PushIndImm,
    PushStk,
    StoreImm,
    StoreIndStk,
    StoreIndImm,
    StoreStk,
    Pop,
    Dup,
    Rot,
    Swap,
    MovToRts,
    MovFromRts,
    Add,
    Sub,
    Mul,
    Div,
    Shl,
    Shr,
    Rotl,
    Rotr,
    And,
    Or,
    Xor,
    Not,
    PortPush,
}

/// The canonical encoding of each opcode. PortPush is given with port index
/// 0; `port_push_opcode` encodes the other ports.
pub open spec fn opcode_bits(op: OpCodes) -> u8 {
    match op {
        OpCodes::PushImm => 0b1111_1111,
        OpCodes::PushIndStk => 0b1111_1110,
        OpCodes::PushIndImm => 0b1111_1101,
        OpCodes::PushStk => 0b1111_1100,
        OpCodes::StoreImm => 0b1110_0011,
        OpCodes::StoreIndStk => 0b1110_0010,
        OpCodes::StoreIndImm => 0b1110_0001,
        OpCodes::StoreStk => 0b1110_0000,
        OpCodes::Pop => 0b1111_1000,
        OpCodes::Dup => 0b1111_0100,
        OpCodes::Rot => 0b1111_0000,
        OpCodes::Swap => 0b1110_1100,
        OpCodes::MovToRts => 0b1110_1000,
        OpCodes::MovFromRts => 0b1110_0100,
        OpCodes::Add => 0b1101_1000,
        OpCodes::Sub => 0b1101_0000,
        OpCodes::Mul => 0b1100_1000,
        OpCodes::Div => 0b1100_0000,
        OpCodes::Shl => 0b1011_1100,
        OpCodes::Shr => 0b1011_1000,
        OpCodes::Rotl => 0b1011_0100,
        OpCodes::Rotr => 0b1011_0000,
        OpCodes::And => 0b1010_1100,
        OpCodes::Or => 0b1010_1000,
        OpCodes::Xor => 0b1010_0100,
        OpCodes::Not => 0b1010_0000,
        OpCodes::PortPush => 0b1001_1000,
    }
}

impl OpCodes {
    /// The opcode as an instruction byte, in its canonical encoding.
    pub fn to_byte(self) -> (r: u8)
        ensures
            r == opcode_bits(self),
    {
        match self {
            OpCodes::PushImm => 0b1111_1111,
            OpCodes::PushIndStk => 0b1111_1110,
            OpCodes::PushIndImm => 0b1111_1101,
            OpCodes::PushStk => 0b1111_1100,
            OpCodes::StoreImm => 0b1110_0011,
            OpCodes::StoreIndStk => 0b1110_0010,
            OpCodes::StoreIndImm => 0b1110_0001,
            OpCodes::StoreStk => 0b1110_0000,
            OpCodes::Pop => 0b1111_1000,
            OpCodes::Dup => 0b1111_0100,
            OpCodes::Rot => 0b1111_0000,
            OpCodes::Swap => 0b1110_1100,
            OpCodes::MovToRts => 0b1110_1000,
            OpCodes::MovFromRts => 0b1110_0100,
            OpCodes::Add => 0b1101_1000,
            OpCodes::Sub => 0b1101_0000,
            OpCodes::Mul => 0b1100_1000,
            OpCodes::Div => 0b1100_0000,
            OpCodes::Shl => 0b1011_1100,
            OpCodes::Shr => 0b1011_1000,
            OpCodes::Rotl => 0b1011_0100,
            OpCodes::Rotr => 0b1011_0000,
            OpCodes::And => 0b1010_1100,
            OpCodes::Or => 0b1010_1000,
            OpCodes::Xor => 0b1010_0100,
            OpCodes::Not => 0b1010_0000,
            OpCodes::PortPush => 0b1001_1000,
        }
    }
}

/// The instruction byte that pushes to the given port: the PortPush opcode
/// with the port index in the low three bits.
pub fn port_push_opcode(port: u8) -> (r: u8)
    ensures
        r == opcode_bits(OpCodes::PortPush) | (port & 0b0000_0111),
{
    0b1001_1000 | (port & 0b0000_0111)
}

} // verus!
