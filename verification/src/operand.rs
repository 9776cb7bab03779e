//! Operands of a decoded instruction and their text.

use vstd::prelude::*;
use vstd::string::*;
use crate::fields::AddressBase;
use crate::text::{decimal, lowercase, push_decimal, push_lowercase};

verus! {

/// Size of the data that an instruction moves.
#[derive(Debug, PartialEq, Eq, Clone, Copy, Structural)]
pub enum OperandWidth {
    Byte,
    Word,
}

/// One side of an instruction.
#[derive(Debug, PartialEq, Eq, Clone, Copy)]
pub enum Operand {
    /// A register, by its name in the register table.
    Register(&'static str),
    /// A memory location: the registers that form its address, and the
    /// sixteen-bit displacement added to them, if the instruction has one.
    /// A displacement of one byte is held sign-extended.
    Memory(AddressBase, Option<u16>),
    /// A value written in the instruction itself, and its size.
    Immediate(u16, OperandWidth),
}

/// The text of the registers of an address.
pub open spec fn base_text(base: AddressBase) -> Seq<char> {
    match base {
        AddressBase::BxSi => "bx+si"@,
        AddressBase::BxDi => "bx+di"@,
        AddressBase::BpSi => "bp+si"@,
        AddressBase::BpDi => "bp+di"@,
        AddressBase::Si => "si"@,
        AddressBase::Di => "di"@,
        AddressBase::Bp => "bp"@,
        AddressBase::Bx => "bx"@,
        AddressBase::Direct => Seq::<char>::empty(),
    }
}

/// The text of a displacement. Alone it is an address, written as a number
/// from 0 to 65535. Beside registers it is a signed offset in two's
/// complement, written with its sign.
pub open spec fn displacement_text(base: AddressBase, displacement: Option<u16>) -> Seq<char> {
    match displacement {
        None => Seq::<char>::empty(),
        Some(d) => if base == AddressBase::Direct {
            decimal(d as nat)
        } else if d < 0x8000 {
            "+"@ + decimal(d as nat)
        } else {
            "-"@ + decimal((0x10000 - d) as nat)
        },
    }
}

/// The text of an operand: a register name in lower case, a memory operand
/// in square brackets, an immediate value as a decimal number.
pub open spec fn operand_text(operand: Operand) -> Seq<char> {
    match operand {
        Operand::Register(name) => lowercase(name@),
        Operand::Memory(base, displacement) => "["@ + base_text(base) + displacement_text(base, displacement)
            + "]"@,
        Operand::Immediate(value, _) => decimal(value as nat),
    }
}

impl AddressBase {
    /// The text of the registers of an address.
    pub fn text(self) -> (text: &'static str)
        ensures
            text@ == base_text(self),
    {
        match self {
            AddressBase::BxSi => "bx+si",
            AddressBase::BxDi => "bx+di",
            AddressBase::BpSi => "bp+si",
            AddressBase::BpDi => "bp+di",
            AddressBase::Si => "si",
            AddressBase::Di => "di",
            AddressBase::Bp => "bp",
            AddressBase::Bx => "bx",
            AddressBase::Direct => {
                proof {
                    reveal_strlit("");
                }
                assert(""@ =~= Seq::<char>::empty());
                ""
            },
        }
    }
}

impl Operand {
    /// Appends the text of this operand to `out`.
    pub fn push_text(&self, out: &mut String)
        ensures
            final(out)@ == old(out)@ + operand_text(*self),
    {
        match *self {
            Operand::Register(name) => {
                push_lowercase(out, name);
            },
            Operand::Memory(base, displacement) => {
                out.append("[");
                out.append(base.text());
                match displacement {
                    None => {},
                    Some(d) => {
                        if base == AddressBase::Direct {
                            push_decimal(out, d as u32);
                        } else if d < 0x8000 {
                            out.append("+");
                            push_decimal(out, d as u32);
                        } else {
                            out.append("-");
                            push_decimal(out, 0x10000u32 - (d as u32));
                        }
                    },
                }
                out.append("]");
                assert(out@ =~= old(out)@ + operand_text(*self));
            },
            Operand::Immediate(value, _) => {
                push_decimal(out, value as u32);
            },
        }
    }

    /// The text of this operand.
    pub fn render(&self) -> (text: String)
        ensures
            text@ == operand_text(*self),
    {
        let mut text = String::new();
        self.push_text(&mut text);
        assert(text@ =~= operand_text(*self));
        text
    }
}

} // verus!
