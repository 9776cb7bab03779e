//! What the bit fields of an instruction select: an addressing mode, a
//! register, or the registers that form a memory address.

use vstd::prelude::*;

verus! {

/// The addressing mode held in the two leading bits of the second byte.
#[derive(Debug, PartialEq, Eq, Clone, Copy, Structural)]
pub enum ModEncoding {
    /// `00`: a memory operand without displacement.
    MemMode,
    /// `01`: a memory operand with a displacement of one byte.
    MemMode8B,
    /// `10`: a memory operand with a displacement of two bytes.
    MemMode16B,
    /// `11`: a register operand.
    RegisterMode,
}

/// The addressing mode that a two-bit value selects.
pub open spec fn mode_of(bits: u8) -> Option<ModEncoding> {
    if bits == 0 {
        Some(ModEncoding::MemMode)
    } else if bits == 1 {
        Some(ModEncoding::MemMode8B)
    } else if bits == 2 {
        Some(ModEncoding::MemMode16B)
    } else if bits == 3 {
        Some(ModEncoding::RegisterMode)
    } else {
        None
    }
}

impl ModEncoding {
    /// How many displacement bytes follow the second byte in this mode.
    pub open spec fn displacement_len(self) -> nat {
        match self {
            ModEncoding::MemMode => 0,
            ModEncoding::MemMode8B => 1,
            ModEncoding::MemMode16B => 2,
            ModEncoding::RegisterMode => 0,
        }
    }

    /// The addressing mode that `bits` selects, or `None` when `bits` is not
    /// a two-bit value.
    pub fn from_bits(bits: u8) -> (mode: Option<ModEncoding>)
        ensures
            mode == mode_of(bits),
    {
        match bits {
            0 => Some(ModEncoding::MemMode),
            1 => Some(ModEncoding::MemMode8B),
            2 => Some(ModEncoding::MemMode16B),
            3 => Some(ModEncoding::RegisterMode),
            _ => None,
        }
    }
}

/// The register table of the processor.
pub struct RegisterOp;

/// Names of the eight byte registers, by selector.
pub open spec fn byte_register_names() -> Seq<&'static str> {
    seq!["AL", "CL", "DL", "BL", "AH", "CH", "DH", "BH"]
}

/// Names of the eight word registers, by selector.
pub open spec fn word_register_names() -> Seq<&'static str> {
    seq!["AX", "CX", "DX", "BX", "SP", "BP", "SI", "DI"]
}

/// Names of the four segment registers, by selector.
pub open spec fn segment_register_names() -> Seq<&'static str> {
    seq!["ES", "CS", "SS", "DS"]
}

/// The name of the register that the width bit `w` and the three-bit
/// selector `bits` stand for: `w` 0 reads the byte registers, `w` 1 the word
/// registers, and other values of `w` or `bits` name nothing.
pub open spec fn register_name(w: u8, bits: u8) -> Option<&'static str> {
    if w == 0 && bits < 8 {
        Some(byte_register_names()[bits as int])
    } else if w == 1 && bits < 8 {
        Some(word_register_names()[bits as int])
    } else {
        None
    }
}

/// The name of the segment register that the selector `bits` stands for;
/// only two-bit values name one.
pub open spec fn segment_register_name(bits: u8) -> Option<&'static str> {
    if bits < 4 {
        Some(segment_register_names()[bits as int])
    } else {
        None
    }
}

impl RegisterOp {
    /// Looks up a general register by width bit and selector.
    pub fn from_bits(w: u8, bits: u8) -> (name: Option<&'static str>)
        ensures
            name == register_name(w, bits),
    {
        match (w, bits) {
            (0, 0) => Some("AL"),
            (0, 1) => Some("CL"),
            (0, 2) => Some("DL"),
            (0, 3) => Some("BL"),
            (0, 4) => Some("AH"),
            (0, 5) => Some("CH"),
            (0, 6) => Some("DH"),
            (0, 7) => Some("BH"),
            (1, 0) => Some("AX"),
            (1, 1) => Some("CX"),
            (1, 2) => Some("DX"),
            (1, 3) => Some("BX"),
            (1, 4) => Some("SP"),
            (1, 5) => Some("BP"),
            (1, 6) => Some("SI"),
            (1, 7) => Some("DI"),
            _ => None,
        }
    }

    /// Looks up a segment register by selector.
    pub fn segment_from_bits(bits: u8) -> (name: Option<&'static str>)
        ensures
            name == segment_register_name(bits),
    {
        match bits {
            0 => Some("ES"),
            1 => Some("CS"),
            2 => Some("SS"),
            3 => Some("DS"),
            _ => None,
        }
    }
}

/// The registers whose sum forms the address of a memory operand.
#[derive(Debug, PartialEq, Eq, Clone, Copy, Structural)]
pub enum AddressBase {
    BxSi,
    BxDi,
    BpSi,
    BpDi,
    Si,
    Di,
    Bp,
    Bx,
    /// No register: the displacement alone is the address.
    Direct,
}

/// The address registers that the three-bit selector `bits` stands for in
/// addressing mode `mode`. Register mode addresses no memory, and in the mode
/// without displacement selector `110` names no register.
pub open spec fn address_base(mode: ModEncoding, bits: u8) -> Option<AddressBase> {
    if mode == ModEncoding::RegisterMode {
        None
    } else if bits == 0 {
        Some(AddressBase::BxSi)
    } else if bits == 1 {
        Some(AddressBase::BxDi)
    } else if bits == 2 {
        Some(AddressBase::BpSi)
    } else if bits == 3 {
        Some(AddressBase::BpDi)
    } else if bits == 4 {
        Some(AddressBase::Si)
    } else if bits == 5 {
        Some(AddressBase::Di)
    } else if bits == 6 && mode != ModEncoding::MemMode {
        Some(AddressBase::Bp)
    } else if bits == 7 {
        Some(AddressBase::Bx)
    } else {
        None
    }
}

impl AddressBase {
    /// Looks up the address registers of a memory operand by addressing mode
    /// and selector.
    pub fn from_bits(mode: ModEncoding, bits: u8) -> (base: Option<AddressBase>)
        ensures
            base == address_base(mode, bits),
    {
        match mode {
            ModEncoding::RegisterMode => None,
            _ => match bits {
                0 => Some(AddressBase::BxSi),
                1 => Some(AddressBase::BxDi),
                2 => Some(AddressBase::BpSi),
                3 => Some(AddressBase::BpDi),
                4 => Some(AddressBase::Si),
                5 => Some(AddressBase::Di),
                6 => match mode {
                    ModEncoding::MemMode => None,
                    _ => Some(AddressBase::Bp),
                },
                7 => Some(AddressBase::Bx),
                _ => None,
            },
        }
    }
}

} // verus!
