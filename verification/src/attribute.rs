//! Attributes of functions and parameters, and the 32-bit word the engine
//! keeps them in.
//!
//! Every attribute owns a fixed range of bits of that word. Twenty-four of
//! them are flags of one bit; two are fields that hold a small number (the
//! base-two logarithm of an alignment, plus one; zero for "not aligned").
//! The layout is the engine's and is part of its binary interface.

use vstd::prelude::*;

verus! {

/// A property of a function or of one of its parameters.
#[derive(Clone, Copy, Debug, PartialEq, Eq, Structural)]
pub enum Attribute {
    /// Zero-extended before or after the call.
    ZExt,
    /// Sign-extended before or after the call.
    SExt,
    /// The function does not return.
    NoReturn,
    /// The argument is passed in a register.
    InReg,
    /// Hidden pointer to the structure to return.
    StructRet,
    /// The function does not unwind the stack.
    NoUnwind,
    /// The pointer does not alias after the call.
    NoAlias,
    /// The structure is passed by value.
    ByVal,
    /// Static chain of a nested function.
    Nest,
    /// The function does not access memory.
    ReadNone,
    /// The function only reads from memory.
    ReadOnly,
    /// Never inline this function.
    NoInline,
    /// Always inline this function.
    AlwaysInline,
    /// Optimise this function for size.
    OptimizeForSize,
    /// Stack protection.
    StackProtect,
    /// Stack protection required.
    StackProtectReq,
    /// Alignment of a parameter: a field of five bits.
    Alignment,
    /// The function makes no copy of the pointer that outlives the call.
    NoCapture,
    /// No red zone.
    NoRedZone,
    /// No implicit floating-point instructions.
    NoImplicitFloat,
    /// Naked function.
    Naked,
    /// The source language marked this function as inline.
    InlineHint,
    /// Alignment of the function's stack: a field of three bits.
    StackAlignment,
    /// The function may return twice.
    ReturnsTwice,
    /// The function must have an entry in the unwind table.
    UWTable,
    /// The function is called early or often, so lazy binding does not pay.
    NonLazyBind,
}

impl Attribute {
    /// The bits that this attribute owns in the engine's attribute word.
    pub open spec fn mask(self) -> u32 {
        match self {
            Attribute::ZExt => 0x0000_0001,
            Attribute::SExt => 0x0000_0002,
            Attribute::NoReturn => 0x0000_0004,
            Attribute::InReg => 0x0000_0008,
            Attribute::StructRet => 0x0000_0010,
            Attribute::NoUnwind => 0x0000_0020,
            Attribute::NoAlias => 0x0000_0040,
            Attribute::ByVal => 0x0000_0080,
            Attribute::Nest => 0x0000_0100,
            Attribute::ReadNone => 0x0000_0200,
            Attribute::ReadOnly => 0x0000_0400,
            Attribute::NoInline => 0x0000_0800,
            Attribute::AlwaysInline => 0x0000_1000,
            Attribute::OptimizeForSize => 0x0000_2000,
            Attribute::StackProtect => 0x0000_4000,
            Attribute::StackProtectReq => 0x0000_8000,
            Attribute::Alignment => 0x001f_0000,
            Attribute::NoCapture => 0x0020_0000,
            Attribute::NoRedZone => 0x0040_0000,
            Attribute::NoImplicitFloat => 0x0080_0000,
            Attribute::Naked => 0x0100_0000,
            Attribute::InlineHint => 0x0200_0000,
            Attribute::StackAlignment => 0x1c00_0000,
            Attribute::ReturnsTwice => 0x2000_0000,
            Attribute::UWTable => 0x4000_0000,
            Attribute::NonLazyBind => 0x8000_0000,
        }
    }

    /// The position of the lowest bit that this attribute owns.
    pub open spec fn spec_offset(self) -> u32 {
        match self {
            Attribute::ZExt => 0,
            Attribute::SExt => 1,
            Attribute::NoReturn => 2,
            Attribute::InReg => 3,
            Attribute::StructRet => 4,
            Attribute::NoUnwind => 5,
            Attribute::NoAlias => 6,
            Attribute::ByVal => 7,
            Attribute::Nest => 8,
            Attribute::ReadNone => 9,
            Attribute::ReadOnly => 10,
            Attribute::NoInline => 11,
            Attribute::AlwaysInline => 12,
            Attribute::OptimizeForSize => 13,
            Attribute::StackProtect => 14,
            Attribute::StackProtectReq => 15,
            Attribute::Alignment => 16,
            Attribute::NoCapture => 21,
            Attribute::NoRedZone => 22,
            Attribute::NoImplicitFloat => 23,
            Attribute::Naked => 24,
            Attribute::InlineHint => 25,
            Attribute::StackAlignment => 26,
            Attribute::ReturnsTwice => 29,
            Attribute::UWTable => 30,
            Attribute::NonLazyBind => 31,
        }
    }

    /// How many bits this attribute owns: one for a flag, more for a field.
    pub open spec fn spec_width(self) -> u32 {
        match self {
            Attribute::Alignment => 5,
            Attribute::StackAlignment => 3,
            _ => 1,
        }
    }

    /// The attribute that owns exactly the bits `bits`, if there is one.
    pub open spec fn decode(bits: u32) -> Option<Attribute> {
        if exists|a: Attribute| a.mask() == bits {
            Some(choose|a: Attribute| a.mask() == bits)
        } else {
            None
        }
    }

    /// The bits that this attribute owns in the engine's attribute word.
    #[verifier::when_used_as_spec(mask)]
    pub fn bits(self) -> (bits: u32)
        ensures
            bits == self.mask(),
    {
        match self {
            Attribute::ZExt => 0x0000_0001,
            Attribute::SExt => 0x0000_0002,
            Attribute::NoReturn => 0x0000_0004,
            Attribute::InReg => 0x0000_0008,
            Attribute::StructRet => 0x0000_0010,
            Attribute::NoUnwind => 0x0000_0020,
            Attribute::NoAlias => 0x0000_0040,
            Attribute::ByVal => 0x0000_0080,
            Attribute::Nest => 0x0000_0100,
            Attribute::ReadNone => 0x0000_0200,
            Attribute::ReadOnly => 0x0000_0400,
            Attribute::NoInline => 0x0000_0800,
            Attribute::AlwaysInline => 0x0000_1000,
            Attribute::OptimizeForSize => 0x0000_2000,
            Attribute::StackProtect => 0x0000_4000,
            Attribute::StackProtectReq => 0x0000_8000,
            Attribute::Alignment => 0x001f_0000,
            Attribute::NoCapture => 0x0020_0000,
            Attribute::NoRedZone => 0x0040_0000,
            Attribute::NoImplicitFloat => 0x0080_0000,
            Attribute::Naked => 0x0100_0000,
            Attribute::InlineHint => 0x0200_0000,
            Attribute::StackAlignment => 0x1c00_0000,
            Attribute::ReturnsTwice => 0x2000_0000,
            Attribute::UWTable => 0x4000_0000,
            Attribute::NonLazyBind => 0x8000_0000,
        }
    }

    /// How many bits this attribute owns: one for a flag, more for a field.
    #[verifier::when_used_as_spec(spec_width)]
    pub fn width(self) -> (width: u32)
        ensures
            width == self.spec_width(),
            1 <= width <= 5,
    {
        match self {
            Attribute::Alignment => 5,
            Attribute::StackAlignment => 3,
            _ => 1,
        }
    }

    /// The position of the lowest bit that this attribute owns.
    #[verifier::when_used_as_spec(spec_offset)]
    pub fn offset(self) -> (offset: u32)
        ensures
            offset == self.spec_offset(),
            offset < 32,
    {
        match self {
            Attribute::ZExt => 0,
            Attribute::SExt => 1,
            Attribute::NoReturn => 2,
            Attribute::InReg => 3,
            Attribute::StructRet => 4,
            Attribute::NoUnwind => 5,
            Attribute::NoAlias => 6,
            Attribute::ByVal => 7,
            Attribute::Nest => 8,
            Attribute::ReadNone => 9,
            Attribute::ReadOnly => 10,
            Attribute::NoInline => 11,
            Attribute::AlwaysInline => 12,
            Attribute::OptimizeForSize => 13,
            Attribute::StackProtect => 14,
            Attribute::StackProtectReq => 15,
            Attribute::Alignment => 16,
            Attribute::NoCapture => 21,
            Attribute::NoRedZone => 22,
            Attribute::NoImplicitFloat => 23,
            Attribute::Naked => 24,
            Attribute::InlineHint => 25,
            Attribute::StackAlignment => 26,
            Attribute::ReturnsTwice => 29,
            Attribute::UWTable => 30,
            Attribute::NonLazyBind => 31,
        }
    }

    /// The attribute that owns exactly the bits `bits`; `None` where `bits`
    /// is no attribute's mask (a union of several, or part of a field).
    pub fn from_bits(bits: u32) -> (attr: Option<Attribute>)
        ensures
            attr == Attribute::decode(bits),
            attr matches Some(a) ==> a.mask() == bits,
            attr is None ==> forall|a: Attribute| a.mask() != bits,
    {
        let attr = if bits == 0x0000_0001 {
            Some(Attribute::ZExt)
        } else if bits == 0x0000_0002 {
            Some(Attribute::SExt)
        } else if bits == 0x0000_0004 {
            Some(Attribute::NoReturn)
        } else if bits == 0x0000_0008 {
            Some(Attribute::InReg)
        } else if bits == 0x0000_0010 {
            Some(Attribute::StructRet)
        } else if bits == 0x0000_0020 {
            Some(Attribute::NoUnwind)
        } else if bits == 0x0000_0040 {
            Some(Attribute::NoAlias)
        } else if bits == 0x0000_0080 {
            Some(Attribute::ByVal)
        } else if bits == 0x0000_0100 {
            Some(Attribute::Nest)
        } else if bits == 0x0000_0200 {
            Some(Attribute::ReadNone)
        } else if bits == 0x0000_0400 {
            Some(Attribute::ReadOnly)
        } else if bits == 0x0000_0800 {
            Some(Attribute::NoInline)
        } else if bits == 0x0000_1000 {
            Some(Attribute::AlwaysInline)
        } else if bits == 0x0000_2000 {
            Some(Attribute::OptimizeForSize)
        } else if bits == 0x0000_4000 {
            Some(Attribute::StackProtect)
        } else if bits == 0x0000_8000 {
            Some(Attribute::StackProtectReq)
        } else if bits == 0x001f_0000 {
            Some(Attribute::Alignment)
        } else if bits == 0x0020_0000 {
            Some(Attribute::NoCapture)
        } else if bits == 0x0040_0000 {
            Some(Attribute::NoRedZone)
        } else if bits == 0x0080_0000 {
            Some(Attribute::NoImplicitFloat)
        } else if bits == 0x0100_0000 {
            Some(Attribute::Naked)
        } else if bits == 0x0200_0000 {
            Some(Attribute::InlineHint)
        } else if bits == 0x1c00_0000 {
            Some(Attribute::StackAlignment)
        } else if bits == 0x2000_0000 {
            Some(Attribute::ReturnsTwice)
        } else if bits == 0x4000_0000 {
            Some(Attribute::UWTable)
        } else if bits == 0x8000_0000 {
            Some(Attribute::NonLazyBind)
        } else {
            None
        };
        proof {
            if let Some(a) = attr {
                assert(a.mask() == bits);
                lemma_mask_injective(a, choose|b: Attribute| b.mask() == bits);
            }
        }
        attr
    }
}

/// No two attributes own the same bits.
pub proof fn lemma_mask_injective(a: Attribute, b: Attribute)
    requires
        a.mask() == b.mask(),
    ensures
        a == b,
{
}

/// Encoding an attribute and decoding the result gives the attribute back,
/// and whatever decodes to an attribute is that attribute's mask.
pub proof fn lemma_decode_inverts_mask(a: Attribute, bits: u32)
    ensures
        Attribute::decode(a.mask()) == Some(a),
        Attribute::decode(bits) == Some(a) <==> bits == a.mask(),
{
    lemma_mask_injective(a, choose|b: Attribute| b.mask() == a.mask());
    if Attribute::decode(bits) == Some(a) {
        assert(exists|b: Attribute| b.mask() == bits);
    }
}

/// The lowest `width` bits of a word.
pub open spec fn low_bits(width: u32) -> u32 {
    ((1u32 << width) - 1) as u32
}

/// The lowest bits of a word, for the three widths that attributes have.
pub proof fn lemma_low_bits()
    by (bit_vector)
    ensures
        low_bits(1) == 1,
        low_bits(3) == 7,
        low_bits(5) == 31,
{
}

/// Every attribute owns the bits from `offset()` up, `width()` of them, and
/// the word has room for them.
pub proof fn lemma_mask_layout(a: Attribute)
    ensures
        a.mask() == low_bits(a.width()) << a.offset(),
        a.offset() + a.width() <= 32,
        a.mask() != 0,
        a.width() == 1 ==> a.mask() == 1u32 << a.offset(),
{
    lemma_low_bits();
    assert(1u32 << 0 == 0x0000_0001 && 1u32 << 1 == 0x0000_0002 && 1u32 << 2 == 0x0000_0004
        && 1u32 << 3 == 0x0000_0008 && 1u32 << 4 == 0x0000_0010 && 1u32 << 5 == 0x0000_0020
        && 1u32 << 6 == 0x0000_0040 && 1u32 << 7 == 0x0000_0080 && 1u32 << 8 == 0x0000_0100
        && 1u32 << 9 == 0x0000_0200 && 1u32 << 10 == 0x0000_0400 && 1u32 << 11 == 0x0000_0800
        && 1u32 << 12 == 0x0000_1000 && 1u32 << 13 == 0x0000_2000 && 1u32 << 14 == 0x0000_4000
        && 1u32 << 15 == 0x0000_8000 && 31u32 << 16 == 0x001f_0000 && 1u32 << 21 == 0x0020_0000
        && 1u32 << 22 == 0x0040_0000 && 1u32 << 23 == 0x0080_0000 && 1u32 << 24 == 0x0100_0000
        && 1u32 << 25 == 0x0200_0000 && 7u32 << 26 == 0x1c00_0000 && 1u32 << 29 == 0x2000_0000
        && 1u32 << 30 == 0x4000_0000 && 1u32 << 31 == 0x8000_0000) by (bit_vector);
}

/// Two different attributes share no bit.
pub proof fn lemma_masks_disjoint(a: Attribute, b: Attribute)
    requires
        a != b,
    ensures
        a.mask() & b.mask() == 0,
{
    let x = a.mask();
    let y = b.mask();
    assert(x & y == 0) by (bit_vector)
        requires
            x != y,
            x == 0x0000_0001 || x == 0x0000_0002 || x == 0x0000_0004 || x == 0x0000_0008
                || x == 0x0000_0010 || x == 0x0000_0020 || x == 0x0000_0040 || x == 0x0000_0080
                || x == 0x0000_0100 || x == 0x0000_0200 || x == 0x0000_0400 || x == 0x0000_0800
                || x == 0x0000_1000 || x == 0x0000_2000 || x == 0x0000_4000 || x == 0x0000_8000
                || x == 0x001f_0000 || x == 0x0020_0000 || x == 0x0040_0000 || x == 0x0080_0000
                || x == 0x0100_0000 || x == 0x0200_0000 || x == 0x1c00_0000 || x == 0x2000_0000
                || x == 0x4000_0000 || x == 0x8000_0000,
            y == 0x0000_0001 || y == 0x0000_0002 || y == 0x0000_0004 || y == 0x0000_0008
                || y == 0x0000_0010 || y == 0x0000_0020 || y == 0x0000_0040 || y == 0x0000_0080
                || y == 0x0000_0100 || y == 0x0000_0200 || y == 0x0000_0400 || y == 0x0000_0800
                || y == 0x0000_1000 || y == 0x0000_2000 || y == 0x0000_4000 || y == 0x0000_8000
                || y == 0x001f_0000 || y == 0x0020_0000 || y == 0x0040_0000 || y == 0x0080_0000
                || y == 0x0100_0000 || y == 0x0200_0000 || y == 0x1c00_0000 || y == 0x2000_0000
                || y == 0x4000_0000 || y == 0x8000_0000,
    ;
}

/// The attribute that owns bit `bit` of the word.
pub open spec fn owner_of_bit(bit: u32) -> Attribute {
    if bit == 0 {
        Attribute::ZExt
    } else if bit == 1 {
        Attribute::SExt
    } else if bit == 2 {
        Attribute::NoReturn
    } else if bit == 3 {
        Attribute::InReg
    } else if bit == 4 {
        Attribute::StructRet
    } else if bit == 5 {
        Attribute::NoUnwind
    } else if bit == 6 {
        Attribute::NoAlias
    } else if bit == 7 {
        Attribute::ByVal
    } else if bit == 8 {
        Attribute::Nest
    } else if bit == 9 {
        Attribute::ReadNone
    } else if bit == 10 {
        Attribute::ReadOnly
    } else if bit == 11 {
        Attribute::NoInline
    } else if bit == 12 {
        Attribute::AlwaysInline
    } else if bit == 13 {
        Attribute::OptimizeForSize
    } else if bit == 14 {
        Attribute::StackProtect
    } else if bit == 15 {
        Attribute::StackProtectReq
    } else if bit <= 20 {
        Attribute::Alignment
    } else if bit == 21 {
        Attribute::NoCapture
    } else if bit == 22 {
        Attribute::NoRedZone
    } else if bit == 23 {
        Attribute::NoImplicitFloat
    } else if bit == 24 {
        Attribute::Naked
    } else if bit == 25 {
        Attribute::InlineHint
    } else if bit <= 28 {
        Attribute::StackAlignment
    } else if bit == 29 {
        Attribute::ReturnsTwice
    } else if bit == 30 {
        Attribute::UWTable
    } else {
        Attribute::NonLazyBind
    }
}

/// Every bit of the word is owned by an attribute, and by one only: no bit
/// is left over, so every 32-bit number is a value of the word.
pub proof fn lemma_every_bit_is_owned(bit: u32, a: Attribute)
    requires
        bit < 32,
    ensures
        a.mask() & (1u32 << bit) != 0 <==> a == owner_of_bit(bit),
        a == owner_of_bit(bit) <==> a.offset() <= bit < a.offset() + a.width(),
{
    let m = a.mask();
    let s = a.offset();
    let w = a.width();
    lemma_mask_layout(a);
    lemma_low_bits();
    assert(m & (1u32 << bit) != 0 <==> s <= bit < s + w) by (bit_vector)
        requires
            bit < 32,
            (w == 1 && s < 32 && m == 1u32 << s) || (w == 3 && s == 26 && m == 7u32 << s) || (w
                == 5 && s == 16 && m == 31u32 << s),
    ;
}

} // verus!
