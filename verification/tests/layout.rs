use llvm_value::{Attribute, AttributeSet};

const EVERY_ATTRIBUTE: [Attribute; 26] = [
    Attribute::ZExt,
    Attribute::SExt,
    Attribute::NoReturn,
    Attribute::InReg,
    Attribute::StructRet,
    Attribute::NoUnwind,
    Attribute::NoAlias,
    Attribute::ByVal,
    Attribute::Nest,
    Attribute::ReadNone,
    Attribute::ReadOnly,
    Attribute::NoInline,
    Attribute::AlwaysInline,
    Attribute::OptimizeForSize,
    Attribute::StackProtect,
    Attribute::StackProtectReq,
    Attribute::Alignment,
    Attribute::NoCapture,
    Attribute::NoRedZone,
    Attribute::NoImplicitFloat,
    Attribute::Naked,
    Attribute::InlineHint,
    Attribute::StackAlignment,
    Attribute::ReturnsTwice,
    Attribute::UWTable,
    Attribute::NonLazyBind,
];

#[test]
fn flags_are_single_bits_at_the_engine_positions() {
    assert_eq!(Attribute::ZExt.bits(), 0b1);
    assert_eq!(Attribute::SExt.bits(), 0b10);
    assert_eq!(Attribute::NoReturn.bits(), 0b100);
    assert_eq!(Attribute::InReg.bits(), 0b1000);
    assert_eq!(Attribute::StructRet.bits(), 0b10000);
    assert_eq!(Attribute::NoUnwind.bits(), 0b100000);
    assert_eq!(Attribute::NoAlias.bits(), 0b1000000);
    assert_eq!(Attribute::ByVal.bits(), 0b10000000);
    assert_eq!(Attribute::Nest.bits(), 0b100000000);
    assert_eq!(Attribute::ReadNone.bits(), 0b1000000000);
    assert_eq!(Attribute::ReadOnly.bits(), 0b10000000000);
    assert_eq!(Attribute::NoInline.bits(), 0b100000000000);
    assert_eq!(Attribute::AlwaysInline.bits(), 0b1000000000000);
    assert_eq!(Attribute::OptimizeForSize.bits(), 0b10000000000000);
    assert_eq!(Attribute::StackProtect.bits(), 0b100000000000000);
    assert_eq!(Attribute::StackProtectReq.bits(), 0b1000000000000000);
    assert_eq!(Attribute::NoCapture.bits(), 1 << 21);
    assert_eq!(Attribute::NoRedZone.bits(), 1 << 22);
    assert_eq!(Attribute::NoImplicitFloat.bits(), 1 << 23);
    assert_eq!(Attribute::Naked.bits(), 1 << 24);
    assert_eq!(Attribute::InlineHint.bits(), 1 << 25);
    assert_eq!(Attribute::ReturnsTwice.bits(), 0b100000000000000000000000000000);
    assert_eq!(Attribute::UWTable.bits(), 0b1000000000000000000000000000000);
    assert_eq!(Attribute::NonLazyBind.bits(), 0b10000000000000000000000000000000);
}

#[test]
fn alignment_is_five_bits_from_bit_sixteen() {
    assert_eq!(Attribute::Alignment.bits(), 31 << 16);
    assert_eq!(Attribute::Alignment.bits(), 0x001f_0000);
    assert_eq!(Attribute::Alignment.offset(), 16);
    assert_eq!(Attribute::Alignment.bits().count_ones(), 5);
}

#[test]
fn stack_alignment_is_three_bits_from_bit_twenty_six() {
    assert_eq!(Attribute::StackAlignment.bits(), 7 << 26);
    assert_eq!(Attribute::StackAlignment.bits(), 0b11100000000000000000000000000);
    assert_eq!(Attribute::StackAlignment.offset(), 26);
    assert_eq!(Attribute::StackAlignment.bits().count_ones(), 3);
}

#[test]
fn masks_match_the_engine_constants() {
    let engine = [
        llvm_sys::LLVMZExtAttribute,
        llvm_sys::LLVMSExtAttribute,
        llvm_sys::LLVMNoReturnAttribute,
        llvm_sys::LLVMInRegAttribute,
        llvm_sys::LLVMStructRetAttribute,
        llvm_sys::LLVMNoUnwindAttribute,
        llvm_sys::LLVMNoAliasAttribute,
        llvm_sys::LLVMByValAttribute,
        llvm_sys::LLVMNestAttribute,
        llvm_sys::LLVMReadNoneAttribute,
        llvm_sys::LLVMReadOnlyAttribute,
        llvm_sys::LLVMNoInlineAttribute,
        llvm_sys::LLVMAlwaysInlineAttribute,
        llvm_sys::LLVMOptimizeForSizeAttribute,
        llvm_sys::LLVMStackProtectAttribute,
        llvm_sys::LLVMStackProtectReqAttribute,
        llvm_sys::LLVMAlignment,
        llvm_sys::LLVMNoCaptureAttribute,
        llvm_sys::LLVMNoRedZoneAttribute,
        llvm_sys::LLVMNoImplicitFloatAttribute,
        llvm_sys::LLVMNakedAttribute,
        llvm_sys::LLVMInlineHintAttribute,
        llvm_sys::LLVMStackAlignment,
        llvm_sys::LLVMReturnsTwice,
        llvm_sys::LLVMUWTable,
        llvm_sys::LLVMNonLazyBind,
    ];
    for (attr, native) in EVERY_ATTRIBUTE.iter().zip(engine.iter()) {
        assert_eq!(attr.bits(), native.bits() as u32, "{:?}", attr);
    }
}

#[test]
fn every_word_is_a_value_of_the_engine_type() {
    let mut all: u32 = 0;
    for attr in EVERY_ATTRIBUTE.iter() {
        all |= attr.bits();
    }
    assert_eq!(all, u32::MAX);
    assert_eq!(llvm_sys::LLVMAttribute::all().bits() as u32, u32::MAX);
}

#[test]
fn only_the_two_alignments_are_wider_than_one_bit() {
    for attr in EVERY_ATTRIBUTE.iter() {
        let expected = if *attr == Attribute::Alignment {
            5
        } else if *attr == Attribute::StackAlignment {
            3
        } else {
            1
        };
        assert_eq!(attr.width(), expected, "{:?}", attr);
    }
}

#[test]
fn mask_is_width_ones_shifted_by_offset() {
    for attr in EVERY_ATTRIBUTE.iter() {
        assert_eq!(attr.bits().count_ones(), attr.width(), "{:?}", attr);
        assert_eq!(attr.bits().trailing_zeros(), attr.offset(), "{:?}", attr);
        let ones = ((1u64 << attr.width()) - 1) as u32;
        assert_eq!(attr.bits(), ones << attr.offset(), "{:?}", attr);
    }
}

#[test]
fn every_bit_of_the_word_has_one_owner() {
    for bit in 0..32u32 {
        let owners = EVERY_ATTRIBUTE.iter().filter(|a| a.bits() & (1 << bit) != 0).count();
        assert_eq!(owners, 1, "bit {}", bit);
    }
}

#[test]
fn masks_are_pairwise_disjoint() {
    for a in EVERY_ATTRIBUTE.iter() {
        for b in EVERY_ATTRIBUTE.iter() {
            if a != b {
                assert_eq!(a.bits() & b.bits(), 0, "{:?} {:?}", a, b);
            }
        }
    }
}

#[test]
fn encoding_then_decoding_gives_the_attribute_back() {
    for attr in EVERY_ATTRIBUTE.iter() {
        assert_eq!(Attribute::from_bits(attr.bits()), Some(*attr));
        assert_eq!(Attribute::from_bits(AttributeSet::from(*attr).bits()), Some(*attr));
    }
}

#[test]
fn decoding_rejects_what_is_no_single_attribute() {
    assert_eq!(Attribute::from_bits(0), None);
    assert_eq!(Attribute::from_bits(0b11), None);
    assert_eq!(Attribute::from_bits(1 << 16), None);
    assert_eq!(Attribute::from_bits(1 << 26), None);
    assert_eq!(Attribute::from_bits(3 << 26), None);
    assert_eq!(Attribute::from_bits(u32::MAX), None);
}

#[test]
fn decoding_accepts_exactly_twenty_six_words() {
    let mut found = 0;
    for shift in 0..32u32 {
        for width in 1..=(32 - shift) {
            let word = (((1u64 << width) - 1) << shift) as u32;
            if Attribute::from_bits(word).is_some() {
                found += 1;
            }
        }
    }
    assert_eq!(found, 26);
}
