use llvm_sys::LLVMAttribute;
use llvm_value::{Attribute, AttributeSet};

const WORDS: [u32; 10] = [
    0,
    1,
    0x40 | 0x80,
    0x001f_0000,
    0x0003_0000,
    0x1c00_0000,
    0x0400_0000,
    0x8000_0000,
    0xdead_beef,
    u32::MAX,
];

fn engine_word(bits: u32) -> LLVMAttribute {
    LLVMAttribute::from_bits(bits as i32).unwrap()
}

#[test]
fn every_word_converts_to_the_engine_type_and_back() {
    for bits in WORDS.iter() {
        assert_eq!(engine_word(*bits).bits() as u32, AttributeSet::from_bits(*bits).bits());
        assert_eq!(LLVMAttribute::from_bits_truncate(*bits as i32).bits() as u32, *bits);
    }
}

#[test]
fn empty_is_the_empty_word_of_the_engine_type() {
    assert_eq!(AttributeSet::empty().bits(), LLVMAttribute::empty().bits() as u32);
}

#[test]
fn union_agrees_with_the_engine_type() {
    for a in WORDS.iter() {
        for b in WORDS.iter() {
            let ours = AttributeSet::from_bits(*a).union(AttributeSet::from_bits(*b));
            let theirs = engine_word(*a) | engine_word(*b);
            assert_eq!(ours.bits(), theirs.bits() as u32, "{:#x} {:#x}", a, b);
        }
    }
}

#[test]
fn contains_agrees_with_the_engine_type() {
    for a in WORDS.iter() {
        for b in WORDS.iter() {
            let ours = AttributeSet::from_bits(*a).contains(AttributeSet::from_bits(*b));
            let theirs = engine_word(*a).contains(engine_word(*b));
            assert_eq!(ours, theirs, "{:#x} {:#x}", a, b);
        }
    }
}

#[test]
fn difference_agrees_with_the_engine_type() {
    for a in WORDS.iter() {
        for b in WORDS.iter() {
            let ours = AttributeSet::from_bits(*a).difference(AttributeSet::from_bits(*b));
            let theirs = engine_word(*a) - engine_word(*b);
            assert_eq!(ours.bits(), theirs.bits() as u32, "{:#x} {:#x}", a, b);
        }
    }
}

#[test]
fn union_of_agrees_with_folding_the_engine_type() {
    let attrs = [Attribute::NoAlias, Attribute::Alignment, Attribute::NonLazyBind];
    let mut sum = LLVMAttribute::empty();
    for attr in attrs.iter() {
        sum = sum | engine_word(attr.bits());
    }
    assert_eq!(AttributeSet::union_of(&attrs).bits(), sum.bits() as u32);
}
