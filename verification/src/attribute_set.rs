//! The engine's attribute word as a value, with the algebra that the
//! operations on functions and parameters rest on: union is bitwise OR, the
//! test is AND and compare, difference is AND-NOT.

use vstd::prelude::*;
use vstd::std_specs::convert::FromSpecImpl;
use crate::attribute::{
    lemma_low_bits, lemma_mask_layout, lemma_masks_disjoint, low_bits, Attribute,
};

verus! {

/// A value of the attribute word of one function or parameter.
#[derive(Clone, Copy, Debug, PartialEq, Eq, Structural)]
pub struct AttributeSet {
    /// The word, bit for bit as the engine holds it.
    pub bits: u32,
}

impl AttributeSet {
    /// The word with no bit set.
    pub open spec fn spec_empty() -> AttributeSet {
        AttributeSet { bits: 0 }
    }

    /// The word that holds the bits of `attr` and no others.
    pub open spec fn single(attr: Attribute) -> AttributeSet {
        AttributeSet { bits: attr.mask() }
    }

    /// Every bit that is set in `self` or in `other`.
    pub open spec fn spec_union(self, other: AttributeSet) -> AttributeSet {
        AttributeSet { bits: self.bits | other.bits }
    }

    /// The bits of `self` that are not set in `other`.
    pub open spec fn spec_difference(self, other: AttributeSet) -> AttributeSet {
        AttributeSet { bits: self.bits & !other.bits }
    }

    /// Whether every bit of `other` is set in `self`.
    pub open spec fn spec_contains(self, other: AttributeSet) -> bool {
        self.bits & other.bits == other.bits
    }

    /// Whether every bit that `attr` owns is set.
    pub open spec fn has(self, attr: Attribute) -> bool {
        self.spec_contains(Self::single(attr))
    }

    /// Whether no bit that `attr` owns is set.
    pub open spec fn clear_of(self, attr: Attribute) -> bool {
        self.bits & attr.mask() == 0
    }

    /// The number held in the bits that `attr` owns.
    pub open spec fn spec_field(self, attr: Attribute) -> u32 {
        (self.bits & attr.mask()) >> attr.offset()
    }

    /// The union of the words of all of `attrs`.
    pub open spec fn of(attrs: Seq<Attribute>) -> AttributeSet
        decreases attrs.len(),
    {
        if attrs.len() == 0 {
            Self::spec_empty()
        } else {
            Self::of(attrs.drop_last()).spec_union(Self::single(attrs.last()))
        }
    }

    /// The word with no bit set.
    #[verifier::when_used_as_spec(spec_empty)]
    pub fn empty() -> (set: AttributeSet)
        ensures
            set == Self::spec_empty(),
    {
        AttributeSet { bits: 0 }
    }

    /// The word `bits`. Every bit of the word belongs to some attribute, so
    /// every `u32` is a value of it.
    pub fn from_bits(bits: u32) -> (set: AttributeSet)
        ensures
            set.bits == bits,
    {
        AttributeSet { bits }
    }

    /// The word, bit for bit.
    pub fn bits(self) -> (bits: u32)
        ensures
            bits == self.bits,
    {
        self.bits
    }

    /// Every bit that is set in `self` or in `other`.
    #[verifier::when_used_as_spec(spec_union)]
    pub fn union(self, other: AttributeSet) -> (set: AttributeSet)
        ensures
            set == self.spec_union(other),
    {
        AttributeSet { bits: self.bits | other.bits }
    }

    /// The bits of `self` that are not set in `other`.
    #[verifier::when_used_as_spec(spec_difference)]
    pub fn difference(self, other: AttributeSet) -> (set: AttributeSet)
        ensures
            set == self.spec_difference(other),
    {
        AttributeSet { bits: self.bits & !other.bits }
    }

    /// Whether every bit of `other` is set in `self`.
    #[verifier::when_used_as_spec(spec_contains)]
    pub fn contains(self, other: AttributeSet) -> (yes: bool)
        ensures
            yes == self.spec_contains(other),
    {
        self.bits & other.bits == other.bits
    }

    /// The number held in the bits that `attr` owns: 0 or 1 for a flag, the
    /// stored magnitude for a field.
    #[verifier::when_used_as_spec(spec_field)]
    pub fn field(self, attr: Attribute) -> (value: u32)
        ensures
            value == self.spec_field(attr),
    {
        (self.bits & attr.bits()) >> attr.offset()
    }

    /// The union of the words of all of `attrs`, computed in one pass.
    pub fn union_of(attrs: &[Attribute]) -> (set: AttributeSet)
        ensures
            set == Self::of(attrs@),
    {
        let mut sum = AttributeSet::empty();
        let mut i: usize = 0;
        while i < attrs.len()
            invariant
                i <= attrs.len(),
                sum == Self::of(attrs@.take(i as int)),
            decreases attrs.len() - i,
        {
            let attr: Attribute = attrs[i];
            proof {
                let next = attrs@.take(i + 1);
                assert(next.drop_last() == attrs@.take(i as int));
                assert(next.last() == attr);
            }
            sum = sum.union(AttributeSet::from(attr));
            i += 1;
        }
        proof {
            assert(attrs@.take(attrs.len() as int) == attrs@);
        }
        sum
    }
}

impl From<Attribute> for AttributeSet {
    /// The word that holds the bits of `attr` and no others.
    fn from(attr: Attribute) -> (set: AttributeSet)
        ensures
            set == AttributeSet::single(attr),
    {
        AttributeSet { bits: attr.bits() }
    }
}

impl FromSpecImpl<Attribute> for AttributeSet {
    open spec fn obeys_from_spec() -> bool {
        true
    }

    open spec fn from_spec(attr: Attribute) -> AttributeSet {
        AttributeSet::single(attr)
    }
}

proof fn or_holds_operand(x: u32, m: u32)
    by (bit_vector)
    ensures
        (x | m) & m == m,
        (m | x) & m == m,
{
}

proof fn or_keeps_contained(x: u32, y: u32, m: u32)
    by (bit_vector)
    requires
        x & m == m,
    ensures
        (x | y) & m == m,
{
}

proof fn or_is_least(t: u32, a: u32, b: u32)
    by (bit_vector)
    requires
        t & a == a,
        t & b == b,
    ensures
        t & (a | b) == (a | b),
{
}

proof fn containment_both_ways(x: u32, y: u32)
    by (bit_vector)
    requires
        x & y == y,
        y & x == x,
    ensures
        x == y,
{
}

proof fn or_laws(x: u32, y: u32, z: u32)
    by (bit_vector)
    ensures
        x | y == y | x,
        (x | y) | z == x | (y | z),
        x | x == x,
        x | 0 == x,
        0 | x == x,
        0 & x == 0,
        x & 0 == 0,
        x & x == x,
{
}

proof fn and_not_clears(x: u32, m: u32)
    by (bit_vector)
    ensures
        (x & !m) & m == 0,
        ((x | m) & !m) & m == 0,
        x & m == 0 ==> x & !m == x,
        x & m == 0 ==> (x | m) & !m == x,
{
}

proof fn and_not_keeps_apart(x: u32, m: u32, k: u32)
    by (bit_vector)
    requires
        m & k == 0,
    ensures
        (x & !m) & k == x & k,
        (x | m) & k == x & k,
{
}

proof fn one_bit_is_all_or_nothing(x: u32, s: u32)
    by (bit_vector)
    requires
        s < 32,
    ensures
        x & (1u32 << s) == (1u32 << s) || x & (1u32 << s) == 0,
        1u32 << s != 0,
{
}

/// Union does not depend on the order or the grouping of its operands, and
/// adding what is already there, or nothing, changes nothing.
pub proof fn lemma_union_laws(x: AttributeSet, y: AttributeSet, z: AttributeSet)
    ensures
        x.union(y) == y.union(x),
        x.union(y).union(z) == x.union(y.union(z)),
        x.union(x) == x,
        x.union(AttributeSet::empty()) == x,
        AttributeSet::empty().union(x) == x,
        x.union(y).contains(x),
        x.union(y).contains(y),
{
    or_laws(x.bits, y.bits, z.bits);
    or_holds_operand(x.bits, y.bits);
    or_holds_operand(y.bits, x.bits);
}

/// Containment is a partial order on words: each word contains itself, two
/// words that contain each other are equal, and containment carries over.
pub proof fn lemma_contains_is_order(x: AttributeSet, y: AttributeSet, z: AttributeSet)
    ensures
        x.contains(x),
        x.contains(AttributeSet::empty()),
        x.contains(y) && y.contains(x) ==> x == y,
        x.contains(y) && y.contains(z) ==> x.contains(z),
{
    or_laws(x.bits, y.bits, z.bits);
    if x.contains(y) && y.contains(x) {
        containment_both_ways(x.bits, y.bits);
    }
    if x.contains(y) && y.contains(z) {
        let (a, b, c) = (x.bits, y.bits, z.bits);
        assert(a & c == c) by (bit_vector)
            requires
                a & b == b,
                b & c == c,
        ;
    }
}

/// The union of a sequence of attributes has every one of them.
pub proof fn lemma_of_has_members(attrs: Seq<Attribute>, k: int)
    requires
        0 <= k < attrs.len(),
    ensures
        AttributeSet::of(attrs).has(attrs[k]),
    decreases attrs.len(),
{
    let rest = AttributeSet::of(attrs.drop_last());
    if k == attrs.len() - 1 {
        or_holds_operand(rest.bits, attrs.last().mask());
    } else {
        lemma_of_has_members(attrs.drop_last(), k);
        or_keeps_contained(rest.bits, attrs.last().mask(), attrs[k].mask());
    }
}

/// The union of a sequence of attributes is the least word that has every
/// one of them: any word that has them all contains it.
pub proof fn lemma_of_is_least(attrs: Seq<Attribute>, bound: AttributeSet)
    requires
        forall|k: int| 0 <= k < attrs.len() ==> bound.has(#[trigger] attrs[k]),
    ensures
        bound.contains(AttributeSet::of(attrs)),
    decreases attrs.len(),
{
    if attrs.len() == 0 {
        or_laws(bound.bits, 0, 0);
    } else {
        let front = attrs.drop_last();
        assert forall|k: int| 0 <= k < front.len() implies bound.has(#[trigger] front[k]) by {
            assert(front[k] == attrs[k]);
        }
        lemma_of_is_least(front, bound);
        assert(bound.has(attrs[attrs.len() - 1]));
        or_is_least(bound.bits, AttributeSet::of(front).bits, attrs.last().mask());
    }
}

/// The union of a sequence depends only on which attributes occur in it,
/// not on their order nor on how often each occurs.
pub proof fn lemma_of_ignores_order(first: Seq<Attribute>, second: Seq<Attribute>)
    requires
        forall|a: Attribute| first.contains(a) <==> second.contains(a),
    ensures
        AttributeSet::of(first) == AttributeSet::of(second),
{
    let x = AttributeSet::of(first);
    let y = AttributeSet::of(second);
    assert forall|k: int| 0 <= k < second.len() implies x.has(#[trigger] second[k]) by {
        assert(second.contains(second[k]));
        let j = choose|j: int| 0 <= j < first.len() && first[j] == second[k];
        lemma_of_has_members(first, j);
    }
    lemma_of_is_least(second, x);
    assert forall|k: int| 0 <= k < first.len() implies y.has(#[trigger] first[k]) by {
        assert(first.contains(first[k]));
        let j = choose|j: int| 0 <= j < second.len() && second[j] == first[k];
        lemma_of_has_members(second, j);
    }
    lemma_of_is_least(first, y);
    containment_both_ways(x.bits, y.bits);
}

/// The union of two sequences laid end to end is the union of their unions.
pub proof fn lemma_of_concat(first: Seq<Attribute>, second: Seq<Attribute>)
    ensures
        AttributeSet::of(first + second) == AttributeSet::of(first).union(AttributeSet::of(second)),
    decreases second.len(),
{
    let x = AttributeSet::of(first);
    if second.len() == 0 {
        assert(first + second == first);
        or_laws(x.bits, 0, 0);
    } else {
        let all = first + second;
        assert(all.drop_last() == first + second.drop_last());
        assert(all.last() == second.last());
        lemma_of_concat(first, second.drop_last());
        or_laws(x.bits, AttributeSet::of(second.drop_last()).bits, second.last().mask());
    }
}

/// Adding an attribute sets it and leaves every other attribute as it was.
pub proof fn lemma_add_sets_only_its_own(before: AttributeSet, a: Attribute, other: Attribute)
    ensures
        before.union(AttributeSet::single(a)).has(a),
        before.has(other) ==> before.union(AttributeSet::single(a)).has(other),
        other != a ==> before.union(AttributeSet::single(a)).has(other) == before.has(other),
        other != a ==> before.union(AttributeSet::single(a)).field(other) == before.field(other),
{
    or_holds_operand(before.bits, a.mask());
    if before.has(other) {
        or_keeps_contained(before.bits, a.mask(), other.mask());
    }
    if other != a {
        lemma_masks_disjoint(a, other);
        and_not_keeps_apart(before.bits, a.mask(), other.mask());
    }
}

/// Removing an attribute clears it and leaves every other attribute as it
/// was: no bit outside the removed attribute's own changes.
pub proof fn lemma_remove_clears_only_its_own(before: AttributeSet, a: Attribute, other: Attribute)
    ensures
        !before.difference(AttributeSet::single(a)).has(a),
        before.difference(AttributeSet::single(a)).clear_of(a),
        before.difference(AttributeSet::single(a)).field(a) == 0,
        other != a ==> before.difference(AttributeSet::single(a)).has(other) == before.has(other),
        other != a ==> before.difference(AttributeSet::single(a)).field(other) == before.field(
            other,
        ),
        before.difference(AttributeSet::single(a)).bits & !a.mask() == before.bits & !a.mask(),
{
    lemma_mask_layout(a);
    and_not_clears(before.bits, a.mask());
    let (x, m, s) = (before.bits, a.mask(), a.offset());
    assert(0u32 >> s == 0) by (bit_vector);
    assert((x & !m) & !m == x & !m) by (bit_vector);
    if other != a {
        lemma_masks_disjoint(a, other);
        and_not_keeps_apart(before.bits, a.mask(), other.mask());
    }
}

/// Removing an attribute of which no bit is set changes nothing.
pub proof fn lemma_remove_clear_is_noop(before: AttributeSet, a: Attribute)
    requires
        before.clear_of(a),
    ensures
        before.difference(AttributeSet::single(a)) == before,
        !before.has(a),
{
    lemma_mask_layout(a);
    and_not_clears(before.bits, a.mask());
}

/// A flag is either set or clear: a word that does not have it holds none
/// of its bits. (Of a field this is false: a field may hold a number that
/// sets some of its bits and not all.)
pub proof fn lemma_flag_is_set_or_clear(word: AttributeSet, a: Attribute)
    requires
        a.width() == 1,
    ensures
        word.has(a) || word.clear_of(a),
        word.has(a) <==> word.field(a) == 1,
        word.clear_of(a) <==> word.field(a) == 0,
{
    lemma_mask_layout(a);
    one_bit_is_all_or_nothing(word.bits, a.offset());
    let s = a.offset();
    assert((1u32 << s) >> s == 1 && 0u32 >> s == 0) by (bit_vector)
        requires
            s < 32,
    ;
}

/// What a field holds is below two to the power of its width, and the word
/// has the attribute exactly when the field holds the largest such number.
pub proof fn lemma_field_range(word: AttributeSet, a: Attribute)
    ensures
        word.field(a) <= low_bits(a.width()),
        word.has(a) <==> word.field(a) == low_bits(a.width()),
        word.clear_of(a) <==> word.field(a) == 0,
{
    lemma_mask_layout(a);
    lemma_low_bits();
    let (x, w, s) = (word.bits, low_bits(a.width()), a.offset());
    assert({
        &&& (x & (w << s)) >> s <= w
        &&& (x & (w << s) == (w << s)) <==> (x & (w << s)) >> s == w
        &&& (x & (w << s) == 0) <==> (x & (w << s)) >> s == 0
    }) by (bit_vector)
        requires
            s < 32,
            (w == 1 && s <= 31) || (w == 7 && s <= 29) || (w == 31 && s <= 27),
    ;
}

} // verus!
