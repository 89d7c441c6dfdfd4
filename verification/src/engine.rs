//! The calls that this layer makes on the engine.
//!
//! An operation that changes something, or that makes a new object, does
//! not reach the engine itself: it returns the call to make, as a value, and
//! whoever holds the engine makes it. An operation that reads takes what the
//! engine answered as an argument.

use vstd::prelude::*;
use libc::{c_int, c_uint};
use crate::attribute::Attribute;
use crate::attribute_set::{
    lemma_add_sets_only_its_own, lemma_contains_is_order, lemma_flag_is_set_or_clear,
    lemma_of_has_members, lemma_remove_clear_is_noop, lemma_remove_clears_only_its_own,
    lemma_union_laws, AttributeSet,
};
use crate::name::{c_string, c_text, is_c_text, lemma_c_text_of_c_string};

verus! {

/// One call on the engine, with its arguments.
#[derive(Debug, PartialEq, Eq)]
pub enum Call {
    /// Make a constant struct in `context` from `operands`, `count` of them,
    /// without padding where `packed` is not zero. Gives the new value.
    ConstStruct { context: usize, operands: Vec<usize>, count: c_uint, packed: c_int },
    /// Name `value` with the text in `name`, which ends with a zero byte.
    SetValueName { value: usize, name: Vec<u8> },
    /// Set the bits of `attrs` in the attribute word of the parameter `arg`.
    AddAttribute { arg: usize, attrs: AttributeSet },
    /// Clear the bits of `attrs` in the attribute word of the parameter `arg`.
    RemoveAttribute { arg: usize, attrs: AttributeSet },
    /// Set the bits of `attrs` in the attribute word of `function`.
    AddFunctionAttr { function: usize, attrs: AttributeSet },
    /// Clear the bits of `attrs` in the attribute word of `function`.
    RemoveFunctionAttr { function: usize, attrs: AttributeSet },
    /// Give the parameter of `function` at `index`, counted from zero.
    GetParam { function: usize, index: c_uint },
    /// Make an empty block named by the text in `name`, which ends with a
    /// zero byte, and put it after the last block of `function`. Gives the
    /// new block.
    AppendBasicBlock { context: usize, function: usize, name: Vec<u8> },
}

/// A call as a mathematical value.
pub enum CallView {
    ConstStruct { context: usize, operands: Seq<usize>, count: c_uint, packed: c_int },
    SetValueName { value: usize, name: Seq<u8> },
    AddAttribute { arg: usize, attrs: AttributeSet },
    RemoveAttribute { arg: usize, attrs: AttributeSet },
    AddFunctionAttr { function: usize, attrs: AttributeSet },
    RemoveFunctionAttr { function: usize, attrs: AttributeSet },
    GetParam { function: usize, index: c_uint },
    AppendBasicBlock { context: usize, function: usize, name: Seq<u8> },
}

impl View for Call {
    type V = CallView;

    open spec fn view(&self) -> CallView {
        match *self {
            Call::ConstStruct { context, operands, count, packed } => CallView::ConstStruct {
                context,
                operands: operands@,
                count,
                packed,
            },
            Call::SetValueName { value, name } => CallView::SetValueName { value, name: name@ },
            Call::AddAttribute { arg, attrs } => CallView::AddAttribute { arg, attrs },
            Call::RemoveAttribute { arg, attrs } => CallView::RemoveAttribute { arg, attrs },
            Call::AddFunctionAttr { function, attrs } => CallView::AddFunctionAttr {
                function,
                attrs,
            },
            Call::RemoveFunctionAttr { function, attrs } => CallView::RemoveFunctionAttr {
                function,
                attrs,
            },
            Call::GetParam { function, index } => CallView::GetParam { function, index },
            Call::AppendBasicBlock { context, function, name } => CallView::AppendBasicBlock {
                context,
                function,
                name: name@,
            },
        }
    }
}

impl CallView {
    /// The attribute word that the object at `target` holds once the engine
    /// has made this call, where it held `before`. The engine sets bits by
    /// OR and clears them by AND-NOT, on the object named in the call and on
    /// no other.
    pub open spec fn attributes_after(self, target: usize, before: AttributeSet) -> AttributeSet {
        match self {
            CallView::AddAttribute { arg, attrs } if arg == target => before.union(attrs),
            CallView::AddFunctionAttr { function, attrs } if function == target => before.union(
                attrs,
            ),
            CallView::RemoveAttribute { arg, attrs } if arg == target => before.difference(attrs),
            CallView::RemoveFunctionAttr { function, attrs } if function == target => {
                before.difference(attrs)
            },
            _ => before,
        }
    }

    /// The name that the value at `target` has once the engine has made
    /// this call, where it had `before`; `None` stands for no name. The
    /// engine keeps the bytes of the buffer up to its first zero byte.
    pub open spec fn name_after(self, target: usize, before: Option<Seq<u8>>) -> Option<Seq<u8>> {
        match self {
            CallView::SetValueName { value, name } if value == target => Some(c_text(name)),
            _ => before,
        }
    }
}

/// The call that sets the bits of `attrs` in the attribute word of the
/// object at `target`, be it a parameter or a function.
pub open spec fn is_add(call: CallView, target: usize, attrs: AttributeSet) -> bool {
    call == (CallView::AddAttribute { arg: target, attrs }) || call == (CallView::AddFunctionAttr {
        function: target,
        attrs,
    })
}

/// The call that clears the bits of `attrs` in the attribute word of the
/// object at `target`, be it a parameter or a function.
pub open spec fn is_remove(call: CallView, target: usize, attrs: AttributeSet) -> bool {
    call == (CallView::RemoveAttribute { arg: target, attrs }) || call == (
    CallView::RemoveFunctionAttr { function: target, attrs })
}

/// The attribute word of the object at `target` once each of `attrs` has
/// been added by a call of its own, in their order, where it held `before`.
pub open spec fn added_in_turn(target: usize, before: AttributeSet, attrs: Seq<Attribute>)
    -> AttributeSet
    decreases attrs.len(),
{
    if attrs.len() == 0 {
        before
    } else {
        (CallView::AddAttribute { arg: target, attrs: AttributeSet::single(attrs.last()) })
            .attributes_after(target, added_in_turn(target, before, attrs.drop_last()))
    }
}

/// Adding two attributes with one call sets both, and leaves the word as
/// adding the first and then the second does, and as adding them the other
/// way round does.
pub proof fn lemma_add_pair(
    target: usize,
    before: AttributeSet,
    a: Attribute,
    b: Attribute,
    both: CallView,
    add_a: CallView,
    add_b: CallView,
)
    requires
        is_add(both, target, AttributeSet::of(seq![a, b])),
        is_add(add_a, target, AttributeSet::single(a)),
        is_add(add_b, target, AttributeSet::single(b)),
    ensures
        both.attributes_after(target, before).has(a),
        both.attributes_after(target, before).has(b),
        both.attributes_after(target, before) == add_b.attributes_after(
            target,
            add_a.attributes_after(target, before),
        ),
        both.attributes_after(target, before) == add_a.attributes_after(
            target,
            add_b.attributes_after(target, before),
        ),
{
    let pair = seq![a, b];
    let (x, y) = (AttributeSet::single(a), AttributeSet::single(b));
    assert(AttributeSet::of(pair) == x.union(y)) by {
        assert(pair.drop_last() == seq![a]);
        assert(seq![a].drop_last() == Seq::<Attribute>::empty());
        reveal_with_fuel(AttributeSet::of, 3);
        lemma_union_laws(x, y, y);
    }
    lemma_union_laws(before, x, y);
    lemma_union_laws(before, y, x);
    lemma_union_laws(x, y, before);
    lemma_of_has_members(pair, 0);
    lemma_of_has_members(pair, 1);
    lemma_union_laws(before, AttributeSet::of(pair), x);
    lemma_contains_is_order(both.attributes_after(target, before), AttributeSet::of(pair), x);
    lemma_contains_is_order(both.attributes_after(target, before), AttributeSet::of(pair), y);
}

/// Adding any number of attributes with one call sets every one of them,
/// and leaves the word as adding them one by one does.
pub proof fn lemma_add_all(
    target: usize,
    before: AttributeSet,
    attrs: Seq<Attribute>,
    all: CallView,
)
    requires
        is_add(all, target, AttributeSet::of(attrs)),
    ensures
        all.attributes_after(target, before) == added_in_turn(target, before, attrs),
        forall|k: int|
            0 <= k < attrs.len() ==> all.attributes_after(target, before).has(#[trigger] attrs[k]),
    decreases attrs.len(),
{
    let after = all.attributes_after(target, before);
    assert(after == before.union(AttributeSet::of(attrs)));
    if attrs.len() == 0 {
        lemma_union_laws(before, before, before);
    } else {
        let front = attrs.drop_last();
        let part = CallView::AddAttribute { arg: target, attrs: AttributeSet::of(front) };
        lemma_add_all(target, before, front, part);
        lemma_union_laws(before, AttributeSet::of(front), AttributeSet::single(attrs.last()));
    }
    assert forall|k: int| 0 <= k < attrs.len() implies after.has(#[trigger] attrs[k]) by {
        lemma_of_has_members(attrs, k);
        lemma_union_laws(before, AttributeSet::of(attrs), before);
        lemma_contains_is_order(after, AttributeSet::of(attrs), AttributeSet::single(attrs[k]));
    }
}

/// Once an attribute has been added and then removed, the object does not
/// have it, and every other attribute is as it was before the two calls. If
/// no bit of the attribute was set before, the whole word is as it was.
pub proof fn lemma_add_then_remove(
    target: usize,
    before: AttributeSet,
    a: Attribute,
    other: Attribute,
    add: CallView,
    remove: CallView,
)
    requires
        is_add(add, target, AttributeSet::single(a)),
        is_remove(remove, target, AttributeSet::single(a)),
    ensures
        add.attributes_after(target, before).has(a),
        !remove.attributes_after(target, add.attributes_after(target, before)).has(a),
        other != a ==> remove.attributes_after(target, add.attributes_after(target, before)).has(
            other,
        ) == before.has(other),
        before.clear_of(a) ==> remove.attributes_after(
            target,
            add.attributes_after(target, before),
        ) == before,
{
    let added = add.attributes_after(target, before);
    lemma_add_sets_only_its_own(before, a, other);
    lemma_remove_clears_only_its_own(added, a, other);
    if before.clear_of(a) {
        let (x, m) = (before.bits, a.mask());
        assert((x | m) & !m == x) by (bit_vector)
            requires
                x & m == 0,
        ;
    }
}

/// Removing an attribute that the object does not have changes nothing: the
/// object still does not have it, and no other bit changes. This holds of
/// every flag; of a field it holds where no bit of the field is set.
pub proof fn lemma_remove_absent(
    target: usize,
    before: AttributeSet,
    a: Attribute,
    remove: CallView,
)
    requires
        is_remove(remove, target, AttributeSet::single(a)),
        !before.has(a),
        a.width() == 1 || before.clear_of(a),
    ensures
        remove.attributes_after(target, before) == before,
        !remove.attributes_after(target, before).has(a),
{
    if a.width() == 1 {
        lemma_flag_is_set_or_clear(before, a);
    }
    lemma_remove_clear_is_noop(before, a);
}

/// Removing an attribute never touches a bit of another: whatever the word
/// held, the object does not have the attribute afterwards, and every other
/// attribute is as it was.
pub proof fn lemma_remove_is_local(
    target: usize,
    before: AttributeSet,
    a: Attribute,
    other: Attribute,
    remove: CallView,
)
    requires
        is_remove(remove, target, AttributeSet::single(a)),
    ensures
        !remove.attributes_after(target, before).has(a),
        other != a ==> remove.attributes_after(target, before).has(other) == before.has(other),
        other != a ==> remove.attributes_after(target, before).field(other) == before.field(other),
{
    lemma_remove_clears_only_its_own(before, a, other);
}

/// A call leaves the attribute words of all objects but its own as they
/// were.
pub proof fn lemma_calls_are_local(
    call: CallView,
    target: usize,
    attrs: AttributeSet,
    other: usize,
    before: AttributeSet,
)
    requires
        is_add(call, target, attrs) || is_remove(call, target, attrs),
        other != target,
    ensures
        call.attributes_after(other, before) == before,
{
}

/// Once a value has been named, the engine holds the bytes of the name and
/// no others, whatever it held before. This holds of the empty name too, so
/// a value named "" has a name, unlike one that was never named.
pub proof fn lemma_name_is_kept(
    target: usize,
    before: Option<Seq<u8>>,
    text: Seq<u8>,
    set: CallView,
)
    requires
        is_c_text(text),
        set == (CallView::SetValueName { value: target, name: c_string(text) }),
    ensures
        set.name_after(target, before) == Some(text),
        set.name_after(target, None) != None::<Seq<u8>>,
{
    lemma_c_text_of_c_string(text);
}

} // verus!
