//! Values, parameters and functions: three views of one kind of handle.
//!
//! A `Value` is any operand. An `Arg` is a value known to be a parameter of
//! a function, and a `Function` a value known to be a function; each can be
//! used wherever a value can. A `Function` comes from whoever made it in the
//! engine. An `Arg` comes only from looking up a position in a function.

use vstd::prelude::*;
use vstd::string::StringSliceAdditionalSpecFns;
use std::ops::Deref;
use libc::{c_int, c_uint};
use crate::attribute::Attribute;
use crate::attribute_set::AttributeSet;
use crate::engine::{Call, CallView};
use crate::handle::{lemma_same_address, BasicBlock, Context, FunctionType, Handle, Type};
use crate::name::{c_string, is_c_text, to_c_string, NameBuffer};

verus! {

/// A typed value that can be used as an operand in instructions.
#[derive(Clone, Copy, Debug, PartialEq, Eq, Structural)]
pub struct Value {
    handle: Handle,
}

impl View for Value {
    type V = usize;

    closed spec fn view(&self) -> usize {
        self.handle.addr()
    }
}

/// The addresses of `vals`, in their order.
pub open spec fn handles_of(vals: Seq<Value>) -> Seq<usize> {
    Seq::new(vals.len(), |i: int| vals[i]@)
}

impl Value {
    /// The value at the address `raw`, or `None` for the null address.
    pub fn from_raw(raw: usize) -> (value: Option<Value>)
        ensures
            value is None <==> raw == 0,
            value matches Some(v) ==> v@ == raw,
    {
        match Handle::new(raw) {
            Some(handle) => Some(Value { handle }),
            None => None,
        }
    }

    /// The address of the value.
    pub fn handle(&self) -> (raw: usize)
        ensures
            raw == self@,
            raw != 0,
    {
        self.handle.get()
    }

    /// The call that makes a constant struct in `context` from `vals`, in
    /// their order; `packed` asks for a layout without padding. The engine
    /// counts the operands in 32 bits.
    pub fn new_struct(context: &Context, vals: &[Value], packed: bool) -> (call: Call)
        requires
            vals@.len() <= c_uint::MAX,
        ensures
            call@ == (CallView::ConstStruct {
                context: context@,
                operands: handles_of(vals@),
                count: vals@.len() as c_uint,
                packed: if packed { 1 as c_int } else { 0 as c_int },
            }),
    {
        let mut operands: Vec<usize> = Vec::new();
        let mut i: usize = 0;
        while i < vals.len()
            invariant
                i <= vals.len(),
                operands@ == handles_of(vals@.take(i as int)),
            decreases vals.len() - i,
        {
            operands.push(vals[i].handle());
            proof {
                assert(vals@.take(i + 1)[i as int] == vals@[i as int]);
                assert(operands@ =~= handles_of(vals@.take(i + 1)));
            }
            i += 1;
        }
        proof {
            assert(vals@.take(vals.len() as int) == vals@);
        }
        Call::ConstStruct {
            context: context.handle(),
            operands,
            count: vals.len() as c_uint,
            packed: if packed { 1 } else { 0 },
        }
    }

    /// The name of the value, from the engine's answer to a query for it:
    /// none where the answer is a null pointer, and the text of the buffer
    /// otherwise, be it empty.
    pub fn get_name(&self, answer: NameBuffer) -> (name: Option<String>)
        ensures
            answer is Null ==> name is None,
            answer matches NameBuffer::Text(text) ==> name == Some(text),
    {
        match answer {
            NameBuffer::Null => None,
            NameBuffer::Text(text) => Some(text),
        }
    }

    /// The call that names the value `name`. A name with a zero byte in it
    /// cannot be handed to the engine.
    pub fn set_name(&self, name: &str) -> (call: Call)
        requires
            is_c_text(name.spec_bytes()),
        ensures
            call@ == (CallView::SetValueName {
                value: self@,
                name: c_string(name.spec_bytes()),
            }),
    {
        Call::SetValueName { value: self.handle(), name: to_c_string(name) }
    }

    /// The type of the value, from the engine's answer to a query for it.
    /// Every value has a type.
    pub fn get_type(&self, answer: usize) -> (ty: Type)
        requires
            answer != 0,
        ensures
            ty@ == answer,
    {
        Type::from_raw(answer).unwrap()
    }

    /// The context of the value, from the engine's answer to a query for
    /// the context of its type. Every value lives in a context.
    pub fn get_context(&self, answer: usize) -> (context: Context)
        requires
            answer != 0,
        ensures
            context@ == answer,
    {
        Context::from_raw(answer).unwrap()
    }
}

/// A `Value` that is a parameter of a function.
#[derive(Clone, Copy, Debug, PartialEq, Eq, Structural)]
pub struct Arg {
    value: Value,
}

impl View for Arg {
    type V = usize;

    closed spec fn view(&self) -> usize {
        self.value@
    }
}

impl Deref for Arg {
    type Target = Value;

    /// The parameter as a plain value: the same object.
    fn deref(&self) -> (value: &Value)
        ensures
            value@ == self@,
    {
        &self.value
    }
}

impl Arg {
    /// The parameter as a plain value: the same object.
    pub fn as_value(&self) -> (value: Value)
        ensures
            value@ == self@,
    {
        self.value
    }

    /// The call that adds `attr` to the attributes of the parameter.
    pub fn add_attribute(&self, attr: Attribute) -> (call: Call)
        ensures
            call@ == (CallView::AddAttribute { arg: self@, attrs: AttributeSet::single(attr) }),
    {
        Call::AddAttribute { arg: self.value.handle(), attrs: AttributeSet::from(attr) }
    }

    /// The one call that adds all of `attrs` to the attributes of the
    /// parameter: their union is taken here, and the engine sees no state in
    /// between.
    pub fn add_attributes(&self, attrs: &[Attribute]) -> (call: Call)
        ensures
            call@ == (CallView::AddAttribute { arg: self@, attrs: AttributeSet::of(attrs@) }),
    {
        Call::AddAttribute { arg: self.value.handle(), attrs: AttributeSet::union_of(attrs) }
    }

    /// Whether the parameter has `attr`, where `current` is the attribute
    /// word that the engine reports for the parameter: every bit that the
    /// attribute owns is set in it.
    pub fn has_attribute(&self, attr: Attribute, current: AttributeSet) -> (has: bool)
        ensures
            has == current.has(attr),
    {
        current.contains(AttributeSet::from(attr))
    }

    /// The call that removes `attr` from the attributes of the parameter.
    pub fn remove_attribute(&self, attr: Attribute) -> (call: Call)
        ensures
            call@ == (CallView::RemoveAttribute { arg: self@, attrs: AttributeSet::single(attr) }),
    {
        Call::RemoveAttribute { arg: self.value.handle(), attrs: AttributeSet::from(attr) }
    }
}

/// A position of a function that is known to hold a parameter: what
/// `Function::index` gives, and the only way to an `Arg`.
#[derive(Clone, Copy, Debug, PartialEq, Eq, Structural)]
pub struct ParamLookup {
    function: Function,
    index: c_uint,
}

impl ParamLookup {
    /// The address of the function.
    pub closed spec fn function(self) -> usize {
        self.function@
    }

    /// The position, counted from zero.
    pub closed spec fn position(self) -> nat {
        self.index as nat
    }

    /// The call that asks the engine for the parameter.
    pub fn call(&self) -> (call: Call)
        ensures
            call@ == (CallView::GetParam {
                function: self.function(),
                index: self.position() as c_uint,
            }),
    {
        Call::GetParam { function: self.function.handle(), index: self.index }
    }

    /// The parameter, from the engine's answer to `call()`. The engine has a
    /// parameter at every position below the count it gave.
    pub fn resolve(self, answer: usize) -> (arg: Arg)
        requires
            answer != 0,
        ensures
            arg@ == answer,
    {
        Arg { value: Value::from_raw(answer).unwrap() }
    }
}

/// A `Value` that is a function.
#[derive(Clone, Copy, Debug, PartialEq, Eq, Structural)]
pub struct Function {
    value: Value,
}

impl View for Function {
    type V = usize;

    closed spec fn view(&self) -> usize {
        self.value@
    }
}

impl Deref for Function {
    type Target = Value;

    /// The function as a plain value: the same object.
    fn deref(&self) -> (value: &Value)
        ensures
            value@ == self@,
    {
        &self.value
    }
}

impl Function {
    /// The function at the address `raw`, or `None` for the null address.
    pub fn from_raw(raw: usize) -> (function: Option<Function>)
        ensures
            function is None <==> raw == 0,
            function matches Some(f) ==> f@ == raw,
    {
        match Value::from_raw(raw) {
            Some(value) => Some(Function { value }),
            None => None,
        }
    }

    /// The function as a plain value: the same object.
    pub fn as_value(&self) -> (value: Value)
        ensures
            value@ == self@,
    {
        self.value
    }

    /// The parameter at `index`, counted from zero, where `param_count` is
    /// the number of parameters that the engine reports for the function
    /// now. An index that is not below that number is a mistake of the
    /// caller, and is not accepted.
    pub fn index(&self, index: usize, param_count: c_uint) -> (lookup: ParamLookup)
        requires
            index < param_count,
        ensures
            lookup.function() == self@,
            lookup.position() == index,
    {
        ParamLookup { function: *self, index: index as c_uint }
    }

    /// The parameter at `index` as `index` gives it, or `None` where `index`
    /// is not below `param_count`: the same test, made at run time, for a
    /// caller that has to fail by its own means.
    pub fn get(&self, index: usize, param_count: c_uint) -> (lookup: Option<ParamLookup>)
        ensures
            lookup is Some <==> index < param_count,
            lookup matches Some(l) ==> l.function() == self@ && l.position() == index,
    {
        if index < param_count as usize {
            Some(self.index(index, param_count))
        } else {
            None
        }
    }

    /// The call that makes an empty block named `name` and puts it after the
    /// last block of the function, in `context`, the context of the
    /// function. A name with a zero byte in it cannot be handed to the
    /// engine.
    pub fn append(&self, context: &Context, name: &str) -> (call: Call)
        requires
            is_c_text(name.spec_bytes()),
        ensures
            call@ == (CallView::AppendBasicBlock {
                context: context@,
                function: self@,
                name: c_string(name.spec_bytes()),
            }),
    {
        Call::AppendBasicBlock {
            context: context.handle(),
            function: self.value.handle(),
            name: to_c_string(name),
        }
    }

    /// The first block of the function, from the engine's answer to a query
    /// for it: none where the answer is the null address, which the engine
    /// gives for a function without blocks.
    pub fn get_entry(&self, answer: usize) -> (entry: Option<BasicBlock>)
        ensures
            entry is None <==> answer == 0,
            entry matches Some(block) ==> block@ == answer,
    {
        BasicBlock::from_raw(answer)
    }

    /// The name of the function, from the engine's answer to a query for it.
    /// A function always has a name, so the answer is a buffer.
    pub fn get_name(&self, answer: NameBuffer) -> (name: String)
        requires
            answer is Text,
        ensures
            answer == NameBuffer::Text(name),
    {
        self.value.get_name(answer).unwrap()
    }

    /// The signature of the function, from the engine's answer to a query
    /// for the type of the function: the same object as the type, known to
    /// be the type of a function.
    pub fn get_signature(&self, answer: usize) -> (signature: FunctionType)
        requires
            answer != 0,
        ensures
            signature@ == answer,
    {
        FunctionType::from_raw(answer).unwrap()
    }

    /// The call that adds `attr` to the attributes of the function.
    pub fn add_attribute(&self, attr: Attribute) -> (call: Call)
        ensures
            call@ == (CallView::AddFunctionAttr {
                function: self@,
                attrs: AttributeSet::single(attr),
            }),
    {
        Call::AddFunctionAttr { function: self.value.handle(), attrs: AttributeSet::from(attr) }
    }

    /// The one call that adds all of `attrs` to the attributes of the
    /// function: their union is taken here, and the engine sees no state in
    /// between.
    pub fn add_attributes(&self, attrs: &[Attribute]) -> (call: Call)
        ensures
            call@ == (CallView::AddFunctionAttr {
                function: self@,
                attrs: AttributeSet::of(attrs@),
            }),
    {
        Call::AddFunctionAttr {
            function: self.value.handle(),
            attrs: AttributeSet::union_of(attrs),
        }
    }

    /// Whether the function has `attr`, where `current` is the attribute
    /// word that the engine reports for the function: every bit that the
    /// attribute owns is set in it.
    pub fn has_attribute(&self, attr: Attribute, current: AttributeSet) -> (has: bool)
        ensures
            has == current.has(attr),
    {
        current.contains(AttributeSet::from(attr))
    }

    /// The call that removes `attr` from the attributes of the function.
    pub fn remove_attribute(&self, attr: Attribute) -> (call: Call)
        ensures
            call@ == (CallView::RemoveFunctionAttr {
                function: self@,
                attrs: AttributeSet::single(attr),
            }),
    {
        Call::RemoveFunctionAttr {
            function: self.value.handle(),
            attrs: AttributeSet::from(attr),
        }
    }
}

/// Looking up one position of one function again gives the same lookup, and
/// so the same call on the engine, whatever numbers of parameters the engine
/// reported in between. Lookups of different positions, or in different
/// functions, differ.
pub proof fn lemma_lookup_is_stable(first: ParamLookup, second: ParamLookup)
    ensures
        first == second <==> first.function() == second.function() && first.position()
            == second.position(),
{
    lemma_same_address(first.function.value.handle, second.function.value.handle);
}

/// Values, parameters and functions are what their addresses are: two of
/// one kind at one address are equal.
pub proof fn lemma_same_object(a: Value, b: Value, p: Arg, q: Arg, f: Function, g: Function)
    ensures
        a@ == b@ <==> a == b,
        p@ == q@ <==> p == q,
        f@ == g@ <==> f == g,
{
    lemma_same_address(a.handle, b.handle);
    lemma_same_address(p.value.handle, q.value.handle);
    lemma_same_address(f.value.handle, g.value.handle);
}

} // verus!
