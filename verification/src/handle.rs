//! Handles: the addresses of the objects that the engine owns.
//!
//! This layer never looks behind a handle. It takes one from the engine,
//! keeps it under the type of what it refers to, and gives it back with the
//! next call. The engine answers with a null address where there is no
//! object, and a handle is never null.

use vstd::prelude::*;

verus! {

/// The address of a live object of the engine. Two handles refer to the
/// same object exactly when they are equal.
#[derive(Clone, Copy, Debug, PartialEq, Eq, Structural)]
pub struct Handle {
    raw: usize,
}

impl Handle {
    #[verifier::type_invariant]
    spec fn is_live(self) -> bool {
        self.raw != 0
    }

    /// The address.
    pub closed spec fn addr(self) -> usize {
        self.raw
    }

    /// The handle for the address `raw`, or `None` for the null address.
    pub fn new(raw: usize) -> (handle: Option<Handle>)
        ensures
            handle is None <==> raw == 0,
            handle matches Some(h) ==> h.addr() == raw,
    {
        if raw == 0 {
            None
        } else {
            Some(Handle { raw })
        }
    }

    /// The address, to hand back to the engine.
    pub fn get(self) -> (raw: usize)
        ensures
            raw == self.addr(),
            raw != 0,
    {
        proof {
            use_type_invariant(self);
        }
        self.raw
    }
}

/// Two handles at one address are the same handle.
pub proof fn lemma_same_address(a: Handle, b: Handle)
    ensures
        a.addr() == b.addr() <==> a == b,
{
}

/// The scope in which the engine creates its objects and keeps them alive.
#[derive(Clone, Copy, Debug, PartialEq, Eq, Structural)]
pub struct Context {
    handle: Handle,
}

impl View for Context {
    type V = usize;

    closed spec fn view(&self) -> usize {
        self.handle.addr()
    }
}

impl Context {
    /// The context at the address `raw`, or `None` for the null address.
    pub fn from_raw(raw: usize) -> (context: Option<Context>)
        ensures
            context is None <==> raw == 0,
            context matches Some(c) ==> c@ == raw,
    {
        match Handle::new(raw) {
            Some(handle) => Some(Context { handle }),
            None => None,
        }
    }

    /// The address of the context.
    pub fn handle(&self) -> (raw: usize)
        ensures
            raw == self@,
            raw != 0,
    {
        self.handle.get()
    }
}

/// The static type of a value.
#[derive(Clone, Copy, Debug, PartialEq, Eq, Structural)]
pub struct Type {
    handle: Handle,
}

impl View for Type {
    type V = usize;

    closed spec fn view(&self) -> usize {
        self.handle.addr()
    }
}

impl Type {
    /// The type at the address `raw`, or `None` for the null address.
    pub fn from_raw(raw: usize) -> (ty: Option<Type>)
        ensures
            ty is None <==> raw == 0,
            ty matches Some(t) ==> t@ == raw,
    {
        match Handle::new(raw) {
            Some(handle) => Some(Type { handle }),
            None => None,
        }
    }

    /// The address of the type.
    pub fn handle(&self) -> (raw: usize)
        ensures
            raw == self@,
            raw != 0,
    {
        self.handle.get()
    }
}

/// The type of a function: a `Type` known to be a signature.
#[derive(Clone, Copy, Debug, PartialEq, Eq, Structural)]
pub struct FunctionType {
    ty: Type,
}

impl View for FunctionType {
    type V = usize;

    closed spec fn view(&self) -> usize {
        self.ty@
    }
}

impl FunctionType {
    /// The signature at the address `raw`, or `None` for the null address.
    pub fn from_raw(raw: usize) -> (signature: Option<FunctionType>)
        ensures
            signature is None <==> raw == 0,
            signature matches Some(s) ==> s@ == raw,
    {
        match Type::from_raw(raw) {
            Some(ty) => Some(FunctionType { ty }),
            None => None,
        }
    }

    /// The address of the signature.
    pub fn handle(&self) -> (raw: usize)
        ensures
            raw == self@,
            raw != 0,
    {
        self.ty.handle()
    }

    /// The signature as a plain type: the same object, without what is
    /// known of it.
    pub fn as_type(&self) -> (ty: Type)
        ensures
            ty@ == self@,
    {
        self.ty
    }
}

/// A basic block of a function.
#[derive(Clone, Copy, Debug, PartialEq, Eq, Structural)]
pub struct BasicBlock {
    handle: Handle,
}

impl View for BasicBlock {
    type V = usize;

    closed spec fn view(&self) -> usize {
        self.handle.addr()
    }
}

impl BasicBlock {
    /// The block at the address `raw`, or `None` for the null address.
    pub fn from_raw(raw: usize) -> (block: Option<BasicBlock>)
        ensures
            block is None <==> raw == 0,
            block matches Some(b) ==> b@ == raw,
    {
        match Handle::new(raw) {
            Some(handle) => Some(BasicBlock { handle }),
            None => None,
        }
    }

    /// The address of the block.
    pub fn handle(&self) -> (raw: usize)
        ensures
            raw == self@,
            raw != 0,
    {
        self.handle.get()
    }
}

/// Contexts, types, signatures and blocks are what their addresses are: two
/// of one kind at one address are equal.
pub proof fn lemma_same_referent(
    c: Context,
    d: Context,
    s: Type,
    t: Type,
    f: FunctionType,
    g: FunctionType,
    a: BasicBlock,
    b: BasicBlock,
)
    ensures
        c@ == d@ <==> c == d,
        s@ == t@ <==> s == t,
        f@ == g@ <==> f == g,
        a@ == b@ <==> a == b,
{
}

} // verus!
