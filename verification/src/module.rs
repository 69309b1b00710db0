//! The module model: functions in an arena, addressed by their index.

use vstd::prelude::*;

verus! {

/// The opcode of the `unreachable` instruction.
pub const UNREACHABLE: u8 = 0x00;

/// What a reference may point to.
#[derive(Clone, Copy, Debug, PartialEq, Eq, Structural)]
pub enum HeapType {
    Func,
    Extern,
    Any,
    /// The bottom of the `any` hierarchy, written `none` in the text format.
    Bottom,
    NoExtern,
    NoFunc,
    /// Written `eq` in the text format.
    Equatable,
    Struct,
    Array,
    I31,
    Exn,
    NoExn,
    /// A defined type or one of its subtypes, by the type's index.
    Concrete(u32),
    /// A defined type and none of its subtypes, by the type's index.
    Exact(u32),
}

/// A reference type.
#[derive(Clone, Copy, Debug, PartialEq, Eq, Structural)]
pub struct RefType {
    pub nullable: bool,
    pub heap_type: HeapType,
}

/// A WebAssembly value type.
#[derive(Clone, Copy, Debug, PartialEq, Eq, Structural)]
pub enum ValType {
    I32,
    I64,
    F32,
    F64,
    V128,
    Ref(RefType),
}

impl RefType {
    /// `funcref`.
    pub fn funcref() -> (r: RefType)
        ensures
            r == (RefType { nullable: true, heap_type: HeapType::Func }),
    {
        RefType { nullable: true, heap_type: HeapType::Func }
    }

    /// `externref`.
    pub fn externref() -> (r: RefType)
        ensures
            r == (RefType { nullable: true, heap_type: HeapType::Extern }),
    {
        RefType { nullable: true, heap_type: HeapType::Extern }
    }
}

/// The declared type of a function.
#[derive(Clone, Debug, PartialEq, Eq)]
pub struct Signature {
    pub params: Vec<ValType>,
    pub results: Vec<ValType>,
}

/// The body of a local function: its local declarations, each a count and
/// a type, and its encoded instruction sequence without the closing `end`.
#[derive(Clone, Debug, PartialEq, Eq)]
pub struct Body {
    pub locals: Vec<(u32, ValType)>,
    pub code: Vec<u8>,
}

/// Where a function's body lives.
#[derive(Clone, Debug, PartialEq, Eq)]
pub enum FunctionKind {
    /// Defined in another module; there is no body here.
    Import,
    /// Defined in this module.
    Local(Body),
}

/// One function of a module. Its index is its position in the module.
#[derive(Clone, Debug, PartialEq, Eq)]
pub struct Function {
    /// The name from the debug name section, if there is one.
    pub name: Option<String>,
    pub signature: Signature,
    pub kind: FunctionKind,
}

/// A module, as far as snipping is concerned: its function index space.
#[derive(Clone, Debug, PartialEq, Eq)]
pub struct Module {
    pub funcs: Vec<Function>,
}

/// What a `Signature` is.
pub struct SignatureView {
    pub params: Seq<ValType>,
    pub results: Seq<ValType>,
}

/// What a `Body` is.
pub struct BodyView {
    pub locals: Seq<(u32, ValType)>,
    pub code: Seq<u8>,
}

/// What a `Function` is. An imported function has no body.
pub struct FunctionView {
    pub name: Option<Seq<char>>,
    pub signature: SignatureView,
    pub body: Option<BodyView>,
}

impl View for Signature {
    type V = SignatureView;

    open spec fn view(&self) -> SignatureView {
        SignatureView { params: self.params@, results: self.results@ }
    }
}

impl View for Body {
    type V = BodyView;

    open spec fn view(&self) -> BodyView {
        BodyView { locals: self.locals@, code: self.code@ }
    }
}

impl View for Function {
    type V = FunctionView;

    open spec fn view(&self) -> FunctionView {
        FunctionView {
            name: match self.name {
                Some(s) => Some(s@),
                None => None,
            },
            signature: self.signature@,
            body: match self.kind {
                FunctionKind::Import => None,
                FunctionKind::Local(b) => Some(b@),
            },
        }
    }
}

impl View for Module {
    type V = Seq<FunctionView>;

    open spec fn view(&self) -> Seq<FunctionView> {
        Seq::new(self.funcs@.len(), |i: int| self.funcs@[i]@)
    }
}

/// The body that a snipped function has: no locals, one `unreachable`.
pub open spec fn snipped_body() -> BodyView {
    BodyView { locals: Seq::empty(), code: seq![UNREACHABLE] }
}

/// A function after snipping: the same name and signature, the new body.
pub open spec fn snipped(f: FunctionView) -> FunctionView {
    FunctionView { name: f.name, signature: f.signature, body: Some(snipped_body()) }
}

impl FunctionView {
    /// Whether the function is defined in the module.
    pub open spec fn is_local(self) -> bool {
        self.body is Some
    }
}

impl Body {
    /// The body of a snipped function.
    pub fn unreachable() -> (b: Body)
        ensures
            b@ == snipped_body(),
    {
        let mut code: Vec<u8> = Vec::new();
        code.push(UNREACHABLE);
        let b = Body { locals: Vec::new(), code };
        assert(b@.code =~= seq![UNREACHABLE]);
        assert(b@.locals =~= Seq::empty());
        b
    }

    /// Whether this is the body of a snipped function.
    pub fn is_unreachable(&self) -> (b: bool)
        ensures
            b == (self@ == snipped_body()),
    {
        let b = self.locals.len() == 0 && self.code.len() == 1 && self.code[0] == UNREACHABLE;
        proof {
            if b {
                assert(self@.code =~= seq![UNREACHABLE]);
                assert(self@.locals =~= Seq::empty());
            } else if self@ == snipped_body() {
                assert(self@.code.len() == 1);
                assert(self@.locals.len() == 0);
            }
        }
        b
    }
}

impl Function {
    /// Whether the function is defined in the module.
    pub fn is_local(&self) -> (b: bool)
        ensures
            b == self@.is_local(),
    {
        match &self.kind {
            FunctionKind::Import => false,
            FunctionKind::Local(_) => true,
        }
    }

    /// Replaces the body of a local function by a single `unreachable`.
    pub fn snip(&mut self)
        requires
            old(self)@.is_local(),
        ensures
            final(self)@ == snipped(old(self)@),
    {
        self.kind = FunctionKind::Local(Body::unreachable());
    }
}

impl Module {
    /// The number of functions, imported and local.
    pub fn len(&self) -> (n: usize)
        ensures
            n == self@.len(),
    {
        self.funcs.len()
    }
}

} // verus!
