//! Type descriptors: scalar kinds, function signatures, and the promotion
//! rules that fix the kind of every instruction's result.
use vstd::prelude::*;

verus! {

/// The representation of a scalar value.
#[derive(Clone, Copy, Debug, PartialEq, Eq, Structural)]
pub enum Kind {
    Void,
    Int8,
    UInt8,
    Int16,
    UInt16,
    Int32,
    UInt32,
    Int64,
    UInt64,
    Float32,
    Float64,
    Ptr,
}

/// A platform's application binary interface.
#[derive(Clone, Copy, Debug, PartialEq, Eq, Structural)]
pub enum ABI {
    /// The C application binary interface.
    CDECL,
}

/// Hints attached to a call site.
#[derive(Clone, Copy, Debug, PartialEq, Eq, Structural)]
pub enum CallFlags {
    /// The callee never throws.
    JitCallNothrow,
    /// The callee never returns.
    JitCallNoReturn,
    /// The call is in tail position.
    JitCallTail,
}

impl CallFlags {
    pub open spec fn spec_bits(self) -> u32 {
        match self {
            CallFlags::JitCallNothrow => 1,
            CallFlags::JitCallNoReturn => 2,
            CallFlags::JitCallTail => 4,
        }
    }

    /// The bit that this flag sets in a call's flag word.
    pub fn bits(&self) -> (r: u32)
        ensures
            r == self.spec_bits(),
    {
        match self {
            CallFlags::JitCallNothrow => 1,
            CallFlags::JitCallNoReturn => 2,
            CallFlags::JitCallTail => 4,
        }
    }
}

pub open spec fn is_float(k: Kind) -> bool {
    k == Kind::Float32 || k == Kind::Float64
}

pub open spec fn is_wide(k: Kind) -> bool {
    k == Kind::Int64 || k == Kind::UInt64
}

/// Integer-like kinds: those that a branch condition or a jump-table index
/// may have.
pub open spec fn is_int_like(k: Kind) -> bool {
    k != Kind::Void && !is_float(k)
}

/// Integers narrower than 32 bits are widened to a signed 32-bit integer,
/// and a pointer is treated as an unsigned native-width integer.
pub open spec fn promote(k: Kind) -> Kind {
    match k {
        Kind::Int8 | Kind::UInt8 | Kind::Int16 | Kind::UInt16 | Kind::Int32 => Kind::Int32,
        Kind::Ptr => Kind::UInt64,
        _ => k,
    }
}

/// The kind in which two operands of a binary instruction are combined.
pub open spec fn common(a: Kind, b: Kind) -> Kind {
    let x = promote(a);
    let y = promote(b);
    if x == Kind::Float64 || y == Kind::Float64 {
        Kind::Float64
    } else if x == Kind::Float32 || y == Kind::Float32 {
        Kind::Float32
    } else if is_wide(x) || is_wide(y) {
        if x == Kind::UInt64 && (y == Kind::UInt64 || y == Kind::UInt32) || y == Kind::UInt64
            && x == Kind::UInt32 {
            Kind::UInt64
        } else {
            Kind::Int64
        }
    } else if x == Kind::UInt32 && y == Kind::UInt32 {
        Kind::UInt32
    } else {
        Kind::Int32
    }
}

/// The floating kind that a mathematical function of `k` yields.
pub open spec fn float_of(k: Kind) -> Kind {
    if is_float(k) {
        k
    } else {
        Kind::Float64
    }
}

pub fn promote_kind(k: Kind) -> (r: Kind)
    ensures
        r == promote(k),
{
    match k {
        Kind::Int8 | Kind::UInt8 | Kind::Int16 | Kind::UInt16 | Kind::Int32 => Kind::Int32,
        Kind::Ptr => Kind::UInt64,
        _ => k,
    }
}

pub fn common_kind(a: Kind, b: Kind) -> (r: Kind)
    ensures
        r == common(a, b),
{
    let x = promote_kind(a);
    let y = promote_kind(b);
    if x == Kind::Float64 || y == Kind::Float64 {
        Kind::Float64
    } else if x == Kind::Float32 || y == Kind::Float32 {
        Kind::Float32
    } else if x == Kind::Int64 || x == Kind::UInt64 || y == Kind::Int64 || y == Kind::UInt64 {
        if x == Kind::UInt64 && (y == Kind::UInt64 || y == Kind::UInt32) || y == Kind::UInt64
            && x == Kind::UInt32 {
            Kind::UInt64
        } else {
            Kind::Int64
        }
    } else if x == Kind::UInt32 && y == Kind::UInt32 {
        Kind::UInt32
    } else {
        Kind::Int32
    }
}

pub fn float_kind(k: Kind) -> (r: Kind)
    ensures
        r == float_of(k),
{
    if k == Kind::Float32 || k == Kind::Float64 {
        k
    } else {
        Kind::Float64
    }
}


/// The mathematical form of a signature: calling convention, parameter
/// kinds in order, and return kind.
pub struct SigModel {
    pub abi: ABI,
    pub params: Seq<Kind>,
    pub ret: Kind,
}

/// The mathematical form of a type descriptor.
pub enum TypeModel {
    Scalar(Kind),
    Sig(SigModel),
}

/// A function signature.
#[derive(Clone, Debug)]
pub struct Signature {
    pub abi: ABI,
    pub params: Vec<Kind>,
    pub ret: Kind,
}

impl View for Signature {
    type V = SigModel;

    open spec fn view(&self) -> SigModel {
        SigModel { abi: self.abi, params: self.params@, ret: self.ret }
    }
}

/// An immutable type descriptor: a scalar kind or a function signature.
#[derive(Clone, Debug)]
pub enum Type {
    Scalar(Kind),
    Sig(Signature),
}

impl View for Type {
    type V = TypeModel;

    open spec fn view(&self) -> TypeModel {
        match self {
            Type::Scalar(k) => TypeModel::Scalar(*k),
            Type::Sig(s) => TypeModel::Sig(s@),
        }
    }
}

/// The parameter kinds of a signature descriptor, none for a scalar one.
pub open spec fn params_of(t: TypeModel) -> Option<Seq<Kind>> {
    match t {
        TypeModel::Scalar(_) => None,
        TypeModel::Sig(s) => Some(s.params),
    }
}

/// The return kind of a signature descriptor, none for a scalar one.
pub open spec fn return_of(t: TypeModel) -> Option<Kind> {
    match t {
        TypeModel::Scalar(_) => None,
        TypeModel::Sig(s) => Some(s.ret),
    }
}

/// A copy of a sequence of kinds.
pub fn copy_kinds(v: &Vec<Kind>) -> (r: Vec<Kind>)
    ensures
        r@ == v@,
{
    let mut r: Vec<Kind> = Vec::new();
    let mut i: usize = 0;
    while i < v.len()
        invariant
            i <= v.len(),
            r@ == v@.subrange(0, i as int),
        decreases v.len() - i,
    {
        r.push(v[i]);
        i = i + 1;
        assert(r@ =~= v@.subrange(0, i as int));
    }
    assert(r@ =~= v@);
    r
}

/// Whether two sequences of kinds are equal, element by element.
pub fn same_kinds(a: &Vec<Kind>, b: &Vec<Kind>) -> (r: bool)
    ensures
        r == (a@ == b@),
{
    if a.len() != b.len() {
        return false;
    }
    let mut i: usize = 0;
    while i < a.len()
        invariant
            i <= a.len(),
            a.len() == b.len(),
            forall|j: int| 0 <= j < i ==> a@[j] == b@[j],
        decreases a.len() - i,
    {
        if a[i] != b[i] {
            return false;
        }
        i = i + 1;
    }
    assert(a@ =~= b@);
    true
}

impl Signature {
    /// Whether two signatures agree in calling convention, parameter kinds
    /// (in order) and return kind.
    pub fn same_as(&self, other: &Signature) -> (r: bool)
        ensures
            r == (self@ == other@),
    {
        let p = same_kinds(&self.params, &other.params);
        self.abi == other.abi && self.ret == other.ret && p
    }
}

impl Type {
    /// A scalar type descriptor.
    pub fn scalar(kind: Kind) -> (r: Type)
        ensures
            r@ == TypeModel::Scalar(kind),
    {
        Type::Scalar(kind)
    }

    /// A signature type descriptor.
    pub fn create_signature(abi: ABI, return_type: Kind, params: Vec<Kind>) -> (r: Type)
        ensures
            r@ == TypeModel::Sig(SigModel { abi, params: params@, ret: return_type }),
    {
        Type::Sig(Signature { abi, params, ret: return_type })
    }

    /// Whether this is a signature descriptor.
    pub fn is_signature(&self) -> (r: bool)
        ensures
            r == (self@ is Sig),
    {
        match self {
            Type::Scalar(_) => false,
            Type::Sig(_) => true,
        }
    }

    /// The parameter kinds of a signature, in order.
    pub fn get_params(&self) -> (r: Option<Vec<Kind>>)
        ensures
            match r {
                Some(v) => params_of(self@) == Some(v@),
                None => params_of(self@) is None,
            },
    {
        match self {
            Type::Scalar(_) => None,
            Type::Sig(s) => Some(copy_kinds(&s.params)),
        }
    }

    /// The return kind of a signature.
    pub fn get_return(&self) -> (r: Option<Kind>)
        ensures
            r == return_of(self@),
    {
        match self {
            Type::Scalar(_) => None,
            Type::Sig(s) => Some(s.ret),
        }
    }

    /// Structural equality of descriptors: scalars by kind, signatures by
    /// calling convention, parameter kinds in order, and return kind.
    pub fn same_as(&self, other: &Type) -> (r: bool)
        ensures
            r == (self@ == other@),
    {
        match (self, other) {
            (Type::Scalar(a), Type::Scalar(b)) => *a == *b,
            (Type::Sig(a), Type::Sig(b)) => a.same_as(b),
            _ => false,
        }
    }
}

/// Reading back the parameter and return kinds of a freshly built signature
/// yields exactly the kinds it was built from, in order.
pub proof fn lemma_signature_round_trip(abi: ABI, params: Seq<Kind>, ret: Kind)
    ensures
        params_of(TypeModel::Sig(SigModel { abi, params, ret })) == Some(params),
        return_of(TypeModel::Sig(SigModel { abi, params, ret })) == Some(ret),
{
}

} // verus!
