use vstd::prelude::*;

verus! {

/// The value types that may cross the host/guest boundary.
#[derive(Clone, Copy, Debug, PartialEq, Eq, Structural)]
pub enum ValType {
    Bool,
    S32,
    S64,
    U32,
    U64,
    F32,
    F64,
    Str,
}

/// A value crossing the boundary. Floating-point values are carried as their
/// IEEE-754 bit patterns, so the boundary logic never computes on them.
#[derive(Debug, PartialEq)]
pub enum Value {
    Bool(bool),
    S32(i32),
    S64(i64),
    U32(u32),
    U64(u64),
    F32(u32),
    F64(u64),
    Str(String),
}

/// The type of a value.
pub open spec fn type_of(v: Value) -> ValType {
    match v {
        Value::Bool(_) => ValType::Bool,
        Value::S32(_) => ValType::S32,
        Value::S64(_) => ValType::S64,
        Value::U32(_) => ValType::U32,
        Value::U64(_) => ValType::U64,
        Value::F32(_) => ValType::F32,
        Value::F64(_) => ValType::F64,
        Value::Str(_) => ValType::Str,
    }
}

impl Value {
    /// The type of this value.
    pub fn val_type(&self) -> (r: ValType)
        ensures
            r == type_of(*self),
    {
        match self {
            Value::Bool(_) => ValType::Bool,
            Value::S32(_) => ValType::S32,
            Value::S64(_) => ValType::S64,
            Value::U32(_) => ValType::U32,
            Value::U64(_) => ValType::U64,
            Value::F32(_) => ValType::F32,
            Value::F64(_) => ValType::F64,
            Value::Str(_) => ValType::Str,
        }
    }
}

/// The signature of one operation: its name, ordered parameter types, result
/// type (`None` for no result) and whether it declares an explicit error channel.
pub struct Signature {
    pub name: String,
    pub params: Vec<ValType>,
    pub result: Option<ValType>,
    pub fallible: bool,
}

/// The mathematical view of a signature.
pub struct SignatureView {
    pub name: Seq<char>,
    pub params: Seq<ValType>,
    pub result: Option<ValType>,
    pub fallible: bool,
}

impl View for Signature {
    type V = SignatureView;

    open spec fn view(&self) -> SignatureView {
        SignatureView {
            name: self.name@,
            params: self.params@,
            result: self.result,
            fallible: self.fallible,
        }
    }
}

/// Arguments match parameters exactly: same count and, position by position,
/// the same type.
pub open spec fn args_match(args: Seq<Value>, params: Seq<ValType>) -> bool {
    &&& args.len() == params.len()
    &&& forall|i: int| 0 <= i < args.len() ==> type_of(#[trigger] args[i]) == params[i]
}

/// Whether `args` match `params` exactly, in count and in types.
pub fn check_args(args: &Vec<Value>, params: &Vec<ValType>) -> (r: bool)
    ensures
        r == args_match(args@, params@),
{
    if args.len() != params.len() {
        return false;
    }
    let mut i: usize = 0;
    while i < args.len()
        invariant
            args@.len() == params@.len(),
            i <= args@.len(),
            forall|j: int| 0 <= j < i ==> type_of(#[trigger] args@[j]) == params@[j],
        decreases args@.len() - i,
    {
        if args[i].val_type() != params[i] {
            return false;
        }
        i = i + 1;
    }
    true
}

/// Whether two optional result types are equal.
pub fn same_result(a: &Option<ValType>, b: &Option<ValType>) -> (r: bool)
    ensures
        r == (*a == *b),
{
    match (a, b) {
        (None, None) => true,
        (Some(x), Some(y)) => *x == *y,
        _ => false,
    }
}

/// Whether two parameter lists are identical.
pub fn same_params(a: &Vec<ValType>, b: &Vec<ValType>) -> (r: bool)
    ensures
        r == (a@ == b@),
{
    if a.len() != b.len() {
        return false;
    }
    let mut i: usize = 0;
    while i < a.len()
        invariant
            a@.len() == b@.len(),
            i <= a@.len(),
            forall|j: int| 0 <= j < i ==> a@[j] == b@[j],
        decreases a@.len() - i,
    {
        if a[i] != b[i] {
            return false;
        }
        i = i + 1;
    }
    assert(a@ =~= b@);
    true
}

impl Signature {
    /// Whether two signatures are identical in name, parameters, result and
    /// error channel.
    pub fn same_as(&self, other: &Signature) -> (r: bool)
        ensures
            r == (self@ == other@),
    {
        self.name == other.name && same_params(&self.params, &other.params)
            && same_result(&self.result, &other.result) && self.fallible == other.fallible
    }
}

} // verus!
