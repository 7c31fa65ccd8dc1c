//! A plain description of a contract's public surface, as exported for
//! tooling: functions, structs and unions over a small tagged type
//! language. These records are what the export step serializes; the
//! mapping from the host's own descriptors to these records is a
//! straightforward recursive conversion performed at the boundary.

use vstd::prelude::*;

verus! {

/// One field of an exported struct description.
#[derive(Debug, Hash, PartialEq, Eq, PartialOrd, Ord)]
pub struct StructField {
    pub name: String,
    pub value: Type,
}

/// One input of an exported function description.
#[derive(Debug, Hash, PartialEq, Eq, PartialOrd, Ord)]
pub struct FunctionInput {
    pub name: String,
    pub value: Type,
}

/// One case of an exported union description.
#[derive(Debug, Hash, PartialEq, Eq, PartialOrd, Ord)]
pub struct UnionCase {
    pub name: String,
    pub values: Vec<Type>,
}

/// The exported type language.
#[derive(Debug, Hash, PartialEq, Eq, PartialOrd, Ord)]
pub enum Type {
    Val,
    U64,
    I64,
    U32,
    I32,
    Bool,
    Symbol,
    Bitset,
    Status,
    Bytes,
    BigInt,
    MapOf { key: Box<Type>, value: Box<Type> },
    OptionOf { value: Box<Type> },
    ResultOf { value: Box<Type>, error: Box<Type> },
    SetOf { element: Box<Type> },
    VecOf { element: Box<Type> },
    BytesN { n: u32 },
    Tuple { elements: Vec<Type> },
    Custom { name: String },
}

/// One exported entry: a function, struct or union description.
#[derive(Debug, Hash, PartialEq, Eq, PartialOrd, Ord)]
pub enum Entry {
    Function { name: String, inputs: Vec<FunctionInput>, outputs: Vec<Type> },
    Struct { name: String, fields: Vec<StructField> },
    Union { name: String, cases: Vec<UnionCase> },
}

} // verus!
