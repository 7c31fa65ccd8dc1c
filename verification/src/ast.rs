//! The input model: module interfaces as declared by their authors.
//!
//! Identifiers, type texts and documentation are carried as opaque
//! strings; the transformation only inspects the parts that are modeled
//! structurally (passing modes, attribute names, method shapes).

use vstd::prelude::*;

verus! {

/// How a parameter is passed: by value, by shared reference, or by
/// mutable reference.
#[derive(Clone, Copy, PartialEq, Eq, Debug)]
pub enum PassKind {
    Value,
    Ref,
    RefMut,
}

/// The type of one parameter: the passing mode together with the text of
/// the underlying (non-reference) type.
#[derive(PartialEq, Eq, Debug)]
pub struct ParamType {
    pub kind: PassKind,
    pub base: String,
}

/// One named parameter of a method.
#[derive(PartialEq, Eq, Debug)]
pub struct Param {
    pub name: String,
    pub ty: ParamType,
}

/// One attribute on a declaration: a name such as `doc` or `internal`,
/// and the text it carries, if any.
#[derive(PartialEq, Eq, Debug)]
pub struct Attr {
    pub name: String,
    pub value: String,
}

/// One method of a declared module interface.
///
/// `body` holds the token text of a hand-written default body, if the
/// author supplied one; an abstract method has `None`. A method whose
/// only sensible use is on an instance carries `has_receiver` and is
/// skipped by the transformation. The `internal` marker, when present
/// among `attrs`, makes the method composition-only.
#[derive(PartialEq, Eq, Debug)]
pub struct Method {
    pub attrs: Vec<Attr>,
    pub name: String,
    pub has_receiver: bool,
    pub params: Vec<Param>,
    pub ret: Option<String>,
    pub body: Option<String>,
}

/// A declared module interface: a named trait with its attributes and
/// ordered methods.
#[derive(PartialEq, Eq, Debug)]
pub struct TraitDecl {
    pub attrs: Vec<Attr>,
    pub name: String,
    pub methods: Vec<Method>,
}

/// A declared target: a named struct-like declaration that modules are
/// wired onto.
#[derive(PartialEq, Eq, Debug)]
pub struct StructDecl {
    pub attrs: Vec<Attr>,
    pub name: String,
}

/// Any declaration handed to a generator. Kinds other than the expected
/// one surface a structural error.
#[derive(PartialEq, Eq, Debug)]
pub enum ItemDecl {
    Trait(TraitDecl),
    Struct(StructDecl),
    Other,
}

impl Clone for ParamType {
    fn clone(&self) -> (res: Self)
        ensures
            res == *self,
    {
        ParamType { kind: self.kind, base: self.base.clone() }
    }
}

impl Clone for Param {
    fn clone(&self) -> (res: Self)
        ensures
            res == *self,
    {
        Param { name: self.name.clone(), ty: self.ty.clone() }
    }
}

impl Clone for Attr {
    fn clone(&self) -> (res: Self)
        ensures
            res == *self,
    {
        Attr { name: self.name.clone(), value: self.value.clone() }
    }
}

} // verus!
