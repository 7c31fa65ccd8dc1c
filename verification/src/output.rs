//! The output model: everything the interface transformer emits for one
//! module declaration.

use vstd::prelude::*;
use crate::ast::{Attr, Param};

verus! {

/// How a boundary entry point rebuilds one argument when forwarding to
/// the interface method: passed as is, re-referenced, or re-referenced
/// mutably. The payload is the parameter name.
#[derive(PartialEq, Eq, Debug)]
pub enum CallArg {
    Plain(String),
    Ref(String),
    RefMut(String),
}

/// The body of a method in the transformed interface.
#[derive(PartialEq, Eq, Debug)]
pub enum MethodBody {
    /// Forward every parameter, unchanged and in order, to the
    /// same-named method on the current-implementation slot.
    Forward { args: Vec<String> },
    /// A hand-written body, preserved verbatim as its token text.
    Verbatim(String),
}

/// One method of the transformed interface.
#[derive(PartialEq, Eq, Debug)]
pub struct TraitMethodOut {
    pub attrs: Vec<Attr>,
    pub name: String,
    pub params: Vec<Param>,
    pub ret: Option<String>,
    pub body: MethodBody,
}

/// A boundary entry point generated for one Public method: the same
/// name and attributes, a normalized parameter list, and the argument
/// expressions of the forwarding call into `trait_name` on the target.
#[derive(PartialEq, Eq, Debug)]
pub struct EntryPoint {
    pub attrs: Vec<Attr>,
    pub trait_name: String,
    pub name: String,
    pub params: Vec<Param>,
    pub ret: Option<String>,
    pub call_args: Vec<CallArg>,
}

/// The transformed interface: the declared trait, with an associated
/// current-implementation slot bound by the interface itself
/// (`impl_bound`) and with default bodies synthesized per method.
#[derive(PartialEq, Eq, Debug)]
pub struct TransformedTrait {
    pub attrs: Vec<Attr>,
    pub name: String,
    pub impl_bound: String,
    pub methods: Vec<TraitMethodOut>,
}

/// One method of the guard type: the original signature with a body
/// that unconditionally fails the build with `message`.
#[derive(PartialEq, Eq, Debug)]
pub struct GuardMethod {
    pub attrs: Vec<Attr>,
    pub name: String,
    pub params: Vec<Param>,
    pub ret: Option<String>,
    pub message: String,
}

/// The guard type, generated only for a requires-extension module: a
/// stand-in implementation whose every method fails the build, so that
/// binding the bare default without an extension cannot slip through.
#[derive(PartialEq, Eq, Debug)]
pub struct GuardDecl {
    pub name: String,
    pub trait_name: String,
    pub methods: Vec<GuardMethod>,
}

/// The extension template, generated only for an is-extension module: a
/// wrapper parametric over the capability it consults and the
/// implementation it wraps.
#[derive(PartialEq, Eq, Debug)]
pub struct ExtensionDecl {
    pub name: String,
    pub trait_name: String,
}

/// A reference to the implementation a bare or zero-argument
/// instantiation resolves to: a named default, or the target itself
/// when the module declared none.
#[derive(PartialEq, Eq, Debug)]
pub enum DefaultRef {
    Named(String),
    Target,
}

/// What the bare instantiation form binds: the default directly, or the
/// guard type wrapped around it for a requires-extension module.
#[derive(PartialEq, Eq, Debug)]
pub enum BoundImpl {
    Plain { path: DefaultRef },
    Guarded { guard: String, path: DefaultRef },
}

/// The bare instantiation form: bind the target using the module's own
/// default. `missing_default` carries the build-failing message emitted
/// when the module has no default to fall back on.
#[derive(PartialEq, Eq, Debug)]
pub struct BareForm {
    pub missing_default: Option<String>,
    pub bound: BoundImpl,
}

/// The explicit instantiation form: bind the current-implementation
/// slot and emit one boundary entry point per Public method.
#[derive(PartialEq, Eq, Debug)]
pub struct ExplicitForm {
    pub trait_name: String,
    pub entry_points: Vec<EntryPoint>,
}

/// The zero-argument instantiation form: a reference to the module's
/// default implementation, used when the module is the innermost base
/// of another module's chain.
#[derive(PartialEq, Eq, Debug)]
pub struct ZeroForm {
    pub default_ref: DefaultRef,
}

/// The instantiation template of a module: its three invocation forms,
/// under the module's name, with the module's documentation.
#[derive(PartialEq, Eq, Debug)]
pub struct InstantiationTemplate {
    pub name: String,
    pub docs: Vec<Attr>,
    pub bare: BareForm,
    pub explicit: ExplicitForm,
    pub zero: ZeroForm,
}

/// Everything generated for one module declaration.
#[derive(PartialEq, Eq, Debug)]
pub struct GeneratedInterface {
    pub transformed: TransformedTrait,
    pub guard: Option<GuardDecl>,
    pub extension: Option<ExtensionDecl>,
    pub template: InstantiationTemplate,
}

/// The result of expanding one module declaration: the generated
/// artifacts, or a build-failing diagnostic with its message.
#[derive(PartialEq, Eq, Debug)]
pub enum TraitExpansion {
    Generated(GeneratedInterface),
    Failed(String),
}

} // verus!
