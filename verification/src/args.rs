//! The configuration schema: the options recognized on a module
//! declaration and on a target's wiring declaration.

use vstd::prelude::*;

verus! {

/// Options of one module declaration: an optional default
/// implementation, whether an extension is structurally required, and
/// whether the module is itself an extension.
#[derive(Default, PartialEq, Eq, Debug)]
pub struct MyTraitMacroArgs {
    pub default: Option<String>,
    pub ext_required: bool,
    pub is_ext: bool,
}

/// Options of one module reference inside a target declaration: the
/// ordered extension list and an optional explicit default.
#[derive(PartialEq, Eq, Debug)]
pub struct InnerArgs {
    pub exts: Vec<String>,
    pub default: Option<String>,
}

/// One entry of a target declaration: a module name with its options.
#[derive(PartialEq, Eq, Debug)]
pub struct ModuleConfig {
    pub module: String,
    pub args: InnerArgs,
}

/// The whole target declaration configuration, in declaration order.
#[derive(PartialEq, Eq, Debug)]
pub struct MyMacroArgs {
    pub args: Vec<ModuleConfig>,
}

} // verus!
