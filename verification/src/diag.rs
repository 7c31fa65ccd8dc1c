//! Diagnostics: structural errors that stop one declaration's
//! transformation, and the texts of the build-failing messages injected
//! for invalid configurations.

use vstd::prelude::*;
use vstd::string::*;

verus! {

/// A structural failure: the wrong kind of declaration was handed to a
/// generator.
#[derive(PartialEq, Eq, Debug)]
pub struct StructuralError {
    pub message: String,
}

/// The message of the error raised when the interface transformer is
/// given anything but a trait declaration.
pub open spec fn not_a_trait_text() -> Seq<char> {
    "Input must be a trait"@
}

/// The message of the error raised when the composition resolver is
/// given anything but a struct declaration.
pub open spec fn not_a_struct_text() -> Seq<char> {
    "Input must be a struct"@
}

/// The message every guard method fails the build with, for the named
/// interface.
pub open spec fn guard_message_of(trait_name: Seq<char>) -> Seq<char> {
    "The contract trait `"@ + trait_name
        + "` requires an extension for authentication but none were provided.E.g. #[derive_contract(Administratable, Upgradable(ext = AdministratableExt))]"@
}

/// The message the bare form fails the build with when the module
/// declared no default implementation.
pub open spec fn missing_default_message_of(trait_name: Seq<char>) -> Seq<char> {
    "The contract trait `"@ + trait_name
        + "` does not provide default implementation. One should be passed, e.g. `#[derive_contract(Administratable(default = MyAdmin))"@
}

pub fn not_a_trait_error() -> (e: StructuralError)
    ensures
        e.message@ == not_a_trait_text(),
{
    StructuralError { message: "Input must be a trait".to_owned() }
}

pub fn not_a_struct_error() -> (e: StructuralError)
    ensures
        e.message@ == not_a_struct_text(),
{
    StructuralError { message: "Input must be a struct".to_owned() }
}

pub fn guard_message(trait_name: &String) -> (r: String)
    ensures
        r@ == guard_message_of(trait_name@),
{
    let head: String = "The contract trait `".to_owned();
    let with_name = head.concat(trait_name.as_str());
    with_name.concat(
        "` requires an extension for authentication but none were provided.E.g. #[derive_contract(Administratable, Upgradable(ext = AdministratableExt))]",
    )
}

pub fn missing_default_message(trait_name: &String) -> (r: String)
    ensures
        r@ == missing_default_message_of(trait_name@),
{
    let head: String = "The contract trait `".to_owned();
    let with_name = head.concat(trait_name.as_str());
    with_name.concat(
        "` does not provide default implementation. One should be passed, e.g. `#[derive_contract(Administratable(default = MyAdmin))",
    )
}

} // verus!
