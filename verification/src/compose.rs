//! The composition resolver: folds each module's ordered extension
//! list and optional explicit default into one nested composition
//! chain, and emits one instantiation call per module of a target
//! declaration.

use vstd::prelude::*;
use crate::args::{InnerArgs, ModuleConfig, MyMacroArgs};
use crate::ast::{ItemDecl, StructDecl};
use crate::diag::{not_a_struct_error, not_a_struct_text, StructuralError};
use crate::util::clone_attrs;

verus! {

/// A resolved composition chain: a nested type expression whose
/// innermost base is either an explicitly chosen implementation or a
/// module's own default, and whose wrappers are extensions applied
/// around it.
#[derive(PartialEq, Eq, Debug)]
pub enum ChainExpr {
    /// The named module's own default implementation, reached through
    /// its zero-argument instantiation form.
    ModuleDefault(String),
    /// An explicitly chosen base implementation.
    Base(String),
    /// One extension wrapped around the chain resolved so far.
    Wrap { ext: String, target: String, inner: Box<ChainExpr> },
}

/// One instantiation call emitted for a (target, module) pair.
#[derive(PartialEq, Eq, Debug)]
pub enum InstantiationCall {
    /// The bare form: the module wired with its own default, no chain
    /// built at all.
    Bare { module: String, target: String },
    /// The explicit form: the module wired with the resolved chain.
    Explicit { module: String, target: String, chain: ChainExpr },
}

/// The output of wiring one target: the target declaration, kept
/// unchanged, and one instantiation call per referenced module, in
/// declaration order.
#[derive(PartialEq, Eq, Debug)]
pub struct DerivedContract {
    pub target: StructDecl,
    pub calls: Vec<InstantiationCall>,
}

/// The result of expanding one target declaration: the wired contract,
/// or a build-failing diagnostic with its message.
#[derive(PartialEq, Eq, Debug)]
pub enum ContractExpansion {
    Derived(DerivedContract),
    Failed(String),
}

/// The base of a chain before any extension is applied: the explicit
/// default when one is given, else the module's own default through
/// its zero-argument form.
pub open spec fn chain_init(module: String, cfg: InnerArgs) -> ChainExpr {
    match cfg.default {
        Some(d) => ChainExpr::Base(d),
        None => ChainExpr::ModuleDefault(module),
    }
}

/// The strict left fold of the extension list around the base: the
/// first listed extension is innermost, each later one wraps the
/// result, so the last listed extension is outermost.
pub open spec fn chain_of(target: String, init: ChainExpr, exts: Seq<String>) -> ChainExpr
    decreases exts.len(),
{
    if exts.len() == 0 {
        init
    } else {
        ChainExpr::Wrap {
            ext: exts.last(),
            target: target,
            inner: Box::new(chain_of(target, init, exts.drop_last())),
        }
    }
}

/// Whether a module is wired by the bare fast path: nothing declared
/// beyond the module itself.
pub open spec fn bare_path(cfg: ModuleConfig) -> bool {
    cfg.args.exts@.len() == 0 && cfg.args.default is None
}

/// The instantiation call owed to one module of the target: the bare
/// form when the extension list and explicit default are both empty,
/// else the explicit form with the resolved chain.
pub open spec fn call_for(target: String, cfg: ModuleConfig, c: InstantiationCall) -> bool {
    if bare_path(cfg) {
        c == (InstantiationCall::Bare { module: cfg.module, target: target })
    } else {
        c == (InstantiationCall::Explicit {
            module: cfg.module,
            target: target,
            chain: chain_of(target, chain_init(cfg.module, cfg.args), cfg.args.exts@),
        })
    }
}

/// Everything the resolver guarantees about a wired target: the target
/// declaration unchanged, and the owed call for each module, in order.
pub open spec fn derived_contract_for(args: MyMacroArgs, s: StructDecl, d: DerivedContract) -> bool {
    &&& d.target.name == s.name
    &&& d.target.attrs@ == s.attrs@
    &&& d.calls@.len() == args.args@.len()
    &&& forall|j: int|
        0 <= j < d.calls@.len() ==> call_for(s.name, args.args@[j], #[trigger] d.calls@[j])
}

/// Folds one module's configuration into its composition chain.
fn resolve_chain(target: &String, cfg: &ModuleConfig) -> (c: ChainExpr)
    ensures
        c == chain_of(*target, chain_init(cfg.module, cfg.args), cfg.args.exts@),
{
    let mut acc = match &cfg.args.default {
        Some(d) => ChainExpr::Base(d.clone()),
        None => ChainExpr::ModuleDefault(cfg.module.clone()),
    };
    let mut i: usize = 0;
    while i < cfg.args.exts.len()
        invariant
            i <= cfg.args.exts@.len(),
            acc == chain_of(
                *target,
                chain_init(cfg.module, cfg.args),
                cfg.args.exts@.subrange(0, i as int),
            ),
        decreases cfg.args.exts@.len() - i,
    {
        acc = ChainExpr::Wrap {
            ext: cfg.args.exts[i].clone(),
            target: target.clone(),
            inner: Box::new(acc),
        };
        proof {
            assert(cfg.args.exts@.subrange(0, i as int + 1).drop_last() =~= cfg.args.exts@
                .subrange(0, i as int));
        }
        i += 1;
    }
    proof {
        assert(cfg.args.exts@.subrange(0, cfg.args.exts@.len() as int) =~= cfg.args.exts@);
    }
    acc
}

/// Wires one target declaration, or reports the structural error when
/// the declaration is not a struct.
pub fn derive_contract_inner(args: &MyMacroArgs, trait_impls: &ItemDecl) -> (r: Result<
    DerivedContract,
    StructuralError,
>)
    ensures
        (*trait_impls) matches ItemDecl::Struct(s) ==> (r matches Ok(d) && derived_contract_for(
            *args,
            s,
            d,
        )),
        !((*trait_impls) is Struct) ==> (r matches Err(e) && e.message@ == not_a_struct_text()),
{
    let strukt = match trait_impls {
        ItemDecl::Struct(s) => s,
        _ => {
            return Err(not_a_struct_error());
        },
    };
    let target_name = &strukt.name;

    let mut calls: Vec<InstantiationCall> = Vec::new();
    let mut i: usize = 0;
    while i < args.args.len()
        invariant
            i <= args.args@.len(),
            *target_name == strukt.name,
            calls@.len() == i,
            forall|j: int|
                0 <= j < i ==> call_for(strukt.name, args.args@[j], #[trigger] calls@[j]),
        decreases args.args@.len() - i,
    {
        let cfg = &args.args[i];
        if cfg.args.exts.len() == 0 && cfg.args.default.is_none() {
            calls.push(
                InstantiationCall::Bare {
                    module: cfg.module.clone(),
                    target: target_name.clone(),
                },
            );
        } else {
            let chain = resolve_chain(target_name, cfg);
            calls.push(
                InstantiationCall::Explicit {
                    module: cfg.module.clone(),
                    target: target_name.clone(),
                    chain,
                },
            );
        }
        i += 1;
    }

    let target = StructDecl { attrs: clone_attrs(&strukt.attrs), name: strukt.name.clone() };
    Ok(DerivedContract { target, calls })
}

/// Expands one target declaration; a structural error becomes a
/// build-failing diagnostic instead of aborting the pipeline.
pub fn derive_contract(args: &MyMacroArgs, trait_impls: &ItemDecl) -> (r: ContractExpansion)
    ensures
        (*trait_impls) matches ItemDecl::Struct(s) ==> (r matches ContractExpansion::Derived(d)
            && derived_contract_for(*args, s, d)),
        !((*trait_impls) is Struct) ==> (r matches ContractExpansion::Failed(m) && m@
            == not_a_struct_text()),
{
    match derive_contract_inner(args, trait_impls) {
        Ok(d) => ContractExpansion::Derived(d),
        Err(e) => ContractExpansion::Failed(e.message),
    }
}

} // verus!
