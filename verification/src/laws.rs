//! The guarantees the generators give as a whole: determinism of both
//! expansions, the fold order of composition chains, the bare fast
//! path, guard enforcement, and boundary normalization.

use vstd::prelude::*;
use crate::args::{MyMacroArgs, MyTraitMacroArgs};
use crate::ast::{Method, StructDecl, TraitDecl};
use crate::compose::{
    call_for, chain_of, ChainExpr, DerivedContract, InstantiationCall, derived_contract_for,
};
use crate::args::ModuleConfig;
use crate::diag::{guard_message_of, missing_default_message_of};
use crate::output::{
    BoundImpl, CallArg, EntryPoint, ExtensionDecl, GeneratedInterface, GuardDecl, GuardMethod,
    InstantiationTemplate, MethodBody, TraitMethodOut, TransformedTrait,
};
use crate::transform::{
    default_ref_of, entry_point_for, generated_interface_for, guard_name_of, internal_marker,
    kept_methods, method_internal, public_methods, stripped_attrs, transformed_for,
};
use crate::util::has_attr_named;

verus! {

/// Whether two method bodies would emit the same tokens.
pub open spec fn same_body(a: MethodBody, b: MethodBody) -> bool {
    match (a, b) {
        (MethodBody::Forward { args: x }, MethodBody::Forward { args: y }) => x@ == y@,
        (MethodBody::Verbatim(x), MethodBody::Verbatim(y)) => x == y,
        _ => false,
    }
}

/// Whether two transformed-interface methods would emit the same
/// tokens.
pub open spec fn same_method_out(a: TraitMethodOut, b: TraitMethodOut) -> bool {
    &&& a.name == b.name
    &&& a.attrs@ == b.attrs@
    &&& a.params@ == b.params@
    &&& a.ret == b.ret
    &&& same_body(a.body, b.body)
}

/// Whether two boundary entry points would emit the same tokens.
pub open spec fn same_entry_point(a: EntryPoint, b: EntryPoint) -> bool {
    &&& a.trait_name == b.trait_name
    &&& a.name == b.name
    &&& a.attrs@ == b.attrs@
    &&& a.params@ == b.params@
    &&& a.ret == b.ret
    &&& a.call_args@ == b.call_args@
}

/// Whether two guard methods would emit the same tokens.
pub open spec fn same_guard_method(a: GuardMethod, b: GuardMethod) -> bool {
    &&& a.name == b.name
    &&& a.attrs@ == b.attrs@
    &&& a.params@ == b.params@
    &&& a.ret == b.ret
    &&& a.message@ == b.message@
}

/// Whether two transformed interfaces would emit the same tokens.
pub open spec fn same_transformed(a: TransformedTrait, b: TransformedTrait) -> bool {
    &&& a.name == b.name
    &&& a.attrs@ == b.attrs@
    &&& a.impl_bound == b.impl_bound
    &&& a.methods@.len() == b.methods@.len()
    &&& forall|j: int|
        0 <= j < a.methods@.len() ==> same_method_out(#[trigger] a.methods@[j], b.methods@[j])
}

/// Whether two guard artifacts would emit the same tokens.
pub open spec fn same_guard(a: Option<GuardDecl>, b: Option<GuardDecl>) -> bool {
    match (a, b) {
        (Some(x), Some(y)) => {
            &&& x.name@ == y.name@
            &&& x.trait_name == y.trait_name
            &&& x.methods@.len() == y.methods@.len()
            &&& forall|j: int|
                0 <= j < x.methods@.len() ==> same_guard_method(
                    #[trigger] x.methods@[j],
                    y.methods@[j],
                )
        },
        (None, None) => true,
        _ => false,
    }
}

/// Whether two extension artifacts would emit the same tokens.
pub open spec fn same_extension(a: Option<ExtensionDecl>, b: Option<ExtensionDecl>) -> bool {
    match (a, b) {
        (Some(x), Some(y)) => x.name@ == y.name@ && x.trait_name == y.trait_name,
        (None, None) => true,
        _ => false,
    }
}

/// Whether two optional diagnostics carry the same text.
pub open spec fn same_opt_message(a: Option<String>, b: Option<String>) -> bool {
    match (a, b) {
        (Some(x), Some(y)) => x@ == y@,
        (None, None) => true,
        _ => false,
    }
}

/// Whether two bare-form bindings would emit the same tokens.
pub open spec fn same_bound(a: BoundImpl, b: BoundImpl) -> bool {
    match (a, b) {
        (BoundImpl::Plain { path: x }, BoundImpl::Plain { path: y }) => x == y,
        (
            BoundImpl::Guarded { guard: gx, path: x },
            BoundImpl::Guarded { guard: gy, path: y },
        ) => gx@ == gy@ && x == y,
        _ => false,
    }
}

/// Whether two instantiation templates would emit the same tokens.
pub open spec fn same_template(a: InstantiationTemplate, b: InstantiationTemplate) -> bool {
    &&& a.name == b.name
    &&& a.docs@ == b.docs@
    &&& same_opt_message(a.bare.missing_default, b.bare.missing_default)
    &&& same_bound(a.bare.bound, b.bare.bound)
    &&& a.explicit.trait_name == b.explicit.trait_name
    &&& a.explicit.entry_points@.len() == b.explicit.entry_points@.len()
    &&& forall|j: int|
        0 <= j < a.explicit.entry_points@.len() ==> same_entry_point(
            #[trigger] a.explicit.entry_points@[j],
            b.explicit.entry_points@[j],
        )
    &&& a.zero.default_ref == b.zero.default_ref
}

/// Whether two whole expansions would emit the same tokens.
pub open spec fn same_expansion(a: GeneratedInterface, b: GeneratedInterface) -> bool {
    &&& same_transformed(a.transformed, b.transformed)
    &&& same_guard(a.guard, b.guard)
    &&& same_extension(a.extension, b.extension)
    &&& same_template(a.template, b.template)
}

/// Expansion determinism: any two outputs the transformer's guarantee
/// admits for one declaration and configuration emit the same tokens,
/// so repeated expansion of the same input cannot differ.
pub proof fn lemma_expansion_deterministic(
    args: MyTraitMacroArgs,
    t: TraitDecl,
    g1: GeneratedInterface,
    g2: GeneratedInterface,
)
    requires
        generated_interface_for(args, t, g1),
        generated_interface_for(args, t, g2),
    ensures
        same_expansion(g1, g2),
{
    let kept = kept_methods(t.methods@);
    assert forall|j: int| 0 <= j < g1.transformed.methods@.len() implies same_method_out(
        #[trigger] g1.transformed.methods@[j],
        g2.transformed.methods@[j],
    ) by {
        let m = kept[j];
        if method_internal(m) {
            match m.body {
                Some(b) => {},
                None => {},
            }
        }
    };
    let pubs = public_methods(t.methods@);
    assert forall|j: int| 0 <= j < g1.template.explicit.entry_points@.len() implies same_entry_point(
        #[trigger] g1.template.explicit.entry_points@[j],
        g2.template.explicit.entry_points@[j],
    ) by {};
    if args.ext_required {
        let gd1 = g1.guard->Some_0;
        let gd2 = g2.guard->Some_0;
        assert forall|j: int| 0 <= j < gd1.methods@.len() implies same_guard_method(
            #[trigger] gd1.methods@[j],
            gd2.methods@[j],
        ) by {};
    }
}

/// Wiring determinism: any two outputs the resolver's guarantee admits
/// for one target declaration and configuration hold the same calls.
pub proof fn lemma_wiring_deterministic(
    args: MyMacroArgs,
    s: StructDecl,
    d1: DerivedContract,
    d2: DerivedContract,
)
    requires
        derived_contract_for(args, s, d1),
        derived_contract_for(args, s, d2),
    ensures
        d1.calls@ == d2.calls@,
        d1.target.name == d2.target.name,
        d1.target.attrs@ == d2.target.attrs@,
{
    assert forall|j: int| 0 <= j < d1.calls@.len() implies d1.calls@[j] == d2.calls@[j] by {};
    assert(d1.calls@ =~= d2.calls@);
}

/// Fold order: for a base implementation and extensions [e1, e2]
/// declared in that order, the resolved chain is e2 wrapped around e1
/// wrapped around the base — first listed innermost, last listed
/// outermost.
pub proof fn lemma_fold_order(target: String, init: ChainExpr, e1: String, e2: String)
    ensures
        chain_of(target, init, seq![e1, e2]) == (ChainExpr::Wrap {
            ext: e2,
            target: target,
            inner: Box::new(
                ChainExpr::Wrap { ext: e1, target: target, inner: Box::new(init) },
            ),
        }),
{
    let exts = seq![e1, e2];
    assert(exts.drop_last() =~= seq![e1]);
    assert(seq![e1].drop_last() =~= Seq::<String>::empty());
    assert(chain_of(target, init, Seq::<String>::empty()) == init);
    assert(chain_of(target, init, seq![e1]) == (ChainExpr::Wrap {
        ext: e1,
        target: target,
        inner: Box::new(init),
    }));
}

/// Empty-composition fast path: a module with an empty extension list
/// and no explicit default is wired with the bare form directly
/// against the target, with no chain built.
pub proof fn lemma_empty_composition_fast_path(
    target: String,
    cfg: ModuleConfig,
    c: InstantiationCall,
)
    requires
        cfg.args.exts@.len() == 0,
        cfg.args.default is None,
        call_for(target, cfg, c),
    ensures
        c == (InstantiationCall::Bare { module: cfg.module, target: target }),
{
}

/// Guard enforcement: a requires-extension interface cannot be wired
/// silently. Without a default, the bare form embeds a build failure;
/// in any case the bare form binds the guard type, and every guard
/// method's body is the build-failing message, so the first use of any
/// Public method through the bare default path fails the build.
pub proof fn lemma_guard_enforcement(args: MyTraitMacroArgs, t: TraitDecl, g: GeneratedInterface)
    requires
        args.ext_required,
        generated_interface_for(args, t, g),
    ensures
        args.default is None ==> (g.template.bare.missing_default matches Some(m) && m@
            == missing_default_message_of(t.name@)),
        g.template.bare.bound matches BoundImpl::Guarded { guard, path } && guard@
            == guard_name_of(t.name@) && path == default_ref_of(args),
        g.guard matches Some(gd) && gd.methods@.len() == public_methods(t.methods@).len()
            && forall|j: int|
            0 <= j < gd.methods@.len() ==> (#[trigger] gd.methods@[j]).message@
                == guard_message_of(t.name@),
{
}

/// The internal marker is build configuration, not part of the
/// emitted contract: no method of the transformed interface carries
/// it.
pub proof fn lemma_internal_marker_never_emitted(t: TraitDecl, tr: TransformedTrait, j: int)
    requires
        transformed_for(t, tr),
        0 <= j < tr.methods@.len(),
    ensures
        !has_attr_named(tr.methods@[j].attrs@, internal_marker()),
{
    broadcast use Seq::lemma_filter_pred;

    let m = kept_methods(t.methods@)[j];
    if method_internal(m) {
        assert(tr.methods@[j].attrs@ == stripped_attrs(m.attrs@));
        assert forall|i: int| 0 <= i < stripped_attrs(m.attrs@).len() implies stripped_attrs(
            m.attrs@,
        )[i].name@ != internal_marker() by {}
    } else {
        assert(!has_attr_named(m.attrs@, internal_marker()));
    }
}

/// Boundary normalization: at a boundary entry point every parameter
/// is by value with the same underlying type and name; a by-reference
/// parameter is forwarded re-referenced, a by-mutable-reference
/// parameter re-referenced mutably, and a by-value parameter is passed
/// through unchanged.
pub proof fn lemma_boundary_normalization(trait_name: String, m: Method, ep: EntryPoint, j: int)
    requires
        entry_point_for(trait_name, m, ep),
        0 <= j < m.params@.len(),
    ensures
        ep.params@.len() == m.params@.len(),
        ep.call_args@.len() == m.params@.len(),
        ep.params@[j].name == m.params@[j].name,
        ep.params@[j].ty.kind is Value,
        ep.params@[j].ty.base == m.params@[j].ty.base,
        m.params@[j].ty.kind is Ref ==> ep.call_args@[j] == CallArg::Ref(m.params@[j].name),
        m.params@[j].ty.kind is RefMut ==> ep.call_args@[j] == CallArg::RefMut(
            m.params@[j].name,
        ),
        m.params@[j].ty.kind is Value ==> ep.call_args@[j] == CallArg::Plain(m.params@[j].name),
{
}

} // verus!
