//! The interface transformer: turns one declared module interface into
//! its transformed trait, boundary entry points, guard type, extension
//! template and instantiation template.

use vstd::prelude::*;
use vstd::string::*;
use crate::args::MyTraitMacroArgs;
use crate::ast::{Attr, ItemDecl, Method, Param, ParamType, PassKind, TraitDecl};
use crate::diag::{
    guard_message, guard_message_of, missing_default_message, missing_default_message_of,
    not_a_trait_error, not_a_trait_text, StructuralError,
};
use crate::output::{
    BareForm, BoundImpl, CallArg, DefaultRef, EntryPoint, ExplicitForm, ExtensionDecl,
    GeneratedInterface, GuardDecl, GuardMethod, InstantiationTemplate, MethodBody, TraitExpansion,
    TraitMethodOut, TransformedTrait, ZeroForm,
};
use crate::util::{clone_attrs, clone_opt_string, clone_params, has_attr, has_attr_named};

verus! {

/// The attribute name that makes a method composition-only.
pub open spec fn internal_marker() -> Seq<char> {
    "internal"@
}

/// The attribute name that carries documentation text.
pub open spec fn doc_marker() -> Seq<char> {
    "doc"@
}

/// A method the transformation generates code for: anything without a
/// receiver. Receiver-bearing methods are assumed hand-authored
/// elsewhere and skipped.
pub open spec fn method_kept(m: Method) -> bool {
    !m.has_receiver
}

/// Whether a method carries the `internal` marker.
pub open spec fn method_internal(m: Method) -> bool {
    has_attr_named(m.attrs@, internal_marker())
}

/// A Public method: generated, and not marked internal.
pub open spec fn method_public(m: Method) -> bool {
    method_kept(m) && !method_internal(m)
}

/// The methods the transformation generates, in order.
pub open spec fn kept_methods(ms: Seq<Method>) -> Seq<Method> {
    ms.filter(|m: Method| method_kept(m))
}

/// The Public methods, in order: these get boundary entry points, and
/// the guard type overrides exactly these.
pub open spec fn public_methods(ms: Seq<Method>) -> Seq<Method> {
    ms.filter(|m: Method| method_public(m))
}

/// The attributes that remain once the `internal` marker is stripped:
/// the marker is build configuration, not part of the emitted contract.
pub open spec fn stripped_attrs(attrs: Seq<Attr>) -> Seq<Attr> {
    attrs.filter(|a: Attr| a.name@ != internal_marker())
}

/// The documentation attributes, in order.
pub open spec fn doc_attrs_of(attrs: Seq<Attr>) -> Seq<Attr> {
    attrs.filter(|a: Attr| a.name@ == doc_marker())
}

/// The parameter names, in order: what a synthesized default body
/// forwards to the current-implementation slot.
pub open spec fn idents_of(params: Seq<Param>) -> Seq<String> {
    params.map_values(|p: Param| p.name)
}

/// Boundary normalization of one parameter type: a by-reference or
/// by-mutable-reference parameter becomes by-value; any other kind is
/// passed through unchanged.
pub open spec fn normalized_type(t: ParamType) -> ParamType {
    ParamType { kind: PassKind::Value, base: t.base }
}

/// How the boundary entry point rebuilds one argument when forwarding:
/// a normalized by-reference parameter is re-referenced, a normalized
/// by-mutable-reference parameter is re-referenced mutably, and any
/// other argument is passed as is.
pub open spec fn call_arg_of(t: ParamType, name: String) -> CallArg {
    match t.kind {
        PassKind::Value => CallArg::Plain(name),
        PassKind::Ref => CallArg::Ref(name),
        PassKind::RefMut => CallArg::RefMut(name),
    }
}

/// The normalized parameter list of a boundary entry point.
pub open spec fn normalized_params_of(params: Seq<Param>) -> Seq<Param> {
    params.map_values(|p: Param| Param { name: p.name, ty: normalized_type(p.ty) })
}

/// The forwarding argument list of a boundary entry point.
pub open spec fn call_args_of(params: Seq<Param>) -> Seq<CallArg> {
    params.map_values(|p: Param| call_arg_of(p.ty, p.name))
}

/// Whether `body` forwards exactly the given parameters, in order, to
/// the same-named method on the current-implementation slot.
pub open spec fn forwards_params(body: MethodBody, params: Seq<Param>) -> bool {
    body matches MethodBody::Forward { args } && args@ == idents_of(params)
}

/// The name of the guard type generated for a requires-extension
/// interface.
pub open spec fn guard_name_of(trait_name: Seq<char>) -> Seq<char> {
    trait_name + "Never"@
}

/// The name of the extension template generated for an is-extension
/// interface.
pub open spec fn ext_name_of(trait_name: Seq<char>) -> Seq<char> {
    trait_name + "Ext"@
}

/// How one method of the transformed interface relates to the declared
/// method it came from: signature unchanged; an internal method loses
/// its marker and keeps a hand-written body verbatim; every other body
/// is the synthesized forwarding default.
pub open spec fn trait_method_out_for(m: Method, out: TraitMethodOut) -> bool {
    &&& out.name == m.name
    &&& out.params@ == m.params@
    &&& out.ret == m.ret
    &&& if method_internal(m) {
        &&& out.attrs@ == stripped_attrs(m.attrs@)
        &&& match m.body {
            Some(b) => out.body == MethodBody::Verbatim(b),
            None => forwards_params(out.body, m.params@),
        }
    } else {
        &&& out.attrs@ == m.attrs@
        &&& forwards_params(out.body, m.params@)
    }
}

/// How a boundary entry point relates to the Public method it exposes:
/// same name, documentation and return type, normalized parameters, and
/// the forwarding argument for each parameter in order.
pub open spec fn entry_point_for(trait_name: String, m: Method, ep: EntryPoint) -> bool {
    &&& ep.trait_name == trait_name
    &&& ep.name == m.name
    &&& ep.attrs@ == m.attrs@
    &&& ep.ret == m.ret
    &&& ep.params@ == normalized_params_of(m.params@)
    &&& ep.call_args@ == call_args_of(m.params@)
}

/// How a guard method relates to the Public method it overrides: the
/// same signature, with a body that fails the build with the message
/// naming the interface.
pub open spec fn guard_method_for(trait_name: Seq<char>, m: Method, g: GuardMethod) -> bool {
    &&& g.name == m.name
    &&& g.attrs@ == m.attrs@
    &&& g.params@ == m.params@
    &&& g.ret == m.ret
    &&& g.message@ == guard_message_of(trait_name)
}

/// Normalizes one parameter type and builds the matching forwarding
/// argument.
pub fn transform_type_and_call(ty: &ParamType, arg_name: &String) -> (r: (ParamType, CallArg))
    ensures
        r.0 == normalized_type(*ty),
        r.1 == call_arg_of(*ty, *arg_name),
{
    let new_ty = ParamType { kind: PassKind::Value, base: ty.base.clone() };
    let call = match ty.kind {
        PassKind::Value => CallArg::Plain(arg_name.clone()),
        PassKind::Ref => CallArg::Ref(arg_name.clone()),
        PassKind::RefMut => CallArg::RefMut(arg_name.clone()),
    };
    (new_ty, call)
}

/// Collects the parameter names, in order.
pub fn args_to_idents(inputs: &Vec<Param>) -> (r: Vec<String>)
    ensures
        r@ == idents_of(inputs@),
{
    let mut r: Vec<String> = Vec::new();
    let mut i: usize = 0;
    while i < inputs.len()
        invariant
            i <= inputs@.len(),
            r@.len() == i,
            forall|j: int| 0 <= j < i ==> r@[j] == inputs@[j].name,
        decreases inputs@.len() - i,
    {
        r.push(inputs[i].name.clone());
        i += 1;
    }
    proof {
        assert(r@ =~= idents_of(inputs@));
    }
    r
}

/// Strips the `internal` marker from an attribute list.
fn strip_internal_attrs(attrs: &Vec<Attr>) -> (r: Vec<Attr>)
    ensures
        r@ == stripped_attrs(attrs@),
{
    let mut r: Vec<Attr> = Vec::new();
    let key: String = "internal".to_owned();
    let mut i: usize = 0;
    while i < attrs.len()
        invariant
            i <= attrs@.len(),
            key@ == internal_marker(),
            r@ == stripped_attrs(attrs@.subrange(0, i as int)),
        decreases attrs@.len() - i,
    {
        if !(attrs[i].name == key) {
            r.push(attrs[i].clone());
        }
        proof {
            broadcast use Seq::lemma_filter_push;

            assert(attrs@.subrange(0, i as int + 1) =~= attrs@.subrange(0, i as int).push(
                attrs@[i as int],
            ));
        }
        i += 1;
    }
    proof {
        assert(attrs@.subrange(0, attrs@.len() as int) =~= attrs@);
    }
    r
}

/// Collects the documentation attributes, in order.
fn doc_attrs(attrs: &Vec<Attr>) -> (r: Vec<Attr>)
    ensures
        r@ == doc_attrs_of(attrs@),
{
    let mut r: Vec<Attr> = Vec::new();
    let key: String = "doc".to_owned();
    let mut i: usize = 0;
    while i < attrs.len()
        invariant
            i <= attrs@.len(),
            key@ == doc_marker(),
            r@ == doc_attrs_of(attrs@.subrange(0, i as int)),
        decreases attrs@.len() - i,
    {
        if attrs[i].name == key {
            r.push(attrs[i].clone());
        }
        proof {
            broadcast use Seq::lemma_filter_push;

            assert(attrs@.subrange(0, i as int + 1) =~= attrs@.subrange(0, i as int).push(
                attrs@[i as int],
            ));
        }
        i += 1;
    }
    proof {
        assert(attrs@.subrange(0, attrs@.len() as int) =~= attrs@);
    }
    r
}

/// Builds the method as it stands in the transformed interface, with
/// the synthesized default body forwarding every parameter to the
/// current-implementation slot.
fn generate_trait_method(method: &Method) -> (r: TraitMethodOut)
    ensures
        r.attrs@ == method.attrs@,
        r.name == method.name,
        r.params@ == method.params@,
        r.ret == method.ret,
        forwards_params(r.body, method.params@),
{
    TraitMethodOut {
        attrs: clone_attrs(&method.attrs),
        name: method.name.clone(),
        params: clone_params(&method.params),
        ret: clone_opt_string(&method.ret),
        body: MethodBody::Forward { args: args_to_idents(&method.params) },
    }
}

/// Builds the boundary entry point of one Public method: normalized
/// signature, forwarding call into the interface on the target.
fn generate_static_method(trait_name: &String, method: &Method) -> (r: EntryPoint)
    ensures
        entry_point_for(*trait_name, *method, r),
{
    let mut params: Vec<Param> = Vec::new();
    let mut call_args: Vec<CallArg> = Vec::new();
    let mut i: usize = 0;
    while i < method.params.len()
        invariant
            i <= method.params@.len(),
            params@.len() == i,
            call_args@.len() == i,
            forall|j: int| 0 <= j < i ==> params@[j] == normalized_params_of(method.params@)[j],
            forall|j: int| 0 <= j < i ==> call_args@[j] == call_args_of(method.params@)[j],
        decreases method.params@.len() - i,
    {
        let p = &method.params[i];
        let (new_ty, call) = transform_type_and_call(&p.ty, &p.name);
        params.push(Param { name: p.name.clone(), ty: new_ty });
        call_args.push(call);
        i += 1;
    }
    proof {
        assert(params@ =~= normalized_params_of(method.params@));
        assert(call_args@ =~= call_args_of(method.params@));
    }
    EntryPoint {
        attrs: clone_attrs(&method.attrs),
        trait_name: trait_name.clone(),
        name: method.name.clone(),
        params,
        ret: clone_opt_string(&method.ret),
        call_args,
    }
}

/// Builds the guard override of one Public method: the same signature,
/// with a body that fails the build.
fn make_guard_method(trait_name: &String, method: &Method) -> (r: GuardMethod)
    ensures
        guard_method_for(trait_name@, *method, r),
{
    GuardMethod {
        attrs: clone_attrs(&method.attrs),
        name: method.name.clone(),
        params: clone_params(&method.params),
        ret: clone_opt_string(&method.ret),
        message: guard_message(trait_name),
    }
}

/// Handles one declared method: skipped when it bears a receiver;
/// otherwise the transformed-interface method, plus the boundary entry
/// point when the method is Public.
pub(crate) fn generate_method(trait_name: &String, method: &Method) -> (r: Option<
    (Option<EntryPoint>, TraitMethodOut),
>)
    ensures
        r is Some <==> method_kept(*method),
        r matches Some(pair) ==> trait_method_out_for(*method, pair.1),
        r matches Some(pair) ==> ((pair.0 is Some) <==> method_public(*method)),
        method_public(*method) ==> (r matches Some(pair) && pair.0 matches Some(ep)
            && entry_point_for(*trait_name, *method, ep)),
{
    if method.has_receiver {
        return None;
    }
    if has_attr(&method.attrs, "internal") {
        let out = match &method.body {
            Some(b) => TraitMethodOut {
                attrs: strip_internal_attrs(&method.attrs),
                name: method.name.clone(),
                params: clone_params(&method.params),
                ret: clone_opt_string(&method.ret),
                body: MethodBody::Verbatim(b.clone()),
            },
            None => {
                let stripped = Method {
                    attrs: strip_internal_attrs(&method.attrs),
                    name: method.name.clone(),
                    has_receiver: false,
                    params: clone_params(&method.params),
                    ret: clone_opt_string(&method.ret),
                    body: None,
                };
                generate_trait_method(&stripped)
            },
        };
        return Some((None, out));
    }
    let ep = generate_static_method(trait_name, method);
    let out = generate_trait_method(method);
    Some((Some(ep), out))
}

/// The base implementation a bare or zero-argument instantiation
/// refers to: the declared default, or the target itself when none was
/// declared.
pub open spec fn default_ref_of(args: MyTraitMacroArgs) -> DefaultRef {
    match args.default {
        Some(d) => DefaultRef::Named(d),
        None => DefaultRef::Target,
    }
}

/// How the transformed interface relates to the declaration: name and
/// attributes kept, the current-implementation slot bound by the
/// interface itself, and one transformed method per generated method,
/// in order.
pub open spec fn transformed_for(t: TraitDecl, tr: TransformedTrait) -> bool {
    &&& tr.name == t.name
    &&& tr.attrs@ == t.attrs@
    &&& tr.impl_bound == t.name
    &&& tr.methods@.len() == kept_methods(t.methods@).len()
    &&& forall|j: int|
        0 <= j < tr.methods@.len() ==> trait_method_out_for(
            kept_methods(t.methods@)[j],
            #[trigger] tr.methods@[j],
        )
}

/// How the guard artifact relates to the declaration: present exactly
/// for a requires-extension interface, named after it, overriding its
/// Public methods in order.
pub open spec fn guard_for(args: MyTraitMacroArgs, t: TraitDecl, g: Option<GuardDecl>) -> bool {
    if args.ext_required {
        g matches Some(gd) && {
            &&& gd.name@ == guard_name_of(t.name@)
            &&& gd.trait_name == t.name
            &&& gd.methods@.len() == public_methods(t.methods@).len()
            &&& forall|j: int|
                0 <= j < gd.methods@.len() ==> guard_method_for(
                    t.name@,
                    public_methods(t.methods@)[j],
                    #[trigger] gd.methods@[j],
                )
        }
    } else {
        g is None
    }
}

/// How the extension artifact relates to the declaration: present
/// exactly for an is-extension interface, named after it.
pub open spec fn extension_for(args: MyTraitMacroArgs, t: TraitDecl, e: Option<
    ExtensionDecl,
>) -> bool {
    if args.is_ext {
        e matches Some(x) && x.name@ == ext_name_of(t.name@) && x.trait_name == t.name
    } else {
        e is None
    }
}

/// How the bare instantiation form relates to the configuration: it
/// fails the build when no default was declared; it binds the guard
/// around the default for a requires-extension interface, and the
/// default directly otherwise.
pub open spec fn bare_for(args: MyTraitMacroArgs, t: TraitDecl, b: BareForm) -> bool {
    &&& if args.default is None {
        b.missing_default matches Some(m) && m@ == missing_default_message_of(t.name@)
    } else {
        b.missing_default is None
    }
    &&& if args.ext_required {
        b.bound matches BoundImpl::Guarded { guard, path } && guard@ == guard_name_of(t.name@)
            && path == default_ref_of(args)
    } else {
        b.bound matches BoundImpl::Plain { path } && path == default_ref_of(args)
    }
}

/// How the explicit instantiation form relates to the declaration: one
/// boundary entry point per Public method, in order.
pub open spec fn explicit_for(t: TraitDecl, e: ExplicitForm) -> bool {
    &&& e.trait_name == t.name
    &&& e.entry_points@.len() == public_methods(t.methods@).len()
    &&& forall|j: int|
        0 <= j < e.entry_points@.len() ==> entry_point_for(
            t.name,
            public_methods(t.methods@)[j],
            #[trigger] e.entry_points@[j],
        )
}

/// How the whole instantiation template relates to the declaration:
/// named after the interface, carrying its documentation, with the
/// three forms as configured.
pub open spec fn template_for(args: MyTraitMacroArgs, t: TraitDecl, tpl: InstantiationTemplate) -> bool {
    &&& tpl.name == t.name
    &&& tpl.docs@ == doc_attrs_of(t.attrs@)
    &&& bare_for(args, t, tpl.bare)
    &&& explicit_for(t, tpl.explicit)
    &&& tpl.zero.default_ref == default_ref_of(args)
}

/// Everything the transformation guarantees about its output for one
/// module declaration and its configuration.
pub open spec fn generated_interface_for(
    args: MyTraitMacroArgs,
    t: TraitDecl,
    g: GeneratedInterface,
) -> bool {
    &&& transformed_for(t, g.transformed)
    &&& guard_for(args, t, g.guard)
    &&& extension_for(args, t, g.extension)
    &&& template_for(args, t, g.template)
}

/// The name of the guard type for this interface.
fn guard_type_name(trait_name: &String) -> (r: String)
    ensures
        r@ == guard_name_of(trait_name@),
{
    trait_name.clone().concat("Never")
}

/// The name of the extension template for this interface.
fn ext_type_name(trait_name: &String) -> (r: String)
    ensures
        r@ == ext_name_of(trait_name@),
{
    trait_name.clone().concat("Ext")
}

/// Resolves the base implementation reference of the configuration.
fn default_ref_exec(args: &MyTraitMacroArgs) -> (r: DefaultRef)
    ensures
        r == default_ref_of(*args),
{
    match &args.default {
        Some(d) => DefaultRef::Named(d.clone()),
        None => DefaultRef::Target,
    }
}

/// Transforms one module interface declaration, or reports the
/// structural error when the declaration is not a trait.
pub(crate) fn inner_generate(args: &MyTraitMacroArgs, item: &ItemDecl) -> (r: Result<
    GeneratedInterface,
    StructuralError,
>)
    ensures
        (*item) matches ItemDecl::Trait(t) ==> r matches Ok(g) && generated_interface_for(
            *args,
            t,
            g,
        ),
        !((*item) is Trait) ==> (r matches Err(e) && e.message@ == not_a_trait_text()),
{
    let input_trait = match item {
        ItemDecl::Trait(t) => t,
        _ => {
            return Err(not_a_trait_error());
        },
    };
    let trait_name = &input_trait.name;

    let mut trait_methods: Vec<TraitMethodOut> = Vec::new();
    let mut entry_points: Vec<EntryPoint> = Vec::new();
    let mut guard_methods: Vec<GuardMethod> = Vec::new();
    let ghost all = input_trait.methods@;

    let mut i: usize = 0;
    while i < input_trait.methods.len()
        invariant
            i <= all.len(),
            all == input_trait.methods@,
            *trait_name == input_trait.name,
            trait_methods@.len() == kept_methods(all.subrange(0, i as int)).len(),
            forall|j: int|
                0 <= j < trait_methods@.len() ==> trait_method_out_for(
                    kept_methods(all.subrange(0, i as int))[j],
                    #[trigger] trait_methods@[j],
                ),
            entry_points@.len() == public_methods(all.subrange(0, i as int)).len(),
            forall|j: int|
                0 <= j < entry_points@.len() ==> entry_point_for(
                    input_trait.name,
                    public_methods(all.subrange(0, i as int))[j],
                    #[trigger] entry_points@[j],
                ),
            guard_methods@.len() == public_methods(all.subrange(0, i as int)).len(),
            forall|j: int|
                0 <= j < guard_methods@.len() ==> guard_method_for(
                    input_trait.name@,
                    public_methods(all.subrange(0, i as int))[j],
                    #[trigger] guard_methods@[j],
                ),
        decreases all.len() - i,
    {
        let m = &input_trait.methods[i];
        match generate_method(trait_name, m) {
            None => {},
            Some((maybe_ep, out)) => {
                trait_methods.push(out);
                match maybe_ep {
                    Some(ep) => {
                        entry_points.push(ep);
                        guard_methods.push(make_guard_method(trait_name, m));
                    },
                    None => {},
                }
            },
        }
        proof {
            broadcast use Seq::lemma_filter_push;

            let prefix = all.subrange(0, i as int);
            let mi = all[i as int];
            assert(all.subrange(0, i as int + 1) =~= prefix.push(mi));
            assert(kept_methods(prefix.push(mi)) == if method_kept(mi) {
                kept_methods(prefix).push(mi)
            } else {
                kept_methods(prefix)
            });
            assert(public_methods(prefix.push(mi)) == if method_public(mi) {
                public_methods(prefix).push(mi)
            } else {
                public_methods(prefix)
            });
        }
        i += 1;
    }
    proof {
        assert(all.subrange(0, all.len() as int) =~= all);
    }

    let guard: Option<GuardDecl> = if args.ext_required {
        Some(
            GuardDecl {
                name: guard_type_name(trait_name),
                trait_name: trait_name.clone(),
                methods: guard_methods,
            },
        )
    } else {
        None
    };

    let extension: Option<ExtensionDecl> = if args.is_ext {
        Some(ExtensionDecl { name: ext_type_name(trait_name), trait_name: trait_name.clone() })
    } else {
        None
    };

    let missing_default = match &args.default {
        None => Some(missing_default_message(trait_name)),
        Some(_) => None,
    };
    let bound = if args.ext_required {
        BoundImpl::Guarded { guard: guard_type_name(trait_name), path: default_ref_exec(args) }
    } else {
        BoundImpl::Plain { path: default_ref_exec(args) }
    };

    let template = InstantiationTemplate {
        name: trait_name.clone(),
        docs: doc_attrs(&input_trait.attrs),
        bare: BareForm { missing_default, bound },
        explicit: ExplicitForm { trait_name: trait_name.clone(), entry_points },
        zero: ZeroForm { default_ref: default_ref_exec(args) },
    };

    let transformed = TransformedTrait {
        attrs: clone_attrs(&input_trait.attrs),
        name: trait_name.clone(),
        impl_bound: trait_name.clone(),
        methods: trait_methods,
    };

    Ok(GeneratedInterface { transformed, guard, extension, template })
}

/// Expands one module interface declaration; a structural error becomes
/// a build-failing diagnostic instead of aborting the pipeline.
pub fn generate(args: &MyTraitMacroArgs, item: &ItemDecl) -> (r: TraitExpansion)
    ensures
        (*item) matches ItemDecl::Trait(t) ==> r matches TraitExpansion::Generated(g)
            && generated_interface_for(*args, t, g),
        !((*item) is Trait) ==> (r matches TraitExpansion::Failed(m) && m@ == not_a_trait_text()),
{
    match inner_generate(args, item) {
        Ok(g) => TraitExpansion::Generated(g),
        Err(e) => TraitExpansion::Failed(e.message),
    }
}

} // verus!
