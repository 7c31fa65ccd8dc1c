//! The interface transformer on concrete module declarations.

use contracttrait::args::MyTraitMacroArgs;
use contracttrait::ast::{Attr, ItemDecl, Method, Param, ParamType, PassKind, StructDecl, TraitDecl};
use contracttrait::output::{
    BoundImpl, CallArg, DefaultRef, EntryPoint, GeneratedInterface, MethodBody, TraitExpansion,
    TraitMethodOut,
};
use contracttrait::transform::generate;

fn attr(name: &str, value: &str) -> Attr {
    Attr { name: name.to_string(), value: value.to_string() }
}

fn param(name: &str, kind: PassKind, base: &str) -> Param {
    Param { name: name.to_string(), ty: ParamType { kind, base: base.to_string() } }
}

fn administratable() -> TraitDecl {
    TraitDecl {
        attrs: vec![],
        name: "Administratable".to_string(),
        methods: vec![
            Method {
                attrs: vec![attr("doc", " Get current admin")],
                name: "admin_get".to_string(),
                has_receiver: false,
                params: vec![param("env", PassKind::Value, "Env")],
                ret: Some("soroban_sdk::Address".to_string()),
                body: None,
            },
            Method {
                attrs: vec![],
                name: "admin_set".to_string(),
                has_receiver: false,
                params: vec![
                    param("env", PassKind::Value, "Env"),
                    param("new_admin", PassKind::Ref, "soroban_sdk::Address"),
                ],
                ret: None,
                body: None,
            },
            Method {
                attrs: vec![attr("internal", "")],
                name: "require_auth".to_string(),
                has_receiver: false,
                params: vec![param("env", PassKind::Value, "Env")],
                ret: None,
                body: Some("Self::admin_get(env).require_auth();".to_string()),
            },
        ],
    }
}

fn expand(args: &MyTraitMacroArgs, item: &ItemDecl) -> GeneratedInterface {
    match generate(args, item) {
        TraitExpansion::Generated(g) => g,
        TraitExpansion::Failed(m) => panic!("expansion failed: {m}"),
    }
}

#[test]
fn first() {
    let input = ItemDecl::Trait(administratable());
    let args = MyTraitMacroArgs {
        default: Some("Admin".to_string()),
        ..Default::default()
    };
    let g = expand(&args, &input);

    assert_eq!(g.transformed.name, "Administratable");
    assert_eq!(g.transformed.impl_bound, "Administratable");
    assert_eq!(
        g.transformed.methods,
        vec![
            TraitMethodOut {
                attrs: vec![attr("doc", " Get current admin")],
                name: "admin_get".to_string(),
                params: vec![param("env", PassKind::Value, "Env")],
                ret: Some("soroban_sdk::Address".to_string()),
                body: MethodBody::Forward { args: vec!["env".to_string()] },
            },
            TraitMethodOut {
                attrs: vec![],
                name: "admin_set".to_string(),
                params: vec![
                    param("env", PassKind::Value, "Env"),
                    param("new_admin", PassKind::Ref, "soroban_sdk::Address"),
                ],
                ret: None,
                body: MethodBody::Forward {
                    args: vec!["env".to_string(), "new_admin".to_string()],
                },
            },
            TraitMethodOut {
                attrs: vec![],
                name: "require_auth".to_string(),
                params: vec![param("env", PassKind::Value, "Env")],
                ret: None,
                body: MethodBody::Verbatim("Self::admin_get(env).require_auth();".to_string()),
            },
        ]
    );

    // No guard and no extension template for a plain module.
    assert_eq!(g.guard, None);
    assert_eq!(g.extension, None);

    // The template: bare form binds $crate::Admin, the zero-argument
    // form returns it, and no missing-default failure is embedded.
    assert_eq!(g.template.name, "Administratable");
    assert_eq!(g.template.bare.missing_default, None);
    assert_eq!(
        g.template.bare.bound,
        BoundImpl::Plain { path: DefaultRef::Named("Admin".to_string()) }
    );
    assert_eq!(g.template.zero.default_ref, DefaultRef::Named("Admin".to_string()));

    // The explicit form: entry points for the two Public methods, with
    // the by-reference parameter taken by value and re-referenced.
    assert_eq!(
        g.template.explicit.entry_points,
        vec![
            EntryPoint {
                attrs: vec![attr("doc", " Get current admin")],
                trait_name: "Administratable".to_string(),
                name: "admin_get".to_string(),
                params: vec![param("env", PassKind::Value, "Env")],
                ret: Some("soroban_sdk::Address".to_string()),
                call_args: vec![CallArg::Plain("env".to_string())],
            },
            EntryPoint {
                attrs: vec![],
                trait_name: "Administratable".to_string(),
                name: "admin_set".to_string(),
                params: vec![
                    param("env", PassKind::Value, "Env"),
                    param("new_admin", PassKind::Value, "soroban_sdk::Address"),
                ],
                ret: None,
                call_args: vec![
                    CallArg::Plain("env".to_string()),
                    CallArg::Ref("new_admin".to_string()),
                ],
            },
        ]
    );
}

#[test]
fn expansion_is_deterministic() {
    let input = ItemDecl::Trait(administratable());
    let args = MyTraitMacroArgs {
        default: Some("Admin".to_string()),
        ext_required: true,
        is_ext: true,
    };
    assert_eq!(generate(&args, &input), generate(&args, &input));
}

#[test]
fn receiver_methods_are_skipped() {
    let t = TraitDecl {
        attrs: vec![],
        name: "WithReceiver".to_string(),
        methods: vec![
            Method {
                attrs: vec![],
                name: "on_instance".to_string(),
                has_receiver: true,
                params: vec![],
                ret: None,
                body: None,
            },
            Method {
                attrs: vec![],
                name: "free".to_string(),
                has_receiver: false,
                params: vec![],
                ret: None,
                body: None,
            },
        ],
    };
    let args = MyTraitMacroArgs { default: Some("D".to_string()), ..Default::default() };
    let g = expand(&args, &ItemDecl::Trait(t));
    assert_eq!(g.transformed.methods.len(), 1);
    assert_eq!(g.transformed.methods[0].name, "free");
    assert_eq!(g.template.explicit.entry_points.len(), 1);
}

#[test]
fn internal_without_body_forwards() {
    let t = TraitDecl {
        attrs: vec![],
        name: "Quiet".to_string(),
        methods: vec![Method {
            attrs: vec![attr("doc", " hidden"), attr("internal", "")],
            name: "helper".to_string(),
            has_receiver: false,
            params: vec![param("env", PassKind::Value, "Env")],
            ret: None,
            body: None,
        }],
    };
    let args = MyTraitMacroArgs { default: Some("D".to_string()), ..Default::default() };
    let g = expand(&args, &ItemDecl::Trait(t));
    // The marker is stripped, the documentation kept, and a forwarding
    // default synthesized; no entry point is exposed.
    assert_eq!(g.transformed.methods[0].attrs, vec![attr("doc", " hidden")]);
    assert_eq!(
        g.transformed.methods[0].body,
        MethodBody::Forward { args: vec!["env".to_string()] }
    );
    assert_eq!(g.template.explicit.entry_points, vec![]);
}

#[test]
fn guard_generated_when_extension_required() {
    let input = ItemDecl::Trait(administratable());
    let args = MyTraitMacroArgs {
        default: Some("Admin".to_string()),
        ext_required: true,
        is_ext: false,
    };
    let g = expand(&args, &input);
    let guard = g.guard.expect("guard type owed");
    assert_eq!(guard.name, "AdministratableNever");
    assert_eq!(guard.trait_name, "Administratable");
    // One failing override per Public method, naming the interface.
    assert_eq!(guard.methods.len(), 2);
    assert_eq!(guard.methods[0].name, "admin_get");
    assert_eq!(guard.methods[1].name, "admin_set");
    for m in &guard.methods {
        assert_eq!(
            m.message,
            "The contract trait `Administratable` requires an extension for authentication \
             but none were provided.E.g. #[derive_contract(Administratable, \
             Upgradable(ext = AdministratableExt))]"
        );
    }
    // The bare form binds the guard around the default.
    assert_eq!(
        g.template.bare.bound,
        BoundImpl::Guarded {
            guard: "AdministratableNever".to_string(),
            path: DefaultRef::Named("Admin".to_string()),
        }
    );
}

#[test]
fn extension_template_generated_when_is_extension() {
    let input = ItemDecl::Trait(administratable());
    let args = MyTraitMacroArgs {
        default: Some("Admin".to_string()),
        ext_required: false,
        is_ext: true,
    };
    let g = expand(&args, &input);
    let ext = g.extension.expect("extension template owed");
    assert_eq!(ext.name, "AdministratableExt");
    assert_eq!(ext.trait_name, "Administratable");
}

#[test]
fn missing_default_embeds_failure() {
    let input = ItemDecl::Trait(administratable());
    let args = MyTraitMacroArgs::default();
    let g = expand(&args, &input);
    assert_eq!(
        g.template.bare.missing_default.as_deref(),
        Some(
            "The contract trait `Administratable` does not provide default implementation. \
             One should be passed, e.g. `#[derive_contract(Administratable(default = MyAdmin))"
        )
    );
    // Without a default the forms fall back to the target itself.
    assert_eq!(g.template.zero.default_ref, DefaultRef::Target);
    assert_eq!(g.template.bare.bound, BoundImpl::Plain { path: DefaultRef::Target });
}

#[test]
fn trait_documentation_reaches_the_template() {
    let t = TraitDecl {
        attrs: vec![attr("doc", " A documented module."), attr("allow", "dead_code")],
        name: "Documented".to_string(),
        methods: vec![],
    };
    let args = MyTraitMacroArgs { default: Some("D".to_string()), ..Default::default() };
    let g = expand(&args, &ItemDecl::Trait(t));
    // The transformed trait keeps every attribute; the template takes
    // only the documentation.
    assert_eq!(
        g.transformed.attrs,
        vec![attr("doc", " A documented module."), attr("allow", "dead_code")]
    );
    assert_eq!(g.template.docs, vec![attr("doc", " A documented module.")]);
}

#[test]
fn non_trait_input_is_a_structural_error() {
    let args = MyTraitMacroArgs::default();
    let item = ItemDecl::Struct(StructDecl { attrs: vec![], name: "NotATrait".to_string() });
    match generate(&args, &item) {
        TraitExpansion::Failed(m) => assert_eq!(m, "Input must be a trait"),
        TraitExpansion::Generated(_) => panic!("a struct must not expand"),
    }
    match generate(&args, &ItemDecl::Other) {
        TraitExpansion::Failed(m) => assert_eq!(m, "Input must be a trait"),
        TraitExpansion::Generated(_) => panic!("an unknown item must not expand"),
    }
}

#[test]
fn mutable_reference_parameters_normalize() {
    let t = TraitDecl {
        attrs: vec![],
        name: "Mutating".to_string(),
        methods: vec![Method {
            attrs: vec![],
            name: "bump".to_string(),
            has_receiver: false,
            params: vec![
                param("counter", PassKind::RefMut, "u32"),
                param("step", PassKind::Value, "u32"),
            ],
            ret: None,
            body: None,
        }],
    };
    let args = MyTraitMacroArgs { default: Some("D".to_string()), ..Default::default() };
    let g = expand(&args, &ItemDecl::Trait(t));
    let ep = &g.template.explicit.entry_points[0];
    assert_eq!(ep.params[0], param("counter", PassKind::Value, "u32"));
    assert_eq!(ep.params[1], param("step", PassKind::Value, "u32"));
    assert_eq!(
        ep.call_args,
        vec![CallArg::RefMut("counter".to_string()), CallArg::Plain("step".to_string())]
    );
}
