//! The composition resolver on concrete target declarations.

use contracttrait::args::{InnerArgs, ModuleConfig, MyMacroArgs};
use contracttrait::ast::{ItemDecl, StructDecl, TraitDecl};
use contracttrait::compose::{
    derive_contract, ChainExpr, ContractExpansion, DerivedContract, InstantiationCall,
};

fn target(name: &str) -> ItemDecl {
    ItemDecl::Struct(StructDecl { attrs: vec![], name: name.to_string() })
}

fn module(name: &str, exts: &[&str], default: Option<&str>) -> ModuleConfig {
    ModuleConfig {
        module: name.to_string(),
        args: InnerArgs {
            exts: exts.iter().map(|e| e.to_string()).collect(),
            default: default.map(|d| d.to_string()),
        },
    }
}

fn wire(args: &MyMacroArgs, item: &ItemDecl) -> DerivedContract {
    match derive_contract(args, item) {
        ContractExpansion::Derived(d) => d,
        ContractExpansion::Failed(m) => panic!("wiring failed: {m}"),
    }
}

#[test]
fn derive() {
    let args = MyMacroArgs {
        args: vec![
            module("Administratable", &[], None),
            module("Upgradable", &["AdministratableExt"], None),
        ],
    };
    let d = wire(&args, &target("Contract"));
    assert_eq!(d.target.name, "Contract");
    assert_eq!(
        d.calls,
        vec![
            InstantiationCall::Bare {
                module: "Administratable".to_string(),
                target: "Contract".to_string(),
            },
            InstantiationCall::Explicit {
                module: "Upgradable".to_string(),
                target: "Contract".to_string(),
                chain: ChainExpr::Wrap {
                    ext: "AdministratableExt".to_string(),
                    target: "Contract".to_string(),
                    inner: Box::new(ChainExpr::ModuleDefault("Upgradable".to_string())),
                },
            },
        ]
    );
}

#[test]
fn fold_order_two_extensions() {
    // With extensions [E1, E2] in declaration order the chain is
    // E2<Target, E1<Target, D>>: first listed innermost.
    let args = MyMacroArgs { args: vec![module("M", &["E1", "E2"], Some("D"))] };
    let d = wire(&args, &target("T"));
    assert_eq!(
        d.calls,
        vec![InstantiationCall::Explicit {
            module: "M".to_string(),
            target: "T".to_string(),
            chain: ChainExpr::Wrap {
                ext: "E2".to_string(),
                target: "T".to_string(),
                inner: Box::new(ChainExpr::Wrap {
                    ext: "E1".to_string(),
                    target: "T".to_string(),
                    inner: Box::new(ChainExpr::Base("D".to_string())),
                }),
            },
        }]
    );
}

#[test]
fn explicit_default_without_extensions() {
    // A declared default alone rules the fast path out: the explicit
    // form is used, with the named base and no wrapper.
    let args = MyMacroArgs { args: vec![module("M", &[], Some("D"))] };
    let d = wire(&args, &target("T"));
    assert_eq!(
        d.calls,
        vec![InstantiationCall::Explicit {
            module: "M".to_string(),
            target: "T".to_string(),
            chain: ChainExpr::Base("D".to_string()),
        }]
    );
}

#[test]
fn empty_composition_fast_path() {
    let args = MyMacroArgs { args: vec![module("M", &[], None)] };
    let d = wire(&args, &target("T"));
    assert_eq!(
        d.calls,
        vec![InstantiationCall::Bare { module: "M".to_string(), target: "T".to_string() }]
    );
}

#[test]
fn wiring_is_deterministic() {
    let args = MyMacroArgs {
        args: vec![module("A", &[], None), module("B", &["E1", "E2", "E3"], Some("D"))],
    };
    let item = target("T");
    assert_eq!(derive_contract(&args, &item), derive_contract(&args, &item));
}

#[test]
fn empty_target_configuration_emits_no_calls() {
    let args = MyMacroArgs { args: vec![] };
    let d = wire(&args, &target("T"));
    assert_eq!(d.calls, vec![]);
}

#[test]
fn non_struct_input_is_a_structural_error() {
    let args = MyMacroArgs { args: vec![] };
    let item = ItemDecl::Trait(TraitDecl {
        attrs: vec![],
        name: "NotAStruct".to_string(),
        methods: vec![],
    });
    match derive_contract(&args, &item) {
        ContractExpansion::Failed(m) => assert_eq!(m, "Input must be a struct"),
        ContractExpansion::Derived(_) => panic!("a trait must not wire"),
    }
}
