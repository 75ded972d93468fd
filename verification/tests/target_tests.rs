use function_target::TargetError;
use function_target::annotations::{AnnotationData, AnnotationKind};
use function_target::bytecode::{AttrId, Bytecode, SpecBlockId};
use function_target::env::{FunId, FunctionEnv, GlobalEnv, Loc, ModuleEnv, StructId, TypeParameter};
use function_target::function_target::{FunctionTarget, LocalName};
use function_target::spec_ast::Spec;
use function_target::symbols::{Symbol, SymbolPool};
use function_target::table::Table;
use function_target::target_data::FunctionTargetData;
use function_target::ty::Type;

// Pool layout used by every fixture:
// 0 "m"  1 "f"  2 "x"  3 "y"  4 "u64"  5 "mv"  6 "opt"
fn pool_names() -> Vec<String> {
    vec![
        "m".to_string(),
        "f".to_string(),
        "x".to_string(),
        "y".to_string(),
        "u64".to_string(),
        "mv".to_string(),
        "opt".to_string(),
    ]
}

fn base_u64() -> Type {
    Type::Base(Symbol(4))
}

fn mut_ref_u64() -> Type {
    Type::Reference(true, Box::new(base_u64()))
}

fn sample_env(public: bool) -> FunctionEnv {
    let mut module_pragmas = Table::new();
    module_pragmas.insert(6, false);
    let mut fun_pragmas = Table::new();
    fun_pragmas.insert(6, true);
    FunctionEnv {
        module_env: ModuleEnv {
            name: Symbol(0),
            pragmas: module_pragmas,
            env: GlobalEnv { symbol_pool: SymbolPool::new(pool_names()) },
        },
        name: Symbol(1),
        id: FunId(7),
        loc: Loc { file: 1, start: 0, end: 40 },
        native: false,
        public,
        type_parameters: vec![],
        parameter_types: vec![base_u64(), mut_ref_u64()],
        local_names: vec![Symbol(2), Symbol(3)],
        pragmas: fun_pragmas,
        spec: Spec {
            conditions: vec![11, 12],
            on_impl: vec![(0, Spec::leaf(vec![99]))],
        },
    }
}

fn sample_data() -> FunctionTargetData {
    let mut locations = Table::new();
    locations.insert(0, Loc { file: 1, start: 5, end: 9 });
    let mut given = Table::new();
    given.insert(5, 0);
    FunctionTargetData::new(
        vec![Bytecode { attr: AttrId(0), op: Symbol(5), args: vec![2, 0] }],
        vec![base_u64(), mut_ref_u64(), base_u64()],
        vec![base_u64()],
        vec![StructId(3)],
        locations,
        given,
    )
}

#[test]
fn local_type_matches_installed_type() {
    let env = sample_env(true);
    let data = sample_data();
    let target = FunctionTarget::new(&env, &data);
    assert!(matches!(target.get_local_type(0), Ok(Type::Base(Symbol(4)))));
    assert!(matches!(target.get_local_type(1), Ok(Type::Reference(true, _))));
    assert!(matches!(target.get_local_type(2), Ok(Type::Base(Symbol(4)))));
}

#[test]
fn local_type_out_of_range_fails() {
    let env = sample_env(true);
    let data = sample_data();
    let target = FunctionTarget::new(&env, &data);
    assert_eq!(target.get_local_count(), 3);
    assert_eq!(target.get_local_type(5).err(), Some(TargetError::IndexOutOfRange));
    assert_eq!(target.get_local_type(3).err(), Some(TargetError::IndexOutOfRange));
}

#[test]
fn return_type_out_of_range_fails() {
    let env = sample_env(true);
    let data = sample_data();
    let target = FunctionTarget::new(&env, &data);
    assert!(target.get_return_type(0).is_ok());
    assert_eq!(target.get_return_type(1).err(), Some(TargetError::IndexOutOfRange));
}

#[test]
fn name_index_roundtrip_for_declared_locals() {
    let env = sample_env(true);
    let data = sample_data();
    let target = FunctionTarget::new(&env, &data);
    for idx in 0..target.get_user_local_count() {
        match target.get_local_name(idx) {
            LocalName::Declared(sym) => {
                assert_eq!(target.get_local_index(sym), Some(idx));
            }
            LocalName::Generated(_) => panic!("declared local got a generated name"),
        }
    }
    assert_eq!(target.get_local_index(Symbol(5)), None);
}

#[test]
fn temporaries_get_generated_names() {
    let env = sample_env(true);
    let data = sample_data();
    let target = FunctionTarget::new(&env, &data);
    assert_eq!(target.get_local_name(2), LocalName::Generated(2));
}

#[test]
fn call_ends_lifetime_public_value_returns() {
    // Public f(x: u64, y: &mut u64): u64 — no return type is a reference.
    let env = sample_env(true);
    let data = sample_data();
    let target = FunctionTarget::new(&env, &data);
    assert!(target.call_ends_lifetime());
}

#[test]
fn call_ends_lifetime_false_for_reference_return() {
    let env = sample_env(true);
    let mut data = sample_data();
    data.return_types = vec![Type::Reference(false, Box::new(base_u64()))];
    let target = FunctionTarget::new(&env, &data);
    assert!(!target.call_ends_lifetime());
}

#[test]
fn call_ends_lifetime_false_for_private_function() {
    let env = sample_env(false);
    let data = sample_data();
    let target = FunctionTarget::new(&env, &data);
    assert!(!target.call_ends_lifetime());
}

#[test]
fn call_ends_lifetime_vacuous_with_no_returns() {
    let env = sample_env(true);
    let mut data = sample_data();
    data.return_types = vec![];
    let target = FunctionTarget::new(&env, &data);
    assert!(target.call_ends_lifetime());
}

#[test]
fn is_mutating_sees_mutable_reference_parameter() {
    let env = sample_env(true);
    let data = sample_data();
    let target = FunctionTarget::new(&env, &data);
    assert!(target.is_mutating());

    let mut env2 = sample_env(true);
    env2.parameter_types = vec![base_u64(), base_u64()];
    let target2 = FunctionTarget::new(&env2, &data);
    assert!(!target2.is_mutating());
}

#[test]
fn bytecode_loc_falls_back_to_function_loc() {
    let env = sample_env(true);
    let data = sample_data();
    let target = FunctionTarget::new(&env, &data);
    assert_eq!(target.get_bytecode_loc(AttrId(0)), Loc { file: 1, start: 5, end: 9 });
    assert_eq!(target.get_bytecode_loc(AttrId(77)), Loc { file: 1, start: 0, end: 40 });
}

#[test]
fn pragma_resolves_function_then_module_then_default() {
    let mut env = sample_env(true);
    let data = sample_data();
    {
        let target = FunctionTarget::new(&env, &data);
        // Function scope sets "opt" to true, shadowing the module's false.
        assert!(target.is_pragma_true(&"opt".to_string(), false));
        // An unknown pragma name falls through to the default.
        assert!(target.is_pragma_true(&"mv".to_string(), true));
        assert!(!target.is_pragma_true(&"nothere".to_string(), false));
    }
    // Without a function-scope entry the module scope answers.
    env.pragmas = Table::new();
    let target = FunctionTarget::new(&env, &data);
    assert!(!target.is_pragma_true(&"opt".to_string(), true));
}

#[test]
fn spec_blocks_resolve_through_exactly_one_map() {
    let env = sample_env(true);
    let mut data = sample_data();
    // Source-anchored id 5 resolves to the condition attached at offset 0.
    // A synthesized block may not reuse it.
    assert_eq!(
        data.add_generated_spec_block(SpecBlockId(5), Spec::leaf(vec![1])),
        Err(TargetError::AliasConflict)
    );
    assert_eq!(
        data.add_generated_spec_block(SpecBlockId(9), Spec::leaf(vec![42])),
        Ok(())
    );
    assert_eq!(
        data.add_generated_spec_block(SpecBlockId(9), Spec::leaf(vec![43])),
        Err(TargetError::AliasConflict)
    );
    let target = FunctionTarget::new(&env, &data);
    assert_eq!(target.get_spec_on_impl(SpecBlockId(5)).unwrap().conditions, vec![99]);
    assert_eq!(target.get_spec_on_impl(SpecBlockId(9)).unwrap().conditions, vec![42]);
    assert_eq!(target.get_spec_on_impl(SpecBlockId(6)).err(), Some(TargetError::BlockNotFound));
}

#[test]
fn source_anchored_blocks_survive_every_mutation() {
    let env = sample_env(true);
    let mut data = sample_data();
    data.add_local(base_u64());
    data.set_annotation(
        AnnotationKind::LiveVar,
        AnnotationData { per_offset: Table::new() },
    );
    data.add_ref_param(1, 0).unwrap();
    data.add_generated_spec_block(SpecBlockId(9), Spec::leaf(vec![1]))
        .unwrap();
    data.replace_code(vec![], Table::new());
    // The source-anchored map still holds exactly its original binding.
    assert_eq!(data.given_spec_blocks.get(5), Some(&0));
    assert_eq!(data.given_spec_blocks.get(9), None);
    let target = FunctionTarget::new(&env, &data);
    assert_eq!(target.get_spec_on_impl(SpecBlockId(5)).unwrap().conditions, vec![99]);
}

#[test]
fn ref_param_map_rejects_conflicting_insert() {
    let mut data = sample_data();
    assert_eq!(data.add_ref_param(1, 0), Ok(()));
    assert_eq!(data.add_ref_param(1, 0), Err(TargetError::AliasConflict));
    let env = sample_env(true);
    let target = FunctionTarget::new(&env, &data);
    assert_eq!(target.get_return_index(1), Some(0));
    assert_eq!(target.get_return_index(0), None);
}

#[test]
fn annotation_store_overwrites_one_kind_only() {
    let mut data = sample_data();
    let mut live = Table::new();
    live.insert(0, "live: x".to_string());
    data.set_annotation(AnnotationKind::LiveVar, AnnotationData { per_offset: live });
    let mut borrow = Table::new();
    borrow.insert(0, "borrow: y".to_string());
    data.set_annotation(AnnotationKind::Borrow, AnnotationData { per_offset: borrow });
    let mut live2 = Table::new();
    live2.insert(0, "live: y".to_string());
    data.set_annotation(AnnotationKind::LiveVar, AnnotationData { per_offset: live2 });

    let got = data.annotations.get(AnnotationKind::LiveVar).unwrap();
    assert_eq!(got.per_offset.get(0), Some(&"live: y".to_string()));
    let kept = data.annotations.get(AnnotationKind::Borrow).unwrap();
    assert_eq!(kept.per_offset.get(0), Some(&"borrow: y".to_string()));
    assert!(data.annotations.get(AnnotationKind::Lifetime).is_none());
}

#[test]
fn shared_getters_expose_declared_metadata() {
    let env = sample_env(true);
    let data = sample_data();
    let mut env_tp = sample_env(true);
    env_tp.type_parameters = vec![TypeParameter(Symbol(3))];
    let target = FunctionTarget::new(&env, &data);
    assert_eq!(target.get_name(), Symbol(1));
    assert_eq!(target.get_id(), FunId(7));
    assert_eq!(target.get_loc(), Loc { file: 1, start: 0, end: 40 });
    assert!(!target.is_native());
    assert!(target.is_public());
    assert_eq!(target.get_parameter_count(), 2);
    assert_eq!(target.get_local_count(), 3);
    assert_eq!(target.get_user_local_count(), 2);
    assert_eq!(target.get_return_count(), 1);
    assert_eq!(target.get_bytecode().len(), 1);
    assert_eq!(target.get_bytecode()[0].get_attr_id(), AttrId(0));
    assert_eq!(target.get_acquires_global_resources(), &vec![StructId(3)]);
    assert_eq!(target.get_spec().conditions, vec![11, 12]);
    assert_eq!(target.get_type_parameters().len(), 0);
    let target_tp = FunctionTarget::new(&env_tp, &data);
    assert_eq!(target_tp.get_type_parameters(), vec![TypeParameter(Symbol(3))]);
    assert_eq!(target.module_env().name, Symbol(0));
    assert_eq!(target.symbol_pool().string(Symbol(4)).as_str(), "u64");
    assert_eq!(target.global_env().symbol_pool.string(Symbol(0)).as_str(), "m");
}
