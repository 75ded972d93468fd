use function_target::annotations::{AnnotationData, AnnotationKind};
use function_target::bytecode::{AttrId, Bytecode};
use function_target::env::{FunId, FunctionEnv, GlobalEnv, Loc, ModuleEnv, TypeParameter};
use function_target::function_target::{AnnotationFormatter, FunctionTarget};
use function_target::render::{dec_string, join_display};
use function_target::spec_ast::Spec;
use function_target::symbols::{Symbol, SymbolPool};
use function_target::table::Table;
use function_target::target_data::FunctionTargetData;
use function_target::ty::{Type, type_display};

// Pool layout used by every fixture:
// 0 "m"  1 "f"  2 "x"  3 "y"  4 "u64"  5 "mv"  6 "T"
fn pool() -> SymbolPool {
    SymbolPool::new(vec![
        "m".to_string(),
        "f".to_string(),
        "x".to_string(),
        "y".to_string(),
        "u64".to_string(),
        "mv".to_string(),
        "T".to_string(),
    ])
}

fn render_env(public: bool, type_parameters: Vec<TypeParameter>) -> FunctionEnv {
    FunctionEnv {
        module_env: ModuleEnv {
            name: Symbol(0),
            pragmas: Table::new(),
            env: GlobalEnv { symbol_pool: pool() },
        },
        name: Symbol(1),
        id: FunId(0),
        loc: Loc { file: 0, start: 0, end: 1 },
        native: false,
        public,
        type_parameters,
        parameter_types: vec![
            Type::Base(Symbol(4)),
            Type::Reference(true, Box::new(Type::Base(Symbol(4)))),
        ],
        local_names: vec![Symbol(2), Symbol(3)],
        pragmas: Table::new(),
        spec: Spec { conditions: vec![], on_impl: vec![] },
    }
}

fn render_data(return_types: Vec<Type>) -> FunctionTargetData {
    FunctionTargetData::new(
        vec![Bytecode { attr: AttrId(0), op: Symbol(5), args: vec![2, 0] }],
        vec![
            Type::Base(Symbol(4)),
            Type::Reference(true, Box::new(Type::Base(Symbol(4)))),
            Type::Base(Symbol(4)),
        ],
        return_types,
        vec![],
        Table::new(),
        Table::new(),
    )
}

#[test]
fn render_two_params_one_temp_one_instruction() {
    // Two parameters and one pass-introduced local: exactly one `var` line,
    // then one rendered line per instruction, no annotation lines.
    let env = render_env(true, vec![]);
    let data = render_data(vec![Type::Base(Symbol(4))]);
    let target = FunctionTarget::new(&env, &data);
    assert_eq!(
        target.render(),
        "pub fun m::f(x: u64, y: &mut u64): u64 {\n    var $t2: u64\n    mv $t2, x\n}\n"
    );
}

#[test]
fn render_private_no_returns_with_type_parameter() {
    let env = render_env(false, vec![TypeParameter(Symbol(6))]);
    let data = render_data(vec![]);
    let target = FunctionTarget::new(&env, &data);
    assert_eq!(
        target.render(),
        "fun m::f<T>(x: u64, y: &mut u64) {\n    var $t2: u64\n    mv $t2, x\n}\n"
    );
}

#[test]
fn render_parenthesizes_multiple_returns() {
    let env = render_env(true, vec![]);
    let data = render_data(vec![
        Type::Base(Symbol(4)),
        Type::Reference(false, Box::new(Type::Base(Symbol(4)))),
    ]);
    let target = FunctionTarget::new(&env, &data);
    assert_eq!(
        target.render(),
        "pub fun m::f(x: u64, y: &mut u64): (u64, &u64) {\n    var $t2: u64\n    mv $t2, x\n}\n"
    );
}

#[test]
fn render_prints_annotations_in_registration_order() {
    let env = render_env(true, vec![]);
    let mut data = render_data(vec![Type::Base(Symbol(4))]);
    let mut live = Table::new();
    live.insert(0, "live: x".to_string());
    data.set_annotation(AnnotationKind::LiveVar, AnnotationData { per_offset: live });
    let mut borrow = Table::new();
    borrow.insert(0, "borrow: y".to_string());
    data.set_annotation(AnnotationKind::Borrow, AnnotationData { per_offset: borrow });

    let mut target = FunctionTarget::new(&env, &data);
    target.register_annotation_formatters_for_test();
    assert_eq!(
        target.render(),
        "pub fun m::f(x: u64, y: &mut u64): u64 {\n    var $t2: u64\n    // live: x\n    // borrow: y\n    mv $t2, x\n}\n"
    );
}

#[test]
fn render_duplicate_registration_duplicates_output() {
    let env = render_env(true, vec![]);
    let mut data = render_data(vec![Type::Base(Symbol(4))]);
    let mut live = Table::new();
    live.insert(0, "live: x".to_string());
    data.set_annotation(AnnotationKind::LiveVar, AnnotationData { per_offset: live });

    let mut target = FunctionTarget::new(&env, &data);
    target.register_annotation_formatter(AnnotationFormatter { kind: AnnotationKind::LiveVar });
    target.register_annotation_formatter(AnnotationFormatter { kind: AnnotationKind::LiveVar });
    assert_eq!(
        target.render(),
        "pub fun m::f(x: u64, y: &mut u64): u64 {\n    var $t2: u64\n    // live: x\n    // live: x\n    mv $t2, x\n}\n"
    );
}

#[test]
fn render_is_deterministic_across_calls_and_views() {
    let env = render_env(true, vec![]);
    let mut data = render_data(vec![Type::Base(Symbol(4))]);
    let mut live = Table::new();
    live.insert(0, "live: x".to_string());
    data.set_annotation(AnnotationKind::LiveVar, AnnotationData { per_offset: live });

    let mut t1 = FunctionTarget::new(&env, &data);
    t1.register_annotation_formatters_for_test();
    let first = t1.render();
    let second = t1.render();
    assert_eq!(first, second);

    let mut t2 = FunctionTarget::new(&env, &data);
    t2.register_annotation_formatters_for_test();
    assert_eq!(first, t2.render());
}

#[test]
fn render_skips_offsets_without_facts() {
    let env = render_env(true, vec![]);
    let mut data = render_data(vec![Type::Base(Symbol(4))]);
    data.replace_code(
        vec![
            Bytecode { attr: AttrId(0), op: Symbol(5), args: vec![2, 0] },
            Bytecode { attr: AttrId(1), op: Symbol(5), args: vec![1] },
        ],
        Table::new(),
    );
    let mut live = Table::new();
    live.insert(1, "live: y".to_string());
    data.set_annotation(AnnotationKind::LiveVar, AnnotationData { per_offset: live });

    let mut target = FunctionTarget::new(&env, &data);
    target.register_annotation_formatters_for_test();
    assert_eq!(
        target.render(),
        "pub fun m::f(x: u64, y: &mut u64): u64 {\n    var $t2: u64\n    mv $t2, x\n    // live: y\n    mv y\n}\n"
    );
}

#[test]
fn dec_string_renders_exact_decimal() {
    assert_eq!(dec_string(0), "0");
    assert_eq!(dec_string(7), "7");
    assert_eq!(dec_string(10), "10");
    assert_eq!(dec_string(905), "905");
}

#[test]
fn join_display_matches_separator_rules() {
    let empty: Vec<String> = vec![];
    assert_eq!(join_display(&empty, ", "), "");
    assert_eq!(join_display(&vec!["a".to_string()], ", "), "a");
    assert_eq!(join_display(&vec!["a".to_string(), "b".to_string()], ", "), "a, b");
}

#[test]
fn type_display_renders_references() {
    let p = pool();
    assert_eq!(type_display(&Type::Base(Symbol(4)), &p), "u64");
    assert_eq!(
        type_display(&Type::Reference(false, Box::new(Type::Base(Symbol(4)))), &p),
        "&u64"
    );
    assert_eq!(
        type_display(
            &Type::Reference(true, Box::new(Type::Reference(false, Box::new(Type::Base(Symbol(4)))))),
            &p
        ),
        "&mut &u64"
    );
}
