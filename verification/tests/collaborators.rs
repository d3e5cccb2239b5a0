use cairo_lang_compiler::db::RootDatabase;
use cairo_lang_sierra::ids::GenericLibfuncId;
use cairo_lang_sierra::program::{ConcreteLibfuncLongId, LibfuncDeclaration, Program};
use cairo_lang_sierra_generator::db::SierraGenGroup;
use cairo_lang_sierra_generator::replace_ids::{DebugReplacer, SierraIdReplacer};
use cairo_run_report::error::PipelineError;
use cairo_run_report::pipeline::{CompilationConfig, Pipeline, RunRequest, Stage};

/// A program that declares the given libfuncs, under identifiers that the
/// database knows.
fn lowered_program(db: &RootDatabase, libfuncs: &[&str]) -> Program {
    let mut declarations = Vec::new();
    for name in libfuncs {
        let long_id = ConcreteLibfuncLongId {
            generic_id: GenericLibfuncId::from_string(*name),
            generic_args: Vec::new(),
        };
        let id = db.intern_concrete_lib_func(long_id.clone());
        declarations.push(LibfuncDeclaration { id, long_id });
    }
    Program {
        type_declarations: Vec::new(),
        libfunc_declarations: declarations,
        statements: Vec::new(),
        funcs: Vec::new(),
    }
}

fn at_enrichment(available_budget: Option<usize>) -> Pipeline {
    Pipeline {
        request: RunRequest {
            config: CompilationConfig { available_budget, allow_warnings: false },
            print_full_memory: false,
            run_profiler: false,
            use_dbg_print_hint: false,
        },
        stage: Stage::Enrichment,
    }
}

#[test]
fn names_replace_identifiers() {
    let db = RootDatabase::empty();
    let program = lowered_program(&db, &["felt252_add", "store_temp"]);
    let named = DebugReplacer { db: &db }.apply(&program);
    assert_ne!(program.to_string(), named.to_string());
    assert!(named.to_string().contains("libfunc felt252_add = felt252_add;"));
    assert!(named.to_string().contains("libfunc store_temp = store_temp;"));
}

#[test]
fn replacing_identifiers_twice_changes_nothing_more() {
    let db = RootDatabase::empty();
    let program = lowered_program(&db, &["felt252_add", "withdraw_gas", "store_temp"]);
    let replacer = DebugReplacer { db: &db };
    let once = replacer.apply(&program);
    let twice = replacer.apply(&once);
    assert_eq!(once, twice);
    assert_eq!(once.to_string(), twice.to_string());
}

#[test]
fn names_do_not_change_what_a_program_draws_on() {
    let db = RootDatabase::empty();
    let replacer = DebugReplacer { db: &db };

    let metered = lowered_program(&db, &["felt252_add", "withdraw_gas"]);
    let named = replacer.apply(&metered);
    for program in [&metered, &named, &replacer.apply(&named)] {
        assert_eq!(
            at_enrichment(None).inspect_program(program).into_result(),
            Some(Err(PipelineError::BudgetRequired))
        );
        assert_eq!(at_enrichment(Some(0)).inspect_program(program).stage, Stage::ContractMetadata);
    }

    let plain = lowered_program(&db, &["felt252_add"]);
    let named = replacer.apply(&plain);
    for program in [&plain, &named, &replacer.apply(&named)] {
        assert_eq!(at_enrichment(None).inspect_program(program).stage, Stage::ContractMetadata);
    }
}
