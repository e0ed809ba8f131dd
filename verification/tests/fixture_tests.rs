use semck::check::analyze;
use semck::diag::{AnalysisResult, ErrorKind};
use semck::fixtures::{
    blue_combined2_program, blue_combined_program, blue_final_program, error_sample_program,
    grammar_program, shadow_program, simple_error_program,
};

fn kind_lines(r: &AnalysisResult) -> Vec<(ErrorKind, u32)> {
    r.diagnostics.iter().map(|d| (d.kind, d.pos.line)).collect()
}

#[test]
fn blue_combined_is_accepted() {
    let r = analyze(&blue_combined_program());
    assert!(r.accepted);
    assert!(r.diagnostics.is_empty());
}

#[test]
fn shadow_sample_is_accepted() {
    let r = analyze(&shadow_program());
    assert!(r.accepted);
    assert!(r.diagnostics.is_empty());
}

#[test]
fn blue_final_unit_blocks_reported() {
    // The inner blocks of test_group7 end in `;`, so z and the comparison on
    // it are unit-typed: three type mismatches, then the unit result fails
    // the integer return.
    let r = analyze(&blue_final_program());
    assert!(!r.accepted);
    assert_eq!(
        kind_lines(&r),
        vec![
            (ErrorKind::TypeMismatch, 36),
            (ErrorKind::TypeMismatch, 37),
            (ErrorKind::TypeMismatch, 39),
            (ErrorKind::ReturnTypeMismatch, 44),
        ],
    );
}

#[test]
fn blue_combined2_unit_blocks_reported() {
    let r = analyze(&blue_combined2_program());
    assert_eq!(
        kind_lines(&r),
        vec![
            (ErrorKind::TypeMismatch, 26),
            (ErrorKind::TypeMismatch, 27),
            (ErrorKind::TypeMismatch, 29),
        ],
    );
}

#[test]
fn error_sample_full_diagnostic_sequence() {
    let r = analyze(&error_sample_program());
    assert!(!r.accepted);
    assert_eq!(
        kind_lines(&r),
        vec![
            (ErrorKind::UndeclaredVariable, 13),
            (ErrorKind::ImmutableAssignment, 16),
            (ErrorKind::TypeMismatch, 22),
            (ErrorKind::ConditionTypeError, 25),
            (ErrorKind::ReturnTypeMismatch, 35),
            (ErrorKind::DuplicateDefinition, 40),
            (ErrorKind::UndefinedFunction, 51),
            (ErrorKind::ArityMismatch { expected: 2, given: 1 }, 54),
            (ErrorKind::ArityMismatch { expected: 2, given: 3 }, 55),
        ],
    );
}

#[test]
fn simple_error_full_diagnostic_sequence() {
    let r = analyze(&simple_error_program());
    assert_eq!(
        kind_lines(&r),
        vec![
            (ErrorKind::ImmutableAssignment, 4),
            (ErrorKind::UndeclaredVariable, 5),
            (ErrorKind::TypeMismatch, 8),
            (ErrorKind::MissingReturn, 11),
            (ErrorKind::UndefinedFunction, 17),
            (ErrorKind::UndefinedFunction, 18),
        ],
    );
}

#[test]
fn grammar_sample_diagnostic_sequence() {
    let r = analyze(&grammar_program());
    assert_eq!(
        kind_lines(&r),
        vec![
            (ErrorKind::TypeMismatch, 21),
            (ErrorKind::UndeclaredVariable, 39),
            (ErrorKind::UndeclaredVariable, 46),
            (ErrorKind::UndeclaredVariable, 46),
            (ErrorKind::UndeclaredVariable, 47),
            (ErrorKind::UndeclaredVariable, 47),
            (ErrorKind::UndeclaredVariable, 58),
            (ErrorKind::UndeclaredVariable, 62),
            (ErrorKind::UndeclaredVariable, 71),
            (ErrorKind::UndeclaredVariable, 72),
            (ErrorKind::UndeclaredVariable, 72),
        ],
    );
}

#[test]
fn diagnostics_carry_their_messages() {
    let r = analyze(&simple_error_program());
    assert_eq!(r.diagnostics[0].message, "assignment to immutable binding");
    assert_eq!(r.diagnostics[1].message, "use of undeclared variable");
    assert_eq!(r.diagnostics[2].message, "type mismatch");
    assert_eq!(r.diagnostics[3].message, "missing return in non-unit function");
    assert_eq!(r.diagnostics[4].message, "call of undefined function");
}

#[test]
fn fixture_declarations_have_expected_shapes() {
    let a = semck::fixtures::add();
    assert_eq!(a.name, "add");
    assert_eq!(a.params.len(), 2);
    let t = semck::fixtures::test();
    assert_eq!(t.name, "test");
    let v = semck::fixtures::var_test();
    assert_eq!(v.name, "var_test");
    let g5 = semck::fixtures::test_group5();
    assert_eq!(g5.name, "test_group5");
    let g7 = semck::fixtures::test_group7();
    assert_eq!(g7.params.len(), 2);
    let tf = semck::fixtures::test_fn();
    assert_eq!(tf.params.len(), 1);
    let ic = semck::fixtures::invalid_call();
    assert_eq!(ic.name, "invalid_call");
    let tfc = semck::fixtures::test_function_calls();
    assert_eq!(tfc.name, "test_function_calls");
    assert_eq!(semck::fixtures::assign_test().name, "assign_test");
    assert_eq!(semck::fixtures::declare_assign().name, "declare_assign");
    assert_eq!(semck::fixtures::expr_test().name, "expr_test");
    assert_eq!(semck::fixtures::calc_test().name, "calc_test");
    assert_eq!(semck::fixtures::call_test().name, "call_test");
    assert_eq!(semck::fixtures::if_test().name, "if_test");
    assert_eq!(semck::fixtures::while_test().name, "while_test");
    assert_eq!(semck::fixtures::for_test().name, "for_test");
    assert_eq!(semck::fixtures::loop_test().name, "loop_test");
    assert_eq!(semck::fixtures::control_test().name, "control_test");
}

#[test]
fn fixture_analysis_is_repeatable() {
    let r1 = analyze(&grammar_program());
    let r2 = analyze(&grammar_program());
    assert_eq!(r1.accepted, r2.accepted);
    assert_eq!(kind_lines(&r1), kind_lines(&r2));
}
