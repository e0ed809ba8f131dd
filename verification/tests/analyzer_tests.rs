use semck::ast::{BinOp, Block, Expr, FunctionDecl, Param, Pos, Program, Stmt, Ty};
use semck::check::analyze;
use semck::diag::{AnalysisResult, ErrorKind};

fn at(line: u32) -> Pos {
    Pos { line, col: 1 }
}

fn num(v: i64, line: u32) -> Expr {
    Expr::IntLit { value: v, pos: at(line) }
}

fn truth(v: bool, line: u32) -> Expr {
    Expr::BoolLit { value: v, pos: at(line) }
}

fn name(s: &str, line: u32) -> Expr {
    Expr::Ident { name: s.to_string(), pos: at(line) }
}

fn binop(op: BinOp, l: Expr, r: Expr, line: u32) -> Expr {
    Expr::Binary { op, lhs: Box::new(l), rhs: Box::new(r), pos: at(line) }
}

fn call(callee: &str, args: Vec<Expr>, line: u32) -> Expr {
    Expr::Call { callee: callee.to_string(), args, pos: at(line) }
}

fn let_s(mutable: bool, n: &str, ann: Option<Ty>, init: Option<Expr>, line: u32) -> Stmt {
    Stmt::Let { mutable, name: n.to_string(), annotation: ann, init, pos: at(line) }
}

fn assign_s(n: &str, value: Expr, line: u32) -> Stmt {
    Stmt::Assign { name: n.to_string(), value, pos: at(line) }
}

fn expr_s(e: Expr, line: u32) -> Stmt {
    Stmt::ExprStmt { expr: e, pos: at(line) }
}

fn ret_s(v: Option<Expr>, line: u32) -> Stmt {
    Stmt::Return { value: v, pos: at(line) }
}

fn blk(stmts: Vec<Stmt>, tail: Option<Expr>, line: u32) -> Block {
    Block { stmts, tail, pos: at(line) }
}

fn func(n: &str, params: Vec<Param>, ret: Ty, body: Block, line: u32) -> FunctionDecl {
    FunctionDecl { name: n.to_string(), params, return_type: ret, body, pos: at(line) }
}

fn par(n: &str, ty: Ty, line: u32) -> Param {
    Param { mutable: false, name: n.to_string(), ty, pos: at(line) }
}

fn prog(fs: Vec<FunctionDecl>) -> Program {
    Program { functions: fs }
}

fn main_with(stmts: Vec<Stmt>) -> Program {
    prog(vec![func("main", Vec::new(), Ty::Unit, blk(stmts, None, 1), 1)])
}

fn kinds(r: &AnalysisResult) -> Vec<ErrorKind> {
    r.diagnostics.iter().map(|d| d.kind).collect()
}

fn add_decl() -> FunctionDecl {
    let body = blk(
        vec![ret_s(Some(binop(BinOp::Add, name("a", 2), name("b", 2), 2)), 2)],
        None,
        1,
    );
    func(
        "add",
        vec![par("a", Ty::Integer, 1), par("b", Ty::Integer, 1)],
        Ty::Integer,
        body,
        1,
    )
}

#[test]
fn accepted_clean_program() {
    let compute = func(
        "compute",
        vec![par("n", Ty::Integer, 1)],
        Ty::Integer,
        blk(
            vec![
                Stmt::If {
                    cond: binop(BinOp::Gt, name("n", 2), num(0, 2), 2),
                    then_block: blk(vec![ret_s(Some(name("n", 3)), 3)], None, 2),
                    else_block: None,
                    pos: at(2),
                },
                ret_s(Some(num(0, 5)), 5),
            ],
            None,
            1,
        ),
        1,
    );
    let main = func(
        "main",
        Vec::new(),
        Ty::Unit,
        blk(
            vec![
                let_s(false, "r", Some(Ty::Integer), Some(call("compute", vec![num(5, 9)], 9)), 9),
                expr_s(name("r", 10), 10),
            ],
            None,
            8,
        ),
        8,
    );
    let r = analyze(&prog(vec![compute, main]));
    assert!(r.accepted);
    assert!(r.diagnostics.is_empty());
}

#[test]
fn immutability_single_diagnostic() {
    let r = analyze(&main_with(vec![
        let_s(false, "x", Some(Ty::Integer), Some(num(10, 2)), 2),
        assign_s("x", num(50, 3), 3),
    ]));
    assert!(!r.accepted);
    assert_eq!(kinds(&r), vec![ErrorKind::ImmutableAssignment]);
    assert_eq!(r.diagnostics[0].pos, Pos { line: 3, col: 1 });
}

#[test]
fn type_mismatch_bool_annotation() {
    let r = analyze(&main_with(vec![
        let_s(false, "flag", Some(Ty::Boolean), Some(num(42, 2)), 2),
    ]));
    assert_eq!(kinds(&r), vec![ErrorKind::TypeMismatch]);
    assert_eq!(r.diagnostics[0].pos.line, 2);
}

#[test]
fn condition_type_error_once() {
    let r = analyze(&main_with(vec![
        let_s(false, "x", Some(Ty::Integer), Some(num(1, 2)), 2),
        Stmt::If {
            cond: name("x", 3),
            then_block: blk(Vec::new(), None, 3),
            else_block: None,
            pos: at(3),
        },
    ]));
    assert_eq!(kinds(&r), vec![ErrorKind::ConditionTypeError]);
    assert_eq!(r.diagnostics[0].pos.line, 3);
}

#[test]
fn arity_too_few_arguments() {
    let main = func(
        "main",
        Vec::new(),
        Ty::Unit,
        blk(vec![expr_s(call("add", vec![num(10, 5)], 5), 5)], None, 4),
        4,
    );
    let r = analyze(&prog(vec![add_decl(), main]));
    assert_eq!(kinds(&r), vec![ErrorKind::ArityMismatch { expected: 2, given: 1 }]);
}

#[test]
fn arity_too_many_arguments() {
    let main = func(
        "main",
        Vec::new(),
        Ty::Unit,
        blk(
            vec![expr_s(call("add", vec![num(10, 5), num(20, 5), num(30, 5)], 5), 5)],
            None,
            4,
        ),
        4,
    );
    let r = analyze(&prog(vec![add_decl(), main]));
    assert_eq!(kinds(&r), vec![ErrorKind::ArityMismatch { expected: 2, given: 3 }]);
}

#[test]
fn exact_call_is_clean() {
    let main = func(
        "main",
        Vec::new(),
        Ty::Unit,
        blk(
            vec![let_s(
                false,
                "r",
                Some(Ty::Integer),
                Some(call("add", vec![num(10, 5), num(20, 5)], 5)),
                5,
            )],
            None,
            4,
        ),
        4,
    );
    let r = analyze(&prog(vec![add_decl(), main]));
    assert!(r.accepted);
    assert!(r.diagnostics.is_empty());
}

#[test]
fn call_type_is_signature_return_type() {
    // Binding the integer-returning call to a boolean is the only mistake.
    let main = func(
        "main",
        Vec::new(),
        Ty::Unit,
        blk(
            vec![let_s(
                false,
                "q",
                Some(Ty::Boolean),
                Some(call("add", vec![num(10, 5), num(20, 5)], 5)),
                5,
            )],
            None,
            4,
        ),
        4,
    );
    let r = analyze(&prog(vec![add_decl(), main]));
    assert_eq!(kinds(&r), vec![ErrorKind::TypeMismatch]);
}

#[test]
fn duplicate_function_reported_once_at_second() {
    let f1 = func(
        "f",
        Vec::new(),
        Ty::Integer,
        blk(vec![ret_s(Some(num(1, 2)), 2)], None, 1),
        1,
    );
    let f2 = func(
        "f",
        Vec::new(),
        Ty::Boolean,
        blk(vec![ret_s(Some(truth(true, 5)), 5)], None, 4),
        4,
    );
    // The first declaration stays authoritative: the call types as Integer.
    let main = func(
        "main",
        Vec::new(),
        Ty::Unit,
        blk(
            vec![let_s(false, "x", Some(Ty::Integer), Some(call("f", Vec::new(), 8)), 8)],
            None,
            7,
        ),
        7,
    );
    let r = analyze(&prog(vec![f1, f2, main]));
    assert_eq!(kinds(&r), vec![ErrorKind::DuplicateDefinition]);
    assert_eq!(r.diagnostics[0].pos.line, 4);
}

#[test]
fn analysis_is_idempotent() {
    let build = || {
        main_with(vec![
            let_s(false, "x", Some(Ty::Integer), Some(num(10, 2)), 2),
            assign_s("x", num(50, 3), 3),
            assign_s("zz", num(1, 4), 4),
        ])
    };
    let p1 = build();
    let p2 = build();
    let r1 = analyze(&p1);
    let r2 = analyze(&p2);
    assert_eq!(r1.accepted, r2.accepted);
    assert_eq!(r1.diagnostics.len(), r2.diagnostics.len());
    let mut i: usize = 0;
    while i < r1.diagnostics.len() {
        assert_eq!(r1.diagnostics[i].kind, r2.diagnostics[i].kind);
        assert_eq!(r1.diagnostics[i].pos, r2.diagnostics[i].pos);
        assert_eq!(r1.diagnostics[i].message, r2.diagnostics[i].message);
        i += 1;
    }
}

#[test]
fn scope_exit_discards_binding() {
    // `b` is declared inside the inner block only; its use after the block
    // closes is the single diagnostic.
    let r = analyze(&main_with(vec![
        let_s(false, "a", Some(Ty::Integer), Some(num(1, 2)), 2),
        Stmt::BlockStmt {
            block: blk(
                vec![
                    let_s(false, "b", Some(Ty::Integer), Some(num(2, 4)), 4),
                    expr_s(name("b", 5), 5),
                ],
                None,
                3,
            ),
            pos: at(3),
        },
        expr_s(name("b", 7), 7),
    ]));
    assert_eq!(kinds(&r), vec![ErrorKind::UndeclaredVariable]);
    assert_eq!(r.diagnostics[0].pos.line, 7);
}

#[test]
fn scope_exit_restores_enclosing_binding() {
    // The inner immutable boolean `a` dies with its block; the assignment
    // after it sees the enclosing mutable integer again and is legal.
    let r = analyze(&main_with(vec![
        let_s(true, "a", Some(Ty::Integer), Some(num(1, 2)), 2),
        Stmt::BlockStmt {
            block: blk(
                vec![let_s(false, "a", Some(Ty::Boolean), Some(truth(true, 4)), 4)],
                None,
                3,
            ),
            pos: at(3),
        },
        assign_s("a", num(5, 6), 6),
    ]));
    assert!(r.accepted);
    assert!(r.diagnostics.is_empty());
}

#[test]
fn same_scope_shadowing_is_legal() {
    // The second `a` (mutable boolean) is the one later uses resolve to.
    let r = analyze(&main_with(vec![
        let_s(false, "a", Some(Ty::Integer), Some(num(1, 2)), 2),
        let_s(true, "a", Some(Ty::Boolean), Some(truth(true, 3)), 3),
        assign_s("a", truth(false, 4), 4),
    ]));
    assert!(r.accepted);
    assert!(r.diagnostics.is_empty());
}

#[test]
fn shadowed_binding_type_is_unreachable() {
    // After the integer `a` shadows the boolean one, assigning a boolean
    // mismatches: lookup must yield the newest binding exclusively.
    let r = analyze(&main_with(vec![
        let_s(true, "a", Some(Ty::Boolean), Some(truth(true, 2)), 2),
        let_s(true, "a", Some(Ty::Integer), Some(num(1, 3)), 3),
        assign_s("a", truth(false, 4), 4),
    ]));
    assert_eq!(kinds(&r), vec![ErrorKind::TypeMismatch]);
}

#[test]
fn break_outside_loop() {
    let r = analyze(&main_with(vec![Stmt::Break { pos: at(2) }]));
    assert_eq!(kinds(&r), vec![ErrorKind::MisplacedControlFlow]);
}

#[test]
fn continue_outside_loop_inside_if() {
    let r = analyze(&main_with(vec![Stmt::If {
        cond: truth(true, 2),
        then_block: blk(vec![Stmt::Continue { pos: at(3) }], None, 2),
        else_block: None,
        pos: at(2),
    }]));
    assert_eq!(kinds(&r), vec![ErrorKind::MisplacedControlFlow]);
    assert_eq!(r.diagnostics[0].pos.line, 3);
}

#[test]
fn break_inside_loop_is_legal() {
    let r = analyze(&main_with(vec![Stmt::Loop {
        body: blk(vec![Stmt::Break { pos: at(3) }], None, 2),
        pos: at(2),
    }]));
    assert!(r.accepted);
}

#[test]
fn recursion_limit_reported() {
    let mut e = num(1, 2);
    let mut k: usize = 0;
    while k < 200 {
        e = binop(BinOp::Add, e, num(1, 2), 2);
        k += 1;
    }
    let r = analyze(&main_with(vec![expr_s(e, 2)]));
    assert!(!r.accepted);
    assert!(r
        .diagnostics
        .iter()
        .any(|d| d.kind == ErrorKind::RecursionLimitExceeded));
}

#[test]
fn return_type_mismatch() {
    let f = func(
        "f",
        Vec::new(),
        Ty::Integer,
        blk(vec![ret_s(Some(truth(true, 2)), 2)], None, 1),
        1,
    );
    let r = analyze(&prog(vec![f]));
    assert_eq!(kinds(&r), vec![ErrorKind::ReturnTypeMismatch]);
}

#[test]
fn bare_return_in_integer_function() {
    let f = func(
        "f",
        Vec::new(),
        Ty::Integer,
        blk(vec![ret_s(None, 2)], None, 1),
        1,
    );
    let r = analyze(&prog(vec![f]));
    assert_eq!(kinds(&r), vec![ErrorKind::ReturnTypeMismatch]);
}

#[test]
fn missing_return_reported_at_declaration() {
    let f = func(
        "f",
        Vec::new(),
        Ty::Integer,
        blk(vec![let_s(false, "x", Some(Ty::Integer), Some(num(1, 2)), 2)], None, 1),
        1,
    );
    let r = analyze(&prog(vec![f]));
    assert_eq!(kinds(&r), vec![ErrorKind::MissingReturn]);
    assert_eq!(r.diagnostics[0].pos.line, 1);
}

#[test]
fn tail_expression_counts_as_return() {
    let f = func(
        "f",
        Vec::new(),
        Ty::Integer,
        blk(Vec::new(), Some(num(7, 2)), 1),
        1,
    );
    let r = analyze(&prog(vec![f]));
    assert!(r.accepted);
    assert!(r.diagnostics.is_empty());
}

#[test]
fn value_if_requires_else() {
    let init = Expr::IfExpr {
        cond: Box::new(truth(true, 2)),
        then_block: Box::new(blk(Vec::new(), Some(num(1, 2)), 2)),
        else_block: None,
        pos: at(2),
    };
    let r = analyze(&main_with(vec![let_s(false, "v", Some(Ty::Integer), Some(init), 2)]));
    assert_eq!(kinds(&r), vec![ErrorKind::TypeMismatch]);
}

#[test]
fn value_if_with_matching_branches() {
    let init = Expr::IfExpr {
        cond: Box::new(truth(true, 2)),
        then_block: Box::new(blk(Vec::new(), Some(num(1, 2)), 2)),
        else_block: Some(Box::new(blk(Vec::new(), Some(num(2, 2)), 2))),
        pos: at(2),
    };
    let r = analyze(&main_with(vec![let_s(false, "v", Some(Ty::Integer), Some(init), 2)]));
    assert!(r.accepted);
}

#[test]
fn value_if_with_mismatched_branches() {
    let init = Expr::IfExpr {
        cond: Box::new(truth(true, 2)),
        then_block: Box::new(blk(Vec::new(), Some(num(1, 2)), 2)),
        else_block: Some(Box::new(blk(Vec::new(), Some(truth(false, 2)), 2))),
        pos: at(2),
    };
    let r = analyze(&main_with(vec![let_s(false, "v", None, Some(init), 2)]));
    assert_eq!(kinds(&r), vec![ErrorKind::TypeMismatch]);
}

#[test]
fn unannotated_uninitialized_let() {
    let r = analyze(&main_with(vec![let_s(false, "y", None, None, 2)]));
    assert_eq!(kinds(&r), vec![ErrorKind::TypeMismatch]);
}

#[test]
fn for_loop_variable_scoped_to_body() {
    let r = analyze(&main_with(vec![
        Stmt::For {
            mutable: true,
            var: "i".to_string(),
            start: num(0, 2),
            end: num(3, 2),
            body: blk(vec![expr_s(name("i", 3), 3)], None, 2),
            pos: at(2),
        },
        expr_s(name("i", 5), 5),
    ]));
    assert_eq!(kinds(&r), vec![ErrorKind::UndeclaredVariable]);
    assert_eq!(r.diagnostics[0].pos.line, 5);
}

#[test]
fn for_loop_variable_honors_declared_mutability() {
    let r = analyze(&main_with(vec![Stmt::For {
        mutable: false,
        var: "i".to_string(),
        start: num(0, 2),
        end: num(3, 2),
        body: blk(vec![assign_s("i", num(9, 3), 3)], None, 2),
        pos: at(2),
    }]));
    assert_eq!(kinds(&r), vec![ErrorKind::ImmutableAssignment]);
}

#[test]
fn for_loop_bounds_must_be_integers() {
    let r = analyze(&main_with(vec![Stmt::For {
        mutable: true,
        var: "i".to_string(),
        start: truth(true, 2),
        end: num(3, 2),
        body: blk(Vec::new(), None, 2),
        pos: at(2),
    }]));
    assert_eq!(kinds(&r), vec![ErrorKind::TypeMismatch]);
}

#[test]
fn forward_reference_resolves() {
    // `main` calls `later`, declared after it: the pre-pass makes it visible.
    let main = func(
        "main",
        Vec::new(),
        Ty::Unit,
        blk(vec![expr_s(call("later", Vec::new(), 2), 2)], None, 1),
        1,
    );
    let later = func(
        "later",
        Vec::new(),
        Ty::Unit,
        blk(vec![ret_s(None, 5)], None, 4),
        4,
    );
    let r = analyze(&prog(vec![main, later]));
    assert!(r.accepted);
    assert!(r.diagnostics.is_empty());
}

#[test]
fn error_recovery_does_not_cascade() {
    // One undeclared name inside arithmetic produces exactly one diagnostic:
    // the error type silences the enclosing operations.
    let r = analyze(&main_with(vec![let_s(
        false,
        "x",
        Some(Ty::Integer),
        Some(binop(
            BinOp::Add,
            name("missing", 2),
            num(1, 2),
            2,
        )),
        2,
    )]));
    assert_eq!(kinds(&r), vec![ErrorKind::UndeclaredVariable]);
}
