//! Sample programs in the analyzed language, written out as syntax trees.
//!
//! Each function here builds the declaration of one function of the sample
//! corpus — variable declaration and assignment, expression blocks, choice
//! and loop constructs, function calls, and deliberately ill-formed
//! declarations that exercise each diagnostic — and the `_program` builders
//! assemble whole programs from them. Each node's position gives the line
//! the construct occupies when the sample is written out as source text.

use crate::ast::{BinOp, Block, Expr, FunctionDecl, Param, Pos, Program, Stmt, Ty};
use vstd::prelude::*;

verus! {

/// The position of a construct that starts a source line.
fn sp(line: u32) -> (p: Pos)
    ensures
        p == (Pos { line, col: 1 }),
{
    Pos { line, col: 1 }
}

fn lit_int(value: i64, line: u32) -> Expr {
    Expr::IntLit { value, pos: sp(line) }
}

fn lit_bool(value: bool, line: u32) -> Expr {
    Expr::BoolLit { value, pos: sp(line) }
}

fn lit_str(line: u32) -> Expr {
    Expr::StrLit { pos: sp(line) }
}

fn var(name: &str, line: u32) -> Expr {
    Expr::Ident { name: String::from_str(name), pos: sp(line) }
}

fn bin(op: BinOp, lhs: Expr, rhs: Expr, line: u32) -> Expr {
    Expr::Binary { op, lhs: Box::new(lhs), rhs: Box::new(rhs), pos: sp(line) }
}

fn call_to(callee: &str, args: Vec<Expr>, line: u32) -> Expr {
    Expr::Call { callee: String::from_str(callee), args, pos: sp(line) }
}

fn let_stmt(mutable: bool, name: &str, annotation: Option<Ty>, init: Option<Expr>, line: u32) -> Stmt {
    Stmt::Let { mutable, name: String::from_str(name), annotation, init, pos: sp(line) }
}

fn assign_stmt(name: &str, value: Expr, line: u32) -> Stmt {
    Stmt::Assign { name: String::from_str(name), value, pos: sp(line) }
}

fn expr_stmt(expr: Expr, line: u32) -> Stmt {
    Stmt::ExprStmt { expr, pos: sp(line) }
}

fn if_stmt(cond: Expr, then_block: Block, else_block: Option<Block>, line: u32) -> Stmt {
    Stmt::If { cond, then_block, else_block, pos: sp(line) }
}

fn while_stmt(cond: Expr, body: Block, line: u32) -> Stmt {
    Stmt::While { cond, body, pos: sp(line) }
}

fn for_stmt(mutable: bool, v: &str, start: Expr, end: Expr, body: Block, line: u32) -> Stmt {
    Stmt::For { mutable, var: String::from_str(v), start, end, body, pos: sp(line) }
}

fn loop_stmt(body: Block, line: u32) -> Stmt {
    Stmt::Loop { body, pos: sp(line) }
}

fn break_stmt(line: u32) -> Stmt {
    Stmt::Break { pos: sp(line) }
}

fn continue_stmt(line: u32) -> Stmt {
    Stmt::Continue { pos: sp(line) }
}

fn return_stmt(value: Option<Expr>, line: u32) -> Stmt {
    Stmt::Return { value, pos: sp(line) }
}

fn block(stmts: Vec<Stmt>, tail: Option<Expr>, line: u32) -> Block {
    Block { stmts, tail, pos: sp(line) }
}

fn param(mutable: bool, name: &str, ty: Ty, line: u32) -> Param {
    Param { mutable, name: String::from_str(name), ty, pos: sp(line) }
}

/// Builds a function declaration from its parts.
fn decl(name: &str, params: Vec<Param>, return_type: Ty, body: Block, line: u32) -> (f:
    FunctionDecl)
    ensures
        f.name@ == name@,
        f.params@ == params@,
        f.return_type == return_type,
{
    FunctionDecl { name: String::from_str(name), params, return_type, body, pos: sp(line) }
}

/// Loop structures: a `for` over a range, and a `loop` steered with `break`
/// and `continue`, each accumulating into a shadow-prone set of counters.
pub fn test_group5() -> (f: FunctionDecl)
    ensures
        f.name@ == "test_group5"@,
        f.params@.len() == 0,
        f.return_type == Ty::Unit,
{
    let for_body = block(
        vec![
            assign_stmt("sum1", bin(BinOp::Add, var("sum1", 6), var("i", 6), 6), 6),
        ],
        None,
        5,
    );
    let loop_body = block(
        vec![
            assign_stmt("i", bin(BinOp::Add, var("i", 13), lit_int(1, 13), 13), 13),
            if_stmt(
                bin(BinOp::Gt, var("i", 14), lit_int(10, 14), 14),
                block(vec![break_stmt(15)], None, 14),
                None,
                14,
            ),
            if_stmt(
                bin(BinOp::EqEq, var("i", 17), lit_int(5, 17), 17),
                block(vec![continue_stmt(18)], None, 17),
                None,
                17,
            ),
            assign_stmt("sum2", bin(BinOp::Add, var("sum2", 20), var("i", 20), 20), 20),
        ],
        None,
        12,
    );
    let body = block(
        vec![
            let_stmt(true, "sum1", None, Some(lit_int(0, 4)), 4),
            for_stmt(true, "i", lit_int(1, 5), lit_int(10, 5), for_body, 5),
            let_stmt(true, "sum2", None, Some(lit_int(0, 10)), 10),
            let_stmt(true, "i", None, Some(lit_int(0, 11)), 11),
            loop_stmt(loop_body, 12),
            return_stmt(None, 23),
        ],
        None,
        2,
    );
    decl("test_group5", Vec::new(), Ty::Unit, body, 2)
}

/// Expression blocks: a block expression initializer, an `if` used in value
/// position, and a returned result. The inner blocks end their last
/// expression with `;`, so each block's value is unit — which the analysis
/// duly reports where an integer is then expected.
pub fn test_group7() -> (f: FunctionDecl)
    ensures
        f.name@ == "test_group7"@,
        f.params@.len() == 2,
        f.return_type == Ty::Integer,
{
    let z_init = Expr::BlockExpr {
        block: Box::new(
            block(
                vec![
                    let_stmt(
                        true,
                        "t",
                        None,
                        Some(
                            bin(
                                BinOp::Add,
                                bin(BinOp::Mul, var("x", 30), var("x", 30), 30),
                                var("x", 30),
                                30,
                            ),
                        ),
                        30,
                    ),
                    assign_stmt(
                        "t",
                        bin(
                            BinOp::Add,
                            var("t", 31),
                            bin(BinOp::Mul, var("x", 31), var("y", 31), 31),
                            31,
                        ),
                        31,
                    ),
                    expr_stmt(var("t", 32), 32),
                ],
                None,
                29,
            ),
        ),
        pos: sp(29),
    };
    let result_init = Expr::IfExpr {
        cond: Box::new(bin(BinOp::Gt, var("z", 36), lit_int(10, 36), 36)),
        then_block: Box::new(
            block(
                vec![expr_stmt(bin(BinOp::Sub, var("z", 37), lit_int(5, 37), 37), 37)],
                None,
                36,
            ),
        ),
        else_block: Some(
            Box::new(
                block(
                    vec![expr_stmt(bin(BinOp::Add, var("z", 39), lit_int(5, 39), 39), 39)],
                    None,
                    38,
                ),
            ),
        ),
        pos: sp(36),
    };
    let body = block(
        vec![
            let_stmt(true, "z", None, Some(z_init), 29),
            let_stmt(true, "result", None, Some(result_init), 36),
            return_stmt(Some(var("result", 44)), 44),
        ],
        None,
        27,
    );
    let params = vec![param(true, "x", Ty::Integer, 27), param(true, "y", Ty::Integer, 27)];
    decl("test_group7", params, Ty::Integer, body, 27)
}

/// A correct two-parameter integer function: `return a + b;`.
pub fn add() -> (f: FunctionDecl)
    ensures
        f.name@ == "add"@,
        f.params@.len() == 2,
        f.return_type == Ty::Integer,
{
    let body = block(
        vec![return_stmt(Some(bin(BinOp::Add, var("a", 46), var("b", 46), 46)), 46)],
        None,
        45,
    );
    let params = vec![param(false, "a", Ty::Integer, 45), param(false, "b", Ty::Integer, 45)];
    decl("add", params, Ty::Integer, body, 45)
}

/// Call-site errors: a call of an undefined function, a call with too few
/// arguments, one with too many, and finally a correct call.
pub fn test_function_calls() -> (f: FunctionDecl)
    ensures
        f.name@ == "test_function_calls"@,
        f.params@.len() == 0,
        f.return_type == Ty::Integer,
{
    let body = block(
        vec![
            let_stmt(
                false,
                "result1",
                None,
                Some(call_to("undefined_function", vec![lit_int(10, 51)], 51)),
                51,
            ),
            let_stmt(false, "result2", None, Some(call_to("add", vec![lit_int(10, 54)], 54)), 54),
            let_stmt(
                false,
                "result3",
                None,
                Some(
                    call_to(
                        "add",
                        vec![lit_int(10, 55), lit_int(20, 55), lit_int(30, 55)],
                        55,
                    ),
                ),
                55,
            ),
            let_stmt(
                false,
                "result4",
                None,
                Some(call_to("add", vec![lit_int(10, 58), lit_int(20, 58)], 58)),
                58,
            ),
            return_stmt(Some(var("result4", 60)), 60),
        ],
        None,
        49,
    );
    decl("test_function_calls", Vec::new(), Ty::Integer, body, 49)
}

/// A non-unit function whose body provides no return at all.
pub fn test() -> (f: FunctionDecl)
    ensures
        f.name@ == "test"@,
        f.params@.len() == 0,
        f.return_type == Ty::Integer,
{
    decl("test", Vec::new(), Ty::Integer, block(Vec::new(), None, 11), 11)
}

/// Calls whose callees are not declared anywhere in the surrounding
/// program.
pub fn invalid_call() -> (f: FunctionDecl)
    ensures
        f.name@ == "invalid_call"@,
        f.params@.len() == 0,
        f.return_type == Ty::Unit,
{
    let body = block(
        vec![
            expr_stmt(
                call_to("add", vec![lit_int(1, 17), lit_int(2, 17), lit_int(3, 17)], 17),
                17,
            ),
            expr_stmt(call_to("unknown_func", Vec::new(), 18), 18),
        ],
        None,
        16,
    );
    decl("invalid_call", Vec::new(), Ty::Unit, body, 16)
}

/// A unit function with one mutable parameter and a bare `return;`.
pub fn test_fn() -> (f: FunctionDecl)
    ensures
        f.name@ == "test_fn"@,
        f.params@.len() == 1,
        f.return_type == Ty::Unit,
{
    let body = block(vec![return_stmt(None, 10)], None, 9);
    decl("test_fn", vec![param(true, "x", Ty::Integer, 9)], Ty::Unit, body, 9)
}

/// Variable declarations: one annotated without an initializer (legal), and
/// one with neither annotation nor initializer (reported).
pub fn var_test() -> (f: FunctionDecl)
    ensures
        f.name@ == "var_test"@,
        f.params@.len() == 0,
        f.return_type == Ty::Unit,
{
    let body = block(
        vec![
            let_stmt(true, "x", Some(Ty::Integer), None, 20),
            let_stmt(false, "y", None, None, 21),
        ],
        None,
        19,
    );
    decl("var_test", Vec::new(), Ty::Unit, body, 19)
}

/// Assignment to a declared mutable binding.
pub fn assign_test() -> (f: FunctionDecl)
    ensures
        f.name@ == "assign_test"@,
        f.params@.len() == 0,
        f.return_type == Ty::Unit,
{
    let body = block(
        vec![
            let_stmt(true, "x", Some(Ty::Integer), None, 26),
            assign_stmt("x", lit_int(42, 27), 27),
        ],
        None,
        25,
    );
    decl("assign_test", Vec::new(), Ty::Unit, body, 25)
}

/// Declaration with initialization, annotated and inferred.
pub fn declare_assign() -> (f: FunctionDecl)
    ensures
        f.name@ == "declare_assign"@,
        f.params@.len() == 0,
        f.return_type == Ty::Unit,
{
    let body = block(
        vec![
            let_stmt(true, "x", Some(Ty::Integer), Some(lit_int(10, 32)), 32),
            let_stmt(false, "y", None, Some(lit_int(20, 33)), 33),
        ],
        None,
        31,
    );
    decl("declare_assign", Vec::new(), Ty::Unit, body, 31)
}

/// Basic expressions in statement position; `x` is not declared.
pub fn expr_test() -> (f: FunctionDecl)
    ensures
        f.name@ == "expr_test"@,
        f.params@.len() == 0,
        f.return_type == Ty::Unit,
{
    let body = block(
        vec![
            expr_stmt(lit_int(42, 38), 38),
            expr_stmt(var("x", 39), 39),
            expr_stmt(bin(BinOp::Add, lit_int(1, 40), lit_int(2, 40), 40), 40),
        ],
        None,
        37,
    );
    decl("expr_test", Vec::new(), Ty::Unit, body, 37)
}

/// Arithmetic and comparisons over undeclared names.
pub fn calc_test() -> (f: FunctionDecl)
    ensures
        f.name@ == "calc_test"@,
        f.params@.len() == 0,
        f.return_type == Ty::Unit,
{
    let body = block(
        vec![
            expr_stmt(
                bin(
                    BinOp::Add,
                    lit_int(1, 45),
                    bin(BinOp::Mul, lit_int(2, 45), lit_int(3, 45), 45),
                    45,
                ),
                45,
            ),
            expr_stmt(bin(BinOp::Lt, var("x", 46), var("y", 46), 46), 46),
            expr_stmt(bin(BinOp::EqEq, var("a", 47), var("b", 47), 47), 47),
        ],
        None,
        44,
    );
    decl("calc_test", Vec::new(), Ty::Unit, body, 44)
}

/// Correct calls of functions declared elsewhere in the same program.
pub fn call_test() -> (f: FunctionDecl)
    ensures
        f.name@ == "call_test"@,
        f.params@.len() == 0,
        f.return_type == Ty::Unit,
{
    let body = block(
        vec![
            expr_stmt(call_to("test_fn", vec![lit_int(42, 52)], 52), 52),
            expr_stmt(call_to("add", vec![lit_int(1, 53), lit_int(2, 53)], 53), 53),
        ],
        None,
        51,
    );
    decl("call_test", Vec::new(), Ty::Unit, body, 51)
}

/// Choice structures over undeclared names.
pub fn if_test() -> (f: FunctionDecl)
    ensures
        f.name@ == "if_test"@,
        f.params@.len() == 0,
        f.return_type == Ty::Unit,
{
    let body = block(
        vec![
            if_stmt(
                bin(BinOp::Gt, var("x", 58), lit_int(0, 58), 58),
                block(Vec::new(), None, 58),
                None,
                58,
            ),
            if_stmt(
                bin(BinOp::Lt, var("y", 62), lit_int(10, 62), 62),
                block(Vec::new(), None, 62),
                Some(block(Vec::new(), None, 64)),
                62,
            ),
        ],
        None,
        57,
    );
    decl("if_test", Vec::new(), Ty::Unit, body, 57)
}

/// A `while` loop over an undeclared name.
pub fn while_test() -> (f: FunctionDecl)
    ensures
        f.name@ == "while_test"@,
        f.params@.len() == 0,
        f.return_type == Ty::Unit,
{
    let body = block(
        vec![
            while_stmt(
                bin(BinOp::Gt, var("x", 71), lit_int(0, 71), 71),
                block(
                    vec![
                        assign_stmt("x", bin(BinOp::Sub, var("x", 72), lit_int(1, 72), 72), 72),
                    ],
                    None,
                    71,
                ),
                71,
            ),
        ],
        None,
        70,
    );
    decl("while_test", Vec::new(), Ty::Unit, body, 70)
}

/// A `for` loop over a literal range with an empty body.
pub fn for_test() -> (f: FunctionDecl)
    ensures
        f.name@ == "for_test"@,
        f.params@.len() == 0,
        f.return_type == Ty::Unit,
{
    let body = block(
        vec![
            for_stmt(true, "i", lit_int(0, 78), lit_int(10, 78), block(Vec::new(), None, 78), 78),
        ],
        None,
        77,
    );
    decl("for_test", Vec::new(), Ty::Unit, body, 77)
}

/// A `loop` immediately left with `break`.
pub fn loop_test() -> (f: FunctionDecl)
    ensures
        f.name@ == "loop_test"@,
        f.params@.len() == 0,
        f.return_type == Ty::Unit,
{
    let body = block(
        vec![loop_stmt(block(vec![break_stmt(86)], None, 85), 85)],
        None,
        84,
    );
    decl("loop_test", Vec::new(), Ty::Unit, body, 84)
}

/// `continue` and `break` inside a `while true` loop.
pub fn control_test() -> (f: FunctionDecl)
    ensures
        f.name@ == "control_test"@,
        f.params@.len() == 0,
        f.return_type == Ty::Unit,
{
    let body = block(
        vec![
            while_stmt(
                lit_bool(true, 92),
                block(vec![continue_stmt(93), break_stmt(94)], None, 92),
                92,
            ),
        ],
        None,
        91,
    );
    decl("control_test", Vec::new(), Ty::Unit, body, 91)
}

/// The loop-structure sample program: `test_group5`, `test_group7`, and a
/// `main` that calls both.
pub fn blue_final_program() -> (p: Program)
    ensures
        p.functions@.len() == 3,
{
    let main_body = block(
        vec![
            expr_stmt(call_to("test_group5", Vec::new(), 49), 49),
            let_stmt(
                false,
                "result",
                None,
                Some(call_to("test_group7", vec![lit_int(3, 50), lit_int(4, 50)], 50)),
                50,
            ),
            return_stmt(None, 51),
        ],
        None,
        48,
    );
    let main = decl("main", Vec::new(), Ty::Unit, main_body, 48);
    Program { functions: vec![test_group5(), test_group7(), main] }
}

/// The error-laden sample program: a `main` with one of each scoping,
/// mutability, and typing mistake, a duplicate `main`, a correct `add`, and
/// call-site errors.
pub fn error_sample_program() -> (p: Program)
    ensures
        p.functions@.len() == 4,
{
    let main_body = block(
        vec![
            let_stmt(false, "x", Some(Ty::Integer), Some(lit_int(10, 6)), 6),
            let_stmt(true, "y", Some(Ty::Integer), Some(lit_int(20, 7)), 7),
            let_stmt(false, "x", Some(Ty::Integer), Some(lit_int(30, 10)), 10),
            let_stmt(false, "z", None, Some(var("undefined_var", 13)), 13),
            assign_stmt("x", lit_int(50, 16), 16),
            assign_stmt("y", lit_int(100, 19), 19),
            let_stmt(false, "flag", Some(Ty::Boolean), Some(lit_int(42, 22)), 22),
            if_stmt(
                var("x", 25),
                block(vec![assign_stmt("y", lit_int(200, 26), 26)], None, 25),
                None,
                25,
            ),
            if_stmt(
                bin(BinOp::Gt, var("x", 30), var("y", 30), 30),
                block(vec![assign_stmt("y", var("x", 31), 31)], None, 30),
                None,
                30,
            ),
            return_stmt(Some(lit_bool(true, 35)), 35),
        ],
        None,
        4,
    );
    let main1 = decl("main", Vec::new(), Ty::Integer, main_body, 4);
    let main2_body = block(vec![return_stmt(Some(lit_bool(false, 41)), 41)], None, 40);
    let main2 = decl("main", Vec::new(), Ty::Boolean, main2_body, 40);
    Program {
        functions: vec![main1, main2, crate::fixtures::add(), test_function_calls()],
    }
}

/// The small error sample: immutable assignment, an undeclared target, a
/// string initializer for an integer, a missing return, and undefined
/// callees.
pub fn simple_error_program() -> (p: Program)
    ensures
        p.functions@.len() == 3,
{
    let main_body = block(
        vec![
            let_stmt(false, "x", None, Some(lit_int(42, 2)), 2),
            let_stmt(false, "y", Some(Ty::Integer), None, 3),
            assign_stmt("x", lit_int(10, 4), 4),
            assign_stmt("z", lit_int(5, 5), 5),
            let_stmt(true, "a", Some(Ty::Integer), Some(lit_str(8)), 8),
        ],
        None,
        1,
    );
    let main = decl("main", Vec::new(), Ty::Unit, main_body, 1);
    Program { functions: vec![main, test(), invalid_call()] }
}

/// The grammar sample program: one small function per construct of the
/// grammar, several of them using names they never declare.
pub fn grammar_program() -> (p: Program)
    ensures
        p.functions@.len() == 14,
{
    let main = decl("main", Vec::new(), Ty::Unit, block(Vec::new(), None, 4), 4);
    let grammar_add_body = block(
        vec![return_stmt(Some(bin(BinOp::Add, var("a", 15), var("b", 15), 15)), 15)],
        None,
        14,
    );
    let grammar_add = decl(
        "add",
        vec![param(true, "a", Ty::Integer, 14), param(true, "b", Ty::Integer, 14)],
        Ty::Integer,
        grammar_add_body,
        14,
    );
    Program {
        functions: vec![
            main,
            test_fn(),
            grammar_add,
            var_test(),
            assign_test(),
            declare_assign(),
            expr_test(),
            calc_test(),
            call_test(),
            if_test(),
            while_test(),
            for_test(),
            loop_test(),
            control_test(),
        ],
    }
}

/// The combined sample: declarations with inference, a steered loop, and a
/// shadowing redeclaration, all well formed.
pub fn blue_combined_program() -> (p: Program)
    ensures
        p.functions@.len() == 1,
{
    let loop_body = block(
        vec![
            assign_stmt("i", bin(BinOp::Add, var("i", 9), lit_int(1, 9), 9), 9),
            if_stmt(
                bin(BinOp::Gt, var("i", 10), lit_int(5, 10), 10),
                block(vec![break_stmt(11)], None, 10),
                None,
                10,
            ),
            if_stmt(
                bin(
                    BinOp::EqEq,
                    bin(BinOp::Mod, var("i", 13), lit_int(2, 13), 13),
                    lit_int(0, 13),
                    13,
                ),
                block(vec![continue_stmt(14)], None, 13),
                None,
                13,
            ),
            assign_stmt("a", bin(BinOp::Add, var("a", 16), var("i", 16), 16), 16),
        ],
        None,
        8,
    );
    let main_body = block(
        vec![
            let_stmt(true, "a", Some(Ty::Integer), Some(lit_int(1, 3)), 3),
            let_stmt(true, "b", None, Some(lit_int(2, 4)), 4),
            let_stmt(true, "i", Some(Ty::Integer), Some(lit_int(0, 7)), 7),
            loop_stmt(loop_body, 8),
            let_stmt(true, "a", None, Some(lit_int(10, 20)), 20),
            assign_stmt("b", var("a", 21), 21),
        ],
        None,
        1,
    );
    Program { functions: vec![decl("main", Vec::new(), Ty::Unit, main_body, 1)] }
}

/// The second combined sample: a loop, then a block expression and an `if`
/// expression whose branches end in `;` — their values are unit, so the
/// integer comparisons and arithmetic on them are reported.
pub fn blue_combined2_program() -> (p: Program)
    ensures
        p.functions@.len() == 1,
{
    let loop_body = block(
        vec![
            assign_stmt("i", bin(BinOp::Add, var("i", 10), lit_int(1, 10), 10), 10),
            if_stmt(
                bin(BinOp::Gt, var("i", 11), lit_int(10, 11), 11),
                block(vec![break_stmt(12)], None, 11),
                None,
                11,
            ),
            if_stmt(
                bin(BinOp::EqEq, var("i", 14), lit_int(5, 14), 14),
                block(vec![continue_stmt(15)], None, 14),
                None,
                14,
            ),
        ],
        None,
        9,
    );
    let c_init = Expr::BlockExpr {
        block: Box::new(
            block(
                vec![
                    let_stmt(
                        true,
                        "t",
                        None,
                        Some(bin(BinOp::Mul, var("a", 20), var("a", 20), 20)),
                        20,
                    ),
                    assign_stmt("t", bin(BinOp::Add, var("t", 21), var("b", 21), 21), 21),
                    expr_stmt(var("t", 22), 22),
                ],
                None,
                19,
            ),
        ),
        pos: sp(19),
    };
    let d_init = Expr::IfExpr {
        cond: Box::new(bin(BinOp::Gt, var("c", 26), lit_int(10, 26), 26)),
        then_block: Box::new(
            block(
                vec![expr_stmt(bin(BinOp::Sub, var("c", 27), lit_int(5, 27), 27), 27)],
                None,
                26,
            ),
        ),
        else_block: Some(
            Box::new(
                block(
                    vec![expr_stmt(bin(BinOp::Add, var("c", 29), lit_int(5, 29), 29), 29)],
                    None,
                    28,
                ),
            ),
        ),
        pos: sp(26),
    };
    let main_body = block(
        vec![
            let_stmt(true, "a", Some(Ty::Integer), Some(lit_int(1, 4)), 4),
            let_stmt(true, "b", None, Some(lit_int(2, 5)), 5),
            let_stmt(true, "i", None, Some(lit_int(0, 8)), 8),
            loop_stmt(loop_body, 9),
            let_stmt(true, "c", None, Some(c_init), 19),
            let_stmt(true, "d", None, Some(d_init), 26),
        ],
        None,
        2,
    );
    Program { functions: vec![decl("main", Vec::new(), Ty::Unit, main_body, 2)] }
}

/// The shadowing sample: three declarations of `a` in one scope, then two
/// further bindings, one of which is used. Entirely well formed.
pub fn shadow_program() -> (p: Program)
    ensures
        p.functions@.len() == 1,
{
    let main_body = block(
        vec![
            let_stmt(true, "a", Some(Ty::Integer), Some(lit_int(1, 2)), 2),
            let_stmt(true, "a", None, Some(lit_int(2, 3)), 3),
            let_stmt(true, "a", Some(Ty::Integer), Some(lit_int(3, 4)), 4),
            let_stmt(false, "b", None, Some(lit_int(10, 6)), 6),
            let_stmt(false, "c", None, Some(lit_int(20, 7)), 7),
            expr_stmt(var("c", 9), 9),
        ],
        None,
        1,
    );
    Program { functions: vec![decl("main", Vec::new(), Ty::Unit, main_body, 1)] }
}

} // verus!
