//! The type checker and analysis driver.
//!
//! The whole analysis is stated twice. The spec functions in this module are
//! the mathematical description: given a program they say, by structural
//! recursion, exactly which diagnostics the analysis reports and in which
//! order. The executable [`Checker`] mirrors them and is proved to produce
//! exactly the described result, so the contract of [`analyze`] pins the
//! analyzer's behaviour down completely.
//!
//! Analysis is two passes. The first registers every function signature, so
//! calls resolve independently of textual order; the second walks each
//! declaration in source order, re-reporting a duplicate name at the later
//! declaration and checking every body. Error recovery is local: an
//! expression that fails a check yields the `Error` sentinel type, which is
//! compatible with everything, so one root cause does not cascade.
//!
//! Policy choices this module fixes, where the language leaves room:
//! - Re-declaring a name that already exists in the same scope is always
//!   legal shadowing, never a duplicate-definition error; duplicate
//!   definitions apply to function names only.
//! - A `let` with neither annotation nor initializer cannot be given a type
//!   and is reported as a `TypeMismatch` at the declaration; the binding is
//!   created with the `Error` type so later uses stay quiet.
//! - A function "provides a return" when a `return` statement occurs
//!   lexically among its body's statements (at any statement nesting depth),
//!   or when the body's tail expression matches the return type. Returns
//!   hidden inside value-position expressions are not counted.
//! - Traversal carries a recursion budget; a subtree nested deeper than
//!   [`RECURSION_LIMIT`] is reported as `RecursionLimitExceeded` and that
//!   subtree alone is truncated.

use crate::ast::{
    expr_pos, is_arith, op_is_arith, pos_of_expr, pos_of_stmt, stmt_pos, Block, Expr,
    FunctionDecl, Param, Pos, Program, Stmt, Ty,
};
use crate::diag::{
    infos_of, message_for, message_spec, messages_wf, AnalysisResult, DiagInfo, Diagnostic,
    ErrorKind,
};
use crate::scope::{declare_spec, lookup_spec, Binding, ScopeManager};
use crate::table::{
    register_spec, resolve_spec, sig_of_decl, FunctionSignature, FunctionTable, SigInfo,
};
use vstd::prelude::*;

verus! {

/// How deeply nested a construct may be before traversal of its subtree is
/// truncated with a `RecursionLimitExceeded` diagnostic.
pub const RECURSION_LIMIT: u32 = 64;

/// Type compatibility: the `Error` sentinel matches anything (that is what
/// keeps one mistake from cascading); any other pair must be equal.
pub open spec fn compatible(a: Ty, b: Ty) -> bool {
    a == Ty::Error || b == Ty::Error || a == b
}

/// Executable twin of `compatible`.
pub fn ty_compatible(a: Ty, b: Ty) -> (r: bool)
    ensures
        r == compatible(a, b),
{
    a == Ty::Error || b == Ty::Error || a == b
}

/// Of two compatible branch types, the one that is not the `Error` sentinel.
pub open spec fn merge_ty(a: Ty, b: Ty) -> Ty {
    if a == Ty::Error {
        b
    } else {
        a
    }
}

/// Executable twin of `merge_ty`.
pub fn merge_types(a: Ty, b: Ty) -> (r: Ty)
    ensures
        r == merge_ty(a, b),
{
    if a == Ty::Error {
        b
    } else {
        a
    }
}

/// What checking an expression reports and yields: the new diagnostic
/// sequence and the expression's type. Checking an expression never changes
/// the scope stack it is given (blocks inside it push and pop their own
/// frames).
pub open spec fn check_expr_spec(
    ft: Seq<SigInfo>,
    sc: Seq<Seq<Binding>>,
    ds: Seq<DiagInfo>,
    e: Expr,
    rt: Ty,
    il: bool,
    d: nat,
) -> (Seq<DiagInfo>, Ty)
    decreases d, 0int,
{
    if d == 0 {
        (ds.push(DiagInfo { kind: ErrorKind::RecursionLimitExceeded, pos: expr_pos(e) }), Ty::Error)
    } else {
        let d1 = (d - 1) as nat;
        match e {
            Expr::IntLit { .. } => (ds, Ty::Integer),
            Expr::BoolLit { .. } => (ds, Ty::Boolean),
            Expr::StrLit { .. } => (ds, Ty::Unknown),
            Expr::Ident { name, pos } => match lookup_spec(sc, name@) {
                Some(p) => (ds, p.0),
                None => (ds.push(DiagInfo { kind: ErrorKind::UndeclaredVariable, pos }), Ty::Error),
            },
            Expr::Binary { op, lhs, rhs, pos } => {
                let (ds1, lt) = check_expr_spec(ft, sc, ds, *lhs, rt, il, d1);
                let (ds2, rty) = check_expr_spec(ft, sc, ds1, *rhs, rt, il, d1);
                if is_arith(op) {
                    if compatible(lt, Ty::Integer) && compatible(rty, Ty::Integer) {
                        (ds2, Ty::Integer)
                    } else {
                        (ds2.push(DiagInfo { kind: ErrorKind::TypeMismatch, pos }), Ty::Error)
                    }
                } else {
                    if compatible(lt, rty) {
                        (ds2, Ty::Boolean)
                    } else {
                        (ds2.push(DiagInfo { kind: ErrorKind::TypeMismatch, pos }), Ty::Error)
                    }
                }
            },
            Expr::Call { callee, args, pos } => {
                let (ds1, ats) = check_args_spec(ft, sc, ds, args@, 0, rt, il, d1);
                match resolve_spec(ft, callee@) {
                    None => (
                        ds1.push(DiagInfo { kind: ErrorKind::UndefinedFunction, pos }),
                        Ty::Error,
                    ),
                    Some(s) => if args@.len() != s.params.len() {
                        (
                            ds1.push(
                                DiagInfo {
                                    kind: ErrorKind::ArityMismatch {
                                        expected: s.params.len() as usize,
                                        given: args@.len() as usize,
                                    },
                                    pos,
                                },
                            ),
                            s.ret,
                        )
                    } else {
                        (arg_diags_spec(ats, s.params, args@, ds1, 0), s.ret)
                    },
                }
            },
            Expr::BlockExpr { block, .. } => {
                let (ds1, ty, h) = check_block_spec(ft, sc, ds, *block, rt, il, d1);
                (ds1, ty)
            },
            Expr::IfExpr { cond, then_block, else_block, pos } => {
                let (ds1, ct) = check_expr_spec(ft, sc, ds, *cond, rt, il, d1);
                let ds2 = if compatible(ct, Ty::Boolean) {
                    ds1
                } else {
                    ds1.push(DiagInfo { kind: ErrorKind::ConditionTypeError, pos: expr_pos(*cond) })
                };
                let (ds3, t1, h1) = check_block_spec(ft, sc, ds2, *then_block, rt, il, d1);
                match else_block {
                    None => (ds3.push(DiagInfo { kind: ErrorKind::TypeMismatch, pos }), Ty::Error),
                    Some(eb) => {
                        let (ds4, t2, h2) = check_block_spec(ft, sc, ds3, *eb, rt, il, d1);
                        if compatible(t1, t2) {
                            (ds4, merge_ty(t1, t2))
                        } else {
                            (ds4.push(DiagInfo { kind: ErrorKind::TypeMismatch, pos }), Ty::Error)
                        }
                    },
                }
            },
        }
    }
}

/// Checks the arguments of a call from index `i` on, in order, and collects
/// their types.
pub open spec fn check_args_spec(
    ft: Seq<SigInfo>,
    sc: Seq<Seq<Binding>>,
    ds: Seq<DiagInfo>,
    args: Seq<Expr>,
    i: int,
    rt: Ty,
    il: bool,
    d: nat,
) -> (Seq<DiagInfo>, Seq<Ty>)
    decreases d, args.len() - i + 1,
{
    if i < 0 || i >= args.len() {
        (ds, Seq::<Ty>::empty())
    } else {
        let (ds1, t) = check_expr_spec(ft, sc, ds, args[i], rt, il, d);
        let (ds2, ts) = check_args_spec(ft, sc, ds1, args, i + 1, rt, il, d);
        (ds2, ts.insert(0, t))
    }
}

/// Reports a `TypeMismatch` at every argument, from index `i` on, whose type
/// is incompatible with the corresponding parameter type. Used only when the
/// arity already matched.
pub open spec fn arg_diags_spec(
    ats: Seq<Ty>,
    ps: Seq<Ty>,
    args: Seq<Expr>,
    ds: Seq<DiagInfo>,
    i: int,
) -> Seq<DiagInfo>
    decreases ats.len() - i,
{
    if i < 0 || i >= ats.len() || i >= ps.len() || i >= args.len() {
        ds
    } else {
        let ds1 = if compatible(ats[i], ps[i]) {
            ds
        } else {
            ds.push(DiagInfo { kind: ErrorKind::TypeMismatch, pos: expr_pos(args[i]) })
        };
        arg_diags_spec(ats, ps, args, ds1, i + 1)
    }
}

/// What checking a block reports and yields: the new diagnostics, the
/// block's value type (its tail expression's type, or unit without one), and
/// whether a `return` occurs lexically among its statements. The block's own
/// frame is pushed on entry and discarded again, so the caller's scope stack
/// is untouched.
pub open spec fn check_block_spec(
    ft: Seq<SigInfo>,
    sc: Seq<Seq<Binding>>,
    ds: Seq<DiagInfo>,
    b: Block,
    rt: Ty,
    il: bool,
    d: nat,
) -> (Seq<DiagInfo>, Ty, bool)
    decreases d, b.stmts@.len() + 2,
{
    if d == 0 {
        (
            ds.push(DiagInfo { kind: ErrorKind::RecursionLimitExceeded, pos: b.pos }),
            Ty::Error,
            false,
        )
    } else {
        let sc1 = sc.push(Seq::<Binding>::empty());
        let (sc2, ds1, h) = check_stmts_spec(ft, sc1, ds, b.stmts@, 0, rt, il, d);
        match b.tail {
            Some(e) => {
                let (ds2, t) = check_expr_spec(ft, sc2, ds1, e, rt, il, d);
                (ds2, t, h)
            },
            None => (ds1, Ty::Unit, h),
        }
    }
}

/// Checks the statements of one block from index `i` on, threading the scope
/// stack (a `let` extends the innermost frame) and the diagnostics.
pub open spec fn check_stmts_spec(
    ft: Seq<SigInfo>,
    sc: Seq<Seq<Binding>>,
    ds: Seq<DiagInfo>,
    ss: Seq<Stmt>,
    i: int,
    rt: Ty,
    il: bool,
    d: nat,
) -> (Seq<Seq<Binding>>, Seq<DiagInfo>, bool)
    decreases d, ss.len() - i + 1,
{
    if i < 0 || i >= ss.len() {
        (sc, ds, false)
    } else {
        let (sc1, ds1, h1) = check_stmt_spec(ft, sc, ds, ss[i], rt, il, d);
        let (sc2, ds2, h2) = check_stmts_spec(ft, sc1, ds1, ss, i + 1, rt, il, d);
        (sc2, ds2, h1 || h2)
    }
}

/// What checking one statement reports, how it extends the innermost scope
/// frame, and whether it lexically contains a `return`.
pub open spec fn check_stmt_spec(
    ft: Seq<SigInfo>,
    sc: Seq<Seq<Binding>>,
    ds: Seq<DiagInfo>,
    s: Stmt,
    rt: Ty,
    il: bool,
    d: nat,
) -> (Seq<Seq<Binding>>, Seq<DiagInfo>, bool)
    decreases d, 0int,
{
    if d == 0 {
        (sc, ds.push(DiagInfo { kind: ErrorKind::RecursionLimitExceeded, pos: stmt_pos(s) }), false)
    } else {
        let d1 = (d - 1) as nat;
        match s {
            Stmt::Let { mutable, name, annotation, init, pos } => {
                let (ds2, ty) = match init {
                    Some(e) => {
                        let (ds1, et) = check_expr_spec(ft, sc, ds, e, rt, il, d1);
                        match annotation {
                            Some(t) => (
                                if compatible(et, t) {
                                    ds1
                                } else {
                                    ds1.push(DiagInfo { kind: ErrorKind::TypeMismatch, pos })
                                },
                                t,
                            ),
                            None => (ds1, et),
                        }
                    },
                    None => match annotation {
                        Some(t) => (ds, t),
                        None => (
                            ds.push(DiagInfo { kind: ErrorKind::TypeMismatch, pos }),
                            Ty::Error,
                        ),
                    },
                };
                (declare_spec(sc, Binding { name, ty, mutable }), ds2, false)
            },
            Stmt::Assign { name, value, pos } => {
                let (ds1, vt) = check_expr_spec(ft, sc, ds, value, rt, il, d1);
                match lookup_spec(sc, name@) {
                    None => (
                        sc,
                        ds1.push(DiagInfo { kind: ErrorKind::UndeclaredVariable, pos }),
                        false,
                    ),
                    Some(p) => {
                        let ds2 = if p.1 {
                            ds1
                        } else {
                            ds1.push(DiagInfo { kind: ErrorKind::ImmutableAssignment, pos })
                        };
                        let ds3 = if compatible(vt, p.0) {
                            ds2
                        } else {
                            ds2.push(DiagInfo { kind: ErrorKind::TypeMismatch, pos })
                        };
                        (sc, ds3, false)
                    },
                }
            },
            Stmt::ExprStmt { expr, .. } => {
                let (ds1, t) = check_expr_spec(ft, sc, ds, expr, rt, il, d1);
                (sc, ds1, false)
            },
            Stmt::If { cond, then_block, else_block, .. } => {
                let (ds1, ct) = check_expr_spec(ft, sc, ds, cond, rt, il, d1);
                let ds2 = if compatible(ct, Ty::Boolean) {
                    ds1
                } else {
                    ds1.push(DiagInfo { kind: ErrorKind::ConditionTypeError, pos: expr_pos(cond) })
                };
                let (ds3, t1, h1) = check_block_spec(ft, sc, ds2, then_block, rt, il, d1);
                match else_block {
                    None => (sc, ds3, h1),
                    Some(eb) => {
                        let (ds4, t2, h2) = check_block_spec(ft, sc, ds3, eb, rt, il, d1);
                        (sc, ds4, h1 || h2)
                    },
                }
            },
            Stmt::While { cond, body, .. } => {
                let (ds1, ct) = check_expr_spec(ft, sc, ds, cond, rt, il, d1);
                let ds2 = if compatible(ct, Ty::Boolean) {
                    ds1
                } else {
                    ds1.push(DiagInfo { kind: ErrorKind::ConditionTypeError, pos: expr_pos(cond) })
                };
                let (ds3, t, h) = check_block_spec(ft, sc, ds2, body, rt, true, d1);
                (sc, ds3, h)
            },
            Stmt::For { mutable, var, start, end, body, .. } => {
                let (ds1, st) = check_expr_spec(ft, sc, ds, start, rt, il, d1);
                let ds2 = if compatible(st, Ty::Integer) {
                    ds1
                } else {
                    ds1.push(DiagInfo { kind: ErrorKind::TypeMismatch, pos: expr_pos(start) })
                };
                let (ds3, et) = check_expr_spec(ft, sc, ds2, end, rt, il, d1);
                let ds4 = if compatible(et, Ty::Integer) {
                    ds3
                } else {
                    ds3.push(DiagInfo { kind: ErrorKind::TypeMismatch, pos: expr_pos(end) })
                };
                let sc1 = sc.push(seq![Binding { name: var, ty: Ty::Integer, mutable }]);
                let (ds5, t, h) = check_block_spec(ft, sc1, ds4, body, rt, true, d1);
                (sc, ds5, h)
            },
            Stmt::Loop { body, .. } => {
                let (ds1, t, h) = check_block_spec(ft, sc, ds, body, rt, true, d1);
                (sc, ds1, h)
            },
            Stmt::Break { pos } => (
                sc,
                if il {
                    ds
                } else {
                    ds.push(DiagInfo { kind: ErrorKind::MisplacedControlFlow, pos })
                },
                false,
            ),
            Stmt::Continue { pos } => (
                sc,
                if il {
                    ds
                } else {
                    ds.push(DiagInfo { kind: ErrorKind::MisplacedControlFlow, pos })
                },
                false,
            ),
            Stmt::Return { value, pos } => match value {
                Some(e) => {
                    let (ds1, t) = check_expr_spec(ft, sc, ds, e, rt, il, d1);
                    (
                        sc,
                        if compatible(t, rt) {
                            ds1
                        } else {
                            ds1.push(DiagInfo { kind: ErrorKind::ReturnTypeMismatch, pos })
                        },
                        true,
                    )
                },
                None => (
                    sc,
                    if compatible(Ty::Unit, rt) {
                        ds
                    } else {
                        ds.push(DiagInfo { kind: ErrorKind::ReturnTypeMismatch, pos })
                    },
                    true,
                ),
            },
            Stmt::BlockStmt { block, .. } => {
                let (ds1, t, h) = check_block_spec(ft, sc, ds, block, rt, il, d1);
                (sc, ds1, h)
            },
        }
    }
}

/// The scope frame a function body starts from: one binding per parameter,
/// in declaration order.
pub open spec fn param_frame_spec(ps: Seq<Param>) -> Seq<Binding> {
    Seq::new(
        ps.len(),
        |i: int| Binding { name: ps[i].name, ty: ps[i].ty, mutable: ps[i].mutable },
    )
}

/// What checking one function body reports. The body runs in a fresh scope
/// seeded with the parameter bindings; every `return` is checked against the
/// declared return type; the tail expression, if any, is an implicit return;
/// and a non-unit function that provides no return is reported as
/// `MissingReturn` at its declaration.
pub open spec fn check_fn_spec(ft: Seq<SigInfo>, f: FunctionDecl, ds: Seq<DiagInfo>) -> Seq<
    DiagInfo,
> {
    let sc0 = seq![param_frame_spec(f.params@)];
    let (sc1, ds1, seen) = check_stmts_spec(
        ft,
        sc0,
        ds,
        f.body.stmts@,
        0,
        f.return_type,
        false,
        RECURSION_LIMIT as nat,
    );
    match f.body.tail {
        Some(e) => {
            let (ds2, t) = check_expr_spec(
                ft,
                sc1,
                ds1,
                e,
                f.return_type,
                false,
                RECURSION_LIMIT as nat,
            );
            let ds3 = if compatible(t, f.return_type) {
                ds2
            } else {
                ds2.push(DiagInfo { kind: ErrorKind::ReturnTypeMismatch, pos: expr_pos(e) })
            };
            if f.return_type != Ty::Unit && !(seen || compatible(t, f.return_type)) {
                ds3.push(DiagInfo { kind: ErrorKind::MissingReturn, pos: f.pos })
            } else {
                ds3
            }
        },
        None => {
            if f.return_type != Ty::Unit && !seen {
                ds1.push(DiagInfo { kind: ErrorKind::MissingReturn, pos: f.pos })
            } else {
                ds1
            }
        },
    }
}

/// Whether an earlier declaration (one with a smaller index) already uses
/// the name of declaration `i`.
pub open spec fn dup_spec(fs: Seq<FunctionDecl>, i: int) -> bool {
    exists|j: int| 0 <= j < i && (#[trigger] fs[j]).name@ == fs[i].name@
}

/// The function table after registering the first `i` declarations, in
/// order. A name already taken is not overwritten: the first declaration
/// stays authoritative.
pub open spec fn table_model_upto(fs: Seq<FunctionDecl>, i: int) -> Seq<SigInfo>
    decreases i,
{
    if i <= 0 {
        Seq::<SigInfo>::empty()
    } else {
        register_spec(table_model_upto(fs, i - 1), sig_of_decl(fs[i - 1]))
    }
}

/// Checks the declarations from index `i` on, in source order: a duplicate
/// name is reported at the later declaration, whose body is still checked
/// for diagnostic completeness.
pub open spec fn check_decls_spec(
    ft: Seq<SigInfo>,
    fs: Seq<FunctionDecl>,
    i: int,
    ds: Seq<DiagInfo>,
) -> Seq<DiagInfo>
    decreases fs.len() - i,
{
    if i < 0 || i >= fs.len() {
        ds
    } else {
        let ds1 = if dup_spec(fs, i) {
            ds.push(DiagInfo { kind: ErrorKind::DuplicateDefinition, pos: fs[i].pos })
        } else {
            ds
        };
        check_decls_spec(ft, fs, i + 1, check_fn_spec(ft, fs[i], ds1))
    }
}

/// The kinds and positions of every diagnostic analyzing a program reports,
/// in order. This is the mathematical description of the whole analyzer.
pub open spec fn analyze_spec(p: Program) -> Seq<DiagInfo> {
    check_decls_spec(
        table_model_upto(p.functions@, p.functions@.len() as int),
        p.functions@,
        0,
        Seq::<DiagInfo>::empty(),
    )
}

/// Everything [`analyze`] promises of its result: the program is accepted
/// exactly when no diagnostic was recorded; the kinds and positions are
/// exactly `analyze_spec` of the program; and each diagnostic carries the
/// message of its kind. The result is thereby a function of the syntax tree
/// alone.
pub open spec fn matches_analysis(r: AnalysisResult, p: Program) -> bool {
    &&& r.accepted == (r.diagnostics@.len() == 0)
    &&& infos_of(r.diagnostics@) == analyze_spec(p)
    &&& messages_wf(r.diagnostics@)
}

/// The analyzer's mutable state while one program is checked: the scope
/// stack and the diagnostics collected so far. The diagnostic log is append
/// only; whether the program is accepted is computed from it at the end, not
/// stored. One `Checker` serves one analysis run, so repeated or concurrent
/// runs share no state.
pub struct Checker {
    pub scopes: ScopeManager,
    pub diags: Vec<Diagnostic>,
}

impl Checker {
    /// The kinds and positions of the diagnostics collected so far.
    pub open spec fn dmodel(self) -> Seq<DiagInfo> {
        infos_of(self.diags@)
    }

    /// Every collected diagnostic carries the message of its kind.
    pub open spec fn wf(self) -> bool {
        messages_wf(self.diags@)
    }

    /// A fresh checker: no scopes, no diagnostics.
    pub fn new() -> (c: Checker)
        ensures
            c.wf(),
            c.dmodel() == Seq::<DiagInfo>::empty(),
            c.scopes.model() == Seq::<Seq<Binding>>::empty(),
    {
        let c = Checker { scopes: ScopeManager::new(), diags: Vec::new() };
        proof {
            assert(c.dmodel() =~= Seq::<DiagInfo>::empty());
        }
        c
    }

    /// Appends one diagnostic, with the message of its kind.
    fn emit(&mut self, kind: ErrorKind, pos: Pos)
        requires
            old(self).wf(),
        ensures
            final(self).wf(),
            final(self).scopes == old(self).scopes,
            final(self).dmodel() == old(self).dmodel().push(DiagInfo { kind, pos }),
    {
        let message = message_for(kind);
        self.diags.push(Diagnostic { kind, message, pos });
        proof {
            assert forall|i: int| 0 <= i < self.diags@.len() implies (#[trigger] self.diags@[i]).message@
                == message_spec(self.diags@[i].kind) by {
                if i < old(self).diags@.len() {
                    assert(self.diags@[i] == old(self).diags@[i]);
                }
            }
            assert(self.dmodel() =~= old(self).dmodel().push(DiagInfo { kind, pos }));
        }
    }

    /// Checks one expression and yields its type, emitting a diagnostic for
    /// every violation found inside it. The scope stack is left as it was.
    pub fn check_expr(&mut self, tbl: &FunctionTable, e: &Expr, rt: Ty, il: bool, fuel: u32) -> (t:
        Ty)
        requires
            old(self).wf(),
        ensures
            final(self).wf(),
            final(self).scopes.model() == old(self).scopes.model(),
            ({
                let r = check_expr_spec(
                    tbl.model(),
                    old(self).scopes.model(),
                    old(self).dmodel(),
                    *e,
                    rt,
                    il,
                    fuel as nat,
                );
                final(self).dmodel() == r.0 && t == r.1
            }),
        decreases fuel, 0int,
    {
        if fuel == 0 {
            self.emit(ErrorKind::RecursionLimitExceeded, pos_of_expr(e));
            return Ty::Error;
        }
        match e {
            Expr::IntLit { .. } => Ty::Integer,
            Expr::BoolLit { .. } => Ty::Boolean,
            Expr::StrLit { .. } => Ty::Unknown,
            Expr::Ident { name, pos } => {
                match self.scopes.lookup(name) {
                    Some((t, _m)) => t,
                    None => {
                        self.emit(ErrorKind::UndeclaredVariable, *pos);
                        Ty::Error
                    },
                }
            },
            Expr::Binary { op, lhs, rhs, pos } => {
                let lt = self.check_expr(tbl, lhs, rt, il, fuel - 1);
                let rty = self.check_expr(tbl, rhs, rt, il, fuel - 1);
                if op_is_arith(*op) {
                    if ty_compatible(lt, Ty::Integer) && ty_compatible(rty, Ty::Integer) {
                        Ty::Integer
                    } else {
                        self.emit(ErrorKind::TypeMismatch, *pos);
                        Ty::Error
                    }
                } else {
                    if ty_compatible(lt, rty) {
                        Ty::Boolean
                    } else {
                        self.emit(ErrorKind::TypeMismatch, *pos);
                        Ty::Error
                    }
                }
            },
            Expr::Call { callee, args, pos } => {
                let ts = self.check_args(tbl, args, 0, rt, il, fuel - 1);
                match tbl.resolve(callee) {
                    None => {
                        self.emit(ErrorKind::UndefinedFunction, *pos);
                        Ty::Error
                    },
                    Some(sig) => {
                        let ret = sig.return_type;
                        if args.len() != sig.params.len() {
                            self.emit(
                                ErrorKind::ArityMismatch {
                                    expected: sig.params.len(),
                                    given: args.len(),
                                },
                                *pos,
                            );
                            ret
                        } else {
                            self.check_arg_types(&ts, &sig.params, args, 0);
                            ret
                        }
                    },
                }
            },
            Expr::BlockExpr { block, .. } => {
                let (t, _seen) = self.check_block(tbl, block, rt, il, fuel - 1);
                t
            },
            Expr::IfExpr { cond, then_block, else_block, pos } => {
                let ct = self.check_expr(tbl, cond, rt, il, fuel - 1);
                if !ty_compatible(ct, Ty::Boolean) {
                    self.emit(ErrorKind::ConditionTypeError, pos_of_expr(cond));
                }
                let (t1, _s1) = self.check_block(tbl, then_block, rt, il, fuel - 1);
                match else_block {
                    None => {
                        self.emit(ErrorKind::TypeMismatch, *pos);
                        Ty::Error
                    },
                    Some(eb) => {
                        let (t2, _s2) = self.check_block(tbl, eb, rt, il, fuel - 1);
                        if ty_compatible(t1, t2) {
                            merge_types(t1, t2)
                        } else {
                            self.emit(ErrorKind::TypeMismatch, *pos);
                            Ty::Error
                        }
                    },
                }
            },
        }
    }

    /// Checks the call arguments from index `i` on and collects their types.
    fn check_args(
        &mut self,
        tbl: &FunctionTable,
        args: &Vec<Expr>,
        i: usize,
        rt: Ty,
        il: bool,
        fuel: u32,
    ) -> (ts: Vec<Ty>)
        requires
            old(self).wf(),
            i <= args@.len(),
        ensures
            final(self).wf(),
            final(self).scopes.model() == old(self).scopes.model(),
            ({
                let r = check_args_spec(
                    tbl.model(),
                    old(self).scopes.model(),
                    old(self).dmodel(),
                    args@,
                    i as int,
                    rt,
                    il,
                    fuel as nat,
                );
                final(self).dmodel() == r.0 && ts@ == r.1
            }),
        decreases fuel, args@.len() - i + 1,
    {
        if i >= args.len() {
            let ts: Vec<Ty> = Vec::new();
            ts
        } else {
            let t = self.check_expr(tbl, &args[i], rt, il, fuel);
            let mut rest = self.check_args(tbl, args, i + 1, rt, il, fuel);
            rest.insert(0, t);
            rest
        }
    }

    /// Reports a `TypeMismatch` at every argument, from index `i` on, whose
    /// type does not match the corresponding parameter type.
    fn check_arg_types(&mut self, ts: &Vec<Ty>, ps: &Vec<Ty>, args: &Vec<Expr>, i: usize)
        requires
            old(self).wf(),
        ensures
            final(self).wf(),
            final(self).scopes.model() == old(self).scopes.model(),
            final(self).dmodel() == arg_diags_spec(ts@, ps@, args@, old(self).dmodel(), i as int),
        decreases ts@.len() - i,
    {
        if i < ts.len() && i < ps.len() && i < args.len() {
            if !ty_compatible(ts[i], ps[i]) {
                self.emit(ErrorKind::TypeMismatch, pos_of_expr(&args[i]));
            }
            self.check_arg_types(ts, ps, args, i + 1);
        }
    }

    /// Checks one block in a fresh scope frame and yields its value type and
    /// whether a `return` occurs among its statements. The frame, and every
    /// binding declared in it, is discarded on the way out.
    pub fn check_block(&mut self, tbl: &FunctionTable, b: &Block, rt: Ty, il: bool, fuel: u32) -> (r:
        (Ty, bool))
        requires
            old(self).wf(),
        ensures
            final(self).wf(),
            final(self).scopes.model() == old(self).scopes.model(),
            ({
                let s = check_block_spec(
                    tbl.model(),
                    old(self).scopes.model(),
                    old(self).dmodel(),
                    *b,
                    rt,
                    il,
                    fuel as nat,
                );
                final(self).dmodel() == s.0 && r.0 == s.1 && r.1 == s.2
            }),
        decreases fuel, b.stmts@.len() + 2,
    {
        if fuel == 0 {
            self.emit(ErrorKind::RecursionLimitExceeded, b.pos);
            return (Ty::Error, false);
        }
        self.scopes.enter_scope();
        let seen = self.check_stmts(tbl, &b.stmts, 0, rt, il, fuel);
        let t = match &b.tail {
            Some(e) => self.check_expr(tbl, e, rt, il, fuel),
            None => Ty::Unit,
        };
        self.scopes.exit_scope();
        proof {
            assert(self.scopes.model() =~= old(self).scopes.model());
        }
        (t, seen)
    }

    /// Checks the statements of one block from index `i` on. Only the
    /// innermost scope frame is extended; the enclosing frames are left as
    /// they were.
    fn check_stmts(
        &mut self,
        tbl: &FunctionTable,
        ss: &Vec<Stmt>,
        i: usize,
        rt: Ty,
        il: bool,
        fuel: u32,
    ) -> (seen: bool)
        requires
            old(self).wf(),
            i <= ss@.len(),
            old(self).scopes.model().len() > 0,
        ensures
            final(self).wf(),
            final(self).scopes.model().len() == old(self).scopes.model().len(),
            forall|k: int|
                0 <= k < old(self).scopes.model().len() - 1 ==> final(self).scopes.model()[k]
                    == old(self).scopes.model()[k],
            ({
                let r = check_stmts_spec(
                    tbl.model(),
                    old(self).scopes.model(),
                    old(self).dmodel(),
                    ss@,
                    i as int,
                    rt,
                    il,
                    fuel as nat,
                );
                final(self).scopes.model() == r.0 && final(self).dmodel() == r.1 && seen == r.2
            }),
        decreases fuel, ss@.len() - i + 1,
    {
        if i >= ss.len() {
            false
        } else {
            let s1 = self.check_stmt(tbl, &ss[i], rt, il, fuel);
            let s2 = self.check_stmts(tbl, ss, i + 1, rt, il, fuel);
            s1 || s2
        }
    }

    /// Checks one statement: resolves and type-checks what it mentions,
    /// extends the innermost scope on a `let`, and reports every violation.
    /// Yields whether the statement lexically contains a `return`.
    #[verifier::rlimit(60)]
    pub fn check_stmt(&mut self, tbl: &FunctionTable, s: &Stmt, rt: Ty, il: bool, fuel: u32) -> (seen:
        bool)
        requires
            old(self).wf(),
            old(self).scopes.model().len() > 0,
        ensures
            final(self).wf(),
            final(self).scopes.model().len() == old(self).scopes.model().len(),
            forall|k: int|
                0 <= k < old(self).scopes.model().len() - 1 ==> final(self).scopes.model()[k]
                    == old(self).scopes.model()[k],
            ({
                let r = check_stmt_spec(
                    tbl.model(),
                    old(self).scopes.model(),
                    old(self).dmodel(),
                    *s,
                    rt,
                    il,
                    fuel as nat,
                );
                final(self).scopes.model() == r.0 && final(self).dmodel() == r.1 && seen == r.2
            }),
        decreases fuel, 0int,
    {
        if fuel == 0 {
            self.emit(ErrorKind::RecursionLimitExceeded, pos_of_stmt(s));
            return false;
        }
        match s {
            Stmt::Let { mutable, name, annotation, init, pos } => {
                let ty: Ty = match init {
                    Some(e) => {
                        let et = self.check_expr(tbl, e, rt, il, fuel - 1);
                        match annotation {
                            Some(t) => {
                                if !ty_compatible(et, *t) {
                                    self.emit(ErrorKind::TypeMismatch, *pos);
                                }
                                *t
                            },
                            None => et,
                        }
                    },
                    None => {
                        match annotation {
                            Some(t) => *t,
                            None => {
                                self.emit(ErrorKind::TypeMismatch, *pos);
                                Ty::Error
                            },
                        }
                    },
                };
                self.scopes.declare(name.clone(), ty, *mutable);
                false
            },
            Stmt::Assign { name, value, pos } => {
                let vt = self.check_expr(tbl, value, rt, il, fuel - 1);
                match self.scopes.lookup(name) {
                    None => {
                        self.emit(ErrorKind::UndeclaredVariable, *pos);
                    },
                    Some((bt, mutable)) => {
                        if !mutable {
                            self.emit(ErrorKind::ImmutableAssignment, *pos);
                        }
                        if !ty_compatible(vt, bt) {
                            self.emit(ErrorKind::TypeMismatch, *pos);
                        }
                    },
                }
                false
            },
            Stmt::ExprStmt { expr, .. } => {
                let _t = self.check_expr(tbl, expr, rt, il, fuel - 1);
                false
            },
            Stmt::If { cond, then_block, else_block, .. } => {
                let ct = self.check_expr(tbl, cond, rt, il, fuel - 1);
                if !ty_compatible(ct, Ty::Boolean) {
                    self.emit(ErrorKind::ConditionTypeError, pos_of_expr(cond));
                }
                let (_t1, s1) = self.check_block(tbl, then_block, rt, il, fuel - 1);
                match else_block {
                    None => s1,
                    Some(eb) => {
                        let (_t2, s2) = self.check_block(tbl, eb, rt, il, fuel - 1);
                        s1 || s2
                    },
                }
            },
            Stmt::While { cond, body, .. } => {
                let ct = self.check_expr(tbl, cond, rt, il, fuel - 1);
                if !ty_compatible(ct, Ty::Boolean) {
                    self.emit(ErrorKind::ConditionTypeError, pos_of_expr(cond));
                }
                let (_t, sb) = self.check_block(tbl, body, rt, true, fuel - 1);
                sb
            },
            Stmt::For { mutable, var, start, end, body, .. } => {
                let st = self.check_expr(tbl, start, rt, il, fuel - 1);
                if !ty_compatible(st, Ty::Integer) {
                    self.emit(ErrorKind::TypeMismatch, pos_of_expr(start));
                }
                let et = self.check_expr(tbl, end, rt, il, fuel - 1);
                if !ty_compatible(et, Ty::Integer) {
                    self.emit(ErrorKind::TypeMismatch, pos_of_expr(end));
                }
                self.scopes.enter_scope();
                self.scopes.declare(var.clone(), Ty::Integer, *mutable);
                proof {
                    assert(self.scopes.model() =~= old(self).scopes.model().push(
                        seq![Binding { name: *var, ty: Ty::Integer, mutable: *mutable }],
                    ));
                }
                let (_t, sb) = self.check_block(tbl, body, rt, true, fuel - 1);
                self.scopes.exit_scope();
                proof {
                    assert(self.scopes.model() =~= old(self).scopes.model());
                }
                sb
            },
            Stmt::Loop { body, .. } => {
                let (_t, sb) = self.check_block(tbl, body, rt, true, fuel - 1);
                sb
            },
            Stmt::Break { pos } => {
                if !il {
                    self.emit(ErrorKind::MisplacedControlFlow, *pos);
                }
                false
            },
            Stmt::Continue { pos } => {
                if !il {
                    self.emit(ErrorKind::MisplacedControlFlow, *pos);
                }
                false
            },
            Stmt::Return { value, pos } => {
                match value {
                    Some(e) => {
                        let t = self.check_expr(tbl, e, rt, il, fuel - 1);
                        if !ty_compatible(t, rt) {
                            self.emit(ErrorKind::ReturnTypeMismatch, *pos);
                        }
                    },
                    None => {
                        if !ty_compatible(Ty::Unit, rt) {
                            self.emit(ErrorKind::ReturnTypeMismatch, *pos);
                        }
                    },
                }
                true
            },
            Stmt::BlockStmt { block, .. } => {
                let (_t, sb) = self.check_block(tbl, block, rt, il, fuel - 1);
                sb
            },
        }
    }

    /// Checks one function declaration's body against its signature, in a
    /// fresh scope seeded with the parameter bindings.
    pub fn check_fn(&mut self, tbl: &FunctionTable, f: &FunctionDecl)
        requires
            old(self).wf(),
            old(self).scopes.model() == Seq::<Seq<Binding>>::empty(),
        ensures
            final(self).wf(),
            final(self).scopes.model() == Seq::<Seq<Binding>>::empty(),
            final(self).dmodel() == check_fn_spec(tbl.model(), *f, old(self).dmodel()),
    {
        self.scopes.enter_scope();
        let ghost frame = param_frame_spec(f.params@);
        let mut i: usize = 0;
        while i < f.params.len()
            invariant
                i <= f.params@.len(),
                self.wf(),
                self.dmodel() == old(self).dmodel(),
                self.scopes.model().len() == 1,
                self.scopes.model()[0] == frame.subrange(0, i as int),
                frame == param_frame_spec(f.params@),
            decreases f.params@.len() - i,
        {
            let p = &f.params[i];
            self.scopes.declare(p.name.clone(), p.ty, p.mutable);
            proof {
                assert(self.scopes.model()[0] =~= frame.subrange(0, i + 1 as int));
            }
            i += 1;
        }
        proof {
            assert(frame.subrange(0, f.params@.len() as int) =~= frame);
            assert(self.scopes.model() =~= seq![frame]);
        }
        let seen = self.check_stmts(tbl, &f.body.stmts, 0, f.return_type, false, RECURSION_LIMIT);
        match &f.body.tail {
            Some(e) => {
                let t = self.check_expr(tbl, e, f.return_type, false, RECURSION_LIMIT);
                let tail_ok = ty_compatible(t, f.return_type);
                if !tail_ok {
                    self.emit(ErrorKind::ReturnTypeMismatch, pos_of_expr(e));
                }
                if f.return_type != Ty::Unit && !(seen || tail_ok) {
                    self.emit(ErrorKind::MissingReturn, f.pos);
                }
            },
            None => {
                if f.return_type != Ty::Unit && !seen {
                    self.emit(ErrorKind::MissingReturn, f.pos);
                }
            },
        }
        self.scopes.exit_scope();
        proof {
            assert(self.scopes.model() =~= Seq::<Seq<Binding>>::empty());
        }
    }
}

/// The signature a declaration states, as an executable value.
pub fn signature_of(f: &FunctionDecl) -> (s: FunctionSignature)
    ensures
        s.info() == sig_of_decl(*f),
{
    let mut ps: Vec<Ty> = Vec::new();
    let mut i: usize = 0;
    while i < f.params.len()
        invariant
            i <= f.params@.len(),
            ps@.len() == i,
            forall|j: int| 0 <= j < i ==> ps@[j] == f.params@[j].ty,
        decreases f.params@.len() - i,
    {
        ps.push(f.params[i].ty);
        i += 1;
    }
    let s = FunctionSignature { name: f.name.clone(), params: ps, return_type: f.return_type };
    proof {
        assert(s.info().params =~= sig_of_decl(*f).params);
    }
    s
}

/// Whether an earlier declaration already uses the name of declaration `i`.
fn has_earlier(fs: &Vec<FunctionDecl>, i: usize) -> (r: bool)
    requires
        i < fs@.len(),
    ensures
        r == dup_spec(fs@, i as int),
{
    let mut j: usize = 0;
    let mut found = false;
    while j < i
        invariant
            j <= i < fs@.len(),
            found == exists|k: int| 0 <= k < j && (#[trigger] fs@[k]).name@ == fs@[i as int].name@,
        decreases i - j,
    {
        if fs[j].name.eq(&fs[i].name) {
            found = true;
            proof {
                assert(fs@[j as int].name@ == fs@[i as int].name@);
            }
        }
        j += 1;
    }
    found
}

/// Analyzes a whole program: registers every function signature in a
/// pre-pass, then checks each declaration in source order, collecting every
/// diagnostic. Analysis always completes; nothing it finds is fatal.
///
/// The result is fully determined by the syntax tree: the program is
/// accepted exactly when no diagnostic was recorded, the diagnostics' kinds
/// and positions are exactly `analyze_spec` of the program, and every
/// message is the fixed message of its kind. In particular, every program
/// whose analysis reports nothing is accepted, and analyzing the same tree
/// twice yields identical results.
pub fn analyze(p: &Program) -> (r: AnalysisResult)
    ensures
        matches_analysis(r, *p),
        r.accepted == (r.diagnostics@.len() == 0),
        infos_of(r.diagnostics@) == analyze_spec(*p),
{
    let ghost fs = p.functions@;
    let mut tbl = FunctionTable::new();
    let mut i: usize = 0;
    while i < p.functions.len()
        invariant
            i <= fs.len(),
            fs == p.functions@,
            tbl.model() == table_model_upto(fs, i as int),
        decreases fs.len() - i,
    {
        let s = signature_of(&p.functions[i]);
        let _fresh = tbl.register(s);
        i += 1;
    }
    let ghost tm = tbl.model();
    let mut ck = Checker::new();
    let mut j: usize = 0;
    proof {
        assert(check_decls_spec(tm, fs, 0, ck.dmodel()) == analyze_spec(*p));
    }
    while j < p.functions.len()
        invariant
            j <= fs.len(),
            fs == p.functions@,
            tbl.model() == tm,
            ck.wf(),
            ck.scopes.model() == Seq::<Seq<Binding>>::empty(),
            check_decls_spec(tm, fs, j as int, ck.dmodel()) == analyze_spec(*p),
        decreases fs.len() - j,
    {
        let ghost ds_before = ck.dmodel();
        let dup = has_earlier(&p.functions, j);
        if dup {
            let pos = p.functions[j].pos;
            ck.emit(ErrorKind::DuplicateDefinition, pos);
        }
        ck.check_fn(&tbl, &p.functions[j]);
        proof {
            let ds1 = if dup_spec(fs, j as int) {
                ds_before.push(DiagInfo { kind: ErrorKind::DuplicateDefinition, pos: fs[j as int].pos })
            } else {
                ds_before
            };
            assert(ck.dmodel() == check_fn_spec(tm, fs[j as int], ds1));
            assert(check_decls_spec(tm, fs, j as int, ds_before) == check_decls_spec(
                tm,
                fs,
                j + 1 as int,
                check_fn_spec(tm, fs[j as int], ds1),
            ));
        }
        j += 1;
    }
    let accepted = ck.diags.len() == 0;
    let r = AnalysisResult { accepted, diagnostics: ck.diags };
    proof {
        assert(infos_of(r.diagnostics@).len() == r.diagnostics@.len());
    }
    r
}

/// Acceptance is exactly the absence of diagnostics: an analysis result for
/// a program whose analysis reports no error has `accepted` true and an
/// empty diagnostic list, and one for a program with an error has `accepted`
/// false.
pub proof fn lemma_accepted_iff_clean(p: Program, r: AnalysisResult)
    requires
        matches_analysis(r, p),
    ensures
        r.accepted <==> analyze_spec(p).len() == 0,
        analyze_spec(p).len() == 0 ==> r.diagnostics@.len() == 0,
{
    assert(infos_of(r.diagnostics@).len() == r.diagnostics@.len());
}

/// Analysis is idempotent: two results for the same syntax tree are
/// identical — same acceptance, and diagnostic for diagnostic the same kind,
/// the same position, and the same message. No state survives a run to
/// perturb the next one.
pub proof fn lemma_analysis_deterministic(p: Program, r1: AnalysisResult, r2: AnalysisResult)
    requires
        matches_analysis(r1, p),
        matches_analysis(r2, p),
    ensures
        r1.accepted == r2.accepted,
        r1.diagnostics@.len() == r2.diagnostics@.len(),
        forall|i: int|
            0 <= i < r1.diagnostics@.len() ==> {
                &&& (#[trigger] r1.diagnostics@[i]).kind == r2.diagnostics@[i].kind
                &&& r1.diagnostics@[i].pos == r2.diagnostics@[i].pos
                &&& r1.diagnostics@[i].message@ == r2.diagnostics@[i].message@
            },
{
    assert(infos_of(r1.diagnostics@).len() == r1.diagnostics@.len());
    assert(infos_of(r2.diagnostics@).len() == r2.diagnostics@.len());
    assert forall|i: int| 0 <= i < r1.diagnostics@.len() implies {
        &&& (#[trigger] r1.diagnostics@[i]).kind == r2.diagnostics@[i].kind
        &&& r1.diagnostics@[i].pos == r2.diagnostics@[i].pos
        &&& r1.diagnostics@[i].message@ == r2.diagnostics@[i].message@
    } by {
        assert(infos_of(r1.diagnostics@)[i] == infos_of(r2.diagnostics@)[i]);
        assert(r1.diagnostics@[i].info() == r2.diagnostics@[i].info());
    }
}

} // verus!
