use hxxc::common::err::{Cerr, CerrKind};
use hxxc::common::sepvec::SepVec;
use hxxc::common::span::{ParseCtx, Span, SpanPlace};
use hxxc::hxx::parse::hxx_to_ir1;
use hxxc::ir1::model::IR1Module;
use hxxc::ir1::scope::{number_of, ScopeChain};
use hxxc::ir1::to_ir2::{
    ir1_to_ir2, is_identifier, resolve_func_call, transform_type, validate_identifier,
    ProgramContext,
};
use hxxc::ir2::builtins::default_builtins;
use hxxc::ir2::mangle::mangle_function;
use hxxc::ir2::model::{
    IR2Expr, IR2FuncCall, IR2FuncDecl, IR2IntType, IR2Program, IR2Scope, IR2SetStmt, IR2Stmt,
    IR2Type, IR2VarDecl,
};
use hxxc::ir2::type_resolve::{function_matches, infer_expr_type, ResolveType};
use rug::Integer;
use std::rc::Rc;

fn ctx_of(name: &str, text: &str) -> Rc<ParseCtx> {
    Rc::new(ParseCtx {
        filename: name.to_string(),
        lines: text.lines().map(|l| l.to_string()).collect(),
    })
}

fn at(ctx: &Rc<ParseCtx>, sl: usize, sc: usize, el: usize, ec: usize) -> SpanPlace {
    SpanPlace { ctx: ctx.clone(), start_line: sl, start_col: sc, end_line: el, end_col: ec }
}

fn kind(of: IR2IntType) -> IR2Type {
    IR2Type::Int(of)
}

fn var(name: &str, ty: IR2Type) -> IR2VarDecl {
    IR2VarDecl { name: name.to_string(), ty }
}

fn decl(name: &str, params: Vec<IR2VarDecl>, return_ty: IR2Type) -> IR2FuncDecl {
    IR2FuncDecl { attrs: vec![], name: name.to_string(), return_ty, params }
}

fn module(text: &str) -> IR1Module {
    hxx_to_ir1("t.hx", text).unwrap()
}

fn resolve(text: &str) -> Result<IR2Program, Cerr> {
    ir1_to_ir2(&[module(text)], &default_builtins())
}

fn error_of(text: &str) -> Cerr {
    match resolve(text) {
        Ok(p) => panic!("resolved: {:?}", p),
        Err(e) => e,
    }
}

fn only_scope(text: &str) -> IR2Scope {
    let mut p = resolve(text).unwrap();
    assert_eq!(p.funcs.len(), 1);
    p.funcs.remove(0).scope
}

fn names(vars: &[IR2VarDecl]) -> Vec<String> {
    vars.iter().map(|v| v.name.to_string()).collect()
}

fn target(stmt: &IR2Stmt) -> Option<String> {
    match stmt {
        IR2Stmt::SetVar(s) => s.var.as_ref().map(|v| v.name.to_string()),
        other => panic!("{:?}", other),
    }
}

#[test]
fn a_second_let_of_a_name_is_renamed() {
    let scope = only_scope("(:fn (main) void ((:let (x i32) 1) (:let (x i32) 2) (:set x 3)))");
    assert_eq!(names(&scope.vars), vec!["x", "x$1"]);
    assert_eq!(scope.stmt_list.len(), 3);
    assert_eq!(target(&scope.stmt_list[0]), Some("x".to_string()));
    assert_eq!(target(&scope.stmt_list[1]), Some("x$1".to_string()));
    assert_eq!(target(&scope.stmt_list[2]), Some("x$1".to_string()));
}

#[test]
fn a_reference_before_the_second_let_keeps_the_first_variable() {
    let scope = only_scope(
        "(:fn (main) void ((:let (x i32) 1) (:set x 5) (:let (x i64) x) (:set x x)))",
    );
    assert_eq!(scope.vars, vec![var("x", kind(IR2IntType::I32)), var("x$1", kind(IR2IntType::I64))]);
    assert_eq!(target(&scope.stmt_list[1]), Some("x".to_string()));
    match &scope.stmt_list[2] {
        IR2Stmt::SetVar(s) => {
            assert_eq!(s.var, Some(var("x$1", kind(IR2IntType::I64))));
            assert_eq!(s.value, IR2Expr::Var(var("x", kind(IR2IntType::I32))));
        }
        other => panic!("{:?}", other),
    }
    match &scope.stmt_list[3] {
        IR2Stmt::SetVar(s) => {
            assert_eq!(s.var, Some(var("x$1", kind(IR2IntType::I64))));
            assert_eq!(s.value, IR2Expr::Var(var("x$1", kind(IR2IntType::I64))));
        }
        other => panic!("{:?}", other),
    }
}

#[test]
fn the_number_counts_up_past_nine() {
    let mut text = String::from("(:fn (main) void (");
    for _ in 0..12 {
        text.push_str("(:let (v u8) 0) ");
    }
    text.push_str("))");
    let scope = only_scope(&text);
    assert_eq!(
        names(&scope.vars),
        vec!["v", "v$1", "v$2", "v$3", "v$4", "v$5", "v$6", "v$7", "v$8", "v$9", "v$10", "v$11"]
    );
}

#[test]
fn a_parameter_is_shadowed_by_a_let() {
    let mut p = resolve("(:fn (f (a i32) (a i32)) void ((:let (a i32) a) (:set a a)))").unwrap();
    let f = p.funcs.remove(0);
    assert_eq!(names(&f.decl.params), vec!["a", "a$1"]);
    assert_eq!(names(&f.scope.vars), vec!["a$2"]);
    match &f.scope.stmt_list[0] {
        IR2Stmt::SetVar(s) => assert_eq!(s.value, IR2Expr::Var(var("a$1", kind(IR2IntType::I32)))),
        other => panic!("{:?}", other),
    }
    assert_eq!(target(&f.scope.stmt_list[1]), Some("a$2".to_string()));
}

#[test]
fn a_block_sees_the_names_around_it_and_ends_with_its_own() {
    let scope = only_scope(
        "(:fn (main) void ((:let (x i32) 1) (:if x ((:let (x i32) x) (:set x 2)) ((:set x 3))) (:set x 4) (:let (x i32) 5)))",
    );
    assert_eq!(names(&scope.vars), vec!["x", "x$1"]);
    match &scope.stmt_list[1] {
        IR2Stmt::If(i) => {
            assert_eq!(i.expr, IR2Expr::Var(var("x", kind(IR2IntType::I32))));
            assert_eq!(names(&i.scope1.vars), vec!["x$1"]);
            match &i.scope1.stmt_list[0] {
                IR2Stmt::SetVar(s) => {
                    assert_eq!(s.value, IR2Expr::Var(var("x", kind(IR2IntType::I32))))
                }
                other => panic!("{:?}", other),
            }
            assert_eq!(target(&i.scope1.stmt_list[1]), Some("x$1".to_string()));
            let scope2 = i.scope2.as_ref().unwrap();
            assert!(scope2.vars.is_empty());
            assert_eq!(target(&scope2.stmt_list[0]), Some("x".to_string()));
        }
        other => panic!("{:?}", other),
    }
    assert_eq!(target(&scope.stmt_list[2]), Some("x".to_string()));
    assert_eq!(target(&scope.stmt_list[3]), Some("x$1".to_string()));
}

#[test]
fn a_name_declared_in_a_block_is_gone_after_it() {
    let text = "(:fn (main) void ((:while 1 ((:let (y i32) 1))) (:set y 2)))";
    let ctx = ctx_of("t.hx", text);
    assert_eq!(
        error_of(text),
        Cerr { span: at(&ctx, 1, 54, 1, 55), kind: CerrKind::UndeclaredVariable }
    );
}

#[test]
fn a_let_without_a_value_declares_and_assigns_nothing() {
    let scope = only_scope("(:fn (main) void ((:let (x *i32)) (:let (x i8) 1)))");
    assert_eq!(
        scope.vars,
        vec![var("x", IR2Type::Ptr(Box::new(kind(IR2IntType::I32)))), var("x$1", kind(IR2IntType::I8))]
    );
    assert_eq!(scope.stmt_list.len(), 1);
    assert_eq!(target(&scope.stmt_list[0]), Some("x$1".to_string()));
}

#[test]
fn every_statement_keeps_its_own_place() {
    let text = "(:fn (main) void ((:let (x i32) 1) (:set x 2) (:break)))";
    let ctx = ctx_of("t.hx", text);
    let scope = only_scope(text);
    assert_eq!(
        scope.stmt_list[0],
        IR2Stmt::SetVar(IR2SetStmt {
            span: at(&ctx, 1, 18, 1, 34),
            var: Some(var("x", kind(IR2IntType::I32))),
            value: IR2Expr::Const(Integer::from(1)),
        })
    );
    assert_eq!(
        scope.stmt_list[1],
        IR2Stmt::SetVar(IR2SetStmt {
            span: at(&ctx, 1, 35, 1, 45),
            var: Some(var("x", kind(IR2IntType::I32))),
            value: IR2Expr::Const(Integer::from(2)),
        })
    );
    assert_eq!(scope.stmt_list[2], IR2Stmt::Break(at(&ctx, 1, 46, 1, 54)));
}

#[test]
fn a_call_statement_becomes_an_assignment_without_a_variable() {
    let text = "(:fn (main) void ((println 7)))";
    let ctx = ctx_of("t.hx", text);
    let scope = only_scope(text);
    let println = decl("println", vec![var("a", kind(IR2IntType::U32))], IR2Type::Void);
    assert_eq!(
        scope.stmt_list,
        vec![IR2Stmt::SetVar(IR2SetStmt {
            span: at(&ctx, 1, 18, 1, 29),
            var: None,
            value: IR2Expr::FuncCall(IR2FuncCall { decl: println, args: vec![IR2Expr::Const(Integer::from(7))] }),
        })]
    );
}

#[test]
fn constants_keep_their_value() {
    let scope = only_scope(
        "(:fn (main) void ((:let (a u64) 18446744073709551615) (:let (b i64) -9223372036854775808)))",
    );
    match &scope.stmt_list[0] {
        IR2Stmt::SetVar(s) => {
            assert_eq!(s.value, IR2Expr::Const(Integer::from(18446744073709551615i128)));
            assert_eq!(s.value, IR2Expr::Const(Integer::from(u64::MAX)));
        }
        other => panic!("{:?}", other),
    }
    match &scope.stmt_list[1] {
        IR2Stmt::SetVar(s) => {
            assert_eq!(s.value, IR2Expr::Const(Integer::from(-9223372036854775808i128)));
            assert_ne!(s.value, IR2Expr::Const(Integer::from(9223372036854775808u64)));
        }
        other => panic!("{:?}", other),
    }
}

#[test]
fn two_integer_overloads_are_ambiguous_for_constants() {
    let text = "(:fn (main) void ((add 1 2)))";
    let ctx = ctx_of("t.hx", text);
    let builtins = vec![
        decl("add", vec![var("a", kind(IR2IntType::I32)), var("b", kind(IR2IntType::I32))], kind(IR2IntType::I32)),
        decl("add", vec![var("a", kind(IR2IntType::I64)), var("b", kind(IR2IntType::I64))], kind(IR2IntType::I64)),
    ];
    let e = ir1_to_ir2(&[module(text)], &builtins).unwrap_err();
    assert_eq!(
        e,
        Cerr {
            span: at(&ctx, 1, 18, 1, 27),
            kind: CerrKind::MultipleMatchingFuncDecls(SepVec(
                vec!["(add (a i32) (b i32) i32)".to_string(), "(add (a i64) (b i64) i64)".to_string()],
                "\n  ",
            )),
        }
    );
}

#[test]
fn a_typed_argument_picks_its_overload() {
    let text = "(:fn (main (x i64)) void ((add x 2) (add 1 2)))";
    let builtins = vec![
        decl("add", vec![var("a", kind(IR2IntType::I32)), var("b", kind(IR2IntType::I32))], kind(IR2IntType::I32)),
        decl("add", vec![var("a", kind(IR2IntType::I64)), var("b", kind(IR2IntType::I64))], kind(IR2IntType::I64)),
    ];
    let e = ir1_to_ir2(&[module(text)], &builtins).unwrap_err();
    assert!(matches!(e.kind, CerrKind::MultipleMatchingFuncDecls(_)));
    assert_eq!(e.span.start_col, 36);
    let text = "(:fn (main (x i64)) void ((add x 2)))";
    let mut p = ir1_to_ir2(&[module(text)], &builtins).unwrap();
    match &p.funcs.remove(0).scope.stmt_list[0] {
        IR2Stmt::SetVar(s) => match &s.value {
            IR2Expr::FuncCall(c) => assert_eq!(c.decl.return_ty, kind(IR2IntType::I64)),
            other => panic!("{:?}", other),
        },
        other => panic!("{:?}", other),
    }
}

#[test]
fn a_call_of_an_unknown_function_matches_nothing() {
    let text = "(:fn (main) void ((nope 1)))";
    let ctx = ctx_of("t.hx", text);
    assert_eq!(
        error_of(text),
        Cerr { span: at(&ctx, 1, 18, 1, 26), kind: CerrKind::NoMatchingFuncDecl }
    );
}

#[test]
fn the_number_of_arguments_must_be_that_of_the_parameters() {
    assert_eq!(error_of("(:fn (main) void ((add 1)))").kind, CerrKind::NoMatchingFuncDecl);
    assert_eq!(error_of("(:fn (main) void ((add 1 2 3)))").kind, CerrKind::NoMatchingFuncDecl);
    assert_eq!(error_of("(:fn (main) void ((add)))").kind, CerrKind::NoMatchingFuncDecl);
    assert!(resolve("(:fn (main) void ((add 1 2)))").is_ok());
}

#[test]
fn a_typed_argument_fits_only_its_own_type() {
    assert_eq!(
        error_of("(:fn (main (x i64)) void ((add x 1)))").kind,
        CerrKind::NoMatchingFuncDecl
    );
    assert_eq!(
        error_of("(:fn (main (x *i32)) void ((add x 1)))").kind,
        CerrKind::NoMatchingFuncDecl
    );
    assert!(resolve("(:fn (main (x i32)) void ((add x x)))").is_ok());
    assert_eq!(
        error_of("(:fn (main) void ((add (lt 1 2) 1)))").kind,
        CerrKind::NoMatchingFuncDecl
    );
    assert!(resolve("(:fn (main) void ((add (add 1 2) 1)))").is_ok());
}

#[test]
fn a_float_literal_is_refused_at_its_own_place() {
    let text = "(:fn (main) void ((:let (x i32) 1.5)))";
    let ctx = ctx_of("t.hx", text);
    assert_eq!(
        error_of(text),
        Cerr { span: at(&ctx, 1, 32, 1, 35), kind: CerrKind::FloatsLiteralsUnsupported }
    );
}

#[test]
fn an_unbound_name_is_refused_where_it_is_read() {
    let text = "(:fn (main) void ((:while 1 ((:if 1 ((add 1 zz)))))))";
    let ctx = ctx_of("t.hx", text);
    assert_eq!(
        error_of(text),
        Cerr { span: at(&ctx, 1, 44, 1, 46), kind: CerrKind::UndeclaredVariable }
    );
    let text = "(:fn (main) void ((:set zz 1)))";
    let ctx = ctx_of("t.hx", text);
    assert_eq!(
        error_of(text),
        Cerr { span: at(&ctx, 1, 24, 1, 26), kind: CerrKind::UndeclaredVariable }
    );
}

#[test]
fn a_name_of_another_function_is_not_in_scope() {
    let text = "(:fn (f (a i32)) void ())\n(:fn (g) void ((:set a 1)))";
    assert_eq!(error_of(text).kind, CerrKind::UndeclaredVariable);
}

#[test]
fn the_value_of_a_let_is_resolved_before_its_variable_is_declared() {
    let text = "(:fn (main) void ((:let (x i32) x)))";
    let ctx = ctx_of("t.hx", text);
    assert_eq!(
        error_of(text),
        Cerr { span: at(&ctx, 1, 32, 1, 33), kind: CerrKind::UndeclaredVariable }
    );
    let text = "(:fn (main) void ((:let (x nope) zz)))";
    assert_eq!(error_of(text).kind, CerrKind::UndeclaredVariable);
}

#[test]
fn an_unknown_type_is_refused_at_its_name() {
    let text = "(:fn (main) void ((:let (x **foo) 1)))";
    let ctx = ctx_of("t.hx", text);
    assert_eq!(
        error_of(text),
        Cerr { span: at(&ctx, 1, 27, 1, 32), kind: CerrKind::UndeclaredType }
    );
    let text = "(:fn (main) i33 ())";
    let ctx = ctx_of("t.hx", text);
    assert_eq!(
        error_of(text),
        Cerr { span: at(&ctx, 1, 12, 1, 15), kind: CerrKind::UndeclaredType }
    );
    let text = "(:fn (main (a Void)) void ())";
    assert_eq!(error_of(text).kind, CerrKind::UndeclaredType);
}

#[test]
fn stars_with_nothing_behind_them_name_no_type() {
    let text = "(:fn (main) void ((:let (x **) 1)))";
    let ctx = ctx_of("t.hx", text);
    assert_eq!(
        error_of(text),
        Cerr { span: at(&ctx, 1, 27, 1, 29), kind: CerrKind::UndeclaredType }
    );
}

#[test]
fn names_of_functions_and_parameters_must_be_identifiers() {
    let text = "(:fn (f-g) void ())";
    let ctx = ctx_of("t.hx", text);
    assert_eq!(error_of(text), Cerr { span: at(&ctx, 1, 6, 1, 9), kind: CerrKind::InvalidIdent });
    let text = "(:fn (f (a$b i32)) void ())";
    let ctx = ctx_of("t.hx", text);
    assert_eq!(error_of(text), Cerr { span: at(&ctx, 1, 9, 1, 12), kind: CerrKind::InvalidIdent });
    let text = "(:fn (_f) void ())";
    assert_eq!(error_of(text).kind, CerrKind::InvalidIdent);
    assert!(resolve("(:fn (f_1 (a_ i32)) void ())").is_ok());
}

#[test]
fn the_name_of_a_function_is_checked_before_its_types() {
    assert_eq!(error_of("(:fn (f-g (a nope)) nope ())").kind, CerrKind::InvalidIdent);
    assert_eq!(error_of("(:fn (f (a-b nope)) nope ())").kind, CerrKind::UndeclaredType);
    let text = "(:fn (f (a-b i32)) void ())";
    assert_eq!(error_of(text).kind, CerrKind::InvalidIdent);
}

#[test]
fn identifiers_start_with_a_letter() {
    assert!(is_identifier("a"));
    assert!(is_identifier("Zz_09"));
    assert!(!is_identifier(""));
    assert!(!is_identifier("9a"));
    assert!(!is_identifier("_a"));
    assert!(!is_identifier("a-b"));
    assert!(!is_identifier("a$1"));
    assert!(!is_identifier("\u{e9}t\u{e9}"));
    assert!(!is_identifier("a\u{e9}"));
    let ctx = ctx_of("t.hx", "");
    let good = Span { span: at(&ctx, 1, 0, 1, 2), t: "ok".to_string() };
    assert_eq!(validate_identifier(&good), Ok(&good));
    let bad = Span { span: at(&ctx, 1, 0, 1, 2), t: "o k".to_string() };
    assert_eq!(
        validate_identifier(&bad),
        Err(Cerr { span: at(&ctx, 1, 0, 1, 2), kind: CerrKind::InvalidIdent })
    );
}

#[test]
fn functions_are_known_before_any_body_is_resolved() {
    let first = module("(:fn (f) void ((g 1)))");
    let second = hxx_to_ir1("u.hx", "(:fn (g (a u8)) i16 ((f)))").unwrap();
    let p = ir1_to_ir2(&[first, second], &[]).unwrap();
    assert_eq!(p.funcs.len(), 2);
    assert_eq!(p.funcs[0].decl.name, "f");
    assert_eq!(p.funcs[1].decl, decl("g", vec![var("a", kind(IR2IntType::U8))], kind(IR2IntType::I16)));
    match &p.funcs[0].scope.stmt_list[0] {
        IR2Stmt::SetVar(s) => match &s.value {
            IR2Expr::FuncCall(c) => assert_eq!(c.decl, p.funcs[1].decl),
            other => panic!("{:?}", other),
        },
        other => panic!("{:?}", other),
    }
    assert_eq!(p.funcs[1].span.ctx.filename, "u.hx");
}

#[test]
fn a_function_of_the_source_may_clash_with_a_builtin() {
    let text = "(:fn (add (a i32) (b i32)) i32 ())\n(:fn (main) void ((add 1 2)))";
    let e = error_of(text);
    assert_eq!(
        e.kind,
        CerrKind::MultipleMatchingFuncDecls(SepVec(
            vec!["(add (a i32) (b i32) i32)".to_string(), "(add (a i32) (b i32) i32)".to_string()],
            "\n  ",
        ))
    );
    assert!(resolve("(:fn (add (a i32) (b i32)) i32 ())").is_ok());
}

#[test]
fn the_error_of_an_earlier_function_wins() {
    let text = "(:fn (f) void ((nope)))\n(:fn (g) nope ())";
    assert_eq!(error_of(text).kind, CerrKind::UndeclaredType);
    let text = "(:fn (f) void ((nope)))\n(:fn (g) void ((:set zz 1)))";
    assert_eq!(error_of(text).kind, CerrKind::NoMatchingFuncDecl);
}

#[test]
fn an_argument_that_fails_comes_before_the_choice_of_the_function() {
    assert_eq!(error_of("(:fn (f) void ((nope zz)))").kind, CerrKind::UndeclaredVariable);
    assert_eq!(error_of("(:fn (f) void ((nope 1.0 zz)))").kind, CerrKind::FloatsLiteralsUnsupported);
}

#[test]
fn no_modules_make_an_empty_program() {
    assert_eq!(ir1_to_ir2(&[], &default_builtins()), Ok(IR2Program { funcs: vec![] }));
}

#[test]
fn types_are_read_from_their_names() {
    let ctx = ctx_of("t.hx", "");
    let place = at(&ctx, 1, 0, 1, 1);
    let read = |t: &str| transform_type(&Span { span: at(&ctx, 1, 0, 1, 1), t });
    assert_eq!(read("void"), Ok(IR2Type::Void));
    assert_eq!(read("i8"), Ok(kind(IR2IntType::I8)));
    assert_eq!(read("i16"), Ok(kind(IR2IntType::I16)));
    assert_eq!(read("i32"), Ok(kind(IR2IntType::I32)));
    assert_eq!(read("i64"), Ok(kind(IR2IntType::I64)));
    assert_eq!(read("u8"), Ok(kind(IR2IntType::U8)));
    assert_eq!(read("u16"), Ok(kind(IR2IntType::U16)));
    assert_eq!(read("u32"), Ok(kind(IR2IntType::U32)));
    assert_eq!(read("u64"), Ok(kind(IR2IntType::U64)));
    assert_eq!(read("bool"), Ok(kind(IR2IntType::Bool)));
    assert_eq!(read("*void"), Ok(IR2Type::Ptr(Box::new(IR2Type::Void))));
    assert_eq!(read(""), Err(Cerr { span: place.clone(), kind: CerrKind::UndeclaredType }));
    assert_eq!(read("*"), Err(Cerr { span: place.clone(), kind: CerrKind::UndeclaredType }));
    assert_eq!(read("**"), Err(Cerr { span: place.clone(), kind: CerrKind::UndeclaredType }));
    assert_eq!(read("i32*"), Err(Cerr { span: place.clone(), kind: CerrKind::UndeclaredType }));
    assert_eq!(read("I32"), Err(Cerr { span: place.clone(), kind: CerrKind::UndeclaredType }));
    assert_eq!(read(" i32"), Err(Cerr { span: place.clone(), kind: CerrKind::UndeclaredType }));
    assert_eq!(read("\u{e9}"), Err(Cerr { span: place, kind: CerrKind::UndeclaredType }));
    assert_eq!(IR2IntType::parse("u16"), Some(IR2IntType::U16));
    assert_eq!(IR2IntType::parse("u17"), None);
    assert_eq!(IR2IntType::parse(""), None);
}

#[test]
fn the_number_of_a_name() {
    let of = |source: &str, name: &str| number_of(&source.chars().collect(), name);
    assert_eq!(of("x", "x"), 0);
    assert_eq!(of("x", "x$1"), 1);
    assert_eq!(of("x", "x$10"), 10);
    assert_eq!(of("x", "x$4294967295"), 4294967295);
    assert_eq!(of("x", "x$4294967296"), -1);
    assert_eq!(of("x", "x$0"), -1);
    assert_eq!(of("x", "x$007"), -1);
    assert_eq!(of("x", "x$+5"), -1);
    assert_eq!(of("x", "x$"), -1);
    assert_eq!(of("x", "x$y"), -1);
    assert_eq!(of("x", "x$1$2"), -1);
    assert_eq!(of("x", "x1"), -1);
    assert_eq!(of("x", "y$1"), -1);
    assert_eq!(of("x", "xy$1"), -1);
    assert_eq!(of("x", ""), -1);
    assert_eq!(of("x$1", "x$1"), 0);
    assert_eq!(of("x$1", "x$1$3"), 3);
    assert_eq!(of("x$1", "x$13"), -1);
    assert_eq!(of("", ""), 0);
    assert_eq!(of("", "$2"), 2);
    assert_eq!(of("\u{e9}", "\u{e9}$7"), 7);
}

#[test]
fn a_chain_finds_the_innermost_and_latest_binding() {
    let mut outer = ScopeChain::new();
    assert_eq!(outer.find("a"), None);
    assert_eq!(outer.define_var("a", kind(IR2IntType::I8)), var("a", kind(IR2IntType::I8)));
    assert_eq!(outer.define_var("b", IR2Type::Void), var("b", IR2Type::Void));
    assert_eq!(outer.define_var("a", kind(IR2IntType::I16)), var("a$1", kind(IR2IntType::I16)));
    assert_eq!(outer.find("a"), Some(&var("a$1", kind(IR2IntType::I16))));
    {
        let mut inner = ScopeChain::child(&outer);
        assert_eq!(inner.find("a"), Some(&var("a$1", kind(IR2IntType::I16))));
        assert_eq!(inner.find("b"), Some(&var("b", IR2Type::Void)));
        assert_eq!(inner.define_var("b", kind(IR2IntType::U8)), var("b$1", kind(IR2IntType::U8)));
        assert_eq!(inner.define_var("a", kind(IR2IntType::U8)), var("a$2", kind(IR2IntType::U8)));
        assert_eq!(inner.find("b"), Some(&var("b$1", kind(IR2IntType::U8))));
        assert_eq!(inner.find("c"), None);
        assert_eq!(inner.declared(), vec![var("b$1", kind(IR2IntType::U8)), var("a$2", kind(IR2IntType::U8))]);
        {
            let innermost = ScopeChain::child(&inner);
            assert_eq!(innermost.find("a"), Some(&var("a$2", kind(IR2IntType::U8))));
            assert!(innermost.declared().is_empty());
        }
    }
    assert_eq!(outer.find("b"), Some(&var("b", IR2Type::Void)));
    assert_eq!(
        outer.declared(),
        vec![var("a", kind(IR2IntType::I8)), var("b", IR2Type::Void), var("a$1", kind(IR2IntType::I16))]
    );
}

#[test]
fn names_with_a_dollar_stay_apart() {
    let mut chain = ScopeChain::new();
    assert_eq!(chain.define_var("a$1", IR2Type::Void).name, "a$1");
    assert_eq!(chain.define_var("a", IR2Type::Void).name, "a");
    assert_eq!(chain.define_var("a", IR2Type::Void).name, "a$2");
    assert_eq!(chain.define_var("a$b", IR2Type::Void).name, "a$b");
    assert_eq!(chain.define_var("a$b", IR2Type::Void).name, "a$b$1");
    assert_eq!(chain.define_var("a$1", IR2Type::Void).name, "a$1$1");
    assert_eq!(chain.define_var("a$3", IR2Type::Void).name, "a$3");
    assert_eq!(chain.define_var("a", IR2Type::Void).name, "a$4");
    assert!(all_differ(&names(&chain.declared())));
}

#[test]
fn a_name_that_a_rename_took_is_not_given_again() {
    let mut chain = ScopeChain::new();
    assert_eq!(chain.define_var("x", IR2Type::Void).name, "x");
    assert_eq!(chain.define_var("x", IR2Type::Void).name, "x$1");
    assert_eq!(chain.define_var("x$1", IR2Type::Void).name, "x$1$1");
    assert_eq!(chain.find("x$1").unwrap().name, "x$1$1");
    assert_eq!(chain.find("x").unwrap().name, "x$1");
    let scope = only_scope("(:fn (main) void ((:let (x$1 i32) 1) (:let (x i32) 2) (:let (x i32) 3) (:set x 4)))");
    assert_eq!(names(&scope.vars), vec!["x$1", "x", "x$2"]);
    assert_eq!(target(&scope.stmt_list[3]), Some("x$2".to_string()));
}

#[test]
fn numbers_that_are_not_written_plainly_do_not_count() {
    let mut chain = ScopeChain::new();
    assert_eq!(chain.define_var("x$007", IR2Type::Void).name, "x$007");
    assert_eq!(chain.define_var("x$5", IR2Type::Void).name, "x$5");
    assert_eq!(chain.define_var("x", IR2Type::Void).name, "x");
    assert_eq!(chain.define_var("x", IR2Type::Void).name, "x$6");
    assert_eq!(chain.define_var("x", IR2Type::Void).name, "x$7");
}

#[test]
fn past_the_largest_number_the_name_is_longer_than_all() {
    let mut chain = ScopeChain::new();
    assert_eq!(chain.define_var("x$4294967295", IR2Type::Void).name, "x$4294967295");
    assert_eq!(chain.define_var("x", IR2Type::Void).name, "x");
    assert_eq!(chain.define_var("x", IR2Type::Void).name, "x$4294967295x$1");
    assert_eq!(chain.define_var("x", IR2Type::Void).name, "x$4294967295xx$4294967295x$1$1");
    assert!(all_differ(&names(&chain.declared())));
    let mut other = ScopeChain::new();
    assert_eq!(other.define_var("y$4294967294", IR2Type::Void).name, "y$4294967294");
    assert_eq!(other.define_var("y", IR2Type::Void).name, "y");
    assert_eq!(other.define_var("y", IR2Type::Void).name, "y$4294967295");
}

#[test]
fn a_declaration_fits_by_number_and_type() {
    let add = decl("add", vec![var("a", kind(IR2IntType::I32)), var("b", IR2Type::Ptr(Box::new(IR2Type::Void)))], IR2Type::Void);
    let ptr = || ResolveType::Type(IR2Type::Ptr(Box::new(IR2Type::Void)));
    assert!(function_matches(&add, &[ResolveType::IntConstant, ptr()]));
    assert!(function_matches(&add, &[ResolveType::Type(kind(IR2IntType::I32)), ptr()]));
    assert!(!function_matches(&add, &[ResolveType::Type(kind(IR2IntType::U32)), ptr()]));
    assert!(!function_matches(&add, &[ResolveType::IntConstant, ResolveType::IntConstant]));
    assert!(!function_matches(&add, &[ResolveType::IntConstant]));
    assert!(!function_matches(&add, &[ResolveType::IntConstant, ptr(), ptr()]));
    assert!(!function_matches(&add, &[]));
    let none = decl("f", vec![], IR2Type::Void);
    assert!(function_matches(&none, &[]));
    assert!(!function_matches(&none, &[ResolveType::IntConstant]));
    let takes_void = decl("f", vec![var("a", IR2Type::Void)], IR2Type::Void);
    assert!(!function_matches(&takes_void, &[ResolveType::IntConstant]));
    assert!(function_matches(&takes_void, &[ResolveType::Type(IR2Type::Void)]));
    let deep = decl("f", vec![var("a", IR2Type::Ptr(Box::new(IR2Type::Ptr(Box::new(kind(IR2IntType::Bool))))))], IR2Type::Void);
    assert!(!function_matches(&deep, &[ResolveType::Type(IR2Type::Ptr(Box::new(kind(IR2IntType::Bool))))]));
    assert!(function_matches(&deep, &[ResolveType::Type(IR2Type::Ptr(Box::new(IR2Type::Ptr(Box::new(kind(IR2IntType::Bool))))))]));
}

#[test]
fn what_is_known_of_an_expression() {
    assert_eq!(infer_expr_type(&IR2Expr::Const(Integer::from(3))), ResolveType::IntConstant);
    assert_eq!(
        infer_expr_type(&IR2Expr::Var(var("x", kind(IR2IntType::U64)))),
        ResolveType::Type(kind(IR2IntType::U64))
    );
    let call = IR2FuncCall { decl: decl("f", vec![], IR2Type::Ptr(Box::new(IR2Type::Void))), args: vec![] };
    assert_eq!(
        infer_expr_type(&IR2Expr::FuncCall(call)),
        ResolveType::Type(IR2Type::Ptr(Box::new(IR2Type::Void)))
    );
}

#[test]
fn a_call_resolves_among_the_declarations_of_its_name() {
    let ctx = ctx_of("t.hx", "");
    let place = at(&ctx, 3, 1, 3, 4);
    let program = ProgramContext {
        functions: vec![
            decl("f", vec![var("a", kind(IR2IntType::I8))], IR2Type::Void),
            decl("g", vec![var("a", kind(IR2IntType::I8))], kind(IR2IntType::I8)),
            decl("f", vec![var("a", IR2Type::Void)], kind(IR2IntType::U8)),
        ],
    };
    assert_eq!(
        resolve_func_call("g", &[ResolveType::IntConstant], &program, &place),
        Ok(decl("g", vec![var("a", kind(IR2IntType::I8))], kind(IR2IntType::I8)))
    );
    assert_eq!(
        resolve_func_call("f", &[ResolveType::Type(IR2Type::Void)], &program, &place),
        Ok(decl("f", vec![var("a", IR2Type::Void)], kind(IR2IntType::U8)))
    );
    assert_eq!(
        resolve_func_call("h", &[ResolveType::IntConstant], &program, &place),
        Err(Cerr { span: place.clone(), kind: CerrKind::NoMatchingFuncDecl })
    );
    assert_eq!(
        resolve_func_call("f", &[], &program, &place),
        Err(Cerr { span: place, kind: CerrKind::NoMatchingFuncDecl })
    );
}

#[test]
fn the_builtins() {
    let b = default_builtins();
    let two = |name: &str, ret: IR2IntType| {
        decl(name, vec![var("a", kind(IR2IntType::I32)), var("b", kind(IR2IntType::I32))], kind(ret))
    };
    assert_eq!(
        b,
        vec![
            two("add", IR2IntType::I32),
            two("sub", IR2IntType::I32),
            two("mul", IR2IntType::I32),
            two("lt", IR2IntType::U8),
            decl("println", vec![var("a", kind(IR2IntType::U32))], IR2Type::Void),
        ]
    );
}

#[test]
fn linker_names() {
    let b = default_builtins();
    assert_eq!(mangle_function(&b[0]), "_HX$add$i32$i32");
    assert_eq!(mangle_function(&b[4]), "_HX$println$u32");
    assert_eq!(mangle_function(&decl("f", vec![], IR2Type::Void)), "_HX$f$");
    let p = decl("p", vec![var("a", IR2Type::Ptr(Box::new(IR2Type::Ptr(Box::new(IR2Type::Void))))), var("b", kind(IR2IntType::Bool))], IR2Type::Void);
    assert_eq!(mangle_function(&p), "_HX$p$**void$bool");
}

fn all_differ(names: &[String]) -> bool {
    for i in 0..names.len() {
        for j in 0..i {
            if names[i] == names[j] {
                return false;
            }
        }
    }
    true
}

#[test]
fn names_in_scope_at_one_place_differ() {
    let mut outer = ScopeChain::new();
    for source in ["a", "b", "a", "c", "a", "b"] {
        outer.define_var(source, IR2Type::Void);
    }
    assert!(all_differ(&names(&outer.declared())));
    let mut middle = ScopeChain::child(&outer);
    for source in ["a", "d", "b", "a"] {
        middle.define_var(source, IR2Type::Void);
        let mut seen = names(&outer.declared());
        seen.extend(names(&middle.declared()));
        assert!(all_differ(&seen));
    }
    let mut inner = ScopeChain::child(&middle);
    for source in ["d", "a", "a", "e"] {
        inner.define_var(source, IR2Type::Void);
        let mut seen = names(&outer.declared());
        seen.extend(names(&middle.declared()));
        seen.extend(names(&inner.declared()));
        assert!(all_differ(&seen));
    }
    assert_eq!(names(&outer.declared()), vec!["a", "b", "a$1", "c", "a$2", "b$1"]);
    assert_eq!(names(&middle.declared()), vec!["a$3", "d", "b$2", "a$4"]);
    assert_eq!(names(&inner.declared()), vec!["d$1", "a$5", "a$6", "e"]);
}

#[test]
fn two_blocks_side_by_side_may_use_the_same_name() {
    let scope = only_scope(
        "(:fn (main) void ((:let (x i32) 1) (:if x ((:let (x i32) 2)) ((:let (x i32) 3))) (:while x ((:let (x i32) 4)))))",
    );
    assert_eq!(names(&scope.vars), vec!["x"]);
    match &scope.stmt_list[1] {
        IR2Stmt::If(i) => {
            assert_eq!(names(&i.scope1.vars), vec!["x$1"]);
            assert_eq!(names(&i.scope2.as_ref().unwrap().vars), vec!["x$1"]);
        }
        other => panic!("{:?}", other),
    }
    match &scope.stmt_list[2] {
        IR2Stmt::While(w) => assert_eq!(names(&w.scope.vars), vec!["x$1"]),
        other => panic!("{:?}", other),
    }
}

#[test]
fn trees_are_copied_whole() {
    let text = "(:fn (f (a i32)) i32 ((:let (x i32) (add a 1)) (:if x ((:set x 2)) ((:break))) (:while x ((println 1)))))";
    let m = module(text);
    assert_eq!(m.clone(), m);
    let p = ir1_to_ir2(&[m], &default_builtins()).unwrap();
    assert_eq!(p.clone(), p);
    assert_eq!(p.funcs[0].scope.stmt_list[1].clone(), p.funcs[0].scope.stmt_list[1]);
}

#[test]
fn the_order_of_the_files_does_not_change_what_they_resolve_to() {
    let one = "(:fn (f) void ((g 1)))\n(:fn (h (a i8)) i8 ())";
    let two = "(:fn (g (a u8)) i16 ((:let (x i8) (h 2)) (f)))";
    let forward = ir1_to_ir2(
        &[hxx_to_ir1("a.hx", one).unwrap(), hxx_to_ir1("b.hx", two).unwrap()],
        &default_builtins(),
    )
    .unwrap();
    let backward = ir1_to_ir2(
        &[hxx_to_ir1("b.hx", two).unwrap(), hxx_to_ir1("a.hx", one).unwrap()],
        &default_builtins(),
    )
    .unwrap();
    assert_eq!(forward.funcs.len(), 3);
    assert_eq!(backward.funcs[0], forward.funcs[2]);
    assert_eq!(backward.funcs[1], forward.funcs[0]);
    assert_eq!(backward.funcs[2], forward.funcs[1]);
}

#[test]
fn a_signature_holds_its_parameters_under_their_new_names() {
    let p = resolve("(:fn (f (a i32) (b i8) (a i64)) void ((:set a 1)))\n(:fn (main) void ((f 1 2 3)))").unwrap();
    assert_eq!(
        p.funcs[0].decl.params,
        vec![var("a", kind(IR2IntType::I32)), var("b", kind(IR2IntType::I8)), var("a$1", kind(IR2IntType::I64))]
    );
    assert_eq!(target(&p.funcs[0].scope.stmt_list[0]), Some("a$1".to_string()));
    match &p.funcs[1].scope.stmt_list[0] {
        IR2Stmt::SetVar(s) => match &s.value {
            IR2Expr::FuncCall(c) => assert_eq!(c.decl, p.funcs[0].decl),
            other => panic!("{:?}", other),
        },
        other => panic!("{:?}", other),
    }
}

#[test]
fn a_deep_reference_to_an_unbound_name_is_found_before_later_errors() {
    let text = "(:fn (main (a i32)) void ((:let (x i32) a) (:if (lt x 1) ((:while a ((println (add a (add zz 1.5)))))) ((nope)))))";
    let e = error_of(text);
    assert_eq!(e.kind, CerrKind::UndeclaredVariable);
    assert_eq!((e.span.start_col, e.span.end_col), (90, 92));
}
