use hxxc::common::eqf64::EqF64;
use hxxc::common::err::{Cerr, CerrKind};
use hxxc::common::span::{ParseCtx, Span, SpanPlace};
use hxxc::hxx::parse::{hxx_to_ir1, parse_expr, parse_forms, parse_stmt};
use hxxc::hxx::sexp::{ReadError, Sexp, SexpNumber, SexpRead, SexpValue};
use hxxc::ir1::model::{IR1Constant, IR1Expr, IR1Module, IR1Stmt};
use std::rc::Rc;

fn ctx_of(name: &str, text: &str) -> Rc<ParseCtx> {
    Rc::new(ParseCtx {
        filename: name.to_string(),
        lines: text.lines().map(|l| l.to_string()).collect(),
    })
}

fn at(ctx: &Rc<ParseCtx>, sl: usize, sc: usize, el: usize, ec: usize) -> SpanPlace {
    SpanPlace { ctx: ctx.clone(), start_line: sl, start_col: sc, end_line: el, end_col: ec }
}

fn parse(text: &str) -> Result<IR1Module, Cerr> {
    hxx_to_ir1("t.hx", text)
}

fn error_of(text: &str) -> Cerr {
    match parse(text) {
        Ok(m) => panic!("parsed: {:?}", m),
        Err(e) => e,
    }
}

fn body_of(text: &str) -> Vec<Span<IR1Stmt>> {
    let mut m = parse(text).unwrap();
    assert_eq!(m.functions.len(), 1);
    m.functions.remove(0).t.body.t
}

#[test]
fn minimal_function_with_places() {
    let text = "(:fn (f) void ())";
    let ctx = ctx_of("t.hx", text);
    let m = parse(text).unwrap();
    assert_eq!(m.functions.len(), 1);
    let f = &m.functions[0];
    assert_eq!(f.span, at(&ctx, 1, 0, 1, 17));
    assert_eq!(f.t.name, Span { span: at(&ctx, 1, 6, 1, 7), t: "f".to_string() });
    assert_eq!(f.t.ret_typ, Span { span: at(&ctx, 1, 9, 1, 13), t: "void".to_string() });
    assert_eq!(f.t.args.span, at(&ctx, 1, 5, 1, 8));
    assert!(f.t.args.t.is_empty());
    assert_eq!(f.t.body.span, at(&ctx, 1, 14, 1, 16));
    assert!(f.t.body.t.is_empty());
}

#[test]
fn function_arguments_follow_the_name() {
    let text = "(:fn (f (a i32) (b *u8)) void ())";
    let ctx = ctx_of("t.hx", text);
    let m = parse(text).unwrap();
    let args = &m.functions[0].t.args.t;
    assert_eq!(args.len(), 2);
    assert_eq!(args[0].span, at(&ctx, 1, 8, 1, 15));
    assert_eq!(args[0].t.name.t, "a");
    assert_eq!(args[0].t.typ.t, "i32");
    assert_eq!(args[1].t.name.t, "b");
    assert_eq!(args[1].t.typ, Span { span: at(&ctx, 1, 19, 1, 22), t: "*u8".to_string() });
}

#[test]
fn several_functions_on_several_lines() {
    let text = "(:fn (f) void ())\n; a comment\n  (:fn (g) i8 ())\n";
    let ctx = ctx_of("t.hx", text);
    let m = parse(text).unwrap();
    assert_eq!(m.functions.len(), 2);
    assert_eq!(m.functions[1].span, at(&ctx, 3, 2, 3, 17));
    assert_eq!(m.functions[1].t.name.t, "g");
}

#[test]
fn empty_text_is_an_empty_module() {
    assert_eq!(parse("").unwrap(), IR1Module { functions: vec![] });
    assert_eq!(parse("  ; nothing here\n").unwrap(), IR1Module { functions: vec![] });
}

#[test]
fn every_kind_of_statement() {
    let body = body_of(
        "(:fn (f) void ((:let (x i32) 1) (:let (y i8)) (:set x 2) (:if x ((:break))) (:if x () ((g))) (:while x ((:break))) (g x) (:break)))",
    );
    assert_eq!(body.len(), 8);
    match &body[0].t {
        IR1Stmt::Let(l) => {
            assert_eq!(l.decl.t.name.t, "x");
            assert_eq!(l.decl.t.typ.t, "i32");
            assert_eq!(l.init.as_ref().unwrap().t, IR1Expr::Const(IR1Constant::U64(1)));
        }
        other => panic!("{:?}", other),
    }
    match &body[1].t {
        IR1Stmt::Let(l) => {
            assert_eq!(l.decl.t.name.t, "y");
            assert!(l.init.is_none());
        }
        other => panic!("{:?}", other),
    }
    match &body[2].t {
        IR1Stmt::SetVar(s) => {
            assert_eq!(s.var.t, "x");
            assert_eq!(s.expr.t, IR1Expr::Const(IR1Constant::U64(2)));
        }
        other => panic!("{:?}", other),
    }
    match &body[3].t {
        IR1Stmt::If(i) => {
            assert_eq!(i.cond.t, IR1Expr::VarName("x".to_string()));
            assert_eq!(i.body1.t.len(), 1);
            assert_eq!(i.body1.t[0].t, IR1Stmt::Break);
            assert!(i.body2.is_none());
        }
        other => panic!("{:?}", other),
    }
    match &body[4].t {
        IR1Stmt::If(i) => {
            assert!(i.body1.t.is_empty());
            assert_eq!(i.body2.as_ref().unwrap().t.len(), 1);
        }
        other => panic!("{:?}", other),
    }
    match &body[5].t {
        IR1Stmt::While(w) => {
            assert_eq!(w.cond.t, IR1Expr::VarName("x".to_string()));
            assert_eq!(w.body.t.len(), 1);
        }
        other => panic!("{:?}", other),
    }
    match &body[6].t {
        IR1Stmt::FuncCall(c) => {
            assert_eq!(c.name.t, "g");
            assert_eq!(c.args.t.len(), 1);
            assert_eq!(c.args.t[0].t, IR1Expr::VarName("x".to_string()));
        }
        other => panic!("{:?}", other),
    }
    assert_eq!(body[7].t, IR1Stmt::Break);
}

#[test]
fn a_symbol_at_the_head_makes_a_call_even_if_it_reads_like_a_keyword() {
    let body = body_of("(:fn (f) void ((let (x i32) 1)))");
    match &body[0].t {
        IR1Stmt::FuncCall(c) => {
            assert_eq!(c.name.t, "let");
            assert_eq!(c.args.t.len(), 2);
        }
        other => panic!("{:?}", other),
    }
}

#[test]
fn numbers_are_unsigned_signed_or_float() {
    let body = body_of("(:fn (f) void ((g 0 18446744073709551615 -1 -9223372036854775808 1.5 -0.25)))");
    let args = match &body[0].t {
        IR1Stmt::FuncCall(c) => &c.args.t,
        other => panic!("{:?}", other),
    };
    assert_eq!(args[0].t, IR1Expr::Const(IR1Constant::U64(0)));
    assert_eq!(args[1].t, IR1Expr::Const(IR1Constant::U64(u64::MAX)));
    assert_eq!(args[2].t, IR1Expr::Const(IR1Constant::I64(-1)));
    assert_eq!(args[3].t, IR1Expr::Const(IR1Constant::I64(i64::MIN)));
    assert_eq!(args[4].t, IR1Expr::Const(IR1Constant::F64(EqF64(1.5f64.to_bits()))));
    assert_eq!(args[5].t, IR1Expr::Const(IR1Constant::F64(EqF64((-0.25f64).to_bits()))));
}

#[test]
fn nested_calls_keep_their_places() {
    let text = "(:fn (f) void ((g (h 1) x)))";
    let ctx = ctx_of("t.hx", text);
    let body = body_of(text);
    assert_eq!(body[0].span, at(&ctx, 1, 15, 1, 26));
    let call = match &body[0].t {
        IR1Stmt::FuncCall(c) => c,
        other => panic!("{:?}", other),
    };
    assert_eq!(call.name.span, at(&ctx, 1, 16, 1, 17));
    assert_eq!(call.args.span, at(&ctx, 1, 15, 1, 26));
    assert_eq!(call.args.t[0].span, at(&ctx, 1, 18, 1, 23));
    match &call.args.t[0].t {
        IR1Expr::FuncCall(inner) => {
            assert_eq!(inner.name.t, "h");
            assert_eq!(inner.args.t[0].t, IR1Expr::Const(IR1Constant::U64(1)));
        }
        other => panic!("{:?}", other),
    }
    assert_eq!(call.args.t[1], Span { span: at(&ctx, 1, 24, 1, 25), t: IR1Expr::VarName("x".to_string()) });
}

#[test]
fn nil_reads_as_the_empty_list() {
    let text = "(:fn (f) void nil)";
    let m = parse(text).unwrap();
    assert!(m.functions[0].t.body.t.is_empty());
}

#[test]
fn a_dotted_tail_is_no_element() {
    let body = body_of("(:fn (f) void ((g 1 . 2)))");
    match &body[0].t {
        IR1Stmt::FuncCall(c) => assert_eq!(c.args.t.len(), 1),
        other => panic!("{:?}", other),
    }
}

#[test]
fn the_lines_of_the_text_come_with_every_place() {
    let e = error_of("x\r\ny\n\nz\r");
    assert_eq!(
        e.span.ctx.lines,
        vec!["x".to_string(), "y".to_string(), "".to_string(), "z\r".to_string()]
    );
    assert_eq!(e.span.ctx.filename, "t.hx");
    let e = error_of("x\n");
    assert_eq!(e.span.ctx.lines, vec!["x".to_string()]);
}

#[test]
fn a_form_that_is_no_list_is_refused() {
    let text = "foo";
    let ctx = ctx_of("t.hx", text);
    assert_eq!(
        error_of(text),
        Cerr { span: at(&ctx, 1, 0, 1, 3), kind: CerrKind::ExpectedThing("list".to_string()) }
    );
}

#[test]
fn the_keyword_fn_is_asked_for() {
    let text = "(:fun (f) void ())";
    let ctx = ctx_of("t.hx", text);
    assert_eq!(
        error_of(text),
        Cerr { span: at(&ctx, 1, 1, 1, 5), kind: CerrKind::ExpectedThing("\"#:fn\"".to_string()) }
    );
    let text = "(fn (f) void ())";
    let ctx = ctx_of("t.hx", text);
    assert_eq!(
        error_of(text),
        Cerr { span: at(&ctx, 1, 1, 1, 3), kind: CerrKind::ExpectedThing("\"#:fn\"".to_string()) }
    );
}

#[test]
fn a_list_that_is_too_short_is_reported_past_its_end() {
    let text = "(:fn (f) void)";
    let ctx = ctx_of("t.hx", text);
    assert_eq!(
        error_of(text),
        Cerr { span: at(&ctx, 1, 15, 1, 15), kind: CerrKind::UnexpectedEndOfList }
    );
    let text = "()";
    let ctx = ctx_of("t.hx", text);
    assert_eq!(
        error_of(text),
        Cerr { span: at(&ctx, 1, 3, 1, 3), kind: CerrKind::UnexpectedEndOfList }
    );
    let text = "(:fn (f) void ((:set x)))";
    let ctx = ctx_of("t.hx", text);
    assert_eq!(
        error_of(text),
        Cerr { span: at(&ctx, 1, 24, 1, 24), kind: CerrKind::UnexpectedEndOfList }
    );
}

#[test]
fn an_unknown_keyword_starts_no_statement() {
    let text = "(:fn (f) void ((:foo 1)))";
    let ctx = ctx_of("t.hx", text);
    assert_eq!(
        error_of(text),
        Cerr {
            span: at(&ctx, 1, 16, 1, 20),
            kind: CerrKind::ExpectedThing(
                "one of \"#:let\", \"#:set\", \"#:if\", \"#:while\", or a function call".to_string()
            ),
        }
    );
}

#[test]
fn names_must_be_symbols() {
    let text = "(:fn (1) void ())";
    let ctx = ctx_of("t.hx", text);
    assert_eq!(
        error_of(text),
        Cerr { span: at(&ctx, 1, 6, 1, 7), kind: CerrKind::ExpectedThing("identifier".to_string()) }
    );
    let text = "(:fn (f) void ((:set 1 2)))";
    let ctx = ctx_of("t.hx", text);
    assert_eq!(
        error_of(text),
        Cerr { span: at(&ctx, 1, 21, 1, 22), kind: CerrKind::ExpectedThing("identifier".to_string()) }
    );
}

#[test]
fn what_is_no_expression_is_invalid_syntax() {
    let text = "(:fn (f) void ((g \"s\")))";
    let ctx = ctx_of("t.hx", text);
    assert_eq!(error_of(text), Cerr { span: at(&ctx, 1, 18, 1, 21), kind: CerrKind::InvalidSyntax });
    let text = "(:fn (f) void ((g ())))";
    let ctx = ctx_of("t.hx", text);
    assert_eq!(error_of(text), Cerr { span: at(&ctx, 1, 18, 1, 20), kind: CerrKind::InvalidSyntax });
    let text = "(:fn (f) void ((g :k)))";
    let ctx = ctx_of("t.hx", text);
    assert_eq!(error_of(text), Cerr { span: at(&ctx, 1, 18, 1, 20), kind: CerrKind::InvalidSyntax });
}

#[test]
fn a_body_must_be_a_list() {
    let text = "(:fn (f) void 7)";
    let ctx = ctx_of("t.hx", text);
    assert_eq!(
        error_of(text),
        Cerr { span: at(&ctx, 1, 14, 1, 15), kind: CerrKind::ExpectedThing("list".to_string()) }
    );
}

#[test]
fn text_that_is_no_data_is_an_invalid_s_expression() {
    let text = "(:fn (f) void (";
    let ctx = ctx_of("t.hx", text);
    let e = error_of(text);
    assert!(matches!(e.kind, CerrKind::InvalidSexpr(_)));
    assert_eq!(e.span, at(&ctx, 1, 15, 1, 16));
    match e.kind {
        CerrKind::InvalidSexpr(message) => assert!(!message.is_empty()),
        other => panic!("{:?}", other),
    }
}

#[test]
fn only_the_first_of_two_errors_is_reported() {
    let text = "(:fun (f) void ())\n(:fn (g) void 7)";
    let ctx = ctx_of("t.hx", text);
    assert_eq!(
        error_of(text),
        Cerr { span: at(&ctx, 1, 1, 1, 5), kind: CerrKind::ExpectedThing("\"#:fn\"".to_string()) }
    );
    let text = "(:fn (f) void 7)\n(:fun (g) void ())";
    let ctx = ctx_of("t.hx", text);
    assert_eq!(
        error_of(text),
        Cerr { span: at(&ctx, 1, 14, 1, 15), kind: CerrKind::ExpectedThing("list".to_string()) }
    );
}

#[test]
fn an_error_of_the_grammar_comes_before_a_later_failure_of_the_reader() {
    let text = "(:fun (f) void ())\n(:fn (g) void (";
    let ctx = ctx_of("t.hx", text);
    assert_eq!(
        error_of(text),
        Cerr { span: at(&ctx, 1, 1, 1, 5), kind: CerrKind::ExpectedThing("\"#:fn\"".to_string()) }
    );
    let text = "(:fn (f) void ())\n(:fn (g) void (";
    let e = error_of(text);
    assert!(matches!(e.kind, CerrKind::InvalidSexpr(_)));
    assert_eq!(e.span.start_line, 2);
}

fn datum(value: SexpValue) -> Sexp {
    Sexp { start_line: 2, start_col: 3, end_line: 2, end_col: 9, value }
}

fn symbol(s: &str) -> Sexp {
    datum(SexpValue::Symbol(s.to_string()))
}

#[test]
fn a_number_that_is_of_no_kind_is_invalid_syntax() {
    let ctx = ctx_of("m.hx", "");
    let d = datum(SexpValue::Number(SexpNumber { as_u64: None, as_i64: None, as_f64: None }));
    assert_eq!(
        parse_expr(&ctx, &d),
        Err(Cerr { span: at(&ctx, 2, 3, 2, 9), kind: CerrKind::InvalidSyntax })
    );
}

#[test]
fn an_unsigned_reading_goes_before_a_signed_one() {
    let ctx = ctx_of("m.hx", "");
    let d = datum(SexpValue::Number(SexpNumber {
        as_u64: Some(7),
        as_i64: Some(7),
        as_f64: Some(EqF64(7.0f64.to_bits())),
    }));
    assert_eq!(parse_expr(&ctx, &d).unwrap().t, IR1Expr::Const(IR1Constant::U64(7)));
    let d = datum(SexpValue::Number(SexpNumber {
        as_u64: None,
        as_i64: Some(-7),
        as_f64: Some(EqF64((-7.0f64).to_bits())),
    }));
    assert_eq!(parse_expr(&ctx, &d).unwrap().t, IR1Expr::Const(IR1Constant::I64(-7)));
}

#[test]
fn other_data_are_no_expressions_and_no_lists() {
    let ctx = ctx_of("m.hx", "");
    assert_eq!(
        parse_expr(&ctx, &datum(SexpValue::Other)),
        Err(Cerr { span: at(&ctx, 2, 3, 2, 9), kind: CerrKind::InvalidSyntax })
    );
    assert_eq!(
        parse_stmt(&ctx, &datum(SexpValue::Other)),
        Err(Cerr { span: at(&ctx, 2, 3, 2, 9), kind: CerrKind::ExpectedThing("list".to_string()) })
    );
}

#[test]
fn break_is_a_statement_of_one_keyword() {
    let ctx = ctx_of("m.hx", "");
    let d = datum(SexpValue::Cons(vec![datum(SexpValue::Keyword("break".to_string()))]));
    assert_eq!(parse_stmt(&ctx, &d), Ok(Span { span: at(&ctx, 2, 3, 2, 9), t: IR1Stmt::Break }));
}

#[test]
fn the_end_marker_stays_in_range_at_the_last_column() {
    let ctx = ctx_of("m.hx", "");
    let d = Sexp {
        start_line: 1,
        start_col: 0,
        end_line: 1,
        end_col: usize::MAX,
        value: SexpValue::Cons(vec![symbol("g")]),
    };
    let call = Sexp {
        start_line: 1,
        start_col: 0,
        end_line: 1,
        end_col: usize::MAX,
        value: SexpValue::Cons(vec![datum(SexpValue::Keyword("set".to_string()))]),
    };
    assert!(parse_stmt(&ctx, &d).is_ok());
    assert_eq!(
        parse_stmt(&ctx, &call),
        Err(Cerr { span: at(&ctx, 1, 0, 1, usize::MAX), kind: CerrKind::UnexpectedEndOfList })
    );
}

#[test]
fn a_failure_of_the_reader_is_placed_where_it_stopped() {
    let ctx = ctx_of("m.hx", "");
    let read = SexpRead {
        forms: vec![],
        failure: Some(ReadError { message: "bad".to_string(), location: Some((4, 2)) }),
    };
    assert_eq!(
        parse_forms(&ctx, &read),
        Err(Cerr { span: at(&ctx, 4, 2, 4, 3), kind: CerrKind::InvalidSexpr("bad".to_string()) })
    );
    let read = SexpRead {
        forms: vec![],
        failure: Some(ReadError { message: "bad".to_string(), location: None }),
    };
    assert_eq!(
        parse_forms(&ctx, &read),
        Err(Cerr { span: at(&ctx, 1, 0, 1, 1), kind: CerrKind::InvalidSexpr("bad".to_string()) })
    );
    let read = SexpRead {
        forms: vec![],
        failure: Some(ReadError { message: "bad".to_string(), location: Some((4, usize::MAX)) }),
    };
    assert_eq!(
        parse_forms(&ctx, &read),
        Err(Cerr { span: at(&ctx, 1, 0, 1, 1), kind: CerrKind::InvalidSexpr("bad".to_string()) })
    );
}

#[test]
fn data_read_before_a_failure_are_checked_first() {
    let ctx = ctx_of("m.hx", "");
    let read = SexpRead {
        forms: vec![symbol("x")],
        failure: Some(ReadError { message: "bad".to_string(), location: None }),
    };
    assert_eq!(
        parse_forms(&ctx, &read),
        Err(Cerr { span: at(&ctx, 2, 3, 2, 9), kind: CerrKind::ExpectedThing("list".to_string()) })
    );
}

#[test]
fn data_are_copied_whole() {
    let d = Sexp {
        start_line: 1,
        start_col: 2,
        end_line: 3,
        end_col: 4,
        value: SexpValue::Cons(vec![
            symbol("a"),
            datum(SexpValue::Keyword("k".to_string())),
            datum(SexpValue::Cons(vec![datum(SexpValue::Null), datum(SexpValue::Other)])),
            datum(SexpValue::Number(SexpNumber { as_u64: Some(1), as_i64: None, as_f64: None })),
        ]),
    };
    assert_eq!(d.clone(), d);
    assert_eq!(d.value.clone(), d.value);
}

#[test]
fn reading_a_datum_through_a_function() {
    let ctx = ctx_of("m.hx", "");
    let d = symbol("abc");
    let length = ctx.get_var(&d, |v| match &v.value {
        SexpValue::Symbol(s) => Some(s.len()),
        _ => None,
    }, "symbol");
    assert_eq!(length, Ok(Span { span: at(&ctx, 2, 3, 2, 9), t: 3 }));
    let none = ctx.get_var(&d, |_| None::<u8>, "nothing");
    assert_eq!(
        none,
        Err(Cerr { span: at(&ctx, 2, 3, 2, 9), kind: CerrKind::ExpectedThing("nothing".to_string()) })
    );
    assert_eq!(ctx.get_id(&d), Ok(Span { span: at(&ctx, 2, 3, 2, 9), t: "abc" }));
    assert_eq!(
        ctx.get_kw(&d),
        Err(Cerr { span: at(&ctx, 2, 3, 2, 9), kind: CerrKind::ExpectedThing("keyword".to_string()) })
    );
    assert_eq!(ctx.get_assert_kw(&datum(SexpValue::Keyword("fn".to_string())), "fn"), Ok(()));
    assert_eq!(
        ctx.get_assert_kw(&datum(SexpValue::Keyword("fn".to_string())), "let"),
        Err(Cerr { span: at(&ctx, 2, 3, 2, 9), kind: CerrKind::ExpectedThing("\"#:let\"".to_string()) })
    );
    let empty = datum(SexpValue::Null);
    let list = ctx.get_list(&empty).unwrap();
    assert!(list.t.is_empty());
    assert_eq!(
        ctx.index_list(&list, 0),
        Err(Cerr { span: at(&ctx, 2, 10, 2, 10), kind: CerrKind::UnexpectedEndOfList })
    );
    assert_eq!(ctx.span_of(&d), at(&ctx, 2, 3, 2, 9));
}
