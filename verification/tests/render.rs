use hxxc::common::eqf64::EqF64;
use hxxc::common::err::{Cerr, CerrKind};
use hxxc::common::sepvec::SepVec;
use hxxc::common::span::{ParseCtx, Span, SpanPlace};
use hxxc::common::text::{
    chars_of, decimal, join_strings, parse_u32, repeat, str_eq, ToText,
};
use hxxc::common::util::{invert, invert2, join, map_join};
use hxxc::hxx::parse::hxx_to_ir1;
use hxxc::hxx::sexp::{Sexp, SexpValue};
use hxxc::ir2::model::{IR2FuncDecl, IR2IntType, IR2Type, IR2VarDecl};
use std::rc::Rc;

fn ctx_of(name: &str, lines: &[&str]) -> Rc<ParseCtx> {
    Rc::new(ParseCtx {
        filename: name.to_string(),
        lines: lines.iter().map(|l| l.to_string()).collect(),
    })
}

fn at(ctx: &Rc<ParseCtx>, sl: usize, sc: usize, el: usize, ec: usize) -> SpanPlace {
    SpanPlace { ctx: ctx.clone(), start_line: sl, start_col: sc, end_line: el, end_col: ec }
}

#[test]
fn decimal_numerals() {
    assert_eq!(decimal(0), "0");
    assert_eq!(decimal(7), "7");
    assert_eq!(decimal(10), "10");
    assert_eq!(decimal(1234567890), "1234567890");
    assert_eq!(decimal(u64::MAX), "18446744073709551615");
}

#[test]
fn numerals_are_read_back() {
    let read = |s: &str| parse_u32(&s.chars().collect());
    assert_eq!(read("0"), Some(0));
    assert_eq!(read("42"), Some(42));
    assert_eq!(read("+42"), Some(42));
    assert_eq!(read("00042"), Some(42));
    assert_eq!(read("4294967295"), Some(u32::MAX));
    assert_eq!(read("4294967296"), None);
    assert_eq!(read("99999999999999999999999"), None);
    assert_eq!(read(""), None);
    assert_eq!(read("+"), None);
    assert_eq!(read("-1"), None);
    assert_eq!(read("++1"), None);
    assert_eq!(read("1+"), None);
    assert_eq!(read("1 "), None);
    assert_eq!(read(" 1"), None);
    assert_eq!(read("1_0"), None);
    assert_eq!(read("12a"), None);
    assert_eq!(read("\u{661}"), None);
    for n in [0u32, 9, 10, 99, 100, 65535, u32::MAX] {
        assert_eq!(read(&decimal(n as u64)), Some(n));
    }
}

#[test]
fn strings_compare_by_their_characters() {
    assert!(str_eq("", ""));
    assert!(str_eq("abc", "abc"));
    assert!(!str_eq("abc", "abd"));
    assert!(!str_eq("abc", "ab"));
    assert!(!str_eq("", "a"));
    assert!(str_eq("\u{e9}\u{1f600}", "\u{e9}\u{1f600}"));
    assert!(!str_eq("\u{e9}", "e"));
}

#[test]
fn characters_of_a_string() {
    assert_eq!(chars_of("a\u{e9}$"), vec!['a', '\u{e9}', '$']);
    assert_eq!(chars_of(""), Vec::<char>::new());
}

#[test]
fn repeating_and_joining() {
    assert_eq!(repeat("~", 0), "");
    assert_eq!(repeat("~", 3), "~~~");
    assert_eq!(repeat("ab", 2), "abab");
    assert_eq!(join_strings(&vec![], ", "), "");
    assert_eq!(join_strings(&vec!["a".to_string()], ", "), "a");
    assert_eq!(join_strings(&vec!["a".to_string(), "".to_string(), "c".to_string()], ", "), "a, , c");
    assert_eq!(join(&[1u32, 22, 333], " $"), "1 $22 $333");
    assert_eq!(join(&[IR2Type::Void, IR2Type::Int(IR2IntType::U8)], ""), "voidu8");
    assert_eq!(join::<u32>(&[], "x"), "");
    assert_eq!(join(&[-1i8, 0, 127], ","), "-1,0,127");
    assert_eq!(join(&[usize::MAX], ","), usize::MAX.to_string());
    let vars = vec![
        IR2VarDecl { name: "a".to_string(), ty: IR2Type::Int(IR2IntType::I64) },
        IR2VarDecl { name: "b".to_string(), ty: IR2Type::Void },
    ];
    assert_eq!(map_join(&vars, |v| &v.ty, "/"), "i64/void");
    assert_eq!(map_join(&vars, |v| &v.name, "-"), "a-b");
    assert_eq!(map_join(&vars[..0], |v| &v.name, "-"), "");
}

#[test]
fn optional_results_turn_inside_out() {
    assert_eq!(invert::<u8, u8>(None), Ok(None));
    assert_eq!(invert::<u8, u8>(Some(Ok(1))), Ok(Some(1)));
    assert_eq!(invert::<u8, u8>(Some(Err(2))), Err(2));
    assert_eq!(invert2::<u8, u8>(Ok(None)), None);
    assert_eq!(invert2::<u8, u8>(Ok(Some(1))), Some(Ok(1)));
    assert_eq!(invert2::<u8, u8>(Err(2)), Some(Err(2)));
    for x in [None, Some(Ok(1u8)), Some(Err(2u8))] {
        assert_eq!(invert2(invert(x)), x);
    }
}

#[test]
fn a_separated_list_is_written_with_its_separator() {
    assert_eq!(SepVec(vec!["a".to_string(), "b".to_string()], "\n  ").to_text(), "a\n  b");
    assert_eq!(SepVec(vec!["a".to_string()], ", ").to_text(), "a");
    assert_eq!(SepVec(Vec::<String>::new(), ", ").to_text(), "");
    assert_eq!(SepVec(vec![1u32, 2, 3], "<>").to_text(), "1<>2<>3");
}

#[test]
fn types_and_declarations_are_written() {
    assert_eq!(IR2Type::Void.to_text(), "void");
    assert_eq!(IR2Type::Int(IR2IntType::Bool).to_text(), "bool");
    assert_eq!(IR2IntType::I8.to_text(), "i8");
    assert_eq!(IR2IntType::I16.to_text(), "i16");
    assert_eq!(IR2IntType::I32.to_text(), "i32");
    assert_eq!(IR2IntType::I64.to_text(), "i64");
    assert_eq!(IR2IntType::U8.to_text(), "u8");
    assert_eq!(IR2IntType::U16.to_text(), "u16");
    assert_eq!(IR2IntType::U32.to_text(), "u32");
    assert_eq!(IR2IntType::U64.to_text(), "u64");
    assert_eq!(
        IR2Type::Ptr(Box::new(IR2Type::Ptr(Box::new(IR2Type::Int(IR2IntType::I32))))).to_text(),
        "**i32"
    );
    let f = IR2FuncDecl {
        attrs: vec![],
        name: "f".to_string(),
        return_ty: IR2Type::Ptr(Box::new(IR2Type::Void)),
        params: vec![
            IR2VarDecl { name: "a".to_string(), ty: IR2Type::Int(IR2IntType::U16) },
            IR2VarDecl { name: "b$1".to_string(), ty: IR2Type::Void },
        ],
    };
    assert_eq!(f.to_text(), "(f (a u16) (b$1 void) *void)");
    let g = IR2FuncDecl { attrs: vec![], name: "g".to_string(), return_ty: IR2Type::Void, params: vec![] };
    assert_eq!(g.to_text(), "(g void)");
}

#[test]
fn types_are_the_same_when_built_the_same() {
    let p = |t: IR2Type| IR2Type::Ptr(Box::new(t));
    assert!(IR2Type::Void.same(&IR2Type::Void));
    assert!(!IR2Type::Void.same(&IR2Type::Int(IR2IntType::I8)));
    assert!(IR2Type::Int(IR2IntType::I8).same(&IR2Type::Int(IR2IntType::I8)));
    assert!(!IR2Type::Int(IR2IntType::I8).same(&IR2Type::Int(IR2IntType::U8)));
    assert!(p(p(IR2Type::Void)).same(&p(p(IR2Type::Void))));
    assert!(!p(p(IR2Type::Void)).same(&p(IR2Type::Void)));
    assert!(!p(IR2Type::Void).same(&IR2Type::Void));
    assert!(IR2Type::Int(IR2IntType::Bool).is_int());
    assert!(!p(IR2Type::Int(IR2IntType::Bool)).is_int());
    assert!(!IR2Type::Void.is_int());
    assert_eq!(p(p(IR2Type::Int(IR2IntType::U64))).clone(), p(p(IR2Type::Int(IR2IntType::U64))));
    assert_eq!(IR2IntType::Bool.index(), 8);
    assert_eq!(IR2IntType::I8.index(), 0);
}

#[test]
fn a_place_is_written_as_file_line_column() {
    let ctx = ctx_of("dir/t.hx", &["abc"]);
    assert_eq!(at(&ctx, 12, 0, 12, 3).to_text(), "dir/t.hx:12:0");
    assert_eq!(at(&ctx, 1, 345, 9, 3).to_text(), "dir/t.hx:1:345");
}

#[test]
fn the_place_past_a_place() {
    let ctx = ctx_of("t.hx", &["abc"]);
    assert_eq!(at(&ctx, 2, 3, 4, 7).mark_end(), at(&ctx, 4, 8, 4, 8));
    assert_eq!(at(&ctx, 1, 0, 1, 0).mark_end(), at(&ctx, 1, 1, 1, 1));
    let past = at(&ctx, 1, 2, 3, 7).mark_end();
    assert_eq!(past.start_col, past.end_col);
    assert_eq!(past.start_line, past.end_line);
    assert_eq!(SpanPlace::from_loc(ctx.clone(), 3, 9), at(&ctx, 3, 9, 3, 10));
    assert_eq!(SpanPlace::from_lexpr(ctx.clone(), 1, 2, 3, 4), at(&ctx, 1, 2, 3, 4));
    assert_eq!(at(&ctx, 1, 2, 3, 4).clone(), at(&ctx, 1, 2, 3, 4));
}

#[test]
fn a_value_with_a_place_is_mapped_in_place() {
    let ctx = ctx_of("t.hx", &["abc"]);
    let s = Span { span: at(&ctx, 1, 0, 1, 3), t: 20u32 };
    assert_eq!(s.as_ref(), Span { span: at(&ctx, 1, 0, 1, 3), t: &20u32 });
    assert_eq!(s.clone(), Span { span: at(&ctx, 1, 0, 1, 3), t: 20u32 });
    assert_eq!(s.map(|x| x + 1), Span { span: at(&ctx, 1, 0, 1, 3), t: 21u32 });
    let s = Span { span: at(&ctx, 1, 0, 1, 3), t: 20u32 };
    assert_eq!(s.map_res(|x| if x > 5 { Ok(x.to_string()) } else { Err(x) }), Ok(Span { span: at(&ctx, 1, 0, 1, 3), t: "20".to_string() }));
    let s = Span { span: at(&ctx, 1, 0, 1, 3), t: 2u32 };
    assert_eq!(s.map_res(|x| if x > 5 { Ok(x.to_string()) } else { Err(x) }), Err(2));
}

#[test]
fn floats_are_equal_and_ordered_by_their_bits() {
    assert_eq!(EqF64(1.5f64.to_bits()), EqF64(1.5f64.to_bits()));
    assert_ne!(EqF64(0.0f64.to_bits()), EqF64((-0.0f64).to_bits()));
    assert_eq!(EqF64(f64::NAN.to_bits()), EqF64(f64::NAN.to_bits()));
    assert!(EqF64(1.0f64.to_bits()) < EqF64(2.0f64.to_bits()));
    assert!(EqF64(1.0f64.to_bits()) < EqF64((-1.0f64).to_bits()));
}

#[test]
fn the_message_of_each_kind_of_error() {
    assert_eq!(CerrKind::InvalidSexpr("whatever".to_string()).to_text(), "invalid s-expression");
    assert_eq!(CerrKind::InvalidSyntax.to_text(), "invalid syntax");
    assert_eq!(CerrKind::ExpectedThing("list".to_string()).to_text(), "invalid syntax, expected list");
    assert_eq!(CerrKind::UnexpectedEndOfList.to_text(), "invalid syntax, unexpected end of list");
    assert_eq!(CerrKind::UndeclaredVariable.to_text(), "undeclared variable");
    assert_eq!(CerrKind::UndeclaredType.to_text(), "undeclared type");
    assert_eq!(CerrKind::InvalidIdent.to_text(), "invalid identifier");
    assert_eq!(CerrKind::FloatsLiteralsUnsupported.to_text(), "float literals are unsupported");
    assert_eq!(CerrKind::NoMatchingFuncDecl.to_text(), "no matching function declaration");
    assert_eq!(
        CerrKind::MultipleMatchingFuncDecls(SepVec(vec!["(f void)".to_string(), "(f i8)".to_string()], "\n  "))
            .to_text(),
        "multiple matching function declarations:\n  (f void)\n  (f i8)"
    );
    assert_eq!(CerrKind::UnknownAttribute.to_text(), "unknown attribute");
}

#[test]
fn an_error_on_one_line_is_underlined() {
    let ctx = ctx_of("t.hx", &["(:fn (f) void)", "second"]);
    let e = Cerr::with_span(CerrKind::InvalidSyntax, at(&ctx, 1, 5, 1, 8));
    assert_eq!(
        e.to_text(),
        "error: at t.hx:1:5: invalid syntax\n\n  (:fn (f) void)\n       ~~~\n\n"
    );
    let e = Cerr::with_span(CerrKind::UndeclaredType, at(&ctx, 2, 0, 2, 6));
    assert_eq!(e.to_text(), "error: at t.hx:2:0: undeclared type\n\n  second\n  ~~~~~~\n\n");
}

#[test]
fn an_empty_place_gets_one_mark() {
    let ctx = ctx_of("t.hx", &["(:fn (f) void)"]);
    let e = Cerr::with_span(CerrKind::UnexpectedEndOfList, at(&ctx, 1, 0, 1, 14).mark_end());
    assert_eq!(
        e.to_text(),
        "error: at t.hx:1:15: invalid syntax, unexpected end of list\n\n  (:fn (f) void)\n                 ~\n\n"
    );
    let e = Cerr::with_span(CerrKind::InvalidSyntax, at(&ctx, 1, 3, 1, 3));
    assert_eq!(e.to_text(), "error: at t.hx:1:3: invalid syntax\n\n  (:fn (f) void)\n     ~\n\n");
}

#[test]
fn a_place_over_several_lines_is_marked_to_the_end_of_its_first() {
    let ctx = ctx_of("t.hx", &["(:fn (f)", "  void ())"]);
    let e = Cerr::with_span(CerrKind::InvalidSyntax, at(&ctx, 1, 5, 2, 10));
    assert_eq!(
        e.to_text(),
        "error: at t.hx:1:5: invalid syntax\n\n  (:fn (f)\n       ~~~\n   ...\n\n"
    );
    let e = Cerr::with_span(CerrKind::InvalidSyntax, at(&ctx, 1, 20, 2, 10));
    assert_eq!(
        e.to_text(),
        "error: at t.hx:1:20: invalid syntax\n\n  (:fn (f)\n                      ~\n   ...\n\n"
    );
    let wide = ctx_of("t.hx", &["\u{e9}\u{e9}x", ""]);
    let e = Cerr::with_span(CerrKind::InvalidSyntax, at(&wide, 1, 1, 2, 0));
    assert_eq!(e.to_text(), "error: at t.hx:1:1: invalid syntax\n\n  \u{e9}\u{e9}x\n   ~~~~\n   ...\n\n");
}

#[test]
fn a_line_that_the_file_does_not_have_is_shown_empty() {
    let ctx = ctx_of("t.hx", &["only"]);
    let e = Cerr::with_span(CerrKind::InvalidSyntax, at(&ctx, 0, 2, 0, 4));
    assert_eq!(e.to_text(), "error: at t.hx:0:2: invalid syntax\n\n  \n    ~~\n\n");
    let e = Cerr::with_span(CerrKind::InvalidSyntax, at(&ctx, 2, 0, 2, 1));
    assert_eq!(e.to_text(), "error: at t.hx:2:0: invalid syntax\n\n  \n  ~\n\n");
    let e = Cerr::with_span(CerrKind::InvalidSyntax, at(&ctx, 7, 1, 9, 1));
    assert_eq!(e.to_text(), "error: at t.hx:7:1: invalid syntax\n\n  \n   ~\n   ...\n\n");
    let e = Cerr::with_span(CerrKind::InvalidSyntax, at(&ctx, 1, 3, 1, 1));
    assert_eq!(e.to_text(), "error: at t.hx:1:3: invalid syntax\n\n  only\n     ~\n\n");
}

#[test]
fn an_error_of_the_parser_is_shown_with_its_line() {
    let e = hxx_to_ir1("prog.hx", "(:fn (f) void ())\n(:fn (g) void 7)").unwrap_err();
    assert_eq!(
        e.to_text(),
        "error: at prog.hx:2:14: invalid syntax, expected list\n\n  (:fn (g) void 7)\n                ~\n\n"
    );
}

#[test]
fn an_error_about_a_datum() {
    let ctx = ctx_of("t.hx", &["abc"]);
    let d = Sexp { start_line: 3, start_col: 1, end_line: 4, end_col: 2, value: SexpValue::Null };
    assert_eq!(
        Cerr::with_span_of(CerrKind::InvalidSyntax, &d, ctx.clone()),
        Cerr { span: at(&ctx, 3, 1, 4, 2), kind: CerrKind::InvalidSyntax }
    );
}

#[test]
fn integers_of_every_type_are_written() {
    assert_eq!(0u8.to_text(), "0");
    assert_eq!(u8::MAX.to_text(), "255");
    assert_eq!(u16::MAX.to_text(), "65535");
    assert_eq!(u32::MAX.to_text(), "4294967295");
    assert_eq!(u64::MAX.to_text(), "18446744073709551615");
    assert_eq!(u128::MAX.to_text(), "340282366920938463463374607431768211455");
    assert_eq!(17usize.to_text(), "17");
    assert_eq!(i8::MIN.to_text(), "-128");
    assert_eq!(i8::MAX.to_text(), "127");
    assert_eq!((-1i16).to_text(), "-1");
    assert_eq!(i32::MIN.to_text(), "-2147483648");
    assert_eq!(i64::MIN.to_text(), "-9223372036854775808");
    assert_eq!(i64::MAX.to_text(), "9223372036854775807");
    assert_eq!(i128::MIN.to_text(), "-170141183460469231731687303715884105728");
    assert_eq!(i128::MAX.to_text(), "170141183460469231731687303715884105727");
    assert_eq!(0i128.to_text(), "0");
    assert_eq!((-10isize).to_text(), "-10");
}
