//! The grammar: from S-expression data to the syntax tree.
//!
//! A file is a sequence of functions, each written
//! `(:fn (name (arg type)...) type (statement...))`. A statement is a list
//! that starts with one of the keywords `let`, `set`, `if`, `while` and
//! `break`, or a call. An expression is a number, a name or a call.

use crate::common::err::{view_result, Cerr, CerrKind, CerrKindView, CerrView};
use crate::common::span::{
    share_ctx, spec_mark_end, ParseCtx, ParseCtxView, Span, SpanPlace, SpanPlaceView, SpanView,
};
use crate::common::text::{spec_first_index, str_eq};
use crate::hxx::sexp::{
    read_forms, sexp_read, ReadError, ReadErrorView, Sexp, SexpNumber, SexpRead, SexpReadView,
    SexpValue, SexpValueView, SexpView,
};
use crate::ir1::model::{
    IR1Constant, IR1Expr, IR1ExprView, IR1Func, IR1FuncCall, IR1FuncCallView, IR1FuncView,
    IR1IfStmt, IR1IfStmtView, IR1LetStmt, IR1LetStmtView, IR1Module, IR1ModuleView, IR1SetStmt,
    IR1SetStmtView, IR1Stmt, IR1StmtView, IR1VarDecl, IR1VarDeclView, IR1WhileStmt,
    IR1WhileStmtView,
};
use std::rc::Rc;
use vstd::prelude::*;

verus! {

/// The place of a datum in the file `ctx`.
pub open spec fn spec_span_of(ctx: ParseCtxView, d: SexpView) -> SpanPlaceView {
    SpanPlaceView {
        ctx,
        start_line: d.start_line,
        start_col: d.start_col,
        end_line: d.end_line,
        end_col: d.end_col,
    }
}

/// The place just past `span`, where something is missing; `span` itself
/// where its last column is the largest there is.
pub open spec fn spec_end_marker(span: SpanPlaceView) -> SpanPlaceView {
    if span.end_col < usize::MAX {
        spec_mark_end(span)
    } else {
        span
    }
}

/// The error that `what` was expected at the place of `d`.
pub open spec fn spec_expected(ctx: ParseCtxView, d: SexpView, what: Seq<char>) -> CerrView {
    CerrView { span: spec_span_of(ctx, d), kind: CerrKindView::ExpectedThing(what) }
}

/// A datum read as a list: its elements, with the place of the datum.
pub open spec fn spec_get_list(ctx: ParseCtxView, d: SexpView) -> Result<
    SpanView<Seq<SexpView>>,
    CerrView,
> {
    match d.value {
        SexpValueView::Cons(items) => Ok(SpanView { span: spec_span_of(ctx, d), t: items }),
        SexpValueView::Null => Ok(SpanView { span: spec_span_of(ctx, d), t: Seq::empty() }),
        _ => Err(spec_expected(ctx, d, "list"@)),
    }
}

/// The element of a list at position `idx`; where the list is too short,
/// the error is about the place just past the list.
pub open spec fn spec_index_list(list: SpanView<Seq<SexpView>>, idx: int) -> Result<
    SexpView,
    CerrView,
> {
    if 0 <= idx < list.t.len() {
        Ok(list.t[idx])
    } else {
        Err(
            CerrView {
                span: spec_end_marker(list.span),
                kind: CerrKindView::UnexpectedEndOfList,
            },
        )
    }
}

/// A datum read as an identifier: the text of a symbol, with its place.
pub open spec fn spec_get_id(ctx: ParseCtxView, d: SexpView) -> Result<
    SpanView<Seq<char>>,
    CerrView,
> {
    match d.value {
        SexpValueView::Symbol(s) => Ok(SpanView { span: spec_span_of(ctx, d), t: s }),
        _ => Err(spec_expected(ctx, d, "identifier"@)),
    }
}

/// A datum read as a keyword: its text, with its place.
pub open spec fn spec_get_kw(ctx: ParseCtxView, d: SexpView) -> Result<
    SpanView<Seq<char>>,
    CerrView,
> {
    match d.value {
        SexpValueView::Keyword(s) => Ok(SpanView { span: spec_span_of(ctx, d), t: s }),
        _ => Err(spec_expected(ctx, d, "keyword"@)),
    }
}

/// How the keyword `word` is shown in an error: `"#:word"`, quotes
/// included.
pub open spec fn spec_quoted_keyword(word: Seq<char>) -> Seq<char> {
    "\"#:"@ + word + "\""@
}

/// The datum must be the keyword `expect`.
pub open spec fn spec_get_assert_kw(ctx: ParseCtxView, d: SexpView, expect: Seq<char>) -> Result<
    (),
    CerrView,
> {
    match d.value {
        SexpValueView::Keyword(s) => if s == expect {
            Ok(())
        } else {
            Err(spec_expected(ctx, d, spec_quoted_keyword(expect)))
        },
        _ => Err(spec_expected(ctx, d, spec_quoted_keyword(expect))),
    }
}

/// A number literal read as a constant: an integer from zero up where it
/// is one, else a signed integer where it is one, else a floating-point
/// number.
pub open spec fn spec_constant(n: SexpNumber) -> Option<IR1Constant> {
    match n.as_u64 {
        Some(x) => Some(IR1Constant::U64(x)),
        None => match n.as_i64 {
            Some(x) => Some(IR1Constant::I64(x)),
            None => match n.as_f64 {
                Some(x) => Some(IR1Constant::F64(x)),
                None => None,
            },
        },
    }
}

/// An expression: a number is a constant, a symbol is a variable, a list
/// with elements is a call. Anything else is no expression.
pub open spec fn spec_parse_expr(ctx: ParseCtxView, d: SexpView) -> Result<
    SpanView<IR1ExprView>,
    CerrView,
>
    decreases d, 1nat,
{
    let span = spec_span_of(ctx, d);
    let invalid = Err(CerrView { span, kind: CerrKindView::InvalidSyntax });
    match d.value {
        SexpValueView::Number(n) => match spec_constant(n) {
            Some(c) => Ok(SpanView { span, t: IR1ExprView::Const(c) }),
            None => invalid,
        },
        SexpValueView::Symbol(s) => Ok(SpanView { span, t: IR1ExprView::VarName(s) }),
        SexpValueView::Cons(_) => match spec_parse_func_call(ctx, d) {
            Ok(call) => Ok(SpanView { span, t: IR1ExprView::FuncCall(call) }),
            Err(e) => Err(e),
        },
        _ => invalid,
    }
}

/// A call: a list of the name of the function and the arguments.
pub open spec fn spec_parse_func_call(ctx: ParseCtxView, d: SexpView) -> Result<
    IR1FuncCallView,
    CerrView,
>
    decreases d, 0nat,
{
    match spec_get_list(ctx, d) {
        Err(e) => Err(e),
        Ok(list) => match spec_index_list(list, 0) {
            Err(e) => Err(e),
            Ok(head) => match spec_get_id(ctx, head) {
                Err(e) => Err(e),
                Ok(name) => match spec_parse_exprs(ctx, list.t, list.t.len()) {
                    Err(e) => Err(e),
                    Ok(args) => Ok(
                        IR1FuncCallView { name, args: SpanView { span: list.span, t: args } },
                    ),
                },
            },
        },
    }
}

/// The elements of a list from the second up to position `upto`, each read
/// as an expression; the error of the first that is none.
pub open spec fn spec_parse_exprs(ctx: ParseCtxView, items: Seq<SexpView>, upto: nat) -> Result<
    Seq<SpanView<IR1ExprView>>,
    CerrView,
>
    decreases items, upto,
{
    if upto <= 1 || upto > items.len() {
        Ok(Seq::empty())
    } else {
        match spec_parse_exprs(ctx, items, (upto - 1) as nat) {
            Err(e) => Err(e),
            Ok(done) => match spec_parse_expr(ctx, items[upto - 1]) {
                Err(e) => Err(e),
                Ok(x) => Ok(done.push(x)),
            },
        }
    }
}

/// An error met among the first elements is the error of the whole list.
pub proof fn lemma_exprs_error(ctx: ParseCtxView, items: Seq<SexpView>, at: nat, upto: nat)
    requires
        at <= upto <= items.len(),
        spec_parse_exprs(ctx, items, at) is Err,
    ensures
        spec_parse_exprs(ctx, items, upto) == spec_parse_exprs(ctx, items, at),
    decreases upto - at,
{
    if at < upto {
        lemma_exprs_error(ctx, items, at, (upto - 1) as nat);
    }
}

/// The elements of a list datum are the data that its view lists.
pub proof fn lemma_sexp_items(d: Sexp)
    ensures
        d.deep_view().start_line == d.start_line,
        d.deep_view().start_col == d.start_col,
        d.deep_view().end_line == d.end_line,
        d.deep_view().end_col == d.end_col,
        d.deep_view().value == d.value.deep_view(),
        match d.value {
            SexpValue::Cons(items) => {
                &&& d.deep_view().value is Cons
                &&& d.deep_view().value->Cons_0 == items.deep_view()
            },
            _ => true,
        },
{
    match d.value {
        SexpValue::Cons(items) => {
            assert(d.deep_view().value->Cons_0 =~= items.deep_view());
        },
        _ => {},
    }
}

/// The place just past `span`.
pub fn end_marker(span: SpanPlace) -> (r: SpanPlace)
    ensures
        r.deep_view() == spec_end_marker(span.deep_view()),
{
    if span.end_col < usize::MAX {
        span.mark_end()
    } else {
        span
    }
}

/// The text of a symbol; nothing for any other datum.
pub fn symbol_of<'a>(datum: &'a Sexp) -> (r: Option<&'a str>)
    ensures
        match datum.value {
            SexpValue::Symbol(s) => r matches Some(t) && t@ == s@,
            _ => r is None,
        },
{
    match &datum.value {
        SexpValue::Symbol(s) => Some(s.as_str()),
        _ => None,
    }
}

/// The text of a keyword; nothing for any other datum.
pub fn keyword_of<'a>(datum: &'a Sexp) -> (r: Option<&'a str>)
    ensures
        match datum.value {
            SexpValue::Keyword(s) => r matches Some(t) && t@ == s@,
            _ => r is None,
        },
{
    match &datum.value {
        SexpValue::Keyword(s) => Some(s.as_str()),
        _ => None,
    }
}

/// What the grammar reads of a datum, in the file that this is the record
/// of.
impl ParseCtx {
    /// The place of `datum` in this file.
    pub fn span_of(self: &Rc<Self>, datum: &Sexp) -> (r: SpanPlace)
        ensures
            r.deep_view() == spec_span_of(self.deep_view(), datum.deep_view()),
            r.ctx == **self,
    {
        SpanPlace::from_lexpr(
            share_ctx(self),
            datum.start_line,
            datum.start_col,
            datum.end_line,
            datum.end_col,
        )
    }

    /// `with` at the place of `datum`.
    pub fn span_with<T>(self: &Rc<Self>, with: T, datum: &Sexp) -> (r: Span<T>)
        ensures
            r.span.deep_view() == spec_span_of(self.deep_view(), datum.deep_view()),
            r.t == with,
    {
        Span { span: self.span_of(datum), t: with }
    }

    /// An error of the given kind about the place of `datum`.
    pub fn make_cerr(self: &Rc<Self>, kind: CerrKind, datum: &Sexp) -> (r: Cerr)
        ensures
            r.deep_view() == (CerrView {
                span: spec_span_of(self.deep_view(), datum.deep_view()),
                kind: kind.deep_view(),
            }),
    {
        Cerr::with_span_of(kind, datum, share_ctx(self))
    }

    /// Reads `datum` as a list and hands out its elements.
    pub fn get_list<'a>(self: &Rc<Self>, datum: &'a Sexp) -> (r: Result<
        Span<Vec<&'a Sexp>>,
        Cerr,
    >)
        ensures
            view_result(r) == spec_get_list(self.deep_view(), datum.deep_view()),
            match r {
                Ok(list) => match datum.value {
                    SexpValue::Cons(items) => list.t@.len() == items@.len() && forall|i: int|
                        0 <= i < items@.len() ==> *(#[trigger] list.t@[i]) == items@[i],
                    _ => list.t@.len() == 0,
                },
                Err(_) => true,
            },
    {
        proof {
            lemma_sexp_items(*datum);
        }
        match &datum.value {
            SexpValue::Cons(items) => {
                let mut out: Vec<&'a Sexp> = Vec::new();
                let mut i: usize = 0;
                while i < items.len()
                    invariant
                        i <= items.len(),
                        out.len() == i,
                        forall|k: int| 0 <= k < i ==> *(#[trigger] out@[k]) == items@[k],
                    decreases items.len() - i,
                {
                    out.push(&items[i]);
                    i += 1;
                }
                assert(out.deep_view() =~= items.deep_view());
                Ok(self.span_with(out, datum))
            },
            SexpValue::Null => {
                let out: Vec<&'a Sexp> = Vec::new();
                assert(out.deep_view() =~= Seq::<SexpView>::empty());
                Ok(self.span_with(out, datum))
            },
            _ => Err(self.make_cerr(CerrKind::ExpectedThing("list".to_owned()), datum)),
        }
    }

    /// The element of `datums` at position `idx`.
    pub fn index_list<'a>(self: &Rc<Self>, datums: &Span<Vec<&'a Sexp>>, idx: usize) -> (r: Result<
        &'a Sexp,
        Cerr,
    >)
        ensures
            view_result(r) == spec_index_list(datums.deep_view(), idx as int),
            match r {
                Ok(d) => idx < datums.t@.len() && d == datums.t@[idx as int],
                Err(_) => idx >= datums.t@.len(),
            },
    {
        if idx < datums.t.len() {
            Ok(datums.t[idx])
        } else {
            Err(Cerr::with_span(CerrKind::UnexpectedEndOfList, end_marker(datums.span.clone())))
        }
    }

    /// What `f` reads of `datum`, with the place of `datum`; where `f` reads
    /// nothing, the error that `expected` was expected there.
    pub fn get_var<'a, T, F: FnOnce(&'a Sexp) -> Option<T>>(
        self: &Rc<Self>,
        datum: &'a Sexp,
        f: F,
        expected: &str,
    ) -> (r: Result<Span<T>, Cerr>)
        requires
            f.requires((datum,)),
        ensures
            match r {
                Ok(found) => {
                    &&& f.ensures((datum,), Some(found.t))
                    &&& found.span.deep_view() == spec_span_of(self.deep_view(), datum.deep_view())
                },
                Err(e) => {
                    &&& f.ensures((datum,), None)
                    &&& e.deep_view() == spec_expected(
                        self.deep_view(),
                        datum.deep_view(),
                        expected@,
                    )
                },
            },
    {
        match f(datum) {
            Some(t) => Ok(self.span_with(t, datum)),
            None => Err(self.make_cerr(CerrKind::ExpectedThing(expected.to_owned()), datum)),
        }
    }

    /// Reads `datum` as an identifier.
    pub fn get_id<'a>(self: &Rc<Self>, datum: &'a Sexp) -> (r: Result<Span<&'a str>, Cerr>)
        ensures
            view_result(r) == spec_get_id(self.deep_view(), datum.deep_view()),
    {
        proof {
            lemma_sexp_items(*datum);
        }
        self.get_var(datum, symbol_of, "identifier")
    }

    /// Reads `datum` as an identifier and copies its text.
    pub fn get_name(self: &Rc<Self>, datum: &Sexp) -> (r: Result<Span<String>, Cerr>)
        ensures
            view_result(r) == spec_get_id(self.deep_view(), datum.deep_view()),
    {
        match self.get_id(datum) {
            Ok(id) => Ok(Span { span: id.span, t: id.t.to_owned() }),
            Err(e) => Err(e),
        }
    }

    /// Reads `datum` as a keyword.
    pub fn get_kw<'a>(self: &Rc<Self>, datum: &'a Sexp) -> (r: Result<Span<&'a str>, Cerr>)
        ensures
            view_result(r) == spec_get_kw(self.deep_view(), datum.deep_view()),
    {
        proof {
            lemma_sexp_items(*datum);
        }
        self.get_var(datum, keyword_of, "keyword")
    }

    /// Checks that `datum` is the keyword `expect`.
    pub fn get_assert_kw(self: &Rc<Self>, datum: &Sexp, expect: &str) -> (r: Result<(), Cerr>)
        ensures
            view_result(r) == spec_get_assert_kw(self.deep_view(), datum.deep_view(), expect@),
    {
        proof {
            lemma_sexp_items(*datum);
        }
        let mut expected_str = "\"#:".to_owned();
        expected_str.append(expect);
        expected_str.append("\"");
        match &datum.value {
            SexpValue::Keyword(s) => {
                if str_eq(s.as_str(), expect) {
                    Ok(())
                } else {
                    Err(self.make_cerr(CerrKind::ExpectedThing(expected_str), datum))
                }
            },
            _ => Err(self.make_cerr(CerrKind::ExpectedThing(expected_str), datum)),
        }
    }
}

/// Reads a number literal as a constant.
pub fn constant_of(n: &SexpNumber) -> (r: Option<IR1Constant>)
    ensures
        r == spec_constant(*n),
{
    match n.as_u64 {
        Some(x) => Some(IR1Constant::U64(x)),
        None => match n.as_i64 {
            Some(x) => Some(IR1Constant::I64(x)),
            None => match n.as_f64 {
                Some(x) => Some(IR1Constant::F64(x)),
                None => None,
            },
        },
    }
}

/// Reads `datum` as an expression.
pub fn parse_expr(ctx: &Rc<ParseCtx>, datum: &Sexp) -> (r: Result<Span<IR1Expr>, Cerr>)
    ensures
        view_result(r) == spec_parse_expr(ctx.deep_view(), datum.deep_view()),
    decreases datum, 1nat,
{
    proof {
        lemma_sexp_items(*datum);
    }
    let expr = match &datum.value {
        SexpValue::Number(num) => match constant_of(num) {
            Some(c) => IR1Expr::Const(c),
            None => {
                return Err(ctx.make_cerr(CerrKind::InvalidSyntax, datum));
            },
        },
        SexpValue::Symbol(symbol) => IR1Expr::VarName(symbol.clone()),
        SexpValue::Cons(_) => match parse_func_call(ctx, datum) {
            Ok(call) => IR1Expr::FuncCall(call),
            Err(e) => {
                return Err(e);
            },
        },
        _ => {
            return Err(ctx.make_cerr(CerrKind::InvalidSyntax, datum));
        },
    };
    Ok(ctx.span_with(expr, datum))
}

/// Reads `datum` as a call.
pub fn parse_func_call(ctx: &Rc<ParseCtx>, datum: &Sexp) -> (r: Result<IR1FuncCall, Cerr>)
    ensures
        view_result(r) == spec_parse_func_call(ctx.deep_view(), datum.deep_view()),
    decreases datum, 0nat,
{
    let list = ctx.get_list(datum)?;
    let func_name = ctx.get_name(ctx.index_list(&list, 0)?)?;
    let ghost c = ctx.deep_view();
    let ghost items = list.t.deep_view();
    let mut args: Vec<Span<IR1Expr>> = Vec::new();
    let mut i: usize = 1;
    assert(args.deep_view() =~= Seq::<SpanView<IR1ExprView>>::empty());
    while i < list.t.len()
        invariant
            1 <= i <= list.t.len(),
            c == ctx.deep_view(),
            items == list.t.deep_view(),
            spec_get_list(c, datum.deep_view()) == Ok::<SpanView<Seq<SexpView>>, CerrView>(
                list.deep_view(),
            ),
            spec_get_id(c, items[0]) is Ok,
            datum.value is Cons,
            list.t@.len() == datum.value->Cons_0@.len(),
            forall|k: int|
                0 <= k < list.t@.len() ==> *(#[trigger] list.t@[k]) == datum.value->Cons_0@[k],
            spec_parse_exprs(c, items, i as nat) == Ok::<Seq<SpanView<IR1ExprView>>, CerrView>(
                args.deep_view(),
            ),
        decreases list.t.len() - i,
    {
        let ghost before = args.deep_view();
        assert(items[i as int] == list.t@[i as int].deep_view());
        match parse_expr(ctx, list.t[i]) {
            Err(e) => {
                proof {
                    lemma_exprs_error(c, items, (i + 1) as nat, items.len());
                }
                return Err(e);
            },
            Ok(x) => {
                args.push(x);
                assert(args.deep_view() =~= before.push(x.deep_view()));
            },
        }
        i += 1;
    }
    let call = IR1FuncCall { name: func_name, args: Span { span: list.span, t: args } };
    proof {
        crate::ir1::model::lemma_call_view(call);
    }
    Ok(call)
}

/// A declaration of a variable: a list of its name and the name of its
/// type.
pub open spec fn spec_parse_var_decl(ctx: ParseCtxView, d: SexpView) -> Result<
    SpanView<IR1VarDeclView>,
    CerrView,
> {
    match spec_get_list(ctx, d) {
        Err(e) => Err(e),
        Ok(list) => match spec_index_list(list, 0) {
            Err(e) => Err(e),
            Ok(first) => match spec_get_id(ctx, first) {
                Err(e) => Err(e),
                Ok(name) => match spec_index_list(list, 1) {
                    Err(e) => Err(e),
                    Ok(second) => match spec_get_id(ctx, second) {
                        Err(e) => Err(e),
                        Ok(typ) => Ok(
                            SpanView {
                                span: spec_span_of(ctx, d),
                                t: IR1VarDeclView { name, typ },
                            },
                        ),
                    },
                },
            },
        },
    }
}

/// The elements of a list from the second up to position `upto`, each read
/// as a declaration of a variable; the error of the first that is none.
pub open spec fn spec_parse_var_decls(ctx: ParseCtxView, items: Seq<SexpView>, upto: nat) -> Result<
    Seq<SpanView<IR1VarDeclView>>,
    CerrView,
>
    decreases upto,
{
    if upto <= 1 || upto > items.len() {
        Ok(Seq::empty())
    } else {
        match spec_parse_var_decls(ctx, items, (upto - 1) as nat) {
            Err(e) => Err(e),
            Ok(done) => match spec_parse_var_decl(ctx, items[upto - 1]) {
                Err(e) => Err(e),
                Ok(x) => Ok(done.push(x)),
            },
        }
    }
}

/// The parameters of a function: what follows the name in the list that
/// starts with it.
pub open spec fn spec_parse_func_args(ctx: ParseCtxView, d: SexpView) -> Result<
    SpanView<Seq<SpanView<IR1VarDeclView>>>,
    CerrView,
> {
    match spec_get_list(ctx, d) {
        Err(e) => Err(e),
        Ok(list) => match spec_parse_var_decls(ctx, list.t, list.t.len()) {
            Err(e) => Err(e),
            Ok(args) => Ok(SpanView { span: list.span, t: args }),
        },
    }
}

/// `(:let (name type) value)`; the value may be left out.
pub open spec fn spec_parse_let_stmt(ctx: ParseCtxView, d: SexpView) -> Result<
    IR1LetStmtView,
    CerrView,
> {
    match spec_get_list(ctx, d) {
        Err(e) => Err(e),
        Ok(list) => match spec_index_list(list, 0) {
            Err(e) => Err(e),
            Ok(head) => match spec_get_assert_kw(ctx, head, "let"@) {
                Err(e) => Err(e),
                Ok(_) => match spec_index_list(list, 1) {
                    Err(e) => Err(e),
                    Ok(second) => match spec_parse_var_decl(ctx, second) {
                        Err(e) => Err(e),
                        Ok(decl) => if list.t.len() > 2 {
                            match spec_parse_expr(ctx, list.t[2]) {
                                Err(e) => Err(e),
                                Ok(init) => Ok(IR1LetStmtView { decl, init: Some(init) }),
                            }
                        } else {
                            Ok(IR1LetStmtView { decl, init: None })
                        },
                    },
                },
            },
        },
    }
}

/// `(:set name value)`.
pub open spec fn spec_parse_set_stmt(ctx: ParseCtxView, d: SexpView) -> Result<
    IR1SetStmtView,
    CerrView,
> {
    match spec_get_list(ctx, d) {
        Err(e) => Err(e),
        Ok(list) => match spec_index_list(list, 0) {
            Err(e) => Err(e),
            Ok(head) => match spec_get_assert_kw(ctx, head, "set"@) {
                Err(e) => Err(e),
                Ok(_) => match spec_index_list(list, 1) {
                    Err(e) => Err(e),
                    Ok(second) => match spec_get_id(ctx, second) {
                        Err(e) => Err(e),
                        Ok(var) => match spec_index_list(list, 2) {
                            Err(e) => Err(e),
                            Ok(third) => match spec_parse_expr(ctx, third) {
                                Err(e) => Err(e),
                                Ok(expr) => Ok(IR1SetStmtView { var, expr }),
                            },
                        },
                    },
                },
            },
        },
    }
}

/// `(:if condition (statement...) (statement...))`; the second list may be
/// left out.
pub open spec fn spec_parse_if_stmt(ctx: ParseCtxView, d: SexpView) -> Result<
    IR1IfStmtView,
    CerrView,
>
    decreases d, 0nat,
{
    match spec_get_list(ctx, d) {
        Err(e) => Err(e),
        Ok(list) => match spec_index_list(list, 0) {
            Err(e) => Err(e),
            Ok(head) => match spec_get_assert_kw(ctx, head, "if"@) {
                Err(e) => Err(e),
                Ok(_) => match spec_index_list(list, 1) {
                    Err(e) => Err(e),
                    Ok(second) => match spec_parse_expr(ctx, second) {
                        Err(e) => Err(e),
                        Ok(cond) => match spec_index_list(list, 2) {
                            Err(e) => Err(e),
                            Ok(third) => match spec_parse_stmt_list(ctx, third) {
                                Err(e) => Err(e),
                                Ok(body1) => if list.t.len() > 3 {
                                    match spec_parse_stmt_list(ctx, list.t[3]) {
                                        Err(e) => Err(e),
                                        Ok(body2) => Ok(
                                            IR1IfStmtView { cond, body1, body2: Some(body2) },
                                        ),
                                    }
                                } else {
                                    Ok(IR1IfStmtView { cond, body1, body2: None })
                                },
                            },
                        },
                    },
                },
            },
        },
    }
}

/// `(:while condition (statement...))`.
pub open spec fn spec_parse_while_stmt(ctx: ParseCtxView, d: SexpView) -> Result<
    IR1WhileStmtView,
    CerrView,
>
    decreases d, 0nat,
{
    match spec_get_list(ctx, d) {
        Err(e) => Err(e),
        Ok(list) => match spec_index_list(list, 0) {
            Err(e) => Err(e),
            Ok(head) => match spec_get_assert_kw(ctx, head, "while"@) {
                Err(e) => Err(e),
                Ok(_) => match spec_index_list(list, 1) {
                    Err(e) => Err(e),
                    Ok(second) => match spec_parse_expr(ctx, second) {
                        Err(e) => Err(e),
                        Ok(cond) => match spec_index_list(list, 2) {
                            Err(e) => Err(e),
                            Ok(third) => match spec_parse_stmt_list(ctx, third) {
                                Err(e) => Err(e),
                                Ok(body) => Ok(IR1WhileStmtView { cond, body }),
                            },
                        },
                    },
                },
            },
        },
    }
}

/// What an error names as expected where a statement starts with a keyword
/// that starts no statement.
pub open spec fn spec_statement_words() -> Seq<char> {
    "one of \"#:let\", \"#:set\", \"#:if\", \"#:while\", or a function call"@
}

/// A statement: a list whose first element, where it is a keyword, says
/// which statement it is; any other list is a call.
pub open spec fn spec_parse_stmt(ctx: ParseCtxView, d: SexpView) -> Result<
    SpanView<IR1StmtView>,
    CerrView,
>
    decreases d, 1nat,
{
    let span = spec_span_of(ctx, d);
    match spec_get_list(ctx, d) {
        Err(e) => Err(e),
        Ok(list) => match spec_index_list(list, 0) {
            Err(e) => Err(e),
            Ok(head) => match head.value {
                SexpValueView::Keyword(word) => if word == "let"@ {
                    match spec_parse_let_stmt(ctx, d) {
                        Err(e) => Err(e),
                        Ok(x) => Ok(SpanView { span, t: IR1StmtView::Let(x) }),
                    }
                } else if word == "set"@ {
                    match spec_parse_set_stmt(ctx, d) {
                        Err(e) => Err(e),
                        Ok(x) => Ok(SpanView { span, t: IR1StmtView::SetVar(x) }),
                    }
                } else if word == "if"@ {
                    match spec_parse_if_stmt(ctx, d) {
                        Err(e) => Err(e),
                        Ok(x) => Ok(SpanView { span, t: IR1StmtView::If(x) }),
                    }
                } else if word == "while"@ {
                    match spec_parse_while_stmt(ctx, d) {
                        Err(e) => Err(e),
                        Ok(x) => Ok(SpanView { span, t: IR1StmtView::While(x) }),
                    }
                } else if word == "break"@ {
                    Ok(SpanView { span, t: IR1StmtView::Break })
                } else {
                    Err(spec_expected(ctx, head, spec_statement_words()))
                },
                _ => match spec_parse_func_call(ctx, d) {
                    Err(e) => Err(e),
                    Ok(x) => Ok(SpanView { span, t: IR1StmtView::FuncCall(x) }),
                },
            },
        },
    }
}

/// The first `upto` elements of a list, each read as a statement; the
/// error of the first that is none.
pub open spec fn spec_parse_stmts(ctx: ParseCtxView, items: Seq<SexpView>, upto: nat) -> Result<
    Seq<SpanView<IR1StmtView>>,
    CerrView,
>
    decreases items, upto,
{
    if upto == 0 || upto > items.len() {
        Ok(Seq::empty())
    } else {
        match spec_parse_stmts(ctx, items, (upto - 1) as nat) {
            Err(e) => Err(e),
            Ok(done) => match spec_parse_stmt(ctx, items[upto - 1]) {
                Err(e) => Err(e),
                Ok(x) => Ok(done.push(x)),
            },
        }
    }
}

/// A block: a list of statements.
pub open spec fn spec_parse_stmt_list(ctx: ParseCtxView, d: SexpView) -> Result<
    SpanView<Seq<SpanView<IR1StmtView>>>,
    CerrView,
>
    decreases d, 2nat,
{
    match spec_get_list(ctx, d) {
        Err(e) => Err(e),
        Ok(list) => match d.value {
            SexpValueView::Cons(items) => match spec_parse_stmts(ctx, items, items.len()) {
                Err(e) => Err(e),
                Ok(stmts) => Ok(SpanView { span: list.span, t: stmts }),
            },
            _ => Ok(SpanView { span: list.span, t: Seq::empty() }),
        },
    }
}

/// A function: `(:fn (name (arg type)...) type (statement...))`. The
/// keyword is checked first, then the name is read, then the return type,
/// then the parameters, then the body.
pub open spec fn spec_parse_function(ctx: ParseCtxView, d: SexpView) -> Result<
    SpanView<IR1FuncView>,
    CerrView,
> {
    match spec_get_list(ctx, d) {
        Err(e) => Err(e),
        Ok(list) => match spec_index_list(list, 0) {
            Err(e) => Err(e),
            Ok(head) => match spec_get_assert_kw(ctx, head, "fn"@) {
                Err(e) => Err(e),
                Ok(_) => match spec_index_list(list, 1) {
                    Err(e) => Err(e),
                    Ok(second) => match spec_get_list(ctx, second) {
                        Err(e) => Err(e),
                        Ok(fndecl) => match spec_index_list(fndecl, 0) {
                            Err(e) => Err(e),
                            Ok(first) => match spec_get_id(ctx, first) {
                                Err(e) => Err(e),
                                Ok(name) => match spec_index_list(list, 2) {
                                    Err(e) => Err(e),
                                    Ok(third) => match spec_get_id(ctx, third) {
                                        Err(e) => Err(e),
                                        Ok(ret_typ) => match spec_parse_func_args(ctx, second) {
                                            Err(e) => Err(e),
                                            Ok(args) => match spec_index_list(list, 3) {
                                                Err(e) => Err(e),
                                                Ok(fourth) => match spec_parse_stmt_list(
                                                    ctx,
                                                    fourth,
                                                ) {
                                                    Err(e) => Err(e),
                                                    Ok(body) => Ok(
                                                        SpanView {
                                                            span: spec_span_of(ctx, d),
                                                            t: IR1FuncView {
                                                                name,
                                                                ret_typ,
                                                                args,
                                                                body,
                                                            },
                                                        },
                                                    ),
                                                },
                                            },
                                        },
                                    },
                                },
                            },
                        },
                    },
                },
            },
        },
    }
}

/// The first `upto` data of a file, each read as a function; the error of
/// the first that is none.
pub open spec fn spec_parse_functions(ctx: ParseCtxView, forms: Seq<SexpView>, upto: nat) -> Result<
    Seq<SpanView<IR1FuncView>>,
    CerrView,
>
    decreases upto,
{
    if upto == 0 || upto > forms.len() {
        Ok(Seq::empty())
    } else {
        match spec_parse_functions(ctx, forms, (upto - 1) as nat) {
            Err(e) => Err(e),
            Ok(done) => match spec_parse_function(ctx, forms[upto - 1]) {
                Err(e) => Err(e),
                Ok(x) => Ok(done.push(x)),
            },
        }
    }
}

/// The place that a failure of the reader is about: the column it stopped
/// at, where it names one that has a next column; else the first column of
/// the first line.
pub open spec fn spec_failure_span(ctx: ParseCtxView, failure: ReadErrorView) -> SpanPlaceView {
    match failure.location {
        Some((line, column)) => if column < usize::MAX {
            SpanPlaceView {
                ctx,
                start_line: line,
                start_col: column,
                end_line: line,
                end_col: (column + 1) as usize,
            }
        } else {
            SpanPlaceView { ctx, start_line: 1, start_col: 0, end_line: 1, end_col: 1 }
        },
        None => SpanPlaceView { ctx, start_line: 1, start_col: 0, end_line: 1, end_col: 1 },
    }
}

/// The error for a failure of the reader.
pub open spec fn spec_read_error(ctx: ParseCtxView, failure: ReadErrorView) -> CerrView {
    CerrView {
        span: spec_failure_span(ctx, failure),
        kind: CerrKindView::InvalidSexpr(failure.message),
    }
}

/// The syntax tree of a file from what the reader gave for it. The data
/// are read as functions in order and the first error ends it; a failure of
/// the reader comes after the data that were read before it.
pub open spec fn spec_parse_forms(ctx: ParseCtxView, read: SexpReadView) -> Result<
    IR1ModuleView,
    CerrView,
> {
    match spec_parse_functions(ctx, read.forms, read.forms.len()) {
        Err(e) => Err(e),
        Ok(functions) => match read.failure {
            Some(failure) => Err(spec_read_error(ctx, failure)),
            None => Ok(IR1ModuleView { functions }),
        },
    }
}

/// A line without the carriage return at its end, where it has one.
pub open spec fn spec_strip_cr(line: Seq<char>) -> Seq<char> {
    if line.len() > 0 && line.last() == '\r' {
        line.drop_last()
    } else {
        line
    }
}

/// The lines of a text. A line ends at a line feed, or at a carriage return
/// and a line feed; the end of the line is no part of it. What follows the
/// last line feed is a line if it is not empty.
pub open spec fn spec_lines(text: Seq<char>) -> Seq<Seq<char>>
    decreases text.len(),
{
    if text.len() == 0 {
        Seq::empty()
    } else {
        let at = spec_first_index(text, '\n');
        if 0 <= at < text.len() {
            seq![spec_strip_cr(text.take(at))] + spec_lines(text.skip(at + 1))
        } else {
            seq![text]
        }
    }
}

/// The syntax tree of the file `filename` with the text `contents`, where
/// `read` is what the reader gives for the text.
pub open spec fn spec_hxx_to_ir1(filename: Seq<char>, contents: Seq<char>, read: SexpReadView) -> Result<
    IR1ModuleView,
    CerrView,
> {
    spec_parse_forms(ParseCtxView { filename, lines: spec_lines(contents) }, read)
}

/// Reads `datum` as a declaration of a variable.
pub fn parse_var_decl(ctx: &Rc<ParseCtx>, datum: &Sexp) -> (r: Result<Span<IR1VarDecl>, Cerr>)
    ensures
        view_result(r) == spec_parse_var_decl(ctx.deep_view(), datum.deep_view()),
{
    let list = ctx.get_list(datum)?;
    let name = ctx.get_name(ctx.index_list(&list, 0)?)?;
    let typ = ctx.get_name(ctx.index_list(&list, 1)?)?;
    Ok(ctx.span_with(IR1VarDecl { name, typ }, datum))
}

/// An error met among the first elements is the error of the whole list.
pub proof fn lemma_var_decls_error(ctx: ParseCtxView, items: Seq<SexpView>, at: nat, upto: nat)
    requires
        at <= upto <= items.len(),
        spec_parse_var_decls(ctx, items, at) is Err,
    ensures
        spec_parse_var_decls(ctx, items, upto) == spec_parse_var_decls(ctx, items, at),
    decreases upto - at,
{
    if at < upto {
        lemma_var_decls_error(ctx, items, at, (upto - 1) as nat);
    }
}

/// Reads the parameters of a function from the list that starts with its
/// name.
pub fn parse_func_args(ctx: &Rc<ParseCtx>, datum: &Sexp) -> (r: Result<
    Span<Vec<Span<IR1VarDecl>>>,
    Cerr,
>)
    ensures
        view_result(r) == spec_parse_func_args(ctx.deep_view(), datum.deep_view()),
{
    let list = ctx.get_list(datum)?;
    let ghost c = ctx.deep_view();
    let ghost items = list.t.deep_view();
    let mut args: Vec<Span<IR1VarDecl>> = Vec::new();
    let mut i: usize = 1;
    assert(args.deep_view() =~= Seq::<SpanView<IR1VarDeclView>>::empty());
    while i < list.t.len()
        invariant
            1 <= i,
            list.t.len() >= 1 ==> i <= list.t.len(),
            c == ctx.deep_view(),
            items == list.t.deep_view(),
            spec_get_list(c, datum.deep_view()) == Ok::<SpanView<Seq<SexpView>>, CerrView>(
                list.deep_view(),
            ),
            spec_parse_var_decls(c, items, i as nat) == Ok::<
                Seq<SpanView<IR1VarDeclView>>,
                CerrView,
            >(args.deep_view()),
        decreases list.t.len() - i,
    {
        let ghost before = args.deep_view();
        assert(items[i as int] == list.t@[i as int].deep_view());
        match parse_var_decl(ctx, list.t[i]) {
            Err(e) => {
                proof {
                    lemma_var_decls_error(c, items, (i + 1) as nat, items.len());
                }
                return Err(e);
            },
            Ok(x) => {
                args.push(x);
                assert(args.deep_view() =~= before.push(x.deep_view()));
            },
        }
        i += 1;
    }
    Ok(Span { span: list.span, t: args })
}

/// Reads `datum` as a `let`.
pub fn parse_let_stmt(ctx: &Rc<ParseCtx>, datum: &Sexp) -> (r: Result<IR1LetStmt, Cerr>)
    ensures
        view_result(r) == spec_parse_let_stmt(ctx.deep_view(), datum.deep_view()),
{
    let list = ctx.get_list(datum)?;
    ctx.get_assert_kw(ctx.index_list(&list, 0)?, "let")?;
    let decl = parse_var_decl(ctx, ctx.index_list(&list, 1)?)?;
    let init = if list.t.len() > 2 {
        Some(parse_expr(ctx, list.t[2])?)
    } else {
        None
    };
    Ok(IR1LetStmt { decl, init })
}

/// Reads `datum` as a `set`.
pub fn parse_set_stmt(ctx: &Rc<ParseCtx>, datum: &Sexp) -> (r: Result<IR1SetStmt, Cerr>)
    ensures
        view_result(r) == spec_parse_set_stmt(ctx.deep_view(), datum.deep_view()),
{
    let list = ctx.get_list(datum)?;
    ctx.get_assert_kw(ctx.index_list(&list, 0)?, "set")?;
    let var = ctx.get_name(ctx.index_list(&list, 1)?)?;
    let expr = parse_expr(ctx, ctx.index_list(&list, 2)?)?;
    Ok(IR1SetStmt { var, expr })
}

/// Reads `datum` as an `if`.
pub fn parse_if_stmt(ctx: &Rc<ParseCtx>, datum: &Sexp) -> (r: Result<IR1IfStmt, Cerr>)
    ensures
        view_result(r) == spec_parse_if_stmt(ctx.deep_view(), datum.deep_view()),
    decreases datum, 0nat,
{
    let list = ctx.get_list(datum)?;
    ctx.get_assert_kw(ctx.index_list(&list, 0)?, "if")?;
    let cond = parse_expr(ctx, ctx.index_list(&list, 1)?)?;
    let body1 = parse_stmt_list(ctx, ctx.index_list(&list, 2)?)?;
    let body2 = if list.t.len() > 3 {
        Some(parse_stmt_list(ctx, list.t[3])?)
    } else {
        None
    };
    let r = IR1IfStmt { cond, body1, body2 };
    proof {
        crate::ir1::model::lemma_if_view(r);
    }
    Ok(r)
}

/// Reads `datum` as a `while`.
pub fn parse_while_stmt(ctx: &Rc<ParseCtx>, datum: &Sexp) -> (r: Result<IR1WhileStmt, Cerr>)
    ensures
        view_result(r) == spec_parse_while_stmt(ctx.deep_view(), datum.deep_view()),
    decreases datum, 0nat,
{
    let list = ctx.get_list(datum)?;
    ctx.get_assert_kw(ctx.index_list(&list, 0)?, "while")?;
    let cond = parse_expr(ctx, ctx.index_list(&list, 1)?)?;
    let body = parse_stmt_list(ctx, ctx.index_list(&list, 2)?)?;
    let r = IR1WhileStmt { cond, body };
    proof {
        crate::ir1::model::lemma_while_view(r);
    }
    Ok(r)
}

/// Reads `datum` as a statement.
pub fn parse_stmt(ctx: &Rc<ParseCtx>, datum: &Sexp) -> (r: Result<Span<IR1Stmt>, Cerr>)
    ensures
        view_result(r) == spec_parse_stmt(ctx.deep_view(), datum.deep_view()),
    decreases datum, 1nat,
{
    let list = ctx.get_list(datum)?;
    let block_kw_dat = ctx.index_list(&list, 0)?;
    proof {
        lemma_sexp_items(*block_kw_dat);
    }
    let stmt = match &block_kw_dat.value {
        SexpValue::Keyword(block_kw) => {
            if str_eq(block_kw.as_str(), "let") {
                IR1Stmt::Let(parse_let_stmt(ctx, datum)?)
            } else if str_eq(block_kw.as_str(), "set") {
                IR1Stmt::SetVar(parse_set_stmt(ctx, datum)?)
            } else if str_eq(block_kw.as_str(), "if") {
                let x = parse_if_stmt(ctx, datum)?;
                proof {
                    crate::ir1::model::lemma_if_view(x);
                }
                IR1Stmt::If(x)
            } else if str_eq(block_kw.as_str(), "while") {
                let x = parse_while_stmt(ctx, datum)?;
                proof {
                    crate::ir1::model::lemma_while_view(x);
                }
                IR1Stmt::While(x)
            } else if str_eq(block_kw.as_str(), "break") {
                IR1Stmt::Break
            } else {
                return Err(
                    ctx.make_cerr(CerrKind::ExpectedThing(
                            "one of \"#:let\", \"#:set\", \"#:if\", \"#:while\", or a function call".to_owned(),
                        ),
                        block_kw_dat,
                    ),
                );
            }
        },
        _ => IR1Stmt::FuncCall(parse_func_call(ctx, datum)?),
    };
    Ok(ctx.span_with(stmt, datum))
}

/// An error met among the first statements is the error of the whole list.
pub proof fn lemma_stmts_error(ctx: ParseCtxView, items: Seq<SexpView>, at: nat, upto: nat)
    requires
        at <= upto <= items.len(),
        spec_parse_stmts(ctx, items, at) is Err,
    ensures
        spec_parse_stmts(ctx, items, upto) == spec_parse_stmts(ctx, items, at),
    decreases upto - at,
{
    if at < upto {
        lemma_stmts_error(ctx, items, at, (upto - 1) as nat);
    }
}

/// Reads `datum` as a block.
pub fn parse_stmt_list(ctx: &Rc<ParseCtx>, datum: &Sexp) -> (r: Result<
    Span<Vec<Span<IR1Stmt>>>,
    Cerr,
>)
    ensures
        view_result(r) == spec_parse_stmt_list(ctx.deep_view(), datum.deep_view()),
    decreases datum, 2nat,
{
    let list = ctx.get_list(datum)?;
    let ghost c = ctx.deep_view();
    let ghost items = list.t.deep_view();
    proof {
        lemma_sexp_items(*datum);
    }
    let mut stmts: Vec<Span<IR1Stmt>> = Vec::new();
    let mut i: usize = 0;
    assert(stmts.deep_view() =~= Seq::<SpanView<IR1StmtView>>::empty());
    while i < list.t.len()
        invariant
            i <= list.t.len(),
            c == ctx.deep_view(),
            items == list.t.deep_view(),
            spec_get_list(c, datum.deep_view()) == Ok::<SpanView<Seq<SexpView>>, CerrView>(
                list.deep_view(),
            ),
            list.t@.len() > 0 ==> datum.value is Cons && datum.deep_view().value is Cons
                && datum.deep_view().value->Cons_0 == items,
            list.t@.len() > 0 ==> list.t@.len() == datum.value->Cons_0@.len(),
            forall|k: int|
                0 <= k < list.t@.len() ==> *(#[trigger] list.t@[k]) == datum.value->Cons_0@[k],
            spec_parse_stmts(c, items, i as nat) == Ok::<Seq<SpanView<IR1StmtView>>, CerrView>(
                stmts.deep_view(),
            ),
        decreases list.t.len() - i,
    {
        let ghost before = stmts.deep_view();
        assert(items[i as int] == list.t@[i as int].deep_view());
        match parse_stmt(ctx, list.t[i]) {
            Err(e) => {
                proof {
                    lemma_stmts_error(c, items, (i + 1) as nat, items.len());
                }
                return Err(e);
            },
            Ok(x) => {
                stmts.push(x);
                assert(stmts.deep_view() =~= before.push(x.deep_view()));
            },
        }
        i += 1;
    }
    let r = Span { span: list.span, t: stmts };
    proof {
        crate::ir1::model::lemma_stmt_list_view(r);
    }
    Ok(r)
}

/// Reads `datum` as a function.
pub fn parse_function(ctx: &Rc<ParseCtx>, datum: &Sexp) -> (r: Result<Span<IR1Func>, Cerr>)
    ensures
        view_result(r) == spec_parse_function(ctx.deep_view(), datum.deep_view()),
{
    let list = ctx.get_list(datum)?;
    ctx.get_assert_kw(ctx.index_list(&list, 0)?, "fn")?;
    let second = ctx.index_list(&list, 1)?;
    let fndecl = ctx.get_list(second)?;
    let name = ctx.get_name(ctx.index_list(&fndecl, 0)?)?;
    let ret_typ = ctx.get_name(ctx.index_list(&list, 2)?)?;
    let args = parse_func_args(ctx, second)?;
    let body = parse_stmt_list(ctx, ctx.index_list(&list, 3)?)?;
    Ok(ctx.span_with(IR1Func { name, ret_typ, args, body }, datum))
}

/// An error met among the first functions is the error of the whole file.
pub proof fn lemma_functions_error(ctx: ParseCtxView, forms: Seq<SexpView>, at: nat, upto: nat)
    requires
        at <= upto <= forms.len(),
        spec_parse_functions(ctx, forms, at) is Err,
    ensures
        spec_parse_functions(ctx, forms, upto) == spec_parse_functions(ctx, forms, at),
    decreases upto - at,
{
    if at < upto {
        lemma_functions_error(ctx, forms, at, (upto - 1) as nat);
    }
}

/// The first function of a file that is none gives the error of the file,
/// whatever comes after it: further errors are not reported.
pub proof fn lemma_first_error_wins(ctx: ParseCtxView, read: SexpReadView, at: nat)
    requires
        at < read.forms.len(),
        spec_parse_functions(ctx, read.forms, at) is Ok,
        spec_parse_function(ctx, read.forms[at as int]) is Err,
    ensures
        spec_parse_forms(ctx, read) == Err::<IR1ModuleView, CerrView>(
            spec_parse_function(ctx, read.forms[at as int])->Err_0,
        ),
{
    lemma_functions_error(ctx, read.forms, at + 1, read.forms.len());
}

/// The error for a failure of the reader, in the file `ctx`.
pub fn helper_handle_lexpr_error(ctx: &Rc<ParseCtx>, failure: &ReadError) -> (r: Cerr)
    ensures
        r.deep_view() == spec_read_error(ctx.deep_view(), failure.deep_view()),
{
    let span = match failure.location {
        Some((line, column)) => {
            if column < usize::MAX {
                SpanPlace::from_loc(share_ctx(ctx), line, column)
            } else {
                SpanPlace { ctx: share_ctx(ctx), start_line: 1, start_col: 0, end_line: 1, end_col: 1 }
            }
        },
        None => SpanPlace {
            ctx: share_ctx(ctx),
            start_line: 1,
            start_col: 0,
            end_line: 1,
            end_col: 1,
        },
    };
    Cerr::with_span(CerrKind::InvalidSexpr(failure.message.clone()), span)
}

/// Builds the syntax tree of the file `ctx` from what the reader gave for
/// its text.
pub fn parse_forms(ctx: &Rc<ParseCtx>, read: &SexpRead) -> (r: Result<IR1Module, Cerr>)
    ensures
        view_result(r) == spec_parse_forms(ctx.deep_view(), read.deep_view()),
{
    let ghost c = ctx.deep_view();
    let ghost forms = read.forms.deep_view();
    let mut functions: Vec<Span<IR1Func>> = Vec::new();
    let mut i: usize = 0;
    assert(functions.deep_view() =~= Seq::<SpanView<IR1FuncView>>::empty());
    while i < read.forms.len()
        invariant
            i <= read.forms.len(),
            c == ctx.deep_view(),
            forms == read.forms.deep_view(),
            forms == read.deep_view().forms,
            spec_parse_functions(c, forms, i as nat) == Ok::<Seq<SpanView<IR1FuncView>>, CerrView>(
                functions.deep_view(),
            ),
        decreases read.forms.len() - i,
    {
        let ghost before = functions.deep_view();
        assert(forms[i as int] == read.forms@[i as int].deep_view());
        match parse_function(ctx, &read.forms[i]) {
            Err(e) => {
                proof {
                    lemma_functions_error(c, forms, (i + 1) as nat, forms.len());
                }
                return Err(e);
            },
            Ok(x) => {
                functions.push(x);
                assert(functions.deep_view() =~= before.push(x.deep_view()));
            },
        }
        i += 1;
    }
    match &read.failure {
        Some(failure) => Err(helper_handle_lexpr_error(ctx, failure)),
        None => Ok(IR1Module { functions }),
    }
}

/// `str::lines` of std: the lines of `contents`, each without its line
/// ending, as `spec_lines` lists them.
#[verifier::external_body]
fn source_lines(contents: &str) -> (r: Vec<String>)
    ensures
        r.deep_view() == spec_lines(contents@),
{
    let mut lines = vec![];
    for line in contents.lines() {
        lines.push(line.to_owned());
    }
    lines
}

/// Parses the text `contents` of the file `filename` into its syntax tree.
///
/// The text is read as S-expression data, and the data are read as
/// functions, in order. The first error ends it: an error of the grammar in
/// one function comes before a failure of the reader further down.
pub fn hxx_to_ir1(filename: &str, contents: &str) -> (r: Result<IR1Module, Cerr>)
    ensures
        view_result(r) == spec_hxx_to_ir1(filename@, contents@, sexp_read(contents@)),
{
    let ctx = Rc::new(ParseCtx { filename: filename.to_owned(), lines: source_lines(contents) });
    let read = read_forms(contents);
    parse_forms(&ctx, &read)
}

} // verus!
