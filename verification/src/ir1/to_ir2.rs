//! Resolution: from the syntax tree to the resolved tree. Types are read
//! from their names, variables get their final names, and every call picks
//! the one declaration that its arguments fit.

use crate::common::err::{view_result, Cerr, CerrKind, CerrKindView, CerrView};
use crate::common::sepvec::{SepVec, SepVecView};
use crate::common::span::{Span, SpanPlace, SpanPlaceView, SpanView};
use crate::common::text::{chars_of, str_eq, ToText};
use crate::ir1::model::{
    lemma_call_view, lemma_if_view, lemma_stmt_list_view, lemma_while_view, IR1Constant, IR1Expr,
    IR1ExprView, IR1Func, IR1FuncCall, IR1FuncView, IR1IfStmt, IR1IfStmtView, IR1Module,
    IR1ModuleView, IR1Stmt, IR1StmtList, IR1StmtView, IR1VarDecl, IR1VarDeclView, IR1WhileStmt,
    IR1WhileStmtView,
};
use crate::ir1::scope::{spec_decls, spec_define, spec_find, BindingView, ScopeChain};
use crate::ir2::model::{
    int_type_name, integer_from_i64, integer_from_u64, lemma_int_type_name_parses, spec_func_decl_text, spec_parse_int_type,
    spec_type_text, IR2Expr, IR2ExprView, IR2Func, IR2FuncAttr, IR2FuncCall, IR2FuncCallView,
    IR2FuncDecl, IR2FuncDeclView, IR2FuncView, IR2IfStmt, IR2IfStmtView, IR2IntType, IR2Program,
    IR2ProgramView, IR2Scope, IR2ScopeView, IR2SetStmt, IR2SetStmtView, IR2Stmt, IR2StmtView,
    IR2Type, IR2VarDecl, IR2VarDeclView, IR2WhileStmt, IR2WhileStmtView,
};
use crate::ir2::type_resolve::{
    function_matches, infer_expr_type, spec_function_matches, spec_infer_expr_type, ResolveType,
};
use vstd::prelude::*;
use vstd::string::StrSliceExecFns;

verus! {

/// The declarations that calls can resolve to: the builtins first, then the
/// functions of every source file, in order.
pub struct ProgramContext {
    pub functions: Vec<IR2FuncDecl>,
}

/// A letter of the Latin alphabet, small or capital.
pub open spec fn is_letter(c: char) -> bool {
    ('a' <= c && c <= 'z') || ('A' <= c && c <= 'Z')
}

/// A letter, a decimal digit or an underscore.
pub open spec fn is_name_char(c: char) -> bool {
    is_letter(c) || ('0' <= c && c <= '9') || c == '_'
}

/// An identifier starts with a letter and goes on with letters, digits and
/// underscores.
pub open spec fn spec_is_identifier(s: Seq<char>) -> bool {
    &&& s.len() > 0
    &&& is_letter(s[0])
    &&& forall|i: int| 0 <= i < s.len() ==> is_name_char(#[trigger] s[i])
}

/// The type that `text` names. A leading `*` makes a pointer to the type
/// that the rest names; `void` is the type of nothing; any other text must
/// be the keyword of an integer kind, so the empty text names no type.
pub open spec fn spec_resolve_type(text: Seq<char>) -> Result<IR2Type, CerrKindView>
    decreases text.len(),
{
    if text.len() == 0 {
        Err(CerrKindView::UndeclaredType)
    } else if text[0] == '*' {
        match spec_resolve_type(text.skip(1)) {
            Ok(inner) => Ok(IR2Type::Ptr(Box::new(inner))),
            Err(kind) => Err(kind),
        }
    } else if text == seq!['v', 'o', 'i', 'd'] {
        Ok(IR2Type::Void)
    } else {
        match spec_parse_int_type(text) {
            Some(kind) => Ok(IR2Type::Int(kind)),
            None => Err(CerrKindView::UndeclaredType),
        }
    }
}

/// The type that a type name stands for; an error is about the place of the
/// whole name.
pub open spec fn spec_transform_type(ty: SpanView<Seq<char>>) -> Result<IR2Type, CerrView> {
    match spec_resolve_type(ty.t) {
        Ok(t) => Ok(t),
        Err(kind) => Err(CerrView { span: ty.span, kind }),
    }
}

/// The name of a declaration must be an identifier; the error is about the
/// place of the name.
pub open spec fn spec_validate_identifier(ident: SpanView<Seq<char>>) -> Result<(), CerrView> {
    if spec_is_identifier(ident.t) {
        Ok(())
    } else {
        Err(CerrView { span: ident.span, kind: CerrKindView::InvalidIdent })
    }
}

/// A declared variable with its type resolved. The name is checked first.
pub open spec fn spec_transform_var_decl(decl: SpanView<IR1VarDeclView>) -> Result<
    IR2VarDeclView,
    CerrView,
> {
    match spec_validate_identifier(decl.t.name) {
        Err(e) => Err(e),
        Ok(_) => match spec_transform_type(decl.t.typ) {
            Err(e) => Err(e),
            Ok(ty) => Ok(IR2VarDeclView { name: decl.t.name.t, ty }),
        },
    }
}

/// The first `upto` parameters resolved, in order; the error of the first
/// that fails.
pub open spec fn spec_transform_params(args: Seq<SpanView<IR1VarDeclView>>, upto: nat) -> Result<
    Seq<IR2VarDeclView>,
    CerrView,
>
    decreases upto,
{
    if upto == 0 || upto > args.len() {
        Ok(Seq::empty())
    } else {
        match spec_transform_params(args, (upto - 1) as nat) {
            Err(e) => Err(e),
            Ok(done) => match spec_transform_var_decl(args[upto - 1]) {
                Err(e) => Err(e),
                Ok(p) => Ok(done.push(p)),
            },
        }
    }
}

/// The bindings that the first `upto` parameters of a function make,
/// declared one after the other in an empty scope.
pub open spec fn spec_define_params(params: Seq<IR2VarDeclView>, upto: nat) -> Seq<BindingView>
    decreases upto,
{
    if upto == 0 || upto > params.len() {
        Seq::empty()
    } else {
        let before = spec_define_params(params, (upto - 1) as nat);
        before.push(spec_define(before, params[upto - 1].name, params[upto - 1].ty))
    }
}

/// The signature of a function of the source, and the scope that its
/// parameters make. The name is checked, then the return type is resolved,
/// then the parameters from the first to the last. The parameters are
/// declared in an empty scope in their order, and the signature holds them
/// under the names they get there: a parameter that repeats the name of an
/// earlier one is renamed.
pub open spec fn spec_signature(decl: SpanView<IR1FuncView>) -> Result<
    (IR2FuncDeclView, Seq<BindingView>),
    CerrView,
> {
    match spec_validate_identifier(decl.t.name) {
        Err(e) => Err(e),
        Ok(_) => match spec_transform_type(decl.t.ret_typ) {
            Err(e) => Err(e),
            Ok(return_ty) => match spec_transform_params(decl.t.args.t, decl.t.args.t.len()) {
                Err(e) => Err(e),
                Ok(params) => {
                    let scope = spec_define_params(params, params.len());
                    Ok(
                        (
                            IR2FuncDeclView {
                                attrs: Seq::empty(),
                                name: decl.t.name.t,
                                return_ty,
                                params: spec_decls(scope),
                            },
                            scope,
                        ),
                    )
                },
            },
        },
    }
}

/// The signature of a function of the source: see `spec_signature`.
pub open spec fn spec_transform_func_decl(decl: SpanView<IR1FuncView>) -> Result<
    IR2FuncDeclView,
    CerrView,
> {
    match spec_signature(decl) {
        Err(e) => Err(e),
        Ok(pair) => Ok(pair.0),
    }
}

/// Whether a declaration is a candidate for a call of `name` with arguments
/// of these types.
pub open spec fn spec_candidate(decl: IR2FuncDeclView, name: Seq<char>, types: Seq<ResolveType>) -> bool {
    decl.name == name && spec_function_matches(decl, types)
}

/// The candidates among the first `upto` declarations, in order.
pub open spec fn spec_matching(
    funcs: Seq<IR2FuncDeclView>,
    name: Seq<char>,
    types: Seq<ResolveType>,
    upto: nat,
) -> Seq<IR2FuncDeclView>
    decreases upto,
{
    if upto == 0 || upto > funcs.len() {
        Seq::empty()
    } else {
        let before = spec_matching(funcs, name, types, (upto - 1) as nat);
        if spec_candidate(funcs[upto - 1], name, types) {
            before.push(funcs[upto - 1])
        } else {
            before
        }
    }
}

/// How each declaration of a list is written.
pub open spec fn spec_decl_texts(decls: Seq<IR2FuncDeclView>) -> Seq<Seq<char>> {
    Seq::new(decls.len(), |i: int| spec_func_decl_text(decls[i]))
}

/// The declaration that a call resolves to. With no candidate the call
/// fails; with two or more it fails and lists them all, in the order of
/// their declaration; with one it resolves to that one.
pub open spec fn spec_resolve_func_call(
    name: Seq<char>,
    types: Seq<ResolveType>,
    funcs: Seq<IR2FuncDeclView>,
    span: SpanPlaceView,
) -> Result<IR2FuncDeclView, CerrView> {
    let matching = spec_matching(funcs, name, types, funcs.len());
    if matching.len() == 0 {
        Err(CerrView { span, kind: CerrKindView::NoMatchingFuncDecl })
    } else if matching.len() >= 2 {
        Err(
            CerrView {
                span,
                kind: CerrKindView::MultipleMatchingFuncDecls(
                    SepVecView { items: spec_decl_texts(matching), sep: seq!['\n', ' ', ' '] },
                ),
            },
        )
    } else {
        Ok(matching[0])
    }
}

/// The name that a type is written as names that type.
pub proof fn lemma_type_text_resolves(t: IR2Type)
    ensures
        spec_resolve_type(spec_type_text(t)) == Ok::<IR2Type, CerrKindView>(t),
    decreases t,
{
    match t {
        IR2Type::Void => {},
        IR2Type::Int(kind) => {
            lemma_int_type_name_parses(kind);
            assert(int_type_name(kind)[0] != '*');
            assert(int_type_name(kind)[0] != 'v');
        },
        IR2Type::Ptr(inner) => {
            lemma_type_text_resolves(*inner);
            assert(spec_type_text(t).skip(1) =~= spec_type_text(*inner));
        },
    }
}

fn is_letter_char(c: char) -> (r: bool)
    ensures
        r == is_letter(c),
{
    ('a' <= c && c <= 'z') || ('A' <= c && c <= 'Z')
}

/// Whether `s` is an identifier.
pub fn is_identifier(s: &str) -> (r: bool)
    ensures
        r == spec_is_identifier(s@),
{
    let chars = chars_of(s);
    if chars.len() == 0 || !is_letter_char(chars[0]) {
        return false;
    }
    let mut i: usize = 0;
    while i < chars.len()
        invariant
            i <= chars.len(),
            chars@ == s@,
            forall|j: int| 0 <= j < i ==> is_name_char(#[trigger] s@[j]),
        decreases chars.len() - i,
    {
        let c = chars[i];
        if !(is_letter_char(c) || ('0' <= c && c <= '9') || c == '_') {
            assert(!is_name_char(s@[i as int]));
            return false;
        }
        i += 1;
    }
    true
}

/// Accepts a name that is an identifier and hands it back.
pub fn validate_identifier(ident: &Span<String>) -> (r: Result<&Span<String>, Cerr>)
    ensures
        match r {
            Ok(same) => spec_validate_identifier(ident.deep_view()) is Ok && *same == *ident,
            Err(e) => spec_validate_identifier(ident.deep_view()) == Err::<(), CerrView>(
                e.deep_view(),
            ),
        },
{
    if is_identifier(ident.t.as_str()) {
        Ok(ident)
    } else {
        Err(Cerr::with_span(CerrKind::InvalidIdent, ident.span.clone()))
    }
}

fn resolve_type(text: &str) -> (r: Result<IR2Type, CerrKind>)
    ensures
        view_result(r) == spec_resolve_type(text@),
    decreases text@.len(),
{
    let n = text.unicode_len();
    if n == 0 {
        Err(CerrKind::UndeclaredType)
    } else if text.get_char(0) == '*' {
        let rest = text.substring_char(1, n);
        assert(text@.subrange(1, n as int) =~= text@.skip(1));
        match resolve_type(rest) {
            Ok(inner) => Ok(IR2Type::Ptr(Box::new(inner))),
            Err(kind) => Err(kind),
        }
    } else if str_eq(text, "void") {
        proof {
            reveal_strlit("void");
            assert("void"@ =~= seq!['v', 'o', 'i', 'd']);
        }
        Ok(IR2Type::Void)
    } else {
        proof {
            reveal_strlit("void");
            assert("void"@ =~= seq!['v', 'o', 'i', 'd']);
        }
        match IR2IntType::parse(text) {
            Some(kind) => Ok(IR2Type::Int(kind)),
            None => Err(CerrKind::UndeclaredType),
        }
    }
}

/// Resolves a type name.
pub fn transform_type(ty: &Span<&str>) -> (r: Result<IR2Type, Cerr>)
    ensures
        view_result(r) == spec_transform_type(ty.deep_view()),
{
    match resolve_type(ty.t) {
        Ok(t) => Ok(t),
        Err(kind) => Err(Cerr::with_span(kind, ty.span.clone())),
    }
}

/// Resolves the type name held in a `String`.
pub fn transform_type_name(ty: &Span<String>) -> (r: Result<IR2Type, Cerr>)
    ensures
        view_result(r) == spec_transform_type(ty.deep_view()),
{
    match resolve_type(ty.t.as_str()) {
        Ok(t) => Ok(t),
        Err(kind) => Err(Cerr::with_span(kind, ty.span.clone())),
    }
}

/// Resolves a declared variable: checks its name, then resolves its type.
pub fn transform_var_decl(decl: &Span<IR1VarDecl>) -> (r: Result<IR2VarDecl, Cerr>)
    ensures
        view_result(r) == spec_transform_var_decl(decl.deep_view()),
{
    match validate_identifier(&decl.t.name) {
        Err(e) => Err(e),
        Ok(name) => match transform_type_name(&decl.t.typ) {
            Err(e) => Err(e),
            Ok(ty) => Ok(IR2VarDecl { name: name.t.clone(), ty }),
        },
    }
}

/// An error met among the first parameters is the error of the whole list.
pub proof fn lemma_params_error(args: Seq<SpanView<IR1VarDeclView>>, at: nat, upto: nat)
    requires
        at <= upto <= args.len(),
        spec_transform_params(args, at) is Err,
    ensures
        spec_transform_params(args, upto) == spec_transform_params(args, at),
    decreases upto - at,
{
    if at < upto {
        lemma_params_error(args, at, (upto - 1) as nat);
    }
}

/// Resolves the parameters of a function, each under the name it has in
/// the source.
pub fn transform_params(args: &Vec<Span<IR1VarDecl>>) -> (r: Result<Vec<IR2VarDecl>, Cerr>)
    ensures
        view_result(r) == spec_transform_params(args.deep_view(), args@.len()),
{
    let ghost views = args.deep_view();
    let mut params: Vec<IR2VarDecl> = Vec::new();
    let mut i: usize = 0;
    assert(params.deep_view() =~= Seq::<IR2VarDeclView>::empty());
    while i < args.len()
        invariant
            i <= args.len(),
            views == args.deep_view(),
            spec_transform_params(views, i as nat) == Ok::<Seq<IR2VarDeclView>, CerrView>(
                params.deep_view(),
            ),
        decreases args.len() - i,
    {
        let ghost before = params.deep_view();
        match transform_var_decl(&args[i]) {
            Err(e) => {
                proof {
                    lemma_params_error(views, (i + 1) as nat, views.len());
                }
                return Err(e);
            },
            Ok(p) => {
                params.push(p);
                assert(params.deep_view() =~= before.push(p.deep_view()));
            },
        }
        i += 1;
    }
    Ok(params)
}

/// The scope that the parameters of a function make, declared one after
/// the other.
pub fn param_scope<'a>(params: &Vec<IR2VarDecl>) -> (r: ScopeChain<'a>)
    ensures
        r.next is None,
        r.bindings() == spec_define_params(params.deep_view(), params@.len()),
        r.own() == r.bindings(),
{
    let ghost views = params.deep_view();
    let mut scope = ScopeChain::new();
    let mut i: usize = 0;
    while i < params.len()
        invariant
            i <= params.len(),
            views == params.deep_view(),
            scope.next is None,
            scope.bindings() == spec_define_params(views, i as nat),
            scope.own() == scope.bindings(),
        decreases params.len() - i,
    {
        let p = &params[i];
        assert(views[i as int] == p.deep_view());
        scope.define_var(p.name.as_str(), p.ty.clone());
        i += 1;
    }
    scope
}

/// Resolves the signature of a function of the source and hands it out
/// with the scope that its parameters make.
pub fn transform_signature<'a>(decl: &Span<IR1Func>) -> (r: Result<
    (IR2FuncDecl, ScopeChain<'a>),
    Cerr,
>)
    ensures
        match r {
            Ok(pair) => {
                &&& spec_signature(decl.deep_view()) is Ok
                &&& pair.0.deep_view() == spec_signature(decl.deep_view())->Ok_0.0
                &&& pair.1.bindings() == spec_signature(decl.deep_view())->Ok_0.1
                &&& pair.1.next is None
            },
            Err(e) => spec_signature(decl.deep_view()) == Err::<
                (IR2FuncDeclView, Seq<BindingView>),
                CerrView,
            >(e.deep_view()),
        },
{
    let name = match validate_identifier(&decl.t.name) {
        Err(e) => {
            return Err(e);
        },
        Ok(name) => name.t.clone(),
    };
    let return_ty = match transform_type_name(&decl.t.ret_typ) {
        Err(e) => {
            return Err(e);
        },
        Ok(ty) => ty,
    };
    let params = match transform_params(&decl.t.args.t) {
        Err(e) => {
            return Err(e);
        },
        Ok(p) => p,
    };
    let scope = param_scope(&params);
    let attrs: Vec<IR2FuncAttr> = Vec::new();
    assert(attrs.deep_view() =~= Seq::<crate::ir2::model::IR2FuncAttrView>::empty());
    Ok((IR2FuncDecl { attrs, name, return_ty, params: scope.declared() }, scope))
}

/// Resolves the signature of a function of the source.
pub fn transform_func_decl(decl: &Span<IR1Func>) -> (r: Result<IR2FuncDecl, Cerr>)
    ensures
        view_result(r) == spec_transform_func_decl(decl.deep_view()),
{
    match transform_signature(decl) {
        Err(e) => Err(e),
        Ok(pair) => Ok(pair.0),
    }
}

/// Picks the declaration that a call of `name` resolves to, where its
/// arguments have the given types; an error is about `span`.
pub fn resolve_func_call(
    name: &str,
    types: &[ResolveType],
    ctx: &ProgramContext,
    span: &SpanPlace,
) -> (r: Result<IR2FuncDecl, Cerr>)
    ensures
        view_result(r) == spec_resolve_func_call(
            name@,
            types@,
            ctx.functions.deep_view(),
            span.deep_view(),
        ),
{
    let ghost funcs = ctx.functions.deep_view();
    let mut matching: Vec<usize> = Vec::new();
    let mut i: usize = 0;
    while i < ctx.functions.len()
        invariant
            i <= ctx.functions.len(),
            funcs == ctx.functions.deep_view(),
            matching.len() == spec_matching(funcs, name@, types@, i as nat).len(),
            forall|k: int|
                0 <= k < matching.len() ==> 0 <= #[trigger] matching[k] < i && funcs[matching[k] as int]
                    == spec_matching(funcs, name@, types@, i as nat)[k],
        decreases ctx.functions.len() - i,
    {
        let f = &ctx.functions[i];
        if str_eq(f.name.as_str(), name) && function_matches(f, types) {
            matching.push(i);
        }
        i += 1;
    }
    let ghost found = spec_matching(funcs, name@, types@, funcs.len());
    if matching.len() == 0 {
        return Err(Cerr::with_span(CerrKind::NoMatchingFuncDecl, span.clone()));
    }
    if matching.len() >= 2 {
        let mut texts: Vec<String> = Vec::new();
        let mut k: usize = 0;
        while k < matching.len()
            invariant
                k <= matching.len(),
                matching.len() == found.len(),
                funcs == ctx.functions.deep_view(),
                forall|j: int|
                    0 <= j < matching.len() ==> 0 <= #[trigger] matching[j] < ctx.functions.len()
                        && funcs[matching[j] as int] == found[j],
                texts.len() == k,
                forall|j: int| 0 <= j < k ==> (#[trigger] texts[j])@ == spec_func_decl_text(found[j]),
            decreases matching.len() - k,
        {
            texts.push(ctx.functions[matching[k]].to_text());
            k += 1;
        }
        proof {
            reveal_strlit("\n  ");
            assert("\n  "@ =~= seq!['\n', ' ', ' ']);
            assert(texts.deep_view() =~= spec_decl_texts(found));
        }
        return Err(
            Cerr::with_span(
                CerrKind::MultipleMatchingFuncDecls(SepVec(texts, "\n  ")),
                span.clone(),
            ),
        );
    }
    Ok(ctx.functions[matching[0]].clone())
}

/// What is known of the type of each argument, in order.
pub open spec fn spec_arg_types(args: Seq<IR2ExprView>) -> Seq<ResolveType> {
    Seq::new(args.len(), |i: int| spec_infer_expr_type(args[i]))
}

/// An expression resolved where `bs` is in scope and `funcs` are declared.
///
/// An integer literal becomes a constant and a floating-point literal is
/// refused; a name becomes the variable it stands for; a call has its
/// arguments resolved from the first to the last and then picks its
/// declaration. Every error is about the place of the expression that it
/// was met in.
pub open spec fn spec_transform_expr(
    e: SpanView<IR1ExprView>,
    funcs: Seq<IR2FuncDeclView>,
    bs: Seq<BindingView>,
) -> Result<IR2ExprView, CerrView>
    decreases e, 0nat,
{
    match e.t {
        IR1ExprView::Const(c) => match c {
            IR1Constant::I64(x) => Ok(IR2ExprView::Const(x as int)),
            IR1Constant::U64(x) => Ok(IR2ExprView::Const(x as int)),
            IR1Constant::F64(_) => Err(
                CerrView { span: e.span, kind: CerrKindView::FloatsLiteralsUnsupported },
            ),
        },
        IR1ExprView::VarName(v) => match spec_find(bs, v) {
            Some(d) => Ok(IR2ExprView::Var(d)),
            None => Err(CerrView { span: e.span, kind: CerrKindView::UndeclaredVariable }),
        },
        IR1ExprView::FuncCall(f) => match spec_transform_args(
            f.args.t,
            f.args.t.len(),
            funcs,
            bs,
        ) {
            Err(err) => Err(err),
            Ok(args) => match spec_resolve_func_call(
                f.name.t,
                spec_arg_types(args),
                funcs,
                e.span,
            ) {
                Err(err) => Err(err),
                Ok(decl) => Ok(IR2ExprView::FuncCall(IR2FuncCallView { decl, args })),
            },
        },
    }
}

/// The first `upto` arguments of a call resolved, in order; the error of
/// the first that fails.
pub open spec fn spec_transform_args(
    args: Seq<SpanView<IR1ExprView>>,
    upto: nat,
    funcs: Seq<IR2FuncDeclView>,
    bs: Seq<BindingView>,
) -> Result<Seq<IR2ExprView>, CerrView>
    decreases args, upto,
{
    if upto == 0 || upto > args.len() {
        Ok(Seq::empty())
    } else {
        match spec_transform_args(args, (upto - 1) as nat, funcs, bs) {
            Err(e) => Err(e),
            Ok(done) => match spec_transform_expr(args[upto - 1], funcs, bs) {
                Err(e) => Err(e),
                Ok(x) => Ok(done.push(x)),
            },
        }
    }
}

/// An error met among the first arguments is the error of the whole list.
pub proof fn lemma_args_error(
    args: Seq<SpanView<IR1ExprView>>,
    at: nat,
    upto: nat,
    funcs: Seq<IR2FuncDeclView>,
    bs: Seq<BindingView>,
)
    requires
        at <= upto <= args.len(),
        spec_transform_args(args, at, funcs, bs) is Err,
    ensures
        spec_transform_args(args, upto, funcs, bs) == spec_transform_args(args, at, funcs, bs),
    decreases upto - at,
{
    if at < upto {
        lemma_args_error(args, at, (upto - 1) as nat, funcs, bs);
    }
}

/// Resolves an expression at the place in the program that `scope` stands
/// for.
pub fn transform_expr(expr: &Span<IR1Expr>, ctx: &ProgramContext, scope: &ScopeChain) -> (r: Result<
    IR2Expr,
    Cerr,
>)
    ensures
        view_result(r) == spec_transform_expr(
            expr.deep_view(),
            ctx.functions.deep_view(),
            scope.bindings(),
        ),
    decreases expr,
{
    match &expr.t {
        IR1Expr::Const(c) => match c {
            IR1Constant::I64(x) => Ok(IR2Expr::Const(integer_from_i64(*x))),
            IR1Constant::U64(x) => Ok(IR2Expr::Const(integer_from_u64(*x))),
            IR1Constant::F64(_) => Err(
                Cerr::with_span(CerrKind::FloatsLiteralsUnsupported, expr.span.clone()),
            ),
        },
        IR1Expr::VarName(v) => match scope.find(v.as_str()) {
            Some(decl) => Ok(IR2Expr::Var(decl.clone())),
            None => Err(Cerr::with_span(CerrKind::UndeclaredVariable, expr.span.clone())),
        },
        IR1Expr::FuncCall(f) => transform_call(f, &expr.span, ctx, scope),
    }
}

/// Resolves a call that stands at `span`: its arguments first, then the
/// declaration that they fit.
pub fn transform_call(
    call: &IR1FuncCall,
    span: &SpanPlace,
    ctx: &ProgramContext,
    scope: &ScopeChain,
) -> (r: Result<IR2Expr, Cerr>)
    ensures
        view_result(r) == spec_transform_expr(
            SpanView { span: span.deep_view(), t: IR1ExprView::FuncCall(call.deep_view()) },
            ctx.functions.deep_view(),
            scope.bindings(),
        ),
    decreases call,
{
    let ghost funcs = ctx.functions.deep_view();
    let ghost bs = scope.bindings();
    let ghost args = call.deep_view().args.t;
    proof {
        lemma_call_view(*call);
    }
    let mut exprs: Vec<IR2Expr> = Vec::new();
    let mut types: Vec<ResolveType> = Vec::new();
    let mut i: usize = 0;
    assert(exprs.deep_view() =~= Seq::<IR2ExprView>::empty());
    while i < call.args.t.len()
        invariant
            i <= call.args.t.len(),
            funcs == ctx.functions.deep_view(),
            bs == scope.bindings(),
            args == call.deep_view().args.t,
            args.len() == call.args.t@.len(),
            forall|k: int| 0 <= k < call.args.t@.len() ==> #[trigger] args[k] == call.args.t@[k].deep_view(),
            spec_transform_args(args, i as nat, funcs, bs) == Ok::<Seq<IR2ExprView>, CerrView>(
                exprs.deep_view(),
            ),
            types.len() == i,
            exprs.len() == i,
            forall|k: int| 0 <= k < i ==> #[trigger] types@[k] == spec_infer_expr_type(exprs@[k].deep_view()),
        decreases call.args.t.len() - i,
    {
        let ghost before = exprs.deep_view();
        match transform_expr(&call.args.t[i], ctx, scope) {
            Err(e) => {
                proof {
                    lemma_args_error(args, (i + 1) as nat, args.len(), funcs, bs);
                }
                return Err(e);
            },
            Ok(x) => {
                types.push(infer_expr_type(&x));
                exprs.push(x);
                assert(exprs.deep_view() =~= before.push(x.deep_view()));
            },
        }
        i += 1;
    }
    assert(types@ =~= spec_arg_types(exprs.deep_view()));
    match resolve_func_call(call.name.t.as_str(), types.as_slice(), ctx, span) {
        Err(e) => Err(e),
        Ok(decl) => {
            let r = IR2Expr::FuncCall(IR2FuncCall { decl, args: exprs });
            proof {
                let view = IR2ExprView::FuncCall(
                    IR2FuncCallView { decl: decl.deep_view(), args: exprs.deep_view() },
                );
                assert(r.deep_view()->FuncCall_0.args =~= exprs.deep_view());
                assert(r.deep_view() == view);
            }
            Ok(r)
        },
    }
}

/// What resolving the statements of a block has made so far: the bindings
/// added in the block, oldest first, and the statements put out.
pub struct BlockState {
    pub own: Seq<BindingView>,
    pub out: Seq<IR2StmtView>,
}

/// What one statement adds to a block, where `outer` is in scope around the
/// block and `st` is what the statements before it made.
///
/// A `let` resolves its starting value, if it has one, in the scope as it
/// is before the new variable, then resolves the type, then declares the
/// variable, and puts out the assignment of the value to it. A `set`
/// resolves its value and then looks up its variable. `if` and `while`
/// resolve their condition and then their bodies, each as a block of its
/// own. A call that stands as a statement is put out as an assignment
/// without a variable. Every statement put out stands at the place of the
/// statement that it was made from.
pub open spec fn spec_transform_stmt(
    s: SpanView<IR1StmtView>,
    funcs: Seq<IR2FuncDeclView>,
    outer: Seq<BindingView>,
    st: BlockState,
) -> Result<BlockState, CerrView>
    decreases s, 0nat,
{
    let bs = outer + st.own;
    match s.t {
        IR1StmtView::Let(l) => match l.init {
            Some(init) => match spec_transform_expr(init, funcs, bs) {
                Err(e) => Err(e),
                Ok(value) => match spec_transform_type(l.decl.t.typ) {
                    Err(e) => Err(e),
                    Ok(ty) => {
                        let b = spec_define(bs, l.decl.t.name.t, ty);
                        Ok(
                            BlockState {
                                own: st.own.push(b),
                                out: st.out.push(
                                    IR2StmtView::SetVar(
                                        IR2SetStmtView {
                                            span: s.span,
                                            var: Some(b.decl),
                                            value,
                                        },
                                    ),
                                ),
                            },
                        )
                    },
                },
            },
            None => match spec_transform_type(l.decl.t.typ) {
                Err(e) => Err(e),
                Ok(ty) => Ok(
                    BlockState {
                        own: st.own.push(spec_define(bs, l.decl.t.name.t, ty)),
                        out: st.out,
                    },
                ),
            },
        },
        IR1StmtView::SetVar(x) => match spec_transform_expr(x.expr, funcs, bs) {
            Err(e) => Err(e),
            Ok(value) => match spec_find(bs, x.var.t) {
                None => Err(
                    CerrView { span: x.var.span, kind: CerrKindView::UndeclaredVariable },
                ),
                Some(d) => Ok(
                    BlockState {
                        own: st.own,
                        out: st.out.push(
                            IR2StmtView::SetVar(
                                IR2SetStmtView { span: s.span, var: Some(d), value },
                            ),
                        ),
                    },
                ),
            },
        },
        IR1StmtView::If(x) => match spec_transform_if(x, s.span, funcs, bs) {
            Err(e) => Err(e),
            Ok(y) => Ok(BlockState { own: st.own, out: st.out.push(IR2StmtView::If(y)) }),
        },
        IR1StmtView::While(x) => match spec_transform_while(x, s.span, funcs, bs) {
            Err(e) => Err(e),
            Ok(y) => Ok(BlockState { own: st.own, out: st.out.push(IR2StmtView::While(y)) }),
        },
        IR1StmtView::FuncCall(f) => match spec_transform_expr(
            SpanView { span: s.span, t: IR1ExprView::FuncCall(f) },
            funcs,
            bs,
        ) {
            Err(e) => Err(e),
            Ok(value) => Ok(
                BlockState {
                    own: st.own,
                    out: st.out.push(
                        IR2StmtView::SetVar(IR2SetStmtView { span: s.span, var: None, value }),
                    ),
                },
            ),
        },
        IR1StmtView::Break => Ok(
            BlockState { own: st.own, out: st.out.push(IR2StmtView::Break(s.span)) },
        ),
    }
}

/// An `if` resolved where `bs` is in scope: the condition, then the first
/// body, then the second where there is one.
pub open spec fn spec_transform_if(
    x: IR1IfStmtView,
    span: SpanPlaceView,
    funcs: Seq<IR2FuncDeclView>,
    bs: Seq<BindingView>,
) -> Result<IR2IfStmtView, CerrView>
    decreases x, 0nat,
{
    match spec_transform_expr(x.cond, funcs, bs) {
        Err(e) => Err(e),
        Ok(expr) => match spec_transform_stmt_list(x.body1, funcs, bs) {
            Err(e) => Err(e),
            Ok(scope1) => match x.body2 {
                None => Ok(IR2IfStmtView { span, expr, scope1, scope2: None }),
                Some(body2) => match spec_transform_stmt_list(body2, funcs, bs) {
                    Err(e) => Err(e),
                    Ok(scope2) => Ok(IR2IfStmtView { span, expr, scope1, scope2: Some(scope2) }),
                },
            },
        },
    }
}

/// A `while` resolved where `bs` is in scope: the condition, then the body.
pub open spec fn spec_transform_while(
    x: IR1WhileStmtView,
    span: SpanPlaceView,
    funcs: Seq<IR2FuncDeclView>,
    bs: Seq<BindingView>,
) -> Result<IR2WhileStmtView, CerrView>
    decreases x, 0nat,
{
    match spec_transform_expr(x.cond, funcs, bs) {
        Err(e) => Err(e),
        Ok(expr) => match spec_transform_stmt_list(x.body, funcs, bs) {
            Err(e) => Err(e),
            Ok(scope) => Ok(IR2WhileStmtView { span, expr, scope }),
        },
    }
}

/// What the first `upto` statements of a block make, taken in order; the
/// error of the first that fails.
pub open spec fn spec_run_block(
    stmts: Seq<SpanView<IR1StmtView>>,
    upto: nat,
    funcs: Seq<IR2FuncDeclView>,
    outer: Seq<BindingView>,
) -> Result<BlockState, CerrView>
    decreases stmts, upto,
{
    if upto == 0 || upto > stmts.len() {
        Ok(BlockState { own: Seq::empty(), out: Seq::empty() })
    } else {
        match spec_run_block(stmts, (upto - 1) as nat, funcs, outer) {
            Err(e) => Err(e),
            Ok(st) => spec_transform_stmt(stmts[upto - 1], funcs, outer, st),
        }
    }
}

/// A block resolved where `outer` is in scope around it: the variables
/// declared in it, in order, and its statements.
pub open spec fn spec_transform_stmt_list(
    list: SpanView<Seq<SpanView<IR1StmtView>>>,
    funcs: Seq<IR2FuncDeclView>,
    outer: Seq<BindingView>,
) -> Result<IR2ScopeView, CerrView>
    decreases list, 0nat,
{
    match spec_run_block(list.t, list.t.len(), funcs, outer) {
        Err(e) => Err(e),
        Ok(st) => Ok(IR2ScopeView { vars: spec_decls(st.own), stmt_list: st.out }),
    }
}

/// An error met among the first statements is the error of the whole block.
pub proof fn lemma_block_error(
    stmts: Seq<SpanView<IR1StmtView>>,
    at: nat,
    upto: nat,
    funcs: Seq<IR2FuncDeclView>,
    outer: Seq<BindingView>,
)
    requires
        at <= upto <= stmts.len(),
        spec_run_block(stmts, at, funcs, outer) is Err,
    ensures
        spec_run_block(stmts, upto, funcs, outer) == spec_run_block(
            stmts,
            at,
            funcs,
            outer,
        ),
    decreases upto - at,
{
    if at < upto {
        lemma_block_error(stmts, at, (upto - 1) as nat, funcs, outer);
    }
}

/// Resolves an `if` that stands at `span`.
pub fn transform_if(
    if_stmt: &IR1IfStmt,
    span: SpanPlace,
    ctx: &ProgramContext,
    scope: &ScopeChain,
) -> (r: Result<IR2IfStmt, Cerr>)
    ensures
        view_result(r) == spec_transform_if(
            if_stmt.deep_view(),
            span.deep_view(),
            ctx.functions.deep_view(),
            scope.bindings(),
        ),
    decreases if_stmt,
{
    let expr = match transform_expr(&if_stmt.cond, ctx, scope) {
        Err(e) => {
            return Err(e);
        },
        Ok(x) => x,
    };
    let scope1 = match transform_stmt_list(&if_stmt.body1, ctx, scope) {
        Err(e) => {
            return Err(e);
        },
        Ok(x) => x,
    };
    let scope2 = match &if_stmt.body2 {
        None => None,
        Some(body2) => match transform_stmt_list(body2, ctx, scope) {
            Err(e) => {
                return Err(e);
            },
            Ok(x) => Some(x),
        },
    };
    Ok(IR2IfStmt { span, expr, scope1, scope2 })
}

/// Resolves a `while` that stands at `span`.
pub fn transform_while(
    while_stmt: &IR1WhileStmt,
    span: SpanPlace,
    ctx: &ProgramContext,
    scope: &ScopeChain,
) -> (r: Result<IR2WhileStmt, Cerr>)
    ensures
        view_result(r) == spec_transform_while(
            while_stmt.deep_view(),
            span.deep_view(),
            ctx.functions.deep_view(),
            scope.bindings(),
        ),
    decreases while_stmt,
{
    let expr = match transform_expr(&while_stmt.cond, ctx, scope) {
        Err(e) => {
            return Err(e);
        },
        Ok(x) => x,
    };
    let scope = match transform_stmt_list(&while_stmt.body, ctx, scope) {
        Err(e) => {
            return Err(e);
        },
        Ok(x) => x,
    };
    Ok(IR2WhileStmt { span, expr, scope })
}

/// Resolves one statement of a block: declares in `scope` what it declares
/// and puts what it stands for at the end of `stmts`.
pub fn transform_stmt(
    v: &Span<IR1Stmt>,
    ctx: &ProgramContext,
    scope: &mut ScopeChain,
    stmts: &mut Vec<IR2Stmt>,
) -> (r: Result<(), Cerr>)
    ensures
        final(scope).next == old(scope).next,
        match r {
            Ok(_) => spec_transform_stmt(
                v.deep_view(),
                ctx.functions.deep_view(),
                old(scope).outer(),
                BlockState { own: old(scope).own(), out: old(stmts).deep_view() },
            ) == Ok::<BlockState, CerrView>(
                BlockState { own: final(scope).own(), out: final(stmts).deep_view() },
            ),
            Err(e) => spec_transform_stmt(
                v.deep_view(),
                ctx.functions.deep_view(),
                old(scope).outer(),
                BlockState { own: old(scope).own(), out: old(stmts).deep_view() },
            ) == Err::<BlockState, CerrView>(e.deep_view()),
        },
    decreases v,
{
    let ghost out = stmts.deep_view();
    match &v.t {
        IR1Stmt::Let(let_stmt) => {
            match &let_stmt.init {
                Some(init) => {
                    let value = match transform_expr(init, ctx, scope) {
                        Err(e) => {
                            return Err(e);
                        },
                        Ok(x) => x,
                    };
                    let ty = match transform_type_name(&let_stmt.decl.t.typ) {
                        Err(e) => {
                            return Err(e);
                        },
                        Ok(t) => t,
                    };
                    let var_decl = scope.define_var(let_stmt.decl.t.name.t.as_str(), ty);
                    let stmt = IR2Stmt::SetVar(
                        IR2SetStmt { span: v.span.clone(), var: Some(var_decl), value },
                    );
                    stmts.push(stmt);
                    assert(stmts.deep_view() =~= out.push(stmt.deep_view()));
                },
                None => {
                    let ty = match transform_type_name(&let_stmt.decl.t.typ) {
                        Err(e) => {
                            return Err(e);
                        },
                        Ok(t) => t,
                    };
                    scope.define_var(let_stmt.decl.t.name.t.as_str(), ty);
                },
            }
        },
        IR1Stmt::SetVar(set_stmt) => {
            let value = match transform_expr(&set_stmt.expr, ctx, scope) {
                Err(e) => {
                    return Err(e);
                },
                Ok(x) => x,
            };
            let var = match scope.find(set_stmt.var.t.as_str()) {
                None => {
                    return Err(
                        Cerr::with_span(CerrKind::UndeclaredVariable, set_stmt.var.span.clone()),
                    );
                },
                Some(d) => d.clone(),
            };
            let stmt = IR2Stmt::SetVar(IR2SetStmt { span: v.span.clone(), var: Some(var), value });
            stmts.push(stmt);
            assert(stmts.deep_view() =~= out.push(stmt.deep_view()));
        },
        IR1Stmt::If(if_stmt) => {
            proof {
                lemma_if_view(*if_stmt);
            }
            let stmt = match transform_if(if_stmt, v.span.clone(), ctx, scope) {
                Err(e) => {
                    return Err(e);
                },
                Ok(x) => IR2Stmt::If(x),
            };
            stmts.push(stmt);
            assert(stmts.deep_view() =~= out.push(stmt.deep_view()));
        },
        IR1Stmt::While(while_stmt) => {
            proof {
                lemma_while_view(*while_stmt);
            }
            let stmt = match transform_while(while_stmt, v.span.clone(), ctx, scope) {
                Err(e) => {
                    return Err(e);
                },
                Ok(x) => IR2Stmt::While(x),
            };
            stmts.push(stmt);
            assert(stmts.deep_view() =~= out.push(stmt.deep_view()));
        },
        IR1Stmt::FuncCall(fn_call) => {
            let value = match transform_call(fn_call, &v.span, ctx, scope) {
                Err(e) => {
                    return Err(e);
                },
                Ok(x) => x,
            };
            let stmt = IR2Stmt::SetVar(IR2SetStmt { span: v.span.clone(), var: None, value });
            stmts.push(stmt);
            assert(stmts.deep_view() =~= out.push(stmt.deep_view()));
        },
        IR1Stmt::Break => {
            let stmt = IR2Stmt::Break(v.span.clone());
            stmts.push(stmt);
            assert(stmts.deep_view() =~= out.push(stmt.deep_view()));
        },
    }
    Ok(())
}

/// Resolves a block that stands inside the place that `scope_chain` stands
/// for.
pub fn transform_stmt_list(
    stmt_list: &Span<IR1StmtList>,
    ctx: &ProgramContext,
    scope_chain: &ScopeChain,
) -> (r: Result<IR2Scope, Cerr>)
    ensures
        view_result(r) == spec_transform_stmt_list(
            stmt_list.deep_view(),
            ctx.functions.deep_view(),
            scope_chain.bindings(),
        ),
    decreases stmt_list,
{
    let ghost list = stmt_list.deep_view();
    let ghost funcs = ctx.functions.deep_view();
    let ghost outer = scope_chain.bindings();
    proof {
        lemma_stmt_list_view(*stmt_list);
    }
    let mut scope = ScopeChain::child(scope_chain);
    let mut stmts: Vec<IR2Stmt> = Vec::new();
    let mut i: usize = 0;
    assert(stmts.deep_view() =~= Seq::<IR2StmtView>::empty());
    while i < stmt_list.t.len()
        invariant
            i <= stmt_list.t.len(),
            list == stmt_list.deep_view(),
            list.span == stmt_list.span.deep_view(),
            list.t.len() == stmt_list.t@.len(),
            forall|k: int| 0 <= k < stmt_list.t@.len() ==> #[trigger] list.t[k] == stmt_list.t@[k].deep_view(),
            funcs == ctx.functions.deep_view(),
            scope.outer() == outer,
            outer == scope_chain.bindings(),
            spec_run_block(list.t, i as nat, funcs, outer) == Ok::<BlockState, CerrView>(
                BlockState { own: scope.own(), out: stmts.deep_view() },
            ),
        decreases stmt_list.t.len() - i,
    {
        match transform_stmt(&stmt_list.t[i], ctx, &mut scope, &mut stmts) {
            Err(e) => {
                proof {
                    assert(list.t[i as int] == stmt_list.t@[i as int].deep_view());
                    assert(spec_run_block(list.t, (i + 1) as nat, funcs, outer)
                        == Err::<BlockState, CerrView>(e.deep_view()));
                    lemma_block_error(list.t, (i + 1) as nat, list.t.len(), funcs, outer);
                }
                return Err(e);
            },
            Ok(_) => {},
        }
        i += 1;
    }
    let r = IR2Scope { vars: scope.declared(), stmt_list: stmts };
    proof {
        assert(r.deep_view().stmt_list =~= stmts.deep_view());
    }
    Ok(r)
}

/// A function resolved: its signature, then its body as a block inside the
/// scope of its parameters.
pub open spec fn spec_transform_func(f: SpanView<IR1FuncView>, funcs: Seq<IR2FuncDeclView>) -> Result<
    IR2FuncView,
    CerrView,
> {
    match spec_signature(f) {
        Err(e) => Err(e),
        Ok(pair) => match spec_transform_stmt_list(f.t.body, funcs, pair.1) {
            Err(e) => Err(e),
            Ok(scope) => Ok(IR2FuncView { span: f.span, decl: pair.0, scope }),
        },
    }
}

/// The functions of the first `upto` files, file after file.
pub open spec fn spec_all_functions(modules: Seq<IR1ModuleView>, upto: nat) -> Seq<
    SpanView<IR1FuncView>,
>
    decreases upto,
{
    if upto == 0 || upto > modules.len() {
        Seq::empty()
    } else {
        spec_all_functions(modules, (upto - 1) as nat) + modules[upto - 1].functions
    }
}

/// The signatures of the first `upto` functions, in order; the error of the
/// first that fails.
pub open spec fn spec_collect_decls(all: Seq<SpanView<IR1FuncView>>, upto: nat) -> Result<
    Seq<IR2FuncDeclView>,
    CerrView,
>
    decreases upto,
{
    if upto == 0 || upto > all.len() {
        Ok(Seq::empty())
    } else {
        match spec_collect_decls(all, (upto - 1) as nat) {
            Err(e) => Err(e),
            Ok(done) => match spec_transform_func_decl(all[upto - 1]) {
                Err(e) => Err(e),
                Ok(d) => Ok(done.push(d)),
            },
        }
    }
}

/// The first `upto` functions resolved, in order; the error of the first
/// that fails.
pub open spec fn spec_transform_funcs(
    all: Seq<SpanView<IR1FuncView>>,
    funcs: Seq<IR2FuncDeclView>,
    upto: nat,
) -> Result<Seq<IR2FuncView>, CerrView>
    decreases upto,
{
    if upto == 0 || upto > all.len() {
        Ok(Seq::empty())
    } else {
        match spec_transform_funcs(all, funcs, (upto - 1) as nat) {
            Err(e) => Err(e),
            Ok(done) => match spec_transform_func(all[upto - 1], funcs) {
                Err(e) => Err(e),
                Ok(f) => Ok(done.push(f)),
            },
        }
    }
}

/// A program resolved. The signatures of all functions of all files are
/// collected behind the builtins before any body is resolved, so a call may
/// stand before the function it calls and in another file. Then the
/// functions are resolved in order. The first error ends it.
pub open spec fn spec_ir1_to_ir2(modules: Seq<IR1ModuleView>, builtins: Seq<IR2FuncDeclView>) -> Result<
    IR2ProgramView,
    CerrView,
> {
    let all = spec_all_functions(modules, modules.len());
    match spec_collect_decls(all, all.len()) {
        Err(e) => Err(e),
        Ok(decls) => match spec_transform_funcs(all, builtins + decls, all.len()) {
            Err(e) => Err(e),
            Ok(funcs) => Ok(IR2ProgramView { funcs }),
        },
    }
}

/// An error met among the first signatures is the error of the whole list.
pub proof fn lemma_collect_error(all: Seq<SpanView<IR1FuncView>>, at: nat, upto: nat)
    requires
        at <= upto <= all.len(),
        spec_collect_decls(all, at) is Err,
    ensures
        spec_collect_decls(all, upto) == spec_collect_decls(all, at),
    decreases upto - at,
{
    if at < upto {
        lemma_collect_error(all, at, (upto - 1) as nat);
    }
}

/// An error met among the first functions is the error of the whole list.
pub proof fn lemma_funcs_error(
    all: Seq<SpanView<IR1FuncView>>,
    funcs: Seq<IR2FuncDeclView>,
    at: nat,
    upto: nat,
)
    requires
        at <= upto <= all.len(),
        spec_transform_funcs(all, funcs, at) is Err,
    ensures
        spec_transform_funcs(all, funcs, upto) == spec_transform_funcs(all, funcs, at),
    decreases upto - at,
{
    if at < upto {
        lemma_funcs_error(all, funcs, at, (upto - 1) as nat);
    }
}

/// Resolves a function where `ctx` holds every declaration of the program.
pub fn transform_func(func: &Span<IR1Func>, ctx: &ProgramContext) -> (r: Result<IR2Func, Cerr>)
    ensures
        view_result(r) == spec_transform_func(func.deep_view(), ctx.functions.deep_view()),
{
    let (decl, scope) = match transform_signature(func) {
        Err(e) => {
            return Err(e);
        },
        Ok(pair) => pair,
    };
    match transform_stmt_list(&func.t.body, ctx, &scope) {
        Err(e) => Err(e),
        Ok(body) => Ok(IR2Func { span: func.span.clone(), decl, scope: body }),
    }
}

/// The functions of all files, file after file.
pub fn all_functions<'a>(modules: &'a [IR1Module]) -> (r: Vec<&'a Span<IR1Func>>)
    ensures
        r.deep_view() == spec_all_functions(modules.deep_view(), modules@.len()),
{
    let ghost mods = modules.deep_view();
    let mut r: Vec<&'a Span<IR1Func>> = Vec::new();
    let mut m: usize = 0;
    assert(r.deep_view() =~= Seq::<SpanView<IR1FuncView>>::empty());
    while m < modules.len()
        invariant
            m <= modules.len(),
            mods == modules.deep_view(),
            r.deep_view() == spec_all_functions(mods, m as nat),
        decreases modules.len() - m,
    {
        let module = &modules[m];
        let ghost start = r.deep_view();
        let mut k: usize = 0;
        assert(mods[m as int] == module.deep_view());
        assert(module.functions.deep_view().take(0) =~= Seq::<SpanView<IR1FuncView>>::empty());
        assert(r.deep_view() =~= start + module.functions.deep_view().take(0));
        while k < module.functions.len()
            invariant
                k <= module.functions.len(),
                r.deep_view() == start + module.functions.deep_view().take(k as int),
            decreases module.functions.len() - k,
        {
            let ghost before = r.deep_view();
            r.push(&module.functions[k]);
            proof {
                assert(r.deep_view() =~= before.push(module.functions[k as int].deep_view()));
                assert(module.functions.deep_view().take(k + 1) =~= module.functions.deep_view().take(
                    k as int,
                ).push(module.functions[k as int].deep_view()));
                assert(r.deep_view() =~= start + module.functions.deep_view().take(k + 1));
            }
            k += 1;
        }
        assert(module.functions.deep_view().take(module.functions.len() as int)
            =~= module.functions.deep_view());
        m += 1;
    }
    r
}

/// Puts the signature of every function of every file at the end of the
/// declarations of `ctx`, in order.
pub fn collect_toplevel_decls(modules: &[IR1Module], ctx: &mut ProgramContext) -> (r: Result<(), Cerr>)
    ensures
        match r {
            Ok(_) => {
                let all = spec_all_functions(modules.deep_view(), modules@.len());
                &&& spec_collect_decls(all, all.len()) is Ok
                &&& final(ctx).functions.deep_view() == old(ctx).functions.deep_view()
                    + spec_collect_decls(all, all.len())->Ok_0
            },
            Err(e) => {
                let all = spec_all_functions(modules.deep_view(), modules@.len());
                spec_collect_decls(all, all.len()) == Err::<Seq<IR2FuncDeclView>, CerrView>(
                    e.deep_view(),
                )
            },
        },
{
    let funcs = all_functions(modules);
    let ghost all = funcs.deep_view();
    let ghost start = ctx.functions.deep_view();
    let mut i: usize = 0;
    assert(ctx.functions.deep_view() =~= start + Seq::<IR2FuncDeclView>::empty());
    while i < funcs.len()
        invariant
            i <= funcs.len(),
            all == funcs.deep_view(),
            all == spec_all_functions(modules.deep_view(), modules@.len()),
            start == old(ctx).functions.deep_view(),
            spec_collect_decls(all, i as nat) is Ok,
            ctx.functions.deep_view() == start + spec_collect_decls(all, i as nat)->Ok_0,
        decreases funcs.len() - i,
    {
        let ghost before = ctx.functions.deep_view();
        assert(all[i as int] == funcs[i as int].deep_view());
        match transform_func_decl(funcs[i]) {
            Err(e) => {
                proof {
                    lemma_collect_error(all, (i + 1) as nat, all.len());
                }
                return Err(e);
            },
            Ok(d) => {
                ctx.functions.push(d);
                proof {
                    assert(ctx.functions.deep_view() =~= before.push(d.deep_view()));
                    assert(ctx.functions.deep_view() =~= start + spec_collect_decls(
                        all,
                        (i + 1) as nat,
                    )->Ok_0);
                }
            },
        }
        i += 1;
    }
    Ok(())
}

/// Resolves the functions in `sources`, in order, where `ctx` holds every
/// declaration of the program.
pub fn transform_funcs(sources: &Vec<&Span<IR1Func>>, ctx: &ProgramContext) -> (r: Result<
    Vec<IR2Func>,
    Cerr,
>)
    ensures
        view_result(r) == spec_transform_funcs(
            sources.deep_view(),
            ctx.functions.deep_view(),
            sources@.len(),
        ),
{
    let ghost all = sources.deep_view();
    let ghost decls = ctx.functions.deep_view();
    let mut funcs: Vec<IR2Func> = Vec::new();
    let mut i: usize = 0;
    assert(funcs.deep_view() =~= Seq::<IR2FuncView>::empty());
    while i < sources.len()
        invariant
            i <= sources.len(),
            all == sources.deep_view(),
            decls == ctx.functions.deep_view(),
            spec_transform_funcs(all, decls, i as nat) == Ok::<Seq<IR2FuncView>, CerrView>(
                funcs.deep_view(),
            ),
        decreases sources.len() - i,
    {
        let ghost before = funcs.deep_view();
        assert(all[i as int] == sources[i as int].deep_view());
        match transform_func(sources[i], ctx) {
            Err(e) => {
                proof {
                    lemma_funcs_error(all, decls, (i + 1) as nat, all.len());
                }
                return Err(e);
            },
            Ok(f) => {
                funcs.push(f);
                assert(funcs.deep_view() =~= before.push(f.deep_view()));
            },
        }
        i += 1;
    }
    Ok(funcs)
}

/// Resolves a program: the files in `modules`, in order, with `builtins`
/// declared before them.
pub fn ir1_to_ir2(modules: &[IR1Module], builtins: &[IR2FuncDecl]) -> (r: Result<IR2Program, Cerr>)
    ensures
        view_result(r) == spec_ir1_to_ir2(modules.deep_view(), builtins.deep_view()),
{
    let mut functions: Vec<IR2FuncDecl> = Vec::new();
    let mut b: usize = 0;
    while b < builtins.len()
        invariant
            b <= builtins.len(),
            functions.len() == b,
            forall|j: int| 0 <= j < b ==> (#[trigger] functions[j]).deep_view() == builtins[j].deep_view(),
        decreases builtins.len() - b,
    {
        functions.push(builtins[b].clone());
        b += 1;
    }
    assert(functions.deep_view() =~= builtins.deep_view());
    let mut ctx = ProgramContext { functions };
    match collect_toplevel_decls(modules, &mut ctx) {
        Err(e) => {
            return Err(e);
        },
        Ok(_) => {},
    }
    match transform_funcs(&all_functions(modules), &ctx) {
        Err(e) => Err(e),
        Ok(funcs) => Ok(IR2Program { funcs }),
    }
}

/// No declaration of another name is a candidate for a call.
pub proof fn lemma_no_candidate(
    funcs: Seq<IR2FuncDeclView>,
    name: Seq<char>,
    types: Seq<ResolveType>,
    upto: nat,
)
    requires
        upto <= funcs.len(),
        forall|i: int| 0 <= i < funcs.len() ==> (#[trigger] funcs[i]).name != name,
    ensures
        spec_matching(funcs, name, types, upto).len() == 0,
    decreases upto,
{
    if upto > 0 {
        lemma_no_candidate(funcs, name, types, (upto - 1) as nat);
    }
}

/// A call of a name that nothing declares fails with "no matching function
/// declaration" at the place of the call, whatever its arguments are, as
/// long as they resolve.
pub proof fn lemma_undeclared_function(
    e: SpanView<IR1ExprView>,
    funcs: Seq<IR2FuncDeclView>,
    bs: Seq<BindingView>,
)
    requires
        e.t is FuncCall,
        spec_transform_args(e.t->FuncCall_0.args.t, e.t->FuncCall_0.args.t.len(), funcs, bs) is Ok,
        forall|i: int|
            0 <= i < funcs.len() ==> (#[trigger] funcs[i]).name != e.t->FuncCall_0.name.t,
    ensures
        spec_transform_expr(e, funcs, bs) == Err::<IR2ExprView, CerrView>(
            CerrView { span: e.span, kind: CerrKindView::NoMatchingFuncDecl },
        ),
{
    let f = e.t->FuncCall_0;
    let args = spec_transform_args(f.args.t, f.args.t.len(), funcs, bs)->Ok_0;
    lemma_no_candidate(funcs, f.name.t, spec_arg_types(args), funcs.len());
}

/// A floating-point literal fails with "float literals are unsupported" at
/// its own place.
pub proof fn lemma_float_rejected(
    e: SpanView<IR1ExprView>,
    funcs: Seq<IR2FuncDeclView>,
    bs: Seq<BindingView>,
)
    requires
        e.t matches IR1ExprView::Const(c) && c is F64,
    ensures
        spec_transform_expr(e, funcs, bs) == Err::<IR2ExprView, CerrView>(
            CerrView { span: e.span, kind: CerrKindView::FloatsLiteralsUnsupported },
        ),
{
}

/// A `let` that starts with a floating-point literal fails at the place of
/// the literal, not at that of the `let`.
pub proof fn lemma_let_float_rejected(
    s: SpanView<IR1StmtView>,
    funcs: Seq<IR2FuncDeclView>,
    outer: Seq<BindingView>,
    st: BlockState,
)
    requires
        s.t is Let,
        s.t->Let_0.init is Some,
        s.t->Let_0.init->Some_0.t matches IR1ExprView::Const(c) && c is F64,
    ensures
        spec_transform_stmt(s, funcs, outer, st) == Err::<BlockState, CerrView>(
            CerrView {
                span: s.t->Let_0.init->Some_0.span,
                kind: CerrKindView::FloatsLiteralsUnsupported,
            },
        ),
{
}

/// A name that nothing in scope binds fails with "undeclared variable" at
/// the place where it is read, however many blocks are around it.
pub proof fn lemma_undeclared_variable(
    e: SpanView<IR1ExprView>,
    funcs: Seq<IR2FuncDeclView>,
    bs: Seq<BindingView>,
)
    requires
        e.t is VarName,
        forall|i: int| 0 <= i < bs.len() ==> (#[trigger] bs[i]).source != e.t->VarName_0,
    ensures
        spec_transform_expr(e, funcs, bs) == Err::<IR2ExprView, CerrView>(
            CerrView { span: e.span, kind: CerrKindView::UndeclaredVariable },
        ),
{
    crate::ir1::scope::lemma_last_index(bs, e.t->VarName_0);
}

} // verus!
