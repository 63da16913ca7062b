//! The syntax tree: the forms of the language as they stand in the source,
//! with names and types still as text. Every node knows its place.

use crate::common::eqf64::EqF64;
use crate::common::span::{Span, SpanView};
use vstd::prelude::*;

verus! {

/// One source file: its functions, in order.
#[derive(Debug, PartialEq, Eq, PartialOrd, Ord)]
pub struct IR1Module {
    pub functions: Vec<Span<IR1Func>>,
}

/// A function: its name, the name of its return type, its parameters and
/// its body.
#[derive(Debug, PartialEq, Eq, PartialOrd, Ord)]
pub struct IR1Func {
    pub name: Span<String>,
    pub ret_typ: Span<String>,
    pub args: Span<IR1FuncArgs>,
    pub body: Span<IR1StmtList>,
}

pub type IR1FuncArgs = Vec<Span<IR1VarDecl>>;

/// A variable as declared: its name and the name of its type.
#[derive(Debug, PartialEq, Eq, PartialOrd, Ord)]
pub struct IR1VarDecl {
    pub name: Span<String>,
    pub typ: Span<String>,
}

pub type IR1StmtList = Vec<Span<IR1Stmt>>;

#[derive(Debug, PartialEq, Eq, PartialOrd, Ord)]
pub enum IR1Stmt {
    Let(IR1LetStmt),
    SetVar(IR1SetStmt),
    If(IR1IfStmt),
    While(IR1WhileStmt),
    FuncCall(IR1FuncCall),
    Break,
}

/// A declaration, with the value it starts with where one is given.
#[derive(Debug, PartialEq, Eq, PartialOrd, Ord)]
pub struct IR1LetStmt {
    pub decl: Span<IR1VarDecl>,
    pub init: Option<Span<IR1Expr>>,
}

#[derive(Debug, PartialEq, Eq, PartialOrd, Ord)]
pub struct IR1SetStmt {
    pub var: Span<String>,
    pub expr: Span<IR1Expr>,
}

#[derive(Debug, PartialEq, Eq, PartialOrd, Ord)]
pub struct IR1IfStmt {
    pub cond: Span<IR1Expr>,
    pub body1: Span<IR1StmtList>,
    pub body2: Option<Span<IR1StmtList>>,
}

#[derive(Debug, PartialEq, Eq, PartialOrd, Ord)]
pub struct IR1WhileStmt {
    pub cond: Span<IR1Expr>,
    pub body: Span<IR1StmtList>,
}

#[derive(Debug, PartialEq, Eq, PartialOrd, Ord)]
pub enum IR1Expr {
    Const(IR1Constant),
    VarName(String),
    FuncCall(IR1FuncCall),
}

#[derive(Debug, PartialEq, Eq, PartialOrd, Ord)]
pub struct IR1FuncCall {
    pub name: Span<String>,
    pub args: Span<Vec<Span<IR1Expr>>>,
}

/// A number literal: an integer from zero up, a negative integer, or a
/// floating-point number.
#[derive(Debug, Clone, Copy, PartialEq, Eq, PartialOrd, Ord)]
pub enum IR1Constant {
    I64(i64),
    U64(u64),
    F64(EqF64),
}

impl DeepView for IR1Constant {
    type V = IR1Constant;

    open spec fn deep_view(&self) -> IR1Constant {
        *self
    }
}

/// What an `IR1VarDecl` holds.
pub struct IR1VarDeclView {
    pub name: SpanView<Seq<char>>,
    pub typ: SpanView<Seq<char>>,
}

impl DeepView for IR1VarDecl {
    type V = IR1VarDeclView;

    open spec fn deep_view(&self) -> IR1VarDeclView {
        IR1VarDeclView { name: self.name.deep_view(), typ: self.typ.deep_view() }
    }
}

/// What an `IR1Expr` holds.
pub enum IR1ExprView {
    Const(IR1Constant),
    VarName(Seq<char>),
    FuncCall(IR1FuncCallView),
}

/// What an `IR1FuncCall` holds.
pub struct IR1FuncCallView {
    pub name: SpanView<Seq<char>>,
    pub args: SpanView<Seq<SpanView<IR1ExprView>>>,
}

pub open spec fn ir1_expr_view(e: IR1Expr) -> IR1ExprView
    decreases e,
{
    match e {
        IR1Expr::Const(c) => IR1ExprView::Const(c),
        IR1Expr::VarName(v) => IR1ExprView::VarName(v@),
        IR1Expr::FuncCall(f) => IR1ExprView::FuncCall(ir1_call_view(f)),
    }
}

pub open spec fn ir1_call_view(f: IR1FuncCall) -> IR1FuncCallView
    decreases f,
{
    IR1FuncCallView {
        name: f.name.deep_view(),
        args: SpanView {
            span: f.args.span.deep_view(),
            t: Seq::new(
                f.args.t@.len(),
                |i: int|
                    if 0 <= i < f.args.t@.len() {
                        SpanView {
                            span: f.args.t@[i].span.deep_view(),
                            t: ir1_expr_view(f.args.t@[i].t),
                        }
                    } else {
                        arbitrary()
                    },
            ),
        },
    }
}

impl DeepView for IR1Expr {
    type V = IR1ExprView;

    open spec fn deep_view(&self) -> IR1ExprView {
        ir1_expr_view(*self)
    }
}

impl DeepView for IR1FuncCall {
    type V = IR1FuncCallView;

    open spec fn deep_view(&self) -> IR1FuncCallView {
        ir1_call_view(*self)
    }
}

/// What an `IR1Stmt` holds.
pub enum IR1StmtView {
    Let(IR1LetStmtView),
    SetVar(IR1SetStmtView),
    If(IR1IfStmtView),
    While(IR1WhileStmtView),
    FuncCall(IR1FuncCallView),
    Break,
}

/// What an `IR1LetStmt` holds.
pub struct IR1LetStmtView {
    pub decl: SpanView<IR1VarDeclView>,
    pub init: Option<SpanView<IR1ExprView>>,
}

/// What an `IR1SetStmt` holds.
pub struct IR1SetStmtView {
    pub var: SpanView<Seq<char>>,
    pub expr: SpanView<IR1ExprView>,
}

/// What an `IR1IfStmt` holds.
pub struct IR1IfStmtView {
    pub cond: SpanView<IR1ExprView>,
    pub body1: SpanView<Seq<SpanView<IR1StmtView>>>,
    pub body2: Option<SpanView<Seq<SpanView<IR1StmtView>>>>,
}

/// What an `IR1WhileStmt` holds.
pub struct IR1WhileStmtView {
    pub cond: SpanView<IR1ExprView>,
    pub body: SpanView<Seq<SpanView<IR1StmtView>>>,
}

impl DeepView for IR1LetStmt {
    type V = IR1LetStmtView;

    open spec fn deep_view(&self) -> IR1LetStmtView {
        IR1LetStmtView { decl: self.decl.deep_view(), init: self.init.deep_view() }
    }
}

impl DeepView for IR1SetStmt {
    type V = IR1SetStmtView;

    open spec fn deep_view(&self) -> IR1SetStmtView {
        IR1SetStmtView { var: self.var.deep_view(), expr: self.expr.deep_view() }
    }
}

pub open spec fn ir1_stmt_view(s: IR1Stmt) -> IR1StmtView
    decreases s,
{
    match s {
        IR1Stmt::Let(x) => IR1StmtView::Let(x.deep_view()),
        IR1Stmt::SetVar(x) => IR1StmtView::SetVar(x.deep_view()),
        IR1Stmt::If(x) => IR1StmtView::If(
            IR1IfStmtView {
                cond: x.cond.deep_view(),
                body1: ir1_stmt_list_view(x.body1),
                body2: match x.body2 {
                    Some(b) => Some(ir1_stmt_list_view(b)),
                    None => None,
                },
            },
        ),
        IR1Stmt::While(x) => IR1StmtView::While(
            IR1WhileStmtView { cond: x.cond.deep_view(), body: ir1_stmt_list_view(x.body) },
        ),
        IR1Stmt::FuncCall(f) => IR1StmtView::FuncCall(f.deep_view()),
        IR1Stmt::Break => IR1StmtView::Break,
    }
}

pub open spec fn ir1_stmt_list_view(l: Span<IR1StmtList>) -> SpanView<Seq<SpanView<IR1StmtView>>>
    decreases l,
{
    SpanView {
        span: l.span.deep_view(),
        t: Seq::new(
            l.t@.len(),
            |i: int|
                if 0 <= i < l.t@.len() {
                    SpanView { span: l.t@[i].span.deep_view(), t: ir1_stmt_view(l.t@[i].t) }
                } else {
                    arbitrary()
                },
        ),
    }
}

impl DeepView for IR1Stmt {
    type V = IR1StmtView;

    open spec fn deep_view(&self) -> IR1StmtView {
        ir1_stmt_view(*self)
    }
}

impl DeepView for IR1IfStmt {
    type V = IR1IfStmtView;

    open spec fn deep_view(&self) -> IR1IfStmtView {
        IR1IfStmtView {
            cond: self.cond.deep_view(),
            body1: self.body1.deep_view(),
            body2: self.body2.deep_view(),
        }
    }
}

impl DeepView for IR1WhileStmt {
    type V = IR1WhileStmtView;

    open spec fn deep_view(&self) -> IR1WhileStmtView {
        IR1WhileStmtView { cond: self.cond.deep_view(), body: self.body.deep_view() }
    }
}

/// What an `IR1Func` holds.
pub struct IR1FuncView {
    pub name: SpanView<Seq<char>>,
    pub ret_typ: SpanView<Seq<char>>,
    pub args: SpanView<Seq<SpanView<IR1VarDeclView>>>,
    pub body: SpanView<Seq<SpanView<IR1StmtView>>>,
}

impl DeepView for IR1Func {
    type V = IR1FuncView;

    open spec fn deep_view(&self) -> IR1FuncView {
        IR1FuncView {
            name: self.name.deep_view(),
            ret_typ: self.ret_typ.deep_view(),
            args: self.args.deep_view(),
            body: self.body.deep_view(),
        }
    }
}

/// What an `IR1Module` holds.
pub struct IR1ModuleView {
    pub functions: Seq<SpanView<IR1FuncView>>,
}

impl DeepView for IR1Module {
    type V = IR1ModuleView;

    open spec fn deep_view(&self) -> IR1ModuleView {
        IR1ModuleView { functions: self.functions.deep_view() }
    }
}

/// The view of a list of statements is the list of the statements' views.
pub proof fn lemma_stmt_list_view(l: Span<IR1StmtList>)
    ensures
        l.deep_view() == ir1_stmt_list_view(l),
        l.deep_view().span == l.span.deep_view(),
        l.deep_view().t.len() == l.t@.len(),
        forall|i: int| 0 <= i < l.t@.len() ==> #[trigger] l.deep_view().t[i] == l.t@[i].deep_view(),
{
    assert(l.deep_view().t =~= ir1_stmt_list_view(l).t);
}

/// The view of a call's arguments is the list of the arguments' views.
pub proof fn lemma_call_view(f: IR1FuncCall)
    ensures
        f.deep_view().name == f.name.deep_view(),
        f.deep_view().args == f.args.deep_view(),
        f.deep_view().args.t.len() == f.args.t@.len(),
        forall|i: int|
            0 <= i < f.args.t@.len() ==> #[trigger] f.deep_view().args.t[i]
                == f.args.t@[i].deep_view(),
{
    assert(f.deep_view().args.t =~= f.args.deep_view().t);
}

/// The views of the bodies of an `if` are the views of its lists.
pub proof fn lemma_if_view(x: IR1IfStmt)
    ensures
        ir1_stmt_view(IR1Stmt::If(x)) == IR1StmtView::If(x.deep_view()),
{
    lemma_stmt_list_view(x.body1);
    match x.body2 {
        Some(b) => {
            lemma_stmt_list_view(b);
        },
        None => {},
    }
}

/// The view of the body of a `while` is the view of its list.
pub proof fn lemma_while_view(x: IR1WhileStmt)
    ensures
        ir1_stmt_view(IR1Stmt::While(x)) == IR1StmtView::While(x.deep_view()),
{
    lemma_stmt_list_view(x.body);
}

fn clone_name(s: &Span<String>) -> (r: Span<String>)
    ensures
        r.deep_view() == s.deep_view(),
{
    Span { span: s.span.clone(), t: s.t.clone() }
}

impl Clone for IR1VarDecl {
    fn clone(&self) -> (r: Self)
        ensures
            r.deep_view() == self.deep_view(),
    {
        IR1VarDecl { name: clone_name(&self.name), typ: clone_name(&self.typ) }
    }
}

fn clone_var_decl(d: &Span<IR1VarDecl>) -> (r: Span<IR1VarDecl>)
    ensures
        r.deep_view() == d.deep_view(),
{
    Span { span: d.span.clone(), t: d.t.clone() }
}

fn clone_expr(e: &Span<IR1Expr>) -> (r: Span<IR1Expr>)
    ensures
        r.deep_view() == e.deep_view(),
    decreases e,
{
    let t = match &e.t {
        IR1Expr::Const(c) => IR1Expr::Const(*c),
        IR1Expr::VarName(v) => IR1Expr::VarName(v.clone()),
        IR1Expr::FuncCall(f) => IR1Expr::FuncCall(clone_call(f)),
    };
    Span { span: e.span.clone(), t }
}

fn clone_call(f: &IR1FuncCall) -> (r: IR1FuncCall)
    ensures
        r.deep_view() == f.deep_view(),
    decreases f,
{
    let mut args: Vec<Span<IR1Expr>> = Vec::new();
    let mut i: usize = 0;
    while i < f.args.t.len()
        invariant
            i <= f.args.t.len(),
            args.len() == i,
            forall|k: int|
                0 <= k < i ==> (#[trigger] args[k]).deep_view() == f.args.t[k].deep_view(),
        decreases f.args.t.len() - i,
    {
        args.push(clone_expr(&f.args.t[i]));
        i += 1;
    }
    let r = IR1FuncCall {
        name: clone_name(&f.name),
        args: Span { span: f.args.span.clone(), t: args },
    };
    proof {
        lemma_call_view(r);
        lemma_call_view(*f);
        assert(r.deep_view().args.t =~= f.deep_view().args.t);
    }
    r
}

impl Clone for IR1Expr {
    fn clone(&self) -> (r: Self)
        ensures
            r.deep_view() == self.deep_view(),
    {
        match self {
            IR1Expr::Const(c) => IR1Expr::Const(*c),
            IR1Expr::VarName(v) => IR1Expr::VarName(v.clone()),
            IR1Expr::FuncCall(f) => IR1Expr::FuncCall(clone_call(f)),
        }
    }
}

impl Clone for IR1FuncCall {
    fn clone(&self) -> (r: Self)
        ensures
            r.deep_view() == self.deep_view(),
    {
        clone_call(self)
    }
}

impl Clone for IR1LetStmt {
    fn clone(&self) -> (r: Self)
        ensures
            r.deep_view() == self.deep_view(),
    {
        IR1LetStmt {
            decl: clone_var_decl(&self.decl),
            init: match &self.init {
                Some(e) => Some(clone_expr(e)),
                None => None,
            },
        }
    }
}

impl Clone for IR1SetStmt {
    fn clone(&self) -> (r: Self)
        ensures
            r.deep_view() == self.deep_view(),
    {
        IR1SetStmt { var: clone_name(&self.var), expr: clone_expr(&self.expr) }
    }
}

fn clone_stmt(s: &IR1Stmt) -> (r: IR1Stmt)
    ensures
        r.deep_view() == s.deep_view(),
    decreases s,
{
    match s {
        IR1Stmt::Let(x) => IR1Stmt::Let(x.clone()),
        IR1Stmt::SetVar(x) => IR1Stmt::SetVar(x.clone()),
        IR1Stmt::If(x) => {
            let y = IR1IfStmt {
                cond: clone_expr(&x.cond),
                body1: clone_stmt_list(&x.body1),
                body2: match &x.body2 {
                    Some(b) => Some(clone_stmt_list(b)),
                    None => None,
                },
            };
            proof {
                lemma_if_view(*x);
                lemma_if_view(y);
            }
            IR1Stmt::If(y)
        },
        IR1Stmt::While(x) => {
            let y = IR1WhileStmt { cond: clone_expr(&x.cond), body: clone_stmt_list(&x.body) };
            proof {
                lemma_while_view(*x);
                lemma_while_view(y);
            }
            IR1Stmt::While(y)
        },
        IR1Stmt::FuncCall(f) => IR1Stmt::FuncCall(clone_call(f)),
        IR1Stmt::Break => IR1Stmt::Break,
    }
}

fn clone_stmt_list(l: &Span<IR1StmtList>) -> (r: Span<IR1StmtList>)
    ensures
        r.deep_view() == l.deep_view(),
    decreases l,
{
    let mut stmts: Vec<Span<IR1Stmt>> = Vec::new();
    let mut i: usize = 0;
    while i < l.t.len()
        invariant
            i <= l.t.len(),
            stmts.len() == i,
            forall|k: int| 0 <= k < i ==> (#[trigger] stmts[k]).deep_view() == l.t[k].deep_view(),
        decreases l.t.len() - i,
    {
        stmts.push(Span { span: l.t[i].span.clone(), t: clone_stmt(&l.t[i].t) });
        i += 1;
    }
    let r = Span { span: l.span.clone(), t: stmts };
    proof {
        assert(r.deep_view().t =~= l.deep_view().t);
    }
    r
}

impl Clone for IR1Stmt {
    fn clone(&self) -> (r: Self)
        ensures
            r.deep_view() == self.deep_view(),
    {
        clone_stmt(self)
    }
}

impl Clone for IR1IfStmt {
    fn clone(&self) -> (r: Self)
        ensures
            r.deep_view() == self.deep_view(),
    {
        IR1IfStmt {
            cond: clone_expr(&self.cond),
            body1: clone_stmt_list(&self.body1),
            body2: match &self.body2 {
                Some(b) => Some(clone_stmt_list(b)),
                None => None,
            },
        }
    }
}

impl Clone for IR1WhileStmt {
    fn clone(&self) -> (r: Self)
        ensures
            r.deep_view() == self.deep_view(),
    {
        IR1WhileStmt { cond: clone_expr(&self.cond), body: clone_stmt_list(&self.body) }
    }
}

impl Clone for IR1Func {
    fn clone(&self) -> (r: Self)
        ensures
            r.deep_view() == self.deep_view(),
    {
        let mut args: Vec<Span<IR1VarDecl>> = Vec::new();
        let mut i: usize = 0;
        while i < self.args.t.len()
            invariant
                i <= self.args.t.len(),
                args.len() == i,
                forall|k: int|
                    0 <= k < i ==> (#[trigger] args[k]).deep_view() == self.args.t[k].deep_view(),
            decreases self.args.t.len() - i,
        {
            args.push(clone_var_decl(&self.args.t[i]));
            i += 1;
        }
        assert(args.deep_view() =~= self.args.t.deep_view());
        IR1Func {
            name: clone_name(&self.name),
            ret_typ: clone_name(&self.ret_typ),
            args: Span { span: self.args.span.clone(), t: args },
            body: clone_stmt_list(&self.body),
        }
    }
}

impl Clone for IR1Module {
    fn clone(&self) -> (r: Self)
        ensures
            r.deep_view() == self.deep_view(),
    {
        let mut functions: Vec<Span<IR1Func>> = Vec::new();
        let mut i: usize = 0;
        while i < self.functions.len()
            invariant
                i <= self.functions.len(),
                functions.len() == i,
                forall|k: int|
                    0 <= k < i ==> (#[trigger] functions[k]).deep_view()
                        == self.functions[k].deep_view(),
            decreases self.functions.len() - i,
        {
            let f = &self.functions[i];
            functions.push(Span { span: f.span.clone(), t: f.t.clone() });
            i += 1;
        }
        assert(functions.deep_view() =~= self.functions.deep_view());
        IR1Module { functions }
    }
}

} // verus!
