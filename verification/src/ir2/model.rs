//! The resolved tree: every type is known, every variable carries its final
//! name, and every call is bound to one declaration.

use crate::common::span::{SpanPlace, SpanPlaceView};
use crate::common::text::{str_eq, ToText};
use rug::Integer;
use vstd::prelude::*;

verus! {

/// The integer kinds of the language.
#[derive(Debug, Clone, Copy, PartialEq, Eq, PartialOrd, Ord, Hash)]
pub enum IR2IntType {
    I8,
    I16,
    I32,
    I64,
    U8,
    U16,
    U32,
    U64,
    Bool,
}

/// The keyword that names an integer kind.
pub open spec fn int_type_name(t: IR2IntType) -> Seq<char> {
    match t {
        IR2IntType::I8 => seq!['i', '8'],
        IR2IntType::I16 => seq!['i', '1', '6'],
        IR2IntType::I32 => seq!['i', '3', '2'],
        IR2IntType::I64 => seq!['i', '6', '4'],
        IR2IntType::U8 => seq!['u', '8'],
        IR2IntType::U16 => seq!['u', '1', '6'],
        IR2IntType::U32 => seq!['u', '3', '2'],
        IR2IntType::U64 => seq!['u', '6', '4'],
        IR2IntType::Bool => seq!['b', 'o', 'o', 'l'],
    }
}

/// The integer kind that `s` names, if it names one.
pub open spec fn spec_parse_int_type(s: Seq<char>) -> Option<IR2IntType> {
    if s == int_type_name(IR2IntType::I8) {
        Some(IR2IntType::I8)
    } else if s == int_type_name(IR2IntType::I16) {
        Some(IR2IntType::I16)
    } else if s == int_type_name(IR2IntType::I32) {
        Some(IR2IntType::I32)
    } else if s == int_type_name(IR2IntType::I64) {
        Some(IR2IntType::I64)
    } else if s == int_type_name(IR2IntType::U8) {
        Some(IR2IntType::U8)
    } else if s == int_type_name(IR2IntType::U16) {
        Some(IR2IntType::U16)
    } else if s == int_type_name(IR2IntType::U32) {
        Some(IR2IntType::U32)
    } else if s == int_type_name(IR2IntType::U64) {
        Some(IR2IntType::U64)
    } else if s == int_type_name(IR2IntType::Bool) {
        Some(IR2IntType::Bool)
    } else {
        None
    }
}

/// Each keyword names the kind it was taken from.
pub proof fn lemma_int_type_name_parses(t: IR2IntType)
    ensures
        spec_parse_int_type(int_type_name(t)) == Some(t),
{
    assert(int_type_name(IR2IntType::I8).len() == 2);
    assert(int_type_name(IR2IntType::I16).len() == 3);
    assert(int_type_name(IR2IntType::I32).len() == 3);
    assert(int_type_name(IR2IntType::I64).len() == 3);
    assert(int_type_name(IR2IntType::U8).len() == 2);
    assert(int_type_name(IR2IntType::U16).len() == 3);
    assert(int_type_name(IR2IntType::U32).len() == 3);
    assert(int_type_name(IR2IntType::U64).len() == 3);
    assert(int_type_name(IR2IntType::Bool).len() == 4);
    assert(int_type_name(IR2IntType::I8)[0] == 'i');
    assert(int_type_name(IR2IntType::U8)[0] == 'u');
    assert(int_type_name(IR2IntType::I16)[0] == 'i' && int_type_name(IR2IntType::I16)[1] == '1');
    assert(int_type_name(IR2IntType::I32)[0] == 'i' && int_type_name(IR2IntType::I32)[1] == '3');
    assert(int_type_name(IR2IntType::I64)[0] == 'i' && int_type_name(IR2IntType::I64)[1] == '6');
    assert(int_type_name(IR2IntType::U16)[0] == 'u' && int_type_name(IR2IntType::U16)[1] == '1');
    assert(int_type_name(IR2IntType::U32)[0] == 'u' && int_type_name(IR2IntType::U32)[1] == '3');
    assert(int_type_name(IR2IntType::U64)[0] == 'u' && int_type_name(IR2IntType::U64)[1] == '6');
}

impl IR2IntType {
    /// The kind that the keyword `s` names; `None` where `s` is no keyword.
    pub fn parse(s: &str) -> (r: Option<IR2IntType>)
        ensures
            r == spec_parse_int_type(s@),
    {
        proof {
            reveal_strlit("i8");
            reveal_strlit("i16");
            reveal_strlit("i32");
            reveal_strlit("i64");
            reveal_strlit("u8");
            reveal_strlit("u16");
            reveal_strlit("u32");
            reveal_strlit("u64");
            reveal_strlit("bool");
            assert("i8"@ =~= int_type_name(IR2IntType::I8));
            assert("i16"@ =~= int_type_name(IR2IntType::I16));
            assert("i32"@ =~= int_type_name(IR2IntType::I32));
            assert("i64"@ =~= int_type_name(IR2IntType::I64));
            assert("u8"@ =~= int_type_name(IR2IntType::U8));
            assert("u16"@ =~= int_type_name(IR2IntType::U16));
            assert("u32"@ =~= int_type_name(IR2IntType::U32));
            assert("u64"@ =~= int_type_name(IR2IntType::U64));
            assert("bool"@ =~= int_type_name(IR2IntType::Bool));
        }
        if str_eq(s, "i8") {
            Some(IR2IntType::I8)
        } else if str_eq(s, "i16") {
            Some(IR2IntType::I16)
        } else if str_eq(s, "i32") {
            Some(IR2IntType::I32)
        } else if str_eq(s, "i64") {
            Some(IR2IntType::I64)
        } else if str_eq(s, "u8") {
            Some(IR2IntType::U8)
        } else if str_eq(s, "u16") {
            Some(IR2IntType::U16)
        } else if str_eq(s, "u32") {
            Some(IR2IntType::U32)
        } else if str_eq(s, "u64") {
            Some(IR2IntType::U64)
        } else if str_eq(s, "bool") {
            Some(IR2IntType::Bool)
        } else {
            None
        }
    }

    fn name(&self) -> (r: &'static str)
        ensures
            r@ == int_type_name(*self),
    {
        proof {
            reveal_strlit("i8");
            reveal_strlit("i16");
            reveal_strlit("i32");
            reveal_strlit("i64");
            reveal_strlit("u8");
            reveal_strlit("u16");
            reveal_strlit("u32");
            reveal_strlit("u64");
            reveal_strlit("bool");
        }
        let r = match self {
            IR2IntType::I8 => "i8",
            IR2IntType::I16 => "i16",
            IR2IntType::I32 => "i32",
            IR2IntType::I64 => "i64",
            IR2IntType::U8 => "u8",
            IR2IntType::U16 => "u16",
            IR2IntType::U32 => "u32",
            IR2IntType::U64 => "u64",
            IR2IntType::Bool => "bool",
        };
        assert(r@ =~= int_type_name(*self));
        r
    }
}

impl ToText for IR2IntType {
    open spec fn text(&self) -> Seq<char> {
        int_type_name(*self)
    }

    fn to_text(&self) -> (s: String) {
        self.name().to_owned()
    }
}

/// A type of the language: nothing, an integer kind, or a pointer to a type.
/// Two types are the same only if they are built the same way.
#[derive(Debug, PartialEq, Eq, PartialOrd, Ord, Hash)]
pub enum IR2Type {
    Void,
    Int(IR2IntType),
    Ptr(Box<IR2Type>),
}

impl DeepView for IR2IntType {
    type V = IR2IntType;

    open spec fn deep_view(&self) -> IR2IntType {
        *self
    }
}

impl DeepView for IR2Type {
    type V = IR2Type;

    open spec fn deep_view(&self) -> IR2Type {
        *self
    }
}

/// How a type is written: `void`, an integer keyword, or `*` before the
/// type pointed to.
pub open spec fn spec_type_text(t: IR2Type) -> Seq<char>
    decreases t,
{
    match t {
        IR2Type::Void => seq!['v', 'o', 'i', 'd'],
        IR2Type::Int(i) => int_type_name(i),
        IR2Type::Ptr(inner) => seq!['*'] + spec_type_text(*inner),
    }
}

impl Clone for IR2Type {
    fn clone(&self) -> (r: Self)
        ensures
            r == *self,
        decreases *self,
    {
        match self {
            IR2Type::Void => IR2Type::Void,
            IR2Type::Int(i) => IR2Type::Int(*i),
            IR2Type::Ptr(inner) => IR2Type::Ptr(Box::new((&**inner).clone())),
        }
    }
}

impl IR2Type {
    /// Whether the two types are the same type.
    pub fn same(&self, other: &IR2Type) -> (r: bool)
        ensures
            r == (*self == *other),
        decreases *self,
    {
        match (self, other) {
            (IR2Type::Void, IR2Type::Void) => true,
            (IR2Type::Int(a), IR2Type::Int(b)) => a.index() == b.index(),
            (IR2Type::Ptr(a), IR2Type::Ptr(b)) => (&**a).same(&**b),
            _ => false,
        }
    }

    /// Whether the type is an integer kind.
    pub fn is_int(&self) -> (r: bool)
        ensures
            r == (*self is Int),
    {
        match self {
            IR2Type::Int(_) => true,
            _ => false,
        }
    }
}

impl IR2IntType {
    /// The position of the kind in the list of kinds.
    pub open spec fn spec_index(self) -> u8 {
        match self {
            IR2IntType::I8 => 0,
            IR2IntType::I16 => 1,
            IR2IntType::I32 => 2,
            IR2IntType::I64 => 3,
            IR2IntType::U8 => 4,
            IR2IntType::U16 => 5,
            IR2IntType::U32 => 6,
            IR2IntType::U64 => 7,
            IR2IntType::Bool => 8,
        }
    }

    /// The position of the kind in the list of kinds; two kinds with the
    /// same position are the same kind.
    pub fn index(&self) -> (r: u8)
        ensures
            r == self.spec_index(),
    {
        match self {
            IR2IntType::I8 => 0,
            IR2IntType::I16 => 1,
            IR2IntType::I32 => 2,
            IR2IntType::I64 => 3,
            IR2IntType::U8 => 4,
            IR2IntType::U16 => 5,
            IR2IntType::U32 => 6,
            IR2IntType::U64 => 7,
            IR2IntType::Bool => 8,
        }
    }
}

impl ToText for IR2Type {
    open spec fn text(&self) -> Seq<char> {
        spec_type_text(*self)
    }

    fn to_text(&self) -> (s: String)
        decreases *self,
    {
        match self {
            IR2Type::Void => {
                proof {
                    reveal_strlit("void");
                    assert("void"@ =~= seq!['v', 'o', 'i', 'd']);
                }
                "void".to_owned()
            },
            IR2Type::Int(i) => i.to_text(),
            IR2Type::Ptr(inner) => {
                proof {
                    reveal_strlit("*");
                    assert("*"@ =~= seq!['*']);
                }
                let mut s = "*".to_owned();
                let rest = (&**inner).to_text();
                s.append(rest.as_str());
                s
            },
        }
    }
}

/// A variable after resolution: its final name and its type.
#[derive(Debug, PartialEq, Eq, PartialOrd, Ord, Hash)]
pub struct IR2VarDecl {
    pub name: String,
    pub ty: IR2Type,
}

/// What an `IR2VarDecl` holds.
pub struct IR2VarDeclView {
    pub name: Seq<char>,
    pub ty: IR2Type,
}

impl DeepView for IR2VarDecl {
    type V = IR2VarDeclView;

    open spec fn deep_view(&self) -> IR2VarDeclView {
        IR2VarDeclView { name: self.name@, ty: self.ty }
    }
}

impl Clone for IR2VarDecl {
    fn clone(&self) -> (r: Self)
        ensures
            r.deep_view() == self.deep_view(),
    {
        IR2VarDecl { name: self.name.clone(), ty: self.ty.clone() }
    }
}

/// A tag on a function declaration.
#[derive(Debug, PartialEq, Eq, PartialOrd, Ord, Hash)]
pub enum IR2FuncAttr {
    BuiltinFunction(String),
}

/// What an `IR2FuncAttr` holds.
pub enum IR2FuncAttrView {
    BuiltinFunction(Seq<char>),
}

impl DeepView for IR2FuncAttr {
    type V = IR2FuncAttrView;

    open spec fn deep_view(&self) -> IR2FuncAttrView {
        match self {
            IR2FuncAttr::BuiltinFunction(s) => IR2FuncAttrView::BuiltinFunction(s@),
        }
    }
}

impl Clone for IR2FuncAttr {
    fn clone(&self) -> (r: Self)
        ensures
            r.deep_view() == self.deep_view(),
    {
        match self {
            IR2FuncAttr::BuiltinFunction(s) => IR2FuncAttr::BuiltinFunction(s.clone()),
        }
    }
}

/// The signature of a function: its tags, its name, what it returns and
/// what it takes, in order.
#[derive(Debug, PartialEq, Eq, PartialOrd, Ord, Hash)]
pub struct IR2FuncDecl {
    pub attrs: Vec<IR2FuncAttr>,
    pub name: String,
    pub return_ty: IR2Type,
    pub params: Vec<IR2VarDecl>,
}

/// What an `IR2FuncDecl` holds.
pub struct IR2FuncDeclView {
    pub attrs: Seq<IR2FuncAttrView>,
    pub name: Seq<char>,
    pub return_ty: IR2Type,
    pub params: Seq<IR2VarDeclView>,
}

impl DeepView for IR2FuncDecl {
    type V = IR2FuncDeclView;

    open spec fn deep_view(&self) -> IR2FuncDeclView {
        IR2FuncDeclView {
            attrs: self.attrs.deep_view(),
            name: self.name@,
            return_ty: self.return_ty,
            params: self.params.deep_view(),
        }
    }
}

/// Copies a list of variables.
pub fn clone_var_decls(v: &Vec<IR2VarDecl>) -> (r: Vec<IR2VarDecl>)
    ensures
        r.deep_view() == v.deep_view(),
{
    let mut r: Vec<IR2VarDecl> = Vec::new();
    let mut i: usize = 0;
    while i < v.len()
        invariant
            i <= v.len(),
            r.len() == i,
            forall|j: int| 0 <= j < i ==> r[j].deep_view() == v[j].deep_view(),
        decreases v.len() - i,
    {
        r.push(v[i].clone());
        i += 1;
    }
    assert(r.deep_view() =~= v.deep_view());
    r
}

impl Clone for IR2FuncDecl {
    fn clone(&self) -> (r: Self)
        ensures
            r.deep_view() == self.deep_view(),
    {
        let mut attrs: Vec<IR2FuncAttr> = Vec::new();
        let mut i: usize = 0;
        while i < self.attrs.len()
            invariant
                i <= self.attrs.len(),
                attrs.len() == i,
                forall|j: int| 0 <= j < i ==> attrs[j].deep_view() == self.attrs[j].deep_view(),
            decreases self.attrs.len() - i,
        {
            attrs.push(self.attrs[i].clone());
            i += 1;
        }
        assert(attrs.deep_view() =~= self.attrs.deep_view());
        IR2FuncDecl {
            attrs,
            name: self.name.clone(),
            return_ty: self.return_ty.clone(),
            params: clone_var_decls(&self.params),
        }
    }
}

/// ` (name type)` for each parameter from index `from` on, in order.
pub open spec fn spec_params_text(params: Seq<IR2VarDeclView>, upto: nat) -> Seq<char>
    decreases upto,
{
    if upto == 0 || upto > params.len() {
        Seq::empty()
    } else {
        let p = params[upto - 1];
        spec_params_text(params, (upto - 1) as nat) + seq![' ', '('] + p.name + seq![' ']
            + spec_type_text(p.ty) + seq![')']
    }
}

/// How a declaration is written: `(name (param type)... returntype)`.
pub open spec fn spec_func_decl_text(d: IR2FuncDeclView) -> Seq<char> {
    seq!['('] + d.name + spec_params_text(d.params, d.params.len()) + seq![' '] + spec_type_text(
        d.return_ty,
    ) + seq![')']
}

impl ToText for IR2FuncDecl {
    open spec fn text(&self) -> Seq<char> {
        spec_func_decl_text(self.deep_view())
    }

    fn to_text(&self) -> (s: String) {
        proof {
            reveal_strlit("(");
            reveal_strlit(" (");
            reveal_strlit(" ");
            reveal_strlit(")");
            assert("("@ =~= seq!['(']);
            assert(" ("@ =~= seq![' ', '(']);
            assert(" "@ =~= seq![' ']);
            assert(")"@ =~= seq![')']);
        }
        let mut s = "(".to_owned();
        s.append(self.name.as_str());
        let mut i: usize = 0;
        while i < self.params.len()
            invariant
                i <= self.params.len(),
                " ("@ == seq![' ', '('],
                " "@ == seq![' '],
                ")"@ == seq![')'],
                s@ == seq!['('] + self.name@ + spec_params_text(
                    self.params.deep_view(),
                    i as nat,
                ),
            decreases self.params.len() - i,
        {
            let ghost before = s@;
            let p = &self.params[i];
            s.append(" (");
            s.append(p.name.as_str());
            s.append(" ");
            s.append(p.ty.to_text().as_str());
            s.append(")");
            proof {
                let params = self.params.deep_view();
                assert(params[i as int] == p.deep_view());
                assert(s@ =~= before + seq![' ', '('] + p.name@ + seq![' '] + spec_type_text(p.ty)
                    + seq![')']);
                assert(s@ =~= seq!['('] + self.name@ + spec_params_text(params, (i + 1) as nat));
            }
            i += 1;
        }
        s.append(" ");
        s.append(self.return_ty.to_text().as_str());
        s.append(")");
        s
    }
}

#[verifier::external_type_specification]
#[verifier::external_body]
pub struct ExInteger(rug::Integer);

/// The number that an integer of `rug` holds.
pub uninterp spec fn integer_value(x: Integer) -> int;

/// `Integer::from` of `rug` for an `i64`: the integer that holds `x`.
#[verifier::external_body]
pub(crate) fn integer_from_i64(x: i64) -> (r: Integer)
    ensures
        integer_value(r) == x,
{
    Integer::from(x)
}

/// `Integer::from` of `rug` for a `u64`: the integer that holds `x`.
#[verifier::external_body]
pub(crate) fn integer_from_u64(x: u64) -> (r: Integer)
    ensures
        integer_value(r) == x,
{
    Integer::from(x)
}

/// `Integer::clone` of `rug`: an integer that holds the same number.
#[verifier::external_body]
pub(crate) fn integer_clone(x: &Integer) -> (r: Integer)
    ensures
        integer_value(r) == integer_value(*x),
{
    x.clone()
}

/// An expression after resolution.
#[derive(Debug, PartialEq, Eq, PartialOrd, Ord, Hash)]
pub enum IR2Expr {
    /// An integer constant, of any size.
    Const(Integer),
    /// The variable read.
    Var(IR2VarDecl),
    /// A call, bound to its declaration.
    FuncCall(IR2FuncCall),
}

/// A call with the one declaration it resolves to.
#[derive(Debug, PartialEq, Eq, PartialOrd, Ord, Hash)]
pub struct IR2FuncCall {
    pub decl: IR2FuncDecl,
    pub args: Vec<IR2Expr>,
}

/// What an `IR2Expr` holds.
pub enum IR2ExprView {
    Const(int),
    Var(IR2VarDeclView),
    FuncCall(IR2FuncCallView),
}

/// What an `IR2FuncCall` holds.
pub struct IR2FuncCallView {
    pub decl: IR2FuncDeclView,
    pub args: Seq<IR2ExprView>,
}

pub open spec fn ir2_expr_view(e: IR2Expr) -> IR2ExprView
    decreases e,
{
    match e {
        IR2Expr::Const(c) => IR2ExprView::Const(integer_value(c)),
        IR2Expr::Var(v) => IR2ExprView::Var(v.deep_view()),
        IR2Expr::FuncCall(f) => IR2ExprView::FuncCall(ir2_call_view(f)),
    }
}

pub open spec fn ir2_call_view(f: IR2FuncCall) -> IR2FuncCallView
    decreases f,
{
    IR2FuncCallView {
        decl: f.decl.deep_view(),
        args: Seq::new(
            f.args@.len(),
            |i: int|
                if 0 <= i < f.args@.len() {
                    ir2_expr_view(f.args@[i])
                } else {
                    arbitrary()
                },
        ),
    }
}

impl DeepView for IR2Expr {
    type V = IR2ExprView;

    open spec fn deep_view(&self) -> IR2ExprView {
        ir2_expr_view(*self)
    }
}

impl DeepView for IR2FuncCall {
    type V = IR2FuncCallView;

    open spec fn deep_view(&self) -> IR2FuncCallView {
        ir2_call_view(*self)
    }
}

/// A statement after resolution.
#[derive(Debug, PartialEq, Eq, PartialOrd, Ord, Hash)]
pub enum IR2Stmt {
    SetVar(IR2SetStmt),
    If(IR2IfStmt),
    While(IR2WhileStmt),
    Break(SpanPlace),
}

/// An assignment. Without a variable the value is computed and dropped.
#[derive(Debug, PartialEq, Eq, PartialOrd, Ord, Hash)]
pub struct IR2SetStmt {
    pub span: SpanPlace,
    pub var: Option<IR2VarDecl>,
    pub value: IR2Expr,
}

#[derive(Debug, PartialEq, Eq, PartialOrd, Ord, Hash)]
pub struct IR2IfStmt {
    pub span: SpanPlace,
    pub expr: IR2Expr,
    pub scope1: IR2Scope,
    pub scope2: Option<IR2Scope>,
}

#[derive(Debug, PartialEq, Eq, PartialOrd, Ord, Hash)]
pub struct IR2WhileStmt {
    pub span: SpanPlace,
    pub expr: IR2Expr,
    pub scope: IR2Scope,
}

/// A block: the variables declared in it and its statements.
#[derive(Debug, PartialEq, Eq, PartialOrd, Ord, Hash)]
pub struct IR2Scope {
    pub vars: Vec<IR2VarDecl>,
    pub stmt_list: Vec<IR2Stmt>,
}

/// What an `IR2Stmt` holds.
pub enum IR2StmtView {
    SetVar(IR2SetStmtView),
    If(IR2IfStmtView),
    While(IR2WhileStmtView),
    Break(SpanPlaceView),
}

/// What an `IR2SetStmt` holds.
pub struct IR2SetStmtView {
    pub span: SpanPlaceView,
    pub var: Option<IR2VarDeclView>,
    pub value: IR2ExprView,
}

/// What an `IR2IfStmt` holds.
pub struct IR2IfStmtView {
    pub span: SpanPlaceView,
    pub expr: IR2ExprView,
    pub scope1: IR2ScopeView,
    pub scope2: Option<IR2ScopeView>,
}

/// What an `IR2WhileStmt` holds.
pub struct IR2WhileStmtView {
    pub span: SpanPlaceView,
    pub expr: IR2ExprView,
    pub scope: IR2ScopeView,
}

/// What an `IR2Scope` holds.
pub struct IR2ScopeView {
    pub vars: Seq<IR2VarDeclView>,
    pub stmt_list: Seq<IR2StmtView>,
}

impl DeepView for IR2SetStmt {
    type V = IR2SetStmtView;

    open spec fn deep_view(&self) -> IR2SetStmtView {
        IR2SetStmtView {
            span: self.span.deep_view(),
            var: self.var.deep_view(),
            value: self.value.deep_view(),
        }
    }
}

pub open spec fn ir2_stmt_view(s: IR2Stmt) -> IR2StmtView
    decreases s,
{
    match s {
        IR2Stmt::SetVar(x) => IR2StmtView::SetVar(x.deep_view()),
        IR2Stmt::If(x) => IR2StmtView::If(
            IR2IfStmtView {
                span: x.span.deep_view(),
                expr: x.expr.deep_view(),
                scope1: ir2_scope_view(x.scope1),
                scope2: match x.scope2 {
                    Some(s2) => Some(ir2_scope_view(s2)),
                    None => None,
                },
            },
        ),
        IR2Stmt::While(x) => IR2StmtView::While(
            IR2WhileStmtView {
                span: x.span.deep_view(),
                expr: x.expr.deep_view(),
                scope: ir2_scope_view(x.scope),
            },
        ),
        IR2Stmt::Break(p) => IR2StmtView::Break(p.deep_view()),
    }
}

pub open spec fn ir2_scope_view(s: IR2Scope) -> IR2ScopeView
    decreases s,
{
    IR2ScopeView {
        vars: s.vars.deep_view(),
        stmt_list: Seq::new(
            s.stmt_list@.len(),
            |i: int|
                if 0 <= i < s.stmt_list@.len() {
                    ir2_stmt_view(s.stmt_list@[i])
                } else {
                    arbitrary()
                },
        ),
    }
}

impl DeepView for IR2Stmt {
    type V = IR2StmtView;

    open spec fn deep_view(&self) -> IR2StmtView {
        ir2_stmt_view(*self)
    }
}

impl DeepView for IR2Scope {
    type V = IR2ScopeView;

    open spec fn deep_view(&self) -> IR2ScopeView {
        ir2_scope_view(*self)
    }
}

impl DeepView for IR2IfStmt {
    type V = IR2IfStmtView;

    open spec fn deep_view(&self) -> IR2IfStmtView {
        IR2IfStmtView {
            span: self.span.deep_view(),
            expr: self.expr.deep_view(),
            scope1: self.scope1.deep_view(),
            scope2: self.scope2.deep_view(),
        }
    }
}

impl DeepView for IR2WhileStmt {
    type V = IR2WhileStmtView;

    open spec fn deep_view(&self) -> IR2WhileStmtView {
        IR2WhileStmtView {
            span: self.span.deep_view(),
            expr: self.expr.deep_view(),
            scope: self.scope.deep_view(),
        }
    }
}

/// A function after resolution: where it stands, its signature and its body.
#[derive(Debug, PartialEq, Eq, PartialOrd, Ord, Hash)]
pub struct IR2Func {
    pub span: SpanPlace,
    pub decl: IR2FuncDecl,
    pub scope: IR2Scope,
}

/// What an `IR2Func` holds.
pub struct IR2FuncView {
    pub span: SpanPlaceView,
    pub decl: IR2FuncDeclView,
    pub scope: IR2ScopeView,
}

impl DeepView for IR2Func {
    type V = IR2FuncView;

    open spec fn deep_view(&self) -> IR2FuncView {
        IR2FuncView {
            span: self.span.deep_view(),
            decl: self.decl.deep_view(),
            scope: self.scope.deep_view(),
        }
    }
}

/// A resolved program: its functions, in source order.
#[derive(Debug, PartialEq, Eq, PartialOrd, Ord, Hash)]
pub struct IR2Program {
    pub funcs: Vec<IR2Func>,
}

/// What an `IR2Program` holds.
pub struct IR2ProgramView {
    pub funcs: Seq<IR2FuncView>,
}

impl DeepView for IR2Program {
    type V = IR2ProgramView;

    open spec fn deep_view(&self) -> IR2ProgramView {
        IR2ProgramView { funcs: self.funcs.deep_view() }
    }
}

fn clone_expr(e: &IR2Expr) -> (r: IR2Expr)
    ensures
        r.deep_view() == e.deep_view(),
    decreases e,
{
    match e {
        IR2Expr::Const(c) => IR2Expr::Const(integer_clone(c)),
        IR2Expr::Var(v) => IR2Expr::Var(v.clone()),
        IR2Expr::FuncCall(f) => IR2Expr::FuncCall(clone_call(f)),
    }
}

fn clone_call(f: &IR2FuncCall) -> (r: IR2FuncCall)
    ensures
        r.deep_view() == f.deep_view(),
    decreases f,
{
    let mut args: Vec<IR2Expr> = Vec::new();
    let mut i: usize = 0;
    while i < f.args.len()
        invariant
            i <= f.args.len(),
            args.len() == i,
            forall|k: int| 0 <= k < i ==> (#[trigger] args[k]).deep_view() == f.args[k].deep_view(),
        decreases f.args.len() - i,
    {
        args.push(clone_expr(&f.args[i]));
        i += 1;
    }
    let r = IR2FuncCall { decl: f.decl.clone(), args };
    assert(r.deep_view().args =~= f.deep_view().args);
    r
}

impl Clone for IR2Expr {
    fn clone(&self) -> (r: Self)
        ensures
            r.deep_view() == self.deep_view(),
    {
        clone_expr(self)
    }
}

impl Clone for IR2FuncCall {
    fn clone(&self) -> (r: Self)
        ensures
            r.deep_view() == self.deep_view(),
    {
        clone_call(self)
    }
}

fn clone_var(v: &Option<IR2VarDecl>) -> (r: Option<IR2VarDecl>)
    ensures
        r.deep_view() == v.deep_view(),
{
    match v {
        Some(d) => Some(d.clone()),
        None => None,
    }
}

fn clone_stmt(s: &IR2Stmt) -> (r: IR2Stmt)
    ensures
        r.deep_view() == s.deep_view(),
    decreases s,
{
    match s {
        IR2Stmt::SetVar(x) => IR2Stmt::SetVar(
            IR2SetStmt { span: x.span.clone(), var: clone_var(&x.var), value: clone_expr(&x.value) },
        ),
        IR2Stmt::If(x) => IR2Stmt::If(
            IR2IfStmt {
                span: x.span.clone(),
                expr: clone_expr(&x.expr),
                scope1: clone_scope(&x.scope1),
                scope2: match &x.scope2 {
                    Some(s2) => Some(clone_scope(s2)),
                    None => None,
                },
            },
        ),
        IR2Stmt::While(x) => IR2Stmt::While(
            IR2WhileStmt {
                span: x.span.clone(),
                expr: clone_expr(&x.expr),
                scope: clone_scope(&x.scope),
            },
        ),
        IR2Stmt::Break(p) => IR2Stmt::Break(p.clone()),
    }
}

fn clone_scope(s: &IR2Scope) -> (r: IR2Scope)
    ensures
        r.deep_view() == s.deep_view(),
    decreases s,
{
    let mut stmt_list: Vec<IR2Stmt> = Vec::new();
    let mut i: usize = 0;
    while i < s.stmt_list.len()
        invariant
            i <= s.stmt_list.len(),
            stmt_list.len() == i,
            forall|k: int|
                0 <= k < i ==> (#[trigger] stmt_list[k]).deep_view() == s.stmt_list[k].deep_view(),
        decreases s.stmt_list.len() - i,
    {
        stmt_list.push(clone_stmt(&s.stmt_list[i]));
        i += 1;
    }
    let r = IR2Scope { vars: clone_var_decls(&s.vars), stmt_list };
    assert(r.deep_view().stmt_list =~= s.deep_view().stmt_list);
    r
}

impl Clone for IR2Stmt {
    fn clone(&self) -> (r: Self)
        ensures
            r.deep_view() == self.deep_view(),
    {
        clone_stmt(self)
    }
}

impl Clone for IR2Scope {
    fn clone(&self) -> (r: Self)
        ensures
            r.deep_view() == self.deep_view(),
    {
        clone_scope(self)
    }
}

impl Clone for IR2SetStmt {
    fn clone(&self) -> (r: Self)
        ensures
            r.deep_view() == self.deep_view(),
    {
        IR2SetStmt {
            span: self.span.clone(),
            var: clone_var(&self.var),
            value: clone_expr(&self.value),
        }
    }
}

impl Clone for IR2IfStmt {
    fn clone(&self) -> (r: Self)
        ensures
            r.deep_view() == self.deep_view(),
    {
        IR2IfStmt {
            span: self.span.clone(),
            expr: clone_expr(&self.expr),
            scope1: clone_scope(&self.scope1),
            scope2: match &self.scope2 {
                Some(s2) => Some(clone_scope(s2)),
                None => None,
            },
        }
    }
}

impl Clone for IR2WhileStmt {
    fn clone(&self) -> (r: Self)
        ensures
            r.deep_view() == self.deep_view(),
    {
        IR2WhileStmt {
            span: self.span.clone(),
            expr: clone_expr(&self.expr),
            scope: clone_scope(&self.scope),
        }
    }
}

impl Clone for IR2Func {
    fn clone(&self) -> (r: Self)
        ensures
            r.deep_view() == self.deep_view(),
    {
        IR2Func { span: self.span.clone(), decl: self.decl.clone(), scope: clone_scope(&self.scope) }
    }
}

impl Clone for IR2Program {
    fn clone(&self) -> (r: Self)
        ensures
            r.deep_view() == self.deep_view(),
    {
        let mut funcs: Vec<IR2Func> = Vec::new();
        let mut i: usize = 0;
        while i < self.funcs.len()
            invariant
                i <= self.funcs.len(),
                funcs.len() == i,
                forall|k: int|
                    0 <= k < i ==> (#[trigger] funcs[k]).deep_view() == self.funcs[k].deep_view(),
            decreases self.funcs.len() - i,
        {
            funcs.push(self.funcs[i].clone());
            i += 1;
        }
        assert(funcs.deep_view() =~= self.funcs.deep_view());
        IR2Program { funcs }
    }
}

} // verus!
