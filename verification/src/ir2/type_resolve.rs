//! What is known of an argument's type at a call, and which declarations a
//! call's arguments fit.

use crate::ir2::model::{IR2Expr, IR2ExprView, IR2FuncDecl, IR2FuncDeclView, IR2Type};
use vstd::prelude::*;

verus! {

/// What is known of the type of a value: an integer constant has no width
/// yet, anything else has its type.
#[derive(Debug, PartialEq, Eq)]
pub enum ResolveType {
    IntConstant,
    Type(IR2Type),
}

impl DeepView for ResolveType {
    type V = ResolveType;

    open spec fn deep_view(&self) -> ResolveType {
        *self
    }
}

/// An integer constant fits a parameter of any integer kind; a typed value
/// fits only a parameter of that very type.
pub open spec fn spec_arg_matches(param: IR2Type, arg: ResolveType) -> bool {
    match arg {
        ResolveType::IntConstant => param is Int,
        ResolveType::Type(ty) => param == ty,
    }
}

/// A declaration fits a call when it takes as many parameters as the call
/// has arguments and each argument fits the parameter at its position.
pub open spec fn spec_function_matches(decl: IR2FuncDeclView, args: Seq<ResolveType>) -> bool {
    &&& decl.params.len() == args.len()
    &&& forall|i: int| 0 <= i < args.len() ==> spec_arg_matches(#[trigger] decl.params[i].ty, args[i])
}

/// An integer constant gives `IntConstant`; a variable gives its type; a
/// call gives what its declaration returns.
pub open spec fn spec_infer_expr_type(e: IR2ExprView) -> ResolveType {
    match e {
        IR2ExprView::Const(_) => ResolveType::IntConstant,
        IR2ExprView::Var(v) => ResolveType::Type(v.ty),
        IR2ExprView::FuncCall(f) => ResolveType::Type(f.decl.return_ty),
    }
}

/// Whether `arg` fits a parameter of type `param`.
pub fn arg_matches(param: &IR2Type, arg: &ResolveType) -> (r: bool)
    ensures
        r == spec_arg_matches(*param, *arg),
{
    match arg {
        ResolveType::IntConstant => param.is_int(),
        ResolveType::Type(ty) => param.same(ty),
    }
}

/// Whether the declaration fits a call with arguments of these types.
pub fn function_matches(funcs: &IR2FuncDecl, arg_types: &[ResolveType]) -> (r: bool)
    ensures
        r == spec_function_matches(funcs.deep_view(), arg_types@),
{
    if funcs.params.len() != arg_types.len() {
        return false;
    }
    let mut i: usize = 0;
    while i < arg_types.len()
        invariant
            i <= arg_types.len(),
            funcs.params.len() == arg_types.len(),
            forall|j: int|
                0 <= j < i ==> spec_arg_matches(
                    #[trigger] funcs.deep_view().params[j].ty,
                    arg_types@[j],
                ),
        decreases arg_types.len() - i,
    {
        if !arg_matches(&funcs.params[i].ty, &arg_types[i]) {
            assert(funcs.deep_view().params[i as int].ty == funcs.params[i as int].ty);
            return false;
        }
        assert(funcs.deep_view().params[i as int].ty == funcs.params[i as int].ty);
        i += 1;
    }
    true
}

/// What is known of the type of `expr`.
pub fn infer_expr_type(expr: &IR2Expr) -> (r: ResolveType)
    ensures
        r == spec_infer_expr_type(expr.deep_view()),
{
    match expr {
        IR2Expr::Const(_) => ResolveType::IntConstant,
        IR2Expr::Var(var) => ResolveType::Type(var.ty.clone()),
        IR2Expr::FuncCall(func) => ResolveType::Type(func.decl.return_ty.clone()),
    }
}

} // verus!
