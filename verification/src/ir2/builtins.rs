//! The functions that every program can call without declaring them.

use crate::ir2::model::{
    IR2FuncAttr, IR2FuncAttrView, IR2FuncDecl, IR2FuncDeclView, IR2IntType, IR2Type, IR2VarDecl,
    IR2VarDeclView,
};
use vstd::prelude::*;

verus! {

/// A parameter of the given name and integer kind.
pub open spec fn spec_int_param(name: Seq<char>, kind: IR2IntType) -> IR2VarDeclView {
    IR2VarDeclView { name, ty: IR2Type::Int(kind) }
}

/// The declaration of a builtin that takes two `i32`, `a` and `b`.
pub open spec fn spec_binary_builtin(name: Seq<char>, return_ty: IR2Type) -> IR2FuncDeclView {
    IR2FuncDeclView {
        attrs: Seq::empty(),
        name,
        return_ty,
        params: seq![
            spec_int_param("a"@, IR2IntType::I32),
            spec_int_param("b"@, IR2IntType::I32),
        ],
    }
}

/// The builtins: `add`, `sub` and `mul` from two `i32` to `i32`, `lt` from
/// two `i32` to `u8`, and `println`, which takes a `u32` and gives nothing.
pub open spec fn spec_default_builtins() -> Seq<IR2FuncDeclView> {
    seq![
        spec_binary_builtin("add"@, IR2Type::Int(IR2IntType::I32)),
        spec_binary_builtin("sub"@, IR2Type::Int(IR2IntType::I32)),
        spec_binary_builtin("mul"@, IR2Type::Int(IR2IntType::I32)),
        spec_binary_builtin("lt"@, IR2Type::Int(IR2IntType::U8)),
        IR2FuncDeclView {
            attrs: Seq::empty(),
            name: "println"@,
            return_ty: IR2Type::Void,
            params: seq![spec_int_param("a"@, IR2IntType::U32)],
        },
    ]
}

fn int_param(name: &str, kind: IR2IntType) -> (r: IR2VarDecl)
    ensures
        r.deep_view() == spec_int_param(name@, kind),
{
    IR2VarDecl { name: name.to_owned(), ty: IR2Type::Int(kind) }
}

fn binary_builtin(name: &str, return_ty: IR2Type) -> (r: IR2FuncDecl)
    ensures
        r.deep_view() == spec_binary_builtin(name@, return_ty),
{
    let mut params: Vec<IR2VarDecl> = Vec::new();
    params.push(int_param("a", IR2IntType::I32));
    params.push(int_param("b", IR2IntType::I32));
    let attrs: Vec<IR2FuncAttr> = Vec::new();
    let r = IR2FuncDecl { attrs, name: name.to_owned(), return_ty, params };
    proof {
        assert(r.deep_view().attrs =~= Seq::<IR2FuncAttrView>::empty());
        assert(r.deep_view().params =~= spec_binary_builtin(name@, return_ty).params);
    }
    r
}

/// The declarations of the builtins.
pub fn default_builtins() -> (r: Vec<IR2FuncDecl>)
    ensures
        r.deep_view() == spec_default_builtins(),
{
    let mut r: Vec<IR2FuncDecl> = Vec::new();
    r.push(binary_builtin("add", IR2Type::Int(IR2IntType::I32)));
    r.push(binary_builtin("sub", IR2Type::Int(IR2IntType::I32)));
    r.push(binary_builtin("mul", IR2Type::Int(IR2IntType::I32)));
    r.push(binary_builtin("lt", IR2Type::Int(IR2IntType::U8)));
    let mut params: Vec<IR2VarDecl> = Vec::new();
    params.push(int_param("a", IR2IntType::U32));
    let attrs: Vec<IR2FuncAttr> = Vec::new();
    let println = IR2FuncDecl {
        attrs,
        name: "println".to_owned(),
        return_ty: IR2Type::Void,
        params,
    };
    proof {
        assert(println.deep_view().attrs =~= Seq::<IR2FuncAttrView>::empty());
        assert(println.deep_view().params =~= seq![spec_int_param("a"@, IR2IntType::U32)]);
    }
    r.push(println);
    proof {
        assert(r.deep_view() =~= spec_default_builtins());
    }
    r
}

} // verus!
