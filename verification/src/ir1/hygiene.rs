//! Why renaming keeps names apart: at every place of a function that
//! resolution reaches, the variables in scope have names that differ from
//! one another.

use crate::common::span::SpanView;
use crate::ir1::model::{IR1FuncView, IR1StmtView};
use crate::ir1::scope::{
    lemma_define_distinct, spec_decls, spec_define, spec_distinct_names, BindingView,
};
use crate::ir1::to_ir2::{
    spec_define_params, spec_run_block, spec_signature, spec_transform_func,
    spec_transform_func_decl, spec_transform_stmt, spec_transform_stmt_list, spec_transform_type,
    BlockState,
};
use crate::ir2::model::{IR2FuncDeclView, IR2VarDeclView};
use vstd::prelude::*;

verus! {

/// No two of the variables have the same name.
pub open spec fn spec_distinct_decls(vars: Seq<IR2VarDeclView>) -> bool {
    forall|i: int, j: int|
        0 <= i < j < vars.len() ==> (#[trigger] vars[i]).name != (#[trigger] vars[j]).name
}

/// Whether the variables in scope have names that differ from one another
/// at every place inside a statement, where `bs` is in scope at the
/// statement.
pub open spec fn spec_stmt_hygienic(
    s: SpanView<IR1StmtView>,
    funcs: Seq<IR2FuncDeclView>,
    bs: Seq<BindingView>,
) -> bool
    decreases s, 0nat, 0nat,
{
    match s.t {
        IR1StmtView::If(x) => spec_block_hygienic(x.body1, funcs, bs) && (match x.body2 {
            Some(b) => spec_block_hygienic(b, funcs, bs),
            None => true,
        }),
        IR1StmtView::While(x) => spec_block_hygienic(x.body, funcs, bs),
        _ => true,
    }
}

/// Whether the variables in scope after the first `n` statements of a
/// block have names that differ from one another, there and at every place
/// inside the statement that follows. It holds where those statements do
/// not resolve.
pub open spec fn spec_point_hygienic(
    list: SpanView<Seq<SpanView<IR1StmtView>>>,
    n: nat,
    funcs: Seq<IR2FuncDeclView>,
    outer: Seq<BindingView>,
) -> bool
    decreases list, 0nat, 0nat,
{
    match spec_run_block(list.t, n, funcs, outer) {
        Ok(st) => {
            &&& spec_distinct_names(outer + st.own)
            &&& if n < list.t.len() {
                spec_stmt_hygienic(list.t[n as int], funcs, outer + st.own)
            } else {
                true
            }
        },
        Err(_) => true,
    }
}

/// Whether `spec_point_hygienic` holds after none, one, and so on up to
/// `upto` of the statements of a block.
pub open spec fn spec_points_hygienic(
    list: SpanView<Seq<SpanView<IR1StmtView>>>,
    upto: nat,
    funcs: Seq<IR2FuncDeclView>,
    outer: Seq<BindingView>,
) -> bool
    decreases list, 1nat, upto,
{
    if upto > list.t.len() {
        true
    } else if upto == 0 {
        spec_point_hygienic(list, 0, funcs, outer)
    } else {
        spec_points_hygienic(list, (upto - 1) as nat, funcs, outer) && spec_point_hygienic(
            list,
            upto,
            funcs,
            outer,
        )
    }
}

/// Whether the variables in scope have names that differ from one another
/// at every place of a block that resolution reaches, where `outer` is in
/// scope around the block: before its first statement, between any two
/// statements, after the last, and inside each.
pub open spec fn spec_block_hygienic(
    list: SpanView<Seq<SpanView<IR1StmtView>>>,
    funcs: Seq<IR2FuncDeclView>,
    outer: Seq<BindingView>,
) -> bool
    decreases list, 2nat, 0nat,
{
    spec_points_hygienic(list, list.t.len(), funcs, outer)
}

/// Whether the variables in scope have names that differ from one another
/// at every place of a function that resolution reaches: among its
/// parameters and throughout its body.
pub open spec fn spec_func_hygienic(f: SpanView<IR1FuncView>, funcs: Seq<IR2FuncDeclView>) -> bool {
    match spec_signature(f) {
        Ok(pair) => {
            &&& spec_distinct_names(pair.1)
            &&& spec_distinct_decls(pair.0.params)
            &&& spec_block_hygienic(f.t.body, funcs, pair.1)
        },
        Err(_) => true,
    }
}

/// Only a `let` adds a binding to its block, and it adds the one that
/// declares its variable.
proof fn lemma_stmt_own(
    s: SpanView<IR1StmtView>,
    funcs: Seq<IR2FuncDeclView>,
    outer: Seq<BindingView>,
    st: BlockState,
)
    ensures
        match spec_transform_stmt(s, funcs, outer, st) {
            Ok(next) => match s.t {
                IR1StmtView::Let(l) => {
                    &&& spec_transform_type(l.decl.t.typ) is Ok
                    &&& next.own == st.own.push(
                        spec_define(
                            outer + st.own,
                            l.decl.t.name.t,
                            spec_transform_type(l.decl.t.typ)->Ok_0,
                        ),
                    )
                },
                _ => next.own == st.own,
            },
            Err(_) => true,
        },
{
}

/// How many of the first `upto` statements are a `let` without a value.
pub open spec fn spec_bare_lets(stmts: Seq<SpanView<IR1StmtView>>, upto: nat) -> nat
    decreases upto,
{
    if upto == 0 || upto > stmts.len() {
        0
    } else {
        spec_bare_lets(stmts, (upto - 1) as nat) + (match stmts[upto - 1].t {
            IR1StmtView::Let(l) => if l.init is None {
                1nat
            } else {
                0nat
            },
            _ => 0nat,
        })
    }
}

/// A statement leaves one statement, but for a `let` without a value, which
/// leaves none.
proof fn lemma_stmt_out(
    s: SpanView<IR1StmtView>,
    funcs: Seq<IR2FuncDeclView>,
    outer: Seq<BindingView>,
    st: BlockState,
)
    ensures
        match spec_transform_stmt(s, funcs, outer, st) {
            Ok(next) => match s.t {
                IR1StmtView::Let(l) => next.out.len() == st.out.len() + (if l.init is None {
                    0nat
                } else {
                    1nat
                }),
                _ => next.out.len() == st.out.len() + 1,
            },
            Err(_) => true,
        },
{
}

/// A resolved block holds one statement for each statement of the source,
/// in order, but for a `let` without a value: that declares its variable
/// and leaves no statement. It declares one variable for each `let`.
pub proof fn lemma_statement_count(
    list: SpanView<Seq<SpanView<IR1StmtView>>>,
    upto: nat,
    funcs: Seq<IR2FuncDeclView>,
    outer: Seq<BindingView>,
)
    requires
        upto <= list.t.len(),
    ensures
        match spec_run_block(list.t, upto, funcs, outer) {
            Ok(st) => st.out.len() + spec_bare_lets(list.t, upto) == upto,
            Err(_) => true,
        },
    decreases upto,
{
    if upto > 0 {
        lemma_statement_count(list, (upto - 1) as nat, funcs, outer);
        match spec_run_block(list.t, (upto - 1) as nat, funcs, outer) {
            Ok(prev) => {
                lemma_stmt_out(list.t[upto - 1], funcs, outer, prev);
            },
            Err(_) => {},
        }
    }
}

/// After the first `n` statements of a block the names in scope differ
/// from one another.
proof fn lemma_run_distinct(
    list: SpanView<Seq<SpanView<IR1StmtView>>>,
    n: nat,
    funcs: Seq<IR2FuncDeclView>,
    outer: Seq<BindingView>,
)
    requires
        spec_distinct_names(outer),
        n <= list.t.len(),
    ensures
        match spec_run_block(list.t, n, funcs, outer) {
            Ok(st) => spec_distinct_names(outer + st.own),
            Err(_) => true,
        },
    decreases n,
{
    if n == 0 {
        assert(outer + Seq::<BindingView>::empty() =~= outer);
    } else {
        lemma_run_distinct(list, (n - 1) as nat, funcs, outer);
        match spec_run_block(list.t, (n - 1) as nat, funcs, outer) {
            Ok(prev) => {
                let s = list.t[n - 1];
                let bs = outer + prev.own;
                lemma_stmt_own(s, funcs, outer, prev);
                match spec_transform_stmt(s, funcs, outer, prev) {
                    Ok(st) => {
                        match s.t {
                            IR1StmtView::Let(l) => {
                                let ty = spec_transform_type(l.decl.t.typ)->Ok_0;
                                let b = spec_define(bs, l.decl.t.name.t, ty);
                                lemma_define_distinct(bs, l.decl.t.name.t, ty);
                                assert(outer + st.own =~= bs.push(b));
                            },
                            _ => {},
                        }
                    },
                    Err(_) => {},
                }
            },
            Err(_) => {},
        }
    }
}

/// After the first `n` statements of a block the names in scope differ
/// from one another, there and inside the next statement.
proof fn lemma_point_hygienic(
    list: SpanView<Seq<SpanView<IR1StmtView>>>,
    n: nat,
    funcs: Seq<IR2FuncDeclView>,
    outer: Seq<BindingView>,
)
    requires
        spec_distinct_names(outer),
        n <= list.t.len(),
    ensures
        spec_point_hygienic(list, n, funcs, outer),
    decreases list, 0nat, 0nat,
{
    lemma_run_distinct(list, n, funcs, outer);
    match spec_run_block(list.t, n, funcs, outer) {
        Ok(st) => {
            let bs = outer + st.own;
            if n < list.t.len() {
                let s = list.t[n as int];
                match s.t {
                    IR1StmtView::If(x) => {
                        lemma_block_hygienic(x.body1, funcs, bs);
                        match x.body2 {
                            Some(b) => {
                                lemma_block_hygienic(b, funcs, bs);
                            },
                            None => {},
                        }
                    },
                    IR1StmtView::While(x) => {
                        lemma_block_hygienic(x.body, funcs, bs);
                    },
                    _ => {},
                }
            }
        },
        Err(_) => {},
    }
}

/// The names in scope differ after each of the first `upto` statements of
/// a block, and inside each of them.
proof fn lemma_points_hygienic(
    list: SpanView<Seq<SpanView<IR1StmtView>>>,
    upto: nat,
    funcs: Seq<IR2FuncDeclView>,
    outer: Seq<BindingView>,
)
    requires
        spec_distinct_names(outer),
        upto <= list.t.len(),
    ensures
        spec_points_hygienic(list, upto, funcs, outer),
    decreases list, 1nat, upto,
{
    lemma_point_hygienic(list, upto, funcs, outer);
    if upto > 0 {
        lemma_points_hygienic(list, (upto - 1) as nat, funcs, outer);
    }
}

/// In a block that stands in a scope whose names differ from one another,
/// the variables in scope have names that differ from one another at every
/// place that resolution reaches.
pub proof fn lemma_block_hygienic(
    list: SpanView<Seq<SpanView<IR1StmtView>>>,
    funcs: Seq<IR2FuncDeclView>,
    outer: Seq<BindingView>,
)
    requires
        spec_distinct_names(outer),
    ensures
        spec_block_hygienic(list, funcs, outer),
    decreases list, 2nat, 0nat,
{
    lemma_points_hygienic(list, list.t.len(), funcs, outer);
}

/// The variables that a resolved block declares have names that differ
/// from one another and from those of the variables in scope around the
/// block, where those differ from one another.
pub proof fn lemma_block_vars_unique(
    list: SpanView<Seq<SpanView<IR1StmtView>>>,
    funcs: Seq<IR2FuncDeclView>,
    outer: Seq<BindingView>,
)
    requires
        spec_distinct_names(outer),
    ensures
        match spec_transform_stmt_list(list, funcs, outer) {
            Ok(scope) => spec_distinct_decls(spec_decls(outer) + scope.vars),
            Err(_) => true,
        },
{
    lemma_run_distinct(list, list.t.len(), funcs, outer);
    match spec_run_block(list.t, list.t.len(), funcs, outer) {
        Ok(st) => {
            let bs = outer + st.own;
            let vars = spec_decls(outer) + spec_decls(st.own);
            assert(vars =~= spec_decls(bs));
            assert forall|i: int, j: int| 0 <= i < j < vars.len() implies (#[trigger] vars[i]).name
                != (#[trigger] vars[j]).name by {
                assert(vars[i] == bs[i].decl);
                assert(vars[j] == bs[j].decl);
            }
        },
        Err(_) => {},
    }
}

/// The parameters of a function make a scope whose names differ from one
/// another.
pub proof fn lemma_params_distinct(params: Seq<IR2VarDeclView>, k: nat)
    requires
        k <= params.len(),
    ensures
        spec_distinct_names(spec_define_params(params, k)),
        spec_define_params(params, k).len() == k,
    decreases k,
{
    if k > 0 {
        lemma_params_distinct(params, (k - 1) as nat);
        let before = spec_define_params(params, (k - 1) as nat);
        lemma_define_distinct(before, params[k - 1].name, params[k - 1].ty);
    }
}

/// The parameters in the signature of a resolved function have names that
/// differ from one another, also where the source repeats a name.
pub proof fn lemma_signature_names_unique(f: SpanView<IR1FuncView>)
    ensures
        match spec_transform_func_decl(f) {
            Ok(decl) => spec_distinct_decls(decl.params),
            Err(_) => true,
        },
{
    match spec_signature(f) {
        Ok(pair) => {
            let params = crate::ir1::to_ir2::spec_transform_params(
                f.t.args.t,
                f.t.args.t.len(),
            )->Ok_0;
            lemma_params_distinct(params, params.len());
            let vars = pair.0.params;
            assert forall|i: int, j: int| 0 <= i < j < vars.len() implies (#[trigger] vars[i]).name
                != (#[trigger] vars[j]).name by {
                assert(vars[i] == pair.1[i].decl);
                assert(vars[j] == pair.1[j].decl);
            }
        },
        Err(_) => {},
    }
}

/// In every function, no two variables that are in scope at the same place
/// have the same name: not among the parameters, and at no place of the
/// body that resolution reaches.
pub proof fn lemma_function_names_unique(f: SpanView<IR1FuncView>, funcs: Seq<IR2FuncDeclView>)
    ensures
        spec_func_hygienic(f, funcs),
{
    match spec_signature(f) {
        Ok(pair) => {
            let params = crate::ir1::to_ir2::spec_transform_params(
                f.t.args.t,
                f.t.args.t.len(),
            )->Ok_0;
            lemma_params_distinct(params, params.len());
            lemma_signature_names_unique(f);
            lemma_block_hygienic(f.t.body, funcs, pair.1);
        },
        Err(_) => {},
    }
}

/// In a resolved function, the parameters of the signature and the
/// variables that the outermost block of the body declares have names that
/// differ from one another.
pub proof fn lemma_function_vars_unique(f: SpanView<IR1FuncView>, funcs: Seq<IR2FuncDeclView>)
    ensures
        match spec_transform_func(f, funcs) {
            Ok(func) => spec_distinct_decls(func.decl.params + func.scope.vars),
            Err(_) => true,
        },
{
    match spec_signature(f) {
        Ok(pair) => {
            let params = crate::ir1::to_ir2::spec_transform_params(
                f.t.args.t,
                f.t.args.t.len(),
            )->Ok_0;
            lemma_params_distinct(params, params.len());
            lemma_block_vars_unique(f.t.body, funcs, pair.1);
        },
        Err(_) => {},
    }
}

} // verus!
