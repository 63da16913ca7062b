//! Why a name that nothing binds is always found out: wherever resolution
//! runs into a reference to such a name before anything else fails, it
//! fails with "undeclared variable" at the place of that reference, however
//! deep the reference stands in blocks, conditions and arguments. A
//! function sees its own parameters and nothing of any other function.

use crate::common::err::{CerrKindView, CerrView};
use crate::common::span::{SpanPlaceView, SpanView};
use crate::ir1::model::{
    IR1ExprView, IR1FuncView, IR1IfStmtView, IR1StmtView, IR1VarDeclView, IR1WhileStmtView,
};
use crate::ir1::scope::{lemma_last_index, spec_find, spec_last_index, BindingView};
use crate::ir1::to_ir2::{
    spec_define_params, spec_run_block, spec_signature, spec_transform_args,
    spec_transform_expr, spec_transform_func, spec_transform_if, spec_transform_params,
    spec_transform_stmt, spec_transform_stmt_list, spec_transform_while, BlockState,
};
use crate::ir2::model::{
    IR2ExprView, IR2FuncDeclView, IR2FuncView, IR2IfStmtView, IR2ScopeView, IR2VarDeclView,
    IR2WhileStmtView,
};
use vstd::prelude::*;

verus! {

/// The error that the name read at `span` is bound to nothing.
pub open spec fn spec_undeclared(span: SpanPlaceView) -> CerrView {
    CerrView { span, kind: CerrKindView::UndeclaredVariable }
}

/// The place of the reference to an unbound name that the resolution of an
/// expression runs into before anything else in it fails; `None` where it
/// runs into none. The arguments of a call are gone through in order.
pub open spec fn spec_unbound_in_expr(
    e: SpanView<IR1ExprView>,
    funcs: Seq<IR2FuncDeclView>,
    bs: Seq<BindingView>,
) -> Option<SpanPlaceView>
    decreases e, 0nat,
{
    match e.t {
        IR1ExprView::Const(_) => None,
        IR1ExprView::VarName(v) => if spec_find(bs, v) is None {
            Some(e.span)
        } else {
            None
        },
        IR1ExprView::FuncCall(f) => spec_unbound_in_args(f.args.t, f.args.t.len(), funcs, bs),
    }
}

/// The same for the first `upto` arguments of a call: the place found in
/// the first argument that holds one, where all arguments before it
/// resolve.
pub open spec fn spec_unbound_in_args(
    args: Seq<SpanView<IR1ExprView>>,
    upto: nat,
    funcs: Seq<IR2FuncDeclView>,
    bs: Seq<BindingView>,
) -> Option<SpanPlaceView>
    decreases args, upto,
{
    if upto == 0 || upto > args.len() {
        None
    } else {
        match spec_unbound_in_args(args, (upto - 1) as nat, funcs, bs) {
            Some(place) => Some(place),
            None => if spec_transform_args(args, (upto - 1) as nat, funcs, bs) is Ok {
                spec_unbound_in_expr(args[upto - 1], funcs, bs)
            } else {
                None
            },
        }
    }
}

/// The same for a statement at which `bs` is in scope: its expressions are
/// gone through in the order in which they are resolved, then its blocks,
/// each with the scope it is resolved in.
pub open spec fn spec_unbound_in_stmt(
    s: SpanView<IR1StmtView>,
    funcs: Seq<IR2FuncDeclView>,
    bs: Seq<BindingView>,
) -> Option<SpanPlaceView>
    decreases s, 0nat, 0nat,
{
    match s.t {
        IR1StmtView::Let(l) => match l.init {
            Some(init) => spec_unbound_in_expr(init, funcs, bs),
            None => None,
        },
        IR1StmtView::SetVar(x) => match spec_unbound_in_expr(x.expr, funcs, bs) {
            Some(place) => Some(place),
            None => if spec_transform_expr(x.expr, funcs, bs) is Ok && spec_find(bs, x.var.t)
                is None {
                Some(x.var.span)
            } else {
                None
            },
        },
        IR1StmtView::If(x) => match spec_unbound_in_expr(x.cond, funcs, bs) {
            Some(place) => Some(place),
            None => if spec_transform_expr(x.cond, funcs, bs) is Ok {
                match spec_unbound_in_block(x.body1, funcs, bs) {
                    Some(place) => Some(place),
                    None => if spec_transform_stmt_list(x.body1, funcs, bs) is Ok {
                        match x.body2 {
                            Some(body2) => spec_unbound_in_block(body2, funcs, bs),
                            None => None,
                        }
                    } else {
                        None
                    },
                }
            } else {
                None
            },
        },
        IR1StmtView::While(x) => match spec_unbound_in_expr(x.cond, funcs, bs) {
            Some(place) => Some(place),
            None => if spec_transform_expr(x.cond, funcs, bs) is Ok {
                spec_unbound_in_block(x.body, funcs, bs)
            } else {
                None
            },
        },
        IR1StmtView::FuncCall(f) => spec_unbound_in_expr(
            SpanView { span: s.span, t: IR1ExprView::FuncCall(f) },
            funcs,
            bs,
        ),
        IR1StmtView::Break => None,
    }
}

/// The same for the first `upto` statements of a block: the place found in
/// the first statement that holds one, where all statements before it
/// resolve; each statement sees what the statements before it declared.
pub open spec fn spec_unbound_in_run(
    list: SpanView<Seq<SpanView<IR1StmtView>>>,
    upto: nat,
    funcs: Seq<IR2FuncDeclView>,
    outer: Seq<BindingView>,
) -> Option<SpanPlaceView>
    decreases list, 1nat, upto,
{
    if upto == 0 || upto > list.t.len() {
        None
    } else {
        match spec_unbound_in_run(list, (upto - 1) as nat, funcs, outer) {
            Some(place) => Some(place),
            None => match spec_run_block(list.t, (upto - 1) as nat, funcs, outer) {
                Ok(st) => spec_unbound_in_stmt(list.t[upto - 1], funcs, outer + st.own),
                Err(_) => None,
            },
        }
    }
}

/// The same for a whole block, where `outer` is in scope around it.
pub open spec fn spec_unbound_in_block(
    list: SpanView<Seq<SpanView<IR1StmtView>>>,
    funcs: Seq<IR2FuncDeclView>,
    outer: Seq<BindingView>,
) -> Option<SpanPlaceView>
    decreases list, 2nat, 0nat,
{
    spec_unbound_in_run(list, list.t.len(), funcs, outer)
}

/// The same for a function: its body is gone through in the scope that its
/// own parameters make.
pub open spec fn spec_unbound_in_func(f: SpanView<IR1FuncView>, funcs: Seq<IR2FuncDeclView>) -> Option<
    SpanPlaceView,
> {
    match spec_signature(f) {
        Ok(pair) => spec_unbound_in_block(f.t.body, funcs, pair.1),
        Err(_) => None,
    }
}

/// An expression that runs into a reference to an unbound name fails with
/// "undeclared variable" at the place of that reference, however deep in
/// calls the reference stands.
pub proof fn lemma_unbound_in_expr(
    e: SpanView<IR1ExprView>,
    funcs: Seq<IR2FuncDeclView>,
    bs: Seq<BindingView>,
)
    requires
        spec_unbound_in_expr(e, funcs, bs) is Some,
    ensures
        spec_transform_expr(e, funcs, bs) == Err::<IR2ExprView, CerrView>(
            spec_undeclared(spec_unbound_in_expr(e, funcs, bs)->Some_0),
        ),
    decreases e, 0nat,
{
    match e.t {
        IR1ExprView::FuncCall(f) => {
            lemma_unbound_in_args(f.args.t, f.args.t.len(), funcs, bs);
        },
        _ => {},
    }
}

/// The same for the first `upto` arguments of a call.
pub proof fn lemma_unbound_in_args(
    args: Seq<SpanView<IR1ExprView>>,
    upto: nat,
    funcs: Seq<IR2FuncDeclView>,
    bs: Seq<BindingView>,
)
    requires
        spec_unbound_in_args(args, upto, funcs, bs) is Some,
    ensures
        spec_transform_args(args, upto, funcs, bs) == Err::<Seq<IR2ExprView>, CerrView>(
            spec_undeclared(spec_unbound_in_args(args, upto, funcs, bs)->Some_0),
        ),
    decreases args, upto,
{
    if upto > 0 && upto <= args.len() {
        if spec_unbound_in_args(args, (upto - 1) as nat, funcs, bs) is Some {
            lemma_unbound_in_args(args, (upto - 1) as nat, funcs, bs);
        } else {
            lemma_unbound_in_expr(args[upto - 1], funcs, bs);
        }
    }
}

/// A statement that runs into a reference to an unbound name fails with
/// "undeclared variable" at the place of that reference, however deep in
/// blocks, conditions and arguments the reference stands.
pub proof fn lemma_unbound_in_stmt(
    s: SpanView<IR1StmtView>,
    funcs: Seq<IR2FuncDeclView>,
    outer: Seq<BindingView>,
    st: BlockState,
)
    requires
        spec_unbound_in_stmt(s, funcs, outer + st.own) is Some,
    ensures
        spec_transform_stmt(s, funcs, outer, st) == Err::<BlockState, CerrView>(
            spec_undeclared(spec_unbound_in_stmt(s, funcs, outer + st.own)->Some_0),
        ),
    decreases s, 0nat, 0nat,
{
    let bs = outer + st.own;
    match s.t {
        IR1StmtView::Let(l) => {
            lemma_unbound_in_expr(l.init->Some_0, funcs, bs);
        },
        IR1StmtView::SetVar(x) => {
            if spec_unbound_in_expr(x.expr, funcs, bs) is Some {
                lemma_unbound_in_expr(x.expr, funcs, bs);
            }
        },
        IR1StmtView::If(x) => {
            lemma_unbound_in_if(x, s.span, funcs, bs);
        },
        IR1StmtView::While(x) => {
            lemma_unbound_in_while(x, s.span, funcs, bs);
        },
        IR1StmtView::FuncCall(f) => {
            lemma_unbound_in_expr(SpanView { span: s.span, t: IR1ExprView::FuncCall(f) }, funcs, bs);
        },
        IR1StmtView::Break => {},
    }
}

/// The same for an `if`.
proof fn lemma_unbound_in_if(
    x: IR1IfStmtView,
    span: SpanPlaceView,
    funcs: Seq<IR2FuncDeclView>,
    bs: Seq<BindingView>,
)
    requires
        spec_unbound_in_stmt(SpanView { span, t: IR1StmtView::If(x) }, funcs, bs) is Some,
    ensures
        spec_transform_if(x, span, funcs, bs) == Err::<IR2IfStmtView, CerrView>(
            spec_undeclared(
                spec_unbound_in_stmt(SpanView { span, t: IR1StmtView::If(x) }, funcs, bs)->Some_0,
            ),
        ),
    decreases x, 0nat, 0nat,
{
    if spec_unbound_in_expr(x.cond, funcs, bs) is Some {
        lemma_unbound_in_expr(x.cond, funcs, bs);
    } else if spec_unbound_in_block(x.body1, funcs, bs) is Some {
        lemma_unbound_in_block(x.body1, funcs, bs);
    } else {
        lemma_unbound_in_block(x.body2->Some_0, funcs, bs);
    }
}

/// The same for a `while`.
proof fn lemma_unbound_in_while(
    x: IR1WhileStmtView,
    span: SpanPlaceView,
    funcs: Seq<IR2FuncDeclView>,
    bs: Seq<BindingView>,
)
    requires
        spec_unbound_in_stmt(SpanView { span, t: IR1StmtView::While(x) }, funcs, bs) is Some,
    ensures
        spec_transform_while(x, span, funcs, bs) == Err::<IR2WhileStmtView, CerrView>(
            spec_undeclared(
                spec_unbound_in_stmt(
                    SpanView { span, t: IR1StmtView::While(x) },
                    funcs,
                    bs,
                )->Some_0,
            ),
        ),
    decreases x, 0nat, 0nat,
{
    if spec_unbound_in_expr(x.cond, funcs, bs) is Some {
        lemma_unbound_in_expr(x.cond, funcs, bs);
    } else {
        lemma_unbound_in_block(x.body, funcs, bs);
    }
}

/// The same for the first `upto` statements of a block.
proof fn lemma_unbound_in_run(
    list: SpanView<Seq<SpanView<IR1StmtView>>>,
    upto: nat,
    funcs: Seq<IR2FuncDeclView>,
    outer: Seq<BindingView>,
)
    requires
        spec_unbound_in_run(list, upto, funcs, outer) is Some,
    ensures
        spec_run_block(list.t, upto, funcs, outer) == Err::<BlockState, CerrView>(
            spec_undeclared(spec_unbound_in_run(list, upto, funcs, outer)->Some_0),
        ),
    decreases list, 1nat, upto,
{
    if upto > 0 && upto <= list.t.len() {
        if spec_unbound_in_run(list, (upto - 1) as nat, funcs, outer) is Some {
            lemma_unbound_in_run(list, (upto - 1) as nat, funcs, outer);
        } else {
            let st = spec_run_block(list.t, (upto - 1) as nat, funcs, outer)->Ok_0;
            lemma_unbound_in_stmt(list.t[upto - 1], funcs, outer, st);
        }
    }
}

/// A block that runs into a reference to an unbound name fails with
/// "undeclared variable" at the place of that reference.
pub proof fn lemma_unbound_in_block(
    list: SpanView<Seq<SpanView<IR1StmtView>>>,
    funcs: Seq<IR2FuncDeclView>,
    outer: Seq<BindingView>,
)
    requires
        spec_unbound_in_block(list, funcs, outer) is Some,
    ensures
        spec_transform_stmt_list(list, funcs, outer) == Err::<IR2ScopeView, CerrView>(
            spec_undeclared(spec_unbound_in_block(list, funcs, outer)->Some_0),
        ),
    decreases list, 2nat, 0nat,
{
    lemma_unbound_in_run(list, list.t.len(), funcs, outer);
}

/// A function whose body runs into a reference to an unbound name fails
/// with "undeclared variable" at the place of that reference.
pub proof fn lemma_unbound_in_func(f: SpanView<IR1FuncView>, funcs: Seq<IR2FuncDeclView>)
    requires
        spec_unbound_in_func(f, funcs) is Some,
    ensures
        spec_transform_func(f, funcs) == Err::<IR2FuncView, CerrView>(
            spec_undeclared(spec_unbound_in_func(f, funcs)->Some_0),
        ),
{
    let pair = spec_signature(f)->Ok_0;
    lemma_unbound_in_block(f.t.body, funcs, pair.1);
}

/// The scope that parameters make binds the names of the parameters, in
/// order, and nothing else.
pub proof fn lemma_param_sources(params: Seq<IR2VarDeclView>, upto: nat)
    requires
        upto <= params.len(),
    ensures
        spec_define_params(params, upto).len() == upto,
        forall|i: int|
            0 <= i < upto ==> (#[trigger] spec_define_params(params, upto)[i]).source
                == params[i].name,
    decreases upto,
{
    if upto > 0 {
        lemma_param_sources(params, (upto - 1) as nat);
    }
}

/// Parameters that resolve keep the names they have in the source.
pub proof fn lemma_param_names(args: Seq<SpanView<IR1VarDeclView>>, upto: nat)
    requires
        upto <= args.len(),
        spec_transform_params(args, upto) is Ok,
    ensures
        spec_transform_params(args, upto)->Ok_0.len() == upto,
        forall|i: int|
            0 <= i < upto ==> (#[trigger] spec_transform_params(args, upto)->Ok_0[i]).name
                == args[i].t.name.t,
    decreases upto,
{
    if upto > 0 {
        lemma_param_names(args, (upto - 1) as nat);
    }
}

/// Where the body of a function starts, a name stands for a variable only
/// if it is the name of one of the parameters of that function: what other
/// functions declare is never in scope.
pub proof fn lemma_only_parameters_in_scope(f: SpanView<IR1FuncView>, var: Seq<char>)
    requires
        spec_signature(f) is Ok,
        forall|i: int| 0 <= i < f.t.args.t.len() ==> (#[trigger] f.t.args.t[i]).t.name.t != var,
    ensures
        spec_find(spec_signature(f)->Ok_0.1, var) is None,
{
    let params = spec_transform_params(f.t.args.t, f.t.args.t.len())->Ok_0;
    lemma_param_names(f.t.args.t, f.t.args.t.len());
    lemma_param_sources(params, params.len());
    let scope = spec_signature(f)->Ok_0.1;
    lemma_last_index(scope, var);
    let at = spec_last_index(scope, var);
    if at >= 0 {
        assert(scope[at].source == params[at].name);
        assert(params[at].name == f.t.args.t[at].t.name.t);
    }
}

} // verus!
