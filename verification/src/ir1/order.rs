//! Why order does not matter: two tables that hold the same declarations,
//! each as often as the other, resolve every function alike, as long as it
//! resolves at all; and a program that resolves gives the same functions
//! in whatever order its files come.

use crate::common::err::CerrView;
use crate::common::span::{SpanPlaceView, SpanView};
use crate::ir1::model::{
    IR1ExprView, IR1FuncView, IR1IfStmtView, IR1ModuleView, IR1StmtView, IR1WhileStmtView,
};
use crate::ir1::scope::BindingView;
use crate::ir1::to_ir2::{
    spec_all_functions, spec_arg_types, spec_candidate, spec_collect_decls, spec_ir1_to_ir2,
    spec_matching, spec_resolve_func_call, spec_run_block, spec_signature, spec_transform_args,
    spec_transform_expr, spec_transform_func, spec_transform_func_decl, spec_transform_funcs,
    spec_transform_if, spec_transform_stmt, spec_transform_stmt_list, spec_transform_while,
    BlockState,
};
use crate::ir2::model::{IR2FuncDeclView, IR2FuncView};
use crate::ir2::type_resolve::ResolveType;
use vstd::prelude::*;

verus! {

/// Whether two tables hold the same declarations, each as often as the
/// other, in whatever order.
pub open spec fn spec_same_declarations(a: Seq<IR2FuncDeclView>, b: Seq<IR2FuncDeclView>) -> bool {
    a.to_multiset() == b.to_multiset()
}

/// The test for a candidate for a call of `name` with arguments of these
/// types.
pub open spec fn spec_candidate_test(name: Seq<char>, types: Seq<ResolveType>) -> spec_fn(
    IR2FuncDeclView,
) -> bool {
    |d: IR2FuncDeclView| spec_candidate(d, name, types)
}

/// One more for a candidate.
pub open spec fn spec_count_step(name: Seq<char>, types: Seq<ResolveType>) -> spec_fn(
    int,
    IR2FuncDeclView,
) -> int {
    |n: int, d: IR2FuncDeclView|
        if spec_candidate(d, name, types) {
            n + 1
        } else {
            n
        }
}

/// The candidates among the first declarations are those of them that pass
/// the test, in order.
proof fn lemma_matching_is_filter(
    funcs: Seq<IR2FuncDeclView>,
    name: Seq<char>,
    types: Seq<ResolveType>,
    upto: nat,
)
    requires
        upto <= funcs.len(),
    ensures
        spec_matching(funcs, name, types, upto) == funcs.take(upto as int).filter(
            spec_candidate_test(name, types),
        ),
    decreases upto,
{
    let test = spec_candidate_test(name, types);
    if upto == 0 {
        reveal(Seq::filter);
        assert(funcs.take(0).filter(test) =~= Seq::<IR2FuncDeclView>::empty());
    } else {
        lemma_matching_is_filter(funcs, name, types, (upto - 1) as nat);
        let before = funcs.take(upto - 1);
        assert(funcs.take(upto as int) =~= before.push(funcs[upto - 1]));
        before.lemma_filter_push(funcs[upto - 1], test);
    }
}

/// There are as many candidates as the count of them says.
proof fn lemma_filter_count(funcs: Seq<IR2FuncDeclView>, name: Seq<char>, types: Seq<ResolveType>)
    ensures
        funcs.filter(spec_candidate_test(name, types)).len() == funcs.fold_left(
            0int,
            spec_count_step(name, types),
        ),
    decreases funcs.len(),
{
    reveal(Seq::filter);
    if funcs.len() > 0 {
        lemma_filter_count(funcs.drop_last(), name, types);
    }
}

/// Two tables with the same declarations have equally many candidates for
/// a call, and where there is one, it is the same.
pub proof fn lemma_matching_same(
    a: Seq<IR2FuncDeclView>,
    b: Seq<IR2FuncDeclView>,
    name: Seq<char>,
    types: Seq<ResolveType>,
)
    requires
        spec_same_declarations(a, b),
    ensures
        spec_matching(a, name, types, a.len()).len() == spec_matching(b, name, types, b.len()).len(),
        spec_matching(a, name, types, a.len()).len() == 1 ==> spec_matching(a, name, types, a.len())[0]
            == spec_matching(b, name, types, b.len())[0],
{
    let test = spec_candidate_test(name, types);
    let step = spec_count_step(name, types);
    lemma_matching_is_filter(a, name, types, a.len());
    lemma_matching_is_filter(b, name, types, b.len());
    assert(a.take(a.len() as int) =~= a);
    assert(b.take(b.len() as int) =~= b);
    lemma_filter_count(a, name, types);
    lemma_filter_count(b, name, types);
    assert(vstd::seq_lib::commutative_foldl(step));
    vstd::seq_lib::lemma_fold_left_permutation(a, b, step, 0int);
    let ma = a.filter(test);
    let mb = b.filter(test);
    if ma.len() == 1 {
        let x = ma[0];
        assert(ma.contains(x));
        a.lemma_filter_contains_rev(test, x);
        a.lemma_filter_pred(test, 0);
        vstd::seq_lib::to_multiset_contains(a, x);
        vstd::seq_lib::to_multiset_contains(b, x);
        let j = choose|j: int| 0 <= j < b.len() && b[j] == x;
        b.lemma_filter_contains(test, j);
        let k = choose|k: int| 0 <= k < mb.len() && mb[k] == x;
        assert(k == 0);
    }
}

/// Two tables with the same declarations resolve a call alike, unless the
/// call is ambiguous.
pub proof fn lemma_resolve_same(
    a: Seq<IR2FuncDeclView>,
    b: Seq<IR2FuncDeclView>,
    name: Seq<char>,
    types: Seq<ResolveType>,
    span: SpanPlaceView,
)
    requires
        spec_same_declarations(a, b),
        spec_resolve_func_call(name, types, a, span) is Ok,
    ensures
        spec_resolve_func_call(name, types, b, span) == spec_resolve_func_call(name, types, a, span),
{
    lemma_matching_same(a, b, name, types);
}

/// An expression that resolves with one table resolves to the same with
/// any table of the same declarations.
pub proof fn lemma_expr_same(
    e: SpanView<IR1ExprView>,
    a: Seq<IR2FuncDeclView>,
    b: Seq<IR2FuncDeclView>,
    bs: Seq<BindingView>,
)
    requires
        spec_same_declarations(a, b),
        spec_transform_expr(e, a, bs) is Ok,
    ensures
        spec_transform_expr(e, b, bs) == spec_transform_expr(e, a, bs),
    decreases e, 0nat,
{
    match e.t {
        IR1ExprView::FuncCall(f) => {
            lemma_args_same(f.args.t, f.args.t.len(), a, b, bs);
            let args = spec_transform_args(f.args.t, f.args.t.len(), a, bs)->Ok_0;
            lemma_resolve_same(a, b, f.name.t, spec_arg_types(args), e.span);
        },
        _ => {},
    }
}

/// The same for the first `upto` arguments of a call.
pub proof fn lemma_args_same(
    args: Seq<SpanView<IR1ExprView>>,
    upto: nat,
    a: Seq<IR2FuncDeclView>,
    b: Seq<IR2FuncDeclView>,
    bs: Seq<BindingView>,
)
    requires
        spec_same_declarations(a, b),
        spec_transform_args(args, upto, a, bs) is Ok,
    ensures
        spec_transform_args(args, upto, b, bs) == spec_transform_args(args, upto, a, bs),
    decreases args, upto,
{
    if upto > 0 && upto <= args.len() {
        lemma_args_same(args, (upto - 1) as nat, a, b, bs);
        lemma_expr_same(args[upto - 1], a, b, bs);
    }
}

/// A statement that resolves with one table resolves to the same with any
/// table of the same declarations.
pub proof fn lemma_stmt_same(
    s: SpanView<IR1StmtView>,
    a: Seq<IR2FuncDeclView>,
    b: Seq<IR2FuncDeclView>,
    outer: Seq<BindingView>,
    st: BlockState,
)
    requires
        spec_same_declarations(a, b),
        spec_transform_stmt(s, a, outer, st) is Ok,
    ensures
        spec_transform_stmt(s, b, outer, st) == spec_transform_stmt(s, a, outer, st),
    decreases s, 0nat, 0nat,
{
    let bs = outer + st.own;
    match s.t {
        IR1StmtView::Let(l) => {
            match l.init {
                Some(init) => {
                    lemma_expr_same(init, a, b, bs);
                },
                None => {},
            }
        },
        IR1StmtView::SetVar(x) => {
            lemma_expr_same(x.expr, a, b, bs);
        },
        IR1StmtView::If(x) => {
            lemma_if_same(x, s.span, a, b, bs);
        },
        IR1StmtView::While(x) => {
            lemma_while_same(x, s.span, a, b, bs);
        },
        IR1StmtView::FuncCall(f) => {
            lemma_expr_same(SpanView { span: s.span, t: IR1ExprView::FuncCall(f) }, a, b, bs);
        },
        IR1StmtView::Break => {},
    }
}

/// The same for an `if`.
proof fn lemma_if_same(
    x: IR1IfStmtView,
    span: SpanPlaceView,
    a: Seq<IR2FuncDeclView>,
    b: Seq<IR2FuncDeclView>,
    bs: Seq<BindingView>,
)
    requires
        spec_same_declarations(a, b),
        spec_transform_if(x, span, a, bs) is Ok,
    ensures
        spec_transform_if(x, span, b, bs) == spec_transform_if(x, span, a, bs),
    decreases x, 0nat, 0nat,
{
    lemma_expr_same(x.cond, a, b, bs);
    lemma_block_same(x.body1, a, b, bs);
    match x.body2 {
        Some(body2) => {
            lemma_block_same(body2, a, b, bs);
        },
        None => {},
    }
}

/// The same for a `while`.
proof fn lemma_while_same(
    x: IR1WhileStmtView,
    span: SpanPlaceView,
    a: Seq<IR2FuncDeclView>,
    b: Seq<IR2FuncDeclView>,
    bs: Seq<BindingView>,
)
    requires
        spec_same_declarations(a, b),
        spec_transform_while(x, span, a, bs) is Ok,
    ensures
        spec_transform_while(x, span, b, bs) == spec_transform_while(x, span, a, bs),
    decreases x, 0nat, 0nat,
{
    lemma_expr_same(x.cond, a, b, bs);
    lemma_block_same(x.body, a, b, bs);
}

/// The same for the first `upto` statements of a block.
proof fn lemma_run_same(
    list: SpanView<Seq<SpanView<IR1StmtView>>>,
    upto: nat,
    a: Seq<IR2FuncDeclView>,
    b: Seq<IR2FuncDeclView>,
    outer: Seq<BindingView>,
)
    requires
        spec_same_declarations(a, b),
        spec_run_block(list.t, upto, a, outer) is Ok,
    ensures
        spec_run_block(list.t, upto, b, outer) == spec_run_block(list.t, upto, a, outer),
    decreases list, 1nat, upto,
{
    if upto > 0 && upto <= list.t.len() {
        lemma_run_same(list, (upto - 1) as nat, a, b, outer);
        let st = spec_run_block(list.t, (upto - 1) as nat, a, outer)->Ok_0;
        lemma_stmt_same(list.t[upto - 1], a, b, outer, st);
    }
}

/// A block that resolves with one table resolves to the same with any
/// table of the same declarations.
pub proof fn lemma_block_same(
    list: SpanView<Seq<SpanView<IR1StmtView>>>,
    a: Seq<IR2FuncDeclView>,
    b: Seq<IR2FuncDeclView>,
    outer: Seq<BindingView>,
)
    requires
        spec_same_declarations(a, b),
        spec_transform_stmt_list(list, a, outer) is Ok,
    ensures
        spec_transform_stmt_list(list, b, outer) == spec_transform_stmt_list(list, a, outer),
    decreases list, 2nat, 0nat,
{
    lemma_run_same(list, list.t.len(), a, b, outer);
}

/// A function that resolves with one table of declarations resolves to the
/// same with any table that holds the same declarations in another order.
pub proof fn lemma_function_same(
    f: SpanView<IR1FuncView>,
    a: Seq<IR2FuncDeclView>,
    b: Seq<IR2FuncDeclView>,
)
    requires
        spec_same_declarations(a, b),
        spec_transform_func(f, a) is Ok,
    ensures
        spec_transform_func(f, b) == spec_transform_func(f, a),
{
    let pair = spec_signature(f)->Ok_0;
    lemma_block_same(f.t.body, a, b, pair.1);
}

/// The results of `g` on the first `upto` elements of `s`, in order; the
/// error of the first element on which `g` fails.
pub open spec fn spec_try_all<A, B>(
    s: Seq<A>,
    g: spec_fn(A) -> Result<B, CerrView>,
    upto: nat,
) -> Result<Seq<B>, CerrView>
    decreases upto,
{
    if upto == 0 || upto > s.len() {
        Ok(Seq::empty())
    } else {
        match spec_try_all(s, g, (upto - 1) as nat) {
            Err(e) => Err(e),
            Ok(done) => match g(s[upto - 1]) {
                Err(e) => Err(e),
                Ok(x) => Ok(done.push(x)),
            },
        }
    }
}

/// One more result in a collection of results.
pub open spec fn spec_insert_step<A, B>(g: spec_fn(A) -> Result<B, CerrView>) -> spec_fn(
    vstd::multiset::Multiset<B>,
    A,
) -> vstd::multiset::Multiset<B> {
    |m: vstd::multiset::Multiset<B>, x: A| m.insert(g(x)->Ok_0)
}

/// `g` succeeds on all of the first elements exactly if it succeeds on each
/// of them, and the results are then its results on them, in order.
proof fn lemma_try_all_ok<A, B>(s: Seq<A>, g: spec_fn(A) -> Result<B, CerrView>, upto: nat)
    requires
        upto <= s.len(),
    ensures
        spec_try_all(s, g, upto) is Ok <==> forall|i: int| 0 <= i < upto ==> (#[trigger] g(s[i])) is Ok,
        spec_try_all(s, g, upto) is Ok ==> spec_try_all(s, g, upto)->Ok_0.len() == upto,
        spec_try_all(s, g, upto) is Ok ==> forall|i: int|
            0 <= i < upto ==> (#[trigger] spec_try_all(s, g, upto)->Ok_0[i]) == g(s[i])->Ok_0,
    decreases upto,
{
    if upto > 0 {
        lemma_try_all_ok(s, g, (upto - 1) as nat);
        if spec_try_all(s, g, (upto - 1) as nat) is Ok {
            if g(s[upto - 1]) is Ok {
                assert forall|i: int| 0 <= i < upto implies (#[trigger] g(s[i])) is Ok by {}
            }
        } else {
            let i = choose|i: int| 0 <= i < upto - 1 && !(#[trigger] g(s[i]) is Ok);
            assert(!(g(s[i]) is Ok));
        }
    }
}

/// The results of `g` on all of the first elements, as a collection.
proof fn lemma_try_all_multiset<A, B>(s: Seq<A>, g: spec_fn(A) -> Result<B, CerrView>, upto: nat)
    requires
        upto <= s.len(),
        spec_try_all(s, g, upto) is Ok,
    ensures
        spec_try_all(s, g, upto)->Ok_0.to_multiset() == s.take(upto as int).fold_left(
            vstd::multiset::Multiset::<B>::empty(),
            spec_insert_step(g),
        ),
    decreases upto,
{
    broadcast use vstd::seq_lib::group_to_multiset_ensures;

    if upto == 0 {
        assert(s.take(0) =~= Seq::<A>::empty());
    } else {
        lemma_try_all_multiset(s, g, (upto - 1) as nat);
        let done = spec_try_all(s, g, (upto - 1) as nat)->Ok_0;
        let x = g(s[upto - 1])->Ok_0;
        assert(s.take(upto as int).drop_last() =~= s.take(upto - 1));
        assert(s.take(upto as int).last() == s[upto - 1]);
        vstd::seq_lib::to_multiset_build(done, x);
    }
}

/// Where `g` succeeds on all elements of one list, it succeeds on all
/// elements of any list of the same elements, with the same results.
proof fn lemma_try_all_same<A, B>(a: Seq<A>, b: Seq<A>, g: spec_fn(A) -> Result<B, CerrView>)
    requires
        a.to_multiset() == b.to_multiset(),
        spec_try_all(a, g, a.len()) is Ok,
    ensures
        spec_try_all(b, g, b.len()) is Ok,
        spec_try_all(b, g, b.len())->Ok_0.to_multiset() == spec_try_all(
            a,
            g,
            a.len(),
        )->Ok_0.to_multiset(),
{
    broadcast use vstd::multiset::group_multiset_axioms;

    lemma_try_all_ok(a, g, a.len());
    lemma_try_all_ok(b, g, b.len());
    assert forall|j: int| 0 <= j < b.len() implies (#[trigger] g(b[j])) is Ok by {
        let x = b[j];
        assert(b.contains(x));
        vstd::seq_lib::to_multiset_contains(b, x);
        vstd::seq_lib::to_multiset_contains(a, x);
        let i = choose|i: int| 0 <= i < a.len() && a[i] == x;
        assert(g(a[i]) is Ok);
    }
    lemma_try_all_multiset(a, g, a.len());
    lemma_try_all_multiset(b, g, b.len());
    assert(a.take(a.len() as int) =~= a);
    assert(b.take(b.len() as int) =~= b);
    let step = spec_insert_step(g);
    assert forall|x: A, y: A, v: vstd::multiset::Multiset<B>| #[trigger]
        step(step(v, x), y) == step(step(v, y), x) by {
        assert(v.insert(g(x)->Ok_0).insert(g(y)->Ok_0) =~= v.insert(g(y)->Ok_0).insert(g(x)->Ok_0));
    }
    vstd::seq_lib::lemma_fold_left_permutation(a, b, step, vstd::multiset::Multiset::<B>::empty());
}

/// Two functions that agree on the first elements have the same results on
/// them.
proof fn lemma_try_all_congruent<A, B>(
    s: Seq<A>,
    g: spec_fn(A) -> Result<B, CerrView>,
    h: spec_fn(A) -> Result<B, CerrView>,
    upto: nat,
)
    requires
        upto <= s.len(),
        forall|i: int| 0 <= i < upto ==> #[trigger] g(s[i]) == h(s[i]),
    ensures
        spec_try_all(s, g, upto) == spec_try_all(s, h, upto),
    decreases upto,
{
    if upto > 0 {
        lemma_try_all_congruent(s, g, h, (upto - 1) as nat);
        assert(g(s[upto - 1]) == h(s[upto - 1]));
    }
}

/// Resolving the signature of a function.
pub open spec fn spec_decl_step() -> spec_fn(SpanView<IR1FuncView>) -> Result<
    IR2FuncDeclView,
    CerrView,
> {
    |f: SpanView<IR1FuncView>| spec_transform_func_decl(f)
}

/// Resolving a function with the table `funcs`.
pub open spec fn spec_func_step(funcs: Seq<IR2FuncDeclView>) -> spec_fn(
    SpanView<IR1FuncView>,
) -> Result<IR2FuncView, CerrView> {
    |f: SpanView<IR1FuncView>| spec_transform_func(f, funcs)
}

/// Collecting signatures is resolving the signature of each function.
proof fn lemma_collect_is_try_all(all: Seq<SpanView<IR1FuncView>>, upto: nat)
    ensures
        spec_collect_decls(all, upto) == spec_try_all(all, spec_decl_step(), upto),
    decreases upto,
{
    if upto > 0 && upto <= all.len() {
        lemma_collect_is_try_all(all, (upto - 1) as nat);
    }
}

/// Resolving functions is resolving each function.
proof fn lemma_funcs_is_try_all(
    all: Seq<SpanView<IR1FuncView>>,
    funcs: Seq<IR2FuncDeclView>,
    upto: nat,
)
    ensures
        spec_transform_funcs(all, funcs, upto) == spec_try_all(all, spec_func_step(funcs), upto),
    decreases upto,
{
    if upto > 0 && upto <= all.len() {
        lemma_funcs_is_try_all(all, funcs, (upto - 1) as nat);
    }
}

/// The functions of one more file in a collection of functions.
pub open spec fn spec_module_step() -> spec_fn(
    vstd::multiset::Multiset<SpanView<IR1FuncView>>,
    IR1ModuleView,
) -> vstd::multiset::Multiset<SpanView<IR1FuncView>> {
    |m: vstd::multiset::Multiset<SpanView<IR1FuncView>>, x: IR1ModuleView|
        m.add(x.functions.to_multiset())
}

/// The functions of the first files, as a collection.
proof fn lemma_all_functions_multiset(modules: Seq<IR1ModuleView>, upto: nat)
    requires
        upto <= modules.len(),
    ensures
        spec_all_functions(modules, upto).to_multiset() == modules.take(upto as int).fold_left(
            vstd::multiset::Multiset::<SpanView<IR1FuncView>>::empty(),
            spec_module_step(),
        ),
    decreases upto,
{
    broadcast use vstd::seq_lib::group_to_multiset_ensures;

    if upto == 0 {
        assert(modules.take(0) =~= Seq::<IR1ModuleView>::empty());
    } else {
        lemma_all_functions_multiset(modules, (upto - 1) as nat);
        assert(modules.take(upto as int).drop_last() =~= modules.take(upto - 1));
        assert(modules.take(upto as int).last() == modules[upto - 1]);
        vstd::seq_lib::lemma_multiset_commutative(
            spec_all_functions(modules, (upto - 1) as nat),
            modules[upto - 1].functions,
        );
    }
}

/// A program that resolves still resolves when its files are given in
/// another order, and to the same functions: each as often as before, in
/// the order of the files.
pub proof fn lemma_modules_same(
    a: Seq<IR1ModuleView>,
    b: Seq<IR1ModuleView>,
    builtins: Seq<IR2FuncDeclView>,
)
    requires
        a.to_multiset() == b.to_multiset(),
        spec_ir1_to_ir2(a, builtins) is Ok,
    ensures
        spec_ir1_to_ir2(b, builtins) is Ok,
        spec_ir1_to_ir2(b, builtins)->Ok_0.funcs.to_multiset() == spec_ir1_to_ir2(
            a,
            builtins,
        )->Ok_0.funcs.to_multiset(),
{
    broadcast use vstd::multiset::group_multiset_axioms;

    let all_a = spec_all_functions(a, a.len());
    let all_b = spec_all_functions(b, b.len());
    lemma_all_functions_multiset(a, a.len());
    lemma_all_functions_multiset(b, b.len());
    assert(a.take(a.len() as int) =~= a);
    assert(b.take(b.len() as int) =~= b);
    let join = spec_module_step();
    assert forall|x: IR1ModuleView, y: IR1ModuleView, v: vstd::multiset::Multiset<SpanView<IR1FuncView>>| #[trigger]
        join(join(v, x), y) == join(join(v, y), x) by {
        assert(v.add(x.functions.to_multiset()).add(y.functions.to_multiset()) =~= v.add(
            y.functions.to_multiset(),
        ).add(x.functions.to_multiset()));
    }
    vstd::seq_lib::lemma_fold_left_permutation(
        a,
        b,
        join,
        vstd::multiset::Multiset::<SpanView<IR1FuncView>>::empty(),
    );
    assert(all_a.to_multiset() == all_b.to_multiset());
    lemma_collect_is_try_all(all_a, all_a.len());
    lemma_collect_is_try_all(all_b, all_b.len());
    lemma_try_all_same(all_a, all_b, spec_decl_step());
    let decls_a = spec_collect_decls(all_a, all_a.len())->Ok_0;
    let decls_b = spec_collect_decls(all_b, all_b.len())->Ok_0;
    let table_a = builtins + decls_a;
    let table_b = builtins + decls_b;
    vstd::seq_lib::lemma_multiset_commutative(builtins, decls_a);
    vstd::seq_lib::lemma_multiset_commutative(builtins, decls_b);
    assert(spec_same_declarations(table_a, table_b));
    lemma_funcs_is_try_all(all_a, table_a, all_a.len());
    lemma_funcs_is_try_all(all_b, table_a, all_b.len());
    lemma_funcs_is_try_all(all_b, table_b, all_b.len());
    lemma_try_all_same(all_a, all_b, spec_func_step(table_a));
    lemma_try_all_ok(all_b, spec_func_step(table_a), all_b.len());
    assert forall|i: int| 0 <= i < all_b.len() implies #[trigger] spec_func_step(table_a)(all_b[i])
        == spec_func_step(table_b)(all_b[i]) by {
        assert(spec_func_step(table_a)(all_b[i]) is Ok);
        lemma_function_same(all_b[i], table_a, table_b);
    }
    lemma_try_all_congruent(
        all_b,
        spec_func_step(table_a),
        spec_func_step(table_b),
        all_b.len(),
    );
}

} // verus!
