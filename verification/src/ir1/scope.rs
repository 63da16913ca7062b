//! Names in scope while a function is resolved: the chain of blocks around
//! the current place, and the renaming that keeps the name of a new variable
//! apart from the names of all variables in scope.

use crate::common::text::{
    chars_of, decimal, is_digit, lemma_decimal_digits, lemma_decimal_value, parse_u32,
    spec_decimal, spec_parse_u32, str_eq,
};
use crate::ir2::model::{IR2Type, IR2VarDecl, IR2VarDeclView};
use vstd::prelude::*;

verus! {

/// A name of the source bound to the variable it stands for.
#[derive(Debug, PartialEq, Eq)]
pub struct ScopeEntry {
    pub source: String,
    pub decl: IR2VarDecl,
}

/// What a `ScopeEntry` holds.
pub struct BindingView {
    pub source: Seq<char>,
    pub decl: IR2VarDeclView,
}

impl DeepView for ScopeEntry {
    type V = BindingView;

    open spec fn deep_view(&self) -> BindingView {
        BindingView { source: self.source@, decl: self.decl.deep_view() }
    }
}

/// The position of the latest binding of `var` in `bs`; -1 where `bs` has
/// none.
pub open spec fn spec_last_index(bs: Seq<BindingView>, var: Seq<char>) -> int
    decreases bs.len(),
{
    if bs.len() == 0 {
        -1
    } else if bs.last().source == var {
        bs.len() - 1
    } else {
        spec_last_index(bs.drop_last(), var)
    }
}

/// The variable that `var` stands for: the one of its latest binding.
pub open spec fn spec_find(bs: Seq<BindingView>, var: Seq<char>) -> Option<IR2VarDeclView> {
    let i = spec_last_index(bs, var);
    if i >= 0 {
        Some(bs[i].decl)
    } else {
        None
    }
}

/// `source` itself for `k == 0`, else `source$k`.
pub open spec fn spec_numbered(source: Seq<char>, k: nat) -> Seq<char> {
    if k == 0 {
        source
    } else {
        source + seq!['$'] + spec_decimal(k)
    }
}

/// The number `k` for which `name` is `spec_numbered(source, k)`, where that
/// number fits 32 bits; -1 for any other name.
pub open spec fn spec_number_of(source: Seq<char>, name: Seq<char>) -> int {
    if name == source {
        0
    } else if name.len() >= source.len() + 2 && name.take(source.len() as int) == source
        && name[source.len() as int] == '$' {
        let rest = name.skip(source.len() as int + 1);
        match spec_parse_u32(rest) {
            Some(v) => if v >= 1 && rest == spec_decimal(v as nat) {
                v as int
            } else {
                -1
            },
            None => -1,
        }
    } else {
        -1
    }
}

/// The largest number that a variable in `bs` has among the names numbered
/// from `source`; -1 where none is so named.
pub open spec fn spec_max_number(bs: Seq<BindingView>, source: Seq<char>) -> int
    decreases bs.len(),
{
    if bs.len() == 0 {
        -1
    } else {
        let before = spec_max_number(bs.drop_last(), source);
        let last = spec_number_of(source, bs.last().decl.name);
        if last > before {
            last
        } else {
            before
        }
    }
}

/// Whether a variable in `bs` is named `name`.
pub open spec fn spec_taken(bs: Seq<BindingView>, name: Seq<char>) -> bool
    decreases bs.len(),
{
    bs.len() > 0 && (bs.last().decl.name == name || spec_taken(bs.drop_last(), name))
}

/// The names of all variables in `bs`, one after the other.
pub open spec fn spec_all_names(bs: Seq<BindingView>) -> Seq<char>
    decreases bs.len(),
{
    if bs.len() == 0 {
        Seq::empty()
    } else {
        spec_all_names(bs.drop_last()) + bs.last().decl.name
    }
}

/// No two bindings are to variables of the same name.
pub open spec fn spec_distinct_names(bs: Seq<BindingView>) -> bool {
    forall|i: int, j: int|
        0 <= i < j < bs.len() ==> (#[trigger] bs[i]).decl.name != (#[trigger] bs[j]).decl.name
}

/// The name that a new variable `var` gets where `bs` is in scope.
///
/// It is `var` itself where nothing is bound to `var` and no variable has
/// that name. Otherwise it is `var$k`, where `k` is one more than the
/// largest number that a name numbered from `var` has in scope, and 1 where
/// there is none: the count goes up past every name that is taken. Where
/// that number no longer fits 32 bits, the name is made of all names in
/// scope and `$1`, which is longer than each of them.
pub open spec fn spec_define_name(bs: Seq<BindingView>, var: Seq<char>) -> Seq<char> {
    let most = spec_max_number(bs, var);
    if spec_find(bs, var) is None && !spec_taken(bs, var) {
        var
    } else if most < 0 {
        spec_numbered(var, 1)
    } else if most < u32::MAX {
        spec_numbered(var, (most + 1) as nat)
    } else {
        spec_all_names(bs) + seq!['$', '1']
    }
}

/// The binding that declaring `var` with type `ty` adds to `bs`.
pub open spec fn spec_define(bs: Seq<BindingView>, var: Seq<char>, ty: IR2Type) -> BindingView {
    BindingView { source: var, decl: IR2VarDeclView { name: spec_define_name(bs, var), ty } }
}

/// The variables of the bindings, in order.
pub open spec fn spec_decls(bs: Seq<BindingView>) -> Seq<IR2VarDeclView> {
    Seq::new(bs.len(), |i: int| bs[i].decl)
}

/// A name that is not taken is the name of no variable in scope.
pub proof fn lemma_taken(bs: Seq<BindingView>, name: Seq<char>)
    ensures
        !spec_taken(bs, name) ==> forall|i: int|
            0 <= i < bs.len() ==> (#[trigger] bs[i]).decl.name != name,
    decreases bs.len(),
{
    if bs.len() > 0 {
        lemma_taken(bs.drop_last(), name);
        if !spec_taken(bs, name) {
            assert forall|i: int| 0 <= i < bs.len() implies (#[trigger] bs[i]).decl.name
                != name by {
                if i < bs.len() - 1 {
                    assert(bs.drop_last()[i] == bs[i]);
                }
            }
        }
    }
}

/// No name in scope has a number above the largest.
pub proof fn lemma_max_number(bs: Seq<BindingView>, source: Seq<char>)
    ensures
        spec_max_number(bs, source) >= -1,
        forall|i: int|
            0 <= i < bs.len() ==> spec_number_of(source, (#[trigger] bs[i]).decl.name)
                <= spec_max_number(bs, source),
    decreases bs.len(),
{
    if bs.len() > 0 {
        lemma_max_number(bs.drop_last(), source);
        assert forall|i: int| 0 <= i < bs.len() implies spec_number_of(
            source,
            (#[trigger] bs[i]).decl.name,
        ) <= spec_max_number(bs, source) by {
            if i < bs.len() - 1 {
                assert(bs.drop_last()[i] == bs[i]);
            }
        }
    }
}

/// The name numbered `k` from a name has the number `k`.
pub proof fn lemma_number_of_numbered(source: Seq<char>, k: nat)
    requires
        1 <= k <= u32::MAX,
    ensures
        spec_number_of(source, spec_numbered(source, k)) == k,
{
    let name = spec_numbered(source, k);
    lemma_decimal_digits(k);
    lemma_decimal_value(k);
    let d = spec_decimal(k);
    assert(is_digit(d[0]));
    assert(name.len() == source.len() + 1 + d.len());
    assert(name.take(source.len() as int) =~= source);
    assert(name[source.len() as int] == '$');
    assert(name.skip(source.len() as int + 1) =~= d);
    assert(spec_parse_u32(d) == Some(k as u32));
}

/// The names of all variables together are no shorter than any one of them.
pub proof fn lemma_all_names(bs: Seq<BindingView>)
    ensures
        forall|i: int|
            0 <= i < bs.len() ==> (#[trigger] bs[i]).decl.name.len() <= spec_all_names(bs).len(),
    decreases bs.len(),
{
    if bs.len() > 0 {
        lemma_all_names(bs.drop_last());
        assert forall|i: int| 0 <= i < bs.len() implies (#[trigger] bs[i]).decl.name.len()
            <= spec_all_names(bs).len() by {
            if i < bs.len() - 1 {
                assert(bs.drop_last()[i] == bs[i]);
            }
        }
    }
}

/// The name that a new variable gets is the name of no variable in scope.
pub proof fn lemma_define_name_free(bs: Seq<BindingView>, var: Seq<char>)
    ensures
        forall|i: int| 0 <= i < bs.len() ==> (#[trigger] bs[i]).decl.name != spec_define_name(bs, var),
{
    let name = spec_define_name(bs, var);
    let most = spec_max_number(bs, var);
    lemma_taken(bs, var);
    lemma_max_number(bs, var);
    lemma_all_names(bs);
    if spec_find(bs, var) is None && !spec_taken(bs, var) {
    } else if most < u32::MAX {
        let k: nat = if most < 0 {
            1
        } else {
            (most + 1) as nat
        };
        lemma_number_of_numbered(var, k);
        assert forall|i: int| 0 <= i < bs.len() implies (#[trigger] bs[i]).decl.name != name by {
            if bs[i].decl.name == name {
                assert(spec_number_of(var, bs[i].decl.name) == k);
            }
        }
    } else {
        assert forall|i: int| 0 <= i < bs.len() implies (#[trigger] bs[i]).decl.name != name by {
            assert(bs[i].decl.name.len() <= spec_all_names(bs).len());
            assert(name.len() == spec_all_names(bs).len() + 2);
        }
    }
}

/// Declaring a variable keeps the names in scope apart from one another.
pub proof fn lemma_define_distinct(bs: Seq<BindingView>, var: Seq<char>, ty: IR2Type)
    requires
        spec_distinct_names(bs),
    ensures
        spec_distinct_names(bs.push(spec_define(bs, var, ty))),
{
    lemma_define_name_free(bs, var);
    let next = bs.push(spec_define(bs, var, ty));
    assert forall|i: int, j: int| 0 <= i < j < next.len() implies (#[trigger] next[i]).decl.name != (
    #[trigger] next[j]).decl.name by {
        if j < bs.len() {
            assert(next[i] == bs[i]);
            assert(next[j] == bs[j]);
        } else {
            assert(next[i] == bs[i]);
        }
    }
}

/// The latest binding of a name is a binding of it, and none follows it.
pub proof fn lemma_last_index(bs: Seq<BindingView>, var: Seq<char>)
    ensures
        -1 <= spec_last_index(bs, var) < bs.len(),
        spec_last_index(bs, var) >= 0 ==> bs[spec_last_index(bs, var)].source == var,
        forall|j: int| spec_last_index(bs, var) < j < bs.len() ==> (#[trigger] bs[j]).source != var,
    decreases bs.len(),
{
    if bs.len() > 0 && bs.last().source != var {
        lemma_last_index(bs.drop_last(), var);
        assert forall|j: int| spec_last_index(bs, var) < j < bs.len() implies (#[trigger] bs[j]).source
            != var by {
            if j < bs.len() - 1 {
                assert(bs.drop_last()[j] == bs[j]);
            }
        }
    }
}

/// A binding of a name that no binding of it follows is its latest.
pub proof fn lemma_last_index_is(bs: Seq<BindingView>, var: Seq<char>, at: int)
    requires
        -1 <= at < bs.len(),
        at >= 0 ==> bs[at].source == var,
        forall|j: int| at < j < bs.len() ==> (#[trigger] bs[j]).source != var,
    ensures
        spec_last_index(bs, var) == at,
{
    lemma_last_index(bs, var);
    let f = spec_last_index(bs, var);
    if f > at {
        assert(bs[f].source != var);
    }
}

/// In two lists one after the other, a name stands for what it stands for
/// in the second, and where the second does not bind it, for what it stands
/// for in the first.
pub proof fn lemma_find_append(a: Seq<BindingView>, b: Seq<BindingView>, var: Seq<char>)
    ensures
        spec_find(a + b, var) == match spec_find(b, var) {
            Some(d) => Some(d),
            None => spec_find(a, var),
        },
{
    lemma_last_index(a, var);
    lemma_last_index(b, var);
    let ib = spec_last_index(b, var);
    let ia = spec_last_index(a, var);
    if ib >= 0 {
        lemma_last_index_is(a + b, var, a.len() + ib);
    } else {
        lemma_last_index_is(a + b, var, ia);
    }
}

/// The names in scope around one place: the bindings made so far in the
/// block at hand, oldest first, and the chain of the block around it.
pub struct ScopeChain<'a> {
    pub entries: Vec<ScopeEntry>,
    pub next: Option<&'a ScopeChain<'a>>,
}

impl<'a> ScopeChain<'a> {
    /// The bindings made in the block at hand, oldest first.
    pub open spec fn own(&self) -> Seq<BindingView> {
        self.entries.deep_view()
    }

    /// All bindings in scope: those of the blocks around, outermost first,
    /// and after them those of the block at hand.
    pub open spec fn bindings(&self) -> Seq<BindingView>
        decreases self,
    {
        (match self.next {
            Some(n) => n.bindings(),
            None => Seq::empty(),
        }) + self.own()
    }

    /// The bindings of the blocks around the block at hand.
    pub open spec fn outer(&self) -> Seq<BindingView> {
        match self.next {
            Some(n) => n.bindings(),
            None => Seq::empty(),
        }
    }

    /// The chain of a function's outermost block, with nothing bound.
    pub fn new() -> (r: ScopeChain<'a>)
        ensures
            r.bindings() == Seq::<BindingView>::empty(),
            r.own() == Seq::<BindingView>::empty(),
            r.next is None,
    {
        let r = ScopeChain { entries: Vec::new(), next: None };
        assert(r.own() =~= Seq::<BindingView>::empty());
        assert(r.bindings() =~= Seq::<BindingView>::empty());
        r
    }

    /// The chain of a block inside the block of `parent`: nothing is bound
    /// in it yet, and all of `parent` is in scope.
    pub fn child(parent: &'a ScopeChain<'a>) -> (r: ScopeChain<'a>)
        ensures
            r.bindings() == parent.bindings(),
            r.outer() == parent.bindings(),
            r.own() == Seq::<BindingView>::empty(),
    {
        let r = ScopeChain { entries: Vec::new(), next: Some(parent) };
        assert(r.own() =~= Seq::<BindingView>::empty());
        assert(r.bindings() =~= parent.bindings());
        r
    }

    /// The variable that `var` stands for at this place: the one bound to it
    /// last in the innermost block that binds it. `None` where no block of
    /// the chain binds it.
    pub fn find(&self, var: &str) -> (r: Option<&IR2VarDecl>)
        ensures
            r.deep_view() == spec_find(self.bindings(), var@),
        decreases self,
    {
        let mut i: usize = self.entries.len();
        while i > 0
            invariant
                i <= self.entries.len(),
                forall|j: int| i <= j < self.entries.len() ==> (#[trigger] self.own()[j]).source != var@,
            decreases i,
        {
            i -= 1;
            if str_eq(self.entries[i].source.as_str(), var) {
                proof {
                    lemma_last_index_is(self.own(), var@, i as int);
                    lemma_find_append(self.outer(), self.own(), var@);
                }
                return Some(&self.entries[i].decl);
            }
        }
        proof {
            lemma_last_index_is(self.own(), var@, -1);
            lemma_find_append(self.outer(), self.own(), var@);
        }
        match self.next {
            Some(n) => n.find(var),
            None => {
                proof {
                    lemma_last_index_is(self.outer(), var@, -1);
                }
                None
            },
        }
    }

    /// Whether a variable in scope is named as `var` is, and the largest
    /// number among the names in scope that are numbered from `var`.
    pub fn scan(&self, var: &Vec<char>) -> (r: (bool, i64))
        ensures
            r.0 == spec_taken(self.bindings(), var@),
            r.1 == spec_max_number(self.bindings(), var@),
            -1 <= r.1 <= u32::MAX,
        decreases self,
    {
        let (mut taken, mut most) = match self.next {
            Some(n) => n.scan(var),
            None => (false, -1i64),
        };
        let ghost outer = self.outer();
        let mut i: usize = 0;
        proof {
            lemma_max_number(outer, var@);
            assert(outer + self.own().take(0) =~= outer);
        }
        while i < self.entries.len()
            invariant
                i <= self.entries.len(),
                outer == self.outer(),
                -1 <= most <= u32::MAX,
                taken == spec_taken(outer + self.own().take(i as int), var@),
                most == spec_max_number(outer + self.own().take(i as int), var@),
            decreases self.entries.len() - i,
        {
            let n = number_of(var, self.entries[i].decl.name.as_str());
            proof {
                let now = outer + self.own().take(i + 1);
                assert(now.drop_last() =~= outer + self.own().take(i as int));
                assert(now.last() == self.entries[i as int].deep_view());
            }
            if n == 0 {
                taken = true;
            }
            if n > most {
                most = n;
            }
            i += 1;
        }
        proof {
            assert(self.own().take(self.entries.len() as int) =~= self.own());
        }
        (taken, most)
    }

    /// The names of all variables in scope, one after the other.
    pub fn all_names(&self) -> (r: String)
        ensures
            r@ == spec_all_names(self.bindings()),
        decreases self,
    {
        let mut s = match self.next {
            Some(n) => n.all_names(),
            None => String::new(),
        };
        let ghost outer = self.outer();
        let mut i: usize = 0;
        proof {
            assert(outer + self.own().take(0) =~= outer);
        }
        while i < self.entries.len()
            invariant
                i <= self.entries.len(),
                outer == self.outer(),
                s@ == spec_all_names(outer + self.own().take(i as int)),
            decreases self.entries.len() - i,
        {
            proof {
                let now = outer + self.own().take(i + 1);
                assert(now.drop_last() =~= outer + self.own().take(i as int));
                assert(now.last() == self.entries[i as int].deep_view());
            }
            s.append(self.entries[i].decl.name.as_str());
            i += 1;
        }
        proof {
            assert(self.own().take(self.entries.len() as int) =~= self.own());
        }
        s
    }

    /// Declares the variable `var` of type `ty` in the block at hand and
    /// gives it a name that no variable in scope has: see
    /// `spec_define_name`. From here on `var` stands for the new variable.
    pub fn define_var(&mut self, var: &str, ty: IR2Type) -> (r: IR2VarDecl)
        ensures
            r.deep_view() == spec_define(old(self).bindings(), var@, ty).decl,
            final(self).next == old(self).next,
            final(self).own() == old(self).own().push(spec_define(old(self).bindings(), var@, ty)),
            final(self).bindings() == old(self).bindings().push(
                spec_define(old(self).bindings(), var@, ty),
            ),
            forall|i: int|
                0 <= i < old(self).bindings().len() ==> (#[trigger] old(self).bindings()[i]).decl.name
                    != r.name@,
            spec_distinct_names(old(self).bindings()) ==> spec_distinct_names(
                final(self).bindings(),
            ),
    {
        let chars = chars_of(var);
        let (taken, most) = self.scan(&chars);
        let bound = self.find(var).is_some();
        let name = if !bound && !taken {
            var.to_owned()
        } else if most < 0xffff_ffff {
            let k: u64 = if most < 0 {
                1
            } else {
                (most + 1) as u64
            };
            let mut s = var.to_owned();
            s.append("$");
            s.append(decimal(k).as_str());
            proof {
                reveal_strlit("$");
                assert("$"@ =~= seq!['$']);
            }
            s
        } else {
            let mut s = self.all_names();
            s.append("$1");
            proof {
                reveal_strlit("$1");
                assert("$1"@ =~= seq!['$', '1']);
            }
            s
        };
        let decl = IR2VarDecl { name, ty };
        let ghost before = self.own();
        self.entries.push(ScopeEntry { source: var.to_owned(), decl: decl.clone() });
        proof {
            let b = spec_define(old(self).bindings(), var@, ty);
            assert(self.own() =~= before.push(b));
            assert(self.bindings() =~= old(self).bindings().push(b));
            lemma_define_name_free(old(self).bindings(), var@);
            if spec_distinct_names(old(self).bindings()) {
                lemma_define_distinct(old(self).bindings(), var@, ty);
            }
        }
        decl
    }

    /// The variables declared in the block at hand, in the order in which
    /// they were declared.
    pub fn declared(&self) -> (r: Vec<IR2VarDecl>)
        ensures
            r.deep_view() == spec_decls(self.own()),
    {
        let mut r: Vec<IR2VarDecl> = Vec::new();
        let mut i: usize = 0;
        while i < self.entries.len()
            invariant
                i <= self.entries.len(),
                r.len() == i,
                forall|j: int| 0 <= j < i ==> r[j].deep_view() == self.entries[j].decl.deep_view(),
            decreases self.entries.len() - i,
        {
            r.push(self.entries[i].decl.clone());
            i += 1;
        }
        assert(r.deep_view() =~= spec_decls(self.own()));
        r
    }
}

/// The characters of `v` from position `from` on.
fn tail_of(v: &Vec<char>, from: usize) -> (r: Vec<char>)
    requires
        from <= v.len(),
    ensures
        r@ == v@.skip(from as int),
{
    let mut r: Vec<char> = Vec::new();
    let mut i: usize = from;
    while i < v.len()
        invariant
            from <= i <= v.len(),
            r@ == v@.subrange(from as int, i as int),
        decreases v.len() - i,
    {
        r.push(v[i]);
        assert(r@ =~= v@.subrange(from as int, i + 1));
        i += 1;
    }
    assert(r@ =~= v@.skip(from as int));
    r
}

/// Whether `v` starts with the characters of `start`.
fn starts_with(v: &Vec<char>, start: &Vec<char>) -> (r: bool)
    ensures
        r == (v@.len() >= start@.len() && v@.take(start@.len() as int) == start@),
{
    if v.len() < start.len() {
        return false;
    }
    let mut i: usize = 0;
    while i < start.len()
        invariant
            i <= start.len(),
            start.len() <= v.len(),
            forall|j: int| 0 <= j < i ==> v@[j] == start@[j],
        decreases start.len() - i,
    {
        if v[i] != start[i] {
            assert(v@.take(start@.len() as int)[i as int] != start@[i as int]);
            return false;
        }
        i += 1;
    }
    assert(v@.take(start@.len() as int) =~= start@);
    true
}

/// The number `k` for which `name` is `source` numbered `k`; -1 where it is
/// none.
pub fn number_of(source: &Vec<char>, name: &str) -> (r: i64)
    ensures
        r == spec_number_of(source@, name@),
        -1 <= r <= u32::MAX,
{
    let chars = chars_of(name);
    if !starts_with(&chars, source) {
        assert(name@ != source@) by {
            if name@ == source@ {
                assert(name@.take(source@.len() as int) =~= source@);
            }
        }
        return -1;
    }
    if chars.len() == source.len() {
        assert(chars@.take(source@.len() as int) =~= chars@);
        return 0;
    }
    if chars.len() - source.len() < 2 || chars[source.len()] != '$' {
        return -1;
    }
    let rest = tail_of(&chars, source.len() + 1);
    match parse_u32(&rest) {
        Some(v) => {
            if v >= 1 {
                let numeral = decimal(v as u64);
                let digits = chars_of(numeral.as_str());
                if digits.len() == rest.len() && starts_with(&rest, &digits) {
                    assert(rest@.take(digits@.len() as int) =~= rest@);
                    return v as i64;
                }
                assert(rest@ != spec_decimal(v as nat)) by {
                    if rest@ == spec_decimal(v as nat) {
                        assert(rest@.take(digits@.len() as int) =~= rest@);
                    }
                }
            }
            -1
        },
        None => -1,
    }
}

} // verus!
