//! S-expression data as the grammar reads it, and the reader that turns
//! source text into it.

use crate::common::eqf64::EqF64;
use lexpr::parse::{KeywordSyntax, NilSymbol, Options, TSymbol};
use lexpr::{Parser, Value};
use vstd::prelude::*;

verus! {

/// A number literal, as each of the three kinds it may be read as.
///
/// `as_u64` is there for an integer from zero up, `as_i64` for an integer
/// that fits 64 signed bits, `as_f64` for what can be held as a float.
#[derive(Debug, Clone, Copy, PartialEq, Eq, PartialOrd, Ord, Hash)]
pub struct SexpNumber {
    pub as_u64: Option<u64>,
    pub as_i64: Option<i64>,
    pub as_f64: Option<EqF64>,
}

/// What a datum is.
#[derive(Debug, PartialEq, Eq, PartialOrd, Ord, Hash)]
pub enum SexpValue {
    Number(SexpNumber),
    Symbol(String),
    Keyword(String),
    /// The empty list.
    Null,
    /// A list with at least one element; the elements in order.
    Cons(Vec<Sexp>),
    /// Any other datum: a string, a character, a boolean, a vector, bytes.
    Other,
}

/// A datum with the lines and columns it covers in the source text.
#[derive(Debug, PartialEq, Eq, PartialOrd, Ord, Hash)]
pub struct Sexp {
    pub start_line: usize,
    pub start_col: usize,
    pub end_line: usize,
    pub end_col: usize,
    pub value: SexpValue,
}

/// What a `SexpValue` holds.
pub enum SexpValueView {
    Number(SexpNumber),
    Symbol(Seq<char>),
    Keyword(Seq<char>),
    Null,
    Cons(Seq<SexpView>),
    Other,
}

/// What a `Sexp` holds.
pub struct SexpView {
    pub start_line: usize,
    pub start_col: usize,
    pub end_line: usize,
    pub end_col: usize,
    pub value: SexpValueView,
}

pub open spec fn sexp_view(d: Sexp) -> SexpView
    decreases d,
{
    SexpView {
        start_line: d.start_line,
        start_col: d.start_col,
        end_line: d.end_line,
        end_col: d.end_col,
        value: sexp_value_view(d.value),
    }
}

pub open spec fn sexp_value_view(v: SexpValue) -> SexpValueView
    decreases v,
{
    match v {
        SexpValue::Number(n) => SexpValueView::Number(n),
        SexpValue::Symbol(s) => SexpValueView::Symbol(s@),
        SexpValue::Keyword(s) => SexpValueView::Keyword(s@),
        SexpValue::Null => SexpValueView::Null,
        SexpValue::Cons(items) => SexpValueView::Cons(
            Seq::new(
                items@.len(),
                |i: int|
                    if 0 <= i < items@.len() {
                        sexp_view(items@[i])
                    } else {
                        arbitrary()
                    },
            ),
        ),
        SexpValue::Other => SexpValueView::Other,
    }
}

impl DeepView for Sexp {
    type V = SexpView;

    open spec fn deep_view(&self) -> SexpView {
        sexp_view(*self)
    }
}

impl DeepView for SexpValue {
    type V = SexpValueView;

    open spec fn deep_view(&self) -> SexpValueView {
        sexp_value_view(*self)
    }
}

fn clone_sexp(d: &Sexp) -> (r: Sexp)
    ensures
        r.deep_view() == d.deep_view(),
    decreases d,
{
    Sexp {
        start_line: d.start_line,
        start_col: d.start_col,
        end_line: d.end_line,
        end_col: d.end_col,
        value: clone_value(&d.value),
    }
}

fn clone_value(v: &SexpValue) -> (r: SexpValue)
    ensures
        r.deep_view() == v.deep_view(),
    decreases v,
{
    match v {
        SexpValue::Number(n) => SexpValue::Number(*n),
        SexpValue::Symbol(s) => SexpValue::Symbol(s.clone()),
        SexpValue::Keyword(s) => SexpValue::Keyword(s.clone()),
        SexpValue::Null => SexpValue::Null,
        SexpValue::Cons(items) => {
            let mut copy: Vec<Sexp> = Vec::new();
            let mut i: usize = 0;
            while i < items.len()
                invariant
                    i <= items.len(),
                    copy.len() == i,
                    *v is Cons,
                    v->Cons_0 == *items,
                    forall|k: int|
                        0 <= k < i ==> (#[trigger] copy[k]).deep_view() == items[k].deep_view(),
                decreases items.len() - i,
            {
                copy.push(clone_sexp(&items[i]));
                i += 1;
            }
            let r = SexpValue::Cons(copy);
            assert(r.deep_view()->Cons_0 =~= v.deep_view()->Cons_0);
            r
        },
        SexpValue::Other => SexpValue::Other,
    }
}

impl Clone for Sexp {
    fn clone(&self) -> (r: Self)
        ensures
            r.deep_view() == self.deep_view(),
    {
        clone_sexp(self)
    }
}

impl Clone for SexpValue {
    fn clone(&self) -> (r: Self)
        ensures
            r.deep_view() == self.deep_view(),
    {
        clone_value(self)
    }
}

/// Why reading stopped: the reader's message and, where it gave one, the
/// line and column at which it stopped.
#[derive(Debug, Clone, PartialEq, Eq, PartialOrd, Ord, Hash)]
pub struct ReadError {
    pub message: String,
    pub location: Option<(usize, usize)>,
}

/// What a `ReadError` holds.
pub struct ReadErrorView {
    pub message: Seq<char>,
    pub location: Option<(usize, usize)>,
}

impl DeepView for ReadError {
    type V = ReadErrorView;

    open spec fn deep_view(&self) -> ReadErrorView {
        ReadErrorView { message: self.message@, location: self.location }
    }
}

/// What reading a text gave: the data read before the reader stopped, in
/// order, and the failure that stopped it, if one did.
#[derive(Debug, Clone, PartialEq, Eq, PartialOrd, Ord, Hash)]
pub struct SexpRead {
    pub forms: Vec<Sexp>,
    pub failure: Option<ReadError>,
}

/// What a `SexpRead` holds.
pub struct SexpReadView {
    pub forms: Seq<SexpView>,
    pub failure: Option<ReadErrorView>,
}

impl DeepView for SexpRead {
    type V = SexpReadView;

    open spec fn deep_view(&self) -> SexpReadView {
        SexpReadView { forms: self.forms.deep_view(), failure: self.failure.deep_view() }
    }
}

#[verifier::external_type_specification]
#[verifier::external_body]
pub struct ExDatumRef<'a>(lexpr::datum::Ref<'a>);

#[verifier::external_type_specification]
#[verifier::external_body]
pub struct ExNumber(lexpr::Number);

/// What `lexpr`'s parser reads from `text` when `nil` is the empty list, `t`
/// is a symbol and a leading colon marks a keyword.
pub uninterp spec fn sexp_read(text: Seq<char>) -> SexpReadView;

/// `Number::as_u64`, `Number::as_i64` and `Number::as_f64` of `lexpr`, each
/// copied as it came; the float by its bits. Nothing is claimed of the
/// result here.
#[verifier::external_body]
fn lower_number(n: &lexpr::Number) -> SexpNumber {
    let as_f64 = match n.as_f64() {
        Some(x) => Some(EqF64(x.to_bits())),
        None => None,
    };
    SexpNumber { as_u64: n.as_u64(), as_i64: n.as_i64(), as_f64 }
}

/// Copies one datum of `lexpr` with its span (`Ref::span`, `Ref::value`),
/// and the elements that `Ref::list_iter` gives in the same way. Nothing is
/// claimed of the result here.
#[verifier::external_body]
fn lower_datum(d: lexpr::datum::Ref<'_>) -> Sexp {
    let value = match d.value() {
        Value::Number(n) => SexpValue::Number(lower_number(n)),
        Value::Symbol(s) => SexpValue::Symbol(s.to_string()),
        Value::Keyword(s) => SexpValue::Keyword(s.to_string()),
        Value::Null => SexpValue::Null,
        Value::Cons(_) => SexpValue::Cons(d.list_iter().into_iter().flatten().map(lower_datum).collect()),
        _ => SexpValue::Other,
    };
    let (start, end) = (d.span().start(), d.span().end());
    Sexp { start_line: start.line(), start_col: start.column(), end_line: end.line(), end_col: end.column(), value }
}

/// `lexpr::Parser::from_str_custom` and `Parser::datum_iter`, up to the
/// first error, of which the message and `Error::location` are kept. The
/// reader works on the text alone, so the same text always reads as the
/// same data: the result is `sexp_read` of the text.
#[verifier::external_body]
pub(crate) fn read_forms(contents: &str) -> (r: SexpRead)
    ensures
        r.deep_view() == sexp_read(contents@),
{
    let options = Options::new().with_nil_symbol(NilSymbol::EmptyList).with_t_symbol(TSymbol::Default);
    let mut parser = Parser::from_str_custom(contents, options.with_keyword_syntax(KeywordSyntax::ColonPrefix));
    let mut forms = vec![];
    for item in parser.datum_iter() {
        match item {
            Ok(datum) => forms.push(lower_datum(datum.as_ref())),
            Err(e) => {
                let location = e.location().map(|l| (l.line(), l.column()));
                return SexpRead { forms, failure: Some(ReadError { message: e.to_string(), location }) };
            },
        }
    }
    SexpRead { forms, failure: None }
}

} // verus!
