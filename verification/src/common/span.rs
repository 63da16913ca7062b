//! Places in source text: the file a place lies in, and the lines and columns
//! that it covers.

use crate::common::text::{decimal, spec_decimal, ToText};
use std::rc::Rc;
use vstd::prelude::*;

verus! {

/// One source file: its name and its text, line by line.
#[derive(Debug, Clone, PartialEq, Eq, PartialOrd, Ord, Hash)]
pub struct ParseCtx {
    pub filename: String,
    pub lines: Vec<String>,
}

/// What a `ParseCtx` holds.
pub struct ParseCtxView {
    pub filename: Seq<char>,
    pub lines: Seq<Seq<char>>,
}

impl DeepView for ParseCtx {
    type V = ParseCtxView;

    open spec fn deep_view(&self) -> ParseCtxView {
        ParseCtxView { filename: self.filename@, lines: self.lines.deep_view() }
    }
}

/// A section of a source file, from a start line and column to an end line
/// and column.
#[derive(Debug, PartialEq, Eq, PartialOrd, Ord, Hash)]
pub struct SpanPlace {
    pub ctx: Rc<ParseCtx>,
    pub start_line: usize,
    pub start_col: usize,
    pub end_line: usize,
    pub end_col: usize,
}

/// What a `SpanPlace` holds.
pub struct SpanPlaceView {
    pub ctx: ParseCtxView,
    pub start_line: usize,
    pub start_col: usize,
    pub end_line: usize,
    pub end_col: usize,
}

impl DeepView for SpanPlace {
    type V = SpanPlaceView;

    open spec fn deep_view(&self) -> SpanPlaceView {
        SpanPlaceView {
            ctx: self.ctx.deep_view(),
            start_line: self.start_line,
            start_col: self.start_col,
            end_line: self.end_line,
            end_col: self.end_col,
        }
    }
}

/// `Rc::clone` of std: the new handle points to the same file record as
/// `ctx`, so the two are equal.
#[verifier::external_body]
pub(crate) fn share_ctx(ctx: &Rc<ParseCtx>) -> (r: Rc<ParseCtx>)
    ensures
        r == *ctx,
{
    Rc::clone(ctx)
}

impl Clone for SpanPlace {
    fn clone(&self) -> (r: Self)
        ensures
            r == *self,
    {
        SpanPlace {
            ctx: share_ctx(&self.ctx),
            start_line: self.start_line,
            start_col: self.start_col,
            end_line: self.end_line,
            end_col: self.end_col,
        }
    }
}

/// The place just past `span`: it lies on the line on which `span` ends,
/// one column after the end of `span`, and is empty.
pub open spec fn spec_mark_end(span: SpanPlaceView) -> SpanPlaceView {
    SpanPlaceView {
        ctx: span.ctx,
        start_line: span.end_line,
        start_col: (span.end_col + 1) as usize,
        end_line: span.end_line,
        end_col: (span.end_col + 1) as usize,
    }
}

/// `file:line:column` of the start of `span`.
pub open spec fn spec_place_text(span: SpanPlaceView) -> Seq<char> {
    span.ctx.filename + seq![':'] + spec_decimal(span.start_line as nat) + seq![':']
        + spec_decimal(span.start_col as nat)
}

impl SpanPlace {
    /// The place in `ctx` between the given start and end positions.
    pub fn from_lexpr(
        ctx: Rc<ParseCtx>,
        start_line: usize,
        start_col: usize,
        end_line: usize,
        end_col: usize,
    ) -> (r: Self)
        ensures
            r == (SpanPlace { ctx, start_line, start_col, end_line, end_col }),
    {
        SpanPlace { ctx, start_line, start_col, end_line, end_col }
    }

    /// The one-column place in `ctx` at the given line and column.
    pub fn from_loc(ctx: Rc<ParseCtx>, line: usize, column: usize) -> (r: Self)
        requires
            column < usize::MAX,
        ensures
            r == (SpanPlace {
                ctx,
                start_line: line,
                start_col: column,
                end_line: line,
                end_col: (column + 1) as usize,
            }),
    {
        SpanPlace { ctx, start_line: line, start_col: column, end_line: line, end_col: column + 1 }
    }

    /// The empty place just past this one, for reporting what is missing
    /// after it.
    pub fn mark_end(self) -> (r: Self)
        requires
            self.end_col < usize::MAX,
        ensures
            r.deep_view() == spec_mark_end(self.deep_view()),
            r.ctx == self.ctx,
            r.start_line == self.end_line,
            r.start_col == self.end_col + 1,
            r.end_line == self.end_line,
            r.end_col == self.end_col + 1,
    {
        SpanPlace {
            ctx: self.ctx,
            start_line: self.end_line,
            start_col: self.end_col + 1,
            end_line: self.end_line,
            end_col: self.end_col + 1,
        }
    }
}

impl ToText for SpanPlace {
    open spec fn text(&self) -> Seq<char> {
        spec_place_text(self.deep_view())
    }

    fn to_text(&self) -> (s: String) {
        let mut s = self.ctx.filename.clone();
        s.append(":");
        s.append(decimal(self.start_line as u64).as_str());
        s.append(":");
        s.append(decimal(self.start_col as u64).as_str());
        proof {
            reveal_strlit(":");
            assert(":"@ =~= seq![':']);
        }
        s
    }
}

/// A value together with the place it was read from.
#[derive(Debug, PartialEq, Eq, PartialOrd, Ord, Hash)]
pub struct Span<T> {
    pub span: SpanPlace,
    pub t: T,
}

/// What a `Span` holds.
pub struct SpanView<T> {
    pub span: SpanPlaceView,
    pub t: T,
}

impl<T: DeepView> DeepView for Span<T> {
    type V = SpanView<T::V>;

    open spec fn deep_view(&self) -> SpanView<T::V> {
        SpanView { span: self.span.deep_view(), t: self.t.deep_view() }
    }
}

impl<T: Clone> Clone for Span<T> {
    fn clone(&self) -> (r: Self)
        ensures
            r.span == self.span,
            cloned::<T>(self.t, r.t),
    {
        Span { span: self.span.clone(), t: self.t.clone() }
    }
}

impl<T> Span<T> {
    /// Applies `f` to the value and keeps the place.
    pub fn map<U, F: FnOnce(T) -> U>(self, f: F) -> (r: Span<U>)
        requires
            f.requires((self.t,)),
        ensures
            r.span == self.span,
            f.ensures((self.t,), r.t),
    {
        Span { span: self.span, t: f(self.t) }
    }

    /// Applies `f` to the value and keeps the place; fails where `f` fails,
    /// with its error.
    pub fn map_res<U, E, F: FnOnce(T) -> Result<U, E>>(self, f: F) -> (r: Result<Span<U>, E>)
        requires
            f.requires((self.t,)),
        ensures
            match r {
                Ok(s) => s.span == self.span && f.ensures((self.t,), Ok(s.t)),
                Err(e) => f.ensures((self.t,), Err(e)),
            },
    {
        match f(self.t) {
            Ok(t) => Ok(Span { span: self.span, t }),
            Err(e) => Err(e),
        }
    }

    /// The same place with a reference to the value.
    pub fn as_ref(&self) -> (r: Span<&T>)
        ensures
            r.span == self.span,
            *r.t == self.t,
    {
        Span { span: self.span.clone(), t: &self.t }
    }
}

} // verus!
