//! Errors of the compiler: what went wrong and where, and the excerpt that
//! shows it to the user.

use crate::common::sepvec::{SepVec, SepVecView};
use crate::common::span::{ParseCtx, ParseCtxView, SpanPlace, SpanPlaceView, spec_place_text};
use crate::common::text::{repeat, spec_join, spec_repeat, ToText};
use crate::hxx::sexp::Sexp;
use std::rc::Rc;
use vstd::prelude::*;
use vstd::string::StringSliceAdditionalSpecFns;

verus! {

/// The kinds of error.
#[derive(Debug, PartialEq, Eq, PartialOrd, Ord, Hash)]
pub enum CerrKind {
    /// The text is no sequence of S-expressions; the reader's message.
    InvalidSexpr(String),
    /// A form does not have the shape the grammar asks for.
    InvalidSyntax,
    /// Something else was expected at this place; what was expected.
    ExpectedThing(String),
    /// A list is shorter than the grammar asks for.
    UnexpectedEndOfList,
    /// No variable of this name is in scope.
    UndeclaredVariable,
    /// The text names no type.
    UndeclaredType,
    /// The name is not an identifier.
    InvalidIdent,
    /// A floating-point literal stands where only integers are accepted.
    FloatsLiteralsUnsupported,
    /// No declaration fits the call.
    NoMatchingFuncDecl,
    /// More than one declaration fits the call; all that fit.
    MultipleMatchingFuncDecls(SepVec<String>),
    /// The tag on a function is not known.
    UnknownAttribute,
}

/// What a `CerrKind` holds.
pub enum CerrKindView {
    InvalidSexpr(Seq<char>),
    InvalidSyntax,
    ExpectedThing(Seq<char>),
    UnexpectedEndOfList,
    UndeclaredVariable,
    UndeclaredType,
    InvalidIdent,
    FloatsLiteralsUnsupported,
    NoMatchingFuncDecl,
    MultipleMatchingFuncDecls(SepVecView<Seq<char>>),
    UnknownAttribute,
}

impl DeepView for CerrKind {
    type V = CerrKindView;

    open spec fn deep_view(&self) -> CerrKindView {
        match self {
            CerrKind::InvalidSexpr(m) => CerrKindView::InvalidSexpr(m@),
            CerrKind::InvalidSyntax => CerrKindView::InvalidSyntax,
            CerrKind::ExpectedThing(s) => CerrKindView::ExpectedThing(s@),
            CerrKind::UnexpectedEndOfList => CerrKindView::UnexpectedEndOfList,
            CerrKind::UndeclaredVariable => CerrKindView::UndeclaredVariable,
            CerrKind::UndeclaredType => CerrKindView::UndeclaredType,
            CerrKind::InvalidIdent => CerrKindView::InvalidIdent,
            CerrKind::FloatsLiteralsUnsupported => CerrKindView::FloatsLiteralsUnsupported,
            CerrKind::NoMatchingFuncDecl => CerrKindView::NoMatchingFuncDecl,
            CerrKind::MultipleMatchingFuncDecls(v) => CerrKindView::MultipleMatchingFuncDecls(
                v.deep_view(),
            ),
            CerrKind::UnknownAttribute => CerrKindView::UnknownAttribute,
        }
    }
}

/// The message of each kind of error.
pub open spec fn spec_kind_text(k: CerrKindView) -> Seq<char> {
    match k {
        CerrKindView::InvalidSexpr(_) => "invalid s-expression"@,
        CerrKindView::InvalidSyntax => "invalid syntax"@,
        CerrKindView::ExpectedThing(s) => "invalid syntax, expected "@ + s,
        CerrKindView::UnexpectedEndOfList => "invalid syntax, unexpected end of list"@,
        CerrKindView::UndeclaredVariable => "undeclared variable"@,
        CerrKindView::UndeclaredType => "undeclared type"@,
        CerrKindView::InvalidIdent => "invalid identifier"@,
        CerrKindView::FloatsLiteralsUnsupported => "float literals are unsupported"@,
        CerrKindView::NoMatchingFuncDecl => "no matching function declaration"@,
        CerrKindView::MultipleMatchingFuncDecls(v) => "multiple matching function declarations:\n  "@
            + spec_join(v.items, v.sep),
        CerrKindView::UnknownAttribute => "unknown attribute"@,
    }
}

impl ToText for CerrKind {
    open spec fn text(&self) -> Seq<char> {
        spec_kind_text(self.deep_view())
    }

    fn to_text(&self) -> (s: String) {
        match self {
            CerrKind::InvalidSexpr(_) => "invalid s-expression".to_owned(),
            CerrKind::InvalidSyntax => "invalid syntax".to_owned(),
            CerrKind::ExpectedThing(what) => {
                let mut s = "invalid syntax, expected ".to_owned();
                s.append(what.as_str());
                s
            },
            CerrKind::UnexpectedEndOfList => "invalid syntax, unexpected end of list".to_owned(),
            CerrKind::UndeclaredVariable => "undeclared variable".to_owned(),
            CerrKind::UndeclaredType => "undeclared type".to_owned(),
            CerrKind::InvalidIdent => "invalid identifier".to_owned(),
            CerrKind::FloatsLiteralsUnsupported => "float literals are unsupported".to_owned(),
            CerrKind::NoMatchingFuncDecl => "no matching function declaration".to_owned(),
            CerrKind::MultipleMatchingFuncDecls(v) => {
                let mut s = "multiple matching function declarations:\n  ".to_owned();
                let list = v.to_text();
                proof {
                    assert(crate::common::sepvec::spec_texts(v.0@) =~= v.0.deep_view());
                }
                s.append(list.as_str());
                s
            },
            CerrKind::UnknownAttribute => "unknown attribute".to_owned(),
        }
    }
}

/// An error: its kind and the place in the source that it is about.
#[derive(Debug, PartialEq, Eq, PartialOrd, Ord, Hash)]
pub struct Cerr {
    pub span: SpanPlace,
    pub kind: CerrKind,
}

/// What a `Cerr` holds.
pub struct CerrView {
    pub span: SpanPlaceView,
    pub kind: CerrKindView,
}

impl DeepView for Cerr {
    type V = CerrView;

    open spec fn deep_view(&self) -> CerrView {
        CerrView { span: self.span.deep_view(), kind: self.kind.deep_view() }
    }
}

/// What a result holds: what its value holds, or what its error holds.
pub open spec fn view_result<T: DeepView, E: DeepView>(r: Result<T, E>) -> Result<T::V, E::V> {
    match r {
        Ok(t) => Ok(t.deep_view()),
        Err(e) => Err(e.deep_view()),
    }
}

/// The text of line `line` of the file, counted from 1; empty where the
/// file has no such line.
pub open spec fn spec_source_line(ctx: ParseCtxView, line: usize) -> Seq<char> {
    if 1 <= line <= ctx.lines.len() {
        ctx.lines[line - 1]
    } else {
        Seq::empty()
    }
}

/// How many `~` mark the place: the columns it covers where it lies on one
/// line, else what is left of its first line in bytes; at least one.
pub open spec fn spec_squiggle_len(span: SpanPlaceView) -> nat {
    let covered: int = if span.start_line != span.end_line {
        vstd::utf8::encode_utf8(spec_source_line(span.ctx, span.start_line)).len()
            - span.start_col
    } else {
        span.end_col - span.start_col
    };
    if covered >= 1 {
        covered as nat
    } else {
        1
    }
}

/// The excerpt for an error: a headline with place and message, the source
/// line, and under it a row of `~` below the place; `...` follows where the
/// place goes on past that line.
pub open spec fn spec_error_text(e: CerrView) -> Seq<char> {
    "error: at "@ + spec_place_text(e.span) + ": "@ + spec_kind_text(e.kind) + "\n"@ + "\n"@
        + "  "@ + spec_source_line(e.span.ctx, e.span.start_line) + "\n"@ + "  "@ + spec_repeat(
        " "@,
        e.span.start_col as nat,
    ) + spec_repeat("~"@, spec_squiggle_len(e.span)) + "\n"@ + (if e.span.start_line
        != e.span.end_line {
        "   ...\n"@
    } else {
        Seq::empty()
    }) + "\n"@
}

impl Cerr {
    /// An error of the given kind about the given place.
    pub fn with_span(kind: CerrKind, span: SpanPlace) -> (r: Self)
        ensures
            r == (Cerr { span, kind }),
    {
        Cerr { span, kind }
    }

    /// An error of the given kind about the place of `val` in the file `ctx`.
    pub fn with_span_of(kind: CerrKind, val: &Sexp, ctx: Rc<ParseCtx>) -> (r: Self)
        ensures
            r == (Cerr {
                span: SpanPlace {
                    ctx,
                    start_line: val.start_line,
                    start_col: val.start_col,
                    end_line: val.end_line,
                    end_col: val.end_col,
                },
                kind,
            }),
    {
        Cerr {
            span: SpanPlace::from_lexpr(
                ctx,
                val.start_line,
                val.start_col,
                val.end_line,
                val.end_col,
            ),
            kind,
        }
    }

    fn source_line(&self) -> (r: &str)
        ensures
            r@ == spec_source_line(self.span.ctx.deep_view(), self.span.start_line),
    {
        let line = self.span.start_line;
        if 1 <= line && line <= self.span.ctx.lines.len() {
            self.span.ctx.lines[line - 1].as_str()
        } else {
            proof {
                reveal_strlit("");
                assert(""@ =~= Seq::<char>::empty());
            }
            ""
        }
    }

    fn squiggle_len(&self) -> (r: usize)
        ensures
            r == spec_squiggle_len(self.span.deep_view()),
    {
        let covered = if self.span.start_line != self.span.end_line {
            let len = self.source_line().as_bytes().len();
            if len >= self.span.start_col {
                len - self.span.start_col
            } else {
                0
            }
        } else if self.span.end_col >= self.span.start_col {
            self.span.end_col - self.span.start_col
        } else {
            0
        };
        if covered >= 1 {
            covered
        } else {
            1
        }
    }
}

impl ToText for Cerr {
    open spec fn text(&self) -> Seq<char> {
        spec_error_text(self.deep_view())
    }

    fn to_text(&self) -> (s: String) {
        let mut s = "error: at ".to_owned();
        s.append(self.span.to_text().as_str());
        s.append(": ");
        s.append(self.kind.to_text().as_str());
        s.append("\n");
        s.append("\n");
        s.append("  ");
        s.append(self.source_line());
        s.append("\n");
        s.append("  ");
        s.append(repeat(" ", self.span.start_col).as_str());
        s.append(repeat("~", self.squiggle_len()).as_str());
        s.append("\n");
        if self.span.start_line != self.span.end_line {
            s.append("   ...\n");
        }
        s.append("\n");
        proof {
            assert(s@ =~= spec_error_text(self.deep_view()));
        }
        s
    }
}

} // verus!
