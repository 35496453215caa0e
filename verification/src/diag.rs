//! Structured diagnostics. A failed synthesis returns one [`Diag`]: an
//! ordered list of (kind, source span) parts whose first part is the primary
//! error site. Spans are opaque identifiers handed in with the input model;
//! the span value [`CALL_SITE`] stands for the whole invocation.

use vstd::prelude::*;

verus! {

/// The span value used for errors that point at no particular construct.
pub const CALL_SITE: u64 = 0;

/// The kinds of diagnostic this library reports.
#[derive(Clone, Copy, PartialEq, Eq, Structural, Debug)]
pub enum DiagKind {
    /// The annotated type declares lifetime parameters, which the generated
    /// lookup logic cannot be parameterized over.
    LifetimesUnsupported,
    /// The annotated type is not an enumeration.
    EnumsOnly,
    /// A metadata attribute carries no argument list at all.
    ExpectedArgsParens,
    /// A parenthesized argument list was expected.
    ExpectedParens,
    /// Stray tokens around a metadata attribute's argument list.
    UnexpectedTokenInArgs,
    /// None of the three metadata keywords starts the next entry.
    ExpectedKeyword,
    /// An `=` was expected after `implemented` or `deprecated`.
    ExpectedEquals,
    /// A string literal was expected.
    ExpectedString,
    /// An integer literal was expected.
    ExpectedInt,
    /// A `,` was expected between entries or inside a pair.
    ExpectedComma,
    /// A second `implemented` record on one variant.
    DuplicateImplemented,
    /// A second `deprecated` record on one variant.
    DuplicateDeprecated,
    /// Auxiliary part pointing at the first of two duplicate records.
    FirstOccurrence,
}

/// One (kind, span) part of a diagnostic.
#[derive(Clone, Copy, PartialEq, Eq, Structural, Debug)]
pub struct DiagPart {
    pub kind: DiagKind,
    pub span: u64,
}

/// A diagnostic: one or more parts, the first being the primary error site.
#[derive(Clone, PartialEq, Debug)]
pub struct Diag {
    pub parts: Vec<DiagPart>,
}

impl View for Diag {
    type V = Seq<DiagPart>;

    open spec fn view(&self) -> Seq<DiagPart> {
        self.parts@
    }
}

/// A one-part diagnostic, as a spec value.
pub open spec fn spec_diag(kind: DiagKind, span: u64) -> Seq<DiagPart> {
    seq![DiagPart { kind, span }]
}

/// The two-part diagnostic for a duplicated mutually-exclusive record: the
/// second occurrence is the primary site, the first the auxiliary context.
pub open spec fn spec_occurrence_error(fst: u64, snd: u64, kind: DiagKind) -> Seq<DiagPart> {
    seq![DiagPart { kind, span: snd }, DiagPart { kind: DiagKind::FirstOccurrence, span: fst }]
}

impl Diag {
    /// A one-part diagnostic.
    pub fn new(kind: DiagKind, span: u64) -> (d: Diag)
        ensures
            d@ == spec_diag(kind, span),
    {
        let mut parts: Vec<DiagPart> = Vec::new();
        parts.push(DiagPart { kind, span });
        proof {
            assert(parts@ =~= spec_diag(kind, span));
        }
        Diag { parts }
    }
}

/// The diagnostic reported when one variant carries two records of a
/// mutually-exclusive keyword: the second occurrence `snd` is reported as
/// the primary error site and the first occurrence `fst` as context.
pub fn occurrence_error(fst: u64, snd: u64, kind: DiagKind) -> (d: Diag)
    ensures
        d@ == spec_occurrence_error(fst, snd, kind),
{
    let mut parts: Vec<DiagPart> = Vec::new();
    parts.push(DiagPart { kind, span: snd });
    parts.push(DiagPart { kind: DiagKind::FirstOccurrence, span: fst });
    proof {
        assert(parts@ =~= spec_occurrence_error(fst, snd, kind));
    }
    Diag { parts }
}

} // verus!
