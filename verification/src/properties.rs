//! The annotation parser and the property aggregator.
//!
//! The parser recognizes, inside the argument list of each `multi_version`
//! attribute, a comma-separated sequence of metadata entries in exactly three
//! shapes: `implemented = "<version>"`, `deprecated = "<version>"`, and
//! `alternative_version("<range>", <int>, ...)`. The aggregator folds the
//! ordered records of one variant into a single normalized property bag,
//! rejecting a second `implemented` or `deprecated` record as a hard error.

use vstd::prelude::*;

use crate::diag::Diag;
use crate::diag::DiagKind;
use crate::diag::DiagPart;
use crate::diag::spec_diag;
use crate::diag::spec_occurrence_error;
use crate::diag::occurrence_error;
use crate::input::Attr;
use crate::input::AttrArgsV;
use crate::input::AttrV;
use crate::input::Leaf;
use crate::input::LeafKind;
use crate::input::LeafKindV;
use crate::input::LeafV;
use crate::input::Tok;
use crate::input::TokKind;
use crate::input::TokKindV;
use crate::input::TokV;
use crate::input::Variant;
use crate::input::VariantV;
use crate::input::str_is;
use crate::input::view_attrs;
use crate::input::view_leafs;
use crate::input::view_toks;

verus! {

/// One override rule: a version range expression paired with the
/// discriminant value it selects.
#[derive(Clone, PartialEq, Debug)]
pub struct AltPair {
    pub range: String,
    pub value: u64,
}

/// View of an override rule.
pub struct AltPairV {
    pub range: Seq<char>,
    pub value: u64,
}

impl View for AltPair {
    type V = AltPairV;

    open spec fn view(&self) -> AltPairV {
        AltPairV { range: self.range@, value: self.value }
    }
}

/// The views of an override-rule list, elementwise.
pub open spec fn view_pairs(ps: Seq<AltPair>) -> Seq<AltPairV> {
    ps.map_values(|p: AltPair| p@)
}

/// One raw metadata record, as parsed from an attribute's argument list.
/// Each record remembers the span of its keyword for diagnostics.
#[derive(Clone, PartialEq, Debug)]
pub enum VariantMeta {
    Implemented { kw_span: u64, value: String },
    Deprecated { kw_span: u64, value: String },
    AlternativeVersion { kw_span: u64, versions: Vec<AltPair> },
}

/// View of a raw metadata record.
pub enum VariantMetaV {
    Implemented { kw_span: u64, value: Seq<char> },
    Deprecated { kw_span: u64, value: Seq<char> },
    AlternativeVersion { kw_span: u64, versions: Seq<AltPairV> },
}

impl View for VariantMeta {
    type V = VariantMetaV;

    open spec fn view(&self) -> VariantMetaV {
        match self {
            VariantMeta::Implemented { kw_span, value } => VariantMetaV::Implemented {
                kw_span: *kw_span,
                value: value@,
            },
            VariantMeta::Deprecated { kw_span, value } => VariantMetaV::Deprecated {
                kw_span: *kw_span,
                value: value@,
            },
            VariantMeta::AlternativeVersion { kw_span, versions } => VariantMetaV::AlternativeVersion {
                kw_span: *kw_span,
                versions: view_pairs(versions@),
            },
        }
    }
}

/// The views of a record list, elementwise.
pub open spec fn view_metas(ms: Seq<VariantMeta>) -> Seq<VariantMetaV> {
    ms.map_values(|m: VariantMeta| m@)
}

/// The span of a record's keyword.
pub open spec fn spec_meta_span(m: VariantMetaV) -> u64 {
    match m {
        VariantMetaV::Implemented { kw_span, .. } => kw_span,
        VariantMetaV::Deprecated { kw_span, .. } => kw_span,
        VariantMetaV::AlternativeVersion { kw_span, .. } => kw_span,
    }
}

impl VariantMeta {
    /// The span of this record's keyword.
    pub fn span(&self) -> (r: u64)
        ensures
            r == spec_meta_span(self@),
    {
        match self {
            VariantMeta::Implemented { kw_span, .. } => *kw_span,
            VariantMeta::Deprecated { kw_span, .. } => *kw_span,
            VariantMeta::AlternativeVersion { kw_span, .. } => *kw_span,
        }
    }
}

// ---------------------------------------------------------------------------
// The annotation grammar, as spec functions over token views.
// ---------------------------------------------------------------------------

/// Parses the leaf tokens of an `alternative_version(...)` group, from
/// position `i` on, as `("<range>", <int>)` pairs separated by commas, with
/// an optional trailing comma. `fb` is the span blamed when the input ends
/// inside a pair; `acc` holds the pairs already parsed.
pub open spec fn spec_parse_pairs(ts: Seq<LeafV>, i: int, fb: u64, acc: Seq<AltPairV>) -> Result<
    Seq<AltPairV>,
    Seq<DiagPart>,
>
    decreases ts.len() - i,
{
    if i < 0 || i >= ts.len() {
        Ok(acc)
    } else {
        match ts[i].kind {
            LeafKindV::LitStr(range) => {
                if i + 1 >= ts.len() {
                    Err(spec_diag(DiagKind::ExpectedComma, fb))
                } else if !(ts[i + 1].kind is Comma) {
                    Err(spec_diag(DiagKind::ExpectedComma, ts[i + 1].span))
                } else if i + 2 >= ts.len() {
                    Err(spec_diag(DiagKind::ExpectedInt, fb))
                } else {
                    match ts[i + 2].kind {
                        LeafKindV::LitInt(value) => {
                            let acc2 = acc.push(AltPairV { range, value });
                            if i + 3 >= ts.len() {
                                Ok(acc2)
                            } else if ts[i + 3].kind is Comma {
                                spec_parse_pairs(ts, i + 4, fb, acc2)
                            } else {
                                Err(spec_diag(DiagKind::ExpectedComma, ts[i + 3].span))
                            }
                        },
                        _ => Err(spec_diag(DiagKind::ExpectedInt, ts[i + 2].span)),
                    }
                }
            },
            _ => Err(spec_diag(DiagKind::ExpectedString, ts[i].span)),
        }
    }
}

/// Parses one metadata entry at position `i`, dispatching on the keyword
/// that starts it; unrecognized keywords are an error at the keyword's span.
pub open spec fn spec_parse_entry(ts: Seq<TokV>, i: int, fb: u64) -> Result<
    VariantMetaV,
    Seq<DiagPart>,
>
    recommends
        0 <= i < ts.len(),
{
    match ts[i].kind {
        TokKindV::Ident(name) => {
            if name == "implemented"@ || name == "deprecated"@ {
                if i + 1 >= ts.len() {
                    Err(spec_diag(DiagKind::ExpectedEquals, fb))
                } else if !(ts[i + 1].kind is Equals) {
                    Err(spec_diag(DiagKind::ExpectedEquals, ts[i + 1].span))
                } else if i + 2 >= ts.len() {
                    Err(spec_diag(DiagKind::ExpectedString, fb))
                } else {
                    match ts[i + 2].kind {
                        TokKindV::LitStr(value) => {
                            if name == "implemented"@ {
                                Ok(VariantMetaV::Implemented { kw_span: ts[i].span, value })
                            } else {
                                Ok(VariantMetaV::Deprecated { kw_span: ts[i].span, value })
                            }
                        },
                        _ => Err(spec_diag(DiagKind::ExpectedString, ts[i + 2].span)),
                    }
                }
            } else if name == "alternative_version"@ {
                if i + 1 >= ts.len() {
                    Err(spec_diag(DiagKind::ExpectedParens, fb))
                } else {
                    match ts[i + 1].kind {
                        TokKindV::Group(inner) => {
                            match spec_parse_pairs(inner, 0, ts[i + 1].span, Seq::empty()) {
                                Ok(ps) => Ok(
                                    VariantMetaV::AlternativeVersion {
                                        kw_span: ts[i].span,
                                        versions: ps,
                                    },
                                ),
                                Err(e) => Err(e),
                            }
                        },
                        _ => Err(spec_diag(DiagKind::ExpectedParens, ts[i + 1].span)),
                    }
                }
            } else {
                Err(spec_diag(DiagKind::ExpectedKeyword, ts[i].span))
            }
        },
        _ => Err(spec_diag(DiagKind::ExpectedKeyword, ts[i].span)),
    }
}

/// How many tokens a successfully parsed entry consumed.
pub open spec fn spec_meta_consumed(m: VariantMetaV) -> int {
    match m {
        VariantMetaV::Implemented { .. } => 3,
        VariantMetaV::Deprecated { .. } => 3,
        VariantMetaV::AlternativeVersion { .. } => 2,
    }
}

/// Parses a whole argument list, from position `i` on, as entries separated
/// by commas with an optional trailing comma; `acc` holds the records
/// already parsed.
pub open spec fn spec_parse_meta_list(ts: Seq<TokV>, i: int, fb: u64, acc: Seq<VariantMetaV>) -> Result<
    Seq<VariantMetaV>,
    Seq<DiagPart>,
>
    decreases ts.len() - i,
{
    if i < 0 || i >= ts.len() {
        Ok(acc)
    } else {
        match spec_parse_entry(ts, i, fb) {
            Err(e) => Err(e),
            Ok(m) => {
                let j = i + spec_meta_consumed(m);
                if j >= ts.len() {
                    Ok(acc.push(m))
                } else if ts[j].kind is Comma {
                    spec_parse_meta_list(ts, j + 1, fb, acc.push(m))
                } else {
                    Err(spec_diag(DiagKind::ExpectedComma, ts[j].span))
                }
            },
        }
    }
}

/// Whether an attribute's path is exactly the reserved `multi_version`
/// metadata namespace.
pub open spec fn spec_is_meta_path(a: AttrV) -> bool {
    &&& !a.leading_colon
    &&& a.segments.len() == 1
    &&& !a.seg_args
    &&& a.segments[0] == "multi_version"@
}

/// Enters a metadata attribute's argument list: one delimited group is
/// required, anything else is an error.
pub open spec fn spec_enter_args(a: AttrV) -> Result<Seq<TokV>, Seq<DiagPart>> {
    match a.args {
        AttrArgsV::Empty => Err(spec_diag(DiagKind::ExpectedArgsParens, a.span)),
        AttrArgsV::EqTail(sp) => Err(spec_diag(DiagKind::ExpectedParens, sp)),
        AttrArgsV::Paren(ts) => Ok(ts),
        AttrArgsV::Bracket(ts) => Ok(ts),
        AttrArgsV::Brace(ts) => Ok(ts),
        AttrArgsV::OtherTokens(sp) => Err(spec_diag(DiagKind::UnexpectedTokenInArgs, sp)),
    }
}

/// Collects, over the attribute list from position `i` on, the records of
/// every attribute in the reserved namespace, in order; attributes outside
/// the namespace are ignored, and the first malformed one aborts with its
/// error.
pub open spec fn spec_get_metadata(attrs: Seq<AttrV>, i: int, acc: Seq<VariantMetaV>) -> Result<
    Seq<VariantMetaV>,
    Seq<DiagPart>,
>
    decreases attrs.len() - i,
{
    if i < 0 || i >= attrs.len() {
        Ok(acc)
    } else if !spec_is_meta_path(attrs[i]) {
        spec_get_metadata(attrs, i + 1, acc)
    } else {
        match spec_enter_args(attrs[i]) {
            Err(e) => Err(e),
            Ok(ts) => match spec_parse_meta_list(ts, 0, attrs[i].span, acc) {
                Err(e) => Err(e),
                Ok(acc2) => spec_get_metadata(attrs, i + 1, acc2),
            },
        }
    }
}

// ---------------------------------------------------------------------------
// The executable parser.
// ---------------------------------------------------------------------------

/// Parses the leaf tokens of an `alternative_version(...)` group as range /
/// value pairs.
fn parse_pairs(ts: &Vec<Leaf>, fb: u64) -> (r: Result<Vec<AltPair>, Diag>)
    ensures
        match r {
            Ok(ps) => spec_parse_pairs(view_leafs(ts@), 0, fb, Seq::empty()) == Ok::<
                Seq<AltPairV>,
                Seq<DiagPart>,
            >(view_pairs(ps@)),
            Err(d) => spec_parse_pairs(view_leafs(ts@), 0, fb, Seq::empty()) == Err::<
                Seq<AltPairV>,
                Seq<DiagPart>,
            >(d@),
        },
{
    let ghost tsv = view_leafs(ts@);
    let mut out: Vec<AltPair> = Vec::new();
    let mut i: usize = 0;
    proof {
        assert(view_pairs(out@) =~= Seq::<AltPairV>::empty());
    }
    loop
        invariant
            i <= ts.len(),
            tsv == view_leafs(ts@),
            spec_parse_pairs(tsv, 0, fb, Seq::empty()) == spec_parse_pairs(
                tsv,
                i as int,
                fb,
                view_pairs(out@),
            ),
        decreases ts.len() - i,
    {
        if i >= ts.len() {
            return Ok(out);
        }
        let range = match &ts[i].kind {
            LeafKind::LitStr(s) => s.clone(),
            _ => {
                return Err(Diag::new(DiagKind::ExpectedString, ts[i].span));
            },
        };
        if i + 1 >= ts.len() {
            return Err(Diag::new(DiagKind::ExpectedComma, fb));
        }
        match &ts[i + 1].kind {
            LeafKind::Comma => {},
            _ => {
                return Err(Diag::new(DiagKind::ExpectedComma, ts[i + 1].span));
            },
        }
        if i + 2 >= ts.len() {
            return Err(Diag::new(DiagKind::ExpectedInt, fb));
        }
        let value = match &ts[i + 2].kind {
            LeafKind::LitInt(n) => *n,
            _ => {
                return Err(Diag::new(DiagKind::ExpectedInt, ts[i + 2].span));
            },
        };
        let ghost old_out = out@;
        out.push(AltPair { range, value });
        proof {
            assert(view_pairs(out@) =~= view_pairs(old_out).push(
                AltPairV { range: tsv[i as int].kind->LitStr_0, value },
            ));
        }
        if i + 3 >= ts.len() {
            return Ok(out);
        }
        match &ts[i + 3].kind {
            LeafKind::Comma => {},
            _ => {
                return Err(Diag::new(DiagKind::ExpectedComma, ts[i + 3].span));
            },
        }
        i = i + 4;
    }
}

/// Parses one whole argument list, appending the records to `out`.
fn parse_meta_list(ts: &Vec<Tok>, fb: u64, out: &mut Vec<VariantMeta>) -> (r: Result<(), Diag>)
    ensures
        match r {
            Ok(_) => spec_parse_meta_list(view_toks(ts@), 0, fb, view_metas(old(out)@)) == Ok::<
                Seq<VariantMetaV>,
                Seq<DiagPart>,
            >(view_metas(final(out)@)),
            Err(d) => spec_parse_meta_list(view_toks(ts@), 0, fb, view_metas(old(out)@)) == Err::<
                Seq<VariantMetaV>,
                Seq<DiagPart>,
            >(d@),
        },
{
    let ghost tsv = view_toks(ts@);
    let mut i: usize = 0;
    loop
        invariant
            i <= ts.len(),
            tsv == view_toks(ts@),
            spec_parse_meta_list(tsv, 0, fb, view_metas(old(out)@)) == spec_parse_meta_list(
                tsv,
                i as int,
                fb,
                view_metas(out@),
            ),
        decreases ts.len() - i,
    {
        if i >= ts.len() {
            return Ok(());
        }
        let consumed: usize;
        let meta: VariantMeta;
        match &ts[i].kind {
            TokKind::Ident(name) => {
                if str_is(name, "implemented") || str_is(name, "deprecated") {
                    if i + 1 >= ts.len() {
                        return Err(Diag::new(DiagKind::ExpectedEquals, fb));
                    }
                    match &ts[i + 1].kind {
                        TokKind::Equals => {},
                        _ => {
                            return Err(Diag::new(DiagKind::ExpectedEquals, ts[i + 1].span));
                        },
                    }
                    if i + 2 >= ts.len() {
                        return Err(Diag::new(DiagKind::ExpectedString, fb));
                    }
                    let value = match &ts[i + 2].kind {
                        TokKind::LitStr(s) => s.clone(),
                        _ => {
                            return Err(Diag::new(DiagKind::ExpectedString, ts[i + 2].span));
                        },
                    };
                    if str_is(name, "implemented") {
                        meta = VariantMeta::Implemented { kw_span: ts[i].span, value };
                    } else {
                        meta = VariantMeta::Deprecated { kw_span: ts[i].span, value };
                    }
                    consumed = 3;
                } else if str_is(name, "alternative_version") {
                    if i + 1 >= ts.len() {
                        return Err(Diag::new(DiagKind::ExpectedParens, fb));
                    }
                    match &ts[i + 1].kind {
                        TokKind::Group(inner) => {
                            match parse_pairs(inner, ts[i + 1].span) {
                                Ok(ps) => {
                                    meta = VariantMeta::AlternativeVersion {
                                        kw_span: ts[i].span,
                                        versions: ps,
                                    };
                                    consumed = 2;
                                },
                                Err(d) => {
                                    return Err(d);
                                },
                            }
                        },
                        _ => {
                            return Err(Diag::new(DiagKind::ExpectedParens, ts[i + 1].span));
                        },
                    }
                } else {
                    return Err(Diag::new(DiagKind::ExpectedKeyword, ts[i].span));
                }
            },
            _ => {
                return Err(Diag::new(DiagKind::ExpectedKeyword, ts[i].span));
            },
        }
        proof {
            assert(spec_parse_entry(tsv, i as int, fb) == Ok::<VariantMetaV, Seq<DiagPart>>(meta@));
            assert(spec_meta_consumed(meta@) == consumed as int);
        }
        let ghost old_mid = out@;
        out.push(meta);
        proof {
            assert(view_metas(out@) =~= view_metas(old_mid).push(meta@));
        }
        let j = i + consumed;
        if j >= ts.len() {
            return Ok(());
        }
        match &ts[j].kind {
            TokKind::Comma => {},
            _ => {
                return Err(Diag::new(DiagKind::ExpectedComma, ts[j].span));
            },
        }
        i = j + 1;
    }
}

/// Collects the metadata records of every `multi_version` attribute in the
/// list, in order. Attributes outside the reserved namespace are ignored;
/// the first malformed attribute aborts with its diagnostic.
pub fn get_metadata_inner(attrs: &Vec<Attr>) -> (r: Result<Vec<VariantMeta>, Diag>)
    ensures
        match r {
            Ok(ms) => spec_get_metadata(view_attrs(attrs@), 0, Seq::empty()) == Ok::<
                Seq<VariantMetaV>,
                Seq<DiagPart>,
            >(view_metas(ms@)),
            Err(d) => spec_get_metadata(view_attrs(attrs@), 0, Seq::empty()) == Err::<
                Seq<VariantMetaV>,
                Seq<DiagPart>,
            >(d@),
        },
{
    let ghost av = view_attrs(attrs@);
    let mut out: Vec<VariantMeta> = Vec::new();
    let mut i: usize = 0;
    proof {
        assert(view_metas(out@) =~= Seq::<VariantMetaV>::empty());
    }
    loop
        invariant
            i <= attrs.len(),
            av == view_attrs(attrs@),
            spec_get_metadata(av, 0, Seq::empty()) == spec_get_metadata(
                av,
                i as int,
                view_metas(out@),
            ),
        decreases attrs.len() - i,
    {
        if i >= attrs.len() {
            return Ok(out);
        }
        let a = &attrs[i];
        let is_meta = !a.leading_colon && a.segments.len() == 1 && !a.seg_args && str_is(
            &a.segments[0],
            "multi_version",
        );
        if is_meta {
            let ts: &Vec<Tok> = match &a.args {
                crate::input::AttrArgs::Empty => {
                    return Err(Diag::new(DiagKind::ExpectedArgsParens, a.span));
                },
                crate::input::AttrArgs::EqTail(sp) => {
                    return Err(Diag::new(DiagKind::ExpectedParens, *sp));
                },
                crate::input::AttrArgs::Paren(ts) => ts,
                crate::input::AttrArgs::Bracket(ts) => ts,
                crate::input::AttrArgs::Brace(ts) => ts,
                crate::input::AttrArgs::OtherTokens(sp) => {
                    return Err(Diag::new(DiagKind::UnexpectedTokenInArgs, *sp));
                },
            };
            match parse_meta_list(ts, a.span, &mut out) {
                Ok(_) => {},
                Err(d) => {
                    return Err(d);
                },
            }
        }
        i = i + 1;
    }
}

// ---------------------------------------------------------------------------
// The property aggregator.
// ---------------------------------------------------------------------------

/// The normalized property bag of one variant: at most one `implemented`
/// version, at most one `deprecated` version, and the override rules
/// accumulated in declaration order. Version strings are carried opaquely;
/// the synthesis engine interprets them.
#[derive(Clone, PartialEq, Debug, Default)]
pub struct MultiVersionVariantProperties {
    pub implemented: Option<String>,
    pub deprecated: Option<String>,
    pub alternate_versions: Vec<AltPair>,
}

/// View of a property bag.
pub struct PropsV {
    pub implemented: Option<Seq<char>>,
    pub deprecated: Option<Seq<char>>,
    pub alternate_versions: Seq<AltPairV>,
}

impl View for MultiVersionVariantProperties {
    type V = PropsV;

    open spec fn view(&self) -> PropsV {
        PropsV {
            implemented: match self.implemented {
                Some(ref s) => Some(s@),
                None => None,
            },
            deprecated: match self.deprecated {
                Some(ref s) => Some(s@),
                None => None,
            },
            alternate_versions: view_pairs(self.alternate_versions@),
        }
    }
}

/// The empty property bag.
pub open spec fn spec_empty_props() -> PropsV {
    PropsV { implemented: None, deprecated: None, alternate_versions: Seq::empty() }
}

/// Folds the records from position `i` on into the bag `acc`. `impl_kw` and
/// `depr_kw` remember the keyword spans of the records already folded, so
/// that a second occurrence is rejected with both source locations.
pub open spec fn spec_aggregate(
    ms: Seq<VariantMetaV>,
    i: int,
    acc: PropsV,
    impl_kw: Option<u64>,
    depr_kw: Option<u64>,
) -> Result<PropsV, Seq<DiagPart>>
    decreases ms.len() - i,
{
    if i < 0 || i >= ms.len() {
        Ok(acc)
    } else {
        match ms[i] {
            VariantMetaV::Implemented { kw_span, value } => {
                match impl_kw {
                    Some(fst) => Err(
                        spec_occurrence_error(fst, kw_span, DiagKind::DuplicateImplemented),
                    ),
                    None => spec_aggregate(
                        ms,
                        i + 1,
                        PropsV { implemented: Some(value), ..acc },
                        Some(kw_span),
                        depr_kw,
                    ),
                }
            },
            VariantMetaV::Deprecated { kw_span, value } => {
                match depr_kw {
                    Some(fst) => Err(
                        spec_occurrence_error(fst, kw_span, DiagKind::DuplicateDeprecated),
                    ),
                    None => spec_aggregate(
                        ms,
                        i + 1,
                        PropsV { deprecated: Some(value), ..acc },
                        impl_kw,
                        Some(kw_span),
                    ),
                }
            },
            VariantMetaV::AlternativeVersion { versions, .. } => spec_aggregate(
                ms,
                i + 1,
                PropsV { alternate_versions: acc.alternate_versions + versions, ..acc },
                impl_kw,
                depr_kw,
            ),
        }
    }
}

/// The normalized property bag of one variant, or the diagnostic of its
/// first malformed or duplicated record.
pub open spec fn spec_variant_props(v: VariantV) -> Result<PropsV, Seq<DiagPart>> {
    match spec_get_metadata(v.attrs, 0, Seq::empty()) {
        Err(e) => Err(e),
        Ok(ms) => spec_aggregate(ms, 0, spec_empty_props(), None, None),
    }
}

/// Folds a variant's metadata records into its normalized property bag; a
/// second `implemented` or `deprecated` record fails with a diagnostic that
/// carries both occurrences' spans.
pub fn variant_properties(v: &Variant) -> (r: Result<MultiVersionVariantProperties, Diag>)
    ensures
        match r {
            Ok(p) => spec_variant_props(v@) == Ok::<PropsV, Seq<DiagPart>>(p@),
            Err(d) => spec_variant_props(v@) == Err::<PropsV, Seq<DiagPart>>(d@),
        },
{
    proof {
        assert(view_attrs(v.attrs@) == v@.attrs);
    }
    let ms = match get_metadata_inner(&v.attrs) {
        Ok(ms) => ms,
        Err(d) => {
            return Err(d);
        },
    };
    let ghost msv = view_metas(ms@);
    proof {
        assert(spec_get_metadata(v@.attrs, 0, Seq::empty()) == Ok::<
            Seq<VariantMetaV>,
            Seq<DiagPart>,
        >(msv));
        assert(spec_variant_props(v@) == spec_aggregate(msv, 0, spec_empty_props(), None, None));
    }
    let mut props = MultiVersionVariantProperties {
        implemented: None,
        deprecated: None,
        alternate_versions: Vec::new(),
    };
    let mut impl_kw: Option<u64> = None;
    let mut depr_kw: Option<u64> = None;
    let mut i: usize = 0;
    proof {
        assert(props@.alternate_versions =~= Seq::<AltPairV>::empty());
        assert(props@ == spec_empty_props());
    }
    loop
        invariant
            i <= ms.len(),
            msv == view_metas(ms@),
            spec_variant_props(v@) == spec_aggregate(msv, i as int, props@, impl_kw, depr_kw),
        decreases ms.len() - i,
    {
        if i >= ms.len() {
            return Ok(props);
        }
        match &ms[i] {
            VariantMeta::Implemented { kw_span, value } => {
                match impl_kw {
                    Some(fst) => {
                        return Err(occurrence_error(fst, *kw_span, DiagKind::DuplicateImplemented));
                    },
                    None => {
                        props.implemented = Some(value.clone());
                        impl_kw = Some(*kw_span);
                    },
                }
            },
            VariantMeta::Deprecated { kw_span, value } => {
                match depr_kw {
                    Some(fst) => {
                        return Err(occurrence_error(fst, *kw_span, DiagKind::DuplicateDeprecated));
                    },
                    None => {
                        props.deprecated = Some(value.clone());
                        depr_kw = Some(*kw_span);
                    },
                }
            },
            VariantMeta::AlternativeVersion { versions, .. } => {
                let ghost pre = props@;
                let ghost vsv = view_pairs(versions@);
                let mut k: usize = 0;
                while k < versions.len()
                    invariant
                        k <= versions.len(),
                        vsv == view_pairs(versions@),
                        props@.implemented == pre.implemented,
                        props@.deprecated == pre.deprecated,
                        props@.alternate_versions =~= pre.alternate_versions + vsv.subrange(
                            0,
                            k as int,
                        ),
                    decreases versions.len() - k,
                {
                    let ghost before_push = props@.alternate_versions;
                    let p = &versions[k];
                    props.alternate_versions.push(AltPair { range: p.range.clone(), value: p.value });
                    proof {
                        assert(props@.alternate_versions =~= before_push.push(vsv[k as int]));
                        assert(vsv.subrange(0, (k + 1) as int) =~= vsv.subrange(0, k as int).push(
                            vsv[k as int],
                        ));
                    }
                    k = k + 1;
                }
                proof {
                    assert(vsv.subrange(0, versions.len() as int) =~= vsv);
                    assert(props@.alternate_versions =~= pre.alternate_versions + vsv);
                }
            },
        }
        i = i + 1;
    }
}

proof fn lemma_dup_impl_walk(
    ms: Seq<VariantMetaV>,
    t: int,
    acc: PropsV,
    impl_kw: Option<u64>,
    depr_kw: Option<u64>,
    i: int,
    j: int,
)
    requires
        0 <= t <= j < ms.len(),
        i < j,
        ms[i] is Implemented,
        ms[j] is Implemented,
        forall|k: int| 0 <= k < j && k != i ==> !(#[trigger] ms[k] is Implemented),
        impl_kw is None ==> t <= i,
        impl_kw matches Some(sp) ==> i < t && sp == spec_meta_span(ms[i]),
        depr_kw is Some ==> forall|k: int| t <= k < j ==> !(#[trigger] ms[k] is Deprecated),
        depr_kw is None ==> forall|k1: int, k2: int|
            t <= k1 < k2 < j ==> !(ms[k1] is Deprecated && ms[k2] is Deprecated),
    ensures
        spec_aggregate(ms, t, acc, impl_kw, depr_kw) == Err::<PropsV, Seq<DiagPart>>(
            spec_occurrence_error(
                spec_meta_span(ms[i]),
                spec_meta_span(ms[j]),
                DiagKind::DuplicateImplemented,
            ),
        ),
    decreases j - t,
{
    if t == j {
        assert(impl_kw matches Some(sp) && sp == spec_meta_span(ms[i]));
    } else {
        match ms[t] {
            VariantMetaV::Implemented { kw_span, value } => {
                assert(t == i);
                lemma_dup_impl_walk(
                    ms,
                    t + 1,
                    PropsV { implemented: Some(value), ..acc },
                    Some(kw_span),
                    depr_kw,
                    i,
                    j,
                );
            },
            VariantMetaV::Deprecated { kw_span, value } => {
                assert(depr_kw is None);
                lemma_dup_impl_walk(
                    ms,
                    t + 1,
                    PropsV { deprecated: Some(value), ..acc },
                    impl_kw,
                    Some(kw_span),
                    i,
                    j,
                );
            },
            VariantMetaV::AlternativeVersion { versions, .. } => {
                lemma_dup_impl_walk(
                    ms,
                    t + 1,
                    PropsV { alternate_versions: acc.alternate_versions + versions, ..acc },
                    impl_kw,
                    depr_kw,
                    i,
                    j,
                );
            },
        }
    }
}

/// A second `implemented` record on one variant fails aggregation with a
/// duplicate-occurrence diagnostic that carries both source locations: the
/// second occurrence as the primary site and the first as context. Here `i`
/// and `j` are the positions of the only two `implemented` records up to
/// `j`, and no duplicated `deprecated` pair precedes `j` (such a pair would
/// be the earlier error).
pub proof fn lemma_duplicate_implemented_rejected(ms: Seq<VariantMetaV>, i: int, j: int)
    requires
        0 <= i < j < ms.len(),
        ms[i] is Implemented,
        ms[j] is Implemented,
        forall|k: int| 0 <= k < j && k != i ==> !(#[trigger] ms[k] is Implemented),
        forall|k1: int, k2: int|
            0 <= k1 < k2 < j ==> !(ms[k1] is Deprecated && ms[k2] is Deprecated),
    ensures
        spec_aggregate(ms, 0, spec_empty_props(), None, None) == Err::<PropsV, Seq<DiagPart>>(
            spec_occurrence_error(
                spec_meta_span(ms[i]),
                spec_meta_span(ms[j]),
                DiagKind::DuplicateImplemented,
            ),
        ),
{
    lemma_dup_impl_walk(ms, 0, spec_empty_props(), None, None, i, j);
}

/// Access to the raw metadata records of a variant.
pub trait VariantExt {
    /// What the metadata records of this value are: the records of its
    /// attributes in the reserved namespace, in order, or the diagnostic of
    /// the first malformed attribute.
    spec fn metadata_spec(&self) -> Result<Seq<VariantMetaV>, Seq<DiagPart>>;

    /// All the metadata records attached to the variant, in order.
    fn get_metadata(&self) -> (r: Result<Vec<VariantMeta>, Diag>)
        ensures
            match r {
                Ok(ms) => self.metadata_spec() == Ok::<Seq<VariantMetaV>, Seq<DiagPart>>(
                    view_metas(ms@),
                ),
                Err(d) => self.metadata_spec() == Err::<Seq<VariantMetaV>, Seq<DiagPart>>(d@),
            },
    ;
}

impl VariantExt for Variant {
    open spec fn metadata_spec(&self) -> Result<Seq<VariantMetaV>, Seq<DiagPart>> {
        spec_get_metadata(self@.attrs, 0, Seq::empty())
    }

    fn get_metadata(&self) -> (r: Result<Vec<VariantMeta>, Diag>) {
        get_metadata_inner(&self.attrs)
    }
}

/// Access to the normalized property bag of a variant.
pub trait HasMultiVersionVariantProperties {
    /// What the normalized property bag of this value is, or the diagnostic
    /// of its first malformed or duplicated record.
    spec fn props_spec(&self) -> Result<PropsV, Seq<DiagPart>>;

    /// The variant's normalized property bag, or the diagnostic of its
    /// first malformed or duplicated record.
    fn get_variant_properties(&self) -> (r: Result<MultiVersionVariantProperties, Diag>)
        ensures
            match r {
                Ok(p) => self.props_spec() == Ok::<PropsV, Seq<DiagPart>>(p@),
                Err(d) => self.props_spec() == Err::<PropsV, Seq<DiagPart>>(d@),
            },
    ;
}

impl HasMultiVersionVariantProperties for Variant {
    open spec fn props_spec(&self) -> Result<PropsV, Seq<DiagPart>> {
        spec_variant_props(self@)
    }

    fn get_variant_properties(&self) -> (r: Result<MultiVersionVariantProperties, Diag>) {
        variant_properties(self)
    }
}

} // verus!
