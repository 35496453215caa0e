//! Tests of the property aggregator: normalization of one variant's records
//! and the duplicate-occurrence diagnostics.

use multi_version::{
    Attr, AttrArgs, Diag, DiagKind, DiagPart, HasMultiVersionVariantProperties, Leaf, LeafKind,
    Tok, TokKind, Variant, VariantExt, occurrence_error, variant_properties,
};

fn tok(kind: TokKind, span: u64) -> Tok {
    Tok { kind, span }
}

fn leaf(kind: LeafKind, span: u64) -> Leaf {
    Leaf { kind, span }
}

fn mv_attr(toks: Vec<Tok>, span: u64) -> Attr {
    Attr {
        leading_colon: false,
        segments: vec!["multi_version".to_owned()],
        seg_args: false,
        args: AttrArgs::Paren(toks),
        span,
    }
}

fn implemented(span: u64, value: &str) -> Vec<Tok> {
    vec![
        tok(TokKind::Ident("implemented".to_owned()), span),
        tok(TokKind::Equals, span + 1),
        tok(TokKind::LitStr(value.to_owned()), span + 2),
    ]
}

fn deprecated(span: u64, value: &str) -> Vec<Tok> {
    vec![
        tok(TokKind::Ident("deprecated".to_owned()), span),
        tok(TokKind::Equals, span + 1),
        tok(TokKind::LitStr(value.to_owned()), span + 2),
    ]
}

fn alternative(span: u64, pairs: &[(&str, u64)]) -> Vec<Tok> {
    let mut inner = Vec::new();
    for (k, (range, value)) in pairs.iter().enumerate() {
        if k > 0 {
            inner.push(leaf(LeafKind::Comma, span + 10 + 3 * k as u64));
        }
        inner.push(leaf(LeafKind::LitStr((*range).to_owned()), span + 11 + 3 * k as u64));
        inner.push(leaf(LeafKind::Comma, span + 12 + 3 * k as u64));
        inner.push(leaf(LeafKind::LitInt(*value), span + 13 + 3 * k as u64));
    }
    vec![
        tok(TokKind::Ident("alternative_version".to_owned()), span),
        tok(TokKind::Group(inner), span + 1),
    ]
}

fn variant(ident: &str, attrs: Vec<Attr>) -> Variant {
    Variant { ident: ident.to_owned(), attrs }
}

#[test]
fn bag_holds_all_three_properties() {
    let mut toks = implemented(10, "1.0.0");
    toks.push(tok(TokKind::Comma, 13));
    toks.extend(deprecated(14, "2.0.0"));
    let v = variant(
        "A",
        vec![mv_attr(toks, 1), mv_attr(alternative(20, &[(">=1.0.0", 7)]), 2)],
    );
    let bag = variant_properties(&v).unwrap();
    assert_eq!(bag.implemented.as_deref(), Some("1.0.0"));
    assert_eq!(bag.deprecated.as_deref(), Some("2.0.0"));
    assert_eq!(bag.alternate_versions.len(), 1);
    assert_eq!(bag.alternate_versions[0].range, ">=1.0.0");
    assert_eq!(bag.alternate_versions[0].value, 7);
}

#[test]
fn variant_without_metadata_has_empty_bag() {
    let v = variant("A", vec![]);
    let bag = variant_properties(&v).unwrap();
    assert_eq!(bag.implemented, None);
    assert_eq!(bag.deprecated, None);
    assert!(bag.alternate_versions.is_empty());
}

#[test]
fn two_implemented_records_fail_with_both_spans() {
    let v = variant(
        "A",
        vec![mv_attr(implemented(10, "1.0.0"), 1), mv_attr(implemented(20, "1.1.0"), 2)],
    );
    let err = variant_properties(&v).unwrap_err();
    assert_eq!(
        err,
        Diag {
            parts: vec![
                DiagPart { kind: DiagKind::DuplicateImplemented, span: 20 },
                DiagPart { kind: DiagKind::FirstOccurrence, span: 10 },
            ]
        }
    );
}

#[test]
fn two_deprecated_records_fail_with_both_spans() {
    let mut toks = deprecated(10, "2.0.0");
    toks.push(tok(TokKind::Comma, 13));
    toks.extend(deprecated(14, "3.0.0"));
    let v = variant("A", vec![mv_attr(toks, 1)]);
    let err = variant_properties(&v).unwrap_err();
    assert_eq!(
        err,
        Diag {
            parts: vec![
                DiagPart { kind: DiagKind::DuplicateDeprecated, span: 14 },
                DiagPart { kind: DiagKind::FirstOccurrence, span: 10 },
            ]
        }
    );
}

#[test]
fn alternative_records_accumulate_in_encounter_order() {
    let v = variant(
        "A",
        vec![
            mv_attr(alternative(10, &[(">=1.0.0", 1), (">=2.0.0", 2)]), 1),
            mv_attr(alternative(40, &[(">=3.0.0", 3)]), 2),
        ],
    );
    let bag = variant_properties(&v).unwrap();
    let ranges: Vec<&str> = bag.alternate_versions.iter().map(|p| p.range.as_str()).collect();
    assert_eq!(ranges, vec![">=1.0.0", ">=2.0.0", ">=3.0.0"]);
    let values: Vec<u64> = bag.alternate_versions.iter().map(|p| p.value).collect();
    assert_eq!(values, vec![1, 2, 3]);
}

#[test]
fn occurrence_error_reports_second_then_first() {
    let d = occurrence_error(5, 9, DiagKind::DuplicateImplemented);
    assert_eq!(d.parts.len(), 2);
    assert_eq!(d.parts[0], DiagPart { kind: DiagKind::DuplicateImplemented, span: 9 });
    assert_eq!(d.parts[1], DiagPart { kind: DiagKind::FirstOccurrence, span: 5 });
}

#[test]
fn trait_surface_matches_free_functions() {
    let v = variant("A", vec![mv_attr(implemented(10, "1.0.0"), 1)]);
    let ms = v.get_metadata().unwrap();
    assert_eq!(ms.len(), 1);
    let bag = v.get_variant_properties().unwrap();
    assert_eq!(bag.implemented.as_deref(), Some("1.0.0"));
}
