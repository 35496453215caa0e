//! Tests of the annotation parser: the three metadata keywords, entry
//! separation, and the diagnostics for malformed argument lists.

use multi_version::{
    Attr, AttrArgs, Diag, DiagKind, DiagPart, Leaf, LeafKind, Tok, TokKind, VariantMeta,
    get_metadata_inner,
};

fn tok(kind: TokKind, span: u64) -> Tok {
    Tok { kind, span }
}

fn leaf(kind: LeafKind, span: u64) -> Leaf {
    Leaf { kind, span }
}

fn mv_attr(toks: Vec<Tok>, span: u64) -> Attr {
    Attr {
        leading_colon: false,
        segments: vec!["multi_version".to_owned()],
        seg_args: false,
        args: AttrArgs::Paren(toks),
        span,
    }
}

fn one_part(kind: DiagKind, span: u64) -> Diag {
    Diag { parts: vec![DiagPart { kind, span }] }
}

#[test]
fn implemented_entry_parses() {
    let attr = mv_attr(
        vec![
            tok(TokKind::Ident("implemented".to_owned()), 10),
            tok(TokKind::Equals, 11),
            tok(TokKind::LitStr("1.2.0".to_owned()), 12),
        ],
        1,
    );
    let ms = get_metadata_inner(&vec![attr]).unwrap();
    assert_eq!(
        ms,
        vec![VariantMeta::Implemented { kw_span: 10, value: "1.2.0".to_owned() }]
    );
}

#[test]
fn several_entries_separated_by_commas() {
    let attr = mv_attr(
        vec![
            tok(TokKind::Ident("implemented".to_owned()), 10),
            tok(TokKind::Equals, 11),
            tok(TokKind::LitStr("1.0.0".to_owned()), 12),
            tok(TokKind::Comma, 13),
            tok(TokKind::Ident("deprecated".to_owned()), 14),
            tok(TokKind::Equals, 15),
            tok(TokKind::LitStr("2.0.0".to_owned()), 16),
            tok(TokKind::Comma, 17),
        ],
        1,
    );
    let ms = get_metadata_inner(&vec![attr]).unwrap();
    assert_eq!(ms.len(), 2);
    assert_eq!(ms[0], VariantMeta::Implemented { kw_span: 10, value: "1.0.0".to_owned() });
    assert_eq!(ms[1], VariantMeta::Deprecated { kw_span: 14, value: "2.0.0".to_owned() });
}

#[test]
fn alternative_version_pairs_parse_in_order() {
    let attr = mv_attr(
        vec![
            tok(TokKind::Ident("alternative_version".to_owned()), 10),
            tok(
                TokKind::Group(vec![
                    leaf(LeafKind::LitStr(">=1.0.0, <1.5.0".to_owned()), 20),
                    leaf(LeafKind::Comma, 21),
                    leaf(LeafKind::LitInt(7), 22),
                    leaf(LeafKind::Comma, 23),
                    leaf(LeafKind::LitStr(">=1.5.0".to_owned()), 24),
                    leaf(LeafKind::Comma, 25),
                    leaf(LeafKind::LitInt(9), 26),
                ]),
                11,
            ),
        ],
        1,
    );
    let ms = get_metadata_inner(&vec![attr]).unwrap();
    assert_eq!(ms.len(), 1);
    match &ms[0] {
        VariantMeta::AlternativeVersion { kw_span, versions } => {
            assert_eq!(*kw_span, 10);
            assert_eq!(versions.len(), 2);
            assert_eq!(versions[0].range, ">=1.0.0, <1.5.0");
            assert_eq!(versions[0].value, 7);
            assert_eq!(versions[1].range, ">=1.5.0");
            assert_eq!(versions[1].value, 9);
        },
        other => panic!("expected an alternative_version record, got {:?}", other),
    }
}

#[test]
fn empty_argument_list_yields_no_records() {
    let attr = mv_attr(vec![], 1);
    assert_eq!(get_metadata_inner(&vec![attr]).unwrap(), vec![]);
}

#[test]
fn foreign_attributes_are_ignored() {
    let foreign = Attr {
        leading_colon: false,
        segments: vec!["serde".to_owned()],
        seg_args: false,
        args: AttrArgs::Paren(vec![tok(TokKind::Other, 99)]),
        span: 5,
    };
    assert_eq!(get_metadata_inner(&vec![foreign]).unwrap(), vec![]);
}

#[test]
fn unknown_keyword_is_an_error_at_its_span() {
    let attr = mv_attr(vec![tok(TokKind::Ident("bogus".to_owned()), 42)], 1);
    let err = get_metadata_inner(&vec![attr]).unwrap_err();
    assert_eq!(err, one_part(DiagKind::ExpectedKeyword, 42));
}

#[test]
fn missing_equals_is_an_error() {
    let attr = mv_attr(
        vec![
            tok(TokKind::Ident("implemented".to_owned()), 10),
            tok(TokKind::LitStr("1.0.0".to_owned()), 11),
        ],
        1,
    );
    let err = get_metadata_inner(&vec![attr]).unwrap_err();
    assert_eq!(err, one_part(DiagKind::ExpectedEquals, 11));
}

#[test]
fn missing_value_blames_the_attribute() {
    let attr = mv_attr(
        vec![
            tok(TokKind::Ident("deprecated".to_owned()), 10),
            tok(TokKind::Equals, 11),
        ],
        7,
    );
    let err = get_metadata_inner(&vec![attr]).unwrap_err();
    assert_eq!(err, one_part(DiagKind::ExpectedString, 7));
}

#[test]
fn pair_missing_integer_is_an_error() {
    let attr = mv_attr(
        vec![
            tok(TokKind::Ident("alternative_version".to_owned()), 10),
            tok(
                TokKind::Group(vec![
                    leaf(LeafKind::LitStr(">=1.0.0".to_owned()), 20),
                    leaf(LeafKind::Comma, 21),
                    leaf(LeafKind::LitStr("oops".to_owned()), 22),
                ]),
                11,
            ),
        ],
        1,
    );
    let err = get_metadata_inner(&vec![attr]).unwrap_err();
    assert_eq!(err, one_part(DiagKind::ExpectedInt, 22));
}

#[test]
fn alternative_version_without_parens_is_an_error() {
    let attr = mv_attr(
        vec![
            tok(TokKind::Ident("alternative_version".to_owned()), 10),
            tok(TokKind::LitStr(">=1.0.0".to_owned()), 11),
        ],
        1,
    );
    let err = get_metadata_inner(&vec![attr]).unwrap_err();
    assert_eq!(err, one_part(DiagKind::ExpectedParens, 11));
}

#[test]
fn attribute_without_arguments_is_an_error() {
    let attr = Attr {
        leading_colon: false,
        segments: vec!["multi_version".to_owned()],
        seg_args: false,
        args: AttrArgs::Empty,
        span: 3,
    };
    let err = get_metadata_inner(&vec![attr]).unwrap_err();
    assert_eq!(err, one_part(DiagKind::ExpectedArgsParens, 3));
}

#[test]
fn attribute_with_equals_tail_is_an_error() {
    let attr = Attr {
        leading_colon: false,
        segments: vec!["multi_version".to_owned()],
        seg_args: false,
        args: AttrArgs::EqTail(8),
        span: 3,
    };
    let err = get_metadata_inner(&vec![attr]).unwrap_err();
    assert_eq!(err, one_part(DiagKind::ExpectedParens, 8));
}

#[test]
fn missing_separator_between_entries_is_an_error() {
    let attr = mv_attr(
        vec![
            tok(TokKind::Ident("implemented".to_owned()), 10),
            tok(TokKind::Equals, 11),
            tok(TokKind::LitStr("1.0.0".to_owned()), 12),
            tok(TokKind::Ident("deprecated".to_owned()), 13),
        ],
        1,
    );
    let err = get_metadata_inner(&vec![attr]).unwrap_err();
    assert_eq!(err, one_part(DiagKind::ExpectedComma, 13));
}

#[test]
fn stray_tokens_around_arguments_are_an_error() {
    let attr = Attr {
        leading_colon: false,
        segments: vec!["multi_version".to_owned()],
        seg_args: false,
        args: AttrArgs::OtherTokens(6),
        span: 3,
    };
    let err = get_metadata_inner(&vec![attr]).unwrap_err();
    assert_eq!(err, one_part(DiagKind::UnexpectedTokenInArgs, 6));
}

#[test]
fn pair_missing_comma_is_an_error() {
    let attr = mv_attr(
        vec![
            tok(TokKind::Ident("alternative_version".to_owned()), 10),
            tok(
                TokKind::Group(vec![
                    leaf(LeafKind::LitStr(">=1.0.0".to_owned()), 20),
                    leaf(LeafKind::LitInt(7), 21),
                ]),
                11,
            ),
        ],
        1,
    );
    let err = get_metadata_inner(&vec![attr]).unwrap_err();
    assert_eq!(err, one_part(DiagKind::ExpectedComma, 21));
}

#[test]
fn pair_cut_short_blames_the_group() {
    let attr = mv_attr(
        vec![
            tok(TokKind::Ident("alternative_version".to_owned()), 10),
            tok(
                TokKind::Group(vec![leaf(LeafKind::LitStr(">=1.0.0".to_owned()), 20)]),
                11,
            ),
        ],
        1,
    );
    let err = get_metadata_inner(&vec![attr]).unwrap_err();
    assert_eq!(err, one_part(DiagKind::ExpectedComma, 11));
}

#[test]
fn trailing_comma_in_pair_list_is_accepted() {
    let attr = mv_attr(
        vec![
            tok(TokKind::Ident("alternative_version".to_owned()), 10),
            tok(
                TokKind::Group(vec![
                    leaf(LeafKind::LitStr(">=1.0.0".to_owned()), 20),
                    leaf(LeafKind::Comma, 21),
                    leaf(LeafKind::LitInt(7), 22),
                    leaf(LeafKind::Comma, 23),
                ]),
                11,
            ),
        ],
        1,
    );
    let ms = get_metadata_inner(&vec![attr]).unwrap();
    match &ms[0] {
        VariantMeta::AlternativeVersion { versions, .. } => {
            assert_eq!(versions.len(), 1);
            assert_eq!(versions[0].value, 7);
        },
        other => panic!("expected an alternative_version record, got {:?}", other),
    }
}

#[test]
fn meta_span_is_the_keyword_span() {
    let m = VariantMeta::Implemented { kw_span: 77, value: "1.0.0".to_owned() };
    assert_eq!(m.span(), 77);
    let m = VariantMeta::AlternativeVersion { kw_span: 78, versions: vec![] };
    assert_eq!(m.span(), 78);
}
