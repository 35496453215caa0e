//! Tests of the synthesis engine: structural rejection, representation
//! selection, and the shape of the synthesized lookup structure.

use multi_version::{
    Attr, AttrArgs, Data, DeriveInput, Diag, DiagKind, DiagPart, DiscriminantType, Tok, TokKind,
    Variant, derive_multi_version_inner, CALL_SITE,
};

fn tok(kind: TokKind, span: u64) -> Tok {
    Tok { kind, span }
}

fn plain_attr(name: &str, toks: Vec<Tok>, span: u64) -> Attr {
    Attr {
        leading_colon: false,
        segments: vec![name.to_owned()],
        seg_args: false,
        args: AttrArgs::Paren(toks),
        span,
    }
}

fn repr(kind_name: &str, span: u64) -> Attr {
    plain_attr("repr", vec![tok(TokKind::Ident(kind_name.to_owned()), span + 1)], span)
}

fn variant(ident: &str) -> Variant {
    Variant { ident: ident.to_owned(), attrs: vec![] }
}

fn enum_input(attrs: Vec<Attr>, lifetimes: u64, variants: Vec<Variant>) -> DeriveInput {
    DeriveInput { ident: "Proto".to_owned(), attrs, lifetimes, data: Data::Enum(variants) }
}

fn one_part(kind: DiagKind, span: u64) -> Diag {
    Diag { parts: vec![DiagPart { kind, span }] }
}

#[test]
fn lifetimes_are_rejected_immediately() {
    let input = enum_input(vec![], 1, vec![variant("A")]);
    let err = derive_multi_version_inner(&input).unwrap_err();
    assert_eq!(err, one_part(DiagKind::LifetimesUnsupported, CALL_SITE));
}

#[test]
fn non_enums_are_rejected() {
    let input = DeriveInput {
        ident: "Proto".to_owned(),
        attrs: vec![],
        lifetimes: 0,
        data: Data::Struct,
    };
    let err = derive_multi_version_inner(&input).unwrap_err();
    assert_eq!(err, one_part(DiagKind::EnumsOnly, CALL_SITE));
}

#[test]
fn lifetime_rejection_precedes_the_enum_check() {
    let input = DeriveInput {
        ident: "Proto".to_owned(),
        attrs: vec![],
        lifetimes: 2,
        data: Data::Union,
    };
    let err = derive_multi_version_inner(&input).unwrap_err();
    assert_eq!(err, one_part(DiagKind::LifetimesUnsupported, CALL_SITE));
}

#[test]
fn discriminant_defaults_to_pointer_width_unsigned() {
    let g = derive_multi_version_inner(&enum_input(vec![], 0, vec![variant("A")])).unwrap();
    assert_eq!(g.discriminant, DiscriminantType::Usize);
}

#[test]
fn recognized_repr_selects_the_kind() {
    let g = derive_multi_version_inner(&enum_input(vec![repr("u8", 10)], 0, vec![variant("A")]))
        .unwrap();
    assert_eq!(g.discriminant, DiscriminantType::U8);
    let g = derive_multi_version_inner(&enum_input(vec![repr("i64", 10)], 0, vec![variant("A")]))
        .unwrap();
    assert_eq!(g.discriminant, DiscriminantType::I64);
}

#[test]
fn unrecognized_repr_silently_defaults() {
    let g = derive_multi_version_inner(&enum_input(vec![repr("C", 10)], 0, vec![variant("A")]))
        .unwrap();
    assert_eq!(g.discriminant, DiscriminantType::Usize);
}

#[test]
fn last_recognized_repr_wins() {
    let g = derive_multi_version_inner(&enum_input(
        vec![repr("u8", 10), repr("i32", 20)],
        0,
        vec![variant("A")],
    ))
    .unwrap();
    assert_eq!(g.discriminant, DiscriminantType::I32);
}

#[test]
fn path_qualified_repr_kind_matches_by_last_segment() {
    let attr = plain_attr(
        "repr",
        vec![
            tok(TokKind::Ident("core".to_owned()), 11),
            tok(TokKind::PathSep, 12),
            tok(TokKind::Ident("u16".to_owned()), 13),
        ],
        10,
    );
    let g = derive_multi_version_inner(&enum_input(vec![attr], 0, vec![variant("A")])).unwrap();
    assert_eq!(g.discriminant, DiscriminantType::U16);
}

#[test]
fn arms_keep_name_and_declaration_order() {
    let g = derive_multi_version_inner(&enum_input(
        vec![],
        0,
        vec![variant("A"), variant("B"), variant("C")],
    ))
    .unwrap();
    assert_eq!(g.name, "Proto");
    let idents: Vec<&str> = g.arms.iter().map(|a| a.ident.as_str()).collect();
    assert_eq!(idents, vec!["A", "B", "C"]);
    assert!(g.arms.iter().all(|a| a.props.implemented.is_none()));
}

#[test]
fn first_malformed_variant_aborts_synthesis() {
    let bad = Variant {
        ident: "B".to_owned(),
        attrs: vec![plain_attr(
            "multi_version",
            vec![tok(TokKind::Ident("bogus".to_owned()), 42)],
            40,
        )],
    };
    let input = enum_input(vec![], 0, vec![variant("A"), bad, variant("C")]);
    let err = derive_multi_version_inner(&input).unwrap_err();
    assert_eq!(err, one_part(DiagKind::ExpectedKeyword, 42));
}
