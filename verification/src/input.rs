//! The in-memory model of one parsed type declaration, as the external
//! front-end hands it over: the enumeration's name, its attributes, the
//! number of lifetime parameters, and the ordered variant list, each variant
//! with its own attribute list.
//!
//! Attribute argument tokens are modelled as plain values. The grammar this
//! library accepts nests at most two levels deep (an attribute's argument
//! list may contain one parenthesized pair list), so a token is either a
//! [`Tok`], whose group case holds leaf tokens, or a [`Leaf`]. Any token
//! outside the model (a nested group, an unrecognized punct) is carried as
//! `Other` and rejected by the grammar exactly where the shape it stands in
//! is rejected. Every token carries an opaque span identifier for
//! diagnostics.

use vstd::prelude::*;

verus! {

/// A token that carries no further nesting.
#[derive(Clone, PartialEq, Debug)]
pub enum LeafKind {
    Ident(String),
    LitStr(String),
    LitInt(u64),
    Equals,
    Comma,
    PathSep,
    Other,
}

/// A leaf token with its span.
#[derive(Clone, PartialEq, Debug)]
pub struct Leaf {
    pub kind: LeafKind,
    pub span: u64,
}

/// A token of an attribute's argument list; a parenthesized group holds
/// leaf tokens.
#[derive(Clone, PartialEq, Debug)]
pub enum TokKind {
    Ident(String),
    LitStr(String),
    LitInt(u64),
    Equals,
    Comma,
    PathSep,
    Group(Vec<Leaf>),
    Other,
}

/// A token with its span.
#[derive(Clone, PartialEq, Debug)]
pub struct Tok {
    pub kind: TokKind,
    pub span: u64,
}

/// What follows an attribute's path: nothing, an `= ...` tail, one
/// delimited group, or anything else.
#[derive(Clone, PartialEq, Debug)]
pub enum AttrArgs {
    /// No tokens after the path, as in `#[multi_version]`.
    Empty,
    /// An `=` tail, as in `#[multi_version = "..."]`; the span is the `=`.
    EqTail(u64),
    /// One parenthesized group and nothing after it.
    Paren(Vec<Tok>),
    /// One bracketed group and nothing after it.
    Bracket(Vec<Tok>),
    /// One braced group and nothing after it.
    Brace(Vec<Tok>),
    /// Any other token shape; the span is the first stray token.
    OtherTokens(u64),
}

/// One attribute: its path, broken into plain segments, and its arguments.
#[derive(Clone, PartialEq, Debug)]
pub struct Attr {
    /// Whether the path starts with a leading `::`.
    pub leading_colon: bool,
    /// The path's segment names in order.
    pub segments: Vec<String>,
    /// Whether any segment carries generic or parenthesized path arguments.
    pub seg_args: bool,
    /// The tokens after the path.
    pub args: AttrArgs,
    /// The span of the whole attribute.
    pub span: u64,
}

/// One declared variant: its identifier and its attribute list.
#[derive(Clone, PartialEq, Debug)]
pub struct Variant {
    pub ident: String,
    pub attrs: Vec<Attr>,
}

/// The shape of the annotated type.
#[derive(Clone, PartialEq, Debug)]
pub enum Data {
    /// An enumeration with its variants in declaration order.
    Enum(Vec<Variant>),
    /// A record type.
    Struct,
    /// A union type.
    Union,
}

/// One parsed type declaration, as handed over by the front-end.
#[derive(Clone, PartialEq, Debug)]
pub struct DeriveInput {
    /// The type's name.
    pub ident: String,
    /// The type-level attributes, for representation selection.
    pub attrs: Vec<Attr>,
    /// How many lifetime parameters the type declares.
    pub lifetimes: u64,
    /// The type's shape and contents.
    pub data: Data,
}

// ---------------------------------------------------------------------------
// Mathematical views of the model.
// ---------------------------------------------------------------------------

/// View of a leaf token.
pub enum LeafKindV {
    Ident(Seq<char>),
    LitStr(Seq<char>),
    LitInt(u64),
    Equals,
    Comma,
    PathSep,
    Other,
}

pub struct LeafV {
    pub kind: LeafKindV,
    pub span: u64,
}

/// View of an argument token.
pub enum TokKindV {
    Ident(Seq<char>),
    LitStr(Seq<char>),
    LitInt(u64),
    Equals,
    Comma,
    PathSep,
    Group(Seq<LeafV>),
    Other,
}

pub struct TokV {
    pub kind: TokKindV,
    pub span: u64,
}

pub enum AttrArgsV {
    Empty,
    EqTail(u64),
    Paren(Seq<TokV>),
    Bracket(Seq<TokV>),
    Brace(Seq<TokV>),
    OtherTokens(u64),
}

pub struct AttrV {
    pub leading_colon: bool,
    pub segments: Seq<Seq<char>>,
    pub seg_args: bool,
    pub args: AttrArgsV,
    pub span: u64,
}

pub struct VariantV {
    pub ident: Seq<char>,
    pub attrs: Seq<AttrV>,
}

pub enum DataV {
    Enum(Seq<VariantV>),
    Struct,
    Union,
}

pub struct DeriveInputV {
    pub ident: Seq<char>,
    pub attrs: Seq<AttrV>,
    pub lifetimes: u64,
    pub data: DataV,
}

/// The views of a leaf list, elementwise.
pub open spec fn view_leafs(ts: Seq<Leaf>) -> Seq<LeafV> {
    ts.map_values(|l: Leaf| l@)
}

/// The views of a token list, elementwise.
pub open spec fn view_toks(ts: Seq<Tok>) -> Seq<TokV> {
    ts.map_values(|t: Tok| t@)
}

/// The views of an attribute list, elementwise.
pub open spec fn view_attrs(ts: Seq<Attr>) -> Seq<AttrV> {
    ts.map_values(|a: Attr| a@)
}

/// The views of a variant list, elementwise.
pub open spec fn view_variants(ts: Seq<Variant>) -> Seq<VariantV> {
    ts.map_values(|v: Variant| v@)
}

/// Whether a string equals a keyword, decided at the level of views.
pub(crate) fn str_is(s: &String, kw: &str) -> (r: bool)
    ensures
        r == (s@ == kw@),
{
    let k: String = kw.to_owned();
    *s == k
}

impl View for Leaf {
    type V = LeafV;

    open spec fn view(&self) -> LeafV {
        LeafV {
            kind: match self.kind {
                LeafKind::Ident(s) => LeafKindV::Ident(s@),
                LeafKind::LitStr(s) => LeafKindV::LitStr(s@),
                LeafKind::LitInt(n) => LeafKindV::LitInt(n),
                LeafKind::Equals => LeafKindV::Equals,
                LeafKind::Comma => LeafKindV::Comma,
                LeafKind::PathSep => LeafKindV::PathSep,
                LeafKind::Other => LeafKindV::Other,
            },
            span: self.span,
        }
    }
}

impl View for Tok {
    type V = TokV;

    open spec fn view(&self) -> TokV {
        TokV {
            kind: match self.kind {
                TokKind::Ident(s) => TokKindV::Ident(s@),
                TokKind::LitStr(s) => TokKindV::LitStr(s@),
                TokKind::LitInt(n) => TokKindV::LitInt(n),
                TokKind::Equals => TokKindV::Equals,
                TokKind::Comma => TokKindV::Comma,
                TokKind::PathSep => TokKindV::PathSep,
                TokKind::Group(ls) => TokKindV::Group(ls@.map_values(|l: Leaf| l@)),
                TokKind::Other => TokKindV::Other,
            },
            span: self.span,
        }
    }
}

impl View for Attr {
    type V = AttrV;

    open spec fn view(&self) -> AttrV {
        AttrV {
            leading_colon: self.leading_colon,
            segments: self.segments@.map_values(|s: String| s@),
            seg_args: self.seg_args,
            args: match self.args {
                AttrArgs::Empty => AttrArgsV::Empty,
                AttrArgs::EqTail(sp) => AttrArgsV::EqTail(sp),
                AttrArgs::Paren(ts) => AttrArgsV::Paren(ts@.map_values(|t: Tok| t@)),
                AttrArgs::Bracket(ts) => AttrArgsV::Bracket(ts@.map_values(|t: Tok| t@)),
                AttrArgs::Brace(ts) => AttrArgsV::Brace(ts@.map_values(|t: Tok| t@)),
                AttrArgs::OtherTokens(sp) => AttrArgsV::OtherTokens(sp),
            },
            span: self.span,
        }
    }
}

impl View for Variant {
    type V = VariantV;

    open spec fn view(&self) -> VariantV {
        VariantV { ident: self.ident@, attrs: self.attrs@.map_values(|a: Attr| a@) }
    }
}

impl View for DeriveInput {
    type V = DeriveInputV;

    open spec fn view(&self) -> DeriveInputV {
        DeriveInputV {
            ident: self.ident@,
            attrs: self.attrs@.map_values(|a: Attr| a@),
            lifetimes: self.lifetimes,
            data: match self.data {
                Data::Enum(vs) => DataV::Enum(vs@.map_values(|v: Variant| v@)),
                Data::Struct => DataV::Struct,
                Data::Union => DataV::Union,
            },
        }
    }
}

} // verus!
