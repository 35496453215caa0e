//! The synthesis engine. Given one parsed declaration it checks the
//! structural preconditions (an enumeration, no lifetime parameters),
//! resolves the discriminant representation type, folds every variant's
//! metadata into its property bag, and produces the [`GeneratedImpl`] whose
//! arms drive the five query operations of [`crate::query`].

use vstd::prelude::*;

use crate::diag::CALL_SITE;
use crate::diag::Diag;
use crate::diag::DiagKind;
use crate::diag::DiagPart;
use crate::diag::spec_diag;
use crate::input::Attr;
use crate::input::AttrArgsV;
use crate::input::AttrV;
use crate::input::Data;
use crate::input::DeriveInput;
use crate::input::DeriveInputV;
use crate::input::DataV;
use crate::input::Tok;
use crate::input::TokKind;
use crate::input::TokKindV;
use crate::input::TokV;
use crate::input::Variant;
use crate::input::VariantV;
use crate::input::str_is;
use crate::input::view_attrs;
use crate::input::view_toks;
use crate::input::view_variants;
use crate::properties::MultiVersionVariantProperties;
use crate::properties::PropsV;
use crate::properties::spec_variant_props;
use crate::properties::variant_properties;

verus! {

/// The scalar integer representation selected for the discriminant values:
/// one of the eight fixed-width kinds or the two pointer-width kinds.
#[derive(Clone, Copy, PartialEq, Eq, Structural, Debug)]
pub enum DiscriminantType {
    U8,
    U16,
    U32,
    U64,
    Usize,
    I8,
    I16,
    I32,
    I64,
    Isize,
}

/// The integer kind a name denotes, if it is one of the ten recognized
/// kinds.
pub open spec fn spec_int_kind_of(name: Seq<char>) -> Option<DiscriminantType> {
    if name == "u8"@ {
        Some(DiscriminantType::U8)
    } else if name == "u16"@ {
        Some(DiscriminantType::U16)
    } else if name == "u32"@ {
        Some(DiscriminantType::U32)
    } else if name == "u64"@ {
        Some(DiscriminantType::U64)
    } else if name == "usize"@ {
        Some(DiscriminantType::Usize)
    } else if name == "i8"@ {
        Some(DiscriminantType::I8)
    } else if name == "i16"@ {
        Some(DiscriminantType::I16)
    } else if name == "i32"@ {
        Some(DiscriminantType::I32)
    } else if name == "i64"@ {
        Some(DiscriminantType::I64)
    } else if name == "isize"@ {
        Some(DiscriminantType::Isize)
    } else {
        None
    }
}

/// The last segment of a plain path written in tokens, starting at `i`:
/// an identifier, optionally continued by `::` and a further path.
pub open spec fn spec_path_last(ts: Seq<TokV>, i: int) -> Option<Seq<char>>
    decreases ts.len() - i,
{
    if i < 0 || i >= ts.len() {
        None
    } else {
        match ts[i].kind {
            TokKindV::Ident(name) => {
                if i + 1 >= ts.len() {
                    Some(name)
                } else if ts[i + 1].kind is PathSep {
                    spec_path_last(ts, i + 2)
                } else {
                    None
                }
            },
            _ => None,
        }
    }
}

/// The integer kind a `repr(...)` attribute selects, if the attribute is
/// exactly a `repr` path whose parenthesized argument is a plain path ending
/// in a recognized integer kind; anything else selects nothing.
pub open spec fn spec_repr_kind(a: AttrV) -> Option<DiscriminantType> {
    if a.leading_colon || a.segments.len() != 1 || a.seg_args || a.segments[0] != "repr"@ {
        None
    } else {
        match a.args {
            AttrArgsV::Paren(ts) => {
                let start: int = if ts.len() > 0 && ts[0].kind is PathSep {
                    1
                } else {
                    0
                };
                match spec_path_last(ts, start) {
                    Some(name) => spec_int_kind_of(name),
                    None => None,
                }
            },
            _ => None,
        }
    }
}

/// The discriminant type the attribute list from position `i` on resolves
/// to, starting from `cur`: every recognized `repr` annotation overwrites
/// the running choice, so the last one wins; unrecognized annotations are
/// silently ignored.
pub open spec fn spec_resolve_repr(attrs: Seq<AttrV>, i: int, cur: DiscriminantType) -> DiscriminantType
    decreases attrs.len() - i,
{
    if i < 0 || i >= attrs.len() {
        cur
    } else {
        spec_resolve_repr(
            attrs,
            i + 1,
            match spec_repr_kind(attrs[i]) {
                Some(k) => k,
                None => cur,
            },
        )
    }
}

/// The kind an identifier names, if recognized.
fn int_kind_of(name: &String) -> (r: Option<DiscriminantType>)
    ensures
        r == spec_int_kind_of(name@),
{
    if str_is(name, "u8") {
        Some(DiscriminantType::U8)
    } else if str_is(name, "u16") {
        Some(DiscriminantType::U16)
    } else if str_is(name, "u32") {
        Some(DiscriminantType::U32)
    } else if str_is(name, "u64") {
        Some(DiscriminantType::U64)
    } else if str_is(name, "usize") {
        Some(DiscriminantType::Usize)
    } else if str_is(name, "i8") {
        Some(DiscriminantType::I8)
    } else if str_is(name, "i16") {
        Some(DiscriminantType::I16)
    } else if str_is(name, "i32") {
        Some(DiscriminantType::I32)
    } else if str_is(name, "i64") {
        Some(DiscriminantType::I64)
    } else if str_is(name, "isize") {
        Some(DiscriminantType::Isize)
    } else {
        None
    }
}

/// The last segment of a plain path written in tokens, or `None` where the
/// tokens are not such a path.
fn path_last(ts: &Vec<Tok>, start: usize) -> (r: Option<String>)
    ensures
        match r {
            Some(name) => spec_path_last(view_toks(ts@), start as int) == Some(name@),
            None => spec_path_last(view_toks(ts@), start as int) is None,
        },
{
    let ghost tsv = view_toks(ts@);
    let mut i: usize = start;
    loop
        invariant
            tsv == view_toks(ts@),
            start <= i,
            spec_path_last(tsv, start as int) == spec_path_last(tsv, i as int),
        decreases ts.len() - i,
    {
        if i >= ts.len() {
            return None;
        }
        match &ts[i].kind {
            TokKind::Ident(name) => {
                if i + 1 >= ts.len() {
                    return Some(name.clone());
                }
                match &ts[i + 1].kind {
                    TokKind::PathSep => {
                        i = i + 2;
                    },
                    _ => {
                        return None;
                    },
                }
            },
            _ => {
                return None;
            },
        }
    }
}

/// The kind a single attribute's `repr(...)` annotation selects, if any.
fn repr_kind(a: &Attr) -> (r: Option<DiscriminantType>)
    ensures
        r == spec_repr_kind(a@),
{
    if a.leading_colon || a.segments.len() != 1 || a.seg_args || !str_is(&a.segments[0], "repr") {
        return None;
    }
    let ts: &Vec<Tok> = match &a.args {
        crate::input::AttrArgs::Paren(ts) => ts,
        _ => {
            return None;
        },
    };
    let start: usize = if ts.len() > 0 {
        match &ts[0].kind {
            TokKind::PathSep => 1,
            _ => 0,
        }
    } else {
        0
    };
    match path_last(ts, start) {
        Some(name) => int_kind_of(&name),
        None => None,
    }
}

/// Resolves the discriminant type from the type-level attributes, defaulting
/// to the pointer-width unsigned kind when no recognized `repr` annotation
/// is present.
pub fn resolve_repr(attrs: &Vec<Attr>) -> (r: DiscriminantType)
    ensures
        r == spec_resolve_repr(view_attrs(attrs@), 0, DiscriminantType::Usize),
{
    let ghost av = view_attrs(attrs@);
    let mut cur = DiscriminantType::Usize;
    let mut i: usize = 0;
    loop
        invariant
            av == view_attrs(attrs@),
            i <= attrs.len(),
            spec_resolve_repr(av, 0, DiscriminantType::Usize) == spec_resolve_repr(
                av,
                i as int,
                cur,
            ),
        decreases attrs.len() - i,
    {
        if i >= attrs.len() {
            return cur;
        }
        match repr_kind(&attrs[i]) {
            Some(k) => {
                cur = k;
            },
            None => {},
        }
        i = i + 1;
    }
}

// ---------------------------------------------------------------------------
// The synthesized artifact.
// ---------------------------------------------------------------------------

/// One match arm of the generated operations: a variant's identifier and
/// its normalized property bag. The arm's position in [`GeneratedImpl`] is
/// the variant's ordinal.
#[derive(Clone, PartialEq, Debug)]
pub struct VariantArm {
    pub ident: String,
    pub props: MultiVersionVariantProperties,
}

/// View of an arm.
pub struct VariantArmV {
    pub ident: Seq<char>,
    pub props: PropsV,
}

impl View for VariantArm {
    type V = VariantArmV;

    open spec fn view(&self) -> VariantArmV {
        VariantArmV { ident: self.ident@, props: self.props@ }
    }
}

/// The views of an arm list, elementwise.
pub open spec fn view_arms(vs: Seq<VariantArm>) -> Seq<VariantArmV> {
    vs.map_values(|a: VariantArm| a@)
}

/// The synthesized lookup structure: the enumeration's name, the resolved
/// discriminant type, and one arm per variant in declaration order.
#[derive(Clone, PartialEq, Debug)]
pub struct GeneratedImpl {
    pub name: String,
    pub discriminant: DiscriminantType,
    pub arms: Vec<VariantArm>,
}

/// View of the synthesized lookup structure.
pub struct GeneratedImplV {
    pub name: Seq<char>,
    pub discriminant: DiscriminantType,
    pub arms: Seq<VariantArmV>,
}

impl View for GeneratedImpl {
    type V = GeneratedImplV;

    open spec fn view(&self) -> GeneratedImplV {
        GeneratedImplV {
            name: self.name@,
            discriminant: self.discriminant,
            arms: view_arms(self.arms@),
        }
    }
}

/// Builds the arms for the variants from position `i` on, appending to
/// `acc`; the first variant whose metadata is malformed or duplicated
/// aborts with its diagnostic.
pub open spec fn spec_build_arms(vs: Seq<VariantV>, i: int, acc: Seq<VariantArmV>) -> Result<
    Seq<VariantArmV>,
    Seq<DiagPart>,
>
    decreases vs.len() - i,
{
    if i < 0 || i >= vs.len() {
        Ok(acc)
    } else {
        match spec_variant_props(vs[i]) {
            Err(e) => Err(e),
            Ok(p) => spec_build_arms(vs, i + 1, acc.push(VariantArmV { ident: vs[i].ident, props: p })),
        }
    }
}

/// What synthesis produces for one declaration: the lookup structure, or
/// the single aggregated diagnostic of the first fatal condition. A
/// declaration with lifetime parameters is rejected first, then one that is
/// not an enumeration; then the variants are processed in order.
pub open spec fn spec_derive(inp: DeriveInputV) -> Result<GeneratedImplV, Seq<DiagPart>> {
    if inp.lifetimes > 0 {
        Err(spec_diag(DiagKind::LifetimesUnsupported, CALL_SITE))
    } else {
        match inp.data {
            DataV::Enum(vs) => match spec_build_arms(vs, 0, Seq::empty()) {
                Err(e) => Err(e),
                Ok(arms) => Ok(
                    GeneratedImplV {
                        name: inp.ident,
                        discriminant: spec_resolve_repr(inp.attrs, 0, DiscriminantType::Usize),
                        arms,
                    },
                ),
            },
            _ => Err(spec_diag(DiagKind::EnumsOnly, CALL_SITE)),
        }
    }
}

proof fn lemma_build_arms_walk(vs: Seq<VariantV>, t: int, acc: Seq<VariantArmV>, arms: Seq<VariantArmV>)
    requires
        0 <= t <= vs.len(),
        spec_build_arms(vs, t, acc) == Ok::<Seq<VariantArmV>, Seq<DiagPart>>(arms),
    ensures
        arms.len() == acc.len() + vs.len() - t,
        forall|k: int| 0 <= k < acc.len() ==> arms[k] == acc[k],
        forall|k: int|
            t <= k < vs.len() ==> (#[trigger] arms[acc.len() + k - t]).ident == vs[k].ident
                && spec_variant_props(vs[k]) == Ok::<PropsV, Seq<DiagPart>>(
                arms[acc.len() + k - t].props,
            ),
    decreases vs.len() - t,
{
    if t < vs.len() {
        match spec_variant_props(vs[t]) {
            Ok(p) => {
                let arm = VariantArmV { ident: vs[t].ident, props: p };
                let acc2 = acc.push(arm);
                lemma_build_arms_walk(vs, t + 1, acc2, arms);
                assert(arms[acc.len() as int] == acc2[acc.len() as int]);
                assert forall|k: int| t <= k < vs.len() implies (#[trigger] arms[acc.len() + k
                    - t]).ident == vs[k].ident && spec_variant_props(vs[k]) == Ok::<
                    PropsV,
                    Seq<DiagPart>,
                >(arms[acc.len() + k - t].props) by {
                    if k > t {
                        assert(arms[acc2.len() + k - (t + 1)].ident == vs[k].ident);
                    }
                };
            },
            Err(_) => {
                assert(false);
            },
        }
    }
}

/// In a successfully synthesized structure there is one arm per declared
/// variant, in declaration order: the arm at ordinal `k` carries the `k`-th
/// variant's identifier and that variant's aggregated property bag.
pub proof fn lemma_derive_arms(inp: DeriveInputV, g: GeneratedImplV)
    requires
        spec_derive(inp) == Ok::<GeneratedImplV, Seq<DiagPart>>(g),
    ensures
        inp.data is Enum,
        g.arms.len() == inp.data->Enum_0.len(),
        forall|k: int|
            0 <= k < g.arms.len() ==> (#[trigger] g.arms[k]).ident == inp.data->Enum_0[k].ident
                && spec_variant_props(inp.data->Enum_0[k]) == Ok::<PropsV, Seq<DiagPart>>(
                g.arms[k].props,
            ),
{
    match inp.data {
        DataV::Enum(vs) => {
            lemma_build_arms_walk(vs, 0, Seq::empty(), g.arms);
            assert forall|k: int|
                0 <= k < g.arms.len() implies (#[trigger] g.arms[k]).ident == inp.data
                ->Enum_0[k].ident && spec_variant_props(inp.data->Enum_0[k]) == Ok::<
                PropsV,
                Seq<DiagPart>,
            >(g.arms[k].props) by {
                assert(g.arms[Seq::<VariantArmV>::empty().len() + k - 0].ident == vs[k].ident);
                assert(spec_variant_props(vs[k]) == Ok::<PropsV, Seq<DiagPart>>(
                    g.arms[Seq::<VariantArmV>::empty().len() + k - 0].props,
                ));
            };
        },
        _ => {
            assert(false);
        },
    }
}

/// A declaration with lifetime parameters is rejected immediately with the
/// structural diagnostic, producing no generated output, whatever else the
/// declaration holds.
pub proof fn lemma_lifetimes_rejected(inp: DeriveInputV)
    requires
        inp.lifetimes > 0,
    ensures
        spec_derive(inp) == Err::<GeneratedImplV, Seq<DiagPart>>(
            spec_diag(DiagKind::LifetimesUnsupported, CALL_SITE),
        ),
{
}

/// The synthesis engine: checks the structural preconditions, resolves the
/// discriminant type, folds every variant's metadata, and returns the
/// synthesized lookup structure, or the diagnostic of the first fatal
/// condition with no partial output.
pub fn derive_multi_version_inner(input: &DeriveInput) -> (r: Result<GeneratedImpl, Diag>)
    ensures
        match r {
            Ok(g) => spec_derive(input@) == Ok::<GeneratedImplV, Seq<DiagPart>>(g@),
            Err(d) => spec_derive(input@) == Err::<GeneratedImplV, Seq<DiagPart>>(d@),
        },
{
    let discriminant = resolve_repr(&input.attrs);
    if input.lifetimes > 0 {
        return Err(Diag::new(DiagKind::LifetimesUnsupported, CALL_SITE));
    }
    let variants: &Vec<Variant> = match &input.data {
        Data::Enum(vs) => vs,
        _ => {
            return Err(Diag::new(DiagKind::EnumsOnly, CALL_SITE));
        },
    };
    let ghost vsv = view_variants(variants@);
    let mut arms: Vec<VariantArm> = Vec::new();
    let mut i: usize = 0;
    proof {
        assert(view_arms(arms@) =~= Seq::<VariantArmV>::empty());
    }
    loop
        invariant
            i <= variants.len(),
            vsv == view_variants(variants@),
            input@.data == DataV::Enum(vsv),
            input@.lifetimes == 0,
            discriminant == spec_resolve_repr(input@.attrs, 0, DiscriminantType::Usize),
            spec_build_arms(vsv, 0, Seq::empty()) == spec_build_arms(
                vsv,
                i as int,
                view_arms(arms@),
            ),
        decreases variants.len() - i,
    {
        if i >= variants.len() {
            let g = GeneratedImpl { name: input.ident.clone(), discriminant, arms };
            proof {
                assert(spec_build_arms(vsv, i as int, view_arms(g.arms@)) == Ok::<
                    Seq<VariantArmV>,
                    Seq<DiagPart>,
                >(view_arms(g.arms@)));
            }
            return Ok(g);
        }
        let arm_props = match variant_properties(&variants[i]) {
            Ok(p) => p,
            Err(d) => {
                return Err(d);
            },
        };
        let ghost before = view_arms(arms@);
        arms.push(VariantArm { ident: variants[i].ident.clone(), props: arm_props });
        proof {
            assert(view_arms(arms@) =~= before.push(
                VariantArmV { ident: vsv[i as int].ident, props: spec_variant_props(vsv[i as int])->Ok_0 },
            ));
        }
        i = i + 1;
    }
}

} // verus!
