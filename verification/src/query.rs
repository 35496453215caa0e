//! The five query operations over a synthesized [`GeneratedImpl`]:
//! implemented-since, deprecated-since, the existence test, the
//! discriminant-for-version lookup, and the enumeration of all variants
//! existing at a version. A variant is addressed by its ordinal, its
//! position in the declaration order, and discriminant values are carried
//! as plain `u64`: the declared discriminant type only governs how the
//! rendered source text casts them, and the ordinal fallback stands for
//! the cast of the variant itself that the rendered code emits.
//!
//! The operations interpret the version strings and range expressions that
//! the property bags carry opaquely, through the `semver`-backed predicates
//! of [`crate::version`]; a malformed string would make the corresponding
//! generated operation unusable, so the well-formedness of an arm is a
//! precondition here, and the `try_` entry points test it first.

use vstd::prelude::*;

use crate::input::DeriveInputV;
use crate::multi_version::GeneratedImpl;
use crate::multi_version::GeneratedImplV;
use crate::multi_version::VariantArmV;
use crate::multi_version::lemma_derive_arms;
use crate::multi_version::spec_derive;
use crate::properties::AltPairV;
use crate::properties::PropsV;
use crate::properties::VariantMetaV;
use crate::properties::spec_empty_props;
use crate::properties::spec_get_metadata;
use crate::properties::spec_variant_props;
use crate::version::Version;
use crate::version::parse_version;
use crate::version::range_matches;
use crate::version::range_parses;
use crate::version::spec_parse_version;
use crate::version::spec_range_matches;
use crate::version::spec_range_wf;
use crate::version::version_le;
use crate::version::version_lt;

verus! {

/// Whether one arm's version strings all parse and its range expressions
/// are all well-formed.
pub open spec fn spec_arm_wf(a: VariantArmV) -> bool {
    &&& (a.props.implemented matches Some(s) ==> spec_parse_version(s) is Some)
    &&& (a.props.deprecated matches Some(s) ==> spec_parse_version(s) is Some)
    &&& (forall|j: int|
        0 <= j < a.props.alternate_versions.len() ==> spec_range_wf(
            #[trigger] a.props.alternate_versions[j].range,
        ))
}

/// Whether every arm of the structure is well-formed.
pub open spec fn spec_impl_wf(g: GeneratedImplV) -> bool {
    forall|i: int| 0 <= i < g.arms.len() ==> spec_arm_wf(#[trigger] g.arms[i])
}

/// The version since which a variant is implemented: its explicit
/// `implemented` version, or the zero version meaning "has always existed".
pub open spec fn spec_implemented_since(a: VariantArmV) -> Version {
    match a.props.implemented {
        Some(s) => spec_parse_version(s)->Some_0,
        None => Version { major: 0, minor: 0, patch: 0 },
    }
}

/// The version since which a variant is deprecated, or `None` meaning
/// "never deprecated".
pub open spec fn spec_deprecated_since(a: VariantArmV) -> Option<Version> {
    match a.props.deprecated {
        Some(s) => Some(spec_parse_version(s)->Some_0),
        None => None,
    }
}

/// Whether a variant exists at a version: the half-open interval test, with
/// the implemented bound inclusive and the deprecated bound exclusive.
pub open spec fn spec_exists_in(a: VariantArmV, v: Version) -> bool {
    &&& version_le(spec_implemented_since(a), v)
    &&& match spec_deprecated_since(a) {
        Some(d) => version_lt(v, d),
        None => true,
    }
}

/// The discriminant value the override rules from position `i` on select:
/// the value of the first rule whose range matches the queried version, or
/// the ordinal `ord` when none matches.
pub open spec fn spec_alt_value(alts: Seq<AltPairV>, i: int, ord: u64, v: Version) -> u64
    decreases alts.len() - i,
{
    if i < 0 || i >= alts.len() {
        ord
    } else if spec_range_matches(alts[i].range, v.major, v.minor, v.patch) {
        alts[i].value
    } else {
        spec_alt_value(alts, i + 1, ord, v)
    }
}

/// The discriminant value of the variant with ordinal `ord` at version `v`:
/// absent when the variant does not exist there, otherwise the first
/// matching override rule's value, falling back to the ordinal.
pub open spec fn spec_value_for_version(a: VariantArmV, ord: u64, v: Version) -> Option<u64> {
    if !spec_exists_in(a, v) {
        None
    } else {
        Some(spec_alt_value(a.props.alternate_versions, 0, ord, v))
    }
}

/// The ordinals, in declaration order, of the variants from position `i` on
/// that are not in the skip list and exist at `v`, appended to `acc`.
pub open spec fn spec_all_values(
    g: GeneratedImplV,
    v: Version,
    skip: Seq<usize>,
    i: int,
    acc: Seq<usize>,
) -> Seq<usize>
    decreases g.arms.len() - i,
{
    if i < 0 || i >= g.arms.len() {
        acc
    } else if !skip.contains(i as usize) && spec_exists_in(g.arms[i], v) {
        spec_all_values(g, v, skip, i + 1, acc.push(i as usize))
    } else {
        spec_all_values(g, v, skip, i + 1, acc)
    }
}

impl GeneratedImpl {
    /// Whether the arm at ordinal `i` carries only version strings that
    /// parse and range expressions that are well-formed.
    pub fn check_arm(&self, i: usize) -> (r: bool)
        requires
            i < self@.arms.len(),
        ensures
            r == spec_arm_wf(self@.arms[i as int]),
    {
        let a = &self.arms[i];
        match &a.props.implemented {
            Some(s) => {
                if parse_version(s.as_str()).is_none() {
                    return false;
                }
            },
            None => {},
        }
        match &a.props.deprecated {
            Some(s) => {
                if parse_version(s.as_str()).is_none() {
                    return false;
                }
            },
            None => {},
        }
        let alts = &a.props.alternate_versions;
        let ghost altsv = self@.arms[i as int].props.alternate_versions;
        proof {
            assert(altsv == crate::properties::view_pairs(alts@));
        }
        let mut j: usize = 0;
        while j < alts.len()
            invariant
                j <= alts.len(),
                i < self@.arms.len(),
                altsv == crate::properties::view_pairs(alts@),
                altsv == self@.arms[i as int].props.alternate_versions,
                self@.arms[i as int].props.implemented matches Some(s) ==> spec_parse_version(s) is Some,
                self@.arms[i as int].props.deprecated matches Some(s) ==> spec_parse_version(s) is Some,
                forall|k: int| 0 <= k < j ==> spec_range_wf(#[trigger] altsv[k].range),
            decreases alts.len() - j,
        {
            if !range_parses(alts[j].range.as_str()) {
                proof {
                    assert(!spec_range_wf(altsv[j as int].range));
                    assert(!spec_arm_wf(self@.arms[i as int]));
                }
                return false;
            }
            j = j + 1;
        }
        true
    }

    /// Whether every arm of the structure is well-formed.
    pub fn check_impl(&self) -> (r: bool)
        ensures
            r == spec_impl_wf(self@),
    {
        let mut i: usize = 0;
        while i < self.arms.len()
            invariant
                i <= self.arms.len(),
                forall|k: int| 0 <= k < i ==> spec_arm_wf(#[trigger] self@.arms[k]),
            decreases self.arms.len() - i,
        {
            if !self.check_arm(i) {
                return false;
            }
            i = i + 1;
        }
        true
    }

    /// The version since which the variant with ordinal `i` is implemented;
    /// a variant without an `implemented` record has always existed.
    pub fn implemented_since(&self, i: usize) -> (r: Version)
        requires
            i < self@.arms.len(),
            spec_arm_wf(self@.arms[i as int]),
        ensures
            r == spec_implemented_since(self@.arms[i as int]),
    {
        match &self.arms[i].props.implemented {
            Some(s) => parse_version(s.as_str()).unwrap(),
            None => Version { major: 0, minor: 0, patch: 0 },
        }
    }

    /// The version since which the variant with ordinal `i` is deprecated,
    /// or `None` for a variant that never was.
    pub fn deprecated_since(&self, i: usize) -> (r: Option<Version>)
        requires
            i < self@.arms.len(),
            spec_arm_wf(self@.arms[i as int]),
        ensures
            r == spec_deprecated_since(self@.arms[i as int]),
    {
        match &self.arms[i].props.deprecated {
            Some(s) => Some(parse_version(s.as_str()).unwrap()),
            None => None,
        }
    }

    /// Whether the variant with ordinal `i` exists at version `v`: at or
    /// after its implemented version and strictly before its deprecated
    /// version.
    pub fn exists_in(&self, i: usize, v: &Version) -> (r: bool)
        requires
            i < self@.arms.len(),
            spec_arm_wf(self@.arms[i as int]),
        ensures
            r == spec_exists_in(self@.arms[i as int], *v),
    {
        let imp = self.implemented_since(i);
        if !v.ge(&imp) {
            return false;
        }
        match self.deprecated_since(i) {
            Some(d) => v.lt(&d),
            None => true,
        }
    }

    /// The discriminant value of the variant with ordinal `i` at version
    /// `v`: `None` when it does not exist there; otherwise the value of the
    /// first override rule, in declaration order, whose range matches `v`,
    /// falling back to the ordinal itself.
    pub fn value_for_version(&self, i: usize, v: &Version) -> (r: Option<u64>)
        requires
            i < self@.arms.len(),
            spec_arm_wf(self@.arms[i as int]),
        ensures
            r == spec_value_for_version(self@.arms[i as int], i as u64, *v),
    {
        if !self.exists_in(i, v) {
            return None;
        }
        let alts = &self.arms[i].props.alternate_versions;
        let ghost altsv = self@.arms[i as int].props.alternate_versions;
        let mut j: usize = 0;
        while j < alts.len()
            invariant
                j <= alts.len(),
                alts == &self.arms[i as int].props.alternate_versions,
                altsv == self@.arms[i as int].props.alternate_versions,
                i < self@.arms.len(),
                spec_arm_wf(self@.arms[i as int]),
                spec_exists_in(self@.arms[i as int], *v),
                spec_alt_value(altsv, 0, i as u64, *v) == spec_alt_value(altsv, j as int, i as u64, *v),
            decreases alts.len() - j,
        {
            if range_matches(alts[j].range.as_str(), v) {
                return Some(alts[j].value);
            }
            j = j + 1;
        }
        Some(i as u64)
    }

    /// The ordinals, in declaration order, of every variant that is not in
    /// the skip list and exists at version `v`; a fresh list on every call.
    pub fn get_all_values(&self, v: &Version, skip: Option<&Vec<usize>>) -> (r: Vec<usize>)
        requires
            spec_impl_wf(self@),
        ensures
            r@ == spec_all_values(
                self@,
                *v,
                match skip {
                    Some(s) => s@,
                    None => Seq::empty(),
                },
                0,
                Seq::empty(),
            ),
    {
        let empty_skip: Vec<usize> = Vec::new();
        let skip_list: &Vec<usize> = match skip {
            Some(s) => s,
            None => &empty_skip,
        };
        let ghost skipv = skip_list@;
        proof {
            assert(skipv =~= match skip {
                Some(s) => s@,
                None => Seq::empty(),
            });
        }
        let mut values: Vec<usize> = Vec::new();
        let mut i: usize = 0;
        loop
            invariant
                i <= self.arms.len(),
                spec_impl_wf(self@),
                skipv == skip_list@,
                skip_list@ == (match skip {
                    Some(s) => s@,
                    None => Seq::<usize>::empty(),
                }),
                spec_all_values(self@, *v, skipv, 0, Seq::empty()) == spec_all_values(
                    self@,
                    *v,
                    skipv,
                    i as int,
                    values@,
                ),
            decreases self.arms.len() - i,
        {
            if i >= self.arms.len() {
                return values;
            }
            let skipped = contains_usize(skip_list, i);
            if !skipped && self.exists_in(i, v) {
                values.push(i);
            }
            i = i + 1;
        }
    }
}

/// Whether a list of ordinals contains `x`.
fn contains_usize(s: &Vec<usize>, x: usize) -> (r: bool)
    ensures
        r == s@.contains(x),
{
    let mut i: usize = 0;
    while i < s.len()
        invariant
            i <= s.len(),
            forall|k: int| 0 <= k < i ==> s@[k] != x,
        decreases s.len() - i,
    {
        if s[i] == x {
            return true;
        }
        i = i + 1;
    }
    proof {
        assert(!s@.contains(x));
    }
    false
}

// ---------------------------------------------------------------------------
// Checked entry points: they test well-formedness first and never demand it.
// ---------------------------------------------------------------------------

impl GeneratedImpl {
    /// The existence test, with the well-formedness of the arm checked
    /// first: `None` when `i` is out of range or the arm carries a
    /// malformed version string or range expression.
    pub fn try_exists_in(&self, i: usize, v: &Version) -> (r: Option<bool>)
        ensures
            match r {
                Some(b) => i < self@.arms.len() && spec_arm_wf(self@.arms[i as int]) && b
                    == spec_exists_in(self@.arms[i as int], *v),
                None => i >= self@.arms.len() || !spec_arm_wf(self@.arms[i as int]),
            },
    {
        if i >= self.arms.len() {
            return None;
        }
        if !self.check_arm(i) {
            return None;
        }
        Some(self.exists_in(i, v))
    }

    /// The discriminant lookup, with the well-formedness of the arm checked
    /// first: `None` when `i` is out of range or the arm is malformed,
    /// otherwise the (possibly absent) discriminant value.
    pub fn try_value_for_version(&self, i: usize, v: &Version) -> (r: Option<Option<u64>>)
        ensures
            match r {
                Some(val) => i < self@.arms.len() && spec_arm_wf(self@.arms[i as int]) && val
                    == spec_value_for_version(self@.arms[i as int], i as u64, *v),
                None => i >= self@.arms.len() || !spec_arm_wf(self@.arms[i as int]),
            },
    {
        if i >= self.arms.len() {
            return None;
        }
        if !self.check_arm(i) {
            return None;
        }
        Some(self.value_for_version(i, v))
    }

    /// The enumeration of existing variants, with the well-formedness of
    /// the whole structure checked first.
    pub fn try_get_all_values(&self, v: &Version, skip: Option<&Vec<usize>>) -> (r: Option<
        Vec<usize>,
    >)
        ensures
            match r {
                Some(vals) => spec_impl_wf(self@) && vals@ == spec_all_values(
                    self@,
                    *v,
                    match skip {
                        Some(s) => s@,
                        None => Seq::empty(),
                    },
                    0,
                    Seq::empty(),
                ),
                None => !spec_impl_wf(self@),
            },
    {
        if !self.check_impl() {
            return None;
        }
        Some(self.get_all_values(v, skip))
    }
}

// ---------------------------------------------------------------------------
// Laws of the query operations.
// ---------------------------------------------------------------------------

/// A variant with no version metadata exists at every version: it is
/// implemented since the zero version and never deprecated.
pub proof fn lemma_no_metadata_always_exists(a: VariantArmV, v: Version)
    requires
        a.props.implemented is None,
        a.props.deprecated is None,
    ensures
        spec_exists_in(a, v),
{
    crate::version::lemma_zero_version_least(v);
}

/// Through a successful synthesis, a variant declared with no version
/// metadata at all yields an arm that is implemented since the zero
/// version, never deprecated, and existing at every version.
pub proof fn lemma_derived_bare_variant_always_exists(
    inp: DeriveInputV,
    g: GeneratedImplV,
    k: int,
    v: Version,
)
    requires
        spec_derive(inp) == Ok::<GeneratedImplV, Seq<crate::diag::DiagPart>>(g),
        0 <= k < g.arms.len(),
        spec_get_metadata(inp.data->Enum_0[k].attrs, 0, Seq::empty()) == Ok::<
            Seq<VariantMetaV>,
            Seq<crate::diag::DiagPart>,
        >(Seq::empty()),
    ensures
        spec_implemented_since(g.arms[k]) == (Version { major: 0, minor: 0, patch: 0 }),
        spec_deprecated_since(g.arms[k]) is None,
        spec_exists_in(g.arms[k], v),
{
    lemma_derive_arms(inp, g);
    assert(spec_variant_props(inp.data->Enum_0[k]) == Ok::<PropsV, Seq<crate::diag::DiagPart>>(
        spec_empty_props(),
    ));
    assert(g.arms[k].props == spec_empty_props());
    lemma_no_metadata_always_exists(g.arms[k], v);
}

/// For a variant with an `implemented` version and no `deprecated` one,
/// existence at `v` is exactly `implemented-since <= v`.
pub proof fn lemma_exists_in_never_deprecated(a: VariantArmV, v: Version)
    requires
        a.props.implemented is Some,
        spec_parse_version(a.props.implemented->Some_0) is Some,
        a.props.deprecated is None,
    ensures
        spec_exists_in(a, v) <==> version_le(
            spec_parse_version(a.props.implemented->Some_0)->Some_0,
            v,
        ),
{
}

/// For a variant with both an `implemented` and a `deprecated` version,
/// existence at `v` is exactly membership in the half-open interval
/// [implemented, deprecated): the lower bound inclusive, the upper bound
/// exclusive.
pub proof fn lemma_exists_in_interval(a: VariantArmV, v: Version)
    requires
        a.props.implemented is Some,
        spec_parse_version(a.props.implemented->Some_0) is Some,
        a.props.deprecated is Some,
        spec_parse_version(a.props.deprecated->Some_0) is Some,
    ensures
        spec_exists_in(a, v) <==> (version_le(
            spec_parse_version(a.props.implemented->Some_0)->Some_0,
            v,
        ) && version_lt(v, spec_parse_version(a.props.deprecated->Some_0)->Some_0)),
{
}

/// A variant that does not exist at `v` has no discriminant value there.
pub proof fn lemma_value_absent(a: VariantArmV, ord: u64, v: Version)
    requires
        !spec_exists_in(a, v),
    ensures
        spec_value_for_version(a, ord, v) is None,
{
}

proof fn lemma_alt_value_first(alts: Seq<AltPairV>, t: int, ord: u64, v: Version, j: int)
    requires
        0 <= t <= j < alts.len(),
        spec_range_matches(alts[j].range, v.major, v.minor, v.patch),
        forall|k: int|
            t <= k < j ==> !spec_range_matches(#[trigger] alts[k].range, v.major, v.minor, v.patch),
    ensures
        spec_alt_value(alts, t, ord, v) == alts[j].value,
    decreases j - t,
{
    if t < j {
        lemma_alt_value_first(alts, t + 1, ord, v, j);
    }
}

proof fn lemma_alt_value_none(alts: Seq<AltPairV>, t: int, ord: u64, v: Version)
    requires
        0 <= t,
    ensures
        (forall|k: int|
            t <= k < alts.len() ==> !spec_range_matches(
                #[trigger] alts[k].range,
                v.major,
                v.minor,
                v.patch,
            )) ==> spec_alt_value(alts, t, ord, v) == ord,
    decreases alts.len() - t,
{
    if t < alts.len() {
        lemma_alt_value_none(alts, t + 1, ord, v);
    }
}

/// First-match-wins: for an existing variant, if the override rule at `j`
/// is the first whose range matches `v`, the discriminant value is that
/// rule's value, whatever later rules say.
pub proof fn lemma_value_first_match_wins(a: VariantArmV, ord: u64, v: Version, j: int)
    requires
        spec_exists_in(a, v),
        0 <= j < a.props.alternate_versions.len(),
        spec_range_matches(a.props.alternate_versions[j].range, v.major, v.minor, v.patch),
        forall|k: int|
            0 <= k < j ==> !spec_range_matches(
                #[trigger] a.props.alternate_versions[k].range,
                v.major,
                v.minor,
                v.patch,
            ),
    ensures
        spec_value_for_version(a, ord, v) == Some(a.props.alternate_versions[j].value),
{
    lemma_alt_value_first(a.props.alternate_versions, 0, ord, v, j);
}

/// Fallback: for an existing variant none of whose override ranges matches
/// `v`, the discriminant value is the variant's own ordinal.
pub proof fn lemma_value_fallback_ordinal(a: VariantArmV, ord: u64, v: Version)
    requires
        spec_exists_in(a, v),
        forall|k: int|
            0 <= k < a.props.alternate_versions.len() ==> !spec_range_matches(
                #[trigger] a.props.alternate_versions[k].range,
                v.major,
                v.minor,
                v.patch,
            ),
    ensures
        spec_value_for_version(a, ord, v) == Some(ord),
{
    lemma_alt_value_none(a.props.alternate_versions, 0, ord, v);
}

proof fn lemma_all_values_rec(g: GeneratedImplV, v: Version, skip: Seq<usize>, i: int, acc: Seq<usize>)
    requires
        0 <= i,
        g.arms.len() <= usize::MAX,
        forall|k: int| 0 <= k < acc.len() ==> (#[trigger] acc[k] as int) < i,
        forall|p: int, q: int| 0 <= p < q < acc.len() ==> acc[p] < acc[q],
    ensures
        forall|x: usize|
            spec_all_values(g, v, skip, i, acc).contains(x) <==> (acc.contains(x) || (i <= x
                < g.arms.len() && !skip.contains(x) && spec_exists_in(g.arms[x as int], v))),
        forall|p: int, q: int|
            0 <= p < q < spec_all_values(g, v, skip, i, acc).len() ==> spec_all_values(
                g,
                v,
                skip,
                i,
                acc,
            )[p] < spec_all_values(g, v, skip, i, acc)[q],
    decreases g.arms.len() - i,
{
    if i >= g.arms.len() {
    } else if !skip.contains(i as usize) && spec_exists_in(g.arms[i], v) {
        let acc2 = acc.push(i as usize);
        assert forall|x: usize| acc2.contains(x) implies (acc.contains(x) || x == i as usize) by {
            let idx = choose|idx: int| 0 <= idx < acc2.len() && acc2[idx] == x;
            if idx < acc.len() {
                assert(acc[idx] == x);
            }
        };
        assert forall|x: usize| acc.contains(x) implies acc2.contains(x) by {
            let idx = choose|idx: int| 0 <= idx < acc.len() && acc[idx] == x;
            assert(acc2[idx] == x);
        };
        assert(acc2[acc.len() as int] == i as usize);
        assert(acc2.contains(i as usize));
        assert forall|p: int, q: int| 0 <= p < q < acc2.len() implies acc2[p] < acc2[q] by {
            assert(acc2[p] == acc[p]);
            if q < acc.len() {
                assert(acc2[q] == acc[q]);
                assert(acc[p] < acc[q]);
            } else {
                assert(acc2[q] == i as usize);
                assert((acc[p] as int) < i);
            }
        };
        lemma_all_values_rec(g, v, skip, i + 1, acc2);
        assert(spec_all_values(g, v, skip, i, acc) == spec_all_values(g, v, skip, i + 1, acc2));
        assert forall|x: usize|
            spec_all_values(g, v, skip, i, acc).contains(x) <==> (acc.contains(x) || (i <= x
                < g.arms.len() && !skip.contains(x) && spec_exists_in(g.arms[x as int], v))) by {
            assert(spec_all_values(g, v, skip, i + 1, acc2).contains(x) <==> (acc2.contains(x) || (
            i + 1 <= x < g.arms.len() && !skip.contains(x) && spec_exists_in(g.arms[x as int], v))));
            assert(acc2.contains(x) <==> (acc.contains(x) || x == i as usize));
        };
    } else {
        lemma_all_values_rec(g, v, skip, i + 1, acc);
    }
}

/// The enumeration of all variants at a version: the result holds exactly
/// the ordinals of the variants that are not in the skip list and exist at
/// `v` — each exactly once — and lists them in strictly increasing order,
/// which is the declaration order.
pub proof fn lemma_all_values(g: GeneratedImplV, v: Version, skip: Seq<usize>)
    requires
        g.arms.len() <= usize::MAX,
    ensures
        forall|x: usize| #![trigger spec_all_values(g, v, skip, 0, Seq::empty()).contains(x)]
            spec_all_values(g, v, skip, 0, Seq::empty()).contains(x) <==> ((x as int) < g.arms.len()
                && !skip.contains(x) && spec_exists_in(g.arms[x as int], v)),
        forall|p: int, q: int|
            0 <= p < q < spec_all_values(g, v, skip, 0, Seq::empty()).len() ==> spec_all_values(
                g,
                v,
                skip,
                0,
                Seq::empty(),
            )[p] < spec_all_values(g, v, skip, 0, Seq::empty())[q],
{
    lemma_all_values_rec(g, v, skip, 0, Seq::empty());
    assert forall|x: usize| #![trigger spec_all_values(g, v, skip, 0, Seq::empty()).contains(x)]
        spec_all_values(g, v, skip, 0, Seq::empty()).contains(x) <==> ((x as int) < g.arms.len()
            && !skip.contains(x) && spec_exists_in(g.arms[x as int], v)) by {
        assert(spec_all_values(g, v, skip, 0, Seq::empty()).contains(x) <==> (Seq::<
            usize,
        >::empty().contains(x) || (0 <= x < g.arms.len() && !skip.contains(x) && spec_exists_in(
            g.arms[x as int],
            v,
        ))));
        assert(!Seq::<usize>::empty().contains(x));
    };
}

} // verus!
