//! Attaches version-lifecycle metadata to the variants of an enumeration and
//! synthesizes the lookup logic that answers: does this variant exist at
//! version V, and which discriminant value does it map to at V?
//!
//! The pipeline runs in three stages: an annotation parser turns the token
//! lists of `multi_version(...)` attributes into metadata records
//! ([`properties::VariantMeta`]), a property aggregator folds the records of
//! one variant into a normalized property bag
//! ([`properties::MultiVersionVariantProperties`]), and a synthesis engine
//! checks the whole declaration and produces the version-aware query
//! operations ([`multi_version::derive_multi_version_inner`], [`query`]).
//!
//! Version comparison and range matching are supplied by the `semver` crate
//! through the trusted wrappers in [`version`].

pub mod diag;
pub mod input;
pub mod multi_version;
pub mod properties;
pub mod query;
pub mod version;

pub use diag::CALL_SITE;
pub use diag::Diag;
pub use diag::DiagKind;
pub use diag::DiagPart;
pub use diag::occurrence_error;
pub use input::Attr;
pub use input::AttrArgs;
pub use input::Data;
pub use input::DeriveInput;
pub use input::Leaf;
pub use input::LeafKind;
pub use input::Tok;
pub use input::TokKind;
pub use input::Variant;
pub use multi_version::DiscriminantType;
pub use multi_version::GeneratedImpl;
pub use multi_version::VariantArm;
pub use multi_version::derive_multi_version_inner;
pub use properties::AltPair;
pub use properties::HasMultiVersionVariantProperties;
pub use properties::MultiVersionVariantProperties;
pub use properties::VariantExt;
pub use properties::VariantMeta;
pub use properties::get_metadata_inner;
pub use properties::variant_properties;
pub use version::Version;

