//! The envelope that holds a boot specification of any supported version, and
//! its resolution to the current schema.
use vstd::prelude::*;
use vstd::std_specs::convert::{FromSpec, FromSpecImpl, TryFromSpec, TryFromSpecImpl};

use crate::v1::GenerationV1;
use crate::BootJson;
use crate::decimal::{decimal, push_decimal};

verus! {

/// A boot specification of some schema version.
#[derive(Debug, Clone, PartialEq, Eq)]
pub enum Generation<Extension = ()> {
    /// A record in the version 1 shape.
    V1(GenerationV1<Extension>),
    /// A generation tagged with a schema version that this build does not
    /// implement; the tag is kept so that the generation can be reported.
    Unknown(u64),
}

/// The error of resolving a generation whose schema version this build does
/// not support.
#[derive(Debug, Clone, PartialEq, Eq)]
pub struct UnsupportedGeneration {
    /// The schema version tag of the rejected generation.
    pub schema_version: u64,
}

impl<Extension> Generation<Extension> {
    /// What resolving the generation to the current schema gives.
    pub open spec fn resolved(self) -> Result<BootJson<Extension>, UnsupportedGeneration> {
        match self {
            Generation::V1(r) => Ok(r),
            Generation::Unknown(v) => Err(UnsupportedGeneration { schema_version: v }),
        }
    }
}

/// The text of an error for a generation with the given schema version tag.
pub open spec fn unsupported_message(schema_version: nat) -> Seq<char> {
    "Unsupported Bootspec generation: Unknown("@ + decimal(schema_version) + ")"@
}

impl UnsupportedGeneration {
    /// A human-readable message that names the rejected generation in the
    /// form `Debug` prints it.
    pub fn message(&self) -> (r: String)
        ensures
            r@ == unsupported_message(self.schema_version as nat),
    {
        let mut r = String::from_str("Unsupported Bootspec generation: Unknown(");
        push_decimal(&mut r, self.schema_version);
        r.append(")");
        r
    }
}

impl<Extension> From<GenerationV1<Extension>> for Generation<Extension> {
    /// Wraps a version 1 record.
    fn from(r: GenerationV1<Extension>) -> (g: Generation<Extension>)
        ensures
            g == Generation::V1(r),
    {
        Generation::V1(r)
    }
}

impl<Extension> FromSpecImpl<GenerationV1<Extension>> for Generation<Extension> {
    open spec fn obeys_from_spec() -> bool {
        true
    }

    open spec fn from_spec(r: GenerationV1<Extension>) -> Generation<Extension> {
        Generation::V1(r)
    }
}

impl<Extension> TryFrom<Generation<Extension>> for GenerationV1<Extension> {
    type Error = UnsupportedGeneration;

    /// Resolves a generation to the current schema: a version 1 record is
    /// handed out as it is, any other generation is rejected.
    fn try_from(g: Generation<Extension>) -> (r: Result<GenerationV1<Extension>, UnsupportedGeneration>)
        ensures
            r == g.resolved(),
    {
        match g {
            Generation::V1(r) => Ok(r),
            Generation::Unknown(v) => Err(UnsupportedGeneration { schema_version: v }),
        }
    }
}

impl<Extension> TryFromSpecImpl<Generation<Extension>> for GenerationV1<Extension> {
    open spec fn obeys_try_from_spec() -> bool {
        true
    }

    open spec fn try_from_spec(g: Generation<Extension>) -> Result<
        GenerationV1<Extension>,
        UnsupportedGeneration,
    > {
        g.resolved()
    }
}

/// Wrapping any current record in the envelope and resolving the envelope
/// gives the record back unchanged, and never an error.
pub proof fn lemma_wrap_then_resolve<Extension>(r: BootJson<Extension>)
    ensures
        <GenerationV1<Extension> as TryFromSpec<Generation<Extension>>>::try_from_spec(
            <Generation<Extension> as FromSpec<GenerationV1<Extension>>>::from_spec(r),
        ) == Ok::<BootJson<Extension>, UnsupportedGeneration>(r),
        Generation::V1(r).resolved() == Ok::<BootJson<Extension>, UnsupportedGeneration>(r),
{
}

/// An envelope tagged with a schema version that this build does not
/// implement resolves to the unsupported-version error for that tag, and to no
/// record.
pub proof fn lemma_unknown_is_rejected<Extension>(schema_version: u64)
    ensures
        Generation::<Extension>::Unknown(schema_version).resolved() == Err::<
            BootJson<Extension>,
            UnsupportedGeneration,
        >(UnsupportedGeneration { schema_version }),
        !Generation::<Extension>::Unknown(schema_version).resolved().is_ok(),
{
}

} // verus!
