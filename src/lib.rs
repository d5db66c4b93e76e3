//! The boot specification: a versioned schema that describes how a system
//! generation is presented to a boot loader, and the envelope that holds a
//! record of any supported version.
use std::path::PathBuf;

use vstd::prelude::*;

use crate::decimal::decimal;
use crate::generation::Generation;

pub mod decimal;
pub mod generation;
pub mod v1;

verus! {

/// Relies on `std::path::PathBuf`, held as an opaque value.
#[verifier::external_type_specification]
#[verifier::external_body]
pub struct ExPathBuf(PathBuf);

/// Relies on `PathBuf::clone`, which the derived `Clone` impls call; nothing is
/// claimed of the copy.
pub assume_specification[ <PathBuf as Clone>::clone ](p: &PathBuf) -> PathBuf;

/// The name of a NixOS specialisation.
#[derive(Debug, Default, Clone, PartialEq, Eq, Hash)]
pub struct SpecialisationName(pub String);

impl SpecialisationName {
    /// The name as text.
    pub fn to_string(&self) -> (r: String)
        ensures
            r@ == self.0@,
    {
        self.0.clone()
    }
}

/// The root directory of a NixOS system configuration.
#[derive(Debug, Default, Clone, PartialEq, Eq)]
pub struct SystemConfigurationRoot(pub PathBuf);

/// The current boot specification schema.
pub type BootJson<Extension> = v1::GenerationV1<Extension>;

/// The current schema version tag.
pub const SCHEMA_VERSION: u64 = v1::SCHEMA_VERSION;

/// The current schema's file name.
pub const JSON_FILENAME: &'static str = v1::JSON_FILENAME;

/// The file name under which a record of the given schema version is stored.
pub open spec fn schema_filename(schema_version: nat) -> Seq<char> {
    "boot.v"@ + decimal(schema_version) + ".json"@
}

/// The current schema version tag, the current file name and the current
/// record type all name the same version: the tag and the file name are those
/// of version 1, the file name is the one that the tag gives, and the
/// envelope's version 1 variant is the one that holds a current record.
pub proof fn lemma_current_schema_consistent<Extension>(r: BootJson<Extension>)
    ensures
        SCHEMA_VERSION == v1::SCHEMA_VERSION,
        JSON_FILENAME@ == v1::JSON_FILENAME@,
        JSON_FILENAME@ == schema_filename(SCHEMA_VERSION as nat),
        Generation::V1(r).resolved() == Ok::<BootJson<Extension>, generation::UnsupportedGeneration>(r),
{
    reveal_strlit("boot.v1.json");
    reveal_strlit("boot.v");
    reveal_strlit(".json");
    assert(decimal(1) =~= seq!['1']);
    assert(JSON_FILENAME@ =~= schema_filename(SCHEMA_VERSION as nat));
}

} // verus!
