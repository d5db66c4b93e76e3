//! Version 1 of the boot specification schema.
use std::path::PathBuf;

use vstd::prelude::*;

use crate::SystemConfigurationRoot;

verus! {

/// The schema version tag of this record shape.
pub const SCHEMA_VERSION: u64 = 1;

/// The file name under which a version 1 record is stored.
pub const JSON_FILENAME: &'static str = "boot.v1.json";

/// A boot specification in the version 1 shape.
///
/// `Extension` carries metadata that lies outside the schema; it defaults to
/// the empty extension.
#[derive(Debug, Default, Clone, PartialEq, Eq)]
pub struct GenerationV1<Extension = ()> {
    /// The schema version tag written into the record.
    pub schema_version: u64,
    /// A human-readable label for the boot entry.
    pub label: String,
    /// The kernel image to boot.
    pub kernel: PathBuf,
    /// The parameters handed to the kernel.
    pub kernel_params: Vec<String>,
    /// The init program of the system.
    pub init: PathBuf,
    /// The initial ramdisk, if there is one.
    pub initrd: Option<PathBuf>,
    /// The program that appends secrets to the initial ramdisk, if any.
    pub initrd_secrets: Option<PathBuf>,
    /// The root of the system configuration this entry boots.
    pub toplevel: SystemConfigurationRoot,
    /// Metadata outside the schema.
    pub extension: Extension,
}

impl<Extension> GenerationV1<Extension> {
    /// The record carries the tag of the shape it has.
    pub open spec fn is_current(&self) -> bool {
        self.schema_version == SCHEMA_VERSION
    }
}

} // verus!
