use std::collections::hash_map::DefaultHasher;
use std::convert::TryInto;
use std::hash::{Hash, Hasher};
use std::path::PathBuf;

use bootspec::generation::{Generation, UnsupportedGeneration};
use bootspec::v1::GenerationV1;
use bootspec::{BootJson, SpecialisationName, SystemConfigurationRoot, JSON_FILENAME, SCHEMA_VERSION};

fn sample<E>(extension: E) -> BootJson<E> {
    GenerationV1 {
        schema_version: SCHEMA_VERSION,
        label: String::from("NixOS 23.05 (Linux 6.1.30)"),
        kernel: PathBuf::from("/nix/store/abc-linux-6.1.30/bzImage"),
        kernel_params: vec![String::from("quiet"), String::from("loglevel=4")],
        init: PathBuf::from("/nix/store/def-nixos-system/init"),
        initrd: Some(PathBuf::from("/nix/store/ghi-initrd/initrd")),
        initrd_secrets: None,
        toplevel: SystemConfigurationRoot(PathBuf::from("/nix/store/def-nixos-system")),
        extension,
    }
}

fn hash_of<T: Hash>(t: &T) -> u64 {
    let mut h = DefaultHasher::new();
    t.hash(&mut h);
    h.finish()
}

#[test]
fn current_record_resolves_to_itself() {
    let record: BootJson<()> = sample(());
    assert_eq!(record.schema_version, 1);
    let envelope: Generation<()> = Generation::from(record.clone());
    let resolved: Result<BootJson<()>, UnsupportedGeneration> = envelope.try_into();
    assert_eq!(resolved, Ok(record));
}

#[test]
fn default_record_resolves_to_itself() {
    let record: BootJson<()> = GenerationV1::default();
    let envelope: Generation<()> = record.clone().into();
    assert_eq!(GenerationV1::try_from(envelope), Ok(record));
}

#[test]
fn extension_payload_passes_through_untouched() {
    let record = sample(vec![(String::from("org.example.key"), 7u32)]);
    let envelope = Generation::V1(record.clone());
    let resolved: BootJson<Vec<(String, u32)>> = envelope.try_into().unwrap();
    assert_eq!(resolved.extension, vec![(String::from("org.example.key"), 7u32)]);
    assert_eq!(resolved, record);
}

#[test]
fn unknown_version_is_rejected() {
    let envelope: Generation<()> = Generation::Unknown(2);
    let debug_form = format!("{:?}", envelope);
    let resolved: Result<BootJson<()>, UnsupportedGeneration> = envelope.try_into();
    let err = resolved.unwrap_err();
    assert_eq!(err, UnsupportedGeneration { schema_version: 2 });
    let message = err.message();
    assert!(message.contains("Bootspec"));
    assert!(message.contains(&debug_form));
    assert_eq!(message, "Unsupported Bootspec generation: Unknown(2)");
}

#[test]
fn unsupported_message_renders_the_tag_in_decimal() {
    assert_eq!(
        UnsupportedGeneration { schema_version: 0 }.message(),
        "Unsupported Bootspec generation: Unknown(0)"
    );
    assert_eq!(
        UnsupportedGeneration { schema_version: 10 }.message(),
        "Unsupported Bootspec generation: Unknown(10)"
    );
    assert_eq!(
        UnsupportedGeneration { schema_version: u64::MAX }.message(),
        format!("Unsupported Bootspec generation: {:?}", Generation::<()>::Unknown(u64::MAX))
    );
}

#[test]
fn current_constants_agree() {
    assert_eq!(SCHEMA_VERSION, 1);
    assert_eq!(SCHEMA_VERSION, bootspec::v1::SCHEMA_VERSION);
    assert_eq!(JSON_FILENAME, "boot.v1.json");
    assert_eq!(JSON_FILENAME, format!("boot.v{}.json", SCHEMA_VERSION));
}

#[test]
fn specialisation_names_compare_and_hash_by_value() {
    let a = SpecialisationName(String::from("gaming"));
    let b = SpecialisationName(String::from("gaming"));
    let c = SpecialisationName(String::from("work"));
    assert_eq!(a, b);
    assert_eq!(hash_of(&a), hash_of(&b));
    assert_ne!(a, c);
    assert_eq!(a.to_string(), "gaming");
}

#[test]
fn configuration_roots_compare_by_value() {
    let a = SystemConfigurationRoot(PathBuf::from("/nix/store/def-nixos-system"));
    let b = SystemConfigurationRoot(PathBuf::from("/nix/store/def-nixos-system"));
    let c = SystemConfigurationRoot(PathBuf::from("/run/current-system"));
    assert_eq!(a, b);
    assert_ne!(a, c);
}
