use zincati::config::inputs::IdentityInput;
use zincati::update_agent::identity::{
    compute_node_uuid, read_os_release, Identity, IdentityError,
};

fn input(group: &str, node_uuid: &str, throttle_permille: &str) -> IdentityInput {
    IdentityInput {
        group: group.to_string(),
        node_uuid: node_uuid.to_string(),
        throttle_permille: throttle_permille.to_string(),
    }
}

const SAMPLE_BYTES: [u8; 16] = [
    0x3a, 0x07, 0x24, 0xb4, 0x93, 0xa0, 0x4d, 0x87, 0xac, 0x28, 0x75, 0x9c, 0x6c, 0xaa, 0x13, 0xc4,
];

#[test]
fn empty_inputs_give_the_defaults() {
    let id = Identity::try_from_config(input("", "", "")).unwrap();
    assert_eq!(id.group, "default");
    assert_eq!(id.node_uuid, [0u8; 16]);
    assert_eq!(id.throttle_permille, None);
    assert_eq!(id.arch, "amd64");
    assert_eq!(id.stream, "stable");
    assert_eq!(id.platform, "metal-bios");
    assert_eq!(id.current_version, "FCOS-01");
}

#[test]
fn configured_entries_are_taken() {
    let id = Identity::try_from_config(input(
        "workers",
        "3a0724b4-93a0-4d87-ac28-759c6caa13c4",
        "250",
    ))
    .unwrap();
    assert_eq!(id.group, "workers");
    assert_eq!(id.node_uuid, SAMPLE_BYTES);
    assert_eq!(id.throttle_permille, Some(250));
}

#[test]
fn node_uuid_is_read_in_each_of_its_forms() {
    let forms = [
        "3a0724b4-93a0-4d87-ac28-759c6caa13c4",
        "3A0724B4-93A0-4D87-AC28-759C6CAA13C4",
        "3a0724b493a04d87ac28759c6caa13c4",
        "urn:uuid:3a0724b4-93a0-4d87-ac28-759c6caa13c4",
    ];
    for form in forms.iter() {
        let id = Identity::try_from_config(input("", form, "")).unwrap();
        assert_eq!(id.node_uuid, SAMPLE_BYTES, "reading {:?}", form);
    }
}

#[test]
fn bad_node_uuid_is_an_error() {
    let bad = [
        "x",
        "3a0724b4-93a0-4d87-ac28-759c6caa13c",
        "3a0724b4-93a0-4d87-ac28-759c6caa13c4a",
        "3a0724b4-93a0-4d87-ac28-759c6caa13cg",
        "3a0724b4x93a0-4d87-ac28-759c6caa13c4",
        "3a0724b-493a0-4d87-ac28-759c6caa13c4",
        "{3a0724b4-93a0-4d87-ac28-759c6caa13c4}",
        " 3a0724b4-93a0-4d87-ac28-759c6caa13c4",
        "äa0724b4-93a0-4d87-ac28-759c6caa13c",
        "--------------------------------",
    ];
    for text in bad.iter() {
        assert_eq!(
            Identity::try_from_config(input("", text, "")),
            Err(IdentityError::InvalidNodeUuid),
            "reading {:?}",
            text
        );
    }
}

#[test]
fn throttle_is_read_as_a_number() {
    let id = Identity::try_from_config(input("", "", "0")).unwrap();
    assert_eq!(id.throttle_permille, Some(0));
    let id = Identity::try_from_config(input("", "", "1000")).unwrap();
    assert_eq!(id.throttle_permille, Some(1000));
    let id = Identity::try_from_config(input("", "", "+5")).unwrap();
    assert_eq!(id.throttle_permille, Some(5));
    let id = Identity::try_from_config(input("", "", "0999")).unwrap();
    assert_eq!(id.throttle_permille, Some(999));
}

#[test]
fn bad_throttle_is_an_error() {
    for text in ["abc", "-1", "65536", "1.5", " 1", "+", "1001", "2000", "65535"].iter() {
        assert_eq!(
            Identity::try_from_config(input("", "", text)),
            Err(IdentityError::InvalidThrottle),
            "reading {:?}",
            text
        );
    }
}

#[test]
fn bad_node_uuid_is_reported_before_bad_throttle() {
    assert_eq!(
        Identity::try_from_config(input("g", "nope", "nope")),
        Err(IdentityError::InvalidNodeUuid)
    );
}

#[test]
fn with_node_uuid_takes_the_id_as_given() {
    let id = Identity::with_node_uuid("g".to_string(), Some(SAMPLE_BYTES), "7".to_string()).unwrap();
    assert_eq!(id.group, "g");
    assert_eq!(id.node_uuid, SAMPLE_BYTES);
    assert_eq!(id.throttle_permille, Some(7));
    assert_eq!(
        Identity::with_node_uuid("g".to_string(), None, "7".to_string()),
        Err(IdentityError::InvalidNodeUuid)
    );
    assert_eq!(
        Identity::with_node_uuid("g".to_string(), Some(SAMPLE_BYTES), "x".to_string()),
        Err(IdentityError::InvalidThrottle)
    );
}

#[test]
fn os_release_and_computed_node_uuid_are_fixed() {
    assert_eq!(read_os_release(), "FCOS-01");
    assert_eq!(compute_node_uuid(), [0u8; 16]);
}

#[test]
fn identity_clone_is_equal() {
    let id = Identity::try_from_config(input("workers", "", "12")).unwrap();
    assert_eq!(id.clone(), id);
}
