use uuid::Uuid;
use uuid::Variant;
use uuid::Version;

#[test]
fn from_fields_lays_scalars_out_big_endian() {
    let uuid = Uuid::from_fields(
        0x12345678,
        0x9ABC,
        0xDEF0,
        &[1, 2, 3, 4, 5, 6, 7, 8],
    );
    assert_eq!(
        uuid.as_bytes(),
        &[0x12, 0x34, 0x56, 0x78, 0x9A, 0xBC, 0xDE, 0xF0, 1, 2, 3, 4, 5, 6, 7, 8]
    );
}

#[test]
fn hyphenated_form_is_lower_case_8_4_4_4_12() {
    let uuid = Uuid::from_fields(
        0x12345678,
        0x9ABC,
        0xDEF0,
        &[0x0A, 0x1B, 0x2C, 0x3D, 0x4E, 0x5F, 0x60, 0x71],
    );
    assert_eq!(uuid.to_hyphenated(), "12345678-9abc-def0-0a1b-2c3d4e5f6071");
}

#[test]
fn version_marker_maps_to_each_version() {
    let d4 = [0x80, 0, 0, 0, 0, 0, 0, 0];
    assert_eq!(Uuid::from_fields(1, 0, 0x0000, &d4).get_version(), None);
    assert_eq!(Uuid::from_fields(0, 0, 0x1000, &d4).get_version(), Some(Version::Mac));
    assert_eq!(Uuid::from_fields(0, 0, 0x2000, &d4).get_version(), Some(Version::Dce));
    assert_eq!(Uuid::from_fields(0, 0, 0x3000, &d4).get_version(), Some(Version::Md5));
    assert_eq!(Uuid::from_fields(0, 0, 0x4000, &d4).get_version(), Some(Version::Random));
    assert_eq!(Uuid::from_fields(0, 0, 0x5000, &d4).get_version(), Some(Version::Sha1));
    assert_eq!(Uuid::from_fields(0, 0, 0x6000, &d4).get_version(), None);
}

#[test]
fn variant_marker_maps_to_each_variant() {
    assert_eq!(
        Uuid::from_fields(0, 0, 0, &[0x00, 0, 0, 0, 0, 0, 0, 0]).get_variant(),
        Some(Variant::NCS)
    );
    assert_eq!(
        Uuid::from_fields(0, 0, 0, &[0x8F, 0, 0, 0, 0, 0, 0, 0]).get_variant(),
        Some(Variant::RFC4122)
    );
    assert_eq!(
        Uuid::from_fields(0, 0, 0, &[0xC1, 0, 0, 0, 0, 0, 0, 0]).get_variant(),
        Some(Variant::Microsoft)
    );
    assert_eq!(
        Uuid::from_fields(0, 0, 0, &[0xE5, 0, 0, 0, 0, 0, 0, 0]).get_variant(),
        Some(Variant::Future)
    );
}
