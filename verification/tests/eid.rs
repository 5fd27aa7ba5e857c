use kiters::eid::prefixed;
use kiters::eid::ExternalId;
use uuid::Uuid;

#[test]
fn test_external_id_creation() {
    let id = ExternalId::new("aid");
    assert_eq!(id.prefix, "aid");
    assert!(id.to_string().starts_with("aid-"));
}

#[test]
fn test_uuid_roundtrip() {
    let id = ExternalId::new("task");
    let uuid = id.uuid();
    let reconstructed = Uuid::from_bytes(id.bytes);
    assert_eq!(uuid, reconstructed);
}

#[test]
fn new_ids_are_random_version_4() {
    let first = ExternalId::new("job");
    let second = ExternalId::new("job");
    assert_ne!(first.bytes, second.bytes);
    for id in [first, second] {
        assert_eq!(id.bytes[6] >> 4, 4);
        assert_eq!(id.bytes[8] >> 6, 2);
        assert_eq!(id.uuid().get_version_num(), 4);
    }
}

#[test]
fn from_uuid_keeps_prefix_and_bytes() {
    let bytes: [u8; 16] = [
        0xa1, 0xa2, 0xa3, 0xa4, 0xb1, 0xb2, 0xc1, 0xc2, 0xd1, 0xd2, 0xd3, 0xd4, 0xd5, 0xd6, 0xd7,
        0xd8,
    ];
    let uuid = Uuid::from_bytes(bytes);
    let id = ExternalId::from_uuid("usr", &uuid);
    assert_eq!(id.prefix, "usr");
    assert_eq!(id.bytes, bytes);
    assert_eq!(id.uuid(), uuid);
    assert_eq!(id.uuid().hyphenated().to_string(), "a1a2a3a4-b1b2-c1c2-d1d2-d3d4d5d6d7d8");
}

#[test]
fn to_string_is_prefix_hyphen_base36() {
    let id = ExternalId {
        prefix: "usr".to_string(),
        bytes: [
            0xa1, 0xa2, 0xa3, 0xa4, 0xb1, 0xb2, 0xc1, 0xc2, 0xd1, 0xd2, 0xd3, 0xd4, 0xd5, 0xd6,
            0xd7, 0xd8,
        ],
    };
    assert_eq!(id.to_string(), "usr-9khonz1x9jay5esoudhd7q048");
    let counting = ExternalId {
        prefix: "".to_string(),
        bytes: [1, 2, 3, 4, 5, 6, 7, 8, 9, 10, 11, 12, 13, 14, 15, 16],
    };
    assert_eq!(counting.to_string(), "-25burfq0j7eqb0hpfcuw340g");
    let all_ones = ExternalId { prefix: "a-b".to_string(), bytes: [0xff; 16] };
    assert_eq!(all_ones.to_string(), "a-b-f5lxx1zz5qnorynpglhzmsq33");
}

#[test]
fn to_string_of_small_bytes() {
    let zero = ExternalId { prefix: "z".to_string(), bytes: [0; 16] };
    assert_eq!(zero.to_string(), "z-0000000000000000");
    let mut bytes = [0u8; 16];
    bytes[15] = 1;
    let one = ExternalId { prefix: "z".to_string(), bytes };
    assert_eq!(one.to_string(), "z-0000000000000001");
    bytes[15] = 25;
    let twenty_five = ExternalId { prefix: "z".to_string(), bytes };
    assert_eq!(twenty_five.to_string(), "z-000000000000000q");
}

#[test]
fn prefixed_joins_with_a_hyphen() {
    assert_eq!(prefixed("aid", "xyz"), "aid-xyz");
    assert_eq!(prefixed("", ""), "-");
    assert_eq!(prefixed("a-b", "0"), "a-b-0");
    assert_eq!(prefixed("préfixe", "9z"), "préfixe-9z");
}

#[test]
fn external_ids_compare_by_prefix_and_bytes() {
    let id = ExternalId::new("aid");
    let same = id.clone();
    assert_eq!(id, same);
    let other = ExternalId { prefix: "bid".to_string(), bytes: id.bytes };
    assert_ne!(id, other);
}
