use gworkerd::record_backend;
use gworkerd::result_backend;
use gworkerd::uuid::{can_reorder, can_restore};

#[test]
fn record_backend_optimized_uuid() {
    let uuid = String::from("58e0a7d7-eebc-11d8-9669-0800200c9a66");
    let optimized_uuid = record_backend::MysqlOptimizedUuid::from_uuid(uuid);
    assert_eq!("11d8eebc58e0a7d796690800200c9a66", optimized_uuid.uuid);
    assert_eq!("58e0a7d7-eebc-11d8-9669-0800200c9a66", optimized_uuid.to_uuid());
}

#[test]
fn result_backend_optimized_uuid() {
    let uuid = String::from("58e0a7d7-eebc-11d8-9669-0800200c9a66");
    let optimized_uuid = result_backend::MysqlOptimizedUuid::from_uuid(uuid);
    assert_eq!("58e0a7d7-eebc-11d8-9669-0800200c9a66", optimized_uuid.to_uuid());
}

#[test]
fn stored_order_of_another_uuid() {
    let optimized = record_backend::MysqlOptimizedUuid::from_uuid(String::from(
        "d334e01e-14cf-4247-b39a-7c9f417ad64b",
    ));
    assert_eq!("424714cfd334e01eb39a7c9f417ad64b", optimized.uuid);
    assert_eq!(32, optimized.uuid.len());
}

#[test]
fn dashed_order_of_a_stored_uuid() {
    let stored = record_backend::MysqlOptimizedUuid { uuid: String::from("424714cfd334e01eb39a7c9f417ad64b") };
    assert_eq!("d334e01e-14cf-4247-b39a-7c9f417ad64b", stored.to_uuid());
}

#[test]
fn uppercase_hex_read_back_from_the_table() {
    let stored = record_backend::MysqlOptimizedUuid { uuid: String::from("11D8EEBC58E0A7D796690800200C9A66") };
    assert_eq!("58E0A7D7-EEBC-11D8-9669-0800200C9A66", stored.to_uuid());
}

#[test]
fn round_trip_keeps_multibyte_groups() {
    // Each group is cut at character boundaries: "é" is two bytes.
    let uuid = String::from("éééé-éé-cccc-éé-eeee");
    assert!(can_reorder(&uuid));
    let optimized = record_backend::MysqlOptimizedUuid::from_uuid(uuid.clone());
    assert!(can_restore(&optimized.uuid));
    assert_eq!(uuid, optimized.to_uuid());
}

#[test]
fn cuts_inside_a_character_are_refused() {
    assert!(!can_reorder("aaaaaaa\u{e9}-bbbb-cccc-dddd-eeeeeeeeeeee"));
    assert!(!can_reorder("short"));
    assert!(can_reorder("58e0a7d7-eebc-11d8-9669-0800200c9a66"));
    assert!(!can_restore("0123456789"));
    assert!(!can_restore("abc\u{e9}56789012345678901"));
    assert!(can_restore("11d8eebc58e0a7d796690800200c9a66"));
}

#[test]
fn shortest_accepted_texts() {
    let optimized = record_backend::MysqlOptimizedUuid::from_uuid(String::from("00000000-1111-2222-3333-"));
    assert_eq!("22221111000000003333", optimized.uuid);
    assert_eq!("00000000-1111-2222-3333-", optimized.to_uuid());
}
