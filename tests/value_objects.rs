use lvm2_cmd::{
    nearest_size_multiple, InvalidResourceCapacityError, ResourceCapacity, ResourceName,
    ResourceUUID,
};

#[test]
fn round_up_is_a_multiple_no_smaller_and_idempotent() {
    for c in [0usize, 1, 2, 511, 512, 513, 1023, 1024, 1025, 4_194_303, 4_194_304] {
        let r = nearest_size_multiple(c);
        assert_eq!(r % 512, 0);
        assert!(r >= c);
        assert_eq!(nearest_size_multiple(r), r);
        assert!(r - c < 512);
    }
}

#[test]
fn round_up_exact_values() {
    assert_eq!(nearest_size_multiple(0), 0);
    assert_eq!(nearest_size_multiple(1), 512);
    assert_eq!(nearest_size_multiple(512), 512);
    assert_eq!(nearest_size_multiple(513), 1024);
    assert_eq!(nearest_size_multiple(usize::MAX - 511), usize::MAX - 511);
}

#[test]
fn from_nearest_rounds_up() {
    assert_eq!(ResourceCapacity::from_nearest(1000).bytes(), 1024);
    assert_eq!(ResourceCapacity::from_nearest(2048).bytes(), 2048);
}

#[test]
fn strict_capacity_accepts_multiples_only() {
    assert_eq!(ResourceCapacity::new(512).unwrap().bytes(), 512);
    assert_eq!(ResourceCapacity::new(0).unwrap().bytes(), 0);
    assert_eq!(ResourceCapacity::new(513).unwrap_err(), InvalidResourceCapacityError(513));
    assert!(ResourceCapacity::try_from(1024usize).is_ok());
    assert!(ResourceCapacity::try_from(1000usize).is_err());
}

#[test]
fn names_follow_the_pattern() {
    assert_eq!(ResourceName::new("data-01").unwrap().as_str(), "data-01");
    assert_eq!(ResourceName::new("Vol_1.2+x").unwrap().to_string(), "Vol_1.2+x");
    assert_eq!(ResourceName::new("bad name").unwrap_err().0, "bad name");
    assert!(ResourceName::new("").is_err());
    assert!(ResourceName::new("a/b").is_err());
    assert!(ResourceName::new("ümlaut").is_err());
    assert!(ResourceName::new("name\n").is_err());
}

#[test]
fn empty_name_is_empty() {
    assert_eq!(ResourceName::empty().as_str(), "");
}

#[test]
fn uuids_follow_the_pattern() {
    let u = ResourceUUID::new("abcdef-1234-5678-90ab-cdef-1234-567890").unwrap();
    assert_eq!(u.as_str(), "abcdef-1234-5678-90ab-cdef-1234-567890");
    assert!(ResourceUUID::new("abcde-1234-5678-90ab-cdef-1234-567890").is_err());
    assert!(ResourceUUID::new("abcdef-123-5678-90ab-cdef-1234-567890").is_err());
    assert!(ResourceUUID::new("abcdef-1234-5678-90ab-cdef-12345-567890").is_err());
    assert!(ResourceUUID::new("abcdef-1234-5678-90ab-cdef-1234-5678901").is_err());
    assert!(ResourceUUID::new("abcdef-1234-5678-90ab-cdef-1234").is_err());
    assert!(ResourceUUID::new("abcdef_1234-5678-90ab-cdef-1234-567890").is_err());
    assert_eq!(ResourceUUID::new("").unwrap_err().0, "");
}

#[test]
fn capacity_from_u64() {
    assert_eq!(ResourceCapacity::try_from(4096u64).unwrap().bytes(), 4096);
    assert_eq!(ResourceCapacity::try_from(4097u64).unwrap_err(), InvalidResourceCapacityError(4097));
}

#[test]
fn value_objects_describe_themselves() {
    assert_eq!(ResourceCapacity::new(1024).unwrap().to_string(), "1024");
    assert_eq!(ResourceCapacity::new(0).unwrap().to_string(), "0");
    assert_eq!(
        InvalidResourceCapacityError(513).to_string(),
        "capacity must be valid for LVM2 (multiple of 512): 513 != 1024 (nearest 512 multiple)"
    );
    assert_eq!(
        InvalidResourceCapacityError(usize::MAX).to_string(),
        format!(
            "capacity must be valid for LVM2 (multiple of 512): {} != {} (nearest 512 multiple)",
            usize::MAX,
            usize::MAX as u128 + 1
        )
    );
    assert_eq!(
        ResourceName::new("a b").unwrap_err().to_string(),
        "name must be valid for LVM2 ([a-zA-Z0-9_.+-]): a b"
    );
    assert_eq!(
        ResourceUUID::new("x").unwrap_err().to_string(),
        "UUID must be valid for LVM2 (^[a-zA-Z0-9]{6}-([a-zA-Z0-9]{4}-){5}[a-zA-Z0-9]{6}$): x"
    );
}

#[test]
fn names_and_uuids_convert_from_strings() {
    assert_eq!(ResourceName::try_from("vg0").unwrap().as_str(), "vg0");
    assert!(ResourceName::try_from("v g".to_string()).is_err());
    assert!(ResourceUUID::try_from("abcdef-1234-5678-90ab-cdef-1234-567890".to_string()).is_ok());
    assert!(ResourceUUID::try_from("abcdef").is_err());
}
