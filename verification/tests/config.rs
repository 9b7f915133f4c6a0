use argon2_bridge::{resolve_config, HashOptions, ResolvedConfig, ThreadMode, Variant, Version};

fn base() -> ResolvedConfig {
    ResolvedConfig {
        variant: Variant::Argon2i,
        version: Version::Version13,
        memory_cost: 4096,
        time_cost: 3,
        lanes: 1,
        thread_mode: ThreadMode::Sequential,
        hash_length: 32,
        secret: vec![],
        associated_data: vec![],
    }
}

fn no_overrides() -> HashOptions {
    HashOptions {
        salt: b"somesalt".to_vec(),
        secret: None,
        data: None,
        version: None,
        variant: None,
        memory_cost: None,
        time_cost: None,
        lanes: None,
        thread_mode: None,
        hash_length: None,
    }
}

#[test]
fn the_default_configuration() {
    assert_eq!(ResolvedConfig::default(), base());
}

#[test]
fn absent_fields_leave_the_base() {
    assert_eq!(resolve_config(&no_overrides(), base()), base());

    let other = ResolvedConfig {
        variant: Variant::Argon2d,
        version: Version::Version10,
        memory_cost: 8,
        time_cost: 1,
        lanes: 7,
        thread_mode: ThreadMode::Parallel,
        hash_length: 4,
        secret: vec![1],
        associated_data: vec![2, 3],
    };
    assert_eq!(resolve_config(&no_overrides(), other.clone()), other);
}

#[test]
fn the_salt_is_no_part_of_the_configuration() {
    let options = HashOptions { salt: vec![9; 40], ..no_overrides() };
    assert_eq!(resolve_config(&options, base()), base());
}

#[test]
fn each_number_overrides_its_own_field() {
    let options = HashOptions { memory_cost: Some(65536), ..no_overrides() };
    assert_eq!(resolve_config(&options, base()), ResolvedConfig { memory_cost: 65536, ..base() });

    let options = HashOptions { time_cost: Some(10), ..no_overrides() };
    assert_eq!(resolve_config(&options, base()), ResolvedConfig { time_cost: 10, ..base() });

    let options = HashOptions { lanes: Some(4), ..no_overrides() };
    assert_eq!(resolve_config(&options, base()), ResolvedConfig { lanes: 4, ..base() });

    let options = HashOptions { hash_length: Some(64), ..no_overrides() };
    assert_eq!(resolve_config(&options, base()), ResolvedConfig { hash_length: 64, ..base() });
}

#[test]
fn numbers_are_copied_without_a_range_check() {
    let options = HashOptions {
        memory_cost: Some(0),
        time_cost: Some(0),
        lanes: Some(u32::MAX),
        hash_length: Some(0),
        ..no_overrides()
    };
    let expected = ResolvedConfig {
        memory_cost: 0,
        time_cost: 0,
        lanes: u32::MAX,
        hash_length: 0,
        ..base()
    };
    assert_eq!(resolve_config(&options, base()), expected);
}

#[test]
fn secret_and_data_override_their_fields() {
    let options = HashOptions { secret: Some(b"pepper".to_vec()), ..no_overrides() };
    assert_eq!(
        resolve_config(&options, base()),
        ResolvedConfig { secret: b"pepper".to_vec(), ..base() }
    );

    let options = HashOptions { data: Some(vec![1, 2, 3]), ..no_overrides() };
    assert_eq!(
        resolve_config(&options, base()),
        ResolvedConfig { associated_data: vec![1, 2, 3], ..base() }
    );

    let with_secret = ResolvedConfig { secret: vec![7], ..base() };
    let options = HashOptions { secret: Some(vec![]), ..no_overrides() };
    assert_eq!(resolve_config(&options, with_secret), base());
}

#[test]
fn every_variant_has_two_names() {
    for (name, variant) in [
        ("Argon2d", Variant::Argon2d),
        ("argon2d", Variant::Argon2d),
        ("Argon2i", Variant::Argon2i),
        ("argon2i", Variant::Argon2i),
        ("Argon2id", Variant::Argon2id),
        ("argon2id", Variant::Argon2id),
    ] {
        let options = HashOptions { variant: Some(name.to_string()), ..no_overrides() };
        let from_d = ResolvedConfig { variant: Variant::Argon2d, ..base() };
        assert_eq!(resolve_config(&options, base()), ResolvedConfig { variant, ..base() });
        assert_eq!(resolve_config(&options, from_d), ResolvedConfig { variant, ..base() });
    }
}

#[test]
fn an_unknown_variant_is_the_same_as_none() {
    for name in ["", "argon2", "ARGON2ID", "Argon2ID", "argon2id ", " argon2i", "2", "Argon2x"] {
        let options = HashOptions { variant: Some(name.to_string()), ..no_overrides() };
        assert_eq!(resolve_config(&options, base()), base());
        let from_id = ResolvedConfig { variant: Variant::Argon2id, ..base() };
        assert_eq!(resolve_config(&options, from_id.clone()), from_id);
    }
}

#[test]
fn a_version_is_named_by_its_number() {
    let options = HashOptions { version: Some("16".to_string()), ..no_overrides() };
    assert_eq!(
        resolve_config(&options, base()),
        ResolvedConfig { version: Version::Version10, ..base() }
    );

    let from_10 = ResolvedConfig { version: Version::Version10, ..base() };
    let options = HashOptions { version: Some("19".to_string()), ..no_overrides() };
    assert_eq!(resolve_config(&options, from_10), base());
}

#[test]
fn an_unknown_version_is_the_same_as_none() {
    for name in ["", "10", "13", "0x13", "19 ", "016", "1.3", "Version13"] {
        let options = HashOptions { version: Some(name.to_string()), ..no_overrides() };
        assert_eq!(resolve_config(&options, base()), base());
        let from_10 = ResolvedConfig { version: Version::Version10, ..base() };
        assert_eq!(resolve_config(&options, from_10.clone()), from_10);
    }
}

#[test]
fn thread_mode_zero_and_one_are_known() {
    let parallel = ResolvedConfig { thread_mode: ThreadMode::Parallel, ..base() };

    let options = HashOptions { thread_mode: Some(1), ..no_overrides() };
    assert_eq!(resolve_config(&options, base()), parallel);

    let options = HashOptions { thread_mode: Some(0), ..no_overrides() };
    assert_eq!(resolve_config(&options, parallel), base());
}

#[test]
fn an_unknown_thread_mode_is_the_same_as_none() {
    for number in [2u8, 3, 10, 128, 255] {
        let options = HashOptions { thread_mode: Some(number), ..no_overrides() };
        assert_eq!(resolve_config(&options, base()), base());
        let parallel = ResolvedConfig { thread_mode: ThreadMode::Parallel, ..base() };
        assert_eq!(resolve_config(&options, parallel.clone()), parallel);
    }
}

#[test]
fn fields_do_not_depend_on_each_other() {
    let options = HashOptions {
        salt: b"0123456789abcdef".to_vec(),
        secret: Some(vec![1, 2]),
        data: Some(vec![3]),
        version: Some("16".to_string()),
        variant: Some("argon2id".to_string()),
        memory_cost: Some(1024),
        time_cost: Some(2),
        lanes: Some(8),
        thread_mode: Some(1),
        hash_length: Some(16),
    };
    let expected = ResolvedConfig {
        variant: Variant::Argon2id,
        version: Version::Version10,
        memory_cost: 1024,
        time_cost: 2,
        lanes: 8,
        thread_mode: ThreadMode::Parallel,
        hash_length: 16,
        secret: vec![1, 2],
        associated_data: vec![3],
    };
    assert_eq!(resolve_config(&options, base()), expected);

    let partly = HashOptions {
        variant: Some("nonsense".to_string()),
        thread_mode: Some(9),
        lanes: None,
        ..options
    };
    let expected = ResolvedConfig {
        variant: Variant::Argon2i,
        thread_mode: ThreadMode::Sequential,
        lanes: 1,
        ..expected
    };
    assert_eq!(resolve_config(&partly, base()), expected);
}
