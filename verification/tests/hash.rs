use argon2_bridge::{hash, hash_internal, hash_password, hash_result, hash_with};
use argon2_bridge::{DecodeError, Error, Field, HashOptions, HashResult};

const DEFAULT_HASH: &str =
    "$argon2i$v=19$m=4096,t=3,p=1$c29tZXNhbHQ$iWh06vD8Fy27wf9npn6FXWiCX4K6pW6Ue1Bnzz07Z8A";

fn no_overrides(salt: &[u8]) -> HashOptions {
    HashOptions {
        salt: salt.to_vec(),
        secret: None,
        data: None,
        version: None,
        variant: None,
        memory_cost: None,
        time_cost: None,
        lanes: None,
        thread_mode: None,
        hash_length: None,
    }
}

fn small(variant: &str) -> HashOptions {
    HashOptions {
        variant: Some(variant.to_string()),
        memory_cost: Some(256),
        time_cost: Some(2),
        ..no_overrides(b"somesalt")
    }
}

fn rejected(options: HashOptions) -> String {
    match hash_password("password", &options) {
        Err(Error::Algorithm(message)) => message,
        other => panic!("not rejected: {:?}", other),
    }
}

fn read_frame(frame: &Option<Vec<u8>>) -> String {
    let frame = frame.as_ref().unwrap();
    let mut prefix = [0u8; 4];
    prefix.copy_from_slice(&frame[0..4]);
    let len = u32::from_be_bytes(prefix) as usize;
    assert_eq!(frame.len(), 4 + len);
    String::from_utf8(frame[4..4 + len].to_vec()).unwrap()
}

fn byte_list(bytes: &[u8]) -> String {
    let numbers: Vec<String> = bytes.iter().map(|b| b.to_string()).collect();
    format!("[{}]", numbers.join(","))
}

#[test]
fn hash_with_the_defaults() {
    assert_eq!(
        hash_password("password", &no_overrides(b"somesalt")),
        Ok(DEFAULT_HASH.to_string())
    );
}

#[test]
fn hash_with_each_variant() {
    assert_eq!(
        hash_password("password", &small("Argon2i")),
        Ok("$argon2i$v=19$m=256,t=2,p=1$c29tZXNhbHQ$iekCn0Y3spW+sCcFanM2xBT63UP2sghkUoHLIUpWRS8"
            .to_string())
    );
    assert_eq!(
        hash_password("password", &small("argon2id")),
        Ok("$argon2id$v=19$m=256,t=2,p=1$c29tZXNhbHQ$nf65EOgLrQMR/uIPnA4rEsF5h7TKyQwu9U1bMCHGi/4"
            .to_string())
    );
    let options = HashOptions { version: Some("16".to_string()), ..small("Argon2d") };
    assert_eq!(
        hash_password("password", &options),
        Ok("$argon2d$v=16$m=256,t=2,p=1$c29tZXNhbHQ$vUBIaP8AxS51Q8gzLmp3KlckiS1+Mo1c8lO7yOcms3E"
            .to_string())
    );
}

#[test]
fn hash_with_two_lanes_in_either_thread_mode() {
    let expected =
        "$argon2d$v=16$m=256,t=2,p=2$c29tZXNhbHQ$apHQK5+IVLoIQfBKpuU8HTN0wKDGRrjkMbA96AW5HsM";
    let options = HashOptions { version: Some("16".to_string()), lanes: Some(2), ..small("argon2d") };
    assert_eq!(hash_password("password", &options), Ok(expected.to_string()));
    let parallel = HashOptions { thread_mode: Some(1), ..options.clone() };
    assert_eq!(hash_password("password", &parallel), Ok(expected.to_string()));
    let sequential = HashOptions { thread_mode: Some(0), ..options };
    assert_eq!(hash_password("password", &sequential), Ok(expected.to_string()));
}

#[test]
fn many_lanes_need_no_threads() {
    let options = HashOptions {
        lanes: Some(3000),
        memory_cost: Some(24000),
        time_cost: Some(1),
        thread_mode: Some(1),
        ..no_overrides(b"somesalt")
    };
    let parallel = hash_password("password", &options).unwrap();
    assert!(parallel.starts_with("$argon2i$v=19$m=24000,t=1,p=3000$c29tZXNhbHQ$"));
    let sequential = HashOptions { thread_mode: Some(0), ..options.clone() };
    assert_eq!(hash_password("password", &sequential), Ok(parallel.clone()));
    let unset = HashOptions { thread_mode: None, ..options };
    assert_eq!(hash_password("password", &unset), Ok(parallel));
}

#[test]
fn hash_with_secret_and_associated_data() {
    let options = HashOptions {
        secret: Some(b"secret".to_vec()),
        data: Some(b"ad".to_vec()),
        ..no_overrides(b"somesalt")
    };
    assert_eq!(
        hash_password("password", &options),
        Ok("$argon2i$v=19$m=4096,t=3,p=1$c29tZXNhbHQ$OlcSvlN20Lz43sK3jhCJ9K04oejhiY0AmI+ck6nuETo"
            .to_string())
    );
}

#[test]
fn hash_length_sets_the_length_of_the_tag() {
    let options = HashOptions { hash_length: Some(4), ..small("argon2i") };
    let encoded = hash_password("password", &options).unwrap();
    let tag = encoded.rsplit('$').next().unwrap();
    assert_eq!(tag.len(), 6);
    assert!(encoded.starts_with("$argon2i$v=19$m=256,t=2,p=1$c29tZXNhbHQ$"));

    let options = HashOptions { hash_length: Some(64), ..small("argon2i") };
    let encoded = hash_password("password", &options).unwrap();
    assert_eq!(encoded.rsplit('$').next().unwrap().len(), 86);
}

#[test]
fn an_unknown_variant_version_or_thread_mode_changes_nothing() {
    let plain = hash_password("password", &no_overrides(b"somesalt"));
    assert_eq!(plain, Ok(DEFAULT_HASH.to_string()));
    let options = HashOptions {
        variant: Some("argon3".to_string()),
        version: Some("20".to_string()),
        thread_mode: Some(7),
        ..no_overrides(b"somesalt")
    };
    assert_eq!(hash_password("password", &options), plain);

    let payload = br#"{"password":"password","options":{"salt":"somesalt",
        "variant":"ARGON2D","version":"13","threadMode":2}}"#;
    assert_eq!(hash_internal(payload), Ok(DEFAULT_HASH.to_string()));
}

#[test]
fn a_password_is_hashed_as_utf8() {
    let options = small("argon2i");
    let ascii = hash_password("password", &options).unwrap();
    let other = hash_password("pässword", &options).unwrap();
    assert_ne!(ascii, other);
    assert!(other.starts_with("$argon2i$v=19$m=256,t=2,p=1$c29tZXNhbHQ$"));
    assert!(hash_password("", &options).is_ok());
}

#[test]
fn argon2_rejects_what_is_out_of_its_limits() {
    let base = no_overrides(b"somesalt");
    assert_eq!(rejected(HashOptions { lanes: Some(0), ..base.clone() }), "Too few lanes");
    assert_eq!(
        rejected(HashOptions { lanes: Some(0x0100_0000), ..base.clone() }),
        "Too many lanes"
    );
    assert_eq!(
        rejected(HashOptions { memory_cost: Some(7), ..base.clone() }),
        "Memory cost is too small"
    );
    assert_eq!(
        rejected(HashOptions { memory_cost: Some(16), lanes: Some(3), ..base.clone() }),
        "Memory cost is too small"
    );
    assert_eq!(
        rejected(HashOptions { time_cost: Some(0), ..base.clone() }),
        "Time cost is too small"
    );
    assert_eq!(rejected(no_overrides(b"7 bytes")), "Salt is too short");
    assert_eq!(rejected(no_overrides(b"")), "Salt is too short");
    assert_eq!(
        rejected(HashOptions { hash_length: Some(3), ..base.clone() }),
        "Output is too short"
    );
}

#[test]
fn argon2_takes_what_is_just_within_its_limits() {
    let options = HashOptions {
        memory_cost: Some(8),
        time_cost: Some(1),
        lanes: Some(1),
        hash_length: Some(4),
        ..no_overrides(b"8 bytes!")
    };
    assert!(hash_password("", &options).is_ok());
    let options = HashOptions { memory_cost: Some(24), lanes: Some(3), ..options };
    assert!(hash_password("", &options).is_ok());
}

#[test]
fn the_first_limit_that_is_broken_is_reported() {
    let all_wrong = HashOptions {
        lanes: Some(0),
        memory_cost: Some(0),
        time_cost: Some(0),
        hash_length: Some(0),
        ..no_overrides(b"")
    };
    assert_eq!(rejected(all_wrong.clone()), "Too few lanes");
    let options = HashOptions { lanes: Some(1), ..all_wrong };
    assert_eq!(rejected(options.clone()), "Memory cost is too small");
    let options = HashOptions { memory_cost: Some(8), ..options };
    assert_eq!(rejected(options.clone()), "Time cost is too small");
    let options = HashOptions { time_cost: Some(1), ..options };
    assert_eq!(rejected(options.clone()), "Salt is too short");
    let options = HashOptions { salt: b"somesalt".to_vec(), ..options };
    assert_eq!(rejected(options), "Output is too short");
}

#[test]
fn hash_internal_decodes_and_hashes() {
    let payload = br#"{"password":"password","options":{"salt":"somesalt"}}"#;
    assert_eq!(hash_internal(payload), Ok(DEFAULT_HASH.to_string()));

    let payload = br#"{"password":"password","options":{"salt":[115,111,109,101,115,97,108,116],
        "variant":"argon2id","memoryCost":256,"timeCost":2}}"#;
    assert_eq!(
        hash_internal(payload),
        Ok("$argon2id$v=19$m=256,t=2,p=1$c29tZXNhbHQ$nf65EOgLrQMR/uIPnA4rEsF5h7TKyQwu9U1bMCHGi/4"
            .to_string())
    );
}

#[test]
fn hash_internal_reports_a_payload_that_is_no_request() {
    assert_eq!(
        hash_internal(b"{}"),
        Err(Error::Decode(DecodeError::Missing(Field::Password)))
    );
    assert_eq!(
        hash_internal(br#"{"password":"pw","options":{}}"#),
        Err(Error::Decode(DecodeError::Missing(Field::Salt)))
    );
    assert_eq!(
        hash_internal(b"[]"),
        Err(Error::Decode(DecodeError::NotAnObject))
    );
    assert_eq!(
        hash_internal(b"{"),
        Err(Error::Decode(DecodeError::Malformed(
            "EOF while parsing an object at line 1 column 1".to_string()
        )))
    );
}

#[test]
fn hash_internal_reports_what_argon2_rejects() {
    assert_eq!(
        hash_internal(br#"{"password":"pw","options":{"salt":"short"}}"#),
        Err(Error::Algorithm("Salt is too short".to_string()))
    );
    assert_eq!(
        hash_internal(br#"{"password":"pw","options":{"salt":"somesalt","lanes":0}}"#),
        Err(Error::Algorithm("Too few lanes".to_string()))
    );
}

#[test]
fn errors_in_words() {
    assert_eq!(Error::Algorithm("Salt is too short".to_string()).message(), "Salt is too short");
    assert_eq!(
        Error::Decode(DecodeError::Missing(Field::Hash)).message(),
        "missing field `hash`"
    );
    assert_eq!(
        Error::Decode(DecodeError::Malformed("expected value at line 1 column 1".to_string()))
            .message(),
        "expected value at line 1 column 1"
    );
}

#[test]
fn the_reply_carries_the_hash_or_the_error() {
    assert_eq!(
        hash_result(Ok("$argon2i$x".to_string())),
        HashResult { result: b"$argon2i$x".to_vec(), error: None }
    );
    assert_eq!(
        hash_result(Ok(String::new())),
        HashResult { result: vec![], error: None }
    );
    assert_eq!(
        hash_result(Err(Error::Algorithm("Too few lanes".to_string()))),
        HashResult { result: vec![], error: Some("Too few lanes".to_string()) }
    );
    assert_eq!(
        hash_result(Err(Error::Decode(DecodeError::NotAnObject))),
        HashResult {
            result: vec![],
            error: Some("invalid request: expected an object".to_string()),
        }
    );
}

#[test]
fn hash_with_wraps_the_outcome() {
    assert_eq!(
        hash_with("password", &no_overrides(b"somesalt")),
        HashResult { result: DEFAULT_HASH.as_bytes().to_vec(), error: None }
    );
    assert_eq!(
        hash_with("password", &no_overrides(b"salt")),
        HashResult { result: vec![], error: Some("Salt is too short".to_string()) }
    );
}

#[test]
fn the_reply_as_json() {
    let reply = HashResult { result: vec![36, 0, 255], error: None };
    assert_eq!(
        argon2_bridge::codec::write_json(&reply.to_json()),
        r#"{"result":[36,0,255],"error":null}"#
    );
    let reply = HashResult { result: vec![], error: Some("a \"b\"".to_string()) };
    assert_eq!(
        argon2_bridge::codec::write_json(&reply.to_json()),
        r#"{"result":[],"error":"a \"b\""}"#
    );
}

#[test]
fn the_reply_in_its_frame() {
    let reply = HashResult { result: vec![1, 2], error: None };
    let text = r#"{"result":[1,2],"error":null}"#;
    assert_eq!(reply.frame(), Some(argon2_bridge::pack_result(text)));
    assert_eq!(reply.frame().unwrap()[0..4], [0, 0, 0, 29]);
    assert_eq!(read_frame(&reply.frame()), text);

    let reply = HashResult { result: vec![], error: Some("é".to_string()) };
    assert_eq!(reply.frame().unwrap()[0..4], [0, 0, 0, 26]);
    assert_eq!(read_frame(&reply.frame()), "{\"result\":[],\"error\":\"é\"}");
}

#[test]
fn hash_answers_with_a_framed_reply() {
    let frame = hash(br#"{"password":"password","options":{"salt":"somesalt"}}"#);
    let expected = format!("{{\"result\":{},\"error\":null}}", byte_list(DEFAULT_HASH.as_bytes()));
    assert_eq!(read_frame(&frame), expected);
    assert_eq!(&frame.unwrap()[0..4], &(expected.len() as u32).to_be_bytes());
}

#[test]
fn the_reply_in_place_of_one_without_a_frame() {
    let reply = HashResult::too_long();
    assert_eq!(
        reply,
        HashResult {
            result: vec![],
            error: Some("the reply is too long for its frame".to_string()),
        }
    );
    assert_eq!(
        read_frame(&reply.frame()),
        r#"{"result":[],"error":"the reply is too long for its frame"}"#
    );
}

#[test]
fn a_thread_mode_that_is_no_byte_is_ignored() {
    let expected =
        "$argon2i$v=19$m=256,t=2,p=1$c29tZXNhbHQ$iekCn0Y3spW+sCcFanM2xBT63UP2sghkUoHLIUpWRS8";
    for thread_mode in ["256", "300", "-1", "4294967296", "18446744073709551615", "2", "255"] {
        let payload = format!(
            "{{\"password\":\"password\",\"options\":{{\"salt\":[115,111,109,101,115,97,108,116],\
             \"variant\":\"Argon2i\",\"memoryCost\":256,\"timeCost\":2,\"threadMode\":{}}}}}",
            thread_mode
        );
        assert_eq!(hash_internal(payload.as_bytes()), Ok(expected.to_string()), "{}", thread_mode);
    }
    let without = br#"{"password":"password","options":{"salt":[115,111,109,101,115,97,108,116],
        "variant":"Argon2i","memoryCost":256,"timeCost":2}}"#;
    assert_eq!(hash_internal(without), Ok(expected.to_string()));
}

#[test]
fn of_two_members_of_one_name_in_a_payload_the_last_counts() {
    let payload = br#"{"password":"wrong","options":{"salt":"saltsalt","salt":"somesalt",
        "lanes":0,"lanes":1},"password":"password"}"#;
    assert_eq!(hash_internal(payload), Ok(DEFAULT_HASH.to_string()));
    let payload = br#"{"password":"password","options":{"salt":"somesalt"},"password":7}"#;
    assert_eq!(
        hash_internal(payload),
        Err(Error::Decode(DecodeError::Invalid(Field::Password)))
    );
}

#[test]
fn the_framed_reply_reads_back_to_the_reply() {
    let replies = [
        HashResult { result: vec![], error: None },
        HashResult { result: vec![0, 1, 254, 255], error: None },
        HashResult { result: vec![], error: Some("a \"b\" \\ \n é".to_string()) },
        HashResult::too_long(),
    ];
    for reply in replies {
        let text = read_frame(&reply.frame());
        assert_eq!(argon2_bridge::codec::read_json(text.as_bytes()), Ok(reply.to_json()));
    }
}

#[test]
fn the_framed_reply_decodes_to_the_reply() {
    let frame = hash(br#"{"password":"password","options":{"salt":"somesalt"}}"#);
    let value: serde_json::Value = serde_json::from_str(&read_frame(&frame)).unwrap();
    let result: Vec<u8> = value
        .get("result")
        .and_then(|r| r.as_array())
        .unwrap()
        .iter()
        .map(|n| n.as_u64().unwrap() as u8)
        .collect();
    assert_eq!(result, DEFAULT_HASH.as_bytes());
    assert!(value.get("error").unwrap().is_null());
    assert_eq!(value.as_object().unwrap().len(), 2);
}

#[test]
fn hash_without_a_password_answers_with_an_error() {
    for payload in [&br#"{"options":{"salt":"somesalt"}}"#[..], &b"{}"[..]] {
        let frame = hash(payload);
        assert_eq!(read_frame(&frame), r#"{"result":[],"error":"missing field `password`"}"#);
    }
}

#[test]
fn hash_without_a_salt_answers_with_an_error() {
    let frame = hash(br#"{"password":"correct horse","options":{"memoryCost":65536}}"#);
    assert_eq!(read_frame(&frame), r#"{"result":[],"error":"missing field `salt`"}"#);
    assert_eq!(&frame.unwrap()[0..4], &[0, 0, 0, 44]);
}

#[test]
fn hash_of_a_malformed_payload_answers_with_an_error() {
    assert_eq!(
        read_frame(&hash(b"")),
        r#"{"result":[],"error":"EOF while parsing a value at line 1 column 0"}"#
    );
    assert_eq!(
        read_frame(&hash(b"\xff\xfe")),
        r#"{"result":[],"error":"expected value at line 1 column 1"}"#
    );
}

#[test]
fn hash_of_what_argon2_rejects_answers_with_an_error() {
    let frame = hash(br#"{"password":"pw","options":{"salt":"somesalt","timeCost":0}}"#);
    assert_eq!(read_frame(&frame), r#"{"result":[],"error":"Time cost is too small"}"#);
}

#[test]
fn the_example_request_gives_an_encoded_hash() {
    let payload = br#"{"password":"correct horse","options":{
        "salt":[0,1,2,3,4,5,6,7,8,9,10,11,12,13,14,15],
        "memoryCost":65536,"timeCost":3,"lanes":4}}"#;
    let expected = "$argon2i$v=19$m=65536,t=3,p=4$AAECAwQFBgcICQoLDA0ODw\
                    $Vw82KmtZf+n3GRdzsHMXDJsQe4VI+nTvDXpR51r+33I";
    let frame = hash(payload);
    let text = read_frame(&frame);
    assert_eq!(text, format!("{{\"result\":{},\"error\":null}}", byte_list(expected.as_bytes())));
}
