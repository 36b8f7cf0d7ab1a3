use rust_steam::utils::{
    account_id_to_steam_id, base64_decode, base64_encode, bytes_to_hex, community_id_to_steam_id,
    create_job_id, format_file_size, generate_machine_id, generate_session_id, get_unix_timestamp,
    hex_to_bytes, hmac_sha1, is_valid_steam_username, job_id, mask_ip_address,
    parse_steam_store_url, sanitize_filename, sha1_hash, sha256_hash, IpAddress, RateLimiter,
    RetryAction, RetryPolicy,
};

#[test]
fn test_community_id_to_steam_id() {
    let community_id = 76561198000000000;
    let steam_id = community_id_to_steam_id(community_id).unwrap();
    assert_eq!(steam_id.id, community_id);
}

#[test]
fn test_account_id_to_steam_id() {
    let account_id = 123456;
    let steam_id = account_id_to_steam_id(account_id);
    assert_eq!(steam_id.account_id(), account_id);
}

#[test]
fn test_hex_conversion() {
    let data = vec![0xDE, 0xAD, 0xBE, 0xEF];
    let hex = bytes_to_hex(&data);
    assert_eq!(hex, "deadbeef");

    let decoded = hex_to_bytes(&hex).unwrap();
    assert_eq!(decoded, data);
}

#[test]
fn test_steam_username_validation() {
    assert!(is_valid_steam_username("valid_user123"));
    assert!(is_valid_steam_username("user-name"));
    assert!(!is_valid_steam_username(""));
    assert!(!is_valid_steam_username("user@domain"));
    assert!(!is_valid_steam_username("user with spaces"));
}

#[test]
fn test_file_size_formatting() {
    assert_eq!(format_file_size(0), "0 B");
    assert_eq!(format_file_size(1024), "1.00 KB");
    assert_eq!(format_file_size(1048576), "1.00 MB");
    assert_eq!(format_file_size(1073741824), "1.00 GB");
}

#[test]
fn test_filename_sanitization() {
    let dirty = "file<name>with:illegal\"chars/here";
    let clean = sanitize_filename(dirty);
    assert!(!clean.contains('<'));
    assert!(!clean.contains('>'));
    assert!(!clean.contains(':'));
    assert!(!clean.contains('"'));
    assert!(!clean.contains('/'));
}

#[test]
fn test_steam_store_url_parsing() {
    let url1 = "https://store.steampowered.com/app/730/Counter-Strike_Global_Offensive/";
    assert_eq!(parse_steam_store_url(url1), Some(730));

    let url2 = "https://store.steampowered.com/app/440/?snr=1_7_15__13";
    assert_eq!(parse_steam_store_url(url2), Some(440));

    let invalid_url = "https://store.steampowered.com/games/";
    assert_eq!(parse_steam_store_url(invalid_url), None);
}

#[test]
fn test_utils() {
    let data = b"hello world";
    let encoded = base64_encode(data);
    let decoded = base64_decode(&encoded).unwrap();
    assert_eq!(data.to_vec(), decoded);
}

fn reference_file_size(size: u64) -> String {
    let units = ["B", "KB", "MB", "GB", "TB"];
    let mut size = size as f64;
    let mut unit_index = 0;
    while size >= 1024.0 && unit_index < units.len() - 1 {
        size /= 1024.0;
        unit_index += 1;
    }
    if unit_index == 0 {
        format!("{} {}", size as u64, units[unit_index])
    } else {
        format!("{:.2} {}", size, units[unit_index])
    }
}

#[test]
fn file_size_matches_double_precision_formatting() {
    let mut samples: Vec<u64> = vec![
        1, 9, 10, 1023, 1025, 1152, 1029, 1034, 1500, 2047, 2048, 10240, 1048575, 1048577,
        1_000_000, 123_456_789, 1_099_511_627_775, 1_099_511_627_776, 5_000_000_000_000,
        (1u64 << 53) - 1, 1u64 << 53, (1u64 << 53) + 1, (1u64 << 53) + 3, u64::MAX, u64::MAX - 1,
        (1u64 << 63) + 1025, 18_014_398_509_481_985, 9_007_199_254_740_993,
    ];
    let mut x: u64 = 0x9E37_79B9_7F4A_7C15;
    for _ in 0..20000 {
        x ^= x << 13;
        x ^= x >> 7;
        x ^= x << 17;
        samples.push(x >> (x % 64));
    }
    for k in 1..5u32 {
        let p = 1u64 << (10 * k);
        for m in 0..2000u64 {
            samples.push(m * p / 8);
            samples.push(m * p / 200 + p);
        }
    }
    for s in samples {
        assert_eq!(format_file_size(s), reference_file_size(s), "size {}", s);
    }
}

#[test]
fn file_size_exact_values() {
    assert_eq!(format_file_size(1023), "1023 B");
    assert_eq!(format_file_size(1536), "1.50 KB");
    assert_eq!(format_file_size(u64::MAX), "16777216.00 TB");
}

#[test]
fn community_id_below_minimum_is_refused() {
    match community_id_to_steam_id(76561197960265727) {
        Err(rust_steam::SteamError::InvalidState { message }) => assert_eq!(message, "Invalid community ID"),
        other => panic!("unexpected {:?}", other),
    }
    assert!(community_id_to_steam_id(76561197960265728).is_ok());
}

#[test]
fn hex_and_base64_errors() {
    assert_eq!(hex_to_bytes("DEADbeef").unwrap(), vec![0xDE, 0xAD, 0xBE, 0xEF]);
    match hex_to_bytes("abc") {
        Err(rust_steam::SteamError::Unknown { message }) => {
            assert!(message.starts_with("Failed to decode hex: "))
        },
        other => panic!("unexpected {:?}", other),
    }
    assert!(hex_to_bytes("zz").is_err());
    assert_eq!(base64_encode(b"Ma"), "TWE=");
    assert_eq!(base64_decode("TWE=").unwrap(), b"Ma".to_vec());
    match base64_decode("T!==") {
        Err(rust_steam::SteamError::Unknown { message }) => {
            assert!(message.starts_with("Failed to decode base64: "))
        },
        other => panic!("unexpected {:?}", other),
    }
}

#[test]
fn username_rules() {
    assert!(is_valid_steam_username(&"a".repeat(64)));
    assert!(!is_valid_steam_username(&"a".repeat(65)));
    assert!(is_valid_steam_username("日本"));
    assert!(!is_valid_steam_username("a.b"));
}

#[test]
fn sanitize_exact_output() {
    assert_eq!(sanitize_filename("a<b>c:d\"e/f\\g|h?i*j"), "a_b_c_d_e_f_g_h_i_j");
    assert_eq!(sanitize_filename("tab\there\u{7f}"), "tab_here_");
    assert_eq!(sanitize_filename("ok.txt"), "ok.txt");
}

#[test]
fn store_url_edge_cases() {
    assert_eq!(parse_steam_store_url("https://store.steampowered.com/app/12345"), Some(12345));
    assert_eq!(parse_steam_store_url("https://store.steampowered.com/app//"), None);
    assert_eq!(parse_steam_store_url("https://store.steampowered.com/app/12a/"), None);
}

#[test]
fn digests_and_tags() {
    assert_eq!(bytes_to_hex(&sha1_hash(b"abc")), "a9993e364706816aba3e25717850c26c9cd0d89d");
    assert_eq!(
        bytes_to_hex(&sha256_hash(b"abc")),
        "ba7816bf8f01cfea414140de5dae2223b00361a396177a9cb410ff61f20015ad"
    );
    let tag = hmac_sha1(b"key", b"The quick brown fox jumps over the lazy dog").unwrap();
    assert_eq!(bytes_to_hex(&tag), "de7c9b85b8b78aa6bc8a7a36f70a90701c9db4d9");
    assert_eq!(hmac_sha1(&[7u8; 200], b"x").unwrap().len(), 20);
}

#[test]
fn machine_and_session_identifiers() {
    assert_eq!(generate_machine_id().len(), 20);
    let _ = generate_session_id();
    assert!(get_unix_timestamp() > 1_600_000_000);
}

#[test]
fn ip_masking() {
    assert_eq!(mask_ip_address(IpAddress::V4([192, 168, 1, 20])), "192.168.XXX.XXX");
    assert_eq!(
        mask_ip_address(IpAddress::V6([0x2001, 0xdb8, 0, 0, 0, 0, 0, 1])),
        "8193:3512:XXXX:XXXX:XXXX:XXXX:XXXX:XXXX"
    );
}

#[test]
fn job_identifiers() {
    assert_eq!(job_id(1, 2), (1u64 << 32) | 2);
    assert_eq!(job_id(0x1_0000_0005, 9), (5u64 << 32) | 9);
    let mut counter = 0u32;
    let id = create_job_id(&mut counter);
    assert_eq!(counter, 1);
    assert_eq!(id & 0xFFFF_FFFF, 1);
    let mut top = u32::MAX;
    let id = create_job_id(&mut top);
    assert_eq!(top, 0);
    assert_eq!(id & 0xFFFF_FFFF, 0);
}

#[test]
fn test_rate_limiter() {
    let mut limiter = RateLimiter::new(2, 100, 0);

    assert!(limiter.acquire(0));
    assert!(limiter.acquire(0));

    assert!(!limiter.acquire(0));

    assert!(limiter.acquire(150));
}

#[test]
fn retry_backoff_schedule() {
    let mut p = RetryPolicy::new(3, 1000);
    let mut waits = Vec::new();
    loop {
        assert!(p.begin_attempt());
        match p.on_failure() {
            RetryAction::RetryAfter(ms) => waits.push(ms),
            RetryAction::GiveUp => break,
        }
    }
    assert_eq!(waits, vec![1000, 2000]);
    assert!(!p.begin_attempt());
    let mut q = RetryPolicy::new(10, 40_000);
    assert!(q.begin_attempt());
    assert_eq!(q.on_failure(), RetryAction::RetryAfter(40_000));
    assert_eq!(q.delay_ms, 60_000);
}

#[test]
fn rate_limiter_grants_at_most_capacity_per_period() {
    let mut limiter = RateLimiter::new(3, 1000, 0);
    let granted = (0..10u64).filter(|t| limiter.acquire(t * 99)).count();
    assert_eq!(granted, 3);
    assert!(limiter.acquire(1000));
    assert!(limiter.acquire(1500));
    assert!(limiter.acquire(1999));
    assert!(!limiter.acquire(1999));
}
