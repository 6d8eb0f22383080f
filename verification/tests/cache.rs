use feluda::cache::{
    age_secs_at, entry_age_secs, entry_at, get_cache_status, is_entry_fresh, is_fresh_at,
    load_from_file_at, load_github_licenses_from_cache, save_github_licenses_to_cache, status_at,
    CacheEntry, CacheFile, CacheStatus, CACHE_TTL_SECS, CACHE_VERSION,
};
use feluda::licenses::{License, Taxonomy};
use std::time::SystemTime;

fn make_license(id: &str) -> License {
    License {
        title: format!("{id} License"),
        spdx_id: id.to_string(),
        permissions: vec!["commercial-use".into()],
        conditions: vec!["include-copyright".into()],
        limitations: vec!["liability".into()],
    }
}

fn one_license() -> Taxonomy {
    let mut data = Taxonomy::new();
    data.insert("MIT".to_string(), make_license("MIT"));
    data
}

fn now_secs() -> u64 {
    SystemTime::now()
        .duration_since(SystemTime::UNIX_EPOCH)
        .unwrap()
        .as_secs()
}

#[test]
fn fresh_entry_is_fresh() {
    assert!(is_entry_fresh(now_secs()));
}

#[test]
fn stale_entry_is_not_fresh() {
    let old = now_secs() - CACHE_TTL_SECS - 1;
    assert!(!is_entry_fresh(old));
}

#[test]
fn entry_age_is_correct() {
    let ts = now_secs() - 120;
    let age = entry_age_secs(ts);
    assert!((120..=122).contains(&age));
}

#[test]
fn format_size_bytes() {
    assert_eq!(CacheStatus::format_size(500), "500 B");
}

#[test]
fn format_size_kilobytes() {
    assert_eq!(CacheStatus::format_size(2048), "2.00 KB");
}

#[test]
fn format_size_megabytes() {
    assert_eq!(CacheStatus::format_size(1_048_576), "1.00 MB");
}

#[test]
fn format_age_just_now() {
    assert_eq!(CacheStatus::format_age(30), "just now");
    assert_eq!(CacheStatus::format_age(0), "just now");
}

#[test]
fn format_age_minutes() {
    assert_eq!(CacheStatus::format_age(300), "5 minutes ago");
}

#[test]
fn format_age_hours() {
    assert_eq!(CacheStatus::format_age(7200), "2 hours ago");
}

#[test]
fn format_age_days() {
    assert_eq!(CacheStatus::format_age(172_800), "2 days ago");
}

#[test]
fn ttl_is_thirty_days() {
    assert_eq!(CACHE_TTL_SECS, 2_592_000);
    assert_eq!(CACHE_VERSION, 1);
}

#[test]
fn freshness_ends_exactly_at_the_ttl() {
    let now = 1_700_000_000;
    assert!(is_fresh_at(now, now));
    assert!(is_fresh_at(now, now - CACHE_TTL_SECS + 1));
    assert!(!is_fresh_at(now, now - CACHE_TTL_SECS));
    assert!(!is_fresh_at(now, now - CACHE_TTL_SECS - 1));
    assert!(!is_fresh_at(u64::MAX, 0));
}

#[test]
fn clock_that_moved_backwards_gives_age_zero() {
    assert_eq!(age_secs_at(100, 500), 0);
    assert!(is_fresh_at(100, 500));
    assert_eq!(age_secs_at(500, 100), 400);
    assert_eq!(age_secs_at(0, u64::MAX), 0);
}

#[test]
fn load_fresh_snapshot() {
    let now = 1_700_000_000;
    let entry = CacheEntry { version: CACHE_VERSION, data: one_license(), timestamp: now };
    let result = load_from_file_at(CacheFile::Parsed(entry), now);
    assert!(result.is_some());
    let data = result.unwrap();
    assert_eq!(data.len(), 1);
    assert_eq!(data.get("MIT").unwrap().spdx_id, "MIT");
}

#[test]
fn load_stale_snapshot() {
    let now = 1_700_000_000;
    let entry = CacheEntry {
        version: CACHE_VERSION,
        data: one_license(),
        timestamp: now - CACHE_TTL_SECS - 1,
    };
    assert!(load_from_file_at(CacheFile::Parsed(entry), now).is_none());
}

#[test]
fn load_snapshot_with_other_version() {
    let now = 1_700_000_000;
    let newer = CacheEntry { version: CACHE_VERSION + 1, data: one_license(), timestamp: now };
    assert!(load_from_file_at(CacheFile::Parsed(newer), now).is_none());
    let unversioned = CacheEntry { version: 0, data: one_license(), timestamp: now };
    assert!(load_from_file_at(CacheFile::Parsed(unversioned), now).is_none());
}

#[test]
fn load_without_snapshot() {
    let now = 1_700_000_000;
    assert!(load_from_file_at(CacheFile::Missing, now).is_none());
    assert!(load_from_file_at(CacheFile::Unreadable, now).is_none());
    assert!(load_from_file_at(CacheFile::Corrupt, now).is_none());
    assert!(load_github_licenses_from_cache(CacheFile::Corrupt).is_none());
    assert!(load_github_licenses_from_cache(CacheFile::Missing).is_none());
}

#[test]
fn saved_snapshot_loads_again() {
    let entry = save_github_licenses_to_cache(one_license());
    assert_eq!(entry.version, CACHE_VERSION);
    assert!(entry.timestamp >= now_secs() - 2 && entry.timestamp <= now_secs());
    let data = load_github_licenses_from_cache(CacheFile::Parsed(entry)).unwrap();
    assert_eq!(data.len(), 1);
    assert_eq!(data.get("MIT").unwrap().title, "MIT License");
}

#[test]
fn entry_at_keeps_what_it_is_given() {
    let entry = entry_at(one_license(), 42);
    assert_eq!(entry.version, CACHE_VERSION);
    assert_eq!(entry.timestamp, 42);
    assert_eq!(entry.data.len(), 1);
    assert!(entry.data.contains_key("MIT"));
}

#[test]
fn status_of_missing_file() {
    let status = status_at("/tmp/cache.json".to_string(), 77, &CacheFile::Missing, 1000);
    assert!(!status.exists);
    assert_eq!(status.path, "/tmp/cache.json");
    assert_eq!(status.size_bytes, 0);
    assert!(!status.is_fresh);
    assert_eq!(status.age_secs, 0);
    assert_eq!(status.license_count, 0);
}

#[test]
fn status_of_corrupt_file() {
    for file in [CacheFile::Corrupt, CacheFile::Unreadable] {
        let status = status_at("p".to_string(), 77, &file, 1000);
        assert!(status.exists);
        assert_eq!(status.size_bytes, 77);
        assert!(!status.is_fresh);
        assert_eq!(status.age_secs, 0);
        assert_eq!(status.license_count, 0);
    }
}

#[test]
fn status_of_snapshot_ignores_version() {
    let entry = CacheEntry { version: 9, data: one_license(), timestamp: 900 };
    let status = status_at("p".to_string(), 2048, &CacheFile::Parsed(entry), 1000);
    assert!(status.exists);
    assert_eq!(status.size_bytes, 2048);
    assert!(status.is_fresh);
    assert_eq!(status.age_secs, 100);
    assert_eq!(status.license_count, 1);
}

#[test]
fn status_by_the_clock() {
    let entry = CacheEntry { version: CACHE_VERSION, data: one_license(), timestamp: 5 };
    let status = get_cache_status("p".to_string(), 10, &CacheFile::Parsed(entry));
    assert!(status.exists);
    assert!(!status.is_fresh);
    assert!(status.age_secs >= CACHE_TTL_SECS);
    assert_eq!(status.license_count, 1);
}

#[test]
fn status_text_of_empty_cache() {
    let status = status_at("/c/f.json".to_string(), 0, &CacheFile::Missing, 0);
    assert_eq!(
        status.status_text(),
        "\n📦 Cache Status: EMPTY\n   No cache found at: /c/f.json\n   Cache will be created on next license analysis.\n\n"
    );
}

#[test]
fn status_text_of_snapshot() {
    let entry = CacheEntry { version: CACHE_VERSION, data: one_license(), timestamp: 1000 };
    let status = status_at("/c/f.json".to_string(), 2048, &CacheFile::Parsed(entry), 1300);
    assert_eq!(
        status.status_text(),
        "\n📦 Cache Status: ✓ FRESH\n   Location: /c/f.json\n   Size: 2.00 KB\n   Age: 5 minutes ago\n   Licenses cached: 1\n\n"
    );
    let stale = CacheStatus {
        exists: true,
        path: "x".to_string(),
        size_bytes: 1,
        is_fresh: false,
        age_secs: 86400 * 40,
        license_count: 12,
    };
    assert_eq!(
        stale.status_text(),
        "\n📦 Cache Status: ✗ STALE\n   Location: x\n   Size: 1 B\n   Age: 40 days ago\n   Licenses cached: 12\n\n"
    );
}

#[test]
fn format_size_boundaries() {
    assert_eq!(CacheStatus::format_size(0), "0 B");
    assert_eq!(CacheStatus::format_size(1023), "1023 B");
    assert_eq!(CacheStatus::format_size(1024), "1.00 KB");
    assert_eq!(CacheStatus::format_size(1536), "1.50 KB");
    assert_eq!(CacheStatus::format_size(1_048_575), "1024.00 KB");
    assert_eq!(CacheStatus::format_size(1_572_864), "1.50 MB");
    assert_eq!(CacheStatus::format_size(10_485_760), "10.00 MB");
}

#[test]
fn format_age_boundaries() {
    assert_eq!(CacheStatus::format_age(59), "just now");
    assert_eq!(CacheStatus::format_age(60), "1 minutes ago");
    assert_eq!(CacheStatus::format_age(3599), "59 minutes ago");
    assert_eq!(CacheStatus::format_age(3600), "1 hours ago");
    assert_eq!(CacheStatus::format_age(86_399), "23 hours ago");
    assert_eq!(CacheStatus::format_age(86_400), "1 days ago");
    assert_eq!(CacheStatus::format_age(u64::MAX), "213503982334601 days ago");
}

fn size_as_a_double_prints(bytes: u64) -> String {
    if bytes < 1024 {
        format!("{bytes} B")
    } else if bytes < 1024 * 1024 {
        format!("{:.2} KB", bytes as f64 / 1024.0)
    } else {
        format!("{:.2} MB", bytes as f64 / 1048576.0)
    }
}

#[test]
fn format_size_rounds_as_a_double_does() {
    let mut samples: Vec<u64> = vec![
        5248, 5120 + 5, 1029, 1030, 1034, 1035, 1039, 1040, 3200, 128 * 41, 128 * 43, 128 * 45,
        1_048_576 + 5243, 1_048_576 + 131_072 * 3 / 25, u64::MAX, u64::MAX - 1, 1 << 53, (1 << 53) + 1,
        (1 << 53) + 2, (1 << 53) + 3, (1 << 54) + 2, (1 << 54) + 6, (1 << 63) + 1024, (1 << 63) + 1025,
        (1 << 63) + 3072, u64::MAX - 1023, u64::MAX - 1024, u64::MAX - 2047,
    ];
    let mut x: u64 = 1024;
    while x < 1 << 21 {
        samples.push(x);
        x += 37;
    }
    let mut y: u64 = 0x9E37_79B9_7F4A_7C15;
    for _ in 0..20_000 {
        y ^= y << 13;
        y ^= y >> 7;
        y ^= y << 17;
        samples.push(y);
        samples.push(y >> 11);
        samples.push(y >> 30);
    }
    for bytes in samples {
        assert_eq!(CacheStatus::format_size(bytes), size_as_a_double_prints(bytes), "{bytes}");
    }
}

fn snapshot_text(version: u32, data: Taxonomy, timestamp: u64) -> String {
    feluda::cache_format::render_cache_entry(&CacheEntry { version, data, timestamp }).unwrap()
}

#[test]
fn serde_round_trip() {
    let mut data = Taxonomy::new();
    data.insert("MIT".to_string(), make_license("MIT"));
    let entry = CacheEntry {
        version: CACHE_VERSION,
        data,
        timestamp: now_secs(),
    };
    let json = feluda::cache_format::render_cache_entry(&entry).unwrap();
    let decoded = match feluda::cache_format::parse_cache_file(&json) {
        CacheFile::Parsed(decoded) => decoded,
        _ => panic!("the snapshot did not come back"),
    };
    assert_eq!(decoded.data.len(), 1);
    assert_eq!(decoded.data.get("MIT").unwrap().spdx_id, "MIT");
    assert_eq!(decoded.timestamp, entry.timestamp);
    assert_eq!(decoded.version, CACHE_VERSION);
}

#[test]
fn load_from_content_fresh() {
    let json = snapshot_text(CACHE_VERSION, one_license(), now_secs());
    let result = feluda::cache_format::load_from_content(&json, now_secs());
    assert!(result.is_some());
    assert_eq!(result.unwrap().len(), 1);
}

#[test]
fn load_from_content_stale() {
    let json = snapshot_text(CACHE_VERSION, one_license(), now_secs() - CACHE_TTL_SECS - 1);
    assert!(feluda::cache_format::load_from_content(&json, now_secs()).is_none());
}

#[test]
fn load_from_content_corrupt() {
    let now = now_secs();
    assert!(feluda::cache_format::load_from_content("not valid json {{{", now).is_none());
    assert!(feluda::cache_format::load_from_content("", now).is_none());
    assert!(feluda::cache_format::load_from_content("{}", now).is_none());
}

#[test]
fn snapshot_is_written_with_sorted_keys_and_two_spaces() {
    let mut data = Taxonomy::new();
    data.insert("MIT".to_string(), make_license("MIT"));
    data.insert("0BSD".to_string(), make_license("0BSD"));
    let text = snapshot_text(1, data, 1_700_000_000);
    let expected = r#"{
  "data": {
    "0BSD": {
      "conditions": [
        "include-copyright"
      ],
      "limitations": [
        "liability"
      ],
      "permissions": [
        "commercial-use"
      ],
      "spdx_id": "0BSD",
      "title": "0BSD License"
    },
    "MIT": {
      "conditions": [
        "include-copyright"
      ],
      "limitations": [
        "liability"
      ],
      "permissions": [
        "commercial-use"
      ],
      "spdx_id": "MIT",
      "title": "MIT License"
    }
  },
  "timestamp": 1700000000,
  "version": 1
}"#;
    assert_eq!(text, expected);
    assert_eq!(
        snapshot_text(0, Taxonomy::new(), 0),
        "{\n  \"data\": {},\n  \"timestamp\": 0,\n  \"version\": 0\n}"
    );
}

#[test]
fn snapshot_round_trip_keeps_every_field() {
    let mut data = Taxonomy::new();
    data.insert(
        "Odd \"id\"\n".to_string(),
        License {
            title: "Tïtle \\ with 🎉".to_string(),
            spdx_id: "Other".to_string(),
            permissions: vec![],
            conditions: vec!["a".to_string(), "".to_string(), "a".to_string()],
            limitations: vec!["x y".to_string()],
        },
    );
    data.insert("MIT".to_string(), make_license("MIT"));
    let text = snapshot_text(7, data, u64::MAX);
    let entry = match feluda::cache_format::parse_cache_file(&text) {
        CacheFile::Parsed(entry) => entry,
        _ => panic!("the snapshot did not come back"),
    };
    assert_eq!(entry.version, 7);
    assert_eq!(entry.timestamp, u64::MAX);
    assert_eq!(entry.data.len(), 2);
    let odd = entry.data.get("Odd \"id\"\n").unwrap();
    assert_eq!(odd.title, "Tïtle \\ with 🎉");
    assert_eq!(odd.spdx_id, "Other");
    assert!(odd.permissions.is_empty());
    assert_eq!(odd.conditions, vec!["a", "", "a"]);
    assert_eq!(odd.limitations, vec!["x y"]);
    assert_eq!(entry.data.get("MIT").unwrap().title, "MIT License");
    assert!(feluda::cache_format::load_from_content(&text, u64::MAX).is_none());
}

#[test]
fn what_counts_as_a_snapshot() {
    let parsed = |text: &str| matches!(feluda::cache_format::parse_cache_file(text), CacheFile::Parsed(_));
    assert!(parsed(r#"{"data": {}, "timestamp": 5}"#));
    assert!(parsed(r#"{"version": 3, "data": {}, "timestamp": 5, "extra": [1]}"#));
    assert!(parsed(
        r#"{"data": {"X": {"title": "t", "spdx_id": "s", "permissions": [], "conditions": ["c"], "limitations": [], "more": 1}}, "timestamp": 5}"#
    ));
    assert!(!parsed(r#"{"data": {}}"#));
    assert!(!parsed(r#"{"timestamp": 5}"#));
    assert!(!parsed(r#"{"data": [], "timestamp": 5}"#));
    assert!(!parsed(r#"{"data": {}, "timestamp": -5}"#));
    assert!(!parsed(r#"{"data": {}, "timestamp": 5.0}"#));
    assert!(!parsed(r#"{"data": {}, "timestamp": "5"}"#));
    assert!(!parsed(r#"{"data": {}, "timestamp": 18446744073709551616}"#));
    assert!(parsed(r#"{"data": {}, "timestamp": 18446744073709551615}"#));
    assert!(!parsed(r#"{"version": 4294967296, "data": {}, "timestamp": 5}"#));
    assert!(parsed(r#"{"version": 4294967295, "data": {}, "timestamp": 5}"#));
    assert!(!parsed(r#"{"version": null, "data": {}, "timestamp": 5}"#));
    assert!(!parsed(
        r#"{"data": {"X": {"title": "t", "spdx_id": "s", "permissions": [], "conditions": [1], "limitations": []}}, "timestamp": 5}"#
    ));
    assert!(!parsed(
        r#"{"data": {"X": {"title": "t", "permissions": [], "conditions": [], "limitations": []}}, "timestamp": 5}"#
    ));
    assert!(!parsed(r#"{"data": {"X": "MIT"}, "timestamp": 5}"#));
    assert!(!parsed("[]"));
    assert!(!parsed("null"));
    let unversioned = feluda::cache_format::parse_cache_file(r#"{"data": {}, "timestamp": 5}"#);
    assert!(matches!(&unversioned, CacheFile::Parsed(entry) if entry.version == 0));
    assert!(load_from_file_at(unversioned, 5).is_none());
}
