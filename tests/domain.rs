use cms_core::config::Config;
use cms_core::domain::exceptions::DomainError;
use cms_core::domain::field_errors::{format_map, FieldErrors};
use cms_core::domain::hash::HashFormatError;
use cms_core::domain::id::generate_id;
use cms_core::domain::note::{Note, NOTE_BODY_MAX, NOTE_TITLE_MAX};
use cms_core::domain::project::Project;
use cms_core::domain::time::Timestamp;
use cms_core::domain::user::User;
use cms_core::domain::validator::{validate_page, validate_per_page, ValidatorService};

fn hash_of(bytes: [u8; 32]) -> cms_core::domain::hash::Hash {
    cms_core::domain::hash::Hash(bytes)
}

#[test]
fn test_format_map() {
    let mut map = FieldErrors::new();
    map.insert("field1".to_string(), "error1".to_string());
    map.insert("field2".to_string(), "error2".to_string());

    let formatted = format_map(&map);
    assert_eq!(formatted, "[field1: error1, field2: error2]");
}

#[test]
fn format_map_sorts_by_field_and_replaces() {
    let mut map = FieldErrors::new();
    map.insert("title".to_string(), "a".to_string());
    map.insert("body".to_string(), "b".to_string());
    map.insert("title".to_string(), "c".to_string());
    assert_eq!(map.len(), 2);
    assert_eq!(format_map(&map), "[body: b, title: c]");
    assert_eq!(map.get("title").map(|s| s.as_str()), Some("c"));
    assert!(map.get("url").is_none());
    assert_eq!(format_map(&FieldErrors::new()), "[]");
}

#[test]
fn hash_text_round_trip() {
    let mut bytes = [0u8; 32];
    for (i, b) in bytes.iter_mut().enumerate() {
        *b = (i as u8).wrapping_mul(37).wrapping_add(5);
    }
    let h = hash_of(bytes);
    let text = h.to_string();
    assert_eq!(text.len(), 64);
    assert!(text.chars().all(|c| c.is_ascii_digit() || ('a'..='f').contains(&c)));
    let back = cms_core::domain::hash::Hash::from_hex(&text).unwrap();
    assert_eq!(back, h);
    let upper = cms_core::domain::hash::Hash::from_hex(&text.to_uppercase()).unwrap();
    assert_eq!(upper, h);
}

#[test]
fn hash_text_is_lowercase_hex_of_bytes() {
    let mut bytes = [0u8; 32];
    bytes[0] = 0xab;
    bytes[31] = 0x0f;
    let text = hash_of(bytes).to_string();
    assert!(text.starts_with("ab00"));
    assert!(text.ends_with("000f"));
}

#[test]
fn hash_text_rejects_bad_input() {
    let short = "ab".repeat(31);
    assert_eq!(
        cms_core::domain::hash::Hash::from_hex(&short),
        Err(HashFormatError::WrongLength(31))
    );
    let odd = "a".repeat(63);
    assert_eq!(cms_core::domain::hash::Hash::from_hex(&odd), Err(HashFormatError::InvalidHex));
    let bad = format!("{}zz", "0".repeat(62));
    assert_eq!(cms_core::domain::hash::Hash::from_hex(&bad), Err(HashFormatError::InvalidHex));
    let long = "0".repeat(66);
    assert_eq!(
        cms_core::domain::hash::Hash::from_hex(&long),
        Err(HashFormatError::WrongLength(33))
    );
}

#[test]
fn hash_comparison_reads_all_bytes() {
    let a = hash_of([7u8; 32]);
    let mut other = [7u8; 32];
    assert!(a.same_as(&hash_of(other)));
    other[31] = 8;
    assert!(!a.same_as(&hash_of(other)));
}

#[test]
fn generated_ids_are_alphanumeric() {
    let id = generate_id(16);
    assert_eq!(id.chars().count(), 16);
    assert!(id.chars().all(|c| c.is_ascii_alphanumeric()));
    assert_ne!(generate_id(16), generate_id(16));
    assert_eq!(generate_id(0), "");
}

#[test]
fn note_create_derives_fields() {
    let note = Note::create("Hello World".to_string(), "Body text".to_string()).unwrap();
    assert_eq!(note.slug, "hello-world");
    assert_eq!(note.description, "Body text");
    assert_eq!(note.title, "Hello World");
    assert_eq!(note.body, "Body text");
    assert_eq!(note.id.chars().count(), 16);
    assert!(note.updated_at.is_none());
    assert!(note.created_at.unix_micros > 0);
}

#[test]
fn note_slug_uses_first_fifty_characters() {
    let title = format!("{} {}", "a".repeat(49), "tail words");
    let note = Note::create(title, "x".to_string()).unwrap();
    assert_eq!(note.slug, "a".repeat(49));
    let note = Note::create("Ünïcode & Spaces!!".to_string(), "x".to_string()).unwrap();
    assert_eq!(note.slug, "unicode-spaces");
}

#[test]
fn note_description_is_body_prefix() {
    let body = format!("{}{}", "é".repeat(256), "rest");
    let note = Note::create("t".to_string(), body).unwrap();
    assert_eq!(note.description, "é".repeat(256));
}

#[test]
fn note_title_too_long() {
    let err = Note::create("a".repeat(NOTE_TITLE_MAX + 1), "Test".to_string()).unwrap_err();
    assert_eq!(err.len(), 1);
    assert_eq!(err.get("title").unwrap(), "is too long: 129 > 128");
    assert!(err.get("body").is_none());
}

#[test]
fn note_body_too_long() {
    let err = Note::create("Test".to_string(), "a".repeat(NOTE_BODY_MAX + 1)).unwrap_err();
    assert_eq!(err.len(), 1);
    assert_eq!(err.get("body").unwrap(), "is too long: 32769 > 32768");
}

#[test]
fn note_both_too_long() {
    let err = Note::create("a".repeat(200), "b".repeat(40000)).unwrap_err();
    assert_eq!(
        format_map(&err),
        "[body: is too long: 40000 > 32768, title: is too long: 200 > 128]"
    );
}

#[test]
fn note_bounds_are_inclusive_and_empty_is_refused() {
    assert!(Note::create("a".repeat(NOTE_TITLE_MAX), "b".repeat(NOTE_BODY_MAX)).is_ok());
    let err = Note::create(String::new(), String::new()).unwrap_err();
    assert_eq!(format_map(&err), "[body: must not be empty, title: must not be empty]");
}

#[test]
fn note_update_rederives_and_stamps() {
    let mut note = Note::create("First".to_string(), "one".to_string()).unwrap();
    let created = note.created_at;
    let later = Timestamp::from_unix_micros(created.unix_micros + 5);
    note.update_at("Second Title".to_string(), "two".to_string(), later).unwrap();
    assert_eq!(note.slug, "second-title");
    assert_eq!(note.description, "two");
    assert_eq!(note.created_at, created);
    assert_eq!(note.updated_at, Some(later));
    assert!(note.updated_at.unwrap().not_before(&note.created_at));

    let before = note.clone();
    assert!(note.update("x".repeat(129), "y".to_string()).is_err());
    assert_eq!(note.title, before.title);
    assert_eq!(note.updated_at, before.updated_at);

    note.update("Third".to_string(), "three".to_string()).unwrap();
    assert!(note.updated_at.unwrap().unix_micros >= created.unix_micros);
}

#[test]
fn project_bounds() {
    let p = Project::create("P".to_string(), "D".to_string(), Some("https://x".to_string())).unwrap();
    assert_eq!(p.id.len(), 16);
    let err = Project::create("t".repeat(129), String::new(), Some("u".repeat(2049))).unwrap_err();
    assert_eq!(
        format_map(&err),
        "[description: must not be empty, title: is too long: 129 > 128, url: is too long: 2049 > 2048]"
    );
}

#[test]
fn user_name_bound() {
    let u = User::create("user".to_string(), hash_of([1; 32])).unwrap();
    assert_eq!(u.id.len(), 16);
    let err = User::create("n".repeat(129), hash_of([1; 32])).unwrap_err();
    assert_eq!(format_map(&err), "[username: is too long: 129 > 128]");
}

#[test]
fn pagination_checks() {
    assert_eq!(validate_page(&0).unwrap_err(), "Page number should be greater than 0");
    assert!(validate_page(&1).is_ok());
    assert_eq!(
        validate_per_page(&0).unwrap_err(),
        "Number of elements per page should be greater than 0"
    );
    assert!(validate_per_page(&100).is_ok());
    assert_eq!(
        validate_per_page(&101).unwrap_err(),
        "Number of elements per page should be less than 100"
    );
    let v = ValidatorService::new();
    assert_eq!(v.validate_username("").unwrap_err(), "must not be empty");
    assert_eq!(v.validate_url(&"u".repeat(2049)).unwrap_err(), "is too long: 2049 > 2048");
    assert!(v.validate_pagination(&1, &10).is_ok());
}

#[test]
fn config_defaults_and_port() {
    let c = Config::from_values(None, None, 4, None, Some("k".to_string()), None, None).unwrap();
    assert_eq!(c.host, "localhost");
    assert_eq!(c.port, 8080);
    assert_eq!(c.workers, 4);
    assert!(c.tls.is_none());
    assert_eq!(c.credentials.username, "admin");
    assert_eq!(c.credentials.password, "admin");

    let c = Config::from_values(
        Some("0.0.0.0".to_string()),
        Some("65535".to_string()),
        1,
        Some("c.pem".to_string()),
        Some("k.pem".to_string()),
        Some("root".to_string()),
        Some("hunter2".to_string()),
    )
    .unwrap();
    assert_eq!(c.port, 65535);
    assert_eq!(c.tls.unwrap().cert, "c.pem");
    assert_eq!(c.credentials.password, "hunter2");

    for bad in ["", "65536", "80a", "-1", "+"] {
        assert!(Config::from_values(None, Some(bad.to_string()), 1, None, None, None, None).is_err());
    }
    assert_eq!(
        Config::from_values(None, Some("+81".to_string()), 1, None, None, None, None).unwrap().port,
        81
    );
}

#[test]
fn domain_error_messages() {
    assert_eq!(DomainError::AuthorizationRequired.to_string(), "Необходима авторизация");
    assert_eq!(DomainError::AccessDenied.to_string(), "У Вас нет доступа к этому ресурсу");
}
