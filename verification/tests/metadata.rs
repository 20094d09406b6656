use chrono::DateTime;
use chrono::NaiveDateTime;
use entry_metadata::BytesContentRange;
use entry_metadata::EntryMode;
use entry_metadata::Metadata;
use entry_metadata::Metakey;
use entry_metadata::MetakeySet;

const KEYS: [Metakey; 11] = [
    Metakey::Complete,
    Metakey::Mode,
    Metakey::CacheControl,
    Metakey::ContentDisposition,
    Metakey::ContentLength,
    Metakey::ContentMd5,
    Metakey::ContentRange,
    Metakey::ContentType,
    Metakey::Etag,
    Metakey::LastModified,
    Metakey::Version,
];

fn time(secs: i64) -> NaiveDateTime {
    DateTime::from_timestamp(secs, 0).unwrap().naive_utc()
}

fn has(m: &Metadata, key: Metakey) -> bool {
    m.contains_bit(key.into())
}

#[test]
fn new_keeps_the_mode_it_was_given() {
    for mode in [EntryMode::FILE, EntryMode::DIR, EntryMode::Unknown] {
        let m = Metadata::new(mode);
        assert!(has(&m, Metakey::Mode));
        assert_eq!(m.mode(), mode);
    }
}

#[test]
fn is_file_and_is_dir_follow_the_mode() {
    assert!(Metadata::new(EntryMode::FILE).is_file());
    assert!(!Metadata::new(EntryMode::FILE).is_dir());
    assert!(Metadata::new(EntryMode::DIR).is_dir());
    assert!(!Metadata::new(EntryMode::DIR).is_file());
    assert!(!Metadata::new(EntryMode::Unknown).is_file());
    assert!(!Metadata::new(EntryMode::Unknown).is_dir());
}

#[test]
fn new_directory_is_complete() {
    let m = Metadata::new(EntryMode::DIR);
    for key in KEYS {
        assert!(has(&m, key), "{:?}", key);
    }
    let mut all = MetakeySet::empty();
    for key in KEYS {
        all.insert(key);
    }
    assert!(m.contains_bit(all));
    assert_eq!(m.bit(), MetakeySet::from(Metakey::Mode).union(Metakey::Complete.into()));
}

#[test]
fn new_directory_has_defaults_for_every_attribute() {
    let m = Metadata::new(EntryMode::DIR);
    assert_eq!(m.mode(), EntryMode::DIR);
    assert_eq!(m.cache_control(), None);
    assert_eq!(m.content_disposition(), None);
    assert_eq!(m.content_length(), 0);
    assert_eq!(m.content_length_raw(), None);
    assert_eq!(m.content_md5(), None);
    assert_eq!(m.content_range(), None);
    assert_eq!(m.content_type(), None);
    assert_eq!(m.etag(), None);
    assert_eq!(m.last_modified(), None);
    assert_eq!(m.version(), None);
}

#[test]
fn new_file_has_only_its_mode() {
    for mode in [EntryMode::FILE, EntryMode::Unknown] {
        let m = Metadata::new(mode);
        for key in KEYS {
            assert_eq!(has(&m, key), key == Metakey::Mode, "{:?}", key);
        }
        assert_eq!(m.bit(), MetakeySet::from(Metakey::Mode));
        assert_eq!(m.content_length_raw(), None);
    }
}

#[test]
fn content_length_is_missing_until_it_is_set() {
    let mut m = Metadata::new(EntryMode::FILE);
    assert!(!has(&m, Metakey::ContentLength));
    m.set_etag("\"abc\"");
    assert!(!has(&m, Metakey::ContentLength));
    m.set_content_length(7);
    assert!(has(&m, Metakey::ContentLength));
}

#[test]
fn content_length_comes_back_as_set() {
    let mut m = Metadata::new(EntryMode::FILE);
    m.set_content_length(42);
    assert!(has(&m, Metakey::ContentLength));
    assert_eq!(m.content_length(), 42);
    assert_eq!(m.content_length_raw(), Some(42));
}

#[test]
fn content_length_zero_is_set_not_missing() {
    let m = Metadata::new(EntryMode::FILE).with_content_length(0);
    assert!(has(&m, Metakey::ContentLength));
    assert_eq!(m.content_length(), 0);
    assert_eq!(m.content_length_raw(), Some(0));
}

#[test]
fn content_length_takes_the_largest_value() {
    let m = Metadata::new(EntryMode::FILE).with_content_length(u64::MAX);
    assert_eq!(m.content_length(), u64::MAX);
}

#[test]
fn with_content_length_equals_set_content_length() {
    let built = Metadata::new(EntryMode::FILE).with_content_length(42);
    let mut set = Metadata::new(EntryMode::FILE);
    set.set_content_length(42);
    assert_eq!(built, set);
    assert_eq!(set, built);
}

#[test]
fn with_and_set_agree_for_every_attribute() {
    let range = BytesContentRange { start: Some(0), end: Some(1023), size: Some(4096) };
    let built = Metadata::new(EntryMode::Unknown)
        .with_mode(EntryMode::FILE)
        .with_cache_control("no-cache".to_string())
        .with_content_length(1024)
        .with_content_md5("1B2M2Y8AsgTpgAmY7PhCfg==".to_string())
        .with_content_type("text/plain".to_string())
        .with_content_range(range)
        .with_last_modified(time(1_700_000_000))
        .with_etag("W/\"0815\"".to_string())
        .with_content_disposition("inline".to_string())
        .with_version("v7".to_string());
    let mut set = Metadata::new(EntryMode::Unknown);
    set.set_mode(EntryMode::FILE)
        .set_cache_control("no-cache")
        .set_content_length(1024)
        .set_content_md5("1B2M2Y8AsgTpgAmY7PhCfg==")
        .set_content_type("text/plain")
        .set_content_range(range)
        .set_last_modified(time(1_700_000_000))
        .set_etag("W/\"0815\"")
        .set_content_disposition("inline")
        .set_version("v7");
    assert_eq!(built, set);
    for key in KEYS {
        assert_eq!(has(&set, key), key != Metakey::Complete, "{:?}", key);
    }
}

#[test]
fn etag_keeps_its_quotes() {
    let mut m = Metadata::new(EntryMode::FILE);
    m.set_etag("\"33a64df551425fcc55e4d42a148795d9f25f89d4\"");
    assert!(has(&m, Metakey::Etag));
    assert_eq!(m.etag(), Some("\"33a64df551425fcc55e4d42a148795d9f25f89d4\""));
}

#[test]
fn etag_keeps_its_weak_prefix() {
    let mut m = Metadata::new(EntryMode::FILE);
    m.set_etag("W/\"0815\"");
    assert_eq!(m.etag(), Some("W/\"0815\""));
    let m = Metadata::new(EntryMode::FILE).with_etag("W/\"0815\"".to_string());
    assert_eq!(m.etag(), Some("W/\"0815\""));
}

#[test]
fn strings_are_not_trimmed() {
    let mut m = Metadata::new(EntryMode::FILE);
    m.set_etag("  \"x\" ").set_version("").set_content_type(" text/html; charset=utf-8\t");
    assert_eq!(m.etag(), Some("  \"x\" "));
    assert_eq!(m.version(), Some(""));
    assert_eq!(m.content_type(), Some(" text/html; charset=utf-8\t"));
}

#[test]
fn content_disposition_is_stored_verbatim() {
    let mut m = Metadata::new(EntryMode::FILE);
    m.set_content_disposition("attachment; filename=\"f.jpg\"");
    assert!(has(&m, Metakey::ContentDisposition));
    assert_eq!(m.content_disposition(), Some("attachment; filename=\"f.jpg\""));
}

#[test]
fn complete_makes_every_key_present() {
    let m = Metadata::new(EntryMode::FILE).with_bit(Metakey::Complete.into());
    assert!(has(&m, Metakey::Complete));
    for key in KEYS {
        assert!(has(&m, key), "{:?}", key);
    }
    assert_eq!(m.etag(), None);
    assert_eq!(m.content_length(), 0);
}

#[test]
fn set_mode_twice_keeps_one_mode_key_and_the_last_mode() {
    let mut m = Metadata::new(EntryMode::Unknown);
    let before = m.bit();
    m.set_mode(EntryMode::FILE);
    m.set_mode(EntryMode::DIR);
    assert_eq!(m.bit(), before);
    assert_eq!(m.bit(), MetakeySet::from(Metakey::Mode));
    assert_eq!(m.mode(), EntryMode::DIR);
    assert!(m.is_dir());
    let mut once = Metadata::new(EntryMode::Unknown);
    once.set_mode(EntryMode::DIR);
    assert_eq!(m, once);
}

#[test]
fn set_mode_to_directory_does_not_complete_the_record() {
    let mut m = Metadata::new(EntryMode::FILE);
    m.set_mode(EntryMode::DIR);
    assert!(!has(&m, Metakey::Complete));
    assert!(!has(&m, Metakey::Etag));
    assert_ne!(m, Metadata::new(EntryMode::DIR));
}

#[test]
fn set_mode_marks_the_mode_after_the_keys_were_replaced() {
    let mut m = Metadata::new(EntryMode::FILE).with_bit(MetakeySet::empty());
    assert!(!has(&m, Metakey::Mode));
    m.set_mode(EntryMode::FILE);
    assert!(has(&m, Metakey::Mode));
}

#[test]
fn setting_the_same_value_again_changes_nothing() {
    let mut m = Metadata::new(EntryMode::FILE);
    m.set_content_length(5).set_version("a");
    let first = m.clone();
    m.set_content_length(5).set_version("a");
    assert_eq!(m, first);
}

#[test]
fn a_setter_marks_its_own_key_and_no_other() {
    let range = BytesContentRange { start: None, end: None, size: Some(10) };
    let cases: [(Metakey, Metadata); 9] = [
        (Metakey::CacheControl, Metadata::new(EntryMode::FILE).with_cache_control("a".to_string())),
        (Metakey::ContentDisposition, Metadata::new(EntryMode::FILE).with_content_disposition("a".to_string())),
        (Metakey::ContentLength, Metadata::new(EntryMode::FILE).with_content_length(1)),
        (Metakey::ContentMd5, Metadata::new(EntryMode::FILE).with_content_md5("a".to_string())),
        (Metakey::ContentRange, Metadata::new(EntryMode::FILE).with_content_range(range)),
        (Metakey::ContentType, Metadata::new(EntryMode::FILE).with_content_type("a".to_string())),
        (Metakey::Etag, Metadata::new(EntryMode::FILE).with_etag("a".to_string())),
        (Metakey::LastModified, Metadata::new(EntryMode::FILE).with_last_modified(time(0))),
        (Metakey::Version, Metadata::new(EntryMode::FILE).with_version("a".to_string())),
    ];
    for (marked, m) in cases {
        for key in KEYS {
            assert_eq!(has(&m, key), key == marked || key == Metakey::Mode, "{:?} {:?}", marked, key);
        }
        assert_eq!(m.bit(), MetakeySet::from(Metakey::Mode).union(marked.into()));
    }
}

#[test]
fn getters_hand_out_what_the_setters_stored() {
    let range = BytesContentRange { start: Some(5), end: Some(9), size: None };
    let mut m = Metadata::new(EntryMode::FILE);
    m.set_cache_control("public, max-age=604800");
    m.set_content_md5("rL0Y20zC+Fzt72VPzMSk2A==");
    m.set_content_type("application/json");
    m.set_content_range(range);
    m.set_last_modified(time(1_234_567_890));
    m.set_version("3HL4kqtJlcpXroDTDmJ+rmSpXd3dIbrHY+MTRCxf3vjVBH40Nr8X8gdRQBpUMLUo");
    assert_eq!(m.cache_control(), Some("public, max-age=604800"));
    assert_eq!(m.content_md5(), Some("rL0Y20zC+Fzt72VPzMSk2A=="));
    assert_eq!(m.content_type(), Some("application/json"));
    assert_eq!(m.content_range(), Some(range));
    assert_eq!(m.last_modified(), Some(time(1_234_567_890)));
    assert_eq!(
        m.version(),
        Some("3HL4kqtJlcpXroDTDmJ+rmSpXd3dIbrHY+MTRCxf3vjVBH40Nr8X8gdRQBpUMLUo")
    );
}

#[test]
fn a_later_write_replaces_an_earlier_one() {
    let mut m = Metadata::new(EntryMode::FILE);
    m.set_etag("\"a\"").set_etag("\"b\"");
    m.set_content_length(1).set_content_length(2);
    assert_eq!(m.etag(), Some("\"b\""));
    assert_eq!(m.content_length(), 2);
    assert_eq!(m.bit(), Metadata::new(EntryMode::FILE).with_etag(String::new()).with_content_length(0).bit());
}

#[test]
fn with_bit_replaces_the_keys_and_keeps_the_attributes() {
    let m = Metadata::new(EntryMode::FILE).with_content_length(9).with_etag("\"e\"".to_string());
    let only_etag = m.clone().with_bit(Metakey::Etag.into());
    assert_eq!(only_etag.bit(), MetakeySet::from(Metakey::Etag));
    assert!(has(&only_etag, Metakey::Etag));
    assert!(!has(&only_etag, Metakey::ContentLength));
    assert!(!has(&only_etag, Metakey::Mode));
    assert_eq!(only_etag.content_length_raw(), Some(9));
    assert_eq!(only_etag.etag(), Some("\"e\""));
    assert_eq!(only_etag.with_bit(m.bit()), m);
}

#[test]
fn bit_can_be_merged_and_written_back() {
    let listed = Metadata::new(EntryMode::FILE).with_content_length(3);
    let stated = Metadata::new(EntryMode::FILE).with_etag("\"e\"".to_string());
    let merged = listed.bit().union(stated.bit());
    let m = listed.with_bit(merged);
    assert!(has(&m, Metakey::Mode));
    assert!(has(&m, Metakey::ContentLength));
    assert!(has(&m, Metakey::Etag));
    assert!(!has(&m, Metakey::Version));
}

#[test]
fn contains_bit_takes_a_set_of_keys() {
    let m = Metadata::new(EntryMode::FILE).with_content_length(3);
    let length_and_mode = MetakeySet::from(Metakey::ContentLength).union(Metakey::Mode.into());
    let length_and_etag = MetakeySet::from(Metakey::ContentLength).union(Metakey::Etag.into());
    assert!(m.contains_bit(MetakeySet::empty()));
    assert!(m.contains_bit(length_and_mode));
    assert!(!m.contains_bit(length_and_etag));
    assert!(Metadata::new(EntryMode::DIR).contains_bit(length_and_etag));
}

#[test]
fn records_differ_when_one_attribute_differs() {
    let base = Metadata::new(EntryMode::FILE)
        .with_content_length(1)
        .with_etag("\"a\"".to_string())
        .with_last_modified(time(100));
    assert_eq!(base, base.clone());
    assert_ne!(base, base.clone().with_content_length(2));
    assert_ne!(base, base.clone().with_etag("\"b\"".to_string()));
    assert_ne!(base, base.clone().with_mode(EntryMode::Unknown));
    assert_ne!(base, base.clone().with_version("1".to_string()));
    assert_ne!(base, base.clone().with_bit(MetakeySet::empty()));
}

#[test]
fn records_differ_when_only_the_time_differs() {
    let a = Metadata::new(EntryMode::FILE).with_last_modified(time(100));
    let b = Metadata::new(EntryMode::FILE).with_last_modified(time(101));
    let c = Metadata::new(EntryMode::FILE).with_last_modified(time(100));
    let none = Metadata::new(EntryMode::FILE).with_bit(a.bit());
    assert_ne!(a, b);
    assert_eq!(a, c);
    assert_ne!(a, none);
}

#[test]
fn clone_is_equal_and_independent() {
    let m = Metadata::new(EntryMode::FILE)
        .with_cache_control("no-store".to_string())
        .with_content_length(11)
        .with_last_modified(time(86_400));
    let mut copy = m.clone();
    assert_eq!(copy, m);
    copy.set_cache_control("private");
    assert_eq!(m.cache_control(), Some("no-store"));
    assert_eq!(copy.cache_control(), Some("private"));
    assert_ne!(copy, m);
}

#[test]
fn entry_mode_knows_what_it_is() {
    assert!(EntryMode::FILE.is_file());
    assert!(!EntryMode::FILE.is_dir());
    assert!(EntryMode::DIR.is_dir());
    assert!(!EntryMode::DIR.is_file());
    assert!(!EntryMode::Unknown.is_file());
    assert!(!EntryMode::Unknown.is_dir());
}

#[test]
fn content_range_is_kept_field_by_field() {
    let range = BytesContentRange { start: Some(100), end: Some(199), size: None };
    let m = Metadata::new(EntryMode::FILE).with_content_range(range);
    assert!(has(&m, Metakey::ContentRange));
    let back = m.content_range().unwrap();
    assert_eq!(back.start, Some(100));
    assert_eq!(back.end, Some(199));
    assert_eq!(back.size, None);
    let other = BytesContentRange { start: Some(100), end: Some(199), size: Some(200) };
    assert_ne!(m, Metadata::new(EntryMode::FILE).with_content_range(other));
}

#[test]
fn last_modified_comes_back_as_set() {
    let mut m = Metadata::new(EntryMode::FILE);
    assert!(!has(&m, Metakey::LastModified));
    m.set_last_modified(time(1_700_000_000));
    assert!(has(&m, Metakey::LastModified));
    assert_eq!(m.last_modified(), Some(time(1_700_000_000)));
    assert_eq!(m.last_modified().unwrap().and_utc().timestamp(), 1_700_000_000);
}
