use vertere::store::{
    database_path, lookup, migrations, read_entry, setting_rows, settings_from_rows, EntryRow,
    Kind, Lookup, Settings, DEFAULT_BASE_URL, DEFAULT_FALLBACK_LANG, DEFAULT_TARGET_LANG,
    SCHEMA_V1, SCHEMA_V2,
};

#[test]
fn only_the_model_has_to_be_filled_in() {
    let usable = |model: &str| {
        Settings {
            model: model.into(),
            ..Settings::default()
        }
        .is_usable()
    };
    assert!(!usable(""));
    assert!(!usable("   "));
    assert!(usable("vendor/model"));
}

#[test]
fn empty_languages_fall_back_to_the_defaults() {
    let settings = Settings::default();
    assert_eq!(settings.target(), DEFAULT_TARGET_LANG);
    assert_eq!(settings.fallback(), DEFAULT_FALLBACK_LANG);
}

#[test]
fn an_empty_base_url_falls_back_to_openrouter() {
    let settings = Settings::default();
    assert_eq!(settings.base_url(), DEFAULT_BASE_URL);

    let settings = Settings {
        base_url: "https://example.com/v1".into(),
        ..Settings::default()
    };
    assert_eq!(settings.base_url(), "https://example.com/v1");
}

#[test]
fn a_language_of_only_whitespace_counts_as_empty() {
    let settings = Settings {
        target_lang: "   ".into(),
        fallback_lang: "\n".into(),
        ..Settings::default()
    };
    assert_eq!(settings.target(), DEFAULT_TARGET_LANG);
    assert_eq!(settings.fallback(), DEFAULT_FALLBACK_LANG);
}

#[test]
fn a_set_language_wins_over_the_default() {
    let settings = Settings {
        target_lang: " Japanese ".into(),
        fallback_lang: "German".into(),
        ..Settings::default()
    };
    assert_eq!(settings.target(), "Japanese");
    assert_eq!(settings.fallback(), "German");
}

fn pairs(rows: &[(&str, &str)]) -> Vec<(String, String)> {
    rows.iter().map(|(k, v)| (k.to_string(), v.to_string())).collect()
}

#[test]
fn settings_read_back_from_their_rows() {
    let settings = Settings {
        model: "vendor/model".into(),
        target_lang: "Simplified Chinese".into(),
        fallback_lang: "English".into(),
        base_url: "https://example.com/v1".into(),
    };
    assert_eq!(settings_from_rows(&setting_rows(&settings)), settings);
}

#[test]
fn no_rows_give_the_default_settings() {
    let settings = settings_from_rows(&Vec::new());
    assert_eq!(settings, Settings::default());
    assert!(!settings.is_usable());
}

#[test]
fn a_later_row_overrides_an_earlier_one_and_unknown_keys_are_ignored() {
    let rows = pairs(&[
        ("model", "first"),
        ("colour", "blue"),
        ("model", "second"),
        ("base_url", "https://example.com/v1"),
    ]);
    let settings = settings_from_rows(&rows);
    assert_eq!(settings.model, "second");
    assert_eq!(settings.base_url, "https://example.com/v1");
    assert_eq!(settings.target_lang, "");
}

#[test]
fn saving_over_older_rows_reads_back_what_was_saved() {
    let first = Settings {
        model: "first".into(),
        ..Settings::default()
    };
    let second = Settings {
        model: "second".into(),
        ..first.clone()
    };
    let mut rows = setting_rows(&first);
    rows.extend(setting_rows(&second));
    assert_eq!(settings_from_rows(&rows).model, "second");
}

#[test]
fn kinds_round_trip_through_their_names() {
    for kind in [Kind::Shot, Kind::Clip, Kind::Select] {
        assert_eq!(Kind::parse(kind.as_str()), Ok(kind));
        assert_eq!(kind.as_str().parse::<Kind>(), Ok(kind));
    }
    assert_eq!(Kind::Select.to_string(), "select");
}

#[test]
fn an_unknown_kind_is_an_error() {
    let err = Kind::parse("screenshot").unwrap_err();
    assert_eq!(err.name, "screenshot");
    assert_eq!(err.message(), "unknown kind in history: screenshot");
}

fn row(kind: &str) -> EntryRow {
    EntryRow {
        id: 7,
        created_at: 1700000000,
        kind: kind.into(),
        model: "vendor/model".into(),
        target: "zh-Hans".into(),
        source: "Hello".into(),
        translated: "你好".into(),
    }
}

#[test]
fn a_stored_row_reads_back_as_an_entry() {
    let entry = read_entry(row("clip")).unwrap();
    assert_eq!(entry.id, 7);
    assert_eq!(entry.kind, Kind::Clip);
    assert_eq!(entry.source, "Hello");
    assert_eq!(entry.translated, "你好");
    assert!(read_entry(row("bogus")).is_err());
}

#[test]
fn a_fresh_database_runs_every_migration() {
    assert_eq!(migrations(0), vec![SCHEMA_V1, SCHEMA_V2]);
    assert_eq!(migrations(1), vec![SCHEMA_V2]);
    assert!(migrations(2).is_empty());
}

#[test]
fn like_wildcards_are_escaped() {
    assert_eq!(lookup("100%"), Lookup::Matching("%100\\%%".into()));
    assert_eq!(lookup("_"), Lookup::Matching("%\\_%".into()));
    assert_eq!(lookup("a\\b"), Lookup::Matching("%a\\\\b%".into()));
    assert_eq!(lookup("  的狐 "), Lookup::Matching("%的狐%".into()));
}

#[test]
fn a_blank_query_lists_recent_entries() {
    assert_eq!(lookup("   "), Lookup::Recent);
    assert_eq!(lookup(""), Lookup::Recent);
}

#[test]
fn the_database_lives_in_the_data_directory() {
    assert_eq!(
        database_path("/home/me/.local/share/vertere"),
        "/home/me/.local/share/vertere/vertere.db"
    );
}
