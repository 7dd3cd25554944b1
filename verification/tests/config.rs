use nbsp::config::{ConfigError, NbspConfig};

fn row(key: &str, value: Option<&str>) -> (String, Option<String>) {
    (key.to_string(), value.map(|v| v.to_string()))
}

// Base64 of the 64 bytes 0, 1, ..., 63.
const KEY_0_TO_63: &str =
    "AAECAwQFBgcICQoLDA0ODxAREhMUFRYXGBkaGxwdHh8gISIjJCUmJygpKissLS4vMDEyMzQ1Njc4OTo7PD0+Pw==";

fn generated() -> Vec<u8> {
    vec![9u8; 64]
}

#[test]
fn rows_fill_the_config_and_later_rows_win() {
    let rows = vec![
        row("nbsp_base_url", Some("https://first.example")),
        row("nbsp_base_url", Some("https://nbsp.example.com")),
        row("nbsp_base_url", None),
        row("nbsp_homepage_notice", Some("hello")),
        row("nbsp_community_title", None),
        row("nbsp_html_head_extra", Some("<meta>")),
        row("nbsp_content_security_policy", Some("default-src 'self'")),
        row("something_else", Some("ignored")),
    ];
    let (config, save) = NbspConfig::load_from_rows(&rows, &generated()).unwrap();
    assert_eq!(config.nbsp_base_url, "https://nbsp.example.com");
    assert_eq!(config.nbsp_homepage_notice.as_deref(), Some("hello"));
    assert_eq!(config.nbsp_community_title, "non-breaking space");
    assert_eq!(config.nbsp_community_subtitle, "");
    assert_eq!(config.nbsp_html_head_extra, "<meta>");
    assert_eq!(config.nbsp_html_body_extra, "");
    assert_eq!(config.nbsp_jwt_signing_key, "");
    assert_eq!(config.nbsp_content_security_policy, "default-src 'self'");
    assert_eq!(config.nbsp_cookies_key, generated());
    assert!(save);
}

#[test]
fn null_subtitle_gets_its_default_and_null_notice_clears() {
    let rows = vec![
        row("nbsp_base_url", Some("https://x")),
        row("nbsp_homepage_notice", Some("hello")),
        row("nbsp_homepage_notice", None),
        row("nbsp_community_subtitle", None),
    ];
    let (config, _) = NbspConfig::load_from_rows(&rows, &generated()).unwrap();
    assert_eq!(config.nbsp_homepage_notice, None);
    assert_eq!(config.nbsp_community_subtitle, "a thoughtful community forum platform");
}

#[test]
fn stored_cookies_key_is_decoded() {
    let rows = vec![row("nbsp_base_url", Some("https://x")), row("nbsp_cookies_key", Some(KEY_0_TO_63))];
    let (config, save) = NbspConfig::load_from_rows(&rows, &generated()).unwrap();
    assert_eq!(config.nbsp_cookies_key, (0u8..64).collect::<Vec<u8>>());
    assert!(!save);
}

#[test]
fn bad_cookies_keys_are_rejected() {
    let rows = vec![row("nbsp_base_url", Some("https://x")), row("nbsp_cookies_key", Some("!!!"))];
    assert_eq!(NbspConfig::load_from_rows(&rows, &generated()).err(), Some(ConfigError::InvalidCookiesKey));
    // Valid Base64, but only 3 bytes.
    let rows = vec![row("nbsp_base_url", Some("https://x")), row("nbsp_cookies_key", Some("AAEC"))];
    assert_eq!(NbspConfig::load_from_rows(&rows, &generated()).err(), Some(ConfigError::InvalidCookiesKey));
}

#[test]
fn missing_base_url_is_rejected() {
    let rows = vec![row("nbsp_base_url", None)];
    assert_eq!(NbspConfig::load_from_rows(&rows, &generated()).err(), Some(ConfigError::EmptyBaseUrl));
    let rows: Vec<(String, Option<String>)> = vec![];
    assert_eq!(NbspConfig::load_from_rows(&rows, &generated()).err(), Some(ConfigError::EmptyBaseUrl));
}

#[test]
fn generated_keys_are_saved_and_read_back() {
    let rows = vec![row("nbsp_base_url", Some("https://x"))];
    let key: Vec<u8> = (0u8..64).collect();
    let (mut config, save) = NbspConfig::load_from_rows(&rows, &key).unwrap();
    let updates = config.pending_updates(save, &[7u8; 64]);
    assert_eq!(updates.len(), 2);
    assert_eq!(updates[0], ("nbsp_cookies_key".to_string(), KEY_0_TO_63.to_string()));
    assert_eq!(updates[1].0, "nbsp_jwt_signing_key");
    assert_eq!(config.nbsp_jwt_signing_key, updates[1].1);
    assert_eq!(
        config.nbsp_jwt_signing_key,
        "BwcHBwcHBwcHBwcHBwcHBwcHBwcHBwcHBwcHBwcHBwcHBwcHBwcHBwcHBwcHBwcHBwcHBwcHBwcHBwcHBwcHBw=="
    );

    // The next load reads the saved values back and has nothing more to save.
    let mut rows = rows;
    for (k, v) in &updates {
        rows.push(row(k, Some(v)));
    }
    let (mut reloaded, save) = NbspConfig::load_from_rows(&rows, &[1u8; 64]).unwrap();
    assert_eq!(reloaded.nbsp_cookies_key, key);
    assert!(!save);
    assert!(reloaded.pending_updates(save, &[3u8; 64]).is_empty());
    assert_eq!(reloaded.nbsp_jwt_signing_key, config.nbsp_jwt_signing_key);
}
