//! The instance configuration kept in the `nbsp_config` table: reading it from its rows, and
//! the values that loading it has to write back.
use base64ct::{Base64, Encoding};
use vstd::prelude::*;
use vstd::slice::slice_to_vec;

verus! {

/// The error `base64ct` reports for text that is not valid Base64.
#[verifier::external_type_specification]
#[verifier::external_body]
pub struct ExInvalidEncodingError(base64ct::InvalidEncodingError);

/// The bytes that `base64ct::Base64::decode_in_place` decodes from the bytes of a text, or
/// `None` when it rejects them.
pub uninterp spec fn base64_decoded(s: Seq<char>) -> Option<Seq<u8>>;

/// The text `base64ct::Base64::encode_string` gives for some bytes (standard alphabet, padded).
pub uninterp spec fn base64_encoded(bytes: Seq<u8>) -> Seq<char>;

/// Decodes standard padded Base64 with `base64ct::Base64::decode_in_place` on a copy of the
/// text's bytes.
///
/// Trusted: the result is `base64_decoded` of the text.
#[verifier::external_body]
fn base64_decode(s: &str) -> (r: Result<Vec<u8>, base64ct::InvalidEncodingError>)
    ensures
        r matches Ok(v) ==> base64_decoded(s@) == Some(v@),
        r is Err ==> base64_decoded(s@) is None,
{
    let mut buf = s.as_bytes().to_vec();
    match Base64::decode_in_place(&mut buf) {
        Ok(decoded) => Ok(decoded.to_vec()),
        Err(e) => Err(e),
    }
}

/// Encodes bytes as standard padded Base64 with `base64ct::Base64::encode_string`.
///
/// Trusted: the result is `base64_encoded` of the bytes, four characters for every started
/// group of three bytes (the padded length `encoded_len` computes), and decoding it gives the
/// bytes back. The `requires` leaves out the inputs for which the function panics (longer than
/// `usize::MAX / 4`).
#[verifier::external_body]
fn base64_encode(bytes: &[u8]) -> (s: String)
    requires
        bytes@.len() <= usize::MAX / 4,
    ensures
        s@ == base64_encoded(bytes@),
        s@.len() == 4 * ((bytes@.len() + 2) / 3),
        base64_decoded(s@) == Some(bytes@),
{
    Base64::encode_string(bytes)
}

/// The length of a cookies key: `cookie::Key` holds 64 bytes and is made from the first 64
/// bytes of a longer key.
pub const COOKIES_KEY_LENGTH: usize = 64;

/// A select set of data from the `nbsp_config`, to be used in the global state
pub struct NbspConfig {
    /// The canonical base URL for the running nbsp instance
    pub nbsp_base_url: String,
    /// A notice to put at the top of the homepage in a yellow box
    ///
    /// If set to `NULL`/`None` no notice will be shown
    pub nbsp_homepage_notice: Option<String>,
    /// The title/name of the instance.
    pub nbsp_community_title: String,
    /// The subtitle/byline of the instance.
    pub nbsp_community_subtitle: String,
    /// Any additional HTML to add at the end of `<head>` in templates
    pub nbsp_html_head_extra: String,
    /// Any additional HTML to add at the end of `<body>` in templates
    pub nbsp_html_body_extra: String,
    /// The 64 bytes of the key to encrypt private cookies with
    pub nbsp_cookies_key: Vec<u8>,
    /// The JWT signing key for encoding and decoding JWTs with, encoded with base64
    pub nbsp_jwt_signing_key: String,
    /// The content security policy header to set on every response
    pub nbsp_content_security_policy: String,
}

/// A row of the `nbsp_config` table, as text.
pub type RowView = (Seq<char>, Option<Seq<char>>);

/// An optional string, as text.
pub open spec fn opt_text(o: Option<String>) -> Option<Seq<char>> {
    match o {
        Some(v) => Some(v@),
        None => None,
    }
}

/// The rows of the `nbsp_config` table, as text.
pub open spec fn rows_view(rows: Seq<(String, Option<String>)>) -> Seq<RowView> {
    rows.map_values(
|r: (String, Option<String>)| (r.0@, opt_text(r.1))
    )
}

/// The value of the last row with this key whose value is not `NULL`.
pub open spec fn last_set(rows: Seq<RowView>, key: Seq<char>) -> Option<Seq<char>>
    decreases rows.len(),
{
    if rows.len() == 0 {
        None
    } else if rows.last().0 == key && rows.last().1 is Some {
        rows.last().1
    } else {
        last_set(rows.drop_last(), key)
    }
}

/// The value (possibly `NULL`) of the last row with this key, `None` when no row has it.
pub open spec fn last_row(rows: Seq<RowView>, key: Seq<char>) -> Option<Option<Seq<char>>>
    decreases rows.len(),
{
    if rows.len() == 0 {
        None
    } else if rows.last().0 == key {
        Some(rows.last().1)
    } else {
        last_row(rows.drop_last(), key)
    }
}

/// A text, or the empty text.
pub open spec fn text_or_empty(v: Option<Seq<char>>) -> Seq<char> {
    match v {
        Some(t) => t,
        None => Seq::empty(),
    }
}

/// A text whose `NULL` value means a default, and whose absence the empty text.
pub open spec fn text_or_default(v: Option<Option<Seq<char>>>, default: Seq<char>) -> Seq<char> {
    match v {
        Some(Some(t)) => t,
        Some(None) => default,
        None => Seq::empty(),
    }
}

/// A text that decodes, as Base64, to at least 64 bytes: a usable cookies key.
pub open spec fn valid_cookies_key_text(v: Seq<char>) -> bool {
    base64_decoded(v) matches Some(b) && b.len() >= COOKIES_KEY_LENGTH
}

/// Every non-`NULL` cookies key row holds a usable cookies key.
pub open spec fn cookies_keys_valid(rows: Seq<RowView>) -> bool {
    forall|i: int|
        0 <= i < rows.len() && #[trigger] rows[i].0 == "nbsp_cookies_key"@ && rows[i].1 is Some
            ==> valid_cookies_key_text(rows[i].1->Some_0)
}

/// The configuration the rows give (the cookies key being `generated` when no row sets it),
/// and whether that generated key has to be saved.
pub open spec fn config_from_rows(
    c: NbspConfig,
    save_generated_key: bool,
    rows: Seq<RowView>,
    generated: Seq<u8>,
) -> bool {
    &&& c.nbsp_base_url@ == text_or_empty(last_set(rows, "nbsp_base_url"@))
    &&& opt_text(c.nbsp_homepage_notice) == match last_row(rows, "nbsp_homepage_notice"@) {
        Some(v) => v,
        None => None,
    }
    &&& c.nbsp_community_title@ == text_or_default(
        last_row(rows, "nbsp_community_title"@),
        "non-breaking space"@,
    )
    &&& c.nbsp_community_subtitle@ == text_or_default(
        last_row(rows, "nbsp_community_subtitle"@),
        "a thoughtful community forum platform"@,
    )
    &&& c.nbsp_html_head_extra@ == text_or_empty(last_set(rows, "nbsp_html_head_extra"@))
    &&& c.nbsp_html_body_extra@ == text_or_empty(last_set(rows, "nbsp_html_body_extra"@))
    &&& c.nbsp_jwt_signing_key@ == text_or_empty(last_set(rows, "nbsp_jwt_signing_key"@))
    &&& c.nbsp_content_security_policy@ == text_or_empty(
        last_set(rows, "nbsp_content_security_policy"@),
    )
    &&& c.nbsp_cookies_key@ == match last_set(rows, "nbsp_cookies_key"@) {
        Some(v) => base64_decoded(v)->Some_0.subrange(0, COOKIES_KEY_LENGTH as int),
        None => generated,
    }
    &&& save_generated_key == (last_set(rows, "nbsp_cookies_key"@) is None)
}

proof fn lemma_last_set_push(rows: Seq<RowView>, row: RowView, key: Seq<char>)
    ensures
        last_set(rows.push(row), key) == if row.0 == key && row.1 is Some {
            row.1
        } else {
            last_set(rows, key)
        },
        last_row(rows.push(row), key) == if row.0 == key {
            Some(row.1)
        } else {
            last_row(rows, key)
        },
{
    assert(rows.push(row).drop_last() =~= rows);
}

/// The text of the first `i` rows.
proof fn lemma_rows_view_take(rows: Seq<(String, Option<String>)>, i: int)
    requires
        0 <= i < rows.len(),
    ensures
        rows_view(rows.take(i + 1)) == rows_view(rows.take(i)).push((rows[i].0@, opt_text(rows[i].1))),
{
    assert(rows_view(rows.take(i + 1)) =~= rows_view(rows.take(i)).push((rows[i].0@, opt_text(rows[i].1))));
}

fn clone_opt(o: &Option<String>) -> (r: Option<String>)
    ensures
        opt_text(r) == opt_text(*o),
{
    match o {
        Some(v) => Some(v.clone()),
        None => None,
    }
}

/// The (key, value) pairs of a list of writes, as text.
pub open spec fn updates_view(updates: Seq<(String, String)>) -> Seq<(Seq<char>, Seq<char>)> {
    updates.map_values(|u: (String, String)| (u.0@, u.1@))
}

/// What loading writes back to the table, and how the configuration changes meanwhile: the
/// generated cookies key (Base64-encoded) when it is to be saved, then, when the configuration
/// has no JWT signing key, a new one (the Base64 encoding of the fresh secret), which also goes
/// into the configuration; nothing else changes.
pub open spec fn pending_writes(
    before: NbspConfig,
    save_generated_cookies_key: bool,
    fresh_jwt_secret: Seq<u8>,
    after: NbspConfig,
    updates: Seq<(Seq<char>, Seq<char>)>,
) -> bool {
    let first_jwt = before.nbsp_jwt_signing_key@.len() == 0;
    &&& updates.len() == (if save_generated_cookies_key { 1int } else { 0int }) + (if first_jwt { 1int } else { 0int })
    &&& save_generated_cookies_key ==> {
        &&& updates[0].0 == "nbsp_cookies_key"@
        &&& updates[0].1 == base64_encoded(before.nbsp_cookies_key@)
        &&& base64_decoded(updates[0].1) == Some(before.nbsp_cookies_key@)
    }
    &&& first_jwt ==> {
        &&& after.nbsp_jwt_signing_key@ == base64_encoded(fresh_jwt_secret)
        &&& after.nbsp_jwt_signing_key@.len() > 0
        &&& updates.last().0 == "nbsp_jwt_signing_key"@
        &&& updates.last().1 == after.nbsp_jwt_signing_key@
    }
    &&& !first_jwt ==> after.nbsp_jwt_signing_key == before.nbsp_jwt_signing_key
    &&& after.nbsp_base_url == before.nbsp_base_url
    &&& after.nbsp_homepage_notice == before.nbsp_homepage_notice
    &&& after.nbsp_community_title == before.nbsp_community_title
    &&& after.nbsp_community_subtitle == before.nbsp_community_subtitle
    &&& after.nbsp_html_head_extra == before.nbsp_html_head_extra
    &&& after.nbsp_html_body_extra == before.nbsp_html_body_extra
    &&& after.nbsp_cookies_key == before.nbsp_cookies_key
    &&& after.nbsp_content_security_policy == before.nbsp_content_security_policy
}

/// The value the last write for `key` sets, if any.
pub open spec fn update_for(updates: Seq<(Seq<char>, Seq<char>)>, key: Seq<char>) -> Option<Seq<char>>
    decreases updates.len(),
{
    if updates.len() == 0 {
        None
    } else if updates.last().0 == key {
        Some(updates.last().1)
    } else {
        update_for(updates.drop_last(), key)
    }
}

/// The rows of the table after the writes (`UPDATE .. SET value = .. WHERE key = ..`): every row
/// whose key is written holds the written value.
pub open spec fn apply_updates(rows: Seq<RowView>, updates: Seq<(Seq<char>, Seq<char>)>) -> Seq<RowView> {
    rows.map_values(
        |r: RowView|
            match update_for(updates, r.0) {
                Some(v) => (r.0, Some(v)),
                None => r,
            },
    )
}

/// Some row of the table has this key.
pub open spec fn has_row(rows: Seq<RowView>, key: Seq<char>) -> bool {
    exists|i: int| 0 <= i < rows.len() && #[trigger] rows[i].0 == key
}

/// Why the configuration rows cannot be loaded.
#[derive(Debug, PartialEq, Eq, Structural)]
pub enum ConfigError {
    /// A cookies key row does not hold the Base64 encoding of at least 64 bytes
    InvalidCookiesKey,
    /// No row gives the instance a base URL
    EmptyBaseUrl,
}

/// The length of a freshly generated JWT signing secret, in bytes.
pub const JWT_SECRET_LENGTH: usize = 64;

impl NbspConfig {
    /// The configuration that the rows of the `nbsp_config` table give, and whether the cookies
    /// key is the freshly generated `generated_cookies_key` (no row sets one), which then has to
    /// be saved. Rows come in table order; a later row for a key overrides an earlier one.
    pub fn from_rows(rows: &Vec<(String, Option<String>)>, generated_cookies_key: &[u8]) -> (r: (
        NbspConfig,
        bool,
    ))
        requires
            cookies_keys_valid(rows_view(rows@)),
            generated_cookies_key@.len() == COOKIES_KEY_LENGTH,
        ensures
            config_from_rows(r.0, r.1, rows_view(rows@), generated_cookies_key@),
            r.0.nbsp_cookies_key@.len() == COOKIES_KEY_LENGTH,
    {
        let mut config = NbspConfig {
            nbsp_base_url: String::new(),
            nbsp_homepage_notice: None,
            nbsp_community_title: String::new(),
            nbsp_community_subtitle: String::new(),
            nbsp_html_head_extra: String::new(),
            nbsp_html_body_extra: String::new(),
            nbsp_cookies_key: slice_to_vec(generated_cookies_key),
            nbsp_jwt_signing_key: String::new(),
            nbsp_content_security_policy: String::new(),
        };
        let mut save_generated_cookies_key = true;
        let ghost all = rows_view(rows@);
        assert(rows@.take(0) =~= Seq::<(String, Option<String>)>::empty());
        assert(rows_view(rows@.take(0)) =~= Seq::<RowView>::empty());
        for i in 0..rows.len()
            invariant
                all == rows_view(rows@),
                cookies_keys_valid(all),
                generated_cookies_key@.len() == COOKIES_KEY_LENGTH,
                config_from_rows(
                    config,
                    save_generated_cookies_key,
                    rows_view(rows@.take(i as int)),
                    generated_cookies_key@,
                ),
                config.nbsp_cookies_key@.len() == COOKIES_KEY_LENGTH,
        {
            let ghost before = rows_view(rows@.take(i as int));
            let key = rows[i].0.as_str();
            let value = &rows[i].1;
            proof {
                lemma_rows_view_take(rows@, i as int);
                let row = (rows@[i as int].0@, opt_text(rows@[i as int].1));
                assert(all[i as int] == row);
                lemma_last_set_push(before, row, "nbsp_base_url"@);
                lemma_last_set_push(before, row, "nbsp_homepage_notice"@);
                lemma_last_set_push(before, row, "nbsp_community_title"@);
                lemma_last_set_push(before, row, "nbsp_community_subtitle"@);
                lemma_last_set_push(before, row, "nbsp_html_head_extra"@);
                lemma_last_set_push(before, row, "nbsp_html_body_extra"@);
                lemma_last_set_push(before, row, "nbsp_cookies_key"@);
                lemma_last_set_push(before, row, "nbsp_jwt_signing_key"@);
                lemma_last_set_push(before, row, "nbsp_content_security_policy"@);
            }
            if crate::text::str_eq(key, "nbsp_base_url") {
                if let Some(v) = value {
                    config.nbsp_base_url = v.clone();
                }
            }
            if crate::text::str_eq(key, "nbsp_homepage_notice") {
                config.nbsp_homepage_notice = clone_opt(value);
            }
            if crate::text::str_eq(key, "nbsp_community_title") {
                config.nbsp_community_title = match value {
                    Some(v) => v.clone(),
                    None => "non-breaking space".to_owned(),
                };
            }
            if crate::text::str_eq(key, "nbsp_community_subtitle") {
                config.nbsp_community_subtitle = match value {
                    Some(v) => v.clone(),
                    None => "a thoughtful community forum platform".to_owned(),
                };
            }
            if crate::text::str_eq(key, "nbsp_html_head_extra") {
                if let Some(v) = value {
                    config.nbsp_html_head_extra = v.clone();
                }
            }
            if crate::text::str_eq(key, "nbsp_html_body_extra") {
                if let Some(v) = value {
                    config.nbsp_html_body_extra = v.clone();
                }
            }
            if crate::text::str_eq(key, "nbsp_cookies_key") {
                if let Some(v) = value {
                    proof {
                        assert(all[i as int].0 == "nbsp_cookies_key"@ && all[i as int].1 is Some);
                    }
                    match base64_decode(v.as_str()) {
                        Ok(decoded) => {
                            config.nbsp_cookies_key = slice_to_vec(&decoded.as_slice()[0..COOKIES_KEY_LENGTH]);
                        },
                        Err(_) => {},
                    }
                    save_generated_cookies_key = false;
                }
            }
            if crate::text::str_eq(key, "nbsp_jwt_signing_key") {
                if let Some(v) = value {
                    config.nbsp_jwt_signing_key = v.clone();
                }
            }
            if crate::text::str_eq(key, "nbsp_content_security_policy") {
                if let Some(v) = value {
                    config.nbsp_content_security_policy = v.clone();
                }
            }
        }
        assert(rows@.take(rows.len() as int) =~= rows@);
        (config, save_generated_cookies_key)
    }

    /// Load the [`NbspConfig`] from the rows of the `nbsp_config` table: the configuration and
    /// whether the generated cookies key has to be saved (see [`NbspConfig::from_rows`]), or
    /// why the rows are not usable: a cookies key that is not the Base64 encoding of at least
    /// 64 bytes, or no base URL.
    pub fn load_from_rows(rows: &Vec<(String, Option<String>)>, generated_cookies_key: &[u8]) -> (r:
        Result<(NbspConfig, bool), ConfigError>)
        requires
            generated_cookies_key@.len() == COOKIES_KEY_LENGTH,
        ensures
            r == Err::<(NbspConfig, bool), ConfigError>(ConfigError::InvalidCookiesKey) <==> !cookies_keys_valid(rows_view(rows@)),
            r == Err::<(NbspConfig, bool), ConfigError>(ConfigError::EmptyBaseUrl) <==> cookies_keys_valid(rows_view(rows@))
                && text_or_empty(last_set(rows_view(rows@), "nbsp_base_url"@)).len() == 0,
            r matches Ok(loaded) ==> config_from_rows(loaded.0, loaded.1, rows_view(rows@), generated_cookies_key@)
                && loaded.0.nbsp_cookies_key@.len() == COOKIES_KEY_LENGTH,
    {
        let ghost all = rows_view(rows@);
        for i in 0..rows.len()
            invariant
                all == rows_view(rows@),
                forall|j: int|
                    0 <= j < i && #[trigger] all[j].0 == "nbsp_cookies_key"@ && all[j].1 is Some
                        ==> valid_cookies_key_text(all[j].1->Some_0),
        {
            proof {
                assert(all[i as int] == (rows@[i as int].0@, opt_text(rows@[i as int].1)));
            }
            if crate::text::str_eq(rows[i].0.as_str(), "nbsp_cookies_key") {
                if let Some(v) = &rows[i].1 {
                    match base64_decode(v.as_str()) {
                        Ok(decoded) => {
                            if decoded.len() < COOKIES_KEY_LENGTH {
                                proof {
                                    assert(!valid_cookies_key_text(all[i as int].1->Some_0));
                                    assert(all[i as int].0 == "nbsp_cookies_key"@);
                                }
                                return Err(ConfigError::InvalidCookiesKey);
                            }
                        },
                        Err(_) => {
                            proof {
                                assert(!valid_cookies_key_text(all[i as int].1->Some_0));
                                assert(all[i as int].0 == "nbsp_cookies_key"@);
                            }
                            return Err(ConfigError::InvalidCookiesKey);
                        },
                    }
                }
            }
        }
        let (config, save) = NbspConfig::from_rows(rows, generated_cookies_key);
        if config.nbsp_base_url.as_str().is_empty() {
            Err(ConfigError::EmptyBaseUrl)
        } else {
            Ok((config, save))
        }
    }

    /// The values that loading has to write back to the `nbsp_config` table, as (key, value)
    /// pairs in order: the generated cookies key (Base64-encoded) when `save_generated_cookies_key`
    /// holds, then a new JWT signing key, the Base64 encoding of `fresh_jwt_secret`, when the
    /// configuration has none; the new JWT signing key also goes into the configuration.
    pub fn pending_updates(&mut self, save_generated_cookies_key: bool, fresh_jwt_secret: &[u8]) -> (updates: Vec<
        (String, String),
    >)
        requires
            old(self).nbsp_cookies_key@.len() == COOKIES_KEY_LENGTH,
            fresh_jwt_secret@.len() == JWT_SECRET_LENGTH,
        ensures
            pending_writes(*old(self), save_generated_cookies_key, fresh_jwt_secret@, *final(self), updates_view(updates@)),
    {
        let mut updates: Vec<(String, String)> = Vec::new();
        if save_generated_cookies_key {
            let encoded = base64_encode(self.nbsp_cookies_key.as_slice());
            updates.push(("nbsp_cookies_key".to_owned(), encoded));
        }
        if self.nbsp_jwt_signing_key.as_str().is_empty() {
            let key = base64_encode(fresh_jwt_secret);
            self.nbsp_jwt_signing_key = key.clone();
            updates.push(("nbsp_jwt_signing_key".to_owned(), key));
        }
        updates
    }
}

/// The keys of the `nbsp_config` table that the configuration reads.
pub open spec fn is_known_key(key: Seq<char>) -> bool {
    ||| key == "nbsp_base_url"@
    ||| key == "nbsp_homepage_notice"@
    ||| key == "nbsp_community_title"@
    ||| key == "nbsp_community_subtitle"@
    ||| key == "nbsp_html_head_extra"@
    ||| key == "nbsp_html_body_extra"@
    ||| key == "nbsp_cookies_key"@
    ||| key == "nbsp_jwt_signing_key"@
    ||| key == "nbsp_content_security_policy"@
}

/// A row whose key the configuration does not read changes nothing: the configuration of the
/// rows with it is the configuration of the rows without it.
pub proof fn unknown_rows_are_ignored(
    c: NbspConfig,
    save: bool,
    rows: Seq<RowView>,
    row: RowView,
    generated: Seq<u8>,
)
    requires
        !is_known_key(row.0),
    ensures
        config_from_rows(c, save, rows.push(row), generated) == config_from_rows(c, save, rows, generated),
{
    lemma_last_set_push(rows, row, "nbsp_base_url"@);
    lemma_last_set_push(rows, row, "nbsp_homepage_notice"@);
    lemma_last_set_push(rows, row, "nbsp_community_title"@);
    lemma_last_set_push(rows, row, "nbsp_community_subtitle"@);
    lemma_last_set_push(rows, row, "nbsp_html_head_extra"@);
    lemma_last_set_push(rows, row, "nbsp_html_body_extra"@);
    lemma_last_set_push(rows, row, "nbsp_cookies_key"@);
    lemma_last_set_push(rows, row, "nbsp_jwt_signing_key"@);
    lemma_last_set_push(rows, row, "nbsp_content_security_policy"@);
}

/// A later row for a key overrides earlier ones: after a row that sets the base URL, the
/// configuration's base URL is that row's value.
pub proof fn later_rows_override(c: NbspConfig, save: bool, rows: Seq<RowView>, url: Seq<char>, generated: Seq<u8>)
    requires
        config_from_rows(c, save, rows.push(("nbsp_base_url"@, Some(url))), generated),
    ensures
        c.nbsp_base_url@ == url,
{
    lemma_last_set_push(rows, ("nbsp_base_url"@, Some(url)), "nbsp_base_url"@);
}

/// A cookies key that was generated and saved is the key the next load reads back: once the
/// saved row (the Base64 text that decodes to the key) is in the table, loading gives the same
/// key and asks for no new one to be saved.
pub proof fn saved_cookies_key_is_reloaded(
    c: NbspConfig,
    save: bool,
    rows: Seq<RowView>,
    saved: Seq<char>,
    key: Seq<u8>,
    generated: Seq<u8>,
)
    requires
        key.len() == COOKIES_KEY_LENGTH,
        base64_decoded(saved) == Some(key),
        config_from_rows(c, save, rows.push(("nbsp_cookies_key"@, Some(saved))), generated),
    ensures
        c.nbsp_cookies_key@ == key,
        !save,
{
    lemma_last_set_push(rows, ("nbsp_cookies_key"@, Some(saved)), "nbsp_cookies_key"@);
    assert(key.subrange(0, COOKIES_KEY_LENGTH as int) =~= key);
}

/// Rows whose key no write touches keep their values, so the last value set for such a key
/// stays the same.
proof fn lemma_untouched_key(rows: Seq<RowView>, updates: Seq<(Seq<char>, Seq<char>)>, key: Seq<char>)
    requires
        update_for(updates, key) is None,
    ensures
        last_set(apply_updates(rows, updates), key) == last_set(rows, key),
    decreases rows.len(),
{
    if rows.len() > 0 {
        assert(apply_updates(rows, updates).drop_last() =~= apply_updates(rows.drop_last(), updates));
        lemma_untouched_key(rows.drop_last(), updates, key);
    }
}

/// A written key that has a row is set to the written value.
proof fn lemma_written_key(
    rows: Seq<RowView>,
    updates: Seq<(Seq<char>, Seq<char>)>,
    key: Seq<char>,
    value: Seq<char>,
)
    requires
        update_for(updates, key) == Some(value),
        has_row(rows, key),
    ensures
        last_set(apply_updates(rows, updates), key) == Some(value),
    decreases rows.len(),
{
    let applied = apply_updates(rows, updates);
    assert(applied.last() == applied[rows.len() - 1]);
    if rows.last().0 != key {
        let i = choose|i: int| 0 <= i < rows.len() && #[trigger] rows[i].0 == key;
        assert(rows.drop_last()[i].0 == key);
        assert(applied.drop_last() =~= apply_updates(rows.drop_last(), updates));
        lemma_written_key(rows.drop_last(), updates, key, value);
    }
}

/// A loaded configuration whose writes have been made is loaded again unchanged in its keys:
/// the next load of the table (with the writes applied to their rows) accepts the rows, keeps
/// the base URL, reads back the same cookies key and the same JWT signing key, and has nothing
/// more to save or write. The writes must find their rows, as `UPDATE` fails otherwise.
pub proof fn reloading_keeps_keys_and_writes_nothing(
    rows: Seq<RowView>,
    generated: Seq<u8>,
    loaded: NbspConfig,
    save: bool,
    fresh_jwt_secret: Seq<u8>,
    saved: NbspConfig,
    updates: Seq<(Seq<char>, Seq<char>)>,
    reloaded: NbspConfig,
    save_again: bool,
    generated_again: Seq<u8>,
)
    requires
        cookies_keys_valid(rows),
        generated.len() == COOKIES_KEY_LENGTH,
        config_from_rows(loaded, save, rows, generated),
        pending_writes(loaded, save, fresh_jwt_secret, saved, updates),
        save ==> has_row(rows, "nbsp_cookies_key"@),
        loaded.nbsp_jwt_signing_key@.len() == 0 ==> has_row(rows, "nbsp_jwt_signing_key"@),
        config_from_rows(reloaded, save_again, apply_updates(rows, updates), generated_again),
    ensures
        cookies_keys_valid(apply_updates(rows, updates)),
        last_set(apply_updates(rows, updates), "nbsp_base_url"@) == last_set(rows, "nbsp_base_url"@),
        reloaded.nbsp_cookies_key@ == saved.nbsp_cookies_key@,
        reloaded.nbsp_jwt_signing_key@ == saved.nbsp_jwt_signing_key@,
        !save_again,
        forall|fresh: Seq<u8>, after: NbspConfig, more: Seq<(Seq<char>, Seq<char>)>|
            #[trigger] pending_writes(reloaded, save_again, fresh, after, more) ==> more.len() == 0,
{
    let k = "nbsp_cookies_key"@;
    let j = "nbsp_jwt_signing_key"@;
    let b = "nbsp_base_url"@;
    reveal_strlit("nbsp_cookies_key");
    reveal_strlit("nbsp_jwt_signing_key");
    reveal_strlit("nbsp_base_url");
    assert(k != j && k != b && j != b) by {
        assert(k.len() == 16 && j.len() == 20 && b.len() == 13);
    }
    reveal_with_fuel(update_for, 3);
    let first_jwt = loaded.nbsp_jwt_signing_key@.len() == 0;
    let applied = apply_updates(rows, updates);
    // The base URL is never written.
    assert(update_for(updates, b) is None) by {
        if updates.len() == 2 {
            assert(updates.drop_last().drop_last() =~= Seq::<(Seq<char>, Seq<char>)>::empty());
        }
    }
    lemma_untouched_key(rows, updates, b);
    // The cookies key.
    if save {
        let t = updates[0].1;
        assert(update_for(updates, k) == Some(t)) by {
            if updates.len() == 2 {
                assert(updates.drop_last().last() == updates[0]);
            }
        }
        lemma_written_key(rows, updates, k, t);
        assert(loaded.nbsp_cookies_key@ == generated);
        assert(base64_decoded(t)->Some_0.subrange(0, COOKIES_KEY_LENGTH as int) =~= generated);
        assert forall|i: int|
            0 <= i < applied.len() && #[trigger] applied[i].0 == k && applied[i].1 is Some implies valid_cookies_key_text(
                applied[i].1->Some_0,
            ) by {
            assert(rows[i].0 == k);
        }
    } else {
        assert(update_for(updates, k) is None) by {
            if updates.len() == 1 {
                assert(updates.drop_last() =~= Seq::<(Seq<char>, Seq<char>)>::empty());
            }
        }
        lemma_untouched_key(rows, updates, k);
        assert forall|i: int|
            0 <= i < applied.len() && #[trigger] applied[i].0 == k && applied[i].1 is Some implies valid_cookies_key_text(
                applied[i].1->Some_0,
            ) by {
            assert(rows[i].0 == k);
            assert(applied[i] == rows[i]);
        }
    }
    // The JWT signing key.
    if first_jwt {
        assert(update_for(updates, j) == Some(saved.nbsp_jwt_signing_key@));
        lemma_written_key(rows, updates, j, saved.nbsp_jwt_signing_key@);
    } else {
        assert(update_for(updates, j) is None) by {
            if updates.len() == 1 {
                assert(updates.drop_last() =~= Seq::<(Seq<char>, Seq<char>)>::empty());
            }
        }
        lemma_untouched_key(rows, updates, j);
    }
}

/// Each field of the configuration comes from the last row of its key: after a row for a key,
/// the field is that row's value. A `NULL` title or subtitle stands for its default ("non-breaking
/// space", "a thoughtful community forum platform"), a `NULL` notice for no notice; a `NULL` value
/// of the other keys is skipped. A non-`NULL` cookies key row gives the first 64 bytes it decodes
/// to, and then no generated key needs saving.
pub proof fn last_row_sets_its_field(
    c: NbspConfig,
    save: bool,
    rows: Seq<RowView>,
    key: Seq<char>,
    value: Option<Seq<char>>,
    generated: Seq<u8>,
)
    requires
        config_from_rows(c, save, rows.push((key, value)), generated),
    ensures
        key == "nbsp_community_title"@ ==> c.nbsp_community_title@ == match value {
            Some(t) => t,
            None => "non-breaking space"@,
        },
        key == "nbsp_community_subtitle"@ ==> c.nbsp_community_subtitle@ == match value {
            Some(t) => t,
            None => "a thoughtful community forum platform"@,
        },
        key == "nbsp_homepage_notice"@ ==> opt_text(c.nbsp_homepage_notice) == value,
        key == "nbsp_base_url"@ && value is Some ==> c.nbsp_base_url@ == value->Some_0,
        key == "nbsp_html_head_extra"@ && value is Some ==> c.nbsp_html_head_extra@ == value->Some_0,
        key == "nbsp_html_body_extra"@ && value is Some ==> c.nbsp_html_body_extra@ == value->Some_0,
        key == "nbsp_jwt_signing_key"@ && value is Some ==> c.nbsp_jwt_signing_key@ == value->Some_0,
        key == "nbsp_content_security_policy"@ && value is Some ==> c.nbsp_content_security_policy@
            == value->Some_0,
        key == "nbsp_cookies_key"@ && value is Some ==> {
            &&& c.nbsp_cookies_key@ == base64_decoded(value->Some_0)->Some_0.subrange(0, 64)
            &&& !save
        },
{
    let row = (key, value);
    lemma_last_set_push(rows, row, "nbsp_base_url"@);
    lemma_last_set_push(rows, row, "nbsp_homepage_notice"@);
    lemma_last_set_push(rows, row, "nbsp_community_title"@);
    lemma_last_set_push(rows, row, "nbsp_community_subtitle"@);
    lemma_last_set_push(rows, row, "nbsp_html_head_extra"@);
    lemma_last_set_push(rows, row, "nbsp_html_body_extra"@);
    lemma_last_set_push(rows, row, "nbsp_cookies_key"@);
    lemma_last_set_push(rows, row, "nbsp_jwt_signing_key"@);
    lemma_last_set_push(rows, row, "nbsp_content_security_policy"@);
}

} // verus!
