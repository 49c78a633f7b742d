//! The application's settings and translation history: the values, and the
//! rules that turn them into database rows and back.

use vstd::prelude::*;
use vstd::string::*;

use crate::text::{same_text, trim, trimmed};
use crate::xdg::{join, path_join};

verus! {

/// Used when the target language is left empty.
///
/// The settings view shows these as placeholder text, so an empty box and the
/// value it greys out mean the same thing.
pub const DEFAULT_TARGET_LANG: &'static str = "Simplified Chinese";
/// Used when the fallback language is left empty.
pub const DEFAULT_FALLBACK_LANG: &'static str = "English";
/// OpenRouter's own endpoint, used unless a compatible one is set instead.
pub const DEFAULT_BASE_URL: &'static str = "https://openrouter.ai/api/v1";

/// `value` trimmed, or `default` when that leaves nothing.
pub open spec fn or_default(value: Seq<char>, default: Seq<char>) -> Seq<char> {
    if trim(value).len() == 0 {
        default
    } else {
        trim(value)
    }
}

/// Everything the user can change, edited through the settings view.
///
/// The API key is deliberately absent: a secret does not belong in a database
/// that also holds translated text.
#[derive(Debug, Clone, PartialEq, Eq)]
pub struct Settings {
    /// Model slug, in the vendor's own naming. Must accept image input.
    pub model: String,
    /// Language to translate into, named the way you would say it to a person.
    pub target_lang: String,
    /// Language to use when the source is already in `target_lang`. Empty to
    /// always translate into `target_lang`.
    pub fallback_lang: String,
    /// The OpenAI-compatible endpoint to send requests to. Empty for
    /// OpenRouter's own.
    pub base_url: String,
}

impl Default for Settings {
    fn default() -> (res: Self)
        ensures
            res.model@.len() == 0,
            res.target_lang@.len() == 0,
            res.fallback_lang@.len() == 0,
            res.base_url@.len() == 0,
    {
        Settings {
            model: String::new(),
            target_lang: String::new(),
            fallback_lang: String::new(),
            base_url: String::new(),
        }
    }
}

/// `value` trimmed, or `None` when that leaves nothing.
pub fn non_empty(value: &str) -> (res: Option<&str>)
    ensures
        match res {
            Some(v) => trim(value@).len() > 0 && v@ == trim(value@),
            None => trim(value@).len() == 0,
        },
{
    let v = trimmed(value);
    if v.is_empty() {
        None
    } else {
        Some(v)
    }
}

impl Settings {
    /// Whether these are complete enough to translate with.
    ///
    /// Only the model has to be filled in: it names something the endpoint
    /// serves that cannot be guessed, while everything else has a default.
    pub fn is_usable(&self) -> (res: bool)
        ensures
            res == (trim(self.model@).len() > 0),
    {
        !trimmed(self.model.as_str()).is_empty()
    }

    /// The language to translate into, defaulted.
    pub fn target(&self) -> (res: &str)
        ensures
            res@ == or_default(self.target_lang@, DEFAULT_TARGET_LANG@),
    {
        match non_empty(self.target_lang.as_str()) {
            Some(v) => v,
            None => DEFAULT_TARGET_LANG,
        }
    }

    /// The language to use when the source is already in [`Self::target`].
    pub fn fallback(&self) -> (res: &str)
        ensures
            res@ == or_default(self.fallback_lang@, DEFAULT_FALLBACK_LANG@),
    {
        match non_empty(self.fallback_lang.as_str()) {
            Some(v) => v,
            None => DEFAULT_FALLBACK_LANG,
        }
    }

    /// The endpoint to send requests to, defaulted.
    pub fn base_url(&self) -> (res: &str)
        ensures
            res@ == or_default(self.base_url@, DEFAULT_BASE_URL@),
    {
        match non_empty(self.base_url.as_str()) {
            Some(v) => v,
            None => DEFAULT_BASE_URL,
        }
    }
}


/// The key the model is stored under.
pub const MODEL_KEY: &'static str = "model";
/// The key the target language is stored under.
pub const TARGET_LANG_KEY: &'static str = "target_lang";
/// The key the fallback language is stored under.
pub const FALLBACK_LANG_KEY: &'static str = "fallback_lang";
/// The key the endpoint is stored under.
pub const BASE_URL_KEY: &'static str = "base_url";

/// Key-value rows as plain text.
pub open spec fn rows_view(rows: Seq<(String, String)>) -> Seq<(Seq<char>, Seq<char>)> {
    rows.map_values(|row: (String, String)| (row.0@, row.1@))
}

/// The value of the last row stored under `key`, or nothing when there is
/// none: a later row overrides an earlier one.
pub open spec fn last_value(rows: Seq<(Seq<char>, Seq<char>)>, key: Seq<char>) -> Seq<char>
    decreases rows.len(),
{
    if rows.len() == 0 {
        Seq::empty()
    } else if rows.last().0 == key {
        rows.last().1
    } else {
        last_value(rows.drop_last(), key)
    }
}

/// The rows that store the given settings, one per key.
pub open spec fn saved_rows(
    model: Seq<char>,
    target_lang: Seq<char>,
    fallback_lang: Seq<char>,
    base_url: Seq<char>,
) -> Seq<(Seq<char>, Seq<char>)> {
    seq![
        (MODEL_KEY@, model),
        (TARGET_LANG_KEY@, target_lang),
        (FALLBACK_LANG_KEY@, fallback_lang),
        (BASE_URL_KEY@, base_url),
    ]
}

proof fn lemma_keys_distinct()
    ensures
        MODEL_KEY@ != TARGET_LANG_KEY@,
        MODEL_KEY@ != FALLBACK_LANG_KEY@,
        MODEL_KEY@ != BASE_URL_KEY@,
        TARGET_LANG_KEY@ != FALLBACK_LANG_KEY@,
        TARGET_LANG_KEY@ != BASE_URL_KEY@,
        FALLBACK_LANG_KEY@ != BASE_URL_KEY@,
{
    reveal_strlit("model");
    reveal_strlit("target_lang");
    reveal_strlit("fallback_lang");
    reveal_strlit("base_url");
    assert(MODEL_KEY@[0] != TARGET_LANG_KEY@[0]);
    assert(MODEL_KEY@[0] != FALLBACK_LANG_KEY@[0]);
    assert(MODEL_KEY@[0] != BASE_URL_KEY@[0]);
    assert(TARGET_LANG_KEY@[0] != FALLBACK_LANG_KEY@[0]);
    assert(TARGET_LANG_KEY@[0] != BASE_URL_KEY@[0]);
    assert(FALLBACK_LANG_KEY@[0] != BASE_URL_KEY@[0]);
}

/// The key-value rows that store `settings`.
pub fn setting_rows(settings: &Settings) -> (res: Vec<(String, String)>)
    ensures
        rows_view(res@) == saved_rows(
            settings.model@,
            settings.target_lang@,
            settings.fallback_lang@,
            settings.base_url@,
        ),
{
    let mut rows: Vec<(String, String)> = Vec::new();
    rows.push((String::from_str(MODEL_KEY), settings.model.clone()));
    rows.push((String::from_str(TARGET_LANG_KEY), settings.target_lang.clone()));
    rows.push((String::from_str(FALLBACK_LANG_KEY), settings.fallback_lang.clone()));
    rows.push((String::from_str(BASE_URL_KEY), settings.base_url.clone()));
    proof {
        assert(rows_view(rows@) =~= saved_rows(
            settings.model@,
            settings.target_lang@,
            settings.fallback_lang@,
            settings.base_url@,
        ));
    }
    rows
}

/// Rebuilds the settings from stored key-value rows.
///
/// Never fails on missing or unknown keys: an unset value is left empty, so
/// that an unconfigured install opens and offers to fix itself.
pub fn settings_from_rows(rows: &Vec<(String, String)>) -> (res: Settings)
    ensures
        res.model@ == last_value(rows_view(rows@), MODEL_KEY@),
        res.target_lang@ == last_value(rows_view(rows@), TARGET_LANG_KEY@),
        res.fallback_lang@ == last_value(rows_view(rows@), FALLBACK_LANG_KEY@),
        res.base_url@ == last_value(rows_view(rows@), BASE_URL_KEY@),
{
    let mut settings = Settings::default();
    let mut i: usize = 0;
    while i < rows.len()
        invariant
            i <= rows.len(),
            settings.model@ == last_value(rows_view(rows@.take(i as int)), MODEL_KEY@),
            settings.target_lang@ == last_value(rows_view(rows@.take(i as int)), TARGET_LANG_KEY@),
            settings.fallback_lang@ == last_value(
                rows_view(rows@.take(i as int)),
                FALLBACK_LANG_KEY@,
            ),
            settings.base_url@ == last_value(rows_view(rows@.take(i as int)), BASE_URL_KEY@),
        decreases rows.len() - i,
    {
        let key = rows[i].0.as_str();
        let value = &rows[i].1;
        proof {
            let next = rows_view(rows@.take(i + 1));
            assert(next.drop_last() =~= rows_view(rows@.take(i as int)));
            assert(next.last() == (rows@[i as int].0@, rows@[i as int].1@));
            lemma_keys_distinct();
        }
        if same_text(key, MODEL_KEY) {
            settings.model = value.clone();
        } else if same_text(key, TARGET_LANG_KEY) {
            settings.target_lang = value.clone();
        } else if same_text(key, FALLBACK_LANG_KEY) {
            settings.fallback_lang = value.clone();
        } else if same_text(key, BASE_URL_KEY) {
            settings.base_url = value.clone();
        }
        i = i + 1;
    }
    proof {
        assert(rows@.take(rows@.len() as int) =~= rows@);
    }
    settings
}

/// What was saved last is what is read back, whatever rows were stored
/// before it: saving twice overwrites rather than duplicating.
pub proof fn saved_settings_read_back(
    older: Seq<(Seq<char>, Seq<char>)>,
    model: Seq<char>,
    target_lang: Seq<char>,
    fallback_lang: Seq<char>,
    base_url: Seq<char>,
)
    ensures
        ({
            let rows = older + saved_rows(model, target_lang, fallback_lang, base_url);
            &&& last_value(rows, MODEL_KEY@) == model
            &&& last_value(rows, TARGET_LANG_KEY@) == target_lang
            &&& last_value(rows, FALLBACK_LANG_KEY@) == fallback_lang
            &&& last_value(rows, BASE_URL_KEY@) == base_url
        }),
{
    lemma_keys_distinct();
    let r4 = older + saved_rows(model, target_lang, fallback_lang, base_url);
    let r3 = r4.drop_last();
    let r2 = r3.drop_last();
    let r1 = r2.drop_last();
    assert(r4.last() == (BASE_URL_KEY@, base_url));
    assert(r3.last() == (FALLBACK_LANG_KEY@, fallback_lang));
    assert(r2.last() == (TARGET_LANG_KEY@, target_lang));
    assert(r1.last() == (MODEL_KEY@, model));
    assert(last_value(r3, TARGET_LANG_KEY@) == last_value(r2, TARGET_LANG_KEY@));
    assert(last_value(r4, TARGET_LANG_KEY@) == target_lang);
    assert(last_value(r2, MODEL_KEY@) == last_value(r1, MODEL_KEY@));
    assert(last_value(r3, MODEL_KEY@) == last_value(r2, MODEL_KEY@));
    assert(last_value(r4, MODEL_KEY@) == model);
    assert(last_value(r4, FALLBACK_LANG_KEY@) == last_value(r3, FALLBACK_LANG_KEY@));
    assert(last_value(r4, FALLBACK_LANG_KEY@) == fallback_lang);
    assert(last_value(r4, BASE_URL_KEY@) == base_url);
}

/// How a translation was started.
#[derive(Debug, Clone, Copy, PartialEq, Eq)]
pub enum Kind {
    Shot,
    Clip,
    Select,
}

/// The name a kind is stored under.
pub open spec fn kind_name(kind: Kind) -> Seq<char> {
    match kind {
        Kind::Shot => "shot"@,
        Kind::Clip => "clip"@,
        Kind::Select => "select"@,
    }
}

/// The kind stored under `name`, if any.
pub open spec fn kind_named(name: Seq<char>) -> Option<Kind> {
    if name == "shot"@ {
        Some(Kind::Shot)
    } else if name == "clip"@ {
        Some(Kind::Clip)
    } else if name == "select"@ {
        Some(Kind::Select)
    } else {
        None
    }
}

/// A kind name found in the history that this version does not know.
#[derive(Debug, Clone, PartialEq, Eq)]
pub struct UnknownKind {
    /// The name as stored.
    pub name: String,
}

impl UnknownKind {
    /// The message this error is shown with.
    pub fn message(&self) -> (res: String)
        ensures
            res@ == "unknown kind in history: "@ + self.name@,
    {
        let mut text = String::from_str("unknown kind in history: ");
        text.push_str(self.name.as_str());
        text
    }
}

impl Kind {
    /// The name this kind is stored and shown under.
    pub fn as_str(&self) -> (res: &'static str)
        ensures
            res@ == kind_name(*self),
    {
        match self {
            Kind::Shot => "shot",
            Kind::Clip => "clip",
            Kind::Select => "select",
        }
    }

    /// The name this kind is stored and shown under, as an owned string.
    pub fn to_string(&self) -> (res: String)
        ensures
            res@ == kind_name(*self),
    {
        String::from_str(self.as_str())
    }

    /// Reads a kind back from its stored name.
    pub fn parse(name: &str) -> (res: Result<Kind, UnknownKind>)
        ensures
            match res {
                Ok(kind) => kind_named(name@) == Some(kind),
                Err(err) => kind_named(name@).is_none() && err.name@ == name@,
            },
    {
        if same_text(name, "shot") {
            Ok(Kind::Shot)
        } else if same_text(name, "clip") {
            Ok(Kind::Clip)
        } else if same_text(name, "select") {
            Ok(Kind::Select)
        } else {
            Err(UnknownKind { name: String::from_str(name) })
        }
    }
}

impl std::str::FromStr for Kind {
    type Err = UnknownKind;

    fn from_str(s: &str) -> (res: Result<Kind, UnknownKind>)
        ensures
            match res {
                Ok(kind) => kind_named(s@) == Some(kind),
                Err(err) => kind_named(s@).is_none() && err.name@ == s@,
            },
    {
        Kind::parse(s)
    }
}

/// Every kind reads back as itself from the name it is stored under, and no
/// two kinds share a name.
pub proof fn kind_names_round_trip(kind: Kind)
    ensures
        kind_named(kind_name(kind)) == Some(kind),
{
    reveal_strlit("shot");
    reveal_strlit("clip");
    reveal_strlit("select");
    assert("shot"@ != "clip"@ && "shot"@ != "select"@ && "clip"@ != "select"@) by {
        assert("shot"@[0] != "clip"@[0]);
        assert("shot"@[0] == "select"@[0] && "shot"@[1] != "select"@[1]);
        assert("clip"@[0] != "select"@[0]);
    }
}

/// A translation about to be recorded.
#[derive(Debug)]
pub struct Record<'a> {
    pub kind: Kind,
    pub model: &'a str,
    pub target: &'a str,
    pub source: &'a str,
    pub translated: &'a str,
}

/// A translation read back out.
#[derive(Debug, Clone, PartialEq, Eq)]
pub struct Entry {
    pub id: i64,
    /// Seconds since the Unix epoch.
    pub created_at: i64,
    pub kind: Kind,
    pub model: String,
    pub target: String,
    pub source: String,
    pub translated: String,
}

/// One stored entry as its columns come out of the database, the kind still
/// by name.
#[derive(Debug, Clone, PartialEq, Eq)]
pub struct EntryRow {
    pub id: i64,
    pub created_at: i64,
    pub kind: String,
    pub model: String,
    pub target: String,
    pub source: String,
    pub translated: String,
}

/// Turns a stored row into an entry, failing only on an unknown kind.
pub fn read_entry(row: EntryRow) -> (res: Result<Entry, UnknownKind>)
    ensures
        match res {
            Ok(entry) => {
                &&& kind_named(row.kind@) == Some(entry.kind)
                &&& entry.id == row.id
                &&& entry.created_at == row.created_at
                &&& entry.model == row.model
                &&& entry.target == row.target
                &&& entry.source == row.source
                &&& entry.translated == row.translated
            },
            Err(err) => kind_named(row.kind@).is_none() && err.name == row.kind,
        },
{
    match Kind::parse(row.kind.as_str()) {
        Ok(kind) => Ok(
            Entry {
                id: row.id,
                created_at: row.created_at,
                kind,
                model: row.model,
                target: row.target,
                source: row.source,
                translated: row.translated,
            },
        ),
        Err(_) => Err(UnknownKind { name: row.kind }),
    }
}

/// The pattern characters that `LIKE` gives a meaning: the two wildcards and
/// the escape character chosen for them.
pub open spec fn is_like_special(c: char) -> bool {
    c == '%' || c == '_' || c == '\\'
}

/// `query` with each special character escaped by a backslash.
pub open spec fn like_escape(query: Seq<char>) -> Seq<char>
    decreases query.len(),
{
    if query.len() == 0 {
        query
    } else {
        let c = query[0];
        let head = if is_like_special(c) {
            seq!['\\', c]
        } else {
            seq![c]
        };
        head + like_escape(query.drop_first())
    }
}

/// The text a `LIKE` pattern with `\` as escape character matches literally,
/// or `None` when it holds a bare wildcard or a dangling escape.
pub open spec fn like_literal(pattern: Seq<char>) -> Option<Seq<char>>
    decreases pattern.len(),
{
    if pattern.len() == 0 {
        Some(pattern)
    } else if pattern[0] == '\\' {
        if pattern.len() < 2 {
            None
        } else {
            match like_literal(pattern.subrange(2, pattern.len() as int)) {
                Some(rest) => Some(seq![pattern[1]] + rest),
                None => None,
            }
        }
    } else if pattern[0] == '%' || pattern[0] == '_' {
        None
    } else {
        match like_literal(pattern.drop_first()) {
            Some(rest) => Some(seq![pattern[0]] + rest),
            None => None,
        }
    }
}

proof fn lemma_like_escape_concat(a: Seq<char>, b: Seq<char>)
    ensures
        like_escape(a + b) == like_escape(a) + like_escape(b),
    decreases a.len(),
{
    if a.len() == 0 {
        assert(a + b =~= b);
    } else {
        assert((a + b).drop_first() =~= a.drop_first() + b);
        assert((a + b)[0] == a[0]);
        lemma_like_escape_concat(a.drop_first(), b);
    }
}

/// Escaping leaves no bare wildcard: the escaped query, read as a `LIKE`
/// pattern, matches exactly the query itself, so a `%` in a query means a
/// percent sign rather than "anything".
pub proof fn like_escape_is_literal(query: Seq<char>)
    ensures
        like_literal(like_escape(query)) == Some(query),
    decreases query.len(),
{
    if query.len() > 0 {
        let c = query[0];
        let rest = query.drop_first();
        like_escape_is_literal(rest);
        let e = like_escape(query);
        if is_like_special(c) {
            assert(e.subrange(2, e.len() as int) =~= like_escape(rest));
        } else {
            assert(e.drop_first() =~= like_escape(rest));
        }
        assert(seq![c] + rest =~= query);
    }
}

/// Builds a `LIKE` pattern matching `query` anywhere.
///
/// The wildcards are escaped so that a literal `%` in the query means a percent
/// sign rather than "anything".
pub fn like_contains(query: &str) -> (res: String)
    ensures
        res@ == seq!['%'] + like_escape(query@) + seq!['%'],
{
    broadcast use vstd::string::group_string_axioms;

    let mut pattern = String::new();
    pattern.push('%');
    for c in it: query.chars()
        invariant
            it.seq() == query@,
            pattern@ == seq!['%'] + like_escape(query@.take(it.index() as int)),
    {
        proof {
            assert(c == query@[it.index() as int]);
            assert(query@.take(it.index() + 1) =~= query@.take(it.index() as int) + seq![c]);
            lemma_like_escape_concat(query@.take(it.index() as int), seq![c]);
            assert(seq![c].drop_first() =~= Seq::<char>::empty());
            assert(like_escape(Seq::<char>::empty()) =~= Seq::<char>::empty());
            if is_like_special(c) {
                assert(like_escape(seq![c]) =~= seq!['\\', c]);
            } else {
                assert(like_escape(seq![c]) =~= seq![c]);
            }
        }
        let ghost before = pattern@;
        if c == '%' || c == '_' || c == '\\' {
            pattern.push('\\');
        }
        pattern.push(c);
        proof {
            if is_like_special(c) {
                assert(pattern@ =~= before + seq!['\\', c]);
            } else {
                assert(pattern@ =~= before + seq![c]);
            }
            assert(pattern@ =~= seq!['%'] + like_escape(query@.take(it.index() + 1)));
        }
    }
    pattern.push('%');
    proof {
        assert(query@.take(query@.len() as int) =~= query@);
    }
    pattern
}


/// How many entries the history window lists: more than anyone scrolls; the
/// search box is the way to reach anything older.
pub const HISTORY_LIMIT: usize = 200;

/// The database's file name under the data directory.
pub const DATABASE_FILE: &'static str = "vertere.db";

/// Where the database is kept, under the data directory `data_dir`.
pub fn database_path(data_dir: &str) -> (res: String)
    ensures
        res@ == path_join(data_dir@, DATABASE_FILE@),
{
    join(data_dir, DATABASE_FILE)
}

/// The schema this version of the program writes.
pub const SCHEMA_VERSION: i64 = 2;

/// Creates the first schema: settings as key-value rows, and the history.
pub const SCHEMA_V1: &'static str = "BEGIN;
     -- Key-value rather than a column per setting, so adding one later
     -- is a write instead of a migration.
     CREATE TABLE setting (
       key   TEXT PRIMARY KEY,
       value TEXT NOT NULL
     );
     CREATE TABLE entry (
       id         INTEGER PRIMARY KEY,
       created_at INTEGER NOT NULL,
       kind       TEXT NOT NULL,
       model      TEXT NOT NULL,
       target     TEXT NOT NULL,
       source     TEXT NOT NULL,
       translated TEXT NOT NULL,
       image_path TEXT
     );
     CREATE INDEX entry_created_at ON entry (created_at DESC);
     PRAGMA user_version = 1;
     COMMIT;";

/// Drops the column of a screenshot cache that never shipped a way to turn it
/// on, so there is nothing to migrate its data into.
pub const SCHEMA_V2: &'static str = "ALTER TABLE entry DROP COLUMN image_path;
     PRAGMA user_version = 2;";

/// Reads the schema version.
pub const READ_VERSION: &'static str = "PRAGMA user_version";
/// Reads every stored setting.
pub const SELECT_SETTINGS: &'static str = "SELECT key, value FROM setting";
/// Stores one setting, replacing an earlier value under the same key.
pub const UPSERT_SETTING: &'static str = "INSERT INTO setting (key, value) VALUES (?1, ?2)
     ON CONFLICT (key) DO UPDATE SET value = excluded.value";
/// Records one translation.
pub const INSERT_ENTRY: &'static str = "INSERT INTO entry (created_at, kind, model, target, source, translated)
     VALUES (?1, ?2, ?3, ?4, ?5, ?6)";
/// The most recent entries, newest first, at most `?1` of them.
pub const SELECT_RECENT: &'static str = "SELECT id, created_at, kind, model, target, source, translated
     FROM entry ORDER BY created_at DESC, id DESC LIMIT ?1";
/// The entries whose source or translation matches the `LIKE` pattern `?1`,
/// newest first, at most `?2` of them.
///
/// A plain scan rather than an index: FTS5 tokenises on word boundaries, so
/// it cannot find `狐狸` inside `敏捷的狐狸`, and its trigram tokeniser needs
/// queries of three characters or more — which rules out most CJK words.
pub const SELECT_MATCHING: &'static str = "SELECT id, created_at, kind, model, target, source, translated
     FROM entry WHERE source LIKE ?1 ESCAPE '\\' OR translated LIKE ?1 ESCAPE '\\'
     ORDER BY created_at DESC, id DESC LIMIT ?2";
/// The entry with id `?1`.
pub const SELECT_ENTRY: &'static str = "SELECT id, created_at, kind, model, target, source, translated
     FROM entry WHERE id = ?1";
/// Deletes the entry with id `?1`.
pub const DELETE_ENTRY: &'static str = "DELETE FROM entry WHERE id = ?1";

/// The migration scripts that bring a database at schema `version` up to
/// [`SCHEMA_VERSION`], in the order they are to run.
pub open spec fn pending_migrations(version: i64) -> Seq<&'static str> {
    if version < 1 {
        seq![SCHEMA_V1, SCHEMA_V2]
    } else if version < 2 {
        seq![SCHEMA_V2]
    } else {
        Seq::empty()
    }
}

/// The migration scripts to run on a database at schema `version`.
pub fn migrations(version: i64) -> (res: Vec<&'static str>)
    ensures
        res@ == pending_migrations(version),
{
    let mut steps: Vec<&'static str> = Vec::new();
    if version < 1 {
        steps.push(SCHEMA_V1);
    }
    if version < 2 {
        steps.push(SCHEMA_V2);
    }
    proof {
        assert(steps@ =~= pending_migrations(version));
    }
    steps
}

/// How a history search runs.
#[derive(Debug, Clone, PartialEq, Eq)]
pub enum Lookup {
    /// The query is blank: list the most recent entries.
    Recent,
    /// Entries whose source or translation matches this `LIKE` pattern.
    Matching(String),
}

/// Plans a substring search over both the source and the translation.
///
/// A blank query lists the most recent entries instead; otherwise the trimmed
/// query is matched anywhere, with its wildcards taken literally.
pub fn lookup(query: &str) -> (res: Lookup)
    ensures
        trim(query@).len() == 0 ==> res == Lookup::Recent,
        trim(query@).len() > 0 ==> (res matches Lookup::Matching(pattern) && pattern@ == seq!['%']
            + like_escape(trim(query@)) + seq!['%']),
{
    let query = trimmed(query);
    if query.is_empty() {
        Lookup::Recent
    } else {
        Lookup::Matching(like_contains(query))
    }
}

} // verus!
