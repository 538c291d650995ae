//! Application configuration: the display language and the rules by which
//! the configuration file is read, checked, written and recovered.
//!
//! The file is a TOML document with upper-case keys, for example
//! `LANGUAGE = "en-US"`. Exactly one key, `LANGUAGE`, is accepted; its value
//! must be one of the supported locale strings.

use vstd::prelude::*;
use crate::text::append_str;

verus! {

// ---------------------------------------------------------------------------
// Language
// ---------------------------------------------------------------------------

/// A supported display language. In the configuration file it is written as
/// its BCP 47 locale string. The default is [`AppLanguage::EnUs`].
#[derive(Debug, Clone, Copy, PartialEq, Eq, Structural)]
pub enum AppLanguage {
    ZhCn,
    EnUs,
}

/// The language that a locale string names, if it names a supported one.
pub open spec fn language_for_locale(locale: Seq<char>) -> Option<AppLanguage> {
    if locale == "zh-CN"@ {
        Some(AppLanguage::ZhCn)
    } else if locale == "en-US"@ {
        Some(AppLanguage::EnUs)
    } else {
        None
    }
}

impl AppLanguage {
    /// The BCP 47 locale string of this language.
    pub open spec fn locale(self) -> Seq<char> {
        match self {
            AppLanguage::ZhCn => "zh-CN"@,
            AppLanguage::EnUs => "en-US"@,
        }
    }

    /// Returns the BCP 47 locale string for this language.
    pub fn as_locale_str(&self) -> (result: &'static str)
        ensures
            result@ == self.locale(),
    {
        match self {
            AppLanguage::ZhCn => "zh-CN",
            AppLanguage::EnUs => "en-US",
        }
    }

    /// The language whose locale string is `locale`, if any.
    pub fn from_locale_str(locale: &str) -> (result: Option<AppLanguage>)
        ensures
            result == language_for_locale(locale@),
    {
        let owned = locale.to_owned();
        if owned == "zh-CN".to_owned() {
            Some(AppLanguage::ZhCn)
        } else if owned == "en-US".to_owned() {
            Some(AppLanguage::EnUs)
        } else {
            None
        }
    }
}

impl Default for AppLanguage {
    fn default() -> (result: Self)
        ensures
            result == AppLanguage::EnUs,
    {
        AppLanguage::EnUs
    }
}

/// Each language's locale string names that language, and no other.
pub proof fn lemma_locale_round_trip(language: AppLanguage)
    ensures
        language_for_locale(language.locale()) == Some(language),
{
    reveal_strlit("zh-CN");
    reveal_strlit("en-US");
    assert("zh-CN"@ != "en-US"@) by {
        assert("zh-CN"@[0] != "en-US"@[0]);
    }
}

// ---------------------------------------------------------------------------
// Configuration value and errors
// ---------------------------------------------------------------------------

/// The persisted application configuration.
#[derive(Debug, Clone, Copy, PartialEq, Eq, Structural)]
pub struct AppConfig {
    pub language: AppLanguage,
}

/// The configuration used when none can be read.
pub open spec fn default_config() -> AppConfig {
    AppConfig { language: AppLanguage::EnUs }
}

impl Default for AppConfig {
    fn default() -> (result: Self)
        ensures
            result == default_config(),
    {
        AppConfig { language: AppLanguage::EnUs }
    }
}

/// Why a configuration could not be read, checked or written.
#[derive(Debug, Clone, PartialEq, Eq)]
pub enum ConfigError {
    /// The file exists but could not be read; the message says why.
    ReadFailed(String),
    /// The file is not a TOML document; the message says why.
    Syntax(String),
    /// The document holds a key other than `LANGUAGE`.
    UnknownField(String),
    /// The value of `LANGUAGE` is neither a string nor a table.
    LanguageWrongType,
    /// The value of `LANGUAGE` is a table, but not one entry whose value is
    /// an empty table or an empty array.
    LanguageTableMalformed,
    /// The value of `LANGUAGE` names no supported language: a string, or the
    /// key of a one-entry table.
    UnknownLanguage(String),
    /// The document has no `LANGUAGE` key.
    MissingLanguage,
    /// The configuration could not be rendered as TOML; the message says why.
    SerializeFailed(String),
}

/// [`ConfigError`] with its texts as character sequences.
pub enum ConfigErrorView {
    ReadFailed(Seq<char>),
    Syntax(Seq<char>),
    UnknownField(Seq<char>),
    LanguageWrongType,
    LanguageTableMalformed,
    UnknownLanguage(Seq<char>),
    MissingLanguage,
    SerializeFailed(Seq<char>),
}

impl View for ConfigError {
    type V = ConfigErrorView;

    open spec fn view(&self) -> ConfigErrorView {
        match self {
            ConfigError::ReadFailed(m) => ConfigErrorView::ReadFailed(m@),
            ConfigError::Syntax(m) => ConfigErrorView::Syntax(m@),
            ConfigError::UnknownField(k) => ConfigErrorView::UnknownField(k@),
            ConfigError::LanguageWrongType => ConfigErrorView::LanguageWrongType,
            ConfigError::LanguageTableMalformed => ConfigErrorView::LanguageTableMalformed,
            ConfigError::UnknownLanguage(t) => ConfigErrorView::UnknownLanguage(t@),
            ConfigError::MissingLanguage => ConfigErrorView::MissingLanguage,
            ConfigError::SerializeFailed(m) => ConfigErrorView::SerializeFailed(m@),
        }
    }
}

impl ConfigErrorView {
    /// The message shown to the user for this error.
    pub open spec fn message(self) -> Seq<char> {
        match self {
            ConfigErrorView::ReadFailed(m) => m,
            ConfigErrorView::Syntax(m) => m,
            ConfigErrorView::UnknownField(k) => "unknown field `"@ + k + "`"@,
            ConfigErrorView::LanguageWrongType => "LANGUAGE must be a string or a table"@,
            ConfigErrorView::LanguageTableMalformed => "LANGUAGE table must hold one language with an empty value"@,
            ConfigErrorView::UnknownLanguage(t) => "unknown language `"@ + t + "`"@,
            ConfigErrorView::MissingLanguage => "missing field `LANGUAGE`"@,
            ConfigErrorView::SerializeFailed(m) => m,
        }
    }
}

impl ConfigError {
    /// The message shown to the user for this error: the reason given by the
    /// reader or writer, or a sentence naming the offending key or value.
    pub fn message(&self) -> (result: String)
        ensures
            result@ == self@.message(),
    {
        match self {
            ConfigError::ReadFailed(m) => m.clone(),
            ConfigError::Syntax(m) => m.clone(),
            ConfigError::UnknownField(k) => quoted("unknown field `", k),
            ConfigError::LanguageWrongType => "LANGUAGE must be a string or a table".to_owned(),
            ConfigError::LanguageTableMalformed => "LANGUAGE table must hold one language with an empty value".to_owned(),
            ConfigError::UnknownLanguage(t) => quoted("unknown language `", t),
            ConfigError::MissingLanguage => "missing field `LANGUAGE`".to_owned(),
            ConfigError::SerializeFailed(m) => m.clone(),
        }
    }
}

/// `prefix`, then `name`, then a closing backquote.
fn quoted(prefix: &str, name: &String) -> (result: String)
    ensures
        result@ == prefix@ + name@ + "`"@,
{
    let mut result = prefix.to_owned();
    append_str(&mut result, name.as_str());
    append_str(&mut result, "`");
    result
}

// ---------------------------------------------------------------------------
// Reading a TOML document
// ---------------------------------------------------------------------------

/// The value of a top-level entry of a TOML document, as far as the
/// configuration reads it.
#[derive(Debug, Clone, PartialEq, Eq)]
pub enum TomlValue {
    /// A string, with its text.
    Text(String),
    /// A table: the key of each of its entries, with the number of elements
    /// of the entry's value where that value is a table or an array.
    Table(Vec<(String, Option<usize>)>),
    /// An integer, float, boolean, date-time or array.
    Other,
}

/// [`TomlValue`] as plain values.
pub enum ValueView {
    Text(Seq<char>),
    Table(Seq<(Seq<char>, Option<usize>)>),
    Other,
}

impl View for TomlValue {
    type V = ValueView;

    open spec fn view(&self) -> ValueView {
        match self {
            TomlValue::Text(t) => ValueView::Text(t@),
            TomlValue::Table(entries) => ValueView::Table(
                entries@.map_values(|e: (String, Option<usize>)| (e.0@, e.1)),
            ),
            TomlValue::Other => ValueView::Other,
        }
    }
}

/// One top-level entry of a TOML document: its key and its value.
#[derive(Debug, Clone, PartialEq, Eq)]
pub struct TomlEntry {
    pub key: String,
    pub value: TomlValue,
}

/// A document entry as plain values.
pub type EntryView = (Seq<char>, ValueView);

impl View for TomlEntry {
    type V = EntryView;

    open spec fn view(&self) -> EntryView {
        (self.key@, self.value@)
    }
}

/// The entries of a list of [`TomlEntry`] as plain values.
pub open spec fn entries_view(entries: Seq<TomlEntry>) -> Seq<EntryView> {
    entries.map_values(|e: TomlEntry| e@)
}

/// What the `toml` crate reads from `text` as a table: its top-level entries
/// (key and value as [`ValueView`]), or the message of its error.
pub uninterp spec fn toml_document(text: Seq<char>) -> Result<Seq<EntryView>, Seq<char>>;

/// Parses `text` with `toml` as a `toml::Table` and lists its top-level
/// entries as [`TomlValue`]s. The result is named by [`toml_document`]: the
/// same text gives the same entries or message.
#[verifier::external_body]
fn read_toml_document(text: &str) -> (result: Result<Vec<TomlEntry>, String>)
    ensures
        match result {
            Ok(entries) => toml_document(text@) == Ok::<Seq<EntryView>, Seq<char>>(entries_view(entries@)),
            Err(message) => toml_document(text@) == Err::<Seq<EntryView>, Seq<char>>(message@),
        },
{
    let size = |v: &toml::Value| v.as_table().map(|t| t.len()).or(v.as_array().map(|a| a.len()));
    match text.parse::<toml::Table>() {
        Ok(table) => Ok(table.iter().map(|(key, value)| TomlEntry { key: key.clone(), value: match value {
            toml::Value::String(s) => TomlValue::Text(s.clone()),
            toml::Value::Table(t) => TomlValue::Table(t.iter().map(|(k, v)| (k.clone(), size(v))).collect()),
            _ => TomlValue::Other,
        } }).collect()),
        Err(error) => Err(error.to_string()),
    }
}

/// The language that the value of `LANGUAGE` selects, read as an enum is
/// read from TOML: either a locale string, or a table of exactly one entry
/// whose key is the locale string and whose value is an empty table or an
/// empty array.
pub open spec fn language_value(value: ValueView) -> Result<AppLanguage, ConfigErrorView> {
    match value {
        ValueView::Text(t) => match language_for_locale(t) {
            Some(language) => Ok(language),
            None => Err(ConfigErrorView::UnknownLanguage(t)),
        },
        ValueView::Table(entries) => if entries.len() != 1 {
            Err(ConfigErrorView::LanguageTableMalformed)
        } else {
            match language_for_locale(entries[0].0) {
                None => Err(ConfigErrorView::UnknownLanguage(entries[0].0)),
                Some(language) => if entries[0].1 == Some(0usize) {
                    Ok(language)
                } else {
                    Err(ConfigErrorView::LanguageTableMalformed)
                },
            }
        },
        ValueView::Other => Err(ConfigErrorView::LanguageWrongType),
    }
}

/// What is wrong with one entry of a configuration document, if anything.
pub open spec fn entry_problem(entry: EntryView) -> Option<ConfigErrorView> {
    if entry.0 != "LANGUAGE"@ {
        Some(ConfigErrorView::UnknownField(entry.0))
    } else {
        match language_value(entry.1) {
            Err(p) => Some(p),
            Ok(_) => None,
        }
    }
}

/// The problem of the first entry that has one.
pub open spec fn first_problem(entries: Seq<EntryView>) -> Option<ConfigErrorView>
    decreases entries.len(),
{
    if entries.len() == 0 {
        None
    } else {
        match entry_problem(entries[0]) {
            Some(p) => Some(p),
            None => first_problem(entries.drop_first()),
        }
    }
}

/// The configuration that a document's entries describe: every key must be
/// `LANGUAGE` with a value that selects a supported language, and the key
/// must be present.
pub open spec fn config_from_entries(entries: Seq<EntryView>) -> Result<AppConfig, ConfigErrorView> {
    match first_problem(entries) {
        Some(p) => Err(p),
        None => if entries.len() == 0 {
            Err(ConfigErrorView::MissingLanguage)
        } else {
            match language_value(entries[0].1) {
                Ok(language) => Ok(AppConfig { language }),
                Err(p) => Err(p),
            }
        },
    }
}

/// The configuration that a TOML text describes.
pub open spec fn config_from_document(text: Seq<char>) -> Result<AppConfig, ConfigErrorView> {
    match toml_document(text) {
        Err(message) => Err(ConfigErrorView::Syntax(message)),
        Ok(entries) => config_from_entries(entries),
    }
}

/// Whether an exec result matches a result over views.
pub open spec fn config_result_matches(
    result: Result<AppConfig, ConfigError>,
    expected: Result<AppConfig, ConfigErrorView>,
) -> bool {
    match result {
        Ok(c) => expected == Ok::<AppConfig, ConfigErrorView>(c),
        Err(e) => expected == Err::<AppConfig, ConfigErrorView>(e@),
    }
}

proof fn lemma_first_problem_skip(entries: Seq<EntryView>, i: int)
    requires
        0 <= i <= entries.len(),
        forall|j: int| 0 <= j < i ==> entry_problem(#[trigger] entries[j]) is None,
    ensures
        first_problem(entries) == first_problem(entries.skip(i)),
    decreases i,
{
    if i > 0 {
        let rest = entries.drop_first();
        assert forall|j: int| 0 <= j < i - 1 implies entry_problem(#[trigger] rest[j]) is None by {
            assert(rest[j] == entries[j + 1]);
        }
        lemma_first_problem_skip(rest, i - 1);
        assert(rest.skip(i - 1) =~= entries.skip(i));
        assert(entry_problem(entries[0]) is None);
    } else {
        assert(entries.skip(0) =~= entries);
    }
}

/// The language that a `LANGUAGE` value selects, or why it selects none.
pub fn language_of_value(value: &TomlValue) -> (result: Result<AppLanguage, ConfigError>)
    ensures
        match result {
            Ok(language) => language_value(value@) == Ok::<AppLanguage, ConfigErrorView>(language),
            Err(e) => language_value(value@) == Err::<AppLanguage, ConfigErrorView>(e@),
        },
{
    match value {
        TomlValue::Text(t) => match AppLanguage::from_locale_str(t.as_str()) {
            Some(language) => Ok(language),
            None => Err(ConfigError::UnknownLanguage(t.clone())),
        },
        TomlValue::Table(entries) => {
            if entries.len() != 1 {
                return Err(ConfigError::LanguageTableMalformed);
            }
            let (name, size) = &entries[0];
            match AppLanguage::from_locale_str(name.as_str()) {
                None => Err(ConfigError::UnknownLanguage(name.clone())),
                Some(language) => match size {
                    Some(n) => if *n == 0 {
                        Ok(language)
                    } else {
                        Err(ConfigError::LanguageTableMalformed)
                    },
                    None => Err(ConfigError::LanguageTableMalformed),
                },
            }
        },
        TomlValue::Other => Err(ConfigError::LanguageWrongType),
    }
}

/// Checks the entries of a configuration document and builds the
/// configuration they describe.
pub fn config_from_toml_entries(entries: &Vec<TomlEntry>) -> (result: Result<AppConfig, ConfigError>)
    ensures
        config_result_matches(result, config_from_entries(entries_view(entries@))),
{
    let ghost ev = entries_view(entries@);
    let language_key = "LANGUAGE".to_owned();
    let mut i: usize = 0;
    while i < entries.len()
        invariant
            i <= entries.len(),
            ev == entries_view(entries@),
            language_key@ == "LANGUAGE"@,
            forall|j: int| 0 <= j < i ==> entry_problem(#[trigger] ev[j]) is None,
        decreases entries.len() - i,
    {
        let entry = &entries[i];
        assert(ev[i as int] == entry@);
        proof {
            lemma_first_problem_skip(ev, i as int);
            assert(ev.skip(i as int)[0] == ev[i as int]);
        }
        if entry.key != language_key {
            return Err(ConfigError::UnknownField(entry.key.clone()));
        }
        if let Err(problem) = language_of_value(&entry.value) {
            return Err(problem);
        }
        i = i + 1;
    }
    proof {
        lemma_first_problem_skip(ev, entries.len() as int);
    }
    if entries.len() == 0 {
        return Err(ConfigError::MissingLanguage);
    }
    assert(ev[0] == entries[0]@);
    match language_of_value(&entries[0].value) {
        Ok(language) => Ok(AppConfig { language }),
        Err(problem) => Err(problem),
    }
}

// ---------------------------------------------------------------------------
// Writing a TOML document
// ---------------------------------------------------------------------------

/// Key/value pairs of strings as plain values.
pub open spec fn pairs_view(pairs: Seq<(String, String)>) -> Seq<(Seq<char>, Seq<char>)> {
    pairs.map_values(|p: (String, String)| (p.0@, p.1@))
}

/// What the `toml` crate renders, with `toml::to_string_pretty`, for a table
/// whose entries are the given string keys and string values; or the message
/// of its error.
pub uninterp spec fn toml_table_text(pairs: Seq<(Seq<char>, Seq<char>)>) -> Result<Seq<char>, Seq<char>>;

/// Whether `s` is a non-empty run of ASCII letters, digits, `-` and `_`: a
/// TOML bare key, which `toml` also writes as a string without escapes.
pub open spec fn is_bare_text(s: Seq<char>) -> bool {
    &&& s.len() > 0
    &&& forall|i: int|
        0 <= i < s.len() ==> {
            let c = #[trigger] s[i] as int;
            (97 <= c <= 122) || (65 <= c <= 90) || (48 <= c <= 57) || c == 45 || c == 95
        }
}

/// Builds a `toml::Table` of string values from `pairs` and renders it with
/// `toml::to_string_pretty`. The result is named by [`toml_table_text`].
/// Besides, a table of one entry whose key and value are bare text is
/// written as `KEY = "value"`, which the `toml` reader (the one named by
/// [`toml_document`]) reads back as that one entry with its string value.
#[verifier::external_body]
fn render_toml_table(pairs: &Vec<(String, String)>) -> (result: Result<String, String>)
    ensures
        match result {
            Ok(text) => {
                &&& toml_table_text(pairs_view(pairs@)) == Ok::<Seq<char>, Seq<char>>(text@)
                &&& pairs@.len() == 1 && is_bare_text(pairs@[0].0@) && is_bare_text(pairs@[0].1@) ==> toml_document(
                    text@,
                ) == Ok::<Seq<EntryView>, Seq<char>>(written_entries(pairs_view(pairs@)))
            },
            Err(message) => toml_table_text(pairs_view(pairs@)) == Err::<Seq<char>, Seq<char>>(message@),
        },
{
    let mut table = toml::Table::new();
    for (key, value) in pairs {
        table.insert(key.clone(), toml::Value::String(value.clone()));
    }
    toml::to_string_pretty(&table).map_err(|error| error.to_string())
}

/// The entries that a configuration is written as.
pub open spec fn config_pairs(config: AppConfig) -> Seq<(Seq<char>, Seq<char>)> {
    seq![("LANGUAGE"@, config.language.locale())]
}

/// Entries written with string values, as a document reads them back.
pub open spec fn written_entries(pairs: Seq<(Seq<char>, Seq<char>)>) -> Seq<EntryView> {
    pairs.map_values(|p: (Seq<char>, Seq<char>)| (p.0, ValueView::Text(p.1)))
}

/// A configuration written as its entries reads back as the same
/// configuration.
pub proof fn lemma_config_entries_round_trip(config: AppConfig)
    ensures
        config_from_entries(written_entries(config_pairs(config))) == Ok::<AppConfig, ConfigErrorView>(config),
{
    let entries = written_entries(config_pairs(config));
    lemma_locale_round_trip(config.language);
    assert(entries[0] == ("LANGUAGE"@, ValueView::Text(config.language.locale())));
    assert(entry_problem(entries[0]) is None);
    assert(entries.drop_first().len() == 0);
    assert(first_problem(entries.drop_first()) is None);
    assert(first_problem(entries) is None);
    assert(language_value(entries[0].1) == Ok::<AppLanguage, ConfigErrorView>(config.language));
}

/// The key and the value that a configuration is written as are bare text.
proof fn lemma_config_pairs_bare(config: AppConfig)
    ensures
        is_bare_text(config_pairs(config)[0].0),
        is_bare_text(config_pairs(config)[0].1),
{
    reveal_strlit("LANGUAGE");
    reveal_strlit("zh-CN");
    reveal_strlit("en-US");
    assert(is_bare_text("LANGUAGE"@));
    assert(is_bare_text("zh-CN"@));
    assert(is_bare_text("en-US"@));
}

impl AppConfig {
    /// Parses a TOML text into a configuration.
    pub fn parse_config(toml_content: &str) -> (result: Result<AppConfig, ConfigError>)
        ensures
            config_result_matches(result, config_from_document(toml_content@)),
    {
        match read_toml_document(toml_content) {
            Ok(entries) => config_from_toml_entries(&entries),
            Err(message) => Err(ConfigError::Syntax(message)),
        }
    }

    /// Renders this configuration as a TOML text, which reads back as the
    /// same configuration.
    pub fn to_toml_string(&self) -> (result: Result<String, ConfigError>)
        ensures
            match result {
                Ok(text) => toml_table_text(config_pairs(*self)) == Ok::<Seq<char>, Seq<char>>(text@),
                Err(e) => exists|m: Seq<char>|
                    toml_table_text(config_pairs(*self)) == Err::<Seq<char>, Seq<char>>(m)
                        && e@ == ConfigErrorView::SerializeFailed(m),
            },
            result matches Ok(text) ==> config_from_document(text@) == Ok::<AppConfig, ConfigErrorView>(*self),
    {
        let mut pairs: Vec<(String, String)> = Vec::new();
        pairs.push(("LANGUAGE".to_owned(), self.language.as_locale_str().to_owned()));
        assert(pairs_view(pairs@) =~= config_pairs(*self));
        proof {
            lemma_config_pairs_bare(*self);
            lemma_config_entries_round_trip(*self);
        }
        match render_toml_table(&pairs) {
            Ok(text) => Ok(text),
            Err(message) => Err(ConfigError::SerializeFailed(message)),
        }
    }
}

// ---------------------------------------------------------------------------
// Loading
// ---------------------------------------------------------------------------

/// What was found where the configuration file should be.
#[derive(Debug, Clone, PartialEq, Eq)]
pub enum ConfigSource {
    /// No configuration directory could be determined.
    NoConfigDirectory,
    /// The configuration file does not exist.
    FileMissing,
    /// The file exists but reading it failed; the message says why.
    ReadFailed(String),
    /// The file's contents.
    Contents(String),
}

/// The outcome of attempting to read and parse the configuration file.
#[derive(Debug, Clone, PartialEq, Eq)]
pub enum ConfigLoadResult {
    /// The file was found and parsed successfully.
    Loaded(AppConfig),
    /// The file does not exist; a default configuration should be created.
    NotFound(AppConfig),
    /// The file exists but could not be read or parsed.
    ParseFailed(ConfigError),
}

/// What loading the configuration decides, once the file has been looked at:
/// the configuration to use, an error to show the user, and whether the
/// configuration must be written back (a failed write is fatal).
#[derive(Debug, Clone, PartialEq, Eq)]
pub struct ConfigLoadPlan {
    pub config: AppConfig,
    pub error_to_report: Option<ConfigError>,
    pub save_config: bool,
}

impl AppConfig {
    /// Turns what was found at the configuration path into a load outcome:
    /// a missing directory or file gives the default configuration, a read
    /// failure or an invalid document gives the error, and a valid document
    /// gives its configuration.
    pub fn load_config_content(source: ConfigSource) -> (result: ConfigLoadResult)
        ensures
            match source {
                ConfigSource::NoConfigDirectory => result == ConfigLoadResult::NotFound(default_config()),
                ConfigSource::FileMissing => result == ConfigLoadResult::NotFound(default_config()),
                ConfigSource::ReadFailed(message) => result == ConfigLoadResult::ParseFailed(
                    ConfigError::ReadFailed(message),
                ),
                ConfigSource::Contents(text) => match config_from_document(text@) {
                    Ok(config) => result == ConfigLoadResult::Loaded(config),
                    Err(error) => result matches ConfigLoadResult::ParseFailed(e) && e@ == error,
                },
            },
    {
        match source {
            ConfigSource::NoConfigDirectory => ConfigLoadResult::NotFound(AppConfig::default()),
            ConfigSource::FileMissing => ConfigLoadResult::NotFound(AppConfig::default()),
            ConfigSource::ReadFailed(message) => ConfigLoadResult::ParseFailed(ConfigError::ReadFailed(message)),
            ConfigSource::Contents(text) => match AppConfig::parse_config(text.as_str()) {
                Ok(config) => ConfigLoadResult::Loaded(config),
                Err(error) => ConfigLoadResult::ParseFailed(error),
            },
        }
    }

    /// Decides how to proceed from a load outcome: a loaded configuration is
    /// used as it is; a missing one is replaced by the given default, which
    /// is written; a corrupt one is reported, and the default configuration
    /// is used and written over it.
    pub fn load(outcome: ConfigLoadResult) -> (plan: ConfigLoadPlan)
        ensures
            match outcome {
                ConfigLoadResult::Loaded(config) => plan == (ConfigLoadPlan {
                    config,
                    error_to_report: None,
                    save_config: false,
                }),
                ConfigLoadResult::NotFound(config) => plan == (ConfigLoadPlan {
                    config,
                    error_to_report: None,
                    save_config: true,
                }),
                ConfigLoadResult::ParseFailed(error) => plan == (ConfigLoadPlan {
                    config: default_config(),
                    error_to_report: Some(error),
                    save_config: true,
                }),
            },
    {
        match outcome {
            ConfigLoadResult::Loaded(config) => ConfigLoadPlan { config, error_to_report: None, save_config: false },
            ConfigLoadResult::NotFound(config) => ConfigLoadPlan { config, error_to_report: None, save_config: true },
            ConfigLoadResult::ParseFailed(error) => ConfigLoadPlan {
                config: AppConfig::default(),
                error_to_report: Some(error),
                save_config: true,
            },
        }
    }

    /// The configuration with its language replaced, as a language change
    /// stores it.
    pub fn with_language(self, language: AppLanguage) -> (result: AppConfig)
        ensures
            result == (AppConfig { language }),
    {
        AppConfig { language, ..self }
    }
}

} // verus!
