use vstd::prelude::*;
use vstd::string::*;

use crate::error::ConfigError;
use crate::log::LogLevel;
use crate::text::is_prefix;

verus! {

/// Options for path-based configuration values that can be accessed and modified.
#[derive(Debug, Clone, Copy, PartialEq, Eq, Structural)]
pub enum PathOpt {
    /// Directory where log files are stored
    LogDir,
}

/// Options for numeric configuration values that can be accessed and modified.
#[derive(Debug, Clone, Copy, PartialEq, Eq, Structural)]
pub enum USizeOpt {
    /// Maximum age of log files in days before they are deleted
    MaxAge,
    /// Timeout for network requests in seconds
    Timeout,
}


/// The configuration data structure that holds all configurable values:
/// the log directory, the log level, the maximum age of log files in days
/// and the timeout of network requests in seconds.
#[derive(Debug, Clone)]
pub struct Data {
    /// Directory where log files are stored
    log_dir: String,
    /// Current log level
    log_level: LogLevel,
    /// Maximum age of log files in days before they are deleted
    max_age: usize,
    /// Timeout for network requests in seconds
    timeout: usize,
}

impl Data {
    /// The path stored under a path option.
    pub closed spec fn path_of(self, opt: PathOpt) -> Seq<char> {
        match opt {
            PathOpt::LogDir => self.log_dir@,
        }
    }

    /// The stored log level.
    pub closed spec fn level_of(self) -> LogLevel {
        self.log_level
    }

    /// The number stored under a numeric option.
    pub closed spec fn usize_of(self, opt: USizeOpt) -> usize {
        match opt {
            USizeOpt::MaxAge => self.max_age,
            USizeOpt::Timeout => self.timeout,
        }
    }

    /// Whether two configurations hold the same values under every option.
    pub open spec fn same_values(self, other: Data) -> bool {
        &&& forall|o: PathOpt| #[trigger] self.path_of(o) == other.path_of(o)
        &&& self.level_of() == other.level_of()
        &&& forall|o: USizeOpt| #[trigger] self.usize_of(o) == other.usize_of(o)
    }

    /// The configuration with `path` stored under `opt` and every other value kept.
    pub open spec fn path_written(self, opt: PathOpt, path: Seq<char>, after: Data) -> bool {
        &&& forall|o: PathOpt| #[trigger] after.path_of(o) == if o == opt {
            path
        } else {
            self.path_of(o)
        }
        &&& after.level_of() == self.level_of()
        &&& forall|o: USizeOpt| #[trigger] after.usize_of(o) == self.usize_of(o)
    }

    /// The configuration with `level` stored and every other value kept.
    pub open spec fn level_written(self, level: LogLevel, after: Data) -> bool {
        &&& forall|o: PathOpt| #[trigger] after.path_of(o) == self.path_of(o)
        &&& after.level_of() == level
        &&& forall|o: USizeOpt| #[trigger] after.usize_of(o) == self.usize_of(o)
    }

    /// The configuration with `value` stored under `opt` and every other value kept.
    pub open spec fn usize_written(self, opt: USizeOpt, value: usize, after: Data) -> bool {
        &&& forall|o: PathOpt| #[trigger] after.path_of(o) == self.path_of(o)
        &&& after.level_of() == self.level_of()
        &&& forall|o: USizeOpt| #[trigger] after.usize_of(o) == if o == opt {
            value
        } else {
            self.usize_of(o)
        }
    }

    /// Gets a path-based configuration value.
    pub fn path(&self, opt: PathOpt) -> (r: String)
        ensures
            r@ == self.path_of(opt),
    {
        match opt {
            PathOpt::LogDir => self.log_dir.clone(),
        }
    }

    /// Sets a path-based configuration value.
    pub fn set_path(&mut self, opt: PathOpt, path: String)
        ensures
            old(self).path_written(opt, path@, *final(self)),
    {
        match opt {
            PathOpt::LogDir => self.log_dir = path,
        }
    }

    /// Gets the current log level.
    pub fn log_level(&self) -> (r: LogLevel)
        ensures
            r == self.level_of(),
    {
        self.log_level
    }

    /// Sets the log level.
    pub fn set_log_level(&mut self, level: LogLevel)
        ensures
            old(self).level_written(level, *final(self)),
    {
        self.log_level = level;
    }

    /// Gets a numeric configuration value.
    pub fn usize(&self, opt: USizeOpt) -> (r: usize)
        ensures
            r == self.usize_of(opt),
    {
        match opt {
            USizeOpt::MaxAge => self.max_age,
            USizeOpt::Timeout => self.timeout,
        }
    }

    /// Sets a numeric configuration value.
    pub fn set_usize(&mut self, opt: USizeOpt, value: usize)
        ensures
            old(self).usize_written(opt, value, *final(self)),
    {
        match opt {
            USizeOpt::MaxAge => self.max_age = value,
            USizeOpt::Timeout => self.timeout = value,
        }
    }

    /// Builds a configuration from its values.
    pub fn from_values(log_dir: String, log_level: LogLevel, max_age: usize, timeout: usize) -> (r: Data)
        ensures
            r.path_of(PathOpt::LogDir) == log_dir@,
            r.level_of() == log_level,
            r.usize_of(USizeOpt::MaxAge) == max_age,
            r.usize_of(USizeOpt::Timeout) == timeout,
    {
        Data { log_dir, log_level, max_age, timeout }
    }
}

impl Default for Data {
    /// The default configuration: logs under `/tmp/patch-hub/logs`, level
    /// `Warning`, no age limit for log files (0) and a 30 second timeout.
    fn default() -> (r: Data)
        ensures
            r.path_of(PathOpt::LogDir) == "/tmp/patch-hub/logs"@,
            r.level_of() == LogLevel::Warning,
            r.usize_of(USizeOpt::MaxAge) == 0,
            r.usize_of(USizeOpt::Timeout) == 30,
    {
        Data {
            log_dir: String::from_str("/tmp/patch-hub/logs"),
            log_level: LogLevel::Warning,
            max_age: 0,
            timeout: 30,
        }
    }
}

/// Law: a read gives back the last value written under the same option, and
/// a write leaves every other option as it was.
pub proof fn law_read_after_write_usize(d: Data, opt: USizeOpt, value: usize, after: Data, other: USizeOpt)
    requires
        d.usize_written(opt, value, after),
    ensures
        after.usize_of(opt) == value,
        other != opt ==> after.usize_of(other) == d.usize_of(other),
        after.level_of() == d.level_of(),
        after.path_of(PathOpt::LogDir) == d.path_of(PathOpt::LogDir),
{
}

/// Law: a read of a path gives back the path last written under it.
pub proof fn law_read_after_write_path(d: Data, opt: PathOpt, path: Seq<char>, after: Data)
    requires
        d.path_written(opt, path, after),
    ensures
        after.path_of(opt) == path,
        after.level_of() == d.level_of(),
        forall|o: USizeOpt| #[trigger] after.usize_of(o) == d.usize_of(o),
{
}

/// Law: a read of the level gives back the level last written.
pub proof fn law_read_after_write_level(d: Data, level: LogLevel, after: Data)
    requires
        d.level_written(level, after),
    ensures
        after.level_of() == level,
        forall|o: PathOpt| #[trigger] after.path_of(o) == d.path_of(o),
        forall|o: USizeOpt| #[trigger] after.usize_of(o) == d.usize_of(o),
{
}

/// Law: of two writes under the same numeric option, the second one wins.
pub proof fn law_last_write_wins_usize(
    d: Data,
    opt: USizeOpt,
    v1: usize,
    mid: Data,
    v2: usize,
    after: Data,
)
    requires
        d.usize_written(opt, v1, mid),
        mid.usize_written(opt, v2, after),
    ensures
        d.usize_written(opt, v2, after),
{
}

/// Law: writes under two different numeric options give the same values in
/// either order.
pub proof fn law_writes_commute_usize(
    d: Data,
    a: USizeOpt,
    va: usize,
    b: USizeOpt,
    vb: usize,
    d_a: Data,
    d_ab: Data,
    d_b: Data,
    d_ba: Data,
)
    requires
        a != b,
        d.usize_written(a, va, d_a),
        d_a.usize_written(b, vb, d_ab),
        d.usize_written(b, vb, d_b),
        d_b.usize_written(a, va, d_ba),
    ensures
        d_ab.same_values(d_ba),
{
}

/// Law: writing back the value that an option already holds changes nothing.
pub proof fn law_write_same_value_usize(d: Data, opt: USizeOpt, after: Data)
    requires
        d.usize_written(opt, d.usize_of(opt), after),
    ensures
        d.same_values(after),
{
}

/// A scalar value of a top-level TOML key, as far as the configuration reads it.
#[derive(Debug, Clone, PartialEq, Eq)]
pub enum TomlScalar {
    /// A string
    Str(String),
    /// An integer
    Int(i64),
    /// Any other kind of value (a float, a boolean, a date, an array, a table)
    Other,
}

/// A scalar value, with its string taken by its characters.
pub enum TomlScalarView {
    /// A string
    Str(Seq<char>),
    /// An integer
    Int(i64),
    /// Any other kind of value
    Other,
}

/// The characters of a scalar value.
pub open spec fn scalar_view(v: TomlScalar) -> TomlScalarView {
    match v {
        TomlScalar::Str(s) => TomlScalarView::Str(s@),
        TomlScalar::Int(i) => TomlScalarView::Int(i),
        TomlScalar::Other => TomlScalarView::Other,
    }
}

/// A value written under a top-level TOML key.
#[derive(Debug, Clone, PartialEq, Eq)]
pub enum TomlValue {
    /// A string
    Str(String),
    /// An integer
    Int(i64),
}

/// The characters of a value that is written.
pub open spec fn value_view(v: TomlValue) -> TomlScalarView {
    match v {
        TomlValue::Str(s) => TomlScalarView::Str(s@),
        TomlValue::Int(i) => TomlScalarView::Int(i),
    }
}

/// The characters of a list of top-level keys and the values written under them.
pub open spec fn written_view(e: Seq<(String, TomlValue)>) -> Seq<(Seq<char>, TomlScalarView)> {
    e.map_values(|p: (String, TomlValue)| (p.0@, value_view(p.1)))
}

/// The characters of a list of top-level keys and their values.
pub open spec fn entries_view(e: Seq<(String, TomlScalar)>) -> Seq<(Seq<char>, TomlScalarView)> {
    e.map_values(|p: (String, TomlScalar)| (p.0@, scalar_view(p.1)))
}

/// What `toml::to_string_pretty` produces for a table of these top-level
/// keys and values: the text, or nothing when it fails.
pub uninterp spec fn toml_text_of(entries: Seq<(Seq<char>, TomlScalarView)>) -> Option<Seq<char>>;

/// What `toml::from_str` reads from a text as a table: its top-level keys
/// with their values, or nothing when the text is not valid TOML.
pub uninterp spec fn toml_table_of(text: Seq<char>) -> Option<Seq<(Seq<char>, TomlScalarView)>>;

/// Whether keys are in strictly increasing order (the order in which
/// `toml::Table` keeps them).
pub open spec fn keys_increasing(e: Seq<(Seq<char>, TomlScalarView)>) -> bool {
    forall|i: int, j: int| 0 <= i < j < e.len() ==> crate::text::seq_lt(#[trigger] e[i].0, #[trigger] e[j].0)
}

/// Builds a `toml::Table` of the entries and calls `toml::to_string_pretty`
/// on it; the text depends on the entries alone. A table of strings and
/// integers under keys in the table's order is written so that
/// `toml::from_str` reads the same table back: `toml_writer` writes each key
/// and string in one of the TOML string forms, escaping what the chosen form
/// cannot hold as the TOML grammar prescribes (`string.rs`), and integers in
/// decimal (`value.rs`); the parser decodes those forms to the same text and
/// numbers.
#[verifier::external_body]
fn toml_to_text(entries: &Vec<(String, TomlValue)>) -> (r: Result<String, String>)
    ensures
        match r {
            Ok(t) => toml_text_of(written_view(entries@)) == Some(t@),
            Err(_) => toml_text_of(written_view(entries@)) is None,
        },
        r matches Ok(t) ==> (keys_increasing(written_view(entries@)) ==> toml_table_of(t@) == Some(
            written_view(entries@),
        )),
{
    let mut table = toml::Table::new();
    for (k, v) in entries.iter() {
        let value = match v {
            TomlValue::Str(s) => toml::Value::String(s.clone()),
            TomlValue::Int(i) => toml::Value::Integer(*i),
        };
        table.insert(k.clone(), value);
    }
    toml::to_string_pretty(&table).map_err(|e| e.to_string())
}

/// Calls `toml::from_str` for a `toml::Table` and lists its top-level keys
/// with their values; the result depends on the text alone.
#[verifier::external_body]
fn toml_from_text(text: &str) -> (r: Result<Vec<(String, TomlScalar)>, String>)
    ensures
        match r {
            Ok(e) => toml_table_of(text@) == Some(entries_view(e@)),
            Err(_) => toml_table_of(text@) is None,
        },
{
    let table = toml::from_str::<toml::Table>(text).map_err(|e| e.to_string())?;
    Ok(table.into_iter().map(|(k, v)| (k, match v {
        toml::Value::String(s) => TomlScalar::Str(s),
        toml::Value::Integer(i) => TomlScalar::Int(i),
        toml::Value::Float(_) => TomlScalar::Other,
        toml::Value::Boolean(_) => TomlScalar::Other,
        toml::Value::Datetime(_) => TomlScalar::Other,
        toml::Value::Array(_) => TomlScalar::Other,
        toml::Value::Table(_) => TomlScalar::Other,
    })).collect())
}

/// The name under which a level is stored in the configuration file.
pub open spec fn level_name(level: LogLevel) -> Seq<char> {
    match level {
        LogLevel::Info => "Info"@,
        LogLevel::Warning => "Warning"@,
        LogLevel::Error => "Error"@,
    }
}

/// The level stored under a name, if the name is one.
pub open spec fn level_of_name(name: Seq<char>) -> Option<LogLevel> {
    if name == "Info"@ {
        Some(LogLevel::Info)
    } else if name == "Warning"@ {
        Some(LogLevel::Warning)
    } else if name == "Error"@ {
        Some(LogLevel::Error)
    } else {
        None
    }
}

/// The entries that a configuration is written as.
pub open spec fn config_entries(d: Data) -> Seq<(Seq<char>, TomlScalarView)> {
    seq![
        ("log_dir"@, TomlScalarView::Str(d.path_of(PathOpt::LogDir))),
        ("log_level"@, TomlScalarView::Str(level_name(d.level_of()))),
        ("max_age"@, TomlScalarView::Int(d.usize_of(USizeOpt::MaxAge) as i64)),
        ("timeout"@, TomlScalarView::Int(d.usize_of(USizeOpt::Timeout) as i64)),
    ]
}

/// The value of the first entry under `key`, if there is one.
pub open spec fn lookup(entries: Seq<(Seq<char>, TomlScalarView)>, key: Seq<char>) -> Option<TomlScalarView>
    decreases entries.len(),
{
    if entries.len() == 0 {
        None
    } else if entries[0].0 == key {
        Some(entries[0].1)
    } else {
        lookup(entries.drop_first(), key)
    }
}

/// The string under `key`, if the entry is one.
pub open spec fn string_field(entries: Seq<(Seq<char>, TomlScalarView)>, key: Seq<char>) -> Option<Seq<char>> {
    match lookup(entries, key) {
        Some(TomlScalarView::Str(s)) => Some(s),
        _ => None,
    }
}

/// The number under `key`, if the entry is a non-negative integer that fits
/// in a `usize`.
pub open spec fn usize_field(entries: Seq<(Seq<char>, TomlScalarView)>, key: Seq<char>) -> Option<usize> {
    match lookup(entries, key) {
        Some(TomlScalarView::Int(i)) => if 0 <= i <= usize::MAX {
            Some(i as usize)
        } else {
            None
        },
        _ => None,
    }
}

/// Whether entries describe a configuration: every key is there with a
/// value of its type.
pub open spec fn decodes(entries: Seq<(Seq<char>, TomlScalarView)>) -> bool {
    &&& string_field(entries, "log_dir"@) is Some
    &&& string_field(entries, "log_level"@) matches Some(n) && level_of_name(n) is Some
    &&& usize_field(entries, "max_age"@) is Some
    &&& usize_field(entries, "timeout"@) is Some
}

/// Whether a configuration holds the values that the entries give.
pub open spec fn decoded_as(entries: Seq<(Seq<char>, TomlScalarView)>, d: Data) -> bool {
    &&& d.path_of(PathOpt::LogDir) == string_field(entries, "log_dir"@)->Some_0
    &&& Some(d.level_of()) == level_of_name(string_field(entries, "log_level"@)->Some_0)
    &&& Some(d.usize_of(USizeOpt::MaxAge)) == usize_field(entries, "max_age"@)
    &&& Some(d.usize_of(USizeOpt::Timeout)) == usize_field(entries, "timeout"@)
}

fn find_entry<'a>(entries: &'a Vec<(String, TomlScalar)>, key: &str) -> (r: Option<&'a TomlScalar>)
    ensures
        match lookup(entries_view(entries@), key@) {
            Some(v) => r matches Some(x) && scalar_view(*x) == v,
            None => r is None,
        },
{
    let mut i: usize = 0;
    assert(entries_view(entries@).skip(0) =~= entries_view(entries@));
    while i < entries.len()
        invariant
            i <= entries@.len(),
            lookup(entries_view(entries@), key@) == lookup(
                entries_view(entries@).skip(i as int),
                key@,
            ),
        decreases entries@.len() - i,
    {
        let ghost rest = entries_view(entries@).skip(i as int);
        assert(rest[0] == (entries@[i as int].0@, scalar_view(entries@[i as int].1)));
        if crate::text::str_equals(entries[i].0.as_str(), key) {
            return Some(&entries[i].1);
        }
        assert(rest.drop_first() =~= entries_view(entries@).skip(i + 1));
        i = i + 1;
    }
    None
}

fn level_from_name(name: &str) -> (r: Option<LogLevel>)
    ensures
        r == level_of_name(name@),
{
    proof {
        reveal_strlit("Info");
        reveal_strlit("Warning");
        reveal_strlit("Error");
    }
    if crate::text::str_equals(name, "Info") {
        Some(LogLevel::Info)
    } else if crate::text::str_equals(name, "Warning") {
        Some(LogLevel::Warning)
    } else if crate::text::str_equals(name, "Error") {
        Some(LogLevel::Error)
    } else {
        None
    }
}

fn level_to_name(level: LogLevel) -> (r: String)
    ensures
        r@ == level_name(level),
{
    match level {
        LogLevel::Info => String::from_str("Info"),
        LogLevel::Warning => String::from_str("Warning"),
        LogLevel::Error => String::from_str("Error"),
    }
}

/// The error for a configuration that cannot be written as TOML: it names
/// the file and gives the reason.
pub open spec fn is_serialize_failure(e: ConfigError, path: Seq<char>) -> bool {
    e matches ConfigError::InvalidValue { key: None, message } && is_prefix(
        "Failed to serialize configuration to TOML: "@ + path + ". Error: "@,
        message@,
    )
}

/// The error for a configuration text that does not describe a configuration.
pub open spec fn is_parse_failure(e: ConfigError, path: Seq<char>) -> bool {
    e matches ConfigError::ParseFailed { key: None, message, .. } && message@
        == "Failed to parse TOML configuration file: "@ + path
}

impl Data {
    /// The entries under which the configuration is written, or nothing
    /// when a number does not fit in a TOML integer.
    pub fn toml_entries(&self) -> (r: Option<Vec<(String, TomlValue)>>)
        ensures
            self.usize_of(USizeOpt::MaxAge) <= i64::MAX && self.usize_of(USizeOpt::Timeout) <= i64::MAX ==> (r matches Some(e)
                && written_view(e@) == config_entries(*self)),
            !(self.usize_of(USizeOpt::MaxAge) <= i64::MAX && self.usize_of(USizeOpt::Timeout) <= i64::MAX) ==> r is None,
    {
        if self.max_age as u64 > 0x7fff_ffff_ffff_ffffu64 || self.timeout as u64 > 0x7fff_ffff_ffff_ffffu64 {
            return None;
        }
        let mut e: Vec<(String, TomlValue)> = Vec::new();
        e.push((String::from_str("log_dir"), TomlValue::Str(self.log_dir.clone())));
        e.push((String::from_str("log_level"), TomlValue::Str(level_to_name(self.log_level))));
        e.push((String::from_str("max_age"), TomlValue::Int(self.max_age as i64)));
        e.push((String::from_str("timeout"), TomlValue::Int(self.timeout as i64)));
        assert(written_view(e@) =~= config_entries(*self));
        Some(e)
    }

    /// The configuration that entries describe, if they describe one.
    pub fn from_toml_entries(entries: &Vec<(String, TomlScalar)>) -> (r: Option<Data>)
        ensures
            decodes(entries_view(entries@)) ==> (r matches Some(d) && decoded_as(
                entries_view(entries@),
                d,
            )),
            !decodes(entries_view(entries@)) ==> r is None,
    {
        let log_dir = match find_entry(entries, "log_dir") {
            Some(TomlScalar::Str(s)) => s.clone(),
            _ => return None,
        };
        let log_level = match find_entry(entries, "log_level") {
            Some(TomlScalar::Str(s)) => match level_from_name(s.as_str()) {
                Some(l) => l,
                None => return None,
            },
            _ => return None,
        };
        let max_age = match find_entry(entries, "max_age") {
            Some(TomlScalar::Int(i)) => if 0 <= *i && (*i as u64) <= usize::MAX as u64 {
                *i as usize
            } else {
                return None;
            },
            _ => return None,
        };
        let timeout = match find_entry(entries, "timeout") {
            Some(TomlScalar::Int(i)) => if 0 <= *i && (*i as u64) <= usize::MAX as u64 {
                *i as usize
            } else {
                return None;
            },
            _ => return None,
        };
        Some(Data { log_dir, log_level, max_age, timeout })
    }

    /// Writes the configuration as TOML text, for the file at `path` (named
    /// in the error when the configuration cannot be written).
    pub fn to_toml(&self, path: &str) -> (r: Result<String, ConfigError>)
        ensures
            self.usize_of(USizeOpt::MaxAge) <= i64::MAX && self.usize_of(USizeOpt::Timeout) <= i64::MAX ==> match toml_text_of(
                config_entries(*self),
            ) {
                Some(t) => r matches Ok(s) && s@ == t,
                None => r matches Err(e) && is_serialize_failure(e, path@),
            },
            !(self.usize_of(USizeOpt::MaxAge) <= i64::MAX && self.usize_of(USizeOpt::Timeout) <= i64::MAX) ==> (r matches Err(e)
                && is_serialize_failure(e, path@)),
            r matches Ok(s) ==> toml_table_of(s@) == Some(config_entries(*self)),
    {
        proof {
            lemma_config_entries_plain(*self);
            reveal_strlit("Failed to serialize configuration to TOML: ");
            reveal_strlit(". Error: ");
        }
        let reason = match self.toml_entries() {
            Some(entries) => match toml_to_text(&entries) {
                Ok(text) => return Ok(text),
                Err(e) => e,
            },
            None => String::from_str("a number does not fit in a TOML integer"),
        };
        let mut message = crate::text::concat3(
            "Failed to serialize configuration to TOML: ",
            path,
            ". Error: ",
        );
        message.append(reason.as_str());
        proof {
            let p = "Failed to serialize configuration to TOML: "@ + path@ + ". Error: "@;
            assert(message@ == p + reason@);
            assert(message@.subrange(0, p.len() as int) =~= p);
        }
        Err(ConfigError::InvalidValue { key: None, message })
    }

    /// Reads a configuration from the TOML text of the file at `path`.
    pub fn from_toml(path: &str, text: &str) -> (r: Result<Data, ConfigError>)
        ensures
            match toml_table_of(text@) {
                Some(entries) => if decodes(entries) {
                    r matches Ok(d) && decoded_as(entries, d)
                } else {
                    r matches Err(e) && is_parse_failure(e, path@)
                },
                None => r matches Err(e) && is_parse_failure(e, path@),
            },
    {
        let message = {
            let mut m = String::from_str("Failed to parse TOML configuration file: ");
            m.append(path);
            m
        };
        match toml_from_text(text) {
            Ok(entries) => match Data::from_toml_entries(&entries) {
                Some(d) => Ok(d),
                None => Err(
                    ConfigError::ParseFailed {
                        key: None,
                        source: String::from_str("the configuration is missing a key or has a value of the wrong type"),
                        message,
                    },
                ),
            },
            Err(e) => Err(ConfigError::ParseFailed { key: None, source: e, message }),
        }
    }
}

proof fn lemma_config_entries_plain(d: Data)
    ensures
        keys_increasing(config_entries(d)),
{
    reveal_strlit("log_dir");
    reveal_strlit("log_level");
    reveal_strlit("max_age");
    reveal_strlit("timeout");
    reveal_with_fuel(crate::text::seq_lt, 6);
    let e = config_entries(d);
    assert(crate::text::seq_lt(e[0].0, e[1].0));
    assert(crate::text::seq_lt(e[0].0, e[2].0));
    assert(crate::text::seq_lt(e[0].0, e[3].0));
    assert(crate::text::seq_lt(e[1].0, e[2].0));
    assert(crate::text::seq_lt(e[1].0, e[3].0));
    assert(crate::text::seq_lt(e[2].0, e[3].0));
}

proof fn lemma_level_name_round_trip(level: LogLevel)
    ensures
        level_of_name(level_name(level)) == Some(level),
{
    reveal_strlit("Info");
    reveal_strlit("Warning");
    reveal_strlit("Error");
    assert("Info"@.len() == 4 && "Warning"@.len() == 7 && "Error"@.len() == 5);
}

proof fn lemma_lookup_config(d: Data)
    ensures
        lookup(config_entries(d), "log_dir"@) == Some(TomlScalarView::Str(d.path_of(PathOpt::LogDir))),
        lookup(config_entries(d), "log_level"@) == Some(TomlScalarView::Str(level_name(d.level_of()))),
        lookup(config_entries(d), "max_age"@) == Some(TomlScalarView::Int(d.usize_of(USizeOpt::MaxAge) as i64)),
        lookup(config_entries(d), "timeout"@) == Some(TomlScalarView::Int(d.usize_of(USizeOpt::Timeout) as i64)),
{
    reveal_strlit("log_dir");
    reveal_strlit("log_level");
    reveal_strlit("max_age");
    reveal_strlit("timeout");
    reveal_with_fuel(lookup, 5);
    let e = config_entries(d);
    assert(e[0].0[0] == 'l' && e[0].0[2] == 'g');
    assert(e.drop_first()[0].0[0] == 'l' && e.drop_first()[0].0.len() == 9);
    assert("max_age"@[0] == 'm' && "timeout"@[0] == 't' && "log_level"@.len() == 9);
    assert(e.drop_first()[0].0 == "log_level"@);
    assert(e.drop_first().drop_first()[0].0 == "max_age"@);
    assert(e.drop_first().drop_first().drop_first()[0].0 == "timeout"@);
    assert(e[0].0 != "log_level"@);
    assert(e[0].0 != "max_age"@);
    assert(e[0].0 != "timeout"@);
    assert(e.drop_first()[0].0 != "max_age"@);
    assert(e.drop_first()[0].0 != "timeout"@);
    assert(e.drop_first().drop_first()[0].0 != "timeout"@);
}

/// Law: the text that a configuration is saved as (see `to_toml`) reads back
/// (see `from_toml`) as a configuration, and that configuration holds the
/// same values as the one that was saved.
pub proof fn law_save_then_load(d: Data, text: Seq<char>, back: Data)
    requires
        d.usize_of(USizeOpt::MaxAge) <= i64::MAX,
        d.usize_of(USizeOpt::Timeout) <= i64::MAX,
        toml_table_of(text) == Some(config_entries(d)),
        decoded_as(config_entries(d), back),
    ensures
        decodes(config_entries(d)),
        d.same_values(back),
{
    lemma_lookup_config(d);
    lemma_level_name_round_trip(d.level_of());
    assert(d.usize_of(USizeOpt::MaxAge) as i64 as usize == d.usize_of(USizeOpt::MaxAge));
    assert(d.usize_of(USizeOpt::Timeout) as i64 as usize == d.usize_of(USizeOpt::Timeout));
    assert(forall|o: PathOpt| #[trigger] back.path_of(o) == d.path_of(o)) by {
        assert forall|o: PathOpt| #[trigger] back.path_of(o) == d.path_of(o) by {
            match o {
                PathOpt::LogDir => {},
            }
        }
    }
    assert forall|o: USizeOpt| #[trigger] back.usize_of(o) == d.usize_of(o) by {
        match o {
            USizeOpt::MaxAge => {},
            USizeOpt::Timeout => {},
        }
    }
}

} // verus!
