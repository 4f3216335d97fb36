use vstd::prelude::*;
use vstd::string::*;

use crate::text::{is_prefix, is_suffix, join_path, path_join, str_equals};

verus! {

/// Describes the log level of a message.
///
/// The levels are ordered by severity: `Info` < `Warning` < `Error`; the
/// verified code compares levels through [`LogLevel::rank`], which follows
/// the same order as the declaration order used by the derived `Ord`.
#[derive(Debug, Clone, Copy, PartialEq, Eq, Structural, PartialOrd, Ord, Hash)]
pub enum LogLevel {
    /// The lowest level, dedicated to regular information that is not critical.
    Info,
    /// Mid level, used to indicate when something went wrong but it's not critical.
    Warning,
    /// The highest level, used to indicate critical errors.
    Error,
}

/// The severity of a level as a number: 0 for `Info`, 1 for `Warning`, 2 for `Error`.
pub open spec fn level_rank(level: LogLevel) -> nat {
    match level {
        LogLevel::Info => 0,
        LogLevel::Warning => 1,
        LogLevel::Error => 2,
    }
}

/// The label under which a level is written in log lines.
pub open spec fn level_label(level: LogLevel) -> Seq<char> {
    match level {
        LogLevel::Info => "INFO"@,
        LogLevel::Warning => "WARN"@,
        LogLevel::Error => "ERROR"@,
    }
}

/// The level that a lowercased level name denotes, if any.
pub open spec fn level_of_lowercase(name: Seq<char>) -> Option<LogLevel> {
    if name == "info"@ {
        Some(LogLevel::Info)
    } else if name == "warn"@ || name == "warning"@ {
        Some(LogLevel::Warning)
    } else if name == "error"@ {
        Some(LogLevel::Error)
    } else {
        None
    }
}

/// What `str::to_lowercase` returns for a string: its Unicode lowercase mapping.
pub uninterp spec fn lowercase_of(s: Seq<char>) -> Seq<char>;

/// Whether every character is ASCII.
pub open spec fn is_ascii(s: Seq<char>) -> bool {
    forall|i: int| 0 <= i < s.len() ==> (#[trigger] s[i] as int) < 128
}

/// The ASCII lowercase of a character: `A`..`Z` become `a`..`z`, every
/// other character stays.
pub open spec fn ascii_lower_char(c: char) -> char {
    if 'A' <= c && c <= 'Z' {
        ((c as int) + 32) as char
    } else {
        c
    }
}

/// The ASCII lowercase of a string, character by character.
pub open spec fn ascii_lowercase(s: Seq<char>) -> Seq<char> {
    s.map_values(|c: char| ascii_lower_char(c))
}

/// Calls `str::to_lowercase`; the result is the lowercase mapping of the
/// argument, which depends on the argument alone (it is named, not spelled
/// out). On ASCII text the Unicode mapping is the ASCII one: uppercase
/// letters become lowercase and every other character stays.
#[verifier::external_body]
fn to_lowercase(s: &str) -> (r: String)
    ensures
        r@ == lowercase_of(s@),
        is_ascii(s@) ==> r@ == ascii_lowercase(s@),
{
    s.to_lowercase()
}

/// The error returned when a string names no log level.
#[derive(Debug, Clone, PartialEq, Eq)]
pub struct ParseLogLevelError {
    /// The string that was given
    pub input: String,
}

impl ParseLogLevelError {
    /// The message of the error: `Invalid log level: <input>`.
    pub fn message(&self) -> (r: String)
        ensures
            r@ == "Invalid log level: "@ + self.input@,
    {
        let mut r = String::from_str("Invalid log level: ");
        r.append(self.input.as_str());
        r
    }
}

impl Default for LogLevel {
    /// The lowest level, `Info`.
    fn default() -> (r: LogLevel)
        ensures
            r == LogLevel::Info,
    {
        LogLevel::Info
    }
}

impl LogLevel {
    /// The severity of the level; `Info` < `Warning` < `Error`.
    pub fn rank(&self) -> (r: u8)
        ensures
            r == level_rank(*self),
    {
        match self {
            LogLevel::Info => 0,
            LogLevel::Warning => 1,
            LogLevel::Error => 2,
        }
    }

    /// Whether a message of this level reaches the given threshold (`self >= threshold`).
    pub fn at_least(&self, threshold: LogLevel) -> (r: bool)
        ensures
            r == (level_rank(*self) >= level_rank(threshold)),
    {
        self.rank() >= threshold.rank()
    }

    /// The label of the level: `INFO`, `WARN` or `ERROR`.
    pub fn to_string(&self) -> (r: String)
        ensures
            r@ == level_label(*self),
    {
        match self {
            LogLevel::Info => String::from_str("INFO"),
            LogLevel::Warning => String::from_str("WARN"),
            LogLevel::Error => String::from_str("ERROR"),
        }
    }

    /// Parses an already lowercased level name: `info`, `warn`, `warning` or `error`.
    pub fn from_lowercase(name: &str) -> (r: Result<LogLevel, ParseLogLevelError>)
        ensures
            match level_of_lowercase(name@) {
                Some(level) => r == Ok::<LogLevel, ParseLogLevelError>(level),
                None => r is Err && r->Err_0.input@ == name@,
            },
    {
        proof {
            reveal_strlit("info");
            reveal_strlit("warn");
            reveal_strlit("warning");
            reveal_strlit("error");
        }
        if str_equals(name, "info") {
            Ok(LogLevel::Info)
        } else if str_equals(name, "warn") || str_equals(name, "warning") {
            Ok(LogLevel::Warning)
        } else if str_equals(name, "error") {
            Ok(LogLevel::Error)
        } else {
            Err(ParseLogLevelError { input: name.to_string() })
        }
    }

    /// Parses a level name in any letter case: the name is lowercased and then
    /// must be one of `info`, `warn`, `warning` or `error`.
    pub fn from_str(s: &str) -> (r: Result<LogLevel, ParseLogLevelError>)
        ensures
            match level_of_lowercase(lowercase_of(s@)) {
                Some(level) => r == Ok::<LogLevel, ParseLogLevelError>(level),
                None => r is Err && r->Err_0.input@ == s@,
            },
            is_ascii(s@) ==> match level_of_lowercase(ascii_lowercase(s@)) {
                Some(level) => r == Ok::<LogLevel, ParseLogLevelError>(level),
                None => r is Err && r->Err_0.input@ == s@,
            },
    {
        let lowered = to_lowercase(s);
        match LogLevel::from_lowercase(lowered.as_str()) {
            Ok(level) => Ok(level),
            Err(_) => Err(ParseLogLevelError { input: s.to_string() }),
        }
    }
}


/// The line under which a message is written: `[timestamp] [LEVEL] [scope] message`.
pub open spec fn log_line(
    timestamp: Seq<char>,
    level: LogLevel,
    scope: Seq<char>,
    message: Seq<char>,
) -> Seq<char> {
    "["@ + timestamp + "] ["@ + level_label(level) + "] ["@ + scope + "] "@ + message
}

/// Describes a message to be logged: its level, a scope for categorization,
/// and its content.
#[derive(Debug, Clone, PartialEq, Eq, PartialOrd, Ord)]
pub struct LogMessage {
    /// The severity of the message
    pub level: LogLevel,
    /// The part of the program the message comes from
    pub scope: &'static str,
    /// The content of the message
    pub message: String,
}

/// The layout of the timestamp at the head of a log line.
pub open spec fn timestamp_format() -> Seq<char> {
    "%Y-%m-%d %H:%M:%S UTC"@
}

/// What `chrono` writes for the instant `secs` seconds and `nanos`
/// nanoseconds after the Unix epoch (the epoch itself when that instant is
/// out of range) in the layout `format`.
pub uninterp spec fn utc_text_of(secs: i64, nanos: u32, format: Seq<char>) -> Seq<char>;

#[verifier::external_type_specification]
#[verifier::external_body]
pub struct ExSystemTime(std::time::SystemTime);

/// Calls `std::time::SystemTime::now`. It reads the clock, so nothing is
/// stated of it.
#[verifier::external_body]
fn system_now() -> (r: std::time::SystemTime) {
    std::time::SystemTime::now()
}

/// Calls `SystemTime::duration_since` with the Unix epoch and gives the
/// duration as whole seconds and the nanoseconds beyond them (zero when the
/// time is before the epoch). Nothing is visible of the time value, so
/// nothing is stated of the result.
#[verifier::external_body]
fn unix_time_of(t: &std::time::SystemTime) -> (r: (u64, u32)) {
    let d = t.duration_since(std::time::UNIX_EPOCH).unwrap_or_default();
    (d.as_secs(), d.subsec_nanos())
}

/// The time since the Unix epoch, now.
fn unix_clock() -> (r: (u64, u32)) {
    let now = system_now();
    unix_time_of(&now)
}

/// Calls `chrono::DateTime::from_timestamp` (falling back to the epoch when it
/// gives nothing) and `format` on the result; the text depends on the
/// arguments alone. Only the two layouts of this crate, which are valid
/// `strftime` layouts, are handed over: writing an invalid layout panics.
#[verifier::external_body]
fn format_utc(secs: i64, nanos: u32, format: &str) -> (r: String)
    requires
        format@ == timestamp_format() || format@ == file_timestamp_format(),
    ensures
        r@ == utc_text_of(secs, nanos, format@),
{
    chrono::DateTime::from_timestamp(secs, nanos).unwrap_or_default().format(format).to_string()
}

impl LogMessage {
    /// The line of the message for a given timestamp text.
    pub fn render(&self, timestamp: &str) -> (r: String)
        ensures
            r@ == log_line(timestamp@, self.level, self.scope@, self.message@),
    {
        let mut r = String::from_str("[");
        r.append(timestamp);
        r.append("] [");
        let label = self.level.to_string();
        r.append(label.as_str());
        r.append("] [");
        r.append(self.scope);
        r.append("] ");
        r.append(self.message.as_str());
        r
    }

    /// The line of the message stamped with the instant `secs` seconds and
    /// `nanos` nanoseconds after the Unix epoch; the seconds are taken as an
    /// `i64`, wrapping as a cast does.
    pub fn stamped(&self, secs: u64, nanos: u32) -> (r: String)
        ensures
            r@ == log_line(
                utc_text_of(secs as i64, nanos, timestamp_format()),
                self.level,
                self.scope@,
                self.message@,
            ),
    {
        #[verifier::truncate]
        let s: i64 = secs as i64;
        let timestamp = format_utc(s, nanos, "%Y-%m-%d %H:%M:%S UTC");
        self.render(timestamp.as_str())
    }

    /// The line of the message stamped with the current time.
    pub fn to_string(&self) -> (r: String)
        ensures
            exists|secs: u64, nanos: u32|
                r@ == log_line(
                    #[trigger] utc_text_of(secs as i64, nanos, timestamp_format()),
                    self.level,
                    self.scope@,
                    self.message@,
                ),
    {
        let (secs, nanos) = unix_clock();
        self.stamped(secs, nanos)
    }
}

/// The messages of a logger that are kept to be printed on flush, with the
/// threshold that decides which messages are kept.
pub struct PrintBuffer {
    /// Minimum level of messages to be printed on flush
    pub print_level: LogLevel,
    /// Path of the log file that holds every message
    pub log_path: String,
    /// Messages kept so far, in the order in which they were logged
    pub logs_to_print: Vec<LogMessage>,
}

impl PrintBuffer {
    /// An empty buffer for the given threshold and log file.
    pub fn new(print_level: LogLevel, log_path: String) -> (r: PrintBuffer)
        ensures
            r.print_level == print_level,
            r.log_path == log_path,
            r.logs_to_print@ == Seq::<LogMessage>::empty(),
    {
        PrintBuffer { print_level, log_path, logs_to_print: Vec::new() }
    }

    /// Records a logged message: it is kept iff its level reaches the threshold.
    pub fn record(&mut self, message: LogMessage)
        ensures
            final(self).print_level == old(self).print_level,
            final(self).log_path == old(self).log_path,
            final(self).logs_to_print@ == if level_rank(message.level) >= level_rank(
                old(self).print_level,
            ) {
                old(self).logs_to_print@.push(message)
            } else {
                old(self).logs_to_print@
            },
    {
        if message.level.at_least(self.print_level) {
            self.logs_to_print.push(message);
        }
    }

    /// The line printed after the kept messages on flush:
    /// `Check the full log file: <path>`, only when some message was kept.
    pub fn flush_trailer(&self) -> (r: Option<String>)
        ensures
            self.logs_to_print@.len() == 0 ==> r is None,
            self.logs_to_print@.len() > 0 ==> r is Some && r->Some_0@
                == "Check the full log file: "@ + self.log_path@,
    {
        if self.logs_to_print.len() == 0 {
            None
        } else {
            let mut r = String::from_str("Check the full log file: ");
            r.append(self.log_path.as_str());
            Some(r)
        }
    }
}

/// The scope under which the logger reports its own problems.
pub open spec fn log_scope() -> Seq<char> {
    "log"@
}

/// The prefix of the names of timestamped log files.
pub open spec fn log_file_prefix() -> Seq<char> {
    "patch-hub_"@
}

/// The extension of log files.
pub open spec fn log_file_extension() -> Seq<char> {
    ".log"@
}

/// The name of the timestamped log file: `patch-hub_<timestamp>.log`.
pub fn log_file_name(timestamp: &str) -> (r: String)
    ensures
        r@ == log_file_prefix() + timestamp@ + log_file_extension(),
{
    proof {
        reveal_strlit("patch-hub_");
        reveal_strlit(".log");
    }
    crate::text::concat3("patch-hub_", timestamp, ".log")
}

/// The paths of the two log files of a run in `log_dir`: the timestamped
/// one and `latest.log`.
pub fn log_paths(log_dir: &str, timestamp: &str) -> (r: (String, String))
    ensures
        r.0@ == path_join(log_dir@, log_file_prefix() + timestamp@ + log_file_extension()),
        r.1@ == path_join(log_dir@, "latest.log"@),
{
    let name = log_file_name(timestamp);
    let latest = latest_log_file_name();
    (join_path(log_dir, name.as_str()), join_path(log_dir, latest.as_str()))
}

/// The layout of the timestamp in the names of log files.
pub open spec fn file_timestamp_format() -> Seq<char> {
    "%Y-%m-%d-%H-%M-%S"@
}

/// The paths of the log files of a run that starts now: the timestamped
/// file is named after the current UTC time.
pub fn current_log_paths(log_dir: &str) -> (r: (String, String))
    ensures
        exists|secs: u64, nanos: u32|
            r.0@ == path_join(
                log_dir@,
                log_file_prefix() + #[trigger] utc_text_of(secs as i64, nanos, file_timestamp_format())
                    + log_file_extension(),
            ),
        r.1@ == path_join(log_dir@, "latest.log"@),
{
    let (secs, nanos) = unix_clock();
    #[verifier::truncate]
    let s: i64 = secs as i64;
    let timestamp = format_utc(s, nanos, "%Y-%m-%d-%H-%M-%S");
    assert(timestamp@ == utc_text_of(secs as i64, nanos, file_timestamp_format()));
    log_paths(log_dir, timestamp.as_str())
}

/// The name of the log file that always holds the latest run: `latest.log`.
pub fn latest_log_file_name() -> (r: String)
    ensures
        r@ == "latest.log"@,
{
    String::from_str("latest.log")
}

/// The name of a file that the garbage collector may delete: it begins with
/// `patch-hub_` and ends with `.log`.
pub open spec fn is_collectable_name(name: Seq<char>) -> bool {
    is_prefix(log_file_prefix(), name) && is_suffix(log_file_extension(), name)
}

/// Whether a file name is that of a timestamped log file.
pub fn is_log_file_name(name: &str) -> (r: bool)
    ensures
        r == is_collectable_name(name@),
{
    proof {
        reveal_strlit("patch-hub_");
        reveal_strlit(".log");
    }
    crate::text::ends_with(name, ".log") && crate::text::starts_with(name, "patch-hub_")
}

/// The whole number of days in an age given in seconds.
pub open spec fn age_days(age_secs: u64) -> u64 {
    (age_secs / 60 / 60 / 24) as u64
}

/// Whether a log file of the given age is older than `max_age` days. A
/// `max_age` of 0 disables collection.
pub open spec fn is_expired(max_age: usize, age_secs: u64) -> bool {
    max_age != 0 && (age_days(age_secs) as usize) > max_age
}

/// Whether a log file of the given age must be deleted.
pub fn expired(max_age: usize, age_secs: u64) -> (r: bool)
    ensures
        r == is_expired(max_age, age_secs),
{
    if max_age == 0 {
        return false;
    }
    let days = age_secs / 60 / 60 / 24;
    days as usize > max_age
}

/// What the garbage collector knows of an entry of the log directory.
pub struct LogDirEntry {
    /// Full path of the entry
    pub path: String,
    /// Final component of the path, if it has one
    pub file_name: Option<String>,
    /// Seconds since the file was created, if that could be found out
    pub age_secs: Option<u64>,
}

/// Whether the collector deletes an entry.
pub open spec fn is_garbage(max_age: usize, entry: LogDirEntry) -> bool {
    &&& entry.file_name is Some
    &&& is_collectable_name(entry.file_name->Some_0@)
    &&& entry.age_secs is Some
    &&& is_expired(max_age, entry.age_secs->Some_0)
}

/// The paths of the entries that the collector deletes, in directory order.
pub open spec fn garbage_paths(max_age: usize, entries: Seq<LogDirEntry>) -> Seq<Seq<char>>
    decreases entries.len(),
{
    if entries.len() == 0 {
        Seq::empty()
    } else {
        let rest = garbage_paths(max_age, entries.drop_last());
        if is_garbage(max_age, entries.last()) {
            rest.push(entries.last().path@)
        } else {
            rest
        }
    }
}

/// Selects the log files to delete: timestamped log files older than
/// `max_age` days. With `max_age` 0 nothing is selected.
pub fn select_garbage(max_age: usize, entries: &Vec<LogDirEntry>) -> (r: Vec<String>)
    ensures
        r@.map_values(|p: String| p@) == garbage_paths(max_age, entries@),
{
    let mut r: Vec<String> = Vec::new();
    let mut i: usize = 0;
    while i < entries.len()
        invariant
            i <= entries@.len(),
            r@.map_values(|p: String| p@) == garbage_paths(max_age, entries@.subrange(0, i as int)),
        decreases entries@.len() - i,
    {
        let entry = &entries[i];
        let mut take = false;
        if let Some(name) = &entry.file_name {
            if let Some(age) = entry.age_secs {
                take = is_log_file_name(name.as_str()) && expired(max_age, age);
            }
        }
        proof {
            assert(entries@.subrange(0, i + 1).drop_last() =~= entries@.subrange(0, i as int));
            assert(entries@.subrange(0, i + 1).last() == entries@[i as int]);
        }
        if take {
            r.push(entry.path.clone());
            proof {
                assert(r@.map_values(|p: String| p@) =~= garbage_paths(
                    max_age,
                    entries@.subrange(0, i as int),
                ).push(entry.path@));
            }
        }
        i = i + 1;
    }
    assert(entries@.subrange(0, entries@.len() as int) =~= entries@);
    r
}

/// The message logged when the log directory cannot be read during collection.
pub fn read_dir_failure_message() -> (r: LogMessage)
    ensures
        r.level == LogLevel::Error,
        r.scope@ == log_scope(),
        r.message@ == "Failed to read the logs directory during garbage collection"@,
{
    proof {
        reveal_strlit("log");
    }
    LogMessage {
        level: LogLevel::Error,
        scope: "log",
        message: String::from_str("Failed to read the logs directory during garbage collection"),
    }
}

/// The message logged when a log file cannot be removed during collection.
pub fn remove_failure_message(path: &str) -> (r: LogMessage)
    ensures
        r.level == LogLevel::Warning,
        r.scope@ == log_scope(),
        r.message@ == "Failed to remove the log file: "@ + path@,
{
    proof {
        reveal_strlit("log");
    }
    let mut message = String::from_str("Failed to remove the log file: ");
    message.append(path);
    LogMessage { level: LogLevel::Warning, scope: "log", message }
}

/// Law: the timestamped log files that the logger creates are exactly of
/// the kind that the garbage collector may delete.
pub proof fn law_own_log_files_are_collectable(timestamp: Seq<char>)
    ensures
        is_collectable_name(log_file_prefix() + timestamp + log_file_extension()),
        !is_collectable_name("latest.log"@),
{
    let name = log_file_prefix() + timestamp + log_file_extension();
    assert(name.subrange(0, log_file_prefix().len() as int) =~= log_file_prefix());
    assert(name.subrange(
        name.len() - log_file_extension().len(),
        name.len() as int,
    ) =~= log_file_extension());
    reveal_strlit("latest.log");
    reveal_strlit("patch-hub_");
    assert("latest.log"@.subrange(0, 10) != log_file_prefix()) by {
        assert("latest.log"@.subrange(0, 10)[0] != log_file_prefix()[0]);
    }
}

/// Law: the label of a level (what `LogLevel::to_string` writes) is ASCII
/// and parses back to the same level (see `LogLevel::from_str`).
pub proof fn law_label_parses_back(level: LogLevel)
    ensures
        is_ascii(level_label(level)),
        level_of_lowercase(ascii_lowercase(level_label(level))) == Some(level),
{
    reveal_strlit("INFO");
    reveal_strlit("WARN");
    reveal_strlit("ERROR");
    reveal_strlit("info");
    reveal_strlit("warn");
    reveal_strlit("warning");
    reveal_strlit("error");
    let t = level_label(level);
    match level {
        LogLevel::Info => {
            assert(ascii_lowercase(t) =~= "info"@);
            assert(level_of_lowercase("info"@) == Some(LogLevel::Info));
        },
        LogLevel::Warning => {
            assert(ascii_lowercase(t) =~= "warn"@);
            assert("warn"@[0] != "info"@[0]);
            assert("warn"@ != "info"@);
            assert(level_of_lowercase("warn"@) == Some(LogLevel::Warning));
        },
        LogLevel::Error => {
            assert(ascii_lowercase(t) =~= "error"@);
            assert("error"@ != "info"@);
            assert("error"@ != "warn"@);
            assert("error"@ != "warning"@);
            assert(level_of_lowercase("error"@) == Some(LogLevel::Error));
        },
    }
}

/// Law: parsing ASCII text does not depend on letter case: the text and its
/// lowercase parse to the same level, or both fail (see `LogLevel::from_str`).
pub proof fn law_parse_ignores_ascii_case(s: Seq<char>)
    requires
        is_ascii(s),
    ensures
        is_ascii(ascii_lowercase(s)),
        ascii_lowercase(ascii_lowercase(s)) == ascii_lowercase(s),
        level_of_lowercase(ascii_lowercase(ascii_lowercase(s))) == level_of_lowercase(
            ascii_lowercase(s),
        ),
{
    let l = ascii_lowercase(s);
    assert forall|i: int| 0 <= i < l.len() implies (#[trigger] l[i] as int) < 128 by {
        assert(l[i] == ascii_lower_char(s[i]));
    }
    assert(ascii_lowercase(l) =~= l);
}

/// Law: a message is kept for printing exactly when its level is at least
/// the threshold, so raising the threshold never keeps more.
pub proof fn law_threshold_monotone(level: LogLevel, low: LogLevel, high: LogLevel)
    requires
        level_rank(low) <= level_rank(high),
    ensures
        level_rank(level) >= level_rank(high) ==> level_rank(level) >= level_rank(low),
        level_rank(LogLevel::Info) < level_rank(LogLevel::Warning),
        level_rank(LogLevel::Warning) < level_rank(LogLevel::Error),
{
}

} // verus!
