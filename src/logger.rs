use crate::backtrace_filter::{filtered_backtrace, get_backtrace_info, BacktraceFilter, SymbolInfo};
use crate::text::{decimal, decimal_string};
use std::marker::PhantomData;
use vstd::prelude::*;
use vstd::string::StringExecFns;
use google_cloud_logging::{GCOperation, GCSourceLocation, GoogleCloudStructLog};
use yansi::Paint;

verus! {

#[verifier::external_type_specification]
#[verifier::external_body]
pub struct ExGCLogSeverity(google_cloud_logging::GCLogSeverity);

/// The level of a log record, most severe first.
#[derive(Debug, Clone, Copy, PartialEq, Eq, Structural)]
pub enum LogLevel {
    Error,
    Warn,
    Info,
    Debug,
    Trace,
}

/// What a log filter may look at: the level and the target of a record.
pub struct LogMetadata {
    pub level: LogLevel,
    pub target: String,
}

/// One log call: its level, target and message, and where it was made.
pub struct LogRecord {
    /// The level and target, which the record filter judges.
    pub metadata: LogMetadata,
    pub message: String,
    pub file: Option<String>,
    pub line: Option<u32>,
    pub function: Option<String>,
}

/// Decides which records are written at all.
pub trait LogFilter {
    /// Whether records with this metadata are written.
    spec fn admits(&self, metadata: LogMetadata) -> bool;

    /// Only the records for which this is `true` are written.
    fn filter(&self, metadata: &LogMetadata) -> (r: bool)
        ensures
            r == self.admits(*metadata),
    ;
}

/// The output format, chosen once at start-up.
#[derive(Debug, Clone, Copy, PartialEq, Eq, Structural)]
pub enum LogFormat {
    /// `LEVEL:TARGET - MESSAGE`, one line per record.
    Text,
    /// One JSON document per record, in the layout of cloud structured logging.
    Json,
}

impl Default for LogFormat {
    fn default() -> (r: Self)
        ensures
            r == LogFormat::Text,
    {
        LogFormat::Text
    }
}

/// The format that a configuration value selects: `json` gives structured
/// output, anything else or nothing gives text.
pub open spec fn format_of(setting: Option<Seq<char>>) -> LogFormat {
    if setting == Some("json"@) {
        LogFormat::Json
    } else {
        LogFormat::Text
    }
}

impl LogFormat {
    /// The format selected by the configured value, if any.
    pub fn from_setting(setting: Option<String>) -> (r: LogFormat)
        ensures
            r == format_of(
                match setting {
                    Some(s) => Some(s@),
                    None => None,
                },
            ),
    {
        match setting {
            Some(s) => {
                let json = String::from_str("json");
                if s == json {
                    LogFormat::Json
                } else {
                    LogFormat::Text
                }
            },
            None => LogFormat::Text,
        }
    }
}

/// The severities of cloud structured logging that records map to.
#[derive(Debug, Clone, Copy, PartialEq, Eq, Structural)]
pub enum Severity {
    Default,
    Debug,
    Info,
    Warning,
    Error,
    Critical,
}

/// The marker that lets an error-reporting collector pick out true errors.
pub const REPORTED_ERROR_TYPE: &'static str =
    "type.googleapis.com/google.devtools.clouderrorreporting.v1beta1.ReportedErrorEvent";

pub open spec fn severity_of(level: LogLevel) -> Severity {
    match level {
        LogLevel::Error => Severity::Error,
        LogLevel::Warn => Severity::Warning,
        LogLevel::Info => Severity::Info,
        LogLevel::Debug => Severity::Debug,
        LogLevel::Trace => Severity::Default,
    }
}

/// Only warnings and errors carry a backtrace.
pub open spec fn shows_backtrace(level: LogLevel) -> bool {
    level == LogLevel::Error || level == LogLevel::Warn
}

pub open spec fn level_text(level: LogLevel) -> Seq<char> {
    match level {
        LogLevel::Error => "ERROR"@,
        LogLevel::Warn => "WARN"@,
        LogLevel::Info => "INFO"@,
        LogLevel::Debug => "DEBUG"@,
        LogLevel::Trace => "TRACE"@,
    }
}

/// A text record: level, target, message and backtrace suffix.
pub open spec fn text_line(level: Seq<char>, target: Seq<char>, message: Seq<char>, suffix: Seq<char>) -> Seq<char> {
    level + ":"@ + target + " - "@ + message + suffix
}

/// A text record of a panic: message, place and backtrace suffix.
pub open spec fn panic_line(message: Seq<char>, file: Seq<char>, line: u32, suffix: Seq<char>) -> Seq<char> {
    "PANIC:"@ + message + " - "@ + file + ":"@ + decimal(line as nat) + suffix
}

/// The fields of one structured log document.
pub struct StructuredEntry {
    pub severity: Severity,
    pub report_type: Option<String>,
    pub message: String,
    pub operation_id: String,
    pub producer: String,
    pub file: Option<String>,
    pub line: Option<String>,
    pub function: Option<String>,
}

pub open spec fn opt_view(o: Option<String>) -> Option<Seq<char>> {
    match o {
        Some(s) => Some(s@),
        None => None,
    }
}

pub open spec fn line_view(o: Option<u32>) -> Option<Seq<char>> {
    match o {
        Some(l) => Some(decimal(l as nat)),
        None => None,
    }
}

/// A rendering, under filter `B`, of the first `amount` accepted frames of
/// some stack.
pub open spec fn is_rendered_backtrace<B: BacktraceFilter>(text: Seq<char>, amount: u16) -> bool {
    exists|symbols: Seq<SymbolInfo>| text == #[trigger] filtered_backtrace::<B>(symbols, amount)
}

/// `text` appears whole in `painted`, between whatever escape codes painting
/// puts around it.
pub open spec fn is_painted(painted: Seq<char>, text: Seq<char>) -> bool {
    exists|before: Seq<char>, after: Seq<char>| painted == before + text + after
}

/// A text line: the padded level label painted in the level's colour, `:`,
/// the target dimmed, ` - `, the message and the suffix.
pub open spec fn is_text_line(
    line: Seq<char>,
    level: LogLevel,
    target: Seq<char>,
    message: Seq<char>,
    suffix: Seq<char>,
) -> bool {
    exists|level_part: Seq<char>, target_part: Seq<char>|
        {
            &&& line == #[trigger] text_line(level_part, target_part, message, suffix)
            &&& is_painted_in(level_part, padded(level_text(level), 5), colour_of(level))
            &&& is_painted(target_part, target)
        }
}

/// The text line of a record under backtrace filter `B`: no backtrace below
/// warnings, else the first `amount` accepted frames of the stack.
pub open spec fn is_text_record<B: BacktraceFilter>(line: Seq<char>, record: &LogRecord, amount: u16) -> bool {
    exists|suffix: Seq<char>|
        {
            &&& #[trigger] is_text_line(line, record.metadata.level, record.metadata.target@, record.message@, suffix)
            &&& !shows_backtrace(record.metadata.level) ==> suffix == Seq::<char>::empty()
            &&& shows_backtrace(record.metadata.level) ==> is_rendered_backtrace::<B>(suffix, amount)
        }
}

/// `s` padded with spaces on the right to `width` characters.
pub open spec fn padded(s: Seq<char>, width: nat) -> Seq<char> {
    if s.len() >= width {
        s
    } else {
        s + Seq::new((width - s.len()) as nat, |i: int| ' ')
    }
}

/// The colour each level is shown in.
#[derive(Debug, Clone, Copy, PartialEq, Eq, Structural)]
pub enum Colour {
    Red,
    Yellow,
    Blue,
    Green,
    Magenta,
}

/// The digit of a colour in its ANSI escape code.
pub open spec fn colour_digit(colour: Colour) -> char {
    match colour {
        Colour::Red => '1',
        Colour::Green => '2',
        Colour::Yellow => '3',
        Colour::Blue => '4',
        Colour::Magenta => '5',
    }
}

/// `text` as painting writes it: bare while painting is disabled, else
/// between the colour's escape code and the reset code.
pub open spec fn is_painted_in(painted: Seq<char>, text: Seq<char>, colour: Colour) -> bool {
    ||| painted == text
    ||| painted == seq!['\u{1b}', '[', '3', colour_digit(colour), 'm'] + text + seq!['\u{1b}', '[', '0', 'm']
}

pub open spec fn colour_of(level: LogLevel) -> Colour {
    match level {
        LogLevel::Error => Colour::Red,
        LogLevel::Warn => Colour::Yellow,
        LogLevel::Info => Colour::Blue,
        LogLevel::Debug => Colour::Green,
        LogLevel::Trace => Colour::Magenta,
    }
}

/// Relies on google_cloud_logging's `GCLogSeverity`: the variant of the same name.
#[verifier::external_body]
fn gc_severity(s: Severity) -> google_cloud_logging::GCLogSeverity {
    match s {
        Severity::Default => google_cloud_logging::GCLogSeverity::Default,
        Severity::Debug => google_cloud_logging::GCLogSeverity::Debug,
        Severity::Info => google_cloud_logging::GCLogSeverity::Info,
        Severity::Warning => google_cloud_logging::GCLogSeverity::Warning,
        Severity::Error => google_cloud_logging::GCLogSeverity::Error,
        Severity::Critical => google_cloud_logging::GCLogSeverity::Critical,
    }
}

/// Relies on serde_json's `to_string` of google_cloud_logging's
/// `GoogleCloudStructLog`, stamped with chrono's `Utc::now`. The document
/// holds only strings, options, a string-keyed map and a time, none of which
/// serde_json fails on; the `Option` stays for the call's own `Result`.
#[verifier::external_body]
fn encode_entry(
    e: &StructuredEntry,
    severity: google_cloud_logging::GCLogSeverity,
) -> (r: Option<String>)
    ensures
        r.is_some(),
{
    let operation =
        GCOperation { id: Some(&e.operation_id), producer: Some(&e.producer), ..Default::default() };
    let source =
        GCSourceLocation { file: e.file.as_deref(), line: e.line.clone(), function: e.function.as_deref() };
    let doc = GoogleCloudStructLog {
        severity: Some(severity),
        report_type: e.report_type.clone(),
        message: Some(e.message.clone()),
        operation: Some(operation),
        source_location: Some(source),
        time: Some(chrono::Utc::now()),
        ..Default::default()
    };
    serde_json::to_string(&doc).ok()
}

/// Relies on yansi's `Paint::red` (and the other colours) and its `Display`:
/// the text alone while painting is disabled, else `ESC[3<n>m`, the text and
/// `ESC[0m`.
#[verifier::external_body]
fn paint(colour: Colour, text: &str) -> (r: String)
    ensures
        is_painted_in(r@, text@, colour),
{
    match colour {
        Colour::Red => Paint::red(text).to_string(),
        Colour::Yellow => Paint::yellow(text).to_string(),
        Colour::Blue => Paint::blue(text).to_string(),
        Colour::Green => Paint::green(text).to_string(),
        Colour::Magenta => Paint::magenta(text).to_string(),
    }
}

/// Relies on yansi's `Paint::dimmed` and its `Display`, which writes the text
/// whole.
#[verifier::external_body]
fn paint_dim(text: &str) -> (r: String)
    ensures
        is_painted(r@, text@),
{
    Paint::new(text).dimmed().to_string()
}

/// The colour of a level.
pub fn level_colour(level: LogLevel) -> (r: Colour)
    ensures
        r == colour_of(level),
{
    match level {
        LogLevel::Error => Colour::Red,
        LogLevel::Warn => Colour::Yellow,
        LogLevel::Info => Colour::Blue,
        LogLevel::Debug => Colour::Green,
        LogLevel::Trace => Colour::Magenta,
    }
}

/// `s` padded with spaces on the right to `width` characters.
pub fn pad_right(s: &str, width: usize) -> (r: String)
    ensures
        r@ == padded(s@, width as nat),
{
    let mut r = String::from_str(s);
    let mut n = s.unicode_len();
    while n < width
        invariant
            n >= s@.len(),
            n <= width ==> r@ == s@ + Seq::new((n - s@.len()) as nat, |i: int| ' '),
            n > width ==> n == s@.len() && r@ == s@,
        decreases width - n,
    {
        r.append(" ");
        proof {
            reveal_strlit(" ");
        }
        assert(r@ =~= s@ + Seq::new((n + 1 - s@.len()) as nat, |i: int| ' '));
        n = n + 1;
    }
    proof {
        if s@.len() < width {
            assert(r@ =~= padded(s@, width as nat));
        } else if s@.len() == width {
            assert(r@ =~= s@);
        }
    }
    r
}

fn copy_opt(o: &Option<String>) -> (r: Option<String>)
    ensures
        opt_view(r) == opt_view(*o),
{
    match o {
        Some(s) => Some(s.clone()),
        None => None,
    }
}

/// The label of a level.
pub fn level_label(level: LogLevel) -> (r: &'static str)
    ensures
        r@ == level_text(level),
{
    proof {
        reveal_strlit("ERROR");
        reveal_strlit("WARN");
        reveal_strlit("INFO");
        reveal_strlit("DEBUG");
        reveal_strlit("TRACE");
    }
    match level {
        LogLevel::Error => "ERROR",
        LogLevel::Warn => "WARN",
        LogLevel::Info => "INFO",
        LogLevel::Debug => "DEBUG",
        LogLevel::Trace => "TRACE",
    }
}

/// The structured severity of a level.
pub fn level_severity(level: LogLevel) -> (r: Severity)
    ensures
        r == severity_of(level),
{
    match level {
        LogLevel::Error => Severity::Error,
        LogLevel::Warn => Severity::Warning,
        LogLevel::Info => Severity::Info,
        LogLevel::Debug => Severity::Debug,
        LogLevel::Trace => Severity::Default,
    }
}

/// Joins the parts of a text record.
pub fn compose_text_line(level: &str, target: &str, message: &str, suffix: &str) -> (r: String)
    ensures
        r@ == text_line(level@, target@, message@, suffix@),
{
    let mut r = String::from_str(level);
    r.append(":");
    r.append(target);
    r.append(" - ");
    r.append(message);
    r.append(suffix);
    r
}

/// Joins the parts of a text record of a panic.
pub fn compose_panic_line(message: &str, file: &str, line: u32, suffix: &str) -> (r: String)
    ensures
        r@ == panic_line(message@, file@, line, suffix@),
{
    let mut r = String::from_str("PANIC:");
    r.append(message);
    r.append(" - ");
    r.append(file);
    r.append(":");
    let l = decimal_string(line as u64);
    r.append(l.as_str());
    r.append(suffix);
    r
}

/// The log collector: renders records as text lines or structured documents,
/// adding a filtered backtrace to warnings and errors.
pub struct Logger<B, L> {
    id: String,
    producer: String,
    format: LogFormat,
    backtrace_count: u16,
    log_filter: L,
    _backtrace_filter: PhantomData<B>,
}

impl<B: BacktraceFilter, L: LogFilter + Default> Logger<B, L> {
    pub closed spec fn spec_id(&self) -> Seq<char> {
        self.id@
    }

    pub closed spec fn spec_producer(&self) -> Seq<char> {
        self.producer@
    }

    pub closed spec fn spec_format(&self) -> LogFormat {
        self.format
    }

    pub closed spec fn spec_backtrace_count(&self) -> u16 {
        self.backtrace_count
    }

    pub closed spec fn spec_log_filter(&self) -> L {
        self.log_filter
    }

    /// A logger for the given operation id and producer, in the given format,
    /// with four backtrace frames and the default record filter.
    pub fn new(id: &str, producer: &str, format: LogFormat) -> (r: Self)
        ensures
            r.spec_id() == id@,
            r.spec_producer() == producer@,
            r.spec_format() == format,
            r.spec_backtrace_count() == 4,
    {
        Logger {
            id: String::from_str(id),
            producer: String::from_str(producer),
            format,
            backtrace_count: 4,
            log_filter: L::default(),
            _backtrace_filter: PhantomData,
        }
    }

    pub fn with_format(self, format: LogFormat) -> (r: Self)
        ensures
            r.spec_format() == format,
            r.spec_id() == self.spec_id(),
            r.spec_producer() == self.spec_producer(),
            r.spec_backtrace_count() == self.spec_backtrace_count(),
            r.spec_log_filter() == self.spec_log_filter(),
    {
        let mut r = self;
        r.format = format;
        r
    }

    pub fn with_backtrace_count(self, backtrace_count: u16) -> (r: Self)
        ensures
            r.spec_backtrace_count() == backtrace_count,
            r.spec_id() == self.spec_id(),
            r.spec_producer() == self.spec_producer(),
            r.spec_format() == self.spec_format(),
            r.spec_log_filter() == self.spec_log_filter(),
    {
        let mut r = self;
        r.backtrace_count = backtrace_count;
        r
    }

    pub fn with_log_filter(self, log_filter: L) -> (r: Self)
        ensures
            r.spec_log_filter() == log_filter,
            r.spec_id() == self.spec_id(),
            r.spec_producer() == self.spec_producer(),
            r.spec_format() == self.spec_format(),
            r.spec_backtrace_count() == self.spec_backtrace_count(),
    {
        let mut r = self;
        r.log_filter = log_filter;
        r
    }

    /// Whether the record filter lets records of this kind through.
    pub fn enabled(&self, metadata: &LogMetadata) -> (r: bool)
        ensures
            r == self.spec_log_filter().admits(*metadata),
    {
        self.log_filter.filter(metadata)
    }

    /// The backtrace that a record of `level` carries: none below warnings.
    pub fn backtrace_suffix(&self, level: LogLevel) -> (r: String)
        ensures
            !shows_backtrace(level) ==> r@ == Seq::<char>::empty(),
            shows_backtrace(level) ==> is_rendered_backtrace::<B>(r@, self.spec_backtrace_count()),
    {
        if level == LogLevel::Error || level == LogLevel::Warn {
            get_backtrace_info::<B>(self.backtrace_count)
        } else {
            String::new()
        }
    }

    /// The fields of the structured document of a record with the given
    /// backtrace suffix.
    pub fn structured_entry(&self, record: &LogRecord, suffix: &str) -> (r: StructuredEntry)
        ensures
            r.severity == severity_of(record.metadata.level),
            opt_view(r.report_type) == (if record.metadata.level == LogLevel::Error {
                Some(REPORTED_ERROR_TYPE@)
            } else {
                None
            }),
            r.message@ == record.message@ + suffix@,
            r.operation_id@ == self.spec_id(),
            r.producer@ == self.spec_producer(),
            opt_view(r.file) == opt_view(record.file),
            opt_view(r.line) == line_view(record.line),
            opt_view(r.function) == opt_view(record.function),
    {
        let report_type = if record.metadata.level == LogLevel::Error {
            Some(String::from_str(REPORTED_ERROR_TYPE))
        } else {
            None
        };
        let mut message = record.message.clone();
        message.append(suffix);
        let line = match record.line {
            Some(l) => Some(decimal_string(l as u64)),
            None => None,
        };
        StructuredEntry {
            severity: level_severity(record.metadata.level),
            report_type,
            message,
            operation_id: self.id.clone(),
            producer: self.producer.clone(),
            file: copy_opt(&record.file),
            line,
            function: copy_opt(&record.function),
        }
    }

    /// The text line of a record that the record filter admitted:
    /// `LEVEL:TARGET - MESSAGE` then the backtrace suffix. The level label is
    /// padded to five characters and painted in its level's colour; the target
    /// is dimmed.
    pub fn render_text(&self, record: &LogRecord, suffix: &str) -> (r: String)
        ensures
            is_text_line(r@, record.metadata.level, record.metadata.target@, record.message@, suffix@),
    {
        let label = pad_right(level_label(record.metadata.level), 5);
        let level = paint(level_colour(record.metadata.level), label.as_str());
        let target = paint_dim(record.metadata.target.as_str());
        let r = compose_text_line(level.as_str(), target.as_str(), record.message.as_str(), suffix);
        assert(r@ == text_line(level@, target@, record.message@, suffix@));
        r
    }

    /// The output of a record that the record filter admitted: always one;
    /// a text line or a structured document.
    pub fn render_admitted(&self, record: &LogRecord) -> (r: Option<String>)
        ensures
            r.is_some(),
            self.spec_format() == LogFormat::Text ==> is_text_record::<B>(
                r->0@,
                record,
                self.spec_backtrace_count(),
            ),
    {
        let suffix = self.backtrace_suffix(record.metadata.level);
        match self.format {
            LogFormat::Text => {
                let r = self.render_text(record, suffix.as_str());
                assert(is_text_line(r@, record.metadata.level, record.metadata.target@, record.message@, suffix@));
                Some(r)
            },
            LogFormat::Json => {
                let entry = self.structured_entry(record, suffix.as_str());
                encode_entry(&entry, gc_severity(entry.severity))
            },
        }
    }

    /// The output of one record: none, without taking a backtrace, where the
    /// record filter drops it; otherwise as `render_admitted`.
    pub fn render(&self, record: &LogRecord) -> (r: Option<String>)
        ensures
            !self.spec_log_filter().admits(record.metadata) ==> r.is_none(),
            self.spec_log_filter().admits(record.metadata) ==> r.is_some(),
            self.spec_log_filter().admits(record.metadata) && self.spec_format()
                == LogFormat::Text ==> is_text_record::<B>(r->0@, record, self.spec_backtrace_count()),
    {
        if !self.enabled(&record.metadata) {
            return None;
        }
        self.render_admitted(record)
    }
}

/// Renders a panic report: always with the backtrace, and in the structured
/// format as a critical, reported error.
pub struct PanicReporter<B> {
    id: String,
    producer: String,
    backtrace_count: u16,
    _backtrace_filter: PhantomData<B>,
}

impl<B: BacktraceFilter> PanicReporter<B> {
    pub closed spec fn spec_id(&self) -> Seq<char> {
        self.id@
    }

    pub closed spec fn spec_producer(&self) -> Seq<char> {
        self.producer@
    }

    pub closed spec fn spec_backtrace_count(&self) -> u16 {
        self.backtrace_count
    }

    pub fn new(id: &str, producer: &str, backtrace_count: u16) -> (r: Self)
        ensures
            r.spec_id() == id@,
            r.spec_producer() == producer@,
            r.spec_backtrace_count() == backtrace_count,
    {
        PanicReporter {
            id: String::from_str(id),
            producer: String::from_str(producer),
            backtrace_count,
            _backtrace_filter: PhantomData,
        }
    }

    /// The fields of the structured document of a panic with the given
    /// backtrace suffix.
    pub fn structured_entry(&self, message: &str, file: &str, line: u32, suffix: &str) -> (r: StructuredEntry)
        ensures
            r.severity == Severity::Critical,
            opt_view(r.report_type) == Some(REPORTED_ERROR_TYPE@),
            r.message@ == message@ + suffix@,
            r.operation_id@ == self.spec_id(),
            r.producer@ == self.spec_producer(),
            opt_view(r.file) == Some(file@),
            opt_view(r.line) == Some(decimal(line as nat)),
            r.function is None,
    {
        let mut full = String::from_str(message);
        full.append(suffix);
        StructuredEntry {
            severity: Severity::Critical,
            report_type: Some(String::from_str(REPORTED_ERROR_TYPE)),
            message: full,
            operation_id: self.id.clone(),
            producer: self.producer.clone(),
            file: Some(String::from_str(file)),
            line: Some(decimal_string(line as u64)),
            function: None,
        }
    }

    /// The report of a panic with the given message at the given place, or
    /// `None` where the structured document cannot be serialised.
    pub fn render(&self, format: LogFormat, message: &str, file: &str, line: u32) -> (r: Option<String>)
        ensures
            format == LogFormat::Text ==> r.is_some(),
            format == LogFormat::Text ==> exists|suffix: Seq<char>|
                {
                    &&& r->0@ == panic_line(message@, file@, line, suffix)
                    &&& is_rendered_backtrace::<B>(suffix, self.spec_backtrace_count())
                },
    {
        let suffix = get_backtrace_info::<B>(self.backtrace_count);
        assert(is_rendered_backtrace::<B>(suffix@, self.spec_backtrace_count()));
        match format {
            LogFormat::Text => {
                let r = compose_panic_line(message, file, line, suffix.as_str());
                assert(r@ == panic_line(message@, file@, line, suffix@));
                Some(r)
            },
            LogFormat::Json => {
                let entry = self.structured_entry(message, file, line, suffix.as_str());
                encode_entry(&entry, gc_severity(entry.severity))
            },
        }
    }
}

} // verus!
