use myemma_core::{
    compose_panic_line, compose_text_line, level_colour, level_label, pad_right, Colour, level_severity, BacktraceFilter,
    LogFilter, LogFormat, LogLevel, LogMetadata, LogRecord, Logger, Severity, SymbolInfo,
};

struct NoFrames;

impl BacktraceFilter for NoFrames {
    fn keeps(symbol: SymbolInfo) -> bool {
        Self::filter(&symbol)
    }

    fn line_numbers() -> bool {
        false
    }

    fn with_line_numbers() -> bool {
        false
    }

    fn filter(_symbol: &SymbolInfo) -> bool {
        false
    }
}

struct AllFrames;

impl BacktraceFilter for AllFrames {
    fn keeps(symbol: SymbolInfo) -> bool {
        Self::filter(&symbol)
    }

    fn line_numbers() -> bool {
        false
    }

    fn with_line_numbers() -> bool {
        false
    }

    fn filter(_symbol: &SymbolInfo) -> bool {
        true
    }
}

#[derive(Default)]
struct AllowAll;

impl LogFilter for AllowAll {
    fn admits(&self, metadata: LogMetadata) -> bool {
        self.filter(&metadata)
    }

    fn filter(&self, _metadata: &LogMetadata) -> bool {
        true
    }
}

#[derive(Default)]
struct OnlyErrors;

impl LogFilter for OnlyErrors {
    fn admits(&self, metadata: LogMetadata) -> bool {
        self.filter(&metadata)
    }

    fn filter(&self, metadata: &LogMetadata) -> bool {
        metadata.level == LogLevel::Error
    }
}

fn record(level: LogLevel, message: &str) -> LogRecord {
    LogRecord {
        metadata: LogMetadata {
            level,
            target: "svc::db".to_string(),
        },
        message: message.to_string(),
        file: Some("src/db.rs".to_string()),
        line: Some(17),
        function: Some("svc::db".to_string()),
    }
}

#[test]
fn text_error_with_non_matching_filter_has_empty_suffix() {
    let logger = Logger::<NoFrames, AllowAll>::new("svc", "core", LogFormat::Text);
    let out = logger.render(&record(LogLevel::Error, "boom")).unwrap();
    assert!(out.ends_with(" - boom"));
    assert!(!out.contains('\n'));
    assert!(out.contains("ERROR"));
    assert!(out.contains("svc::db"));
}

#[test]
fn text_info_has_no_backtrace() {
    let logger = Logger::<AllFrames, AllowAll>::new("svc", "core", LogFormat::Text);
    let out = logger.render(&record(LogLevel::Info, "hello")).unwrap();
    assert!(out.ends_with(" - hello"));
    assert!(logger.backtrace_suffix(LogLevel::Info).is_empty());
    assert!(logger.backtrace_suffix(LogLevel::Debug).is_empty());
}

#[test]
fn text_warning_carries_backtrace() {
    let logger =
        Logger::<AllFrames, AllowAll>::new("svc", "core", LogFormat::Text).with_backtrace_count(2);
    let out = logger.render(&record(LogLevel::Warn, "careful")).unwrap();
    let frames = out.split('\n').count() - 1;
    assert!(frames >= 1 && frames <= 2);
}

#[test]
fn filtered_record_is_dropped() {
    let logger = Logger::<NoFrames, OnlyErrors>::new("svc", "core", LogFormat::Text);
    assert!(logger.render(&record(LogLevel::Info, "quiet")).is_none());
    assert!(logger.render(&record(LogLevel::Error, "loud")).is_some());
}

#[test]
fn json_error_document() {
    let logger = Logger::<NoFrames, AllowAll>::new("svc", "core", LogFormat::Text)
        .with_format(LogFormat::Json);
    let out = logger.render(&record(LogLevel::Error, "boom")).unwrap();
    let doc: serde_json::Value = serde_json::from_str(&out).unwrap();
    assert_eq!(doc["message"], "boom");
    assert_eq!(
        doc["@type"],
        "type.googleapis.com/google.devtools.clouderrorreporting.v1beta1.ReportedErrorEvent"
    );
    assert_eq!(doc["logging.googleapis.com/operation"]["id"], "svc");
    assert_eq!(doc["logging.googleapis.com/operation"]["producer"], "core");
    assert_eq!(doc["logging.googleapis.com/sourceLocation"]["file"], "src/db.rs");
    assert_eq!(doc["logging.googleapis.com/sourceLocation"]["line"], "17");
    assert!(doc["time"].is_string());
    assert!(doc["severity"].is_string());
}

#[test]
fn json_warning_has_no_report_type() {
    let logger = Logger::<NoFrames, AllowAll>::new("svc", "core", LogFormat::Json);
    let out = logger.render(&record(LogLevel::Warn, "careful")).unwrap();
    let doc: serde_json::Value = serde_json::from_str(&out).unwrap();
    assert!(doc.get("@type").is_none());
    assert_eq!(doc["message"], "careful");
}

#[test]
fn structured_fields_of_record() {
    let logger = Logger::<NoFrames, AllowAll>::new("svc", "core", LogFormat::Json);
    let e = logger.structured_entry(&record(LogLevel::Trace, "t"), "\nx");
    assert_eq!(e.severity, Severity::Default);
    assert_eq!(e.report_type, None);
    assert_eq!(e.message, "t\nx");
    assert_eq!(e.line, Some("17".to_string()));
    assert_eq!(e.operation_id, "svc");
    assert_eq!(e.producer, "core");
}

#[test]
fn level_mappings() {
    assert_eq!(level_severity(LogLevel::Error), Severity::Error);
    assert_eq!(level_severity(LogLevel::Warn), Severity::Warning);
    assert_eq!(level_severity(LogLevel::Info), Severity::Info);
    assert_eq!(level_severity(LogLevel::Debug), Severity::Debug);
    assert_eq!(level_severity(LogLevel::Trace), Severity::Default);
    assert_eq!(level_label(LogLevel::Warn), "WARN");
}

#[test]
fn format_selection() {
    assert_eq!(LogFormat::from_setting(Some("json".to_string())), LogFormat::Json);
    assert_eq!(LogFormat::from_setting(Some("text".to_string())), LogFormat::Text);
    assert_eq!(LogFormat::from_setting(Some("JSON".to_string())), LogFormat::Text);
    assert_eq!(LogFormat::from_setting(None), LogFormat::Text);
    assert_eq!(LogFormat::default(), LogFormat::Text);
}

#[test]
fn text_line_layout() {
    assert_eq!(compose_text_line("ERROR", "app", "boom", ""), "ERROR:app - boom");
    assert_eq!(
        compose_panic_line("oops", "src/main.rs", 12, "\nmain::run"),
        "PANIC:oops - src/main.rs:12\nmain::run"
    );
}

#[test]
fn level_colours_and_padding() {
    assert_eq!(level_colour(LogLevel::Error), Colour::Red);
    assert_eq!(level_colour(LogLevel::Warn), Colour::Yellow);
    assert_eq!(level_colour(LogLevel::Info), Colour::Blue);
    assert_eq!(level_colour(LogLevel::Debug), Colour::Green);
    assert_eq!(level_colour(LogLevel::Trace), Colour::Magenta);
    assert_eq!(pad_right("WARN", 5), "WARN ");
    assert_eq!(pad_right("ERROR", 5), "ERROR");
    assert_eq!(pad_right("", 3), "   ");
}

#[test]
fn admitted_text_record_always_renders() {
    let logger = Logger::<NoFrames, OnlyErrors>::new("svc", "core", LogFormat::Text);
    let out = logger.render_admitted(&record(LogLevel::Info, "hi")).unwrap();
    assert!(out.contains("INFO "));
    assert!(out.ends_with(" - hi"));
    let line = logger.render_text(&record(LogLevel::Warn, "w"), "\nx");
    assert!(line.contains("WARN "));
    assert!(line.ends_with(" - w\nx"));
}
