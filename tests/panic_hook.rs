use myemma_core::{BacktraceFilter, LogFormat, PanicReporter, SymbolInfo};

struct CoreBacktraceFilter;

impl BacktraceFilter for CoreBacktraceFilter {
    fn keeps(symbol: SymbolInfo) -> bool {
        Self::filter(&symbol)
    }

    fn line_numbers() -> bool {
        false
    }

    fn with_line_numbers() -> bool {
        false
    }

    fn filter(symbol: &SymbolInfo) -> bool {
        if let Some(name) = &symbol.name {
            return name.starts_with("controllers::")
                && !name.starts_with("controllers::server::error")
                || name.starts_with("dtos::")
                || name.starts_with("entities::")
                || name.starts_with("main::")
                || name.starts_with("models::") && !name.starts_with("models::error")
                || name.starts_with("services::");
        }
        false
    }
}

#[test]
pub fn test_build() {
    let reporter =
        PanicReporter::<CoreBacktraceFilter>::new("MyEmma Backend", "MyEmma Backend Core", 8);
    let text = reporter.render(LogFormat::Text, "oops", "src/main.rs", 3);
    assert_eq!(text, Some("PANIC:oops - src/main.rs:3".to_string()));
}

#[test]
fn panic_json_document() {
    let reporter =
        PanicReporter::<CoreBacktraceFilter>::new("MyEmma Backend", "MyEmma Backend Core", 8);
    let out = reporter.render(LogFormat::Json, "oops", "src/main.rs", 3).unwrap();
    let doc: serde_json::Value = serde_json::from_str(&out).unwrap();
    assert_eq!(doc["message"], "oops");
    assert_eq!(doc["logging.googleapis.com/operation"]["id"], "MyEmma Backend");
    assert_eq!(doc["logging.googleapis.com/sourceLocation"]["line"], "3");
    assert!(doc.get("@type").is_some());
}
