use myemma_core::{
    get_backtrace_info,
    contains_text, is_capture_routine, render_selected, render_symbol, render_symbols,
    BacktraceFilter,
    SymbolInfo, CAPTURE_ROUTINE_MARK,
};

struct AllFrames;

impl BacktraceFilter for AllFrames {
    fn keeps(symbol: SymbolInfo) -> bool {
        Self::filter(&symbol)
    }

    fn line_numbers() -> bool {
        false
    }

    fn with_line_numbers() -> bool {
        false
    }

    fn filter(_symbol: &SymbolInfo) -> bool {
        true
    }
}

struct NoFrames;

impl BacktraceFilter for NoFrames {
    fn keeps(symbol: SymbolInfo) -> bool {
        Self::filter(&symbol)
    }

    fn line_numbers() -> bool {
        false
    }

    fn with_line_numbers() -> bool {
        false
    }

    fn filter(_symbol: &SymbolInfo) -> bool {
        false
    }
}

fn lines(text: &str) -> Vec<&str> {
    text.split('\n').skip(1).collect()
}

#[test]
fn rendering_stops_at_max_frames() {
    let text = get_backtrace_info::<AllFrames>(3);
    assert!(text.starts_with('\n'));
    let ls = lines(&text);
    assert!(!ls.is_empty());
    assert!(ls.len() <= 3);
    for l in ls {
        assert!(!l.is_empty());
        assert!(!l.contains(" line: "));
        assert!(!l.contains(CAPTURE_ROUTINE_MARK));
    }
}

#[test]
fn rendering_zero_frames_is_empty() {
    assert_eq!(get_backtrace_info::<AllFrames>(0), "");
}

#[test]
fn non_matching_filter_renders_nothing() {
    assert_eq!(get_backtrace_info::<NoFrames>(8), "");
}

#[test]
fn symbol_rendering() {
    let s = SymbolInfo {
        name: Some("services::user::load".to_string()),
        file: Some("src/user.rs".to_string()),
        line: Some(42),
    };
    assert_eq!(render_symbol(&s, true), "\nservices::user::load line: 42");
    assert_eq!(render_symbol(&s, false), "\nservices::user::load");
    let t = SymbolInfo {
        name: Some("main::run".to_string()),
        file: None,
        line: None,
    };
    assert_eq!(render_symbol(&t, true), "\nmain::run");
    assert_eq!(
        render_symbols(&vec![s, t], true),
        "\nservices::user::load line: 42\nmain::run"
    );
    assert_eq!(render_symbols(&vec![], true), "");
}

#[test]
fn substring_search() {
    assert!(contains_text("abcdef", "cde"));
    assert!(contains_text("abc", ""));
    assert!(!contains_text("abc", "abcd"));
    assert!(!contains_text("abcabd", "abe"));
    assert!(is_capture_routine(
        "<T as myemma_core::backtrace_filter::BacktraceFilter>::get_backtrace_info"
    ));
    assert!(!is_capture_routine("services::user::load"));
}

fn named(name: &str, line: u32) -> SymbolInfo {
    SymbolInfo {
        name: Some(name.to_string()),
        file: None,
        line: Some(line),
    }
}

#[test]
fn selection_takes_first_accepted_in_stack_order() {
    let symbols = vec![
        named("myemma_core::backtrace_filter::stack_frames", 1),
        named("std::rt::lang_start", 2),
        named("services::a", 3),
        SymbolInfo {
            name: None,
            file: None,
            line: None,
        },
        named("services::b", 4),
        named("services::c", 5),
    ];
    let keeps = vec![true, false, true, true, true, true];
    assert_eq!(
        render_selected(&symbols, &keeps, 2, true),
        "\nservices::a line: 3\nservices::b line: 4"
    );
    assert_eq!(
        render_selected(&symbols, &keeps, 8, false),
        "\nservices::a\nservices::b\nservices::c"
    );
    assert_eq!(render_selected(&symbols, &keeps, 0, true), "");
    assert_eq!(
        render_selected(&symbols, &vec![false; 6], 8, true),
        ""
    );
}
