//! Structured error and diagnostics core for a backend service: a classified
//! application error that keeps its correlation id through rewrites, a filtered
//! backtrace renderer, and a leveled text / structured log renderer.

mod api_error;
mod backtrace_filter;
mod error_kind;
mod error_manipulation;
mod launch;
mod logger;
mod options;
mod text;

pub use text::{decimal, decimal_string, digit_char, join_with, joined_with};
pub use error_kind::{
    kind_label, kind_name, kind_to_status, lemma_status_round_trip, status_to_kind, ApiErrorKind,
};
pub use api_error::{
    change_line, change_lines, code_change, id_change, internal_text, is_alphanumeric,
    is_correlation_id, kind_change, lemma_correlation_id_kept, lemma_private_is_withheld, lemma_transform_keeps_id,
    lemma_transform_on_code, msg_change, public_code, public_message, set_kind_text, std_error_kind,
    std_error_message, transform_report_text, transformed, transformed_on_code, ApiError,
    ApiErrorCode, ApiErrorModel, StdErrorSource, ID_LEN,
};
pub use error_manipulation::ApiErrorManipulation;
pub use backtrace_filter::{
    accepted, backtrace_text, contains_text, filtered_backtrace, get_backtrace_info, is_accepted, is_capture_frame,
    is_capture_routine, is_reportable, occurs_in, render_selected, render_symbol, render_symbols,
    kept_by, selected, symbol_line, BacktraceFilter, SymbolInfo, CAPTURE_ROUTINE_MARK,
};
pub use logger::{
    colour_digit, colour_of, compose_panic_line, compose_text_line, format_of, is_painted,
    is_painted_in, is_text_line, is_text_record,
    is_rendered_backtrace, level_colour, level_label, pad_right, padded, Colour,
    level_severity, level_text, line_view, opt_view, panic_line, severity_of, shows_backtrace,
    text_line, LogFilter, LogFormat, LogLevel, LogMetadata, LogRecord, Logger, PanicReporter,
    Severity, StructuredEntry, REPORTED_ERROR_TYPE,
};
pub use options::{
    allow_methods, contains_string, distinct_paths, methods_at, methods_for_path,
    options_paths, options_routes, paths_of, paths_without_options, OptionsRoute, RouteInfo,
};
pub use launch::{
    collision_messages, collision_text, launch_failure_message, launch_message, sentinel_message,
    sentinel_text, LaunchFailure,
};
