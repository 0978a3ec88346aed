use ccc_lib::level::DebugLevel;
use ccc_lib::log::Logger;
use colored::Colorize;

#[test]
fn colorize_output() {
    let logger = Logger::create_logger(DebugLevel::Info);
    let line = logger.log(
        DebugLevel::Warn,
        format!(
            "This is a log.\n->{}\n->{}",
            "highlight".bright_blue().on_yellow(),
            "error".black().on_red(),
        )
        .as_str(),
    );
    assert!(line.is_some());
}

#[test]
fn all_types_log() {
    let logger = Logger::create_logger(DebugLevel::Info);
    assert!(logger.log(DebugLevel::Info, "this is information.").is_some());
    assert!(logger.warn("this is warning.").is_some());
    assert!(logger.err("this is error.").is_some());
    assert!(logger.answer("this is answer.").is_some());
}

#[test]
fn info_line_is_plain() {
    let logger = Logger::create_logger(DebugLevel::Info);
    assert_eq!(
        logger.info("this is information."),
        Some("[INF]=>this is information.".to_string())
    );
    assert_eq!(Logger::format_msg("as it is"), "as it is");
    assert_eq!(Logger::tagged("[tag]", "body"), "[tag]body");
}

#[test]
fn lines_plain_and_painted() {
    colored::control::set_override(false);
    assert_eq!(Logger::format_log(DebugLevel::Info, "m"), "[INF]=>m");
    assert_eq!(Logger::format_log(DebugLevel::Warn, "m"), "[WAR]=>m");
    assert_eq!(Logger::format_log(DebugLevel::Error, "m"), "[ERR]=>m");
    assert_eq!(Logger::format_log(DebugLevel::Answer, "m"), "m");

    colored::control::set_override(true);
    assert_eq!(Logger::format_log(DebugLevel::Info, "m"), "[INF]=>m");
    assert_eq!(
        Logger::format_log(DebugLevel::Warn, "m"),
        "\u{1b}[1;33m[WAR]=>\u{1b}[0mm"
    );
    assert_eq!(
        Logger::format_log(DebugLevel::Error, "m"),
        "\u{1b}[1;31m[ERR]=>\u{1b}[0mm"
    );
    assert_eq!(
        Logger::format_log(DebugLevel::Answer, "m"),
        "\u{1b}[44;30mm\u{1b}[0m"
    );
    colored::control::unset_override();
}

#[test]
fn threshold_drops_lower_levels() {
    let logger = Logger::create_logger(DebugLevel::Error);
    assert_eq!(logger.info("i"), None);
    assert_eq!(logger.warn("w"), None);
    assert!(logger.err("e").is_some());
    assert!(logger.answer("a").is_some());
    let logger = Logger::create_logger(DebugLevel::Answer);
    assert_eq!(logger.log(DebugLevel::Error, "e"), None);
    assert!(logger.log(DebugLevel::Answer, "a").is_some());
}
