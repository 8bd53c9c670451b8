use stblib::colors::{BLUE, BOLD, C_RESET, RED, YELLOW};
use stblib::logging::features::{Features, LoggingFeatures};
use stblib::logging::featureset::FeatureSet;
use stblib::logging::formats::{basic_fmt, colored, default_fmt};
use stblib::logging::level::LogLevel;
use stblib::logging::Logger;
use stblib::time::current_time;

#[test]
fn default_format_templates() {
    let f = default_fmt();
    assert_eq!(f.info, format!("{C_RESET}{BOLD}[%<time>%] {BLUE}[%<levelname>%]{C_RESET}    [%<message>%]"));
    assert_eq!(f.error, format!("{C_RESET}{BOLD}[%<time>%] {RED}[%<levelname>%]{C_RESET}   [%<message>%]"));
    assert_eq!(f.ok, format!("{C_RESET}{BOLD}[%<time>%] {BLUE}[%<levelname>%]{C_RESET}   [%<message>%]"));
    assert_eq!(f.warning, format!("{C_RESET}{BOLD}[%<time>%] {YELLOW}[%<levelname>%]{C_RESET} [%<message>%]"));
    assert_eq!(f.critical, format!("{C_RESET}{BOLD}[%<time>%] {RED}[%<levelname>%]{C_RESET} [%<message>%]"));
    assert_eq!(f.panic, format!("{C_RESET}{BOLD}[%<time>%] {RED}[%<levelname>%]{C_RESET}   [%<message>%]"));
    assert_eq!(f.log_options.timestamp_format, "%Y-%m-%d %H:%M");
    assert!(!f.log_options.levelname_lowercase);
    assert_eq!(colored("<c>", "_"), "\x1b[0m\x1b[1m[%<time>%] <c>[%<levelname>%]\x1b[0m_[%<message>%]");
}

#[test]
fn basic_format_templates() {
    let f = basic_fmt();
    for template in [&f.info, &f.error, &f.ok, &f.warning, &f.critical, &f.panic] {
        assert_eq!(template, "[%<levelname>%]: [%<message>%]");
    }
    assert_eq!(f.log_options.timestamp_format, "");
    assert!(!f.log_options.levelname_lowercase);
}

#[test]
fn level_names() {
    let mut logger = Logger::new(LoggingFeatures::new(), basic_fmt());
    assert_eq!(logger.map_loglevel(&LogLevel::OK), "OK");
    assert_eq!(logger.map_loglevel(&LogLevel::INFO), "INFO");
    assert_eq!(logger.map_loglevel(&LogLevel::ERROR), "ERROR");
    assert_eq!(logger.map_loglevel(&LogLevel::WARNING), "WARNING");
    assert_eq!(logger.map_loglevel(&LogLevel::CRITICAL), "CRITICAL");
    assert_eq!(logger.map_loglevel(&LogLevel::PANIC), "PANIC");
    logger.format.log_options.levelname_lowercase = true;
    assert_eq!(logger.map_loglevel(&LogLevel::OK), "ok");
    assert_eq!(logger.map_loglevel(&LogLevel::WARNING), "warning");
    assert_eq!(logger.map_loglevel(&LogLevel::PANIC), "panic");
}

#[test]
fn render_fills_the_placeholders() {
    let logger = Logger::new(LoggingFeatures::new(), basic_fmt());
    assert_eq!(logger.render(&LogLevel::INFO, "started", "12:00"), "INFO: started");
    assert_eq!(logger.render(&LogLevel::ERROR, "", ""), "ERROR: ");
    let colored = Logger::default();
    assert_eq!(
        colored.render(&LogLevel::WARNING, "careful", "2024-01-02 03:04"),
        "\x1b[0m\x1b[1m2024-01-02 03:04 \x1b[33mWARNING\x1b[0m careful"
    );
    assert_eq!(
        colored.render(&LogLevel::OK, "fine", "t"),
        "\x1b[0m\x1b[1mt \x1b[34mOK\x1b[0m   fine"
    );
}

#[test]
fn render_fills_in_order() {
    let logger = Logger::new(LoggingFeatures::new(), basic_fmt());
    assert_eq!(
        logger.render(&LogLevel::INFO, "at [%<time>%] [%<levelname>%]", "noon"),
        "INFO: at noon [%<levelname>%]"
    );
}

#[test]
fn parse_uses_the_clock() {
    let logger = Logger::new(LoggingFeatures::new(), basic_fmt());
    assert_eq!(logger.parse(&LogLevel::CRITICAL, "down"), "CRITICAL: down");
    let mut dated = Logger::default();
    dated.format.info = "[%<time>%]|[%<message>%]".to_string();
    dated.format.log_options.timestamp_format = "%Y".to_string();
    let line = dated.parse(&LogLevel::INFO, "x");
    assert_eq!(line.len(), 6);
    assert!(line.ends_with("|x"));
    assert!(line[..4].chars().all(|c| c.is_ascii_digit()));
}

#[test]
fn current_time_follows_the_format() {
    assert_eq!(current_time(""), Some(String::new()));
    assert_eq!(current_time("at"), Some("at".to_string()));
    let year = current_time("%Y").unwrap();
    assert_eq!(year.len(), 4);
    assert_ne!(year, "%Y");
    assert_eq!(current_time("%Q"), None);
}

#[test]
fn logging_features_switch() {
    let mut features = LoggingFeatures::new();
    assert!(!features.enable_file_handler);
    features.enable(&[]);
    assert!(!features.enable_file_handler);
    features.enable(&[Features::FileHandler]);
    assert!(features.enable_file_handler);
    assert!(features.unwrap().enable_file_handler);
    features.disable(&[]);
    assert!(features.enable_file_handler);
    features.disable(&[Features::FileHandler, Features::FileHandler]);
    assert!(!features.enable_file_handler);
    assert_eq!(LoggingFeatures::default(), LoggingFeatures::new());
}

#[test]
fn feature_set_switches() {
    let mut set = FeatureSet::new();
    assert!(!set.enable_file_handler);
    set.enable(&stblib::logging::featureset::Features::FileHandler);
    assert!(set.enable_file_handler);
    assert!(set.unwrap().enable_file_handler);
    set.disable(&stblib::logging::featureset::Features::FileHandler);
    assert!(!set.enable_file_handler);
    assert_eq!(FeatureSet::default(), FeatureSet::new());
}

#[test]
fn default_logger() {
    let logger = Logger::default();
    assert!(!logger.features.enable_file_handler);
    assert_eq!(logger.format, default_fmt());
}
