use idio::logger::{log, log_engine, ConsoleStyle, LogLevel};

fn painted(level: LogLevel) -> String {
    log("Game", level, "hello".to_string()).console.unwrap().painted
}

#[test]
fn console_lines_are_painted_in_the_colours_of_their_level() {
    colored::control::set_override(true);
    assert_eq!(painted(LogLevel::Info), "\x1b[32m[Game]: hello\x1b[0m");
    assert_eq!(painted(LogLevel::Warning), "\x1b[33m[Game]: hello\x1b[0m");
    assert_eq!(painted(LogLevel::Error), "\x1b[31m[Game]: hello\x1b[0m");
    assert_eq!(painted(LogLevel::Critical), "\x1b[41;37m[Game]: hello\x1b[0m");
}

#[test]
fn painting_leaves_text_and_file_line_bare() {
    colored::control::set_override(true);
    let record = log_engine(LogLevel::Warning, "careful".to_string());
    let line = record.console.as_ref().unwrap();
    assert_eq!(line.painted, "\x1b[33m[Idio]: careful\x1b[0m");
    assert_eq!(line.text, "[Idio]: careful");
    assert_eq!(line.style, ConsoleStyle::Yellow);
    assert_eq!(record.file, "[Idio, Warning] careful");
    assert_eq!(record.file_entry(), "[Idio, Warning] careful\n");
}

#[test]
fn a_reset_code_inside_the_line_is_followed_by_the_style_again() {
    colored::control::set_override(true);
    let record = log("Game", LogLevel::Info, "a\x1b[0mb".to_string());
    let line = record.console.unwrap();
    assert_eq!(line.text, "[Game]: a\x1b[0mb");
    assert_eq!(line.painted, "\x1b[32m[Game]: a\x1b[0m\x1b[32mb\x1b[0m");
    assert_eq!(record.file, "[Game, Info] a\x1b[0mb");
}
