//! Log levels, the layout of log lines, and the library's error type.

use crate::app::ApplicationInfo;
use crate::gfx::vulkan::{error_code_text, error_text};
use colored::Colorize;
use vstd::prelude::*;
use vstd::string::*;

verus! {

/// Severity of a log record, from the least to the most urgent.
#[derive(Clone, Copy, Debug, PartialEq, Eq, Structural)]
pub enum LogLevel {
    Trace,
    Info,
    Warning,
    Error,
    Critical,
}

impl LogLevel {
    /// Position of the level on the severity scale, `Trace` being 0.
    pub open spec fn rank(self) -> int {
        match self {
            LogLevel::Trace => 0,
            LogLevel::Info => 1,
            LogLevel::Warning => 2,
            LogLevel::Error => 3,
            LogLevel::Critical => 4,
        }
    }

    /// The level's name as it is written into a log file.
    pub open spec fn name(self) -> Seq<char> {
        match self {
            LogLevel::Trace => "Trace"@,
            LogLevel::Info => "Info"@,
            LogLevel::Warning => "Warning"@,
            LogLevel::Error => "Error"@,
            LogLevel::Critical => "Critical"@,
        }
    }

    /// The level's position on the severity scale.
    pub fn severity(&self) -> (n: u8)
        ensures
            n == self.rank(),
    {
        match self {
            LogLevel::Trace => 0,
            LogLevel::Info => 1,
            LogLevel::Warning => 2,
            LogLevel::Error => 3,
            LogLevel::Critical => 4,
        }
    }

    /// The level's name as a static string.
    pub fn as_str(&self) -> (s: &'static str)
        ensures
            s@ == self.name(),
    {
        match self {
            LogLevel::Trace => "Trace",
            LogLevel::Info => "Info",
            LogLevel::Warning => "Warning",
            LogLevel::Error => "Error",
            LogLevel::Critical => "Critical",
        }
    }

    /// The level's name as an owned string.
    pub fn to_string(&self) -> (s: String)
        ensures
            s@ == self.name(),
    {
        String::from_str(self.as_str())
    }
}

/// The library's error: what failed, and at which layer.
#[derive(Debug)]
pub enum IdioError {
    /// The window system or the operating system refused a request.
    PlatformError(String),
    /// The graphics API refused a request.
    VulkanError(String),
    /// A condition the program cannot run without does not hold.
    Critical(&'static str),
}

/// An error as plain values: its kind and its words.
pub enum ErrorModel {
    Platform(Seq<char>),
    Vulkan(Seq<char>),
    Critical(Seq<char>),
}

impl View for IdioError {
    type V = ErrorModel;

    open spec fn view(&self) -> ErrorModel {
        match self {
            IdioError::PlatformError(r) => ErrorModel::Platform(r@),
            IdioError::VulkanError(r) => ErrorModel::Vulkan(r@),
            IdioError::Critical(r) => ErrorModel::Critical(r@),
        }
    }
}

impl IdioError {
    /// The graphics API's error with the given code, in the words the bindings
    /// have for that code.
    pub fn from_vulkan(code: i32) -> (error: IdioError)
        ensures
            error@ == ErrorModel::Vulkan(error_code_text(code)),
    {
        IdioError::VulkanError(error_text(code))
    }

    /// The text a user is shown for the error.
    pub open spec fn message(self) -> Seq<char> {
        match self {
            IdioError::PlatformError(r) => "Platform error: "@ + r@,
            IdioError::VulkanError(r) => "Vulkan error: "@ + r@,
            IdioError::Critical(r) => "Critical error: "@ + r@,
        }
    }

    /// The text a user is shown for the error.
    pub fn to_string(&self) -> (s: String)
        ensures
            s@ == self.message(),
    {
        match self {
            IdioError::PlatformError(r) => String::from_str("Platform error: ").concat(r.as_str()),
            IdioError::VulkanError(r) => String::from_str("Vulkan error: ").concat(r.as_str()),
            IdioError::Critical(r) => String::from_str("Critical error: ").concat(r),
        }
    }
}

/// The colours in which a console line is shown.
#[derive(Clone, Copy, Debug, PartialEq, Eq, Structural)]
pub enum ConsoleStyle {
    Green,
    Yellow,
    Red,
    WhiteOnRed,
}

/// The escape code that ends all colouring.
pub open spec fn reset_code() -> Seq<char> {
    "\x1b[0m"@
}

/// The escape code that begins a style: foreground green, yellow or red, or
/// background red with foreground white.
pub open spec fn style_code(style: ConsoleStyle) -> Seq<char> {
    match style {
        ConsoleStyle::Green => "\x1b[32m"@,
        ConsoleStyle::Yellow => "\x1b[33m"@,
        ConsoleStyle::Red => "\x1b[31m"@,
        ConsoleStyle::WhiteOnRed => "\x1b[41;37m"@,
    }
}

/// A text between the escape code of a style and the reset code.
pub open spec fn coloured(text: Seq<char>, style: ConsoleStyle) -> Seq<char> {
    style_code(style) + text + reset_code()
}

/// Whether the reset code stands in the text at `at`.
pub open spec fn reset_at(text: Seq<char>, at: int) -> bool {
    0 <= at && at + reset_code().len() <= text.len() && text.subrange(
        at,
        at + reset_code().len(),
    ) == reset_code()
}

/// Whether the text holds the reset code somewhere.
pub open spec fn holds_reset(text: Seq<char>) -> bool {
    exists|at: int| reset_at(text, at)
}

/// Whether `painted` is what a terminal is to receive for `text` in `style`:
/// the bare text where the process's environment and its standard output
/// take no colours, and the text between the style's escape code and the
/// reset code where they do. Of a text that itself holds the reset code,
/// which is then worked over so that the style goes on after it, nothing is
/// said.
pub open spec fn painted_as(painted: Seq<char>, text: Seq<char>, style: ConsoleStyle) -> bool {
    !holds_reset(text) ==> painted == text || painted == coloured(text, style)
}

/// The `Display` rendering, taken with `to_string`, of the text that
/// `colored::Colorize::green` makes of a string slice. The rendering is the
/// text itself where `colored` finds that colours are off, and otherwise the
/// escape code for a green foreground, the text, and the reset code, as long
/// as the text holds no reset code of its own.
#[verifier::external_body]
fn green(text: &str) -> (painted: String)
    ensures
        painted_as(painted@, text@, ConsoleStyle::Green),
{
    text.green().to_string()
}

/// The `Display` rendering, taken with `to_string`, of the text that
/// `colored::Colorize::yellow` makes of a string slice. The rendering is the
/// text itself where `colored` finds that colours are off, and otherwise the
/// escape code for a yellow foreground, the text, and the reset code, as long
/// as the text holds no reset code of its own.
#[verifier::external_body]
fn yellow(text: &str) -> (painted: String)
    ensures
        painted_as(painted@, text@, ConsoleStyle::Yellow),
{
    text.yellow().to_string()
}

/// The `Display` rendering, taken with `to_string`, of the text that
/// `colored::Colorize::red` makes of a string slice. The rendering is the
/// text itself where `colored` finds that colours are off, and otherwise the
/// escape code for a red foreground, the text, and the reset code, as long as
/// the text holds no reset code of its own.
#[verifier::external_body]
fn red(text: &str) -> (painted: String)
    ensures
        painted_as(painted@, text@, ConsoleStyle::Red),
{
    text.red().to_string()
}

/// The `Display` rendering, taken with `to_string`, of the text that
/// `colored::Colorize::white` and then `colored::Colorize::on_red` make of a
/// string slice. The rendering is the text itself where `colored` finds that
/// colours are off, and otherwise the escape code for a red background with
/// a white foreground, the text, and the reset code, as long as the text
/// holds no reset code of its own.
#[verifier::external_body]
fn white_on_red(text: &str) -> (painted: String)
    ensures
        painted_as(painted@, text@, ConsoleStyle::WhiteOnRed),
{
    text.white().on_red().to_string()
}

/// The console line of a record: `[<sink>]: <message>`.
pub open spec fn console_text(sink: Seq<char>, message: Seq<char>) -> Seq<char> {
    "["@ + sink + "]: "@ + message
}

/// The file line of a record: `[<sink>, <level>] <message>`.
pub open spec fn file_text(sink: Seq<char>, level: LogLevel, message: Seq<char>) -> Seq<char> {
    "["@ + sink + ", "@ + level.name() + "] "@ + message
}

/// The colours of a level's console lines: none for `Trace`, whose records are
/// not shown on the console at all.
pub open spec fn style_of(level: LogLevel) -> Option<ConsoleStyle> {
    match level {
        LogLevel::Trace => None,
        LogLevel::Info => Some(ConsoleStyle::Green),
        LogLevel::Warning => Some(ConsoleStyle::Yellow),
        LogLevel::Error => Some(ConsoleStyle::Red),
        LogLevel::Critical => Some(ConsoleStyle::WhiteOnRed),
    }
}

/// The console line of a record, before any colouring.
pub fn console_line(logger_name: &str, msg: &str) -> (line: String)
    ensures
        line@ == console_text(logger_name@, msg@),
{
    let mut line = String::from_str("[");
    line.append(logger_name);
    line.append("]: ");
    line.append(msg);
    line
}

/// The line of a record as it is written to the log file, without the line
/// break that ends it.
pub fn file_line(logger_name: &str, level: LogLevel, msg: &str) -> (line: String)
    ensures
        line@ == file_text(logger_name@, level, msg@),
{
    let mut line = String::from_str("[");
    line.append(logger_name);
    line.append(", ");
    line.append(level.as_str());
    line.append("] ");
    line.append(msg);
    line
}

/// The colours of a level's console lines, or `None` where the level is not
/// shown on the console.
pub fn console_style(level: LogLevel) -> (style: Option<ConsoleStyle>)
    ensures
        style == style_of(level),
{
    match level {
        LogLevel::Trace => None,
        LogLevel::Info => Some(ConsoleStyle::Green),
        LogLevel::Warning => Some(ConsoleStyle::Yellow),
        LogLevel::Error => Some(ConsoleStyle::Red),
        LogLevel::Critical => Some(ConsoleStyle::WhiteOnRed),
    }
}

/// A console line in the given colours, as the terminal is to receive it.
/// Whether the colours appear as escape codes round the line is decided by
/// the environment the process runs in: the line comes back bare where it
/// takes no colours, and between the style's escape code and the reset code
/// where it does.
fn paint(line: &str, style: ConsoleStyle) -> (painted: String)
    ensures
        painted_as(painted@, line@, style),
{
    match style {
        ConsoleStyle::Green => green(line),
        ConsoleStyle::Yellow => yellow(line),
        ConsoleStyle::Red => red(line),
        ConsoleStyle::WhiteOnRed => white_on_red(line),
    }
}

/// A line for the console.
#[derive(Debug)]
pub struct ConsoleLine {
    /// The line as plain text.
    pub text: String,
    /// The colours the line is shown in.
    pub style: ConsoleStyle,
    /// The line as the terminal is to receive it: `text` in the colours of
    /// `style`, as `painted_as` says.
    pub painted: String,
}

/// What one log call puts out: the line for the console, if the level is shown
/// there, and the line for the log file.
#[derive(Debug)]
pub struct LogRecord {
    pub console: Option<ConsoleLine>,
    pub file: String,
}

/// Whether the record is that of `message` at `level` under `sink`: its file
/// line is `[<sink>, <level>] <message>`, and its console line is
/// `[<sink>]: <message>` in the colours of the level, painted as the
/// terminal is to receive it, or absent where the level has none.
pub open spec fn records(
    record: LogRecord,
    sink: Seq<char>,
    level: LogLevel,
    message: Seq<char>,
) -> bool {
    &&& record.file@ == file_text(sink, level, message)
    &&& match style_of(level) {
        Some(style) => record.console matches Some(line) && line.text@ == console_text(
            sink,
            message,
        ) && line.style == style && painted_as(line.painted@, line.text@, style),
        None => record.console is None,
    }
}

impl LogRecord {
    /// What the record adds to the log file: its file line and a line break.
    pub fn file_entry(&self) -> (entry: String)
        ensures
            entry@ == self.file@ + "\n"@,
    {
        let mut entry = self.file.clone();
        entry.append("\n");
        entry
    }
}

/// One log call: the record of `msg` at `level` under the sink `logger_name`.
/// Which of its two forms the painted console line takes depends on the
/// terminal.
pub fn log(logger_name: &'static str, level: LogLevel, msg: String) -> (record: LogRecord)
    ensures
        records(record, logger_name@, level, msg@),
{
    let file = file_line(logger_name, level, msg.as_str());
    let console = match console_style(level) {
        None => None,
        Some(style) => {
            let text = console_line(logger_name, msg.as_str());
            let painted = paint(text.as_str(), style);
            Some(ConsoleLine { text, style, painted })
        },
    };
    LogRecord { console, file }
}

/// The sink under which the engine logs.
pub open spec fn engine_sink() -> Seq<char> {
    "Idio"@
}

/// The sink under which the application logs.
pub open spec fn game_sink() -> Seq<char> {
    "Game"@
}

/// A log call of the engine: `log` under the sink "Idio".
pub fn log_engine(level: LogLevel, msg: String) -> (record: LogRecord)
    ensures
        records(record, engine_sink(), level, msg@),
{
    log("Idio", level, msg)
}

/// A log call of the application: `log` under the sink "Game".
pub fn log_game(level: LogLevel, msg: String) -> (record: LogRecord)
    ensures
        records(record, game_sink(), level, msg@),
{
    log("Game", level, msg)
}

/// The name of the log file.
pub open spec fn log_file_name() -> Seq<char> {
    "latest.log"@
}

/// Where the log of a run goes.
#[derive(Debug)]
pub struct LogTarget {
    /// The directory that holds the log file.
    pub directory: String,
    pub file_name: &'static str,
    /// Whether a log file that is there already is emptied before the run
    /// writes to it.
    pub truncate: bool,
}

/// Where the log of the application's run goes: into `latest.log` in its
/// preference directory, in place of what an earlier run left there.
pub fn init(app: &ApplicationInfo) -> (target: LogTarget)
    ensures
        target.directory@ == app.pref_path@,
        target.file_name@ == log_file_name(),
        target.truncate,
{
    LogTarget { directory: app.pref_path.clone(), file_name: "latest.log", truncate: true }
}

/// The mode of a Windows console with virtual terminal processing switched
/// on, which such a console needs before it shows colours: the mode with the
/// bit of value 4 set.
pub fn console_mode_with_vtp(mode: u32) -> (enabled: u32)
    ensures
        enabled == mode | 0x0004,
{
    mode | 0x0004
}

} // verus!
