//! A logger with a threshold: it decides whether a message is written and what the
//! line says. Writing the line is left to the caller.
//!
//! Warnings, errors and answers are decorated by the `colored` crate, which paints for
//! a terminal and leaves the text plain elsewhere: of a decorated text the contracts
//! say that it is one of the two. They take the switch of `colored` that turns
//! painting on and off to stand still while a line is written; nothing in this
//! library turns it.

use crate::level::DebugLevel;
use crate::text::join;
use colored::Colorize;
use vstd::prelude::*;
use vstd::string::*;

verus! {

/// The character that opens every sequence by which a terminal is told to paint.
pub open spec fn escape_char() -> char {
    '\u{1b}'
}

/// A text between the sequence that turns a style on and the one that turns every
/// style off: `ESC [ codes m`, the text, `ESC [ 0 m`.
pub open spec fn painted(codes: Seq<char>, text: Seq<char>) -> Seq<char> {
    seq![escape_char(), '['] + codes + seq!['m'] + text + seq![escape_char(), '[', '0', 'm']
}

/// The codes of bold yellow.
pub open spec fn yellow_bold_codes() -> Seq<char> {
    seq!['1', ';', '3', '3']
}

/// The codes of bold red.
pub open spec fn red_bold_codes() -> Seq<char> {
    seq!['1', ';', '3', '1']
}

/// The codes of black on blue.
pub open spec fn black_on_blue_codes() -> Seq<char> {
    seq!['4', '4', ';', '3', '0']
}

/// A text as `colored` writes it in black on blue when it paints. Where the text holds
/// sequences of its own that turn the style off, `colored` turns it on again behind
/// each of them.
pub uninterp spec fn black_on_blue_form(text: Seq<char>) -> Seq<char>;

/// `Colorize::yellow`, `Colorize::bold` and the `Display` of the result, on a text
/// without the escape character. Where `colored` does not paint (no terminal, or the
/// environment says so), the result is the text itself; where it paints, the result
/// is the text between the sequences of bold yellow and of the reset. The contract
/// takes the switch of `colored` to stand still while the text is written.
#[verifier::external_body]
fn yellow_bold(text: &str) -> (out: String)
    requires
        !text@.contains(escape_char()),
    ensures
        out@ == text@ || out@ == painted(yellow_bold_codes(), text@),
{
    format!("{}", text.yellow().bold())
}

/// `Colorize::red`, `Colorize::bold` and the `Display` of the result, on a text
/// without the escape character. Where `colored` does not paint, the result is the
/// text itself; where it paints, the result is the text between the sequences of bold
/// red and of the reset. The contract takes the switch of `colored` to stand still
/// while the text is written.
#[verifier::external_body]
fn red_bold(text: &str) -> (out: String)
    requires
        !text@.contains(escape_char()),
    ensures
        out@ == text@ || out@ == painted(red_bold_codes(), text@),
{
    format!("{}", text.red().bold())
}

/// `Colorize::black`, `Colorize::on_blue` and the `Display` of the result. Where
/// `colored` does not paint, the result is the text itself; where it paints, the
/// result depends on the text alone, and for a text without the escape character it
/// is the text between the sequences of black on blue and of the reset. The contract
/// takes the switch of `colored` to stand still while the text is written.
#[verifier::external_body]
fn black_on_blue(text: &str) -> (out: String)
    ensures
        out@ == text@ || out@ == black_on_blue_form(text@),
        !text@.contains(escape_char()) ==> out@ == text@ || out@ == painted(
            black_on_blue_codes(),
            text@,
        ),
{
    format!("{}", text.black().on_blue())
}

/// The tag that opens the line of a message; an answer has none.
pub open spec fn level_tag(lvl: DebugLevel) -> Seq<char> {
    match lvl {
        DebugLevel::Info => "[INF]=>"@,
        DebugLevel::Warn => "[WAR]=>"@,
        DebugLevel::Error => "[ERR]=>"@,
        DebugLevel::Answer => Seq::empty(),
    }
}

/// The line of a message without decoration: the tag, then the message.
pub open spec fn plain_line(lvl: DebugLevel, msg: Seq<char>) -> Seq<char> {
    level_tag(lvl) + msg
}

/// An answer as a whole in black on blue.
pub open spec fn painted_answer(msg: Seq<char>) -> Seq<char> {
    if msg.contains(escape_char()) {
        black_on_blue_form(msg)
    } else {
        painted(black_on_blue_codes(), msg)
    }
}

/// The line of a message where its decoration is painted: the tag of a warning in bold
/// yellow, that of an error in bold red, an answer as a whole in black on blue. A
/// message of the lowest level is never decorated.
pub open spec fn painted_line(lvl: DebugLevel, msg: Seq<char>) -> Seq<char> {
    match lvl {
        DebugLevel::Info => plain_line(lvl, msg),
        DebugLevel::Warn => painted(yellow_bold_codes(), level_tag(lvl)) + msg,
        DebugLevel::Error => painted(red_bold_codes(), level_tag(lvl)) + msg,
        DebugLevel::Answer => painted_answer(msg),
    }
}

/// Whether `line` is the line of the message, plain or painted.
pub open spec fn is_log_line(lvl: DebugLevel, msg: Seq<char>, line: Seq<char>) -> bool {
    line == plain_line(lvl, msg) || line == painted_line(lvl, msg)
}

/// A logger: messages below its threshold are dropped.
pub struct Logger {
    pub trigger_level: DebugLevel,
}

impl Logger {
    /// A logger with the given threshold.
    pub fn create_logger(trigger_level: DebugLevel) -> (logger: Logger)
        ensures
            logger.trigger_level == trigger_level,
    {
        Logger { trigger_level }
    }

    /// The body of a line: the message as it is.
    pub fn format_msg(msg: &str) -> (out: String)
        ensures
            out@ == msg@,
    {
        String::from_str(msg)
    }

    /// Puts a line together from its tag, decorated or not, and the message.
    pub fn tagged(tag: &str, msg: &str) -> (out: String)
        ensures
            out@ == tag@ + msg@,
    {
        let body = Logger::format_msg(msg);
        join(tag, body.as_str())
    }

    /// The line of a message of the given level.
    pub fn format_log(lvl: DebugLevel, msg: &str) -> (out: String)
        ensures
            is_log_line(lvl, msg@, out@),
            lvl == DebugLevel::Info ==> out@ == plain_line(lvl, msg@),
    {
        match lvl {
            DebugLevel::Info => Logger::tagged("[INF]=>", msg),
            DebugLevel::Warn => {
                proof {
                    reveal_strlit("[WAR]=>");
                    assert forall|i: int| 0 <= i < 7 implies "[WAR]=>"@[i] != escape_char() by {}
                }
                let tag = yellow_bold("[WAR]=>");
                Logger::tagged(tag.as_str(), msg)
            },
            DebugLevel::Error => {
                proof {
                    reveal_strlit("[ERR]=>");
                    assert forall|i: int| 0 <= i < 7 implies "[ERR]=>"@[i] != escape_char() by {}
                }
                let tag = red_bold("[ERR]=>");
                Logger::tagged(tag.as_str(), msg)
            },
            DebugLevel::Answer => {
                let body = Logger::format_msg(msg);
                let out = black_on_blue(body.as_str());
                assert(plain_line(lvl, msg@) =~= msg@);
                out
            },
        }
    }

    /// Decides on a message: the line to write where the level of the message reaches
    /// the threshold, nothing where it does not.
    pub fn log(&self, lvl: DebugLevel, msg: &str) -> (line: Option<String>)
        ensures
            line is Some <==> self.trigger_level.rank() <= lvl.rank(),
            line matches Some(text) ==> is_log_line(lvl, msg@, text@),
    {
        if self.trigger_level.can_trigger(&lvl) {
            Some(Logger::format_log(lvl, msg))
        } else {
            None
        }
    }

    /// Decides on a message of the lowest level.
    pub fn info(&self, msg: &str) -> (line: Option<String>)
        ensures
            line is Some <==> self.trigger_level.rank() <= DebugLevel::Info.rank(),
            line matches Some(text) ==> text@ == plain_line(DebugLevel::Info, msg@),
    {
        self.log(DebugLevel::Info, msg)
    }

    /// Decides on a warning.
    pub fn warn(&self, msg: &str) -> (line: Option<String>)
        ensures
            line is Some <==> self.trigger_level.rank() <= DebugLevel::Warn.rank(),
            line matches Some(text) ==> is_log_line(DebugLevel::Warn, msg@, text@),
    {
        self.log(DebugLevel::Warn, msg)
    }

    /// Decides on an error.
    pub fn err(&self, msg: &str) -> (line: Option<String>)
        ensures
            line is Some <==> self.trigger_level.rank() <= DebugLevel::Error.rank(),
            line matches Some(text) ==> is_log_line(DebugLevel::Error, msg@, text@),
    {
        self.log(DebugLevel::Error, msg)
    }

    /// Decides on an answer, which passes every threshold.
    pub fn answer(&self, msg: &str) -> (line: Option<String>)
        ensures
            line matches Some(text) && is_log_line(DebugLevel::Answer, msg@, text@),
    {
        self.log(DebugLevel::Answer, msg)
    }
}

} // verus!
