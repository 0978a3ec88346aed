//! Box-drawing text tables: a column layout, and a renderer that turns rows of
//! cell text into lines of a table, one line or several per row. Around them, the
//! small records and rules of a contest toolkit: questions, message levels, a
//! command description.

pub mod ccc03s3;
pub mod cmd;
pub mod glyph;
pub mod io;
pub mod laws;
pub mod layout;
pub mod level;
pub mod log;
pub mod number;
pub mod pattern;
pub mod question;
pub mod render;
pub mod text;
pub mod wrap;
