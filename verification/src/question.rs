//! A contest question: the year, the level, its number in the paper, a title and a
//! description.

use crate::text::{decimal, decimal_seq};
use vstd::prelude::*;
use vstd::string::*;

verus! {

/// The level of a contest paper.
#[derive(Debug, Clone, PartialEq, Eq, Structural)]
pub enum QuestionType {
    Junior,
    Senior,
}

impl Default for QuestionType {
    fn default() -> (r: QuestionType)
        ensures
            r == QuestionType::Senior,
    {
        QuestionType::Senior
    }
}

impl QuestionType {
    /// The name of the level.
    pub open spec fn label(self) -> Seq<char> {
        match self {
            QuestionType::Junior => seq!['J', 'u', 'n', 'i', 'o', 'r'],
            QuestionType::Senior => seq!['S', 'e', 'n', 'i', 'o', 'r'],
        }
    }

    /// The name of the level.
    pub fn to_string(&self) -> (out: String)
        ensures
            out@ == self.label(),
    {
        proof {
            reveal_strlit("Junior");
            reveal_strlit("Senior");
        }
        let name = match self {
            QuestionType::Junior => "Junior",
            QuestionType::Senior => "Senior",
        };
        assert(name@ =~= self.label());
        String::from_str(name)
    }
}

/// A question of a contest paper.
#[derive(Debug, Clone)]
pub struct Question {
    pub year: u16,
    pub level: QuestionType,
    pub num: u8,
    pub title: String,
    pub description: String,
}

impl Question {
    /// The heading of a question: `Q[year-level-#num]: title`.
    pub open spec fn heading(&self) -> Seq<char> {
        seq!['Q', '['] + decimal_seq(self.year as nat) + seq!['-'] + self.level.label() + seq![
            '-',
            '#',
        ] + decimal_seq(self.num as nat) + seq![']', ':', ' '] + self.title@
    }

    /// The text of a question: its heading and, where there is a description, a line
    /// break and the description.
    pub open spec fn text(&self) -> Seq<char> {
        if self.description@.len() == 0 {
            self.heading()
        } else {
            self.heading() + seq!['\n'] + self.description@
        }
    }

    /// A question without a description.
    pub fn new(year: u16, level: QuestionType, num: u8, title: String) -> (q: Question)
        ensures
            q.year == year,
            q.level == level,
            q.num == num,
            q.title == title,
            q.description@ == Seq::<char>::empty(),
    {
        Question { year, level, num, title, description: String::new() }
    }

    /// Appends `description` to the description of the question.
    pub fn define(&mut self, description: &str)
        ensures
            final(self).description@ == old(self).description@ + description@,
            final(self).year == old(self).year,
            final(self).level == old(self).level,
            final(self).num == old(self).num,
            final(self).title == old(self).title,
    {
        self.description.append(description);
    }

    /// Writes the question as text.
    pub fn to_string(&self) -> (out: String)
        ensures
            out@ == self.text(),
    {
        proof {
            reveal_strlit("Q[");
            reveal_strlit("-");
            reveal_strlit("-#");
            reveal_strlit("]: ");
            reveal_strlit("\n");
        }
        let mut out = String::from_str("Q[");
        let year = decimal(self.year as u64);
        out.append(year.as_str());
        out.append("-");
        let level = self.level.to_string();
        out.append(level.as_str());
        out.append("-#");
        let num = decimal(self.num as u64);
        out.append(num.as_str());
        out.append("]: ");
        out.append(self.title.as_str());
        assert(out@ =~= self.heading());
        if !self.description.as_str().is_empty() {
            out.append("\n");
            out.append(self.description.as_str());
        }
        out
    }
}

} // verus!
