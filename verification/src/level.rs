//! The severity of a message.

use vstd::prelude::*;
use vstd::string::*;

verus! {

/// How severe a message is, from the least to the most.
#[derive(Debug, Copy, Clone, PartialEq, Eq, Structural)]
pub enum DebugLevel {
    Info,
    Warn,
    Error,
    Answer,
}

impl Default for DebugLevel {
    fn default() -> (r: DebugLevel)
        ensures
            r == DebugLevel::Warn,
    {
        DebugLevel::Warn
    }
}

impl DebugLevel {
    /// The place of a level in the order of severity.
    pub open spec fn rank(self) -> nat {
        match self {
            DebugLevel::Info => 0,
            DebugLevel::Warn => 1,
            DebugLevel::Error => 2,
            DebugLevel::Answer => 3,
        }
    }

    /// The four letters that name a level.
    pub open spec fn label(self) -> Seq<char> {
        match self {
            DebugLevel::Info => seq!['I', 'N', 'F', 'O'],
            DebugLevel::Warn => seq!['W', 'A', 'R', 'N'],
            DebugLevel::Error => seq!['E', 'R', 'R', 'O'],
            DebugLevel::Answer => seq!['A', 'N', 'S', 'W'],
        }
    }

    fn rank_of(&self) -> (r: u8)
        ensures
            r == self.rank(),
    {
        match self {
            DebugLevel::Info => 0,
            DebugLevel::Warn => 1,
            DebugLevel::Error => 2,
            DebugLevel::Answer => 3,
        }
    }

    /// With `self` as the threshold: whether a message of `current_level` passes, which
    /// it does unless the threshold is the more severe of the two.
    pub fn can_trigger(&self, current_level: &DebugLevel) -> (r: bool)
        ensures
            r == (self.rank() <= current_level.rank()),
    {
        if self.rank_of() > current_level.rank_of() {
            false
        } else {
            true
        }
    }

    /// The name of the level.
    pub fn to_string(&self) -> (out: String)
        ensures
            out@ == self.label(),
    {
        proof {
            reveal_strlit("INFO");
            reveal_strlit("WARN");
            reveal_strlit("ERRO");
            reveal_strlit("ANSW");
        }
        let name = match self {
            DebugLevel::Info => "INFO",
            DebugLevel::Warn => "WARN",
            DebugLevel::Error => "ERRO",
            DebugLevel::Answer => "ANSW",
        };
        assert(name@ =~= self.label());
        String::from_str(name)
    }
}

} // verus!
