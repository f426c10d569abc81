//! The settings of a session.

use vstd::prelude::*;

verus! {

/// The number of words of a phrase unless the user asks for another.
pub const DEFAULT_WORD_COUNT: u32 = 10;

/// `wc` is one of the word counts the user can cycle through.
pub open spec fn is_allowed_word_count(wc: u32) -> bool {
    wc == 10 || wc == 25 || wc == 50 || wc == 100
}

/// The allowed word count that follows `wc`: the smallest one above it, and
/// the first one where none is above it.
pub open spec fn following_word_count(wc: u32) -> u32 {
    if wc < 10 {
        10
    } else if wc < 25 {
        25
    } else if wc < 50 {
        50
    } else if wc < 100 {
        100
    } else {
        10
    }
}

/// The settings of a session: how many words a phrase has, and three
/// switches.
#[derive(Debug, Clone, Copy, PartialEq, Eq, Structural)]
pub struct PromptSettings {
    pub wc: u32,
    pub capitalization: bool,
    pub punctuation: bool,
    pub zen: bool,
}

impl PromptSettings {
    /// The settings a session starts with.
    pub open spec fn initial() -> PromptSettings {
        PromptSettings {
            wc: DEFAULT_WORD_COUNT,
            capitalization: false,
            punctuation: false,
            zen: false,
        }
    }

    pub fn new() -> (settings: Self)
        ensures
            settings == Self::initial(),
    {
        Self { wc: DEFAULT_WORD_COUNT, capitalization: false, punctuation: false, zen: false }
    }

    pub fn toggle_capitalization(&mut self)
        ensures
            *final(self) == (PromptSettings {
                capitalization: !old(self).capitalization,
                ..*old(self)
            }),
    {
        self.capitalization = !self.capitalization;
    }

    pub fn toggle_punctuation(&mut self)
        ensures
            *final(self) == (PromptSettings { punctuation: !old(self).punctuation, ..*old(self) }),
    {
        self.punctuation = !self.punctuation;
    }

    pub fn toggle_zen(&mut self)
        ensures
            *final(self) == (PromptSettings { zen: !old(self).zen, ..*old(self) }),
    {
        self.zen = !self.zen;
    }

    /// Moves the word count on to the allowed count that follows it.
    pub fn next_word_count(&mut self)
        ensures
            *final(self) == (PromptSettings { wc: following_word_count(old(self).wc), ..*old(self) }),
    {
        self.wc = if self.wc < 10 {
            10
        } else if self.wc < 25 {
            25
        } else if self.wc < 50 {
            50
        } else if self.wc < 100 {
            100
        } else {
            10
        };
    }
}

/// The word counts form a cycle in ascending order, 10, 25, 50, 100 and back
/// to 10: every step lands on an allowed count, and four steps from an
/// allowed count return to it.
pub proof fn lemma_word_counts_cycle(wc: u32)
    ensures
        is_allowed_word_count(following_word_count(wc)),
        following_word_count(10) == 25,
        following_word_count(25) == 50,
        following_word_count(50) == 100,
        following_word_count(100) == 10,
        is_allowed_word_count(wc) ==> following_word_count(
            following_word_count(following_word_count(following_word_count(wc))),
        ) == wc,
        is_allowed_word_count(DEFAULT_WORD_COUNT),
{
}

} // verus!
