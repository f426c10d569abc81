//! What the command line can set.

use vstd::prelude::*;

verus! {

/// The word count asked for where the command line names none.
pub const CLI_DEFAULT_WORD_COUNT: u32 = 25;

/// The values given on the command line.
#[derive(Debug)]
pub struct Cli {
    /// Start on the typing page instead of the menu.
    pub skip_menu: bool,
    /// The path of a configuration file; empty where none is given.
    pub config: String,
    /// The number of words of a phrase.
    pub wc: u32,
}

impl Cli {
    /// The values in force where the command line gives none.
    pub fn new() -> (cli: Self)
        ensures
            !cli.skip_menu,
            cli.config@ == Seq::<char>::empty(),
            cli.wc == CLI_DEFAULT_WORD_COUNT,
    {
        Cli { skip_menu: false, config: String::new(), wc: CLI_DEFAULT_WORD_COUNT }
    }
}

} // verus!
