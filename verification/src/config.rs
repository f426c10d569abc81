//! The persisted configuration.

use vstd::prelude::*;

verus! {

/// The persisted configuration.
#[derive(Debug)]
pub struct Config {
    temp: String,
}

impl Default for Config {
    /// The configuration in force where none is persisted.
    fn default() -> (config: Self)
        ensures
            config.temp()@ == Seq::<char>::empty(),
    {
        Config { temp: String::new() }
    }
}

impl Config {
    /// The configuration in force where none is persisted.
    pub fn new() -> (config: Self)
        ensures
            config.temp()@ == Seq::<char>::empty(),
    {
        Self::default()
    }

    pub closed spec fn temp(&self) -> String {
        self.temp
    }
}

} // verus!
