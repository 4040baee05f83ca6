//! The command as the tool's arguments give it.

use vstd::prelude::*;
use vstd::string::StringExecFns;
use crate::error::TiResult;
use crate::text::{join_spaced, spaced, texts};

verus! {

/// The shell that runs when no command is given.
pub const DEFAULT_SHELL: &'static str = "powershell.exe";

/// The command surface of the tool.
pub struct CLI;

/// The command line for the given words: the default shell for none, the
/// words joined by single spaces otherwise.
pub open spec fn command_for(words: Seq<Seq<char>>) -> Seq<char> {
    if words.len() == 0 {
        DEFAULT_SHELL@
    } else {
        spaced(words)
    }
}

impl CLI {
    /// The command line to run for the words given on the tool's own
    /// command line, the command first and its arguments after it. Without
    /// any word it is the default shell. The words are joined as they are:
    /// nothing is quoted or escaped.
    pub fn get_command(words: &Vec<String>) -> (r: TiResult<String>)
        ensures
            r matches Ok(line) && line@ == command_for(texts(words@)),
    {
        if words.len() == 0 {
            Ok(String::from_str(DEFAULT_SHELL))
        } else {
            Ok(join_spaced(words))
        }
    }
}

} // verus!
