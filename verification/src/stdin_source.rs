//! Commands typed on standard input.
use vstd::prelude::*;
use crate::command_parser::{parse_command, spec_parse_command, ParseStep};

verus! {

/// Reads commands from standard input, each line one message.
pub struct StdinSource {
    /// The symbol that starts a command.
    pub command_symbol: String,
}

impl StdinSource {
    /// Parses one line read from standard input.
    pub fn parse_line(&self, line: &str) -> (r: ParseStep)
        ensures
            r@ == spec_parse_command(line@, self.command_symbol@),
    {
        parse_command(line, self.command_symbol.as_str())
    }
}

} // verus!
