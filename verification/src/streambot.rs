//! The chat bot's decision on where its answers go.
use vstd::prelude::*;
use crate::config::OutputMode;

verus! {

/// Where an answer is delivered. Where both hold it is printed first.
#[derive(Clone, Copy, Debug, PartialEq, Eq, Structural)]
pub struct ResponseTargets {
    /// Printed on standard output.
    pub stdout: bool,
    /// Said in the chat channel.
    pub chat: bool,
}

/// Where the bot delivers an answer under `mode`.
pub fn response_targets(mode: OutputMode) -> (r: ResponseTargets)
    ensures
        r.stdout == (mode != OutputMode::Chat),
        r.chat == (mode != OutputMode::Stdout),
{
    match mode {
        OutputMode::Chat => ResponseTargets { stdout: false, chat: true },
        OutputMode::Stdout => ResponseTargets { stdout: true, chat: false },
        OutputMode::Both => ResponseTargets { stdout: true, chat: true },
    }
}

} // verus!
