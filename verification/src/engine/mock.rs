use vstd::prelude::*;
use super::core_engine::EngineCommand;

verus! {

/// An engine that sends no packets: it only consumes commands until `Stop`.
#[derive(Default)]
pub struct MockEngine;

impl MockEngine {
    pub fn new() -> Self {
        Self
    }

    /// Whether the mock engine keeps reading commands after `cmd`.
    pub fn keeps_running(&self, cmd: &EngineCommand) -> (res: bool)
        ensures
            res == !(*cmd is Stop),
    {
        match cmd {
            EngineCommand::Stop => false,
            _ => true,
        }
    }
}

} // verus!
