//! The directly attached radio, as far as its command mode goes.
//!
//! Entering command mode needs a second of silence on the line before and
//! after the guard sequence; leaving it needs none. Changes made in command
//! mode take effect once they are applied and written.

use vstd::prelude::*;
use crate::atcommands::{AtCommand, AtCommandView, AtCommands};
use crate::error::Error;

verus! {

/// The silence, in milliseconds, around the guard sequence.
pub const GUARD_MILLIS: u64 = 1000;

/// What to do to switch command mode: wait, send the command and read its
/// response, wait again.
#[derive(Debug, Clone, Copy)]
pub struct ModeSwitch<'a> {
    pub quiet_before_ms: u64,
    pub command: AtCommand<'a>,
    pub quiet_after_ms: u64,
}

/// What to do when changes are to be applied.
#[derive(Debug, Clone, Copy)]
pub enum ChangesPlan<'a> {
    /// Send `apply` and read its response, then the same with `write`.
    Apply { apply: AtCommand<'a>, write: AtCommand<'a> },
    /// The radio is not in command mode. Try to enter it as `enter` says,
    /// whatever comes of the attempt, then report `error`.
    Refused { enter: ModeSwitch<'a>, error: Error },
}

/// The coordinator's own radio.
#[derive(Debug, Clone, Copy, PartialEq, Eq, Structural)]
pub struct DigiMeshDevice {
    /// Whether the radio is in command mode.
    pub cmd_mode: bool,
}

impl DigiMeshDevice {
    /// A radio that is not in command mode.
    pub fn new() -> (d: Self)
        ensures
            !d.cmd_mode,
    {
        DigiMeshDevice { cmd_mode: false }
    }

    /// Says how to enter (`true`) or leave (`false`) command mode. Once the
    /// caller has done so, it reports it with `mode_switched`.
    pub fn command_mode(&self, mode: bool) -> (plan: ModeSwitch<'static>)
        ensures
            plan.command@ == AtCommands::CmdMode(mode).spec_create(),
            plan.quiet_before_ms == if mode {
                GUARD_MILLIS
            } else {
                0
            },
            plan.quiet_after_ms == plan.quiet_before_ms,
    {
        let quiet: u64 = if mode {
            GUARD_MILLIS
        } else {
            0
        };
        let command = match mode {
            true => AtCommand { command: "+++", parameter: &None, rcr_len: 1 },
            false => AtCommand { command: "CN", parameter: &None, rcr_len: 1 },
        };
        ModeSwitch { quiet_before_ms: quiet, command, quiet_after_ms: quiet }
    }

    /// Records that command mode was entered or left.
    pub fn mode_switched(&mut self, mode: bool)
        ensures
            final(self).cmd_mode == mode,
    {
        self.cmd_mode = mode;
    }

    /// Says how to make the changes made in command mode take effect and
    /// last. Outside command mode there is nothing to apply: the caller is
    /// to try to enter command mode and to report the error.
    pub fn apply_changes(&self) -> (plan: ChangesPlan<'static>)
        ensures
            match plan {
                ChangesPlan::Apply { apply, write } => {
                    &&& self.cmd_mode
                    &&& apply@ == (AtCommandView { command: "AC"@, parameter: None, rcr_len: 1 })
                    &&& write@ == (AtCommandView { command: "WR"@, parameter: None, rcr_len: 1 })
                },
                ChangesPlan::Refused { enter, error } => {
                    &&& !self.cmd_mode
                    &&& error == Error::InvalidMode
                    &&& enter.command@ == AtCommands::CmdMode(true).spec_create()
                    &&& enter.quiet_before_ms == GUARD_MILLIS
                    &&& enter.quiet_after_ms == GUARD_MILLIS
                },
            },
    {
        if !self.cmd_mode {
            return ChangesPlan::Refused {
                enter: self.command_mode(true),
                error: Error::InvalidMode,
            };
        }
        ChangesPlan::Apply {
            apply: AtCommand { command: "AC", parameter: &None, rcr_len: 1 },
            write: AtCommand { command: "WR", parameter: &None, rcr_len: 1 },
        }
    }
}

} // verus!
