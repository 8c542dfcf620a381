//! Small decisions about the system: the script that starts the bar at
//! login, the keys that open the notifications, and restarting the shell.

use vstd::prelude::*;
use vstd::string::*;
use crate::text::{contains_text, str_contains};

verus! {

/// The first build of Windows 11.
pub const WINDOWS_11_BUILD: u32 = 22000;

/// The virtual key code of the letter N.
pub const VK_N: u16 = 0x4E;

/// The virtual key code of the letter A.
pub const VK_A: u16 = 0x41;

/// The name of the script in the startup folder.
pub const BAT_FILENAME: &'static str = "BarMinimalTools.bat";

/// The script that starts the program at `exe_path` detached from the console.
pub open spec fn startup_script_for(exe_path: Seq<char>) -> Seq<char> {
    "@echo off\r\nstart \"\" \""@ + exe_path + "\"\r\n"@
}

/// The script that starts the program at `exe_path` at login.
pub fn startup_script(exe_path: &str) -> (script: String)
    ensures
        script@ == startup_script_for(exe_path@),
{
    let mut script = String::from_str("@echo off\r\nstart \"\" \"");
    script.append(exe_path);
    script.append("\"\r\n");
    script
}

/// Whether a build of Windows is Windows 11 or newer. A build that could
/// not be read counts as older.
pub fn is_windows_11_or_newer(build: Option<u32>) -> (r: bool)
    ensures
        r == (build matches Some(b) && b >= WINDOWS_11_BUILD),
{
    match build {
        Some(b) => b >= WINDOWS_11_BUILD,
        None => false,
    }
}

/// The key that opens the notifications together with the Windows key: N
/// from Windows 11 on, A before.
pub fn notification_key(build: Option<u32>) -> (key: u16)
    ensures
        key == (if build matches Some(b) && b >= WINDOWS_11_BUILD {
            VK_N
        } else {
            VK_A
        }),
{
    if is_windows_11_or_newer(build) {
        VK_N
    } else {
        VK_A
    }
}

/// What the system said about having taken the key events of a shortcut:
/// an error unless it took all four.
pub fn shortcut_sent(sent: u32) -> (r: Result<(), (u32, u32)>)
    ensures
        r == (if sent == 4 {
            Ok::<(), (u32, u32)>(())
        } else {
            Err::<(), (u32, u32)>((sent, 4u32))
        }),
{
    if sent == 4 {
        Ok(())
    } else {
        Err((sent, 4))
    }
}

/// Whether the list of running programs names the shell.
pub fn is_explorer_running(task_list_lowercase: &str) -> (r: bool)
    ensures
        r == contains_text(task_list_lowercase@, "explorer.exe"@),
{
    str_contains(task_list_lowercase, "explorer.exe")
}

/// How often the shell is started again before the restart is given up.
pub const RESTART_ROUNDS: u8 = 5;

/// What the embedding does next to restart the shell.
#[derive(Clone, Copy, Debug, PartialEq, Eq)]
pub enum RestartStep {
    /// End the shell, and wait until that is done. Only the shell itself is
    /// ended, not the programs it started.
    KillShell,
    /// Block for `millis` milliseconds.
    Wait { millis: u64 },
    /// Find out whether the shell runs, and report it.
    CheckRunning,
    /// Start the shell through the command interpreter.
    StartDetached,
    /// Start the shell through the scripting host.
    StartByScript,
    /// The restart is over. Whether the shell runs was confirmed or not: it was attempted.
    Done,
}

/// Which step of a restart is under way.
#[derive(Clone, Copy, Debug, PartialEq, Eq)]
pub enum RestartPhase {
    Killing,
    Settling,
    /// Looking whether the shell runs, at the start of a round.
    Checking,
    Starting,
    WaitingForStart,
    /// Looking whether the shell runs, after it was started.
    Confirming,
    StartingByScript,
    WaitingForScript,
    Finished,
}

/// A restart of the shell, step by step.
#[derive(Clone, Copy, Debug, PartialEq, Eq)]
pub struct ExplorerRestart {
    pub phase: RestartPhase,
    /// The round that is under way, counted from 0.
    pub round: u8,
}

impl ExplorerRestart {
    /// The restart after the step that was handed out last has been
    /// performed, and the step that follows. `running` is read after
    /// `CheckRunning` only.
    pub open spec fn next(self, running: bool) -> (ExplorerRestart, RestartStep) {
        match self.phase {
            RestartPhase::Killing => (
                ExplorerRestart { phase: RestartPhase::Settling, ..self },
                RestartStep::Wait { millis: 900 },
            ),
            RestartPhase::Settling => (
                ExplorerRestart { phase: RestartPhase::Checking, ..self },
                RestartStep::CheckRunning,
            ),
            RestartPhase::Checking => if running {
                (ExplorerRestart { phase: RestartPhase::Finished, ..self }, RestartStep::Done)
            } else {
                (
                    ExplorerRestart { phase: RestartPhase::Starting, ..self },
                    RestartStep::StartDetached,
                )
            },
            RestartPhase::Starting => (
                ExplorerRestart { phase: RestartPhase::WaitingForStart, ..self },
                RestartStep::Wait { millis: 800 },
            ),
            RestartPhase::WaitingForStart => (
                ExplorerRestart { phase: RestartPhase::Confirming, ..self },
                RestartStep::CheckRunning,
            ),
            RestartPhase::Confirming => if running {
                (ExplorerRestart { phase: RestartPhase::Finished, ..self }, RestartStep::Done)
            } else {
                (
                    ExplorerRestart { phase: RestartPhase::StartingByScript, ..self },
                    RestartStep::StartByScript,
                )
            },
            RestartPhase::StartingByScript => (
                ExplorerRestart { phase: RestartPhase::WaitingForScript, ..self },
                RestartStep::Wait { millis: 900 },
            ),
            RestartPhase::WaitingForScript => if self.round + 1 < RESTART_ROUNDS {
                (
                    ExplorerRestart {
                        phase: RestartPhase::Checking,
                        round: (self.round + 1) as u8,
                    },
                    RestartStep::CheckRunning,
                )
            } else {
                (ExplorerRestart { phase: RestartPhase::Finished, ..self }, RestartStep::Done)
            },
            RestartPhase::Finished => (self, RestartStep::Done),
        }
    }

    /// An upper bound on the steps that are still to come.
    pub open spec fn steps_left(self) -> nat {
        let rounds: nat = if self.round < RESTART_ROUNDS {
            (RESTART_ROUNDS - 1 - self.round) as nat
        } else {
            0
        };
        6 * rounds + (match self.phase {
            RestartPhase::Killing => 8nat,
            RestartPhase::Settling => 7,
            RestartPhase::Checking => 6,
            RestartPhase::Starting => 5,
            RestartPhase::WaitingForStart => 4,
            RestartPhase::Confirming => 3,
            RestartPhase::StartingByScript => 2,
            RestartPhase::WaitingForScript => 1,
            RestartPhase::Finished => 0,
        })
    }

    /// Starts a restart: the first step is to end the shell.
    pub fn start() -> (r: (ExplorerRestart, RestartStep))
        ensures
            r.0 == (ExplorerRestart { phase: RestartPhase::Killing, round: 0 }),
            r.1 == RestartStep::KillShell,
    {
        (ExplorerRestart { phase: RestartPhase::Killing, round: 0 }, RestartStep::KillShell)
    }

    /// Says what to do after the step that was handed out last.
    ///
    /// The shell is given a moment to end. Then, up to [`RESTART_ROUNDS`]
    /// times: if it runs, the restart is over; else it is started, and if
    /// it still does not run after a moment, started in another way. Every
    /// step but the last brings the end nearer.
    pub fn advance(&mut self, running: bool) -> (step: RestartStep)
        ensures
            (*final(self), step) == old(self).next(running),
            old(self).phase != RestartPhase::Finished ==> final(self).steps_left() < old(
                self,
            ).steps_left(),
            step == RestartStep::Done <==> final(self).phase == RestartPhase::Finished,
    {
        match self.phase {
            RestartPhase::Killing => {
                self.phase = RestartPhase::Settling;
                RestartStep::Wait { millis: 900 }
            },
            RestartPhase::Settling => {
                self.phase = RestartPhase::Checking;
                RestartStep::CheckRunning
            },
            RestartPhase::Checking => {
                if running {
                    self.phase = RestartPhase::Finished;
                    RestartStep::Done
                } else {
                    self.phase = RestartPhase::Starting;
                    RestartStep::StartDetached
                }
            },
            RestartPhase::Starting => {
                self.phase = RestartPhase::WaitingForStart;
                RestartStep::Wait { millis: 800 }
            },
            RestartPhase::WaitingForStart => {
                self.phase = RestartPhase::Confirming;
                RestartStep::CheckRunning
            },
            RestartPhase::Confirming => {
                if running {
                    self.phase = RestartPhase::Finished;
                    RestartStep::Done
                } else {
                    self.phase = RestartPhase::StartingByScript;
                    RestartStep::StartByScript
                }
            },
            RestartPhase::StartingByScript => {
                self.phase = RestartPhase::WaitingForScript;
                RestartStep::Wait { millis: 900 }
            },
            RestartPhase::WaitingForScript => {
                if self.round < RESTART_ROUNDS - 1 {
                    self.phase = RestartPhase::Checking;
                    self.round = self.round + 1;
                    RestartStep::CheckRunning
                } else {
                    self.phase = RestartPhase::Finished;
                    RestartStep::Done
                }
            },
            RestartPhase::Finished => RestartStep::Done,
        }
    }
}

} // verus!
