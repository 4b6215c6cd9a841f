//! Guest agent configuration and the pure decisions of its capture loop;
//! the threads, shared memory and platform capture around them live
//! outside this crate.

use vstd::prelude::*;

use crate::audio::AudioConfig;
use crate::protocol::{GuestCommand, GuestState};

verus! {

/// Guest agent configuration.
#[derive(Debug, Clone)]
pub struct AgentConfig {
    /// Shared memory path
    pub shm_path: String,
    /// Target frame rate
    pub target_fps: u32,
    /// Enable audio capture
    pub enable_audio: bool,
    /// Audio configuration
    pub audio_config: AudioConfig,
}

impl Default for AgentConfig {
    /// The default configuration captures at 60 frames per second with
    /// audio off.
    fn default() -> (r: Self)
        ensures
            r.shm_path@ == "/dev/shm/lg-capture"@,
            r.target_fps == 60,
            !r.enable_audio,
            r.audio_config == (AudioConfig {
                sample_rate: 48000,
                channels: 2,
                format: crate::protocol::AudioFormat::PcmS16Le,
                buffer_duration_ms: 20,
            }),
    {
        AgentConfig {
            shm_path: "/dev/shm/lg-capture".to_owned(),
            target_fps: 60,
            enable_audio: false,
            audio_config: AudioConfig::default(),
        }
    }
}

/// What one iteration of the agent's command loop does in response to
/// the host's command word, given whether capture is currently running.
#[derive(Debug, Clone, Copy, PartialEq, Eq, Structural)]
pub enum AgentAction {
    /// Begin capturing and report the capturing state
    StartCapture,
    /// End capturing and report the idle state
    StopCapture,
    /// Re-read the frame format from the header
    ApplyFormat,
    /// Nothing to do
    Idle,
}

/// The agent's reaction to a host command: a start command begins capture
/// when stopped; a stop command ends it when running; a format command
/// re-reads the format; no command leaves things as they are.
pub open spec fn spec_agent_step(command: GuestCommand, capturing: bool) -> (AgentAction, bool) {
    match command {
        GuestCommand::StartCapture => if capturing {
            (AgentAction::Idle, true)
        } else {
            (AgentAction::StartCapture, true)
        },
        GuestCommand::StopCapture => if capturing {
            (AgentAction::StopCapture, false)
        } else {
            (AgentAction::Idle, false)
        },
        GuestCommand::SetFormat => (AgentAction::ApplyFormat, capturing),
        GuestCommand::NoCommand => (AgentAction::Idle, capturing),
    }
}

/// Decide one iteration of the agent's command loop: the action to take
/// and whether capture runs afterwards.
pub fn agent_step(command: GuestCommand, capturing: bool) -> (r: (AgentAction, bool))
    ensures
        r == spec_agent_step(command, capturing),
{
    match command {
        GuestCommand::StartCapture => {
            if capturing {
                (AgentAction::Idle, true)
            } else {
                (AgentAction::StartCapture, true)
            }
        },
        GuestCommand::StopCapture => {
            if capturing {
                (AgentAction::StopCapture, false)
            } else {
                (AgentAction::Idle, false)
            }
        },
        GuestCommand::SetFormat => (AgentAction::ApplyFormat, capturing),
        GuestCommand::NoCommand => (AgentAction::Idle, capturing),
    }
}

/// The state the agent reports for a capture flag.
pub fn agent_state_for(capturing: bool) -> (r: GuestState)
    ensures
        r == (if capturing {
            GuestState::Capturing
        } else {
            GuestState::Idle
        }),
{
    if capturing {
        GuestState::Capturing
    } else {
        GuestState::Idle
    }
}

} // verus!
