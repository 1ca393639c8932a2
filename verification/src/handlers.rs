//! Planning of the remote-triggered commands.
//!
//! Each registered command is a thin adapter: the planner below decides,
//! from the request alone, whether to answer at once or to call a
//! collaborator, and the response builders map the collaborator's
//! outcome back to a response. The collaborator calls themselves (audio
//! player and recorder, shell execution, version lookup) are the
//! application's.

use vstd::prelude::*;

use crate::protocol::{DataValue, PayloadValue, Request, Response};

verus! {

/// The error text of a response to a `run_shell` request without a
/// usable command string.
pub const EMPTY_COMMAND_ERROR: &'static str = "empty command";

/// The error text of a response to a `run_shell` request whose payload
/// is not a string.
pub const BAD_COMMAND_PAYLOAD_ERROR: &'static str = "command payload is not a string";

/// The collaborator call that a planned command asks for.
#[derive(Clone, Debug)]
pub enum CommandAction {
    /// Report the client's version string.
    GetVersion,
    /// Run the given shell command line and report its captured output.
    RunShell { command: String },
    /// Start the audio player. `config` is the payload's raw JSON text;
    /// the application deserializes it into the collaborator's
    /// configuration type, and a text that fails that decode counts as
    /// no configuration, exactly like a missing payload.
    StartPlay { config: Option<String> },
    /// Stop the audio player.
    StopPlay,
    /// Start the audio recorder; captured bytes flow outward as
    /// "record" stream messages. `config` is handled as for `StartPlay`:
    /// raw JSON text that the application deserializes, a failed decode
    /// counting as no configuration.
    StartRecording { config: Option<String> },
    /// Stop the audio recorder.
    StopRecording,
}

/// What to do with one inbound request for a registered command: call a
/// collaborator, or answer at once.
#[derive(Clone, Debug)]
pub enum CommandPlan {
    Call { action: CommandAction },
    Reply { response: Response },
}

/// The optional raw configuration text that an audio command hands to
/// its collaborator: the payload's JSON text when one was given. A
/// string payload is no configuration object, so it carries none.
pub open spec fn spec_audio_config(payload: Option<PayloadValue>) -> Option<Seq<char>> {
    match payload {
        Some(PayloadValue::Raw { json }) => Some(json@),
        _ => None,
    }
}

fn audio_config(payload: &Option<PayloadValue>) -> (r: Option<String>)
    ensures
        match r {
            Some(c) => spec_audio_config(*payload) == Some(c@),
            None => spec_audio_config(*payload) is None,
        },
{
    match payload {
        Some(PayloadValue::Raw { json }) => Some(json.clone()),
        _ => None,
    }
}

/// Plan one request whose command name was found in the registry. Every
/// branch either asks for exactly one collaborator call or answers at
/// once with a failure; a `run_shell` request with an empty or missing
/// command string is refused here and spawns nothing.
pub fn plan_command(request: &Request) -> (r: CommandPlan)
    ensures
        ({
            let c = request.command@;
            if c == "get_version"@ {
                r matches CommandPlan::Call { action: CommandAction::GetVersion }
            } else if c == "run_shell"@ {
                match request.payload {
                    Some(PayloadValue::Text { value }) => if value@.len() > 0 {
                        r matches CommandPlan::Call {
                            action: CommandAction::RunShell { command },
                        } && command@ == value@
                    } else {
                        r matches CommandPlan::Reply { response } && !response.success && (
                        response.error matches Some(e) && e@ == EMPTY_COMMAND_ERROR@)
                    },
                    Some(PayloadValue::Raw { .. }) => r matches CommandPlan::Reply { response }
                        && !response.success && (response.error matches Some(e) && e@
                        == BAD_COMMAND_PAYLOAD_ERROR@),
                    None => r matches CommandPlan::Reply { response } && !response.success && (
                    response.error matches Some(e) && e@ == EMPTY_COMMAND_ERROR@),
                }
            } else if c == "start_play"@ {
                r matches CommandPlan::Call { action: CommandAction::StartPlay { config } }
                    && spec_config_text(config) == spec_audio_config(request.payload)
            } else if c == "stop_play"@ {
                r matches CommandPlan::Call { action: CommandAction::StopPlay }
            } else if c == "start_recording"@ {
                r matches CommandPlan::Call { action: CommandAction::StartRecording { config } }
                    && spec_config_text(config) == spec_audio_config(request.payload)
            } else if c == "stop_recording"@ {
                r matches CommandPlan::Call { action: CommandAction::StopRecording }
            } else {
                r matches CommandPlan::Reply { response } && !response.success && (
                response.error matches Some(e) && e@ == crate::dispatch::UNKNOWN_COMMAND_ERROR@)
            }
        }),
{
    if string_is(&request.command, "get_version") {
        CommandPlan::Call { action: CommandAction::GetVersion }
    } else if string_is(&request.command, "run_shell") {
        match &request.payload {
            Some(PayloadValue::Text { value }) => {
                if value.as_str().unicode_len() > 0 {
                    CommandPlan::Call {
                        action: CommandAction::RunShell { command: value.clone() },
                    }
                } else {
                    CommandPlan::Reply { response: Response::failure(EMPTY_COMMAND_ERROR) }
                }
            },
            Some(PayloadValue::Raw { .. }) => CommandPlan::Reply {
                response: Response::failure(BAD_COMMAND_PAYLOAD_ERROR),
            },
            None => CommandPlan::Reply { response: Response::failure(EMPTY_COMMAND_ERROR) },
        }
    } else if string_is(&request.command, "start_play") {
        CommandPlan::Call {
            action: CommandAction::StartPlay { config: audio_config(&request.payload) },
        }
    } else if string_is(&request.command, "stop_play") {
        CommandPlan::Call { action: CommandAction::StopPlay }
    } else if string_is(&request.command, "start_recording") {
        CommandPlan::Call {
            action: CommandAction::StartRecording { config: audio_config(&request.payload) },
        }
    } else if string_is(&request.command, "stop_recording") {
        CommandPlan::Call { action: CommandAction::StopRecording }
    } else {
        CommandPlan::Reply {
            response: Response::failure(crate::dispatch::UNKNOWN_COMMAND_ERROR),
        }
    }
}

/// The view of an optional configuration text.
pub open spec fn spec_config_text(config: Option<String>) -> Option<Seq<char>> {
    match config {
        Some(c) => Some(c@),
        None => None,
    }
}

/// True exactly when `name`'s characters are `expected`'s.
fn string_is(name: &String, expected: &str) -> (r: bool)
    ensures
        r == (name@ == expected@),
{
    *name == expected.to_owned()
}

/// The response to a successful `get_version` request: the collaborator's
/// version string, as data.
pub fn version_response(version: &str) -> (r: Response)
    ensures
        r.success,
        r.data matches Some(DataValue::Text { value }) && value@ == version@,
        r.error is None,
{
    Response::from_data(DataValue::Text { value: version.to_owned() })
}

/// The response reporting a completed shell command: its captured
/// output, with a non-zero or missing exit status reported as data, not
/// as an error.
pub fn shell_response(stdout: String, stderr: String, status: Option<i32>) -> (r: Response)
    ensures
        r.success,
        r.data == Some(DataValue::Shell { stdout, stderr, status }),
        r.error is None,
{
    Response::from_data(DataValue::Shell { stdout, stderr, status })
}

/// The response mapped from an audio collaborator's outcome: a bare
/// success, or a failure carrying the collaborator error's description.
pub fn collaborator_response(outcome: &Result<(), String>) -> (r: Response)
    ensures
        outcome is Ok ==> r.success && r.data is None && r.error is None,
        outcome matches Err(m) ==> (!r.success && r.data is None && (r.error matches Some(e) && e@
            == m@)),
{
    match outcome {
        Ok(_) => Response::success(),
        Err(m) => Response::failure(m.as_str()),
    }
}

/// Where one inbound stream goes.
#[derive(Clone, Copy, Debug, PartialEq, Eq, Structural)]
pub enum StreamDisposition {
    /// Hand the bytes to the audio player.
    PlayAudio,
    /// No handler for this tag: the chunk is silently dropped.
    Ignore,
}

/// Route one inbound stream chunk by its tag: only "play" streams reach
/// the audio player, every other tag is dropped.
pub fn route_stream(tag: &str) -> (r: StreamDisposition)
    ensures
        (r == StreamDisposition::PlayAudio) <==> tag@ == "play"@,
{
    let expected: String = "play".to_owned();
    if tag.to_owned() == expected {
        StreamDisposition::PlayAudio
    } else {
        StreamDisposition::Ignore
    }
}

} // verus!
