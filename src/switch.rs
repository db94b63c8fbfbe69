use vstd::prelude::*;
use crate::device::{AudioDeviceId, DeviceIdView};
use crate::text::occurs_in;

verus! {

/// A command line: the program to run and its arguments.
pub struct ToolCommand {
    pub program: String,
    pub args: Vec<String>,
}

/// What came of running a command.
pub enum RunOutcome {
    /// The process ran to its end, with a zero exit status or not, leaving
    /// this text on its standard error.
    Exited { success: bool, stderr: String },
    /// The process could not be started, for this reason.
    LaunchFailed(String),
}

/// The decimal digit for `d`.
pub open spec fn digit_char(d: nat) -> char {
    ((d % 10) + ('0' as nat)) as char
}

/// `n` in decimal notation, without leading zeros.
pub open spec fn decimal_text(n: nat) -> Seq<char>
    decreases n,
{
    if n < 10 {
        seq![digit_char(n)]
    } else {
        decimal_text(n / 10).push(digit_char(n % 10))
    }
}

/// Relies on std's `Display` for `u32` (through `to_string`): the number in
/// decimal notation, without sign or leading zeros.
#[verifier::external_body]
fn decimal(n: u32) -> (r: String)
    ensures
        r@ == decimal_text(n as nat),
{
    n.to_string()
}

/// The control tool of the backend that owns a device.
pub open spec fn tool_name(id: DeviceIdView) -> Seq<char> {
    match id {
        DeviceIdView::Pipewire(_) => "wpctl"@,
        DeviceIdView::Pulseaudio(_) => "pactl"@,
    }
}

/// The arguments that switch a device's profile: PipeWire takes the object
/// id and the profile index, PulseAudio the card name and the profile name.
pub open spec fn switch_args(id: DeviceIdView, index: u32, name: Seq<char>) -> Seq<Seq<char>> {
    match id {
        DeviceIdView::Pipewire(n) => seq![
            "set-profile"@,
            decimal_text(n as nat),
            decimal_text(index as nat),
        ],
        DeviceIdView::Pulseaudio(card) => seq!["set-card-profile"@, card, name],
    }
}

/// The text of a switch's result.
pub open spec fn result_text(r: Result<String, String>) -> Result<Seq<char>, Seq<char>> {
    match r {
        Ok(s) => Ok(s@),
        Err(s) => Err(s@),
    }
}

/// What a switch reports: a fixed confirmation exactly when the tool exited
/// with status zero, else the tool's standard error or the launch failure.
pub open spec fn switch_outcome(tool: Seq<char>, o: RunOutcome) -> Result<Seq<char>, Seq<char>> {
    match o {
        RunOutcome::Exited { success, stderr } => if success {
            Ok("Profile switched"@)
        } else {
            Err(tool + " failed: "@ + stderr@)
        },
        RunOutcome::LaunchFailed(reason) => Err("Failed to run "@ + tool + ": "@ + reason@),
    }
}

/// The command that switches `device` to the given profile.
pub fn switch_command(device: &AudioDeviceId, profile_index: u32, profile_name: &str) -> (r:
    ToolCommand)
    ensures
        r.program@ == tool_name(device@),
        r.args@.map_values(|a: String| a@) == switch_args(device@, profile_index, profile_name@),
{
    match device {
        AudioDeviceId::Pipewire(id) => {
            let mut args: Vec<String> = Vec::new();
            args.push(String::from_str("set-profile"));
            args.push(decimal(*id));
            args.push(decimal(profile_index));
            assert(args@.map_values(|a: String| a@) =~= switch_args(
                device@,
                profile_index,
                profile_name@,
            ));
            ToolCommand { program: String::from_str("wpctl"), args }
        },
        AudioDeviceId::Pulseaudio(card) => {
            let mut args: Vec<String> = Vec::new();
            args.push(String::from_str("set-card-profile"));
            args.push(card.clone());
            args.push(String::from_str(profile_name));
            assert(args@.map_values(|a: String| a@) =~= switch_args(
                device@,
                profile_index,
                profile_name@,
            ));
            ToolCommand { program: String::from_str("pactl"), args }
        },
    }
}

/// The result a switch reports once `tool` has been run.
pub fn switch_result(tool: &str, outcome: RunOutcome) -> (r: Result<String, String>)
    ensures
        result_text(r) == switch_outcome(tool@, outcome),
        r is Ok <==> (outcome matches RunOutcome::Exited { success, .. } && success),
        match outcome {
            RunOutcome::Exited { success, stderr } => !success ==> occurs_in(stderr@, r->Err_0@),
            RunOutcome::LaunchFailed(_) => true,
        },
{
    match outcome {
        RunOutcome::Exited { success, stderr } => {
            if success {
                Ok(String::from_str("Profile switched"))
            } else {
                let mut text = String::from_str(tool);
                text.append(" failed: ");
                text.append(stderr.as_str());
                let ghost k: int = (tool@.len() + " failed: "@.len()) as int;
                assert(text@.subrange(k, k + stderr@.len() as int) =~= stderr@);
                Err(text)
            }
        },
        RunOutcome::LaunchFailed(reason) => {
            let mut text = String::from_str("Failed to run ");
            text.append(tool);
            text.append(": ");
            text.append(reason.as_str());
            Err(text)
        },
    }
}

/// Switches a device to the given profile: builds the backend's command, has
/// `run` run it, and reports the outcome. PipeWire is told the profile index,
/// PulseAudio the profile name.
pub fn switch_profile<F>(device: &AudioDeviceId, profile_index: u32, profile_name: &str, run: F) -> (r:
    Result<String, String>) where F: FnOnce(ToolCommand) -> RunOutcome
    requires
        forall|c: ToolCommand| call_requires(run, (c,)),
    ensures
        exists|c: ToolCommand, o: RunOutcome|
            {
                &&& c.program@ == tool_name(device@)
                &&& c.args@.map_values(|a: String| a@) == switch_args(
                    device@,
                    profile_index,
                    profile_name@,
                )
                &&& call_ensures(run, (c,), o)
                &&& result_text(r) == switch_outcome(tool_name(device@), o)
            },
{
    let command = switch_command(device, profile_index, profile_name);
    let tool = command.program.clone();
    let ghost c = command;
    let outcome = run(command);
    let ghost o = outcome;
    let r = switch_result(tool.as_str(), outcome);
    assert(call_ensures(run, (c,), o));
    r
}

} // verus!
