//! Invocation parsing and the exact status messages of each run mode.
//!
//! The process arguments and exit come from the unverified shell; which
//! command they denote, which message each outcome reports, and which
//! exit code each run ends with are verified here.

use vstd::prelude::*;
use vstd::string::*;

use crate::instance::InstanceState;
use crate::instance::ShutdownOutcome;

verus! {

/// The three invocation modes: run the filter (the default), ask a
/// running instance to stop, or report the version.
#[derive(PartialEq, Eq, Structural, Clone, Copy, Debug)]
pub enum Command {
    Run,
    Stop,
    Version,
}

/// A rejected invocation: an extra token after a recognized command, or
/// an unrecognized first token (carried for the error message).
#[derive(Debug)]
pub enum UsageError {
    ExtraArgument,
    UnknownArgument(String),
}

/// The command a single argument token denotes, if any.
pub open spec fn spec_command_token(arg: Seq<char>) -> Option<Command> {
    if arg == "start"@ || arg == "--start"@ {
        Some(Command::Run)
    } else if arg == "stop"@ || arg == "--stop"@ {
        Some(Command::Stop)
    } else if arg == "version"@ || arg == "--version"@ {
        Some(Command::Version)
    } else {
        None
    }
}

/// Recognize a single argument token.
pub fn command_token(arg: &String) -> (r: Option<Command>)
    ensures
        r == spec_command_token(arg@),
{
    if *arg == String::from_str("start") || *arg == String::from_str("--start") {
        Some(Command::Run)
    } else if *arg == String::from_str("stop") || *arg == String::from_str("--stop") {
        Some(Command::Stop)
    } else if *arg == String::from_str("version") || *arg == String::from_str("--version") {
        Some(Command::Version)
    } else {
        None
    }
}

/// Parse the arguments that follow the program name: no argument runs the
/// filter; one recognized token selects its command; an unrecognized
/// token, or anything after a recognized one, is a usage error.
pub fn parse_command(args: &Vec<String>) -> (r: Result<Command, UsageError>)
    ensures
        args@.len() == 0 ==> r == Ok::<Command, UsageError>(Command::Run),
        args@.len() == 1 ==> (match spec_command_token(args@[0]@) {
            Some(c) => r == Ok::<Command, UsageError>(c),
            None => r matches Err(UsageError::UnknownArgument(t)) && t@ == args@[0]@,
        }),
        args@.len() >= 2 ==> (match spec_command_token(args@[0]@) {
            Some(c) => r matches Err(UsageError::ExtraArgument),
            None => r matches Err(UsageError::UnknownArgument(t)) && t@ == args@[0]@,
        }),
{
    if args.len() == 0 {
        return Ok(Command::Run);
    }
    let token = command_token(&args[0]);
    let has_extra = args.len() >= 2;
    match token {
        Some(c) => {
            if has_extra {
                Err(UsageError::ExtraArgument)
            } else {
                Ok(c)
            }
        },
        None => Err(UsageError::UnknownArgument(args[0].clone())),
    }
}

/// The message a usage error is reported with.
pub open spec fn spec_usage_error_message(e: UsageError) -> Seq<char> {
    match e {
        UsageError::ExtraArgument => "额外参数无法识别"@,
        UsageError::UnknownArgument(t) => "未知参数："@ + t@,
    }
}

/// Render a usage error as its message.
pub fn usage_error_message(e: &UsageError) -> (m: String)
    ensures
        m@ == spec_usage_error_message(*e),
{
    match e {
        UsageError::ExtraArgument => String::from_str("额外参数无法识别"),
        UsageError::UnknownArgument(t) => {
            let mut m = String::from_str("未知参数：");
            m.append(t.as_str());
            m
        },
    }
}

/// The status message announced when the filter starts.
pub open spec fn spec_start_message(state: InstanceState) -> Seq<char> {
    match state {
        InstanceState::Fresh => "已开启"@,
        InstanceState::Restarted => "已重新开启"@,
    }
}

/// The start announcement for how the instance lock was obtained.
pub fn start_message(state: InstanceState) -> (m: String)
    ensures
        m@ == spec_start_message(state),
{
    match state {
        InstanceState::Fresh => String::from_str("已开启"),
        InstanceState::Restarted => String::from_str("已重新开启"),
    }
}

/// The status message announced for a shutdown request's outcome.
pub open spec fn spec_stop_message(outcome: ShutdownOutcome) -> Seq<char> {
    match outcome {
        ShutdownOutcome::Signaled => "已关闭"@,
        ShutdownOutcome::NoInstance => "无需关闭"@,
    }
}

/// The stop announcement for a shutdown request's outcome.
pub fn stop_message(outcome: ShutdownOutcome) -> (m: String)
    ensures
        m@ == spec_stop_message(outcome),
{
    match outcome {
        ShutdownOutcome::Signaled => String::from_str("已关闭"),
        ShutdownOutcome::NoInstance => String::from_str("无需关闭"),
    }
}

/// The version announcement for a build identifier.
pub fn version_message(version: &str) -> (m: String)
    ensures
        m@ == "v"@ + version@,
{
    let mut m = String::from_str("v");
    m.append(version);
    m
}

/// The message logged when the named synchronization objects cannot be
/// created, carrying the rendered error.
pub fn creation_failure_message(err: &str) -> (m: String)
    ensures
        m@ == "创建同步对象失败: "@ + err@,
{
    let mut m = String::from_str("创建同步对象失败: ");
    m.append(err);
    m
}

/// The message logged when the keyboard interception cannot be
/// registered, carrying the rendered error.
pub fn hook_failure_message(err: &str) -> (m: String)
    ensures
        m@ == "安装键盘钩子失败: "@ + err@,
{
    let mut m = String::from_str("安装键盘钩子失败: ");
    m.append(err);
    m
}

/// A run exits with zero on success and one on a usage error or any
/// unrecoverable failure.
pub fn exit_code(success: bool) -> (c: i32)
    ensures
        success ==> c == 0,
        !success ==> c == 1,
{
    if success {
        0
    } else {
        1
    }
}

} // verus!
