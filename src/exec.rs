//! The shell commands that carry out actions, and what running one gives.
use vstd::prelude::*;
use crate::intent::{decimal, push_decimal, Action, ActionView};

verus! {

/// Why an action could not be carried out.
#[derive(Debug, Clone, PartialEq, Eq)]
pub enum ExecError {
    /// The command could not be run; holds the reason.
    CommandFailed(String),
    /// The command ended with this non-zero exit code.
    NonZeroExit(i32),
    /// The process could not be started; holds the system's message.
    SpawnFailed(String),
}

/// What running the command of an action gave.
#[derive(Debug, Clone)]
pub struct ExecResult {
    /// The command line that was run.
    pub command: String,
    /// Whether the command succeeded.
    pub success: bool,
    /// What the command wrote to its error stream, where it failed.
    pub output: Option<String>,
}

/// The AppleScript statement for a volume level.
pub open spec fn volume_script(level: u8) -> Seq<char> {
    "set volume output volume "@ + decimal(level as nat)
}

/// The command line that carries out an action, as it is shown.
pub open spec fn command_of(a: ActionView) -> Seq<char> {
    match a {
        ActionView::OpenApp { name } => "open -a \""@ + name + "\""@,
        ActionView::OpenUrl { url } => "open \""@ + url + "\""@,
        ActionView::SetVolume { level } => "osascript -e '"@ + volume_script(level) + "'"@,
        ActionView::Mute => "osascript -e 'set volume with output muted'"@,
        ActionView::Unmute => "osascript -e 'set volume without output muted'"@,
    }
}

/// The program that carries out an action.
pub open spec fn program_of(a: ActionView) -> Seq<char> {
    match a {
        ActionView::OpenApp { .. } => "open"@,
        ActionView::OpenUrl { .. } => "open"@,
        _ => "osascript"@,
    }
}

/// The arguments handed to that program.
pub open spec fn args_of(a: ActionView) -> Seq<Seq<char>> {
    match a {
        ActionView::OpenApp { name } => seq!["-a"@, name],
        ActionView::OpenUrl { url } => seq![url],
        ActionView::SetVolume { level } => seq!["-e"@, volume_script(level)],
        ActionView::Mute => seq!["-e"@, "set volume with output muted"@],
        ActionView::Unmute => seq!["-e"@, "set volume without output muted"@],
    }
}

/// The command line that would carry out `action`, as shown in a dry run.
pub fn get_command_string(action: &Action) -> (r: String)
    ensures
        r@ == command_of(action@),
{
    match action {
        Action::OpenApp { name } => {
            let mut s = String::from_str("open -a \"");
            s.append(name.as_str());
            s.append("\"");
            s
        },
        Action::OpenUrl { url } => {
            let mut s = String::from_str("open \"");
            s.append(url.as_str());
            s.append("\"");
            s
        },
        Action::SetVolume { level } => {
            let mut s = String::from_str("osascript -e 'set volume output volume ");
            push_decimal(&mut s, *level);
            s.append("'");
            proof {
                reveal_strlit("osascript -e 'set volume output volume ");
                reveal_strlit("osascript -e '");
                reveal_strlit("set volume output volume ");
                assert(s@ =~= command_of(action@));
            }
            s
        },
        Action::Mute => String::from_str("osascript -e 'set volume with output muted'"),
        Action::Unmute => String::from_str("osascript -e 'set volume without output muted'"),
    }
}

fn volume_script_text(level: u8) -> (r: String)
    ensures
        r@ == volume_script(level),
{
    let mut s = String::from_str("set volume output volume ");
    push_decimal(&mut s, level);
    s
}

/// The program and arguments that carry out `action`.
pub fn invocation(action: &Action) -> (r: (String, Vec<String>))
    ensures
        r.0@ == program_of(action@),
        r.1.deep_view() == args_of(action@),
{
    let mut args: Vec<String> = Vec::new();
    let program = match action {
        Action::OpenApp { name } => {
            args.push(String::from_str("-a"));
            args.push(name.clone());
            String::from_str("open")
        },
        Action::OpenUrl { url } => {
            args.push(url.clone());
            String::from_str("open")
        },
        Action::SetVolume { level } => {
            args.push(String::from_str("-e"));
            args.push(volume_script_text(*level));
            String::from_str("osascript")
        },
        Action::Mute => {
            args.push(String::from_str("-e"));
            args.push(String::from_str("set volume with output muted"));
            String::from_str("osascript")
        },
        Action::Unmute => {
            args.push(String::from_str("-e"));
            args.push(String::from_str("set volume without output muted"));
            String::from_str("osascript")
        },
    };
    proof {
        assert(args.deep_view() =~= args_of(action@));
    }
    (program, args)
}

/// The result of running the command of `action`: the error stream is kept only
/// where the command failed.
pub fn exec_result(action: &Action, success: bool, stderr: String) -> (r: ExecResult)
    ensures
        r.command@ == command_of(action@),
        r.success == success,
        r.output == (if success { None } else { Some(stderr) }),
{
    ExecResult {
        command: get_command_string(action),
        success,
        output: if success { None } else { Some(stderr) },
    }
}

} // verus!
