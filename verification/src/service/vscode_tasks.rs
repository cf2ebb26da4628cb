//! The task description for Visual Studio Code: three tasks that call this
//! tool on the current file or folder.

use vstd::prelude::*;
use vstd::string::*;

verus! {

/// How the editor shows the terminal of a task.
#[derive(Debug, PartialEq, Eq)]
pub struct Presentation {
    pub reveal: String,
    pub panel: String,
}

/// When the editor runs a task by itself.
#[derive(Debug, PartialEq, Eq)]
pub struct RunOptions {
    pub run_on: String,
}

/// One task of the editor.
#[derive(Debug, PartialEq, Eq)]
pub struct Task {
    pub label: String,
    pub _type: String,
    pub command: String,
    pub group: String,
    pub presentation: Presentation,
    pub run_options: Option<RunOptions>,
    pub problem_matcher: Option<Vec<String>>,
}

/// The content of the task file.
#[derive(Debug, PartialEq, Eq)]
pub struct Tasks {
    pub version: String,
    pub tasks: Vec<Task>,
}

/// The editor configuration for one device.
#[derive(Debug, PartialEq, Eq)]
pub struct SetupVsCode {
    pub tasks: Tasks,
}

/// The command line that calls this tool for a device, up to and including
/// `verb`.
pub open spec fn command_text(
    host: Seq<char>,
    username: Seq<char>,
    password: Seq<char>,
    verb: Seq<char>,
) -> Seq<char> {
    "${workspaceFolder}/.vscode/Shelly_Remote_Helper.exe --host "@ + host + " --password "@
        + password + " --username "@ + username + " "@ + verb
}

/// Whether `task` is the shell task of this label and command: shown in a
/// new panel, always revealed, in no group; one that runs when the folder
/// opens has no problem matcher, any other has an empty list of them.
pub open spec fn is_shell_task(
    task: Task,
    label: Seq<char>,
    command: Seq<char>,
    on_folder_open: bool,
) -> bool {
    &&& task.label@ == label
    &&& task._type@ == "shell"@
    &&& task.command@ == command
    &&& task.group@ == "none"@
    &&& task.presentation.reveal@ == "always"@
    &&& task.presentation.panel@ == "new"@
    &&& if on_folder_open {
        &&& task.run_options matches Some(options)
        &&& options.run_on@ == "folderOpen"@
        &&& task.problem_matcher is None
    } else {
        &&& task.run_options is None
        &&& task.problem_matcher matches Some(matchers)
        &&& matchers@.len() == 0
    }
}

/// Whether `setup` is the configuration for a device: format version
/// "2.0.0" and the tasks to start the current script, to stop it, and to
/// start debugging when the folder opens.
pub open spec fn is_setup_for(
    setup: SetupVsCode,
    host: Seq<char>,
    username: Seq<char>,
    password: Seq<char>,
) -> bool {
    &&& setup.tasks.version@ == "2.0.0"@
    &&& setup.tasks.tasks@.len() == 3
    &&& is_shell_task(
        setup.tasks.tasks@[0],
        "Shelly Remote Helper | start current Script"@,
        command_text(host, username, password, "start ${fileBasenameNoExtension}"@),
        false,
    )
    &&& is_shell_task(
        setup.tasks.tasks@[1],
        "Shelly Remote Helper | stop current Script"@,
        command_text(host, username, password, "stop ${fileBasenameNoExtension}"@),
        false,
    )
    &&& is_shell_task(
        setup.tasks.tasks@[2],
        "Shelly Remote Helper | start Debug"@,
        command_text(host, username, password, "debug --path ${workspaceFolder}"@),
        true,
    )
}

fn command(host: &str, username: &str, password: &str, verb: &str) -> (r: String)
    ensures
        r@ == command_text(host@, username@, password@, verb@),
{
    let mut text = String::from_str("${workspaceFolder}/.vscode/Shelly_Remote_Helper.exe --host ");
    text.append(host);
    text.append(" --password ");
    text.append(password);
    text.append(" --username ");
    text.append(username);
    text.append(" ");
    text.append(verb);
    text
}

fn shell_task(label: &str, command: String, on_folder_open: bool) -> (r: Task)
    ensures
        is_shell_task(r, label@, command@, on_folder_open),
{
    let run_options = if on_folder_open {
        Some(RunOptions { run_on: String::from_str("folderOpen") })
    } else {
        None
    };
    let problem_matcher: Option<Vec<String>> = if on_folder_open {
        None
    } else {
        Some(Vec::new())
    };
    Task {
        label: String::from_str(label),
        _type: String::from_str("shell"),
        command,
        group: String::from_str("none"),
        presentation: Presentation {
            reveal: String::from_str("always"),
            panel: String::from_str("new"),
        },
        run_options,
        problem_matcher,
    }
}

impl SetupVsCode {
    /// The editor configuration for the device at `host`, reached with
    /// these credentials.
    pub fn new(host: &str, username: &str, password: &str) -> (r: SetupVsCode)
        ensures
            is_setup_for(r, host@, username@, password@),
    {
        let mut tasks: Vec<Task> = Vec::new();
        tasks.push(
            shell_task(
                "Shelly Remote Helper | start current Script",
                command(host, username, password, "start ${fileBasenameNoExtension}"),
                false,
            ),
        );
        tasks.push(
            shell_task(
                "Shelly Remote Helper | stop current Script",
                command(host, username, password, "stop ${fileBasenameNoExtension}"),
                false,
            ),
        );
        tasks.push(
            shell_task(
                "Shelly Remote Helper | start Debug",
                command(host, username, password, "debug --path ${workspaceFolder}"),
                true,
            ),
        );
        SetupVsCode { tasks: Tasks { version: String::from_str("2.0.0"), tasks } }
    }
}

} // verus!
