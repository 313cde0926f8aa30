//! The steps of the project's maintenance commands, in the order in which
//! they run. A command stops at the first step that fails.
//!
//! The steps themselves start other programs; that is the caller's part. It
//! asks here for the step that comes after those it has completed.

use vstd::prelude::*;
use vstd::string::StringSliceAdditionalSpecFns;
use crate::usb::same_text;

verus! {

/// One step of a command.
#[derive(Clone, Copy, Debug, PartialEq, Eq, Structural)]
pub enum Task {
    /// Build the firmware of every board, or of the board to flash.
    BuildFirmware,
    /// Upload the built firmwares to the store.
    UploadFirmwares,
    /// Generate the type stubs of the Python bindings.
    BuildStubs,
    /// Build the Python bindings and publish them.
    MaturinPublish,
    /// Build the Python bindings and install them for development.
    MaturinDevelop,
    /// Flash the built firmware to the board and run it.
    Flash,
}

/// A command of the maintenance tool.
#[derive(Clone, Copy, Debug, PartialEq, Eq, Structural)]
pub enum Command {
    /// Flash one firmware binary to the board.
    Flash,
    /// Generate the Python bindings.
    Pygen,
    /// Publish the Python bindings.
    Publish,
    /// Print the list of commands.
    Help,
}

/// The steps of publishing.
pub open spec fn publish_plan() -> Seq<Task> {
    seq![Task::BuildFirmware, Task::UploadFirmwares, Task::BuildStubs, Task::MaturinPublish]
}

/// The steps of building the bindings.
pub open spec fn bindings_plan() -> Seq<Task> {
    seq![Task::BuildStubs, Task::MaturinDevelop]
}

/// The steps of flashing.
pub open spec fn flash_plan() -> Seq<Task> {
    seq![Task::BuildFirmware, Task::Flash]
}

/// The step of `plan` that follows `completed` steps, if one does.
pub open spec fn step_after(plan: Seq<Task>, completed: int) -> Option<Task> {
    if 0 <= completed < plan.len() {
        Some(plan[completed])
    } else {
        None
    }
}

/// The command that the tool's arguments ask for: the first argument names
/// it, and flashing takes exactly one more argument. Anything else asks for help.
pub open spec fn spec_command(task: Option<&str>, arguments: int) -> Command {
    match task {
        Some(name) => if name.spec_bytes() == "flash".spec_bytes() && arguments == 1 {
            Command::Flash
        } else if name.spec_bytes() == "pygen".spec_bytes() {
            Command::Pygen
        } else if name.spec_bytes() == "publish".spec_bytes() {
            Command::Publish
        } else {
            Command::Help
        },
        None => Command::Help,
    }
}

/// The command that the tool's arguments ask for. `task` is the first
/// argument, `arguments` the number of arguments after it.
pub fn parse_command(task: Option<&str>, arguments: usize) -> (c: Command)
    ensures
        c == spec_command(task, arguments as int),
{
    match task {
        Some(name) => {
            if same_text(name, "flash") && arguments == 1 {
                Command::Flash
            } else if same_text(name, "pygen") {
                Command::Pygen
            } else if same_text(name, "publish") {
                Command::Publish
            } else {
                Command::Help
            }
        },
        None => Command::Help,
    }
}

/// The step of publishing that follows `completed` steps: build all
/// firmwares, upload them, build the stubs, publish the bindings. After the
/// fourth step nothing is left.
pub fn publish(completed: usize) -> (next: Option<Task>)
    ensures
        next == step_after(publish_plan(), completed as int),
{
    match completed {
        0 => Some(Task::BuildFirmware),
        1 => Some(Task::UploadFirmwares),
        2 => Some(Task::BuildStubs),
        3 => Some(Task::MaturinPublish),
        _ => None,
    }
}

/// The step of building the bindings that follows `completed` steps: build
/// the stubs, then build and install the bindings.
pub fn build_bindings(completed: usize) -> (next: Option<Task>)
    ensures
        next == step_after(bindings_plan(), completed as int),
{
    match completed {
        0 => Some(Task::BuildStubs),
        1 => Some(Task::MaturinDevelop),
        _ => None,
    }
}

/// The step of flashing that follows `completed` steps: build the firmware
/// of the board, then flash it.
pub fn flash(completed: usize) -> (next: Option<Task>)
    ensures
        next == step_after(flash_plan(), completed as int),
{
    match completed {
        0 => Some(Task::BuildFirmware),
        1 => Some(Task::Flash),
        _ => None,
    }
}

impl Task {
    /// What is reported, before the program's exit status, where the step fails.
    pub open spec fn spec_failure(self) -> &'static str {
        match self {
            Task::BuildFirmware => "Failed to build firmware",
            Task::UploadFirmwares => "Failed to upload firmwares",
            Task::BuildStubs => "Failed to build type stubs",
            Task::MaturinPublish => "Failed to build bindings",
            Task::MaturinDevelop => "Failed to build bindings",
            Task::Flash => "Failed to flash",
        }
    }

    /// What is reported, before the program's exit status, where the step fails.
    pub fn failure(self) -> (text: &'static str)
        ensures
            text@ == self.spec_failure()@,
    {
        match self {
            Task::BuildFirmware => "Failed to build firmware",
            Task::UploadFirmwares => "Failed to upload firmwares",
            Task::BuildStubs => "Failed to build type stubs",
            Task::MaturinPublish => "Failed to build bindings",
            Task::MaturinDevelop => "Failed to build bindings",
            Task::Flash => "Failed to flash",
        }
    }
}

} // verus!
