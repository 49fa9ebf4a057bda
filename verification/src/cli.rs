use crate::commands::OutputStyle;
use vstd::prelude::*;

verus! {

/// What the program was asked to do.
#[derive(Debug)]
pub struct Cli {
    pub command: Command,
}

/// The program's commands with their switches.
#[derive(Debug)]
pub enum Command {
    /// Check that the required folder layout exists.
    Doctor { verbose: bool, plain: bool },
    /// Create what is missing of the required folder layout.
    Init { verbose: bool, plain: bool },
    /// Tidy the desktop's screenshots and the downloads. Without `apply`
    /// nothing is changed; `all` deletes every download, whatever its age.
    Tidy { apply: bool, all: bool, verbose: bool, plain: bool },
}

/// The style in which a command writes its report.
pub open spec fn style_spec(command: Command) -> OutputStyle {
    match command {
        Command::Doctor { verbose, plain } => OutputStyle { plain, verbose },
        Command::Init { verbose, plain } => OutputStyle { plain, verbose },
        Command::Tidy { apply, all, verbose, plain } => OutputStyle { plain, verbose },
    }
}

impl Command {
    /// The style in which the command writes its report.
    pub fn style(&self) -> (r: OutputStyle)
        ensures
            r == style_spec(*self),
    {
        match self {
            Command::Doctor { verbose, plain } => OutputStyle::new(*plain, *verbose),
            Command::Init { verbose, plain } => OutputStyle::new(*plain, *verbose),
            Command::Tidy { apply: _, all: _, verbose, plain } => OutputStyle::new(
                *plain,
                *verbose,
            ),
        }
    }
}

} // verus!
