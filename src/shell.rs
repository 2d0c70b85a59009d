use vstd::prelude::*;
use vstd::string::*;
use crate::text::{trim, trim_exec};

verus! {

/// What the prompt of the interactive shell gave.
#[derive(Debug)]
pub enum ShellInput {
    /// A line that the user entered.
    Line(String),
    /// The user cancelled the prompt.
    Cancelled,
    /// The user interrupted the prompt.
    Interrupted,
    /// The prompt failed; its message.
    Error(String),
}

/// What the shell does next.
#[derive(Debug)]
pub enum ShellAction {
    /// Prompt for the next line.
    Prompt,
    /// Hand this command to the engine, then prompt again.
    Run(String),
    /// Leave the shell.
    Exit,
}

/// An action as plain values.
pub enum ShellActionView {
    Prompt,
    Run(Seq<char>),
    Exit,
}

impl View for ShellAction {
    type V = ShellActionView;

    open spec fn view(&self) -> ShellActionView {
        match self {
            ShellAction::Prompt => ShellActionView::Prompt,
            ShellAction::Run(c) => ShellActionView::Run(c@),
            ShellAction::Exit => ShellActionView::Exit,
        }
    }
}

/// What the shell does with an entered line: `exit` and `quit` leave it, a
/// blank line prompts again, anything else runs, without its surrounding
/// white space.
pub open spec fn line_action(l: Seq<char>) -> ShellActionView {
    let t = trim(l);
    if t == "exit"@ || t == "quit"@ {
        ShellActionView::Exit
    } else if t.len() == 0 {
        ShellActionView::Prompt
    } else {
        ShellActionView::Run(t)
    }
}

/// The interactive shell's state: whether the last command succeeded, which
/// the prompt shows.
#[derive(Debug)]
pub struct Shell {
    pub last_command_succeeded: bool,
}

impl Shell {
    /// A shell that has run nothing yet.
    pub fn new() -> (r: Shell)
        ensures
            r.last_command_succeeded,
    {
        Shell { last_command_succeeded: true }
    }

    /// Takes in what the prompt gave and says what to do.
    pub fn on_input(&mut self, input: ShellInput) -> (r: ShellAction)
        ensures
            match input {
                ShellInput::Line(l) => r@ == line_action(l@) && final(self).last_command_succeeded
                    == old(self).last_command_succeeded,
                ShellInput::Cancelled | ShellInput::Interrupted => r is Exit
                    && final(self).last_command_succeeded == old(self).last_command_succeeded,
                ShellInput::Error(_) => r is Prompt && !final(self).last_command_succeeded,
            },
    {
        match input {
            ShellInput::Line(l) => {
                let t = trim_exec(l.as_str());
                if t.eq(&String::from_str("exit")) || t.eq(&String::from_str("quit")) {
                    ShellAction::Exit
                } else if t.as_str().is_empty() {
                    ShellAction::Prompt
                } else {
                    ShellAction::Run(t)
                }
            },
            ShellInput::Cancelled => ShellAction::Exit,
            ShellInput::Interrupted => ShellAction::Exit,
            ShellInput::Error(_) => {
                self.last_command_succeeded = false;
                ShellAction::Prompt
            },
        }
    }

    /// Takes in the engine's answer to the command that ran.
    pub fn on_result(&mut self, result: &Result<(), String>)
        ensures
            final(self).last_command_succeeded == (result is Ok),
    {
        self.last_command_succeeded = result.is_ok();
    }
}

} // verus!
