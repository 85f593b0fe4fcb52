//! The administration tool on the terminal: what it makes of each line it
//! reads, and the texts it writes.

use vstd::prelude::*;
use vstd::string::StringExecFns;
use crate::text::{decimal, decimal_text, same_text};

verus! {

/// What is written before a command is read.
pub const PROMPT: &'static str = "Enter command: invite, list-invites";

/// What is written before the name of a guest is read.
pub const ASK_NAME: &'static str = "Enter invitee name\n";

/// What is written above the list of guests.
pub const LIST_HEADER: &'static str = "ID | Name | RSVP'd?\n";

/// What the tool waits for.
#[derive(Clone, Copy, Debug, PartialEq, Eq, Structural)]
pub enum Awaiting {
    /// A command.
    Command,
    /// The name of the guest to invite.
    InviteeName,
}

/// What the tool does with a line.
#[derive(Debug, PartialEq, Eq)]
pub enum Step {
    /// Ask for the name of the guest: write [`ASK_NAME`] and read on.
    AskName,
    /// Enter this guest in the database and confirm it with this text.
    Invite(String, String),
    /// Write the list of guests.
    ListInvites,
    /// Say, with this text, that the line is no command.
    Unknown(String),
}

/// What a step amounts to.
pub enum StepView {
    AskName,
    Invite(Seq<char>, Seq<char>),
    ListInvites,
    Unknown(Seq<char>),
}

impl View for Step {
    type V = StepView;

    open spec fn view(&self) -> StepView {
        match self {
            Step::AskName => StepView::AskName,
            Step::Invite(name, text) => StepView::Invite(name@, text@),
            Step::ListInvites => StepView::ListInvites,
            Step::Unknown(text) => StepView::Unknown(text@),
        }
    }
}

/// The tool after a line, and what it does with the line. A line counts as
/// it was read, to the last character: a command is recognised only where
/// the line is the command's name and nothing else.
pub open spec fn line_step(awaiting: Awaiting, line: Seq<char>) -> (Awaiting, StepView) {
    match awaiting {
        Awaiting::InviteeName => (
            Awaiting::Command,
            StepView::Invite(line, "Invited "@ + line + "\n"@),
        ),
        Awaiting::Command => if line == "invite"@ {
            (Awaiting::InviteeName, StepView::AskName)
        } else if line == "list-invites"@ {
            (Awaiting::Command, StepView::ListInvites)
        } else {
            (Awaiting::Command, StepView::Unknown("Unknown command "@ + line + "\n"@))
        },
    }
}

/// The line of the list for one guest.
pub open spec fn row(id: int, first_name: Seq<char>, rsvp: Option<(Seq<char>, Seq<char>)>) -> Seq<
    char,
> {
    decimal(id) + " | "@ + first_name + " | "@ + match rsvp {
        None => "No"@,
        Some((details, at_time)) => "Yes, at date: "@ + at_time + ". Details: \n    "@ + details,
    } + "\n"@
}

/// The administration tool.
#[derive(Debug)]
pub struct Cli {
    awaiting: Awaiting,
}

impl Cli {
    /// What the tool waits for.
    pub closed spec fn awaiting(&self) -> Awaiting {
        self.awaiting
    }

    /// The tool as it starts: waiting for a command.
    pub fn start() -> (cli: Cli)
        ensures
            cli.awaiting() == Awaiting::Command,
    {
        Cli { awaiting: Awaiting::Command }
    }

    /// What is written before the next line is read, if anything: the
    /// prompt, where a command is awaited.
    pub fn prompt(&self) -> (text: Option<&'static str>)
        ensures
            text == match self.awaiting() {
                Awaiting::Command => Some(PROMPT),
                Awaiting::InviteeName => None,
            },
    {
        match self.awaiting {
            Awaiting::Command => Some(PROMPT),
            Awaiting::InviteeName => None,
        }
    }

    /// Takes a line and says what to do with it.
    pub fn line(&mut self, line: String) -> (step: Step)
        ensures
            (final(self).awaiting(), step@) == line_step(old(self).awaiting(), line@),
    {
        match self.awaiting {
            Awaiting::InviteeName => {
                self.awaiting = Awaiting::Command;
                let mut text = String::from_str("Invited ");
                text.append(line.as_str());
                text.append("\n");
                Step::Invite(line, text)
            },
            Awaiting::Command => {
                if same_text(line.as_str(), "invite") {
                    self.awaiting = Awaiting::InviteeName;
                    Step::AskName
                } else if same_text(line.as_str(), "list-invites") {
                    Step::ListInvites
                } else {
                    let mut text = String::from_str("Unknown command ");
                    text.append(line.as_str());
                    text.append("\n");
                    Step::Unknown(text)
                }
            },
        }
    }

    /// The line of the list for one guest: the number, the name, and the
    /// answer, which is `No` or the time and the details of the RSVP.
    pub fn list_invites(id: i32, first_name: &str, rsvp: Option<(&str, &str)>) -> (text: String)
        ensures
            text@ == row(
                id as int,
                first_name@,
                match rsvp {
                    Some((details, at_time)) => Some((details@, at_time@)),
                    None => None,
                },
            ),
    {
        let mut text = decimal_text(id as i64);
        text.append(" | ");
        text.append(first_name);
        text.append(" | ");
        match rsvp {
            None => {
                text.append("No");
            },
            Some((details, at_time)) => {
                text.append("Yes, at date: ");
                text.append(at_time);
                text.append(". Details: \n    ");
                text.append(details);
            },
        }
        text.append("\n");
        text
    }
}

} // verus!
