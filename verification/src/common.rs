//! What client and server exchange about invitations.

use std::time::SystemTime;
use vstd::prelude::*;
use vstd::string::StringExecFns;
use crate::text::{decimal, decimal_text, same_text};

verus! {

/// A point in time of the system clock, as the standard library holds it.
#[verifier::external_type_specification]
#[verifier::external_body]
pub struct ExSystemTime(SystemTime);

/// How to reach a guest who answered.
#[derive(Clone, Debug, PartialEq, Eq)]
pub struct RsvpDetails {
    pub phone_number: Option<i64>,
    pub email_address: Option<String>,
}

impl RsvpDetails {
    /// The text shown for these details.
    pub open spec fn text(&self) -> Seq<char> {
        match self.phone_number {
            None => "Email address: "@,
            Some(phone_no) => "Phone number: "@ + decimal(phone_no as int) + "\n Email address: "@,
        }
    }

    /// The text shown for these details: the phone number, where there is
    /// one, and the label of the e-mail address. The address itself is not
    /// shown.
    pub fn to_string(&self) -> (text: String)
        ensures
            text@ == self.text(),
    {
        match self.phone_number {
            None => String::from_str("Email address: "),
            Some(phone_no) => {
                let mut text = String::from_str("Phone number: ");
                let number = decimal_text(phone_no);
                text.append(number.as_str());
                text.append("\n Email address: ");
                text
            },
        }
    }
}

/// A guest on the list, with the answer once it came.
#[derive(Clone, Debug, PartialEq, Eq)]
pub struct Invitee {
    pub id: i32,
    pub first_name: String,
    pub rsvp: Option<(RsvpDetails, SystemTime)>,
}

/// The answer a guest sends.
#[derive(Clone, Debug, PartialEq, Eq)]
pub struct ClientRSVP {
    pub first_name: String,
    pub details: RsvpDetails,
}

/// The paths a client may post to.
#[derive(Clone, Copy, Debug, PartialEq, Eq, Structural)]
pub enum PostPath {
    EnterRsvp,
}

impl PostPath {
    /// The path that a text names, if it names one.
    pub open spec fn of_text(path: Seq<char>) -> Option<Self> {
        if path == "enter-rsvp"@ {
            Some(PostPath::EnterRsvp)
        } else {
            None
        }
    }

    /// The text that names the path.
    pub open spec fn text(&self) -> Seq<char> {
        match self {
            PostPath::EnterRsvp => "enter-rsvp"@,
        }
    }

    /// The path that `path` names, without a leading slash; none for any
    /// other text.
    pub fn from_str(path: &str) -> (r: Option<Self>)
        ensures
            r == Self::of_text(path@),
            r matches Some(p) ==> p.text() == path@,
    {
        if same_text(path, "enter-rsvp") {
            Some(PostPath::EnterRsvp)
        } else {
            None
        }
    }

    /// The text that names the path.
    pub fn as_ref(&self) -> (text: &'static str)
        ensures
            text@ == self.text(),
            Self::of_text(text@) == Some(*self),
    {
        match self {
            PostPath::EnterRsvp => "enter-rsvp",
        }
    }
}

/// What the server answers to an RSVP.
#[derive(Clone, Debug, PartialEq, Eq)]
pub enum ServerResponse {
    Success,
    NotInvited,
    AlreadyRSVPed(u64),
}

} // verus!
