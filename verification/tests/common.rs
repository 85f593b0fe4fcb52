use std::time::{Duration, SystemTime};
use thebestofcmu::common::{ClientRSVP, Invitee, PostPath, RsvpDetails, ServerResponse};

#[test]
fn post_path_from_its_name() {
    assert_eq!(PostPath::from_str("enter-rsvp"), Some(PostPath::EnterRsvp));
    assert_eq!(PostPath::EnterRsvp.as_ref(), "enter-rsvp");
    assert_eq!(PostPath::from_str(PostPath::EnterRsvp.as_ref()), Some(PostPath::EnterRsvp));
}

#[test]
fn post_path_from_other_text() {
    for text in ["", "/enter-rsvp", "enter-rsvp/", "Enter-Rsvp", "enter_rsvp", "enter-rsv", "x"] {
        assert_eq!(PostPath::from_str(text), None);
    }
}

#[test]
fn details_without_phone_number() {
    let details = RsvpDetails { phone_number: None, email_address: None };
    assert_eq!(details.to_string(), "Email address: ");
    let details =
        RsvpDetails { phone_number: None, email_address: Some(String::from("a@example.org")) };
    assert_eq!(details.to_string(), "Email address: ");
}

#[test]
fn details_with_phone_number() {
    let details = RsvpDetails { phone_number: Some(4125550100), email_address: None };
    assert_eq!(details.to_string(), "Phone number: 4125550100\n Email address: ");
    let details =
        RsvpDetails { phone_number: Some(0), email_address: Some(String::from("a@example.org")) };
    assert_eq!(details.to_string(), "Phone number: 0\n Email address: ");
    let details = RsvpDetails { phone_number: Some(-17), email_address: None };
    assert_eq!(details.to_string(), "Phone number: -17\n Email address: ");
    let details = RsvpDetails { phone_number: Some(i64::MIN), email_address: None };
    assert_eq!(details.to_string(), "Phone number: -9223372036854775808\n Email address: ");
    let details = RsvpDetails { phone_number: Some(i64::MAX), email_address: None };
    assert_eq!(details.to_string(), "Phone number: 9223372036854775807\n Email address: ");
}

#[test]
fn records_compare_by_their_fields() {
    let details = RsvpDetails { phone_number: Some(1), email_address: None };
    let at = SystemTime::UNIX_EPOCH + Duration::from_secs(1_662_206_400);
    let guest =
        Invitee { id: 3, first_name: String::from("Ada"), rsvp: Some((details.clone(), at)) };
    assert_eq!(guest.clone(), guest);
    assert_ne!(Invitee { id: 4, ..guest.clone() }, guest);
    assert_ne!(Invitee { rsvp: None, ..guest.clone() }, guest);
    let answer = ClientRSVP { first_name: String::from("Ada"), details };
    assert_eq!(answer.clone(), answer);
    assert_ne!(ServerResponse::Success, ServerResponse::NotInvited);
    assert_ne!(ServerResponse::AlreadyRSVPed(1), ServerResponse::AlreadyRSVPed(2));
    assert_eq!(ServerResponse::AlreadyRSVPed(7).clone(), ServerResponse::AlreadyRSVPed(7));
}
