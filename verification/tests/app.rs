use thebestofcmu::app::{App, Handling, Miscellaneous, RequestHead, RsvpOutcome};
use thebestofcmu::method::AllowedMethod;
use thebestofcmu::response::{
    Body, Reply, ACCEPTED, BAD_REQUEST, INTERNAL_SERVER_ERROR, METHOD_NOT_ALLOWED, NOT_FOUND, OK,
};
use thebestofcmu::website::{RequestUri, Website, MAIN_PAGE};

fn app() -> App<()> {
    App { database: (), website: Website { favicon: &[1, 2], kayaking_image: &[3] } }
}

fn request(method: &str, path: &str, body_is_empty: bool) -> RequestHead<u8> {
    RequestHead {
        method: String::from(method),
        uri: RequestUri { path: Some(String::from(path)) },
        version: 11,
        body_is_empty,
    }
}

fn text(status: u16, body: &str) -> Handling<u8> {
    Handling::Respond(Reply {
        version: 11,
        status,
        allow: Vec::new(),
        body: Body::Text(String::from(body)),
    })
}

#[test]
fn status_codes() {
    assert_eq!(
        (OK, ACCEPTED, BAD_REQUEST, NOT_FOUND, METHOD_NOT_ALLOWED, INTERNAL_SERVER_ERROR),
        (200, 202, 400, 404, 405, 500)
    );
}

#[test]
fn methods_that_are_not_allowed() {
    for method in ["PUT", "DELETE", "get", ""] {
        assert_eq!(
            app().handle_request(request(method, "/", true)),
            Handling::Respond(Reply {
                version: 11,
                status: 405,
                allow: vec![AllowedMethod::GET, AllowedMethod::HEAD, AllowedMethod::POST],
                body: Body::Text(String::from(
                    "Only GET, HEAD, POST requests are allowed to thebestofcmu."
                )),
            })
        );
    }
}

#[test]
fn get_serves_the_site() {
    assert_eq!(app().handle_request(request("GET", "/", true)), text(200, MAIN_PAGE));
    assert_eq!(
        app().handle_request(request("GET", "/favicon.ico", true)),
        Handling::Respond(Reply {
            version: 11,
            status: 200,
            allow: Vec::new(),
            body: Body::Bytes(&[1, 2]),
        })
    );
    assert_eq!(
        app().handle_request(request("GET", "/kayaking-background.webp", true)),
        Handling::Respond(Reply {
            version: 11,
            status: 200,
            allow: Vec::new(),
            body: Body::Bytes(&[3]),
        })
    );
    assert_eq!(
        app().handle_request(request("GET", "/nowhere", true)),
        text(404, "According to my book-keeping, that page does not exist.")
    );
}

#[test]
fn head_serves_an_empty_page_for_any_path() {
    for path in ["/", "/favicon.ico", "/nowhere"] {
        assert_eq!(
            app().handle_request(request("HEAD", path, true)),
            Handling::Respond(Reply {
                version: 11,
                status: 200,
                allow: Vec::new(),
                body: Body::Empty,
            })
        );
    }
}

#[test]
fn requests_with_a_body_are_refused_by_the_site() {
    for method in ["GET", "HEAD"] {
        for path in ["/", "/nowhere"] {
            assert_eq!(
                app().handle_request(request(method, path, false)),
                text(400, "A request must have an empty body")
            );
        }
    }
}

#[test]
fn posts_go_to_the_rsvp() {
    assert_eq!(app().handle_request(request("POST", "/enter-rsvp", false)), Handling::EnterRsvp(11));
    assert_eq!(app().handle_request(request("POST", "enter-rsvp", true)), Handling::EnterRsvp(11));
    for path in ["/", "/enter", "/enter-rsvp/", "//enter-rsvp"] {
        assert_eq!(
            app().handle_request(request("POST", path, false)),
            text(404, "Non-existent POST path")
        );
    }
}

#[test]
fn site_by_method() {
    let uri = || RequestUri { path: Some(String::from("/")) };
    let page = app().yield_site(AllowedMethod::GET, uri(), 2u8, true);
    assert_eq!(page, Reply::plain(2u8, OK, Body::Text(String::from(MAIN_PAGE))));
    let head = app().yield_site(AllowedMethod::HEAD, uri(), 2u8, true);
    assert_eq!(head, Reply::plain(2u8, OK, Body::Empty));
    let post = app().yield_site(AllowedMethod::POST, uri(), 2u8, true);
    assert_eq!(post, page);
}

#[test]
fn outcomes_of_an_rsvp() {
    assert_eq!(
        App::<()>::enter_rsvp(2u8, RsvpOutcome::BadClientData),
        Ok(Reply::plain(2u8, 400, Body::Text(String::from("Unable to parse RSVP json"))))
    );
    assert_eq!(
        App::<()>::enter_rsvp(2u8, RsvpOutcome::DatabaseError),
        Ok(Reply::plain(2u8, 500, Body::Text(String::from("Database error"))))
    );
    assert_eq!(
        App::<()>::enter_rsvp(2u8, RsvpOutcome::Answered(String::from("\"Success\""))),
        Ok(Reply::plain(2u8, 202, Body::Text(String::from("\"Success\""))))
    );
    assert_eq!(App::<()>::enter_rsvp(2u8, RsvpOutcome::Unwritable), Err(Miscellaneous));
}

#[test]
fn closing_an_rsvp() {
    let orderly = Reply::plain(2u8, 202, Body::Text(String::from("{\"AlreadyRSVPed\":3}")));
    assert_eq!(
        App::<()>::answer_rsvp(2u8, Ok(Reply::plain(2u8, 202, Body::Text(String::from("{\"AlreadyRSVPed\":3}"))))),
        orderly
    );
    assert_eq!(
        App::<()>::answer_rsvp(2u8, Err(Miscellaneous)),
        Reply::plain(2u8, 500, Body::Text(String::from("Miscellaneous error")))
    );
}
