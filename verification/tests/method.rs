use hyper::http::version::Version;
use hyper::Method;
use thebestofcmu::method::{AllowedMethod, ALL_ALLOWED};
use thebestofcmu::response::{Body, METHOD_NOT_ALLOWED};

#[test]
fn respond_with_405() {
    let reply = AllowedMethod::method_not_alllowed(Version::HTTP_2);
    assert_eq!(reply.version, Version::HTTP_2);
    assert_eq!(reply.status, 405);
    assert_eq!(reply.status, METHOD_NOT_ALLOWED);
    assert_eq!(
        reply.allow,
        vec![AllowedMethod::GET, AllowedMethod::HEAD, AllowedMethod::POST]
    );
    assert_eq!(
        reply.body,
        Body::Text(String::from("Only GET, HEAD, POST requests are allowed to thebestofcmu."))
    );
}

#[test]
fn convert_methods() {
    for method in &[Method::GET, Method::HEAD] {
        let allowed_method = AllowedMethod::find_from(method.as_str()).unwrap();
        let back: Method = Method::from_bytes(allowed_method.value().as_bytes()).unwrap();
        assert_eq!(method, back);
    }
}

#[test]
fn post_is_allowed_too() {
    assert_eq!(AllowedMethod::find_from(Method::POST.as_str()), Some(AllowedMethod::POST));
    assert_eq!(AllowedMethod::POST.value(), "POST");
}

#[test]
fn other_methods_are_not_allowed() {
    for method in [
        Method::PUT,
        Method::DELETE,
        Method::OPTIONS,
        Method::PATCH,
        Method::TRACE,
        Method::CONNECT,
    ] {
        assert_eq!(AllowedMethod::find_from(method.as_str()), None);
    }
    for name in ["", "get", "Get", "GET ", " GET", "GETS", "HEA", "POSTS", "post", "G", "GEТ"] {
        assert_eq!(AllowedMethod::find_from(name), None);
    }
}

#[test]
fn names_of_allowed_methods() {
    assert_eq!(ALL_ALLOWED, [AllowedMethod::GET, AllowedMethod::HEAD, AllowedMethod::POST]);
    let names: Vec<&str> = ALL_ALLOWED.iter().map(|m| m.value()).collect();
    assert_eq!(names, vec!["GET", "HEAD", "POST"]);
    for method in ALL_ALLOWED {
        assert_eq!(AllowedMethod::find_from(method.value()), Some(method));
    }
}
