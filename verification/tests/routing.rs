use user_api::routes::{route, Endpoint};

#[test]
fn get_root_routes_to_hello() {
    assert_eq!(route("GET", "/"), Some(Endpoint::Hello));
}

#[test]
fn get_health_routes_to_health() {
    assert_eq!(route("GET", "/health"), Some(Endpoint::Health));
}

#[test]
fn get_users_routes_to_listing() {
    assert_eq!(route("GET", "/users"), Some(Endpoint::ListUsers));
}

#[test]
fn post_users_routes_to_create() {
    assert_eq!(route("POST", "/users"), Some(Endpoint::CreateUser));
}

#[test]
fn unknown_path_is_unrouted() {
    assert_eq!(route("GET", "/nope"), None);
}

#[test]
fn wrong_method_is_unrouted() {
    assert_eq!(route("PUT", "/users"), None);
    assert_eq!(route("POST", "/"), None);
    assert_eq!(route("POST", "/health"), None);
}
