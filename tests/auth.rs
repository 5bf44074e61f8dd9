use heroku_rs::framework::auth::{AuthClient, Credentials};

#[test]
fn bearer_token_gives_one_authorization_header() {
    let credentials = Credentials::UserAuthToken { token: String::from("API_KEY") };
    let headers = credentials.headers();
    assert_eq!(headers.len(), 1);
    assert_eq!(headers[0].0, "Authorization");
    assert_eq!(headers[0].1, "Bearer API_KEY");
}

#[test]
fn empty_token_still_gives_the_bearer_prefix() {
    let credentials = Credentials::UserAuthToken { token: String::new() };
    let headers = credentials.headers();
    assert_eq!(headers.len(), 1);
    assert_eq!(headers[0].1, "Bearer ");
}

#[test]
fn auth_attaches_the_authorization_header() {
    let credentials = Credentials::UserAuthToken { token: String::from("t0k3n") };
    let client = reqwest::blocking::Client::new();
    let request = client.get("http://localhost/apps").auth(&credentials).build().unwrap();
    let values: Vec<_> = request.headers().get_all("Authorization").iter().collect();
    assert_eq!(values.len(), 1);
    assert_eq!(values[0], "Bearer t0k3n");
}

#[test]
fn auth_keeps_earlier_headers_and_adds_one_authorization() {
    let credentials = Credentials::UserAuthToken { token: String::from("abc") };
    let client = reqwest::blocking::Client::new();
    let request = client.get("http://localhost/apps").header("Accept", "application/json").auth(&credentials).build().unwrap();
    assert_eq!(request.headers().len(), 2);
    assert_eq!(request.headers().get("accept").unwrap(), "application/json");
    assert_eq!(request.headers().get_all("authorization").iter().count(), 1);
    assert_eq!(request.headers().get("authorization").unwrap(), "Bearer abc");
}

#[test]
fn auth_with_a_token_no_header_can_hold_fails_the_request() {
    let credentials = Credentials::UserAuthToken { token: String::from("bad\ntoken") };
    let client = reqwest::blocking::Client::new();
    assert!(client.get("http://localhost/apps").auth(&credentials).build().is_err());
}

#[test]
fn auth_appends_to_an_existing_authorization_header() {
    let credentials = Credentials::UserAuthToken { token: String::from("t") };
    let client = reqwest::blocking::Client::new();
    let request = client
        .get("http://localhost/apps")
        .header("Authorization", "x")
        .header("Accept", "y")
        .auth(&credentials)
        .build()
        .unwrap();
    let values: Vec<_> = request.headers().get_all("authorization").iter().collect();
    assert_eq!(values, vec!["x", "Bearer t"]);
    assert_eq!(request.headers().get("accept").unwrap(), "y");
    assert_eq!(request.method().as_str(), "GET");
    assert_eq!(request.url().as_str(), "http://localhost/apps");
}
