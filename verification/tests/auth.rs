use mangadex::client::Client;
use mangadex::common::Method;
use mangadex::errors::{Errors, HttpError};
use mangadex::ident::Uuid;
use mangadex::schema::auth::AuthTokens;

fn logged_in(base: &str) -> Client {
    let mut client = Client::new(base).unwrap();
    client.set_tokens(Some(AuthTokens {
        session: "sessiontoken".to_string(),
        refresh: "refreshtoken".to_string(),
    }));
    client
}

#[test]
fn auth_login_ok() {
    let mut client = Client::new("http://127.0.0.1:5000").unwrap();

    let request = client.login("test", "hunter1").unwrap();
    assert_eq!(request.method, Method::Post);
    assert_eq!(request.url, "http://127.0.0.1:5000/auth/login");
    assert_eq!(
        request.body.as_deref(),
        Some(r#"{"username":"test","password":"hunter1"}"#)
    );
    assert_eq!(request.bearer, None);
    assert!(request.multipart.is_none());

    let body = r#"{"result":"ok","token":{"session":"sessiontoken","refresh":"refreshtoken"}}"#;
    let tokens = client.complete_login(Ok(body.to_string())).unwrap();
    assert_eq!(tokens.session.as_str(), "sessiontoken");
    assert_eq!(tokens.refresh.as_str(), "refreshtoken");

    let stored = client.get_tokens().unwrap();
    assert_eq!(stored.session.as_str(), "sessiontoken");
    assert_eq!(stored.refresh.as_str(), "refreshtoken");
}

#[test]
fn auth_login_err_400() {
    let mut client = Client::new("http://127.0.0.1:5000").unwrap();
    client.login("test", "hunter1").unwrap();

    let body = r#"{"result":"error","errors":[]}"#;
    let errors = client
        .complete_login(Ok(body.to_string()))
        .expect_err("should return an error");
    assert!(matches!(errors, Errors::Api(x) if x.errors.is_empty()));
    assert!(client.get_tokens().is_none());
}

#[test]
fn auth_login_err_401() {
    let mut client = Client::new("http://127.0.0.1:5000").unwrap();
    client.login("test", "hunter1").unwrap();

    let errors = client
        .complete_login(Ok(String::new()))
        .expect_err("should return an error");
    assert!(matches!(errors, Errors::Http(_)));
    assert!(matches!(errors, Errors::Http(HttpError::Decode)));
    assert!(client.get_tokens().is_none());
}

#[test]
fn login_keeps_old_tokens_on_failure() {
    let mut client = logged_in("http://127.0.0.1:5000");
    let body = r#"{"result":"error","errors":[]}"#;
    assert!(client.complete_login(Ok(body.to_string())).is_err());
    let tokens = client.get_tokens().unwrap();
    assert_eq!(tokens.session, "sessiontoken");
    assert_eq!(tokens.refresh, "refreshtoken");

    let failed = client.complete_login(Err(HttpError::Transport("connection refused".to_string())));
    assert!(matches!(
        failed,
        Err(Errors::Http(HttpError::Transport(reason))) if reason == "connection refused"
    ));
    assert_eq!(client.get_tokens().unwrap().session, "sessiontoken");
}

#[test]
fn login_with_tokens_sends_the_session_token() {
    let client = logged_in("http://127.0.0.1:5000");
    let request = client.login("test", "hunter1").unwrap();
    assert_eq!(request.bearer.as_deref(), Some("sessiontoken"));
}

#[test]
fn login_escapes_what_it_sends() {
    let client = Client::new("http://127.0.0.1:5000").unwrap();
    let request = client.login("a\"b", "c\\d\n").unwrap();
    assert_eq!(
        request.body.as_deref(),
        Some(r#"{"username":"a\"b","password":"c\\d\n"}"#)
    );
}

#[test]
fn auth_check_token() {
    let client = logged_in("http://127.0.0.1:5000");
    assert_eq!(client.get_tokens().is_some(), true);

    let request = client.check_token().unwrap();
    assert_eq!(request.method, Method::Get);
    assert_eq!(request.url, "http://127.0.0.1:5000/auth/check");
    assert_eq!(request.bearer.as_deref(), Some("sessiontoken"));
    assert_eq!(request.body, None);

    let body = r#"{
        "result": "ok",
        "isAuthenticated": true,
        "roles": [
            "ROLE_MEMBER",
            "IS_JWT_AUTHENTICATED",
            "IS_AUTHENTICATED_FULLY",
            "IS_AUTHENTICATED_ANONYMOUSLY",
            "IS_AUTHENTICATED_REMEMBERED"
        ],
        "permissions": [
            "user.list",
            "manga.view",
            "chapter.view",
            "author.view",
            "scanlation_group.view",
            "cover.view",
            "manga.list",
            "chapter.list",
            "author.list",
            "scanlation_group.list",
            "cover.list"
        ]
    }"#;
    let info = Client::complete_check_token(Ok(body.to_string())).unwrap();
    assert_eq!(info.is_authenticated, true);
    assert_eq!(info.permissions.len(), 11usize);
    assert_eq!(info.roles.len(), 5usize);
    assert_eq!(info.roles[0], "ROLE_MEMBER");
    assert_eq!(info.permissions[10], "cover.list");
}

#[test]
fn check_token_without_tokens_is_refused() {
    let client = Client::new("http://127.0.0.1:5000").unwrap();
    assert!(matches!(client.check_token(), Err(Errors::MissingTokens)));
}

#[test]
fn check_token_rejects_a_wrong_shape() {
    let body = r#"{"result":"ok","isAuthenticated":"yes","roles":[],"permissions":[]}"#;
    assert!(matches!(
        Client::complete_check_token(Ok(body.to_string())),
        Err(Errors::Http(HttpError::Decode))
    ));
    let body = r#"{"result":"ok","isAuthenticated":true,"roles":[1],"permissions":[]}"#;
    assert!(matches!(
        Client::complete_check_token(Ok(body.to_string())),
        Err(Errors::Http(HttpError::Decode))
    ));
}

#[test]
fn auth_logout() {
    let mut client = logged_in("http://127.0.0.1:5000");
    assert_eq!(client.get_tokens().is_some(), true);

    let request = client.logout().unwrap();
    assert_eq!(request.method, Method::Post);
    assert_eq!(request.url, "http://127.0.0.1:5000/auth/logout");
    assert_eq!(request.bearer.as_deref(), Some("sessiontoken"));
    assert_eq!(request.body, None);

    client
        .complete_logout(Ok(r#"{"result":"ok"}"#.to_string()))
        .unwrap();
    assert_eq!(client.get_tokens().is_none(), true);
}

#[test]
fn auth_logout_503() {
    let mut client = logged_in("http://127.0.0.1:5000");
    assert_eq!(client.get_tokens().is_some(), true);
    client.logout().unwrap();

    let body = r#"{
        "result": "error",
        "errors": [{
            "id": "5e50fc7b-e185-45b1-a692-58e8091b22d2",
            "title": "The service is unavailable",
            "status": 503,
            "detail": "Servers are burning"
        }]
    }"#;
    let errors = client
        .complete_logout(Ok(body.to_string()))
        .expect_err("expected error");

    match errors {
        Errors::Api(errs) if errs.errors.len() == 1usize => {
            let error = errs.errors.get(0).unwrap();
            assert_eq!(
                error.id,
                Uuid::parse_str("5e50fc7b-e185-45b1-a692-58e8091b22d2").unwrap()
            );
            assert_eq!(error.title.as_deref(), Some("The service is unavailable"));
            assert_eq!(error.detail.as_deref(), Some("Servers are burning"));
            assert_eq!(error.status, 503);
        }
        other => panic!("unexpected error: {:?}", other),
    }

    // A logout that failed leaves the tokens in place.
    let tokens = client.get_tokens().unwrap();
    assert_eq!(tokens.session, "sessiontoken");
    assert_eq!(tokens.refresh, "refreshtoken");
}

#[test]
fn logout_without_tokens_is_refused() {
    let client = Client::new("http://127.0.0.1:5000").unwrap();
    assert!(matches!(client.logout(), Err(Errors::MissingTokens)));
}

#[test]
fn logout_needs_an_empty_answer() {
    let mut client = logged_in("http://127.0.0.1:5000");
    let body = r#"{"result":"ok","extra":1}"#;
    assert!(matches!(
        client.complete_logout(Ok(body.to_string())),
        Err(Errors::Http(HttpError::Decode))
    ));
    assert!(client.get_tokens().is_some());
}

#[test]
fn login_then_logout_leaves_no_tokens() {
    let mut client = Client::new("http://127.0.0.1:5000").unwrap();
    let body = r#"{"result":"ok","token":{"session":"s","refresh":"r"}}"#;
    client.complete_login(Ok(body.to_string())).unwrap();
    assert!(client.get_tokens().is_some());
    client
        .complete_logout(Ok(r#"{"result":"ok"}"#.to_string()))
        .unwrap();
    assert!(client.get_tokens().is_none());
}

#[test]
fn auth_refresh_token() {
    let mut client = logged_in("http://127.0.0.1:5000");
    assert_eq!(client.get_tokens().is_some(), true);

    let request = client.refresh_tokens().unwrap();
    assert_eq!(request.method, Method::Post);
    assert_eq!(request.url, "http://127.0.0.1:5000/auth/refresh");
    assert_eq!(request.body.as_deref(), Some(r#"{"token":"refreshtoken"}"#));
    assert_eq!(request.bearer.as_deref(), Some("sessiontoken"));

    let body = r#"{
        "result": "ok",
        "token": {
            "session": "sessiontoken2",
            "refresh": "refreshtoken2"
        },
        "message": "Token refreshed!"
    }"#;
    let res = client.complete_refresh_tokens(Ok(body.to_string())).unwrap();

    assert_eq!(client.get_tokens().is_some(), true);
    let tokens = client.get_tokens().unwrap();

    assert_eq!(tokens.session.as_str(), "sessiontoken2");
    assert_eq!(tokens.refresh.as_str(), "refreshtoken2");
    assert_eq!(res.tokens.session.as_str(), "sessiontoken2");
    assert_eq!(res.tokens.refresh.as_str(), "refreshtoken2");
    assert_eq!(res.message.as_deref(), Some("Token refreshed!"));
}

fn refresh_token_err(code: i32) {
    let mut client = logged_in("http://127.0.0.1:5000");
    assert_eq!(client.get_tokens().is_some(), true);
    client.refresh_tokens().unwrap();

    let body = format!(
        r#"{{
            "result": "error",
            "errors": [{{
                "id": "5e50fc7b-e185-45b1-a692-58e8091b22d2",
                "title": "Error title",
                "status": {},
                "detail": "Error detail"
            }}]
        }}"#,
        code
    );
    let errors = client
        .complete_refresh_tokens(Ok(body))
        .expect_err("expected error");

    match errors {
        Errors::Api(errs) if errs.errors.len() == 1usize => {
            let error = errs.errors.get(0).unwrap();
            assert_eq!(
                error.id,
                Uuid::parse_str("5e50fc7b-e185-45b1-a692-58e8091b22d2").unwrap()
            );
            assert_eq!(error.title.as_deref(), Some("Error title"));
            assert_eq!(error.detail.as_deref(), Some("Error detail"));
            assert_eq!(error.status, code);
        }
        other => panic!("unexpected error: {:?}", other),
    }

    let tokens = client.get_tokens().unwrap();
    assert_eq!(tokens.session, "sessiontoken");
    assert_eq!(tokens.refresh, "refreshtoken");
}

#[test]
fn refresh_token_400() {
    refresh_token_err(400);
}

#[test]
fn refresh_token_401() {
    refresh_token_err(401);
}

#[test]
fn refresh_token_403() {
    refresh_token_err(403);
}

#[test]
fn refresh_without_tokens_is_refused() {
    let client = Client::new("http://127.0.0.1:5000").unwrap();
    assert!(matches!(client.refresh_tokens(), Err(Errors::MissingTokens)));
}

#[test]
fn refresh_needs_both_tokens_in_the_answer() {
    let mut client = logged_in("http://127.0.0.1:5000");
    let body = r#"{"result":"ok","token":{"session":"only"}}"#;
    assert!(matches!(
        client.complete_refresh_tokens(Ok(body.to_string())),
        Err(Errors::Http(HttpError::Decode))
    ));
    let tokens = client.get_tokens().unwrap();
    assert_eq!(tokens.session, "sessiontoken");
    assert_eq!(tokens.refresh, "refreshtoken");
}

#[test]
fn refresh_message_may_be_missing_or_null() {
    let mut client = logged_in("http://127.0.0.1:5000");
    let body = r#"{"result":"ok","token":{"session":"a","refresh":"b"}}"#;
    let res = client.complete_refresh_tokens(Ok(body.to_string())).unwrap();
    assert_eq!(res.message, None);
    let body = r#"{"result":"ok","token":{"session":"c","refresh":"d"},"message":null}"#;
    let res = client.complete_refresh_tokens(Ok(body.to_string())).unwrap();
    assert_eq!(res.message, None);
    assert_eq!(client.get_tokens().unwrap().session, "c");
    assert_eq!(client.get_tokens().unwrap().refresh, "d");
    let body = r#"{"result":"ok","token":{"session":"e","refresh":"f"},"message":7}"#;
    assert!(client.complete_refresh_tokens(Ok(body.to_string())).is_err());
    assert_eq!(client.get_tokens().unwrap().session, "c");
}
