use quickbooks::error::{Error, Precondition};
use quickbooks::reply::{payload, status_is_success, token_outcome, Reply};
use quickbooks::types::{AccessToken, TokenFields};

fn answer(status: u16, body: &str) -> Reply {
    Reply::Answer {
        status,
        body: body.to_string(),
    }
}

#[test]
fn success_is_the_two_hundreds() {
    assert!(status_is_success(200));
    assert!(status_is_success(204));
    assert!(status_is_success(299));
    assert!(!status_is_success(199));
    assert!(!status_is_success(300));
    assert!(!status_is_success(0));
    assert!(!status_is_success(u16::MAX));
}

#[test]
fn successful_answer_gives_its_body() {
    assert_eq!(payload(answer(200, "{\"a\":1}")), Ok("{\"a\":1}".to_string()));
    assert_eq!(payload(answer(299, "")), Ok(String::new()));
}

#[test]
fn refused_answer_gives_status_and_body() {
    assert_eq!(
        payload(answer(401, "no")),
        Err(Error::Api {
            status: 401,
            body: "no".to_string()
        })
    );
    assert_eq!(
        payload(answer(500, "")),
        Err(Error::Api {
            status: 500,
            body: String::new()
        })
    );
}

#[test]
fn redirect_and_informational_answers_are_not_success() {
    assert_eq!(
        payload(answer(302, "moved")),
        Err(Error::Api {
            status: 302,
            body: "moved".to_string()
        })
    );
    assert_eq!(
        payload(answer(199, "x")),
        Err(Error::Api {
            status: 199,
            body: "x".to_string()
        })
    );
}

#[test]
fn transport_failure_is_handed_on() {
    assert_eq!(
        payload(Reply::Failure("timed out".to_string())),
        Err(Error::Transport("timed out".to_string()))
    );
}

#[test]
fn error_clone_is_equal() {
    let errors = vec![
        Error::Precondition(Precondition::StartPosition),
        Error::Precondition(Precondition::RefreshToken),
        Error::Transport("t".to_string()),
        Error::Api {
            status: 404,
            body: "b".to_string(),
        },
        Error::Decode("d".to_string()),
    ];
    for error in errors {
        assert_eq!(error.clone(), error);
    }
}

fn record(access: &str, refresh: &str) -> TokenFields {
    TokenFields {
        access_token: Some(access.to_string()),
        refresh_token: Some(refresh.to_string()),
        token_type: None,
    }
}

#[test]
fn token_of_a_successful_answer_is_its_record() {
    assert_eq!(
        token_outcome(answer(200, "{}"), Ok(record("a", "r"))),
        Ok(AccessToken {
            access_token: "a".to_string(),
            refresh_token: "r".to_string(),
            token_type: "Bearer".to_string(),
        })
    );
}

#[test]
fn token_of_an_undecodable_answer_is_a_decode_error() {
    assert_eq!(
        token_outcome(answer(200, "nonsense"), Err("expected value".to_string())),
        Err(Error::Decode("expected value".to_string()))
    );
}

#[test]
fn token_of_a_refused_answer_is_the_refusal() {
    assert_eq!(
        token_outcome(answer(403, "no"), Ok(record("a", "r"))),
        Err(Error::Api {
            status: 403,
            body: "no".to_string()
        })
    );
    assert_eq!(
        token_outcome(answer(403, "no"), Err("x".to_string())),
        Err(Error::Api {
            status: 403,
            body: "no".to_string()
        })
    );
}

#[test]
fn token_of_no_answer_is_the_transport_failure() {
    assert_eq!(
        token_outcome(Reply::Failure("dns".to_string()), Err("dns".to_string())),
        Err(Error::Transport("dns".to_string()))
    );
}
