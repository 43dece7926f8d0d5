use quickbooks::types::defaults::token_type;
use quickbooks::types::{AccessToken, TokenFields};

fn text(value: &str) -> Option<String> {
    Some(value.to_string())
}

fn token(access: &str, refresh: &str, scheme: &str) -> AccessToken {
    AccessToken {
        access_token: access.to_string(),
        refresh_token: refresh.to_string(),
        token_type: scheme.to_string(),
    }
}

fn fields(access: Option<String>, refresh: Option<String>, scheme: Option<String>) -> TokenFields {
    TokenFields {
        access_token: access,
        refresh_token: refresh,
        token_type: scheme,
    }
}

#[test]
fn default_scheme_is_bearer() {
    assert_eq!(token_type(), "Bearer");
}

#[test]
fn default_token_is_empty_under_the_bearer_scheme() {
    let token = AccessToken::default();
    assert_eq!(token.token_type, "Bearer");
    assert_eq!(token.access_token, "");
    assert_eq!(token.refresh_token, "");
}

#[test]
fn token_clone_is_equal() {
    let original = token("a", "r", "Bearer");
    assert_eq!(original.clone(), original);
}

#[test]
fn token_fields_clone_is_equal() {
    let record = fields(text("a"), None, text(""));
    assert_eq!(record.clone(), record);
}

#[test]
fn absent_fields_take_their_defaults() {
    assert_eq!(
        AccessToken::from_fields(fields(None, None, None)),
        AccessToken::default()
    );
    assert_eq!(
        AccessToken::from_fields(fields(text("new"), None, None)),
        token("new", "", "Bearer")
    );
    assert_eq!(
        AccessToken::from_fields(fields(None, text("r"), None)),
        token("", "r", "Bearer")
    );
}

#[test]
fn present_fields_are_kept_as_read() {
    assert_eq!(
        AccessToken::from_fields(fields(text("new"), text("new-r"), text("mac"))),
        token("new", "new-r", "mac")
    );
}

#[test]
fn a_scheme_read_as_empty_stays_empty() {
    let read = AccessToken::from_fields(fields(None, None, text("")));
    assert_eq!(read, token("", "", ""));
}

#[test]
fn empty_fields_are_not_written() {
    assert_eq!(
        AccessToken::default().to_fields(),
        fields(None, None, text("Bearer"))
    );
    assert_eq!(token("", "r", "").to_fields(), fields(None, text("r"), None));
    assert_eq!(token("", "", "").to_fields(), fields(None, None, None));
}

#[test]
fn full_token_is_written_whole() {
    assert_eq!(
        token("a", "r", "Bearer").to_fields(),
        fields(text("a"), text("r"), text("Bearer"))
    );
}

#[test]
fn default_scheme_is_written_when_present() {
    let written = token("a", "", &token_type()).to_fields();
    assert_eq!(written, fields(text("a"), None, text("Bearer")));
}

#[test]
fn written_token_reads_back() {
    for original in [
        token("a", "r", "Bearer"),
        token("a", "", "Bearer"),
        token("", "", "mac"),
        AccessToken::default(),
    ] {
        assert_eq!(AccessToken::from_fields(original.to_fields()), original);
    }
}

#[test]
fn token_without_a_scheme_reads_back_as_bearer() {
    assert_eq!(
        AccessToken::from_fields(token("a", "r", "").to_fields()),
        token("a", "r", "Bearer")
    );
}
