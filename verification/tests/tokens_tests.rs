use twitch_oauth2::id::{
    check_content_type, classify_response_status, normalize_scopes, RequestParseError,
    TwitchTokenErrorResponse,
};
use twitch_oauth2::tokens::errors::{
    DeviceUserTokenExchangeError, ImplicitUserTokenExchangeError, Never, RefreshTokenError,
    ValidationError,
};
use twitch_oauth2::tokens::{
    check_app_token_validation, classify_implicit_redirect, classify_validation_error,
    normalize_expires_in, refresh_token_values, user_token_parts,
};
use twitch_oauth2::{
    AccessToken, ClientId, ClientSecret, CsrfToken, RefreshToken, Scope, TwitchTokenResponse,
    ValidatedToken,
};

#[test]
fn secrets_round_trip() {
    assert_eq!(AccessToken::new("tok".to_string()).secret(), "tok");
    assert_eq!(RefreshToken::new("ref".to_string()).secret(), "ref");
    assert_eq!(ClientSecret::new("sec".to_string()).secret(), "sec");
    assert_eq!(CsrfToken::new("csrf".to_string()).secret(), "csrf");
    assert_eq!(ClientId::new("id".to_string()).as_str(), "id");
}

#[test]
fn random_csrf_length() {
    // 16 random bytes encode to 24 base64 characters
    let token = CsrfToken::new_random();
    assert_eq!(token.secret().len(), 24);
    // every started group of three bytes gives four characters
    assert_eq!(CsrfToken::new_random_len(3).secret().len(), 4);
    assert_eq!(CsrfToken::new_random_len(4).secret().len(), 8);
    assert_eq!(CsrfToken::new_random_len(0).secret().len(), 0);
}

#[test]
fn normalize_scopes_lone_empty_string() {
    assert!(normalize_scopes(None).is_none());
    assert!(normalize_scopes(Some(vec![Scope::Other("".to_string())])).is_none());
    let kept = normalize_scopes(Some(vec![Scope::ChatRead])).unwrap();
    assert_eq!(kept, vec![Scope::ChatRead]);
    let empty_kept = normalize_scopes(Some(vec![])).unwrap();
    assert_eq!(empty_kept.len(), 0);
}

#[test]
fn normalize_expires_in_zero_is_none() {
    assert!(normalize_expires_in(0).is_none());
    assert_eq!(normalize_expires_in(5520838), Some(5520838));
}

#[test]
fn classify_status_accepts_only_ok() {
    assert!(classify_response_status(200, None).is_ok());
    match classify_response_status(404, None) {
        Err(RequestParseError::Other(status)) => assert_eq!(status, 404),
        _ => panic!("a status other than 200 must be reported"),
    }
    let err = TwitchTokenErrorResponse {
        status: 400,
        message: "bad request".to_string(),
        error: None,
    };
    match classify_response_status(200, Some(err)) {
        Err(RequestParseError::TwitchError(e)) => assert_eq!(e.status, 400),
        _ => panic!("a provider error must win over the status"),
    }
}

#[test]
fn classify_validation_unauthorized() {
    let unauthorized = RequestParseError::TwitchError(TwitchTokenErrorResponse {
        status: 401,
        message: "missing authorization token".to_string(),
        error: None,
    });
    assert!(matches!(
        classify_validation_error(unauthorized),
        ValidationError::NotAuthorized
    ));
    let other = RequestParseError::Other(500);
    assert!(matches!(
        classify_validation_error(other),
        ValidationError::RequestParseError(RequestParseError::Other(500))
    ));
}

#[test]
fn validation_error_into_other() {
    let e: ValidationError<Never> = ValidationError::NotAuthorized;
    let widened: ValidationError<String> = e.into_other();
    assert!(matches!(widened, ValidationError::NotAuthorized));
    let e: ValidationError<Never> = ValidationError::InvalidToken("not an app token".to_string());
    match e.into_other::<String>() {
        ValidationError::InvalidToken(s) => assert_eq!(s, "not an app token"),
        _ => panic!("the variant must carry over"),
    }
}

#[test]
fn device_error_is_pending() {
    let pending: DeviceUserTokenExchangeError<Never> =
        DeviceUserTokenExchangeError::TokenParseError(RequestParseError::TwitchError(
            TwitchTokenErrorResponse {
                status: 400,
                message: "authorization_pending".to_string(),
                error: None,
            },
        ));
    assert!(pending.is_pending());
    let expired: DeviceUserTokenExchangeError<Never> = DeviceUserTokenExchangeError::Expired;
    assert!(!expired.is_pending());
    let other: DeviceUserTokenExchangeError<Never> = DeviceUserTokenExchangeError::TokenParseError(
        RequestParseError::TwitchError(TwitchTokenErrorResponse {
            status: 400,
            message: "invalid device code".to_string(),
            error: None,
        }),
    );
    assert!(!other.is_pending());
}

#[test]
fn token_response_getters() {
    let response = TwitchTokenResponse {
        access_token: AccessToken::new("tok".to_string()),
        expires_in: Some(3600),
        refresh_token: Some(RefreshToken::new("ref".to_string())),
        scopes: Some(vec![Scope::ChatRead]),
    };
    assert_eq!(response.access_token().secret(), "tok");
    assert_eq!(response.expires_in(), Some(3600));
    assert_eq!(response.refresh_token().unwrap().secret(), "ref");
    assert_eq!(response.scopes().unwrap(), &[Scope::ChatRead][..]);
}

#[test]
fn error_response_text() {
    let with_kind = TwitchTokenErrorResponse {
        status: 400,
        message: "invalid grant".to_string(),
        error: Some("Bad Request".to_string()),
    };
    assert_eq!(with_kind.to_text(), "Bad Request - invalid grant");
    let from_status = TwitchTokenErrorResponse {
        status: 404,
        message: "no such endpoint".to_string(),
        error: None,
    };
    assert_eq!(from_status.to_text(), "Not Found - no such endpoint");
    let unknown_status = TwitchTokenErrorResponse {
        status: 599,
        message: "strange".to_string(),
        error: None,
    };
    assert_eq!(unknown_status.to_text(), "Error - strange");
}

#[test]
fn content_type_must_be_json() {
    assert!(check_content_type(None).is_ok());
    assert!(check_content_type(Some("application/json".to_string())).is_ok());
    match check_content_type(Some("text/html".to_string())) {
        Err(RequestParseError::NotJson(found)) => assert_eq!(found, "text/html"),
        _ => panic!("a non-json content type must be refused"),
    }
}

#[test]
fn user_token_parts_requires_user() {
    let validated = ValidatedToken {
        client_id: ClientId::new("id".to_string()),
        login: Some("someone".to_string()),
        user_id: Some("1234".to_string()),
        scopes: Some(vec![Scope::ChatRead]),
        expires_in: Some(3600),
    };
    let (client_id, login, user_id, scopes, expires_in) = user_token_parts(validated).unwrap();
    assert_eq!(client_id.as_str(), "id");
    assert_eq!(login, "someone");
    assert_eq!(user_id, "1234");
    assert_eq!(scopes, Some(vec![Scope::ChatRead]));
    assert_eq!(expires_in, Some(3600));

    let app_validated = ValidatedToken {
        client_id: ClientId::new("id".to_string()),
        login: None,
        user_id: None,
        scopes: None,
        expires_in: None,
    };
    assert!(matches!(
        user_token_parts(app_validated),
        Err(ValidationError::InvalidToken(_))
    ));
}

#[test]
fn app_token_validation_refuses_user_tokens() {
    let app_validated = ValidatedToken {
        client_id: ClientId::new("id".to_string()),
        login: None,
        user_id: None,
        scopes: None,
        expires_in: None,
    };
    assert!(check_app_token_validation(&app_validated).is_ok());
    let user_validated = ValidatedToken {
        client_id: ClientId::new("id".to_string()),
        login: Some("someone".to_string()),
        user_id: Some("1234".to_string()),
        scopes: None,
        expires_in: None,
    };
    assert!(matches!(
        check_app_token_validation(&user_validated),
        Err(ValidationError::InvalidToken(_))
    ));
}

#[test]
fn refresh_values_need_expiry() {
    let response = TwitchTokenResponse {
        access_token: AccessToken::new("tok".to_string()),
        expires_in: Some(600),
        refresh_token: Some(RefreshToken::new("ref".to_string())),
        scopes: None,
    };
    let (token, secs, refresh) = refresh_token_values(response).unwrap();
    assert_eq!(token.secret(), "tok");
    assert_eq!(secs, 600);
    assert_eq!(refresh.unwrap().secret(), "ref");

    let without = TwitchTokenResponse {
        access_token: AccessToken::new("tok".to_string()),
        expires_in: None,
        refresh_token: None,
        scopes: None,
    };
    assert!(matches!(
        refresh_token_values(without),
        Err(RefreshTokenError::NoExpiration)
    ));
}

#[test]
fn implicit_redirect_classification() {
    let ok = classify_implicit_redirect(true, Some("tok".to_string()), None, None).unwrap();
    assert_eq!(ok.secret(), "tok");
    assert!(matches!(
        classify_implicit_redirect(false, Some("tok".to_string()), None, None),
        Err(ImplicitUserTokenExchangeError::StateMismatch)
    ));
    match classify_implicit_redirect(
        true,
        None,
        Some("access_denied".to_string()),
        Some("the user denied access".to_string()),
    ) {
        Err(ImplicitUserTokenExchangeError::TwitchError { error, description }) => {
            assert_eq!(error.as_deref(), Some("access_denied"));
            assert_eq!(description.as_deref(), Some("the user denied access"));
        }
        _ => panic!("an error redirect must be reported"),
    }
}
