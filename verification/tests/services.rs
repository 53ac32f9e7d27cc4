use hmac::{Hmac, Mac};
use sha2::Sha256;
use tetronix::errors::{AppError, RepositoryError, ServicesError};
use tetronix::middleware::session_extractors::{extracted, missing_cookie, session_cookie_name};
use tetronix::config::{parse_port, AuthConfig, ConfigFault, ServerConfig, SessionConfig};
use tetronix::models::{Session, User};
use tetronix::repository::user_repository::check_top_limit;
use tetronix::services::auth_service::{
    authentication_failed, bearer, ensure_user_exists, session_created, token_exchange_failed,
    unreadable, user_created, user_exchange_failed, SameSite, SessionCookie, UserStep,
};
use tetronix::services::game_service::reported;
use tetronix::services::session_service::hash_session_id;
use tetronix::services::{
    session_service, user_service, AuthService, GameService, SessionService, UserService,
};

fn s(text: &str) -> String {
    text.to_string()
}

fn internal(text: &str) -> ServicesError {
    ServicesError::InternalServerError(s(text))
}

fn auth(production: bool, secret: &str, test_url: Option<&str>) -> AuthService<(), ()> {
    let config = AuthConfig {
        production,
        github_client_id: s("id"),
        github_client_secret: s("client-secret"),
        session_secret_key: s(secret),
        github_test_url: test_url.map(s),
    };
    AuthService::new((), (), config)
}

#[test]
fn services_hold_what_they_are_made_of() {
    let users = UserService::new(7u8);
    assert_eq!(users.user_repo, 7);
    let games = GameService::new("games");
    assert_eq!(games.game_repository, "games");
    let sessions = SessionService::new(3u8, SessionConfig { secret_key: s("key") });
    assert_eq!(sessions.session_repo, 3);
    assert_eq!(sessions.config.secret_key, "key");
    let auth = AuthService::new(1u8, 2u16, AuthConfig::from_vars(None, None, None, None, None));
    assert_eq!((auth.user_repository, auth.session_repository), (1, 2));
    assert!(!auth.config.production);
}

#[test]
fn the_services_hash_under_their_own_key() {
    let sessions = SessionService::new((), SessionConfig { secret_key: s("key") });
    assert_eq!(
        sessions.hash_session_id("The quick brown fox jumps over the lazy dog"),
        "f7bc83f430538424b13298e6aa6fb143ef4d59a14946175997479dbc2d1a3cd8"
    );
    assert_eq!(sessions.hash_session_id("abc"), hash_session_id("key", "abc"));
    assert_eq!(auth(false, "key", None).hash_session_id("abc"), hash_session_id("key", "abc"));
    assert_ne!(auth(false, "other", None).hash_session_id("abc"), hash_session_id("key", "abc"));
}

#[test]
fn the_hash_of_a_session_id_is_its_hmac() {
    assert_eq!(
        hash_session_id("key", "The quick brown fox jumps over the lazy dog"),
        "f7bc83f430538424b13298e6aa6fb143ef4d59a14946175997479dbc2d1a3cd8"
    );
}

#[test]
fn the_hash_agrees_with_the_mac_of_the_bytes() {
    for (key, id) in [("", ""), ("secret", "123"), ("k", "0b0e4f6c-7c1a-4a55-9d6f-3f0f8a1c2b3d")] {
        let mut mac = Hmac::<Sha256>::new_from_slice(key.as_bytes()).unwrap();
        mac.update(id.as_bytes());
        let bytes = mac.finalize().into_bytes();
        let mut expected = String::new();
        for byte in bytes.iter() {
            expected.push_str(&format!("{:02x}", byte));
        }
        let hash = hash_session_id(key, id);
        assert_eq!(hash, expected);
        assert_eq!(hash.len(), 64);
        assert_ne!(hash, id);
    }
}

#[test]
fn the_hash_depends_on_the_key_and_on_the_id() {
    assert_ne!(hash_session_id("a", "id"), hash_session_id("b", "id"));
    assert_ne!(hash_session_id("a", "id"), hash_session_id("a", "other"));
    assert_eq!(hash_session_id("a", "id"), hash_session_id("a", "id"));
}

#[test]
fn a_new_session_has_a_fresh_id_and_its_hash() {
    let service = auth(false, "secret", None);
    let (id, hash) = service.new_session();
    assert_eq!(id.len(), 36);
    assert_eq!(hash, hash_session_id("secret", &id));
    let (other, _) = service.new_session();
    assert_ne!(id, other);
}

#[test]
fn the_name_of_a_new_user_is_checked() {
    assert_eq!(user_service::check_name("john_doe"), Ok(()));
    assert_eq!(user_service::check_name("ab"), Ok(()));
    assert_eq!(user_service::check_name(&"x".repeat(50)), Ok(()));
    assert_eq!(
        user_service::check_name("a"),
        Err(ServicesError::InvalidInput {
            field: s("name"),
            message: s("must be at least 2 characters long"),
        })
    );
    assert_eq!(
        user_service::check_name(&"x".repeat(51)),
        Err(ServicesError::InvalidInput {
            field: s("name"),
            message: s("must be less than 50 characters long"),
        })
    );
}

#[test]
fn what_the_creation_of_a_user_reports() {
    assert_eq!(user_service::create(Ok(())), Ok(()));
    assert_eq!(
        user_service::create(Err(RepositoryError::AlreadyExists { what: s("User") })),
        Err(ServicesError::AlreadyExists { what: s("User") })
    );
    assert_eq!(
        user_service::create(Err(RepositoryError::InvalidInput { what: s("User name") })),
        Err(internal("User name is invalid"))
    );
    assert_eq!(
        user_service::create(Err(RepositoryError::InternalServerError(s("boom")))),
        Err(internal("internal server error: boom"))
    );
}

#[test]
fn what_a_request_for_an_existing_subject_reports() {
    let user = User { name: s("ann"), number_of_games: 1, best_score: 2, highest_level: 3 };
    assert_eq!(user_service::existing(Ok(user.clone())), Ok(user));
    assert_eq!(
        user_service::existing::<()>(Err(RepositoryError::NotFound { what: s("User") })),
        Err(ServicesError::NotFound { what: s("User") })
    );
    assert_eq!(
        user_service::existing::<User>(Err(RepositoryError::AlreadyExists { what: s("User") })),
        Err(internal("User already exists"))
    );
}

#[test]
fn an_update_is_checked_first() {
    let user = User { name: s("ann"), number_of_games: 1, best_score: 2, highest_level: 3 };
    assert_eq!(user_service::check_update(&user), Ok(()));
    let user = User { name: s("ann"), number_of_games: 1, best_score: -2, highest_level: 3 };
    assert_eq!(
        user_service::check_update(&user),
        Err(ServicesError::InvalidInput {
            field: s("best_score"),
            message: s("Best score cannot be negative"),
        })
    );
}

#[test]
fn what_the_query_for_the_best_users_reports() {
    let users = vec![User { name: s("ann"), number_of_games: 1, best_score: 2, highest_level: 3 }];
    assert_eq!(user_service::get_top(Ok(users.clone())), Ok(users));
    assert_eq!(
        user_service::get_top(Err(RepositoryError::InvalidLimit { low: 0, high: 100 })),
        Err(ServicesError::InvalidInput {
            field: s("limit"),
            message: s("Limit must be greater or equal to 0 and less or equal to 100"),
        })
    );
    assert_eq!(
        user_service::get_top(Err(RepositoryError::NotFound { what: s("User") })),
        Err(internal("User not found"))
    );
}

#[test]
fn what_a_deletion_reports() {
    assert_eq!(user_service::delete(Ok(())), Ok(()));
    assert_eq!(
        user_service::delete(Err(RepositoryError::NotFound { what: s("User") })),
        Err(ServicesError::UnableToDelete { what: s("User") })
    );
    assert_eq!(
        user_service::delete(Err(RepositoryError::InternalServerError(s("x")))),
        Err(internal("internal server error: x"))
    );
}

#[test]
fn what_the_session_service_reports() {
    assert_eq!(session_service::create(Ok(())), Ok(()));
    assert_eq!(
        session_service::create(Err(RepositoryError::AlreadyExists { what: s("Session") })),
        Err(ServicesError::AlreadyExists { what: s("Session") })
    );
    assert_eq!(
        session_service::create(Err(RepositoryError::NotFound { what: s("Session") })),
        Err(internal("Session not found"))
    );
    let session = Session { name: s("ann"), session_id: s("h") };
    assert_eq!(session_service::get_by_id(Ok(session.clone())), Ok(session));
    assert_eq!(
        session_service::get_by_id(Err(RepositoryError::NotFound { what: s("Session") })),
        Err(ServicesError::NotFound { what: s("Session") })
    );
    assert_eq!(
        session_service::get_by_id(Err(RepositoryError::InternalServerError(s("x")))),
        Err(internal("internal server error: x"))
    );
    assert_eq!(session_service::delete(Ok(())), Ok(()));
    assert_eq!(
        session_service::delete(Err(RepositoryError::NotFound { what: s("Session") })),
        Err(ServicesError::UnableToDelete { what: s("Session") })
    );
}

#[test]
fn what_the_game_service_reports() {
    assert_eq!(reported(Ok(5)), Ok(5));
    assert_eq!(
        reported::<()>(Err(RepositoryError::NotFound { what: s("Game") })),
        Err(ServicesError::NotFound { what: s("Game") })
    );
    assert_eq!(
        reported::<()>(Err(RepositoryError::DeserializationError(s("bad")))),
        Err(ServicesError::UnableToDeserialize { what: s("bad") })
    );
    assert_eq!(
        reported::<()>(Err(RepositoryError::InternalServerError(s("x")))),
        Err(ServicesError::InternalServerError(s("x")))
    );
}

#[test]
fn where_the_provider_is_asked() {
    let live = auth(true, "k", None);
    let test = auth(false, "k", Some("http://127.0.0.1:1234"));
    assert_eq!(live.token_url(), "https://github.com/login/oauth/access_token");
    assert_eq!(test.token_url(), "http://127.0.0.1:1234/login/oauth/access_token");
    assert_eq!(live.user_url(), "https://api.github.com/user");
    assert_eq!(test.user_url(), "http://127.0.0.1:1234/user");
    assert_eq!(bearer("abc"), "Bearer abc");
}

#[test]
fn what_a_failed_exchange_reports() {
    assert_eq!(
        token_exchange_failed("timeout"),
        ServicesError::AuthenticationFailed { reason: s("access token exchange failed : timeout") }
    );
    assert_eq!(
        user_exchange_failed("timeout"),
        ServicesError::AuthenticationFailed { reason: s("user info exchange failed : timeout") }
    );
    assert_eq!(
        unreadable("GithubUser"),
        ServicesError::UnableToDeserialize { what: s("GithubUser") }
    );
}

#[test]
fn what_follows_the_lookup_of_an_authenticated_user() {
    let user = User { name: s("ann"), number_of_games: 1, best_score: 2, highest_level: 3 };
    assert_eq!(ensure_user_exists(Ok(user)), UserStep::Known);
    assert_eq!(
        ensure_user_exists(Err(RepositoryError::NotFound { what: s("User") })),
        UserStep::Create
    );
    assert_eq!(
        ensure_user_exists(Err(RepositoryError::InternalServerError(s("down")))),
        UserStep::Failed(ServicesError::AuthenticationFailed {
            reason: s("Database error: internal server error: down"),
        })
    );
    assert_eq!(user_created(Ok(())), Ok(()));
    assert_eq!(
        user_created(Err(RepositoryError::AlreadyExists { what: s("User") })),
        Err(ServicesError::AuthenticationFailed {
            reason: s("Failed to create user: User already exists"),
        })
    );
}

#[test]
fn what_the_creation_of_a_session_reports() {
    assert_eq!(session_created(Ok(()), s("id-1")), Ok(s("id-1")));
    assert_eq!(
        session_created(Err(RepositoryError::AlreadyExists { what: s("Session") }), s("id-1")),
        Err(ServicesError::AuthenticationFailed {
            reason: s("Failed to create session: Session already exists"),
        })
    );
    assert_eq!(
        authentication_failed(&ServicesError::AuthenticationFailed { reason: s("nope") }),
        AppError::AuthenticationFailed(s("Authentication Failed : nope"))
    );
}

#[test]
fn the_session_cookie() {
    assert_eq!(
        auth(true, "k", None).create_cookies("abc"),
        SessionCookie {
            name: s("session_id"),
            value: s("abc"),
            path: s("/"),
            http_only: true,
            secure: true,
            same_site: SameSite::Lax,
            max_age_days: Some(7),
        }
    );
    assert!(!auth(false, "k", None).create_cookies("abc").secure);
}

#[test]
fn the_logout_cookie() {
    assert_eq!(
        auth(false, "k", None).logout_cookies(),
        SessionCookie {
            name: s("session_id"),
            value: s(""),
            path: s("/"),
            http_only: true,
            secure: false,
            same_site: SameSite::Lax,
            max_age_days: None,
        }
    );
    assert!(auth(true, "k", None).logout_cookies().secure);
}

#[test]
fn the_session_of_a_request() {
    assert_eq!(session_cookie_name(), "session_id");
    assert_eq!(missing_cookie(), AppError::Unauthorized);
    let found = Session { name: s("ann"), session_id: s("hash") };
    assert_eq!(
        extracted("raw-id", Ok(found)),
        Ok(Session { name: s("ann"), session_id: s("raw-id") })
    );
    assert_eq!(
        extracted("raw-id", Err(ServicesError::NotFound { what: s("Session") })),
        Err(AppError::Unauthorized)
    );
    assert_eq!(
        extracted("raw-id", Err(ServicesError::InternalServerError(s("x")))),
        Err(AppError::InternalServerError(s("Something went wrong")))
    );
}

#[test]
fn settings_from_variables() {
    let config = AuthConfig::from_vars(Some(s("true")), Some(s("id")), Some(s("secret")), None, None);
    assert_eq!(
        config,
        AuthConfig {
            production: true,
            github_client_id: s("id"),
            github_client_secret: s("secret"),
            session_secret_key: s(""),
            github_test_url: None,
        }
    );
    for text in ["false", "TRUE", "1", "", " true"] {
        let config = AuthConfig::from_vars(Some(s(text)), None, None, Some(s("k")), Some(s("u")));
        assert!(!config.production);
        assert_eq!(config.session_secret_key, "k");
        assert_eq!(config.github_test_url, Some(s("u")));
        assert_eq!(config.github_client_id, "");
    }
    assert!(!AuthConfig::from_vars(None, None, None, None, None).production);
    assert_eq!(SessionConfig::from_vars(Some(s("key"))), SessionConfig { secret_key: s("key") });
    assert_eq!(SessionConfig::from_vars(None), SessionConfig { secret_key: s("") });
}

fn is_invalid_input<T>(result: &Result<T, ServicesError>) -> bool {
    matches!(result, Err(ServicesError::InvalidInput { .. }))
}

#[test]
fn user_service_test_create_user_invalid_input() {
    assert!(is_invalid_input(&user_service::check_name("")));
    assert!(is_invalid_input(&user_service::check_name("a")));
    assert!(is_invalid_input(&user_service::check_name(&"a".repeat(51))));
}

#[test]
fn test_update_user_invalid_input() {
    let user = User { name: "".to_string(), number_of_games: 0, best_score: 0, highest_level: 0 };
    assert!(is_invalid_input(&user_service::check_update(&user)));
    let user = User { name: "a".repeat(51), number_of_games: 0, best_score: 0, highest_level: 0 };
    assert!(is_invalid_input(&user_service::check_update(&user)));
    let user = User { name: "a".to_string(), number_of_games: -1, best_score: 0, highest_level: 0 };
    assert!(is_invalid_input(&user_service::check_update(&user)));
    let user = User { name: "a".to_string(), number_of_games: 0, best_score: -1, highest_level: 0 };
    assert!(is_invalid_input(&user_service::check_update(&user)));
    let user = User { name: "a".to_string(), number_of_games: 0, best_score: 0, highest_level: -1 };
    assert!(is_invalid_input(&user_service::check_update(&user)));
}

#[test]
fn test_get_top_users_invalid_input() {
    for limit in [-1, 101] {
        let refused = match check_top_limit(limit) {
            Ok(()) => panic!("the limit {} was accepted", limit),
            Err(err) => err,
        };
        assert!(is_invalid_input(&user_service::get_top(Err(refused))));
    }
}

#[test]
fn the_port_of_the_server() {
    assert_eq!(parse_port("8080"), Some(8080));
    assert_eq!(parse_port("0"), Some(0));
    assert_eq!(parse_port("65535"), Some(65535));
    assert_eq!(parse_port("+443"), Some(443));
    assert_eq!(parse_port("0080"), Some(80));
    assert_eq!(parse_port("65536"), None);
    assert_eq!(parse_port("99999999999999999999"), None);
    assert_eq!(parse_port(""), None);
    assert_eq!(parse_port("+"), None);
    assert_eq!(parse_port("-1"), None);
    assert_eq!(parse_port("80a"), None);
    assert_eq!(parse_port(" 80"), None);
    assert_eq!(parse_port("8 0"), None);
    assert_eq!(parse_port("++80"), None);
    assert_eq!(parse_port("８０"), None);
    for text in ["8080", "+1", "65535", "65536", "", "+", "x", "007", "70000", "1e3"] {
        assert_eq!(parse_port(text), text.parse::<u16>().ok());
    }
    assert_eq!(
        ServerConfig::from_vars(None, Some(s("postgres://db"))),
        Ok(ServerConfig { port: 8080, database_url: s("postgres://db") })
    );
    assert_eq!(
        ServerConfig::from_vars(Some(s("9000")), Some(s("postgres://db"))),
        Ok(ServerConfig { port: 9000, database_url: s("postgres://db") })
    );
    assert_eq!(
        ServerConfig::from_vars(Some(s("http")), Some(s("postgres://db"))),
        Err(ConfigFault::PortNotANumber)
    );
    assert_eq!(ServerConfig::from_vars(Some(s("http")), None), Err(ConfigFault::PortNotANumber));
    assert_eq!(ServerConfig::from_vars(Some(s("80")), None), Err(ConfigFault::DatabaseUrlMissing));
    assert_eq!(ServerConfig::from_vars(None, None), Err(ConfigFault::DatabaseUrlMissing));
}
