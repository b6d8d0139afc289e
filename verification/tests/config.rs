use voidreg_api::config::{cors_policy, parse_origins, Config, ConfigError, CorsPolicy, EnvValues};
use voidreg_api::mail::{contact_email, delivery_outcome};
use voidreg_api::error::AppError;

fn full_env() -> EnvValues {
    EnvValues {
        host: Some("127.0.0.1".to_owned()),
        port: Some("9000".to_owned()),
        turso_database_url: Some("libsql://db.example".to_owned()),
        database_url: Some("ignored".to_owned()),
        turso_auth_token: Some("tok".to_owned()),
        cors_origins: Some(" https://a.example , ,https://b.example,".to_owned()),
        resend_api_key: Some("re_live".to_owned()),
        resend_domain: Some("mail.example.com".to_owned()),
        resend_from_user: Some("form".to_owned()),
        contact_to_email: Some("admin@example.com".to_owned()),
    }
}

fn missing(r: Result<Config, ConfigError>) -> &'static str {
    match r {
        Err(ConfigError::Missing(name)) => name,
        other => panic!("expected a missing variable, got {:?}", other),
    }
}

#[test]
fn config_from_full_environment() {
    let c = Config::from_values(full_env()).unwrap();
    assert_eq!(c.host, "127.0.0.1");
    assert_eq!(c.port, 9000);
    assert_eq!(c.database_url, "libsql://db.example");
    assert_eq!(c.auth_token, "tok");
    assert_eq!(c.cors_origins, vec!["https://a.example".to_owned(), "https://b.example".to_owned()]);
    assert_eq!(c.resend_from(), "Voidreg <form@mail.example.com>");
    assert_eq!(c.bind_address(), "127.0.0.1:9000");
    assert!(!c.skips_outbound_mail());
}

#[test]
fn config_defaults() {
    let mut e = full_env();
    e.host = None;
    e.port = None;
    e.turso_database_url = None;
    e.turso_auth_token = None;
    e.cors_origins = None;
    let c = Config::from_values(e).unwrap();
    assert_eq!(c.host, "0.0.0.0");
    assert_eq!(c.port, 8080);
    assert_eq!(c.database_url, "ignored");
    assert_eq!(c.auth_token, "");
    assert_eq!(
        c.cors_origins,
        vec!["http://localhost:3000".to_owned(), "http://localhost:5173".to_owned()]
    );
    assert_eq!(c.bind_address(), "0.0.0.0:8080");
}

#[test]
fn config_errors_in_order() {
    let mut e = full_env();
    e.port = Some("http".to_owned());
    e.resend_api_key = None;
    match Config::from_values(e) {
        Err(ConfigError::InvalidPort) => {}
        other => panic!("unexpected {:?}", other),
    }
    let mut e = full_env();
    e.turso_database_url = None;
    e.database_url = None;
    assert_eq!(missing(Config::from_values(e)), "TURSO_DATABASE_URL");
    let mut e = full_env();
    e.resend_api_key = None;
    e.contact_to_email = None;
    assert_eq!(missing(Config::from_values(e)), "RESEND_API_KEY");
    let mut e = full_env();
    e.resend_domain = None;
    assert_eq!(missing(Config::from_values(e)), "RESEND_DOMAIN");
    let mut e = full_env();
    e.resend_from_user = None;
    assert_eq!(missing(Config::from_values(e)), "RESEND_FROM_USER");
    let mut e = full_env();
    e.contact_to_email = None;
    assert_eq!(missing(Config::from_values(e)), "CONTACT_TO_EMAIL");
    assert_eq!(ConfigError::InvalidPort.message(), "invalid PORT value");
    assert_eq!(ConfigError::Missing("RESEND_DOMAIN").message(), "RESEND_DOMAIN");
}

#[test]
fn config_for_test_values() {
    let c = Config::for_test();
    assert_eq!(c.host, "127.0.0.1");
    assert_eq!(c.port, 8080);
    assert_eq!(c.database_url, "memory");
    assert_eq!(c.auth_token, "");
    assert_eq!(c.cors_origins, vec!["http://localhost:5173".to_owned()]);
    assert_eq!(c.resend_api_key, "re_test");
    assert_eq!(c.resend_domain, "mail.example.com");
    assert_eq!(c.resend_from_user, "form");
    assert_eq!(c.contact_to_email, "admin@example.com");
    assert!(c.skips_outbound_mail());
    assert_eq!(c.resend_from(), "Voidreg <form@mail.example.com>");
}

#[test]
fn skips_mail_without_key() {
    let mut c = Config::for_test();
    c.resend_api_key = String::new();
    assert!(c.skips_outbound_mail());
    c.resend_api_key = "re_123".to_owned();
    assert!(!c.skips_outbound_mail());
}

#[test]
fn origins_are_split_trimmed_and_filtered() {
    assert_eq!(parse_origins(""), Vec::<String>::new());
    assert_eq!(parse_origins(",,"), Vec::<String>::new());
    assert_eq!(parse_origins(" * "), vec!["*".to_owned()]);
    assert_eq!(parse_origins("a,b"), vec!["a".to_owned(), "b".to_owned()]);
}

#[test]
fn cors_policy_any_or_listed() {
    match cors_policy(&vec!["https://a".to_owned(), "*".to_owned()]) {
        CorsPolicy::AnyOrigin { max_age } => assert_eq!(max_age, 3600),
        other => panic!("unexpected {:?}", other),
    }
    match cors_policy(&vec!["https://a".to_owned()]) {
        CorsPolicy::Listed { origins, methods, headers, max_age } => {
            assert_eq!(origins, vec!["https://a".to_owned()]);
            assert_eq!(methods, vec!["GET".to_owned(), "POST".to_owned(), "OPTIONS".to_owned()]);
            assert_eq!(
                headers,
                vec!["authorization".to_owned(), "accept".to_owned(), "content-type".to_owned()]
            );
            assert_eq!(max_age, 3600);
        }
        other => panic!("unexpected {:?}", other),
    }
}

#[test]
fn contact_mail_is_composed_or_skipped() {
    let c = Config::for_test();
    assert!(contact_email(&c, "Ada", "ada@example.com", "Hi").is_none());
    let mut c = Config::for_test();
    c.resend_api_key = "re_live".to_owned();
    let m = contact_email(&c, "Ada", "ada@example.com", "Hi there").unwrap();
    assert_eq!(m.from, "Voidreg <form@mail.example.com>");
    assert_eq!(m.to, vec!["admin@example.com".to_owned()]);
    assert_eq!(m.reply_to, "ada@example.com");
    assert_eq!(m.subject, "Contact form: Ada");
    assert_eq!(m.text, "From: Ada <ada@example.com>\n\nHi there");
    assert!(delivery_outcome(true).is_ok());
    match delivery_outcome(false) {
        Err(AppError::Internal(m)) => assert_eq!(m, "failed to send contact email"),
        other => panic!("unexpected {:?}", other),
    }
}
