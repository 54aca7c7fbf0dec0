use whatsaly::logger::{format_line, level_text, Level, LogHub, MAX_HISTORY};
use whatsaly::models::TokenResponse;
use whatsaly::security::{
    access_claims, constant_time_compare, create_auth_cookie, create_logout_cookie,
    extract_bearer_token, generate_token_pair, refresh_claims,
};

#[test]
fn formats_log_lines() {
    assert_eq!(format_line("INFO", "SUPERVISOR", "t resuming"), "INFO|SUPERVISOR|t resuming");
    assert_eq!(level_text(Level::Success), "SUCCESS");
    assert_eq!(level_text(Level::Warn), "WARN");
}

#[test]
fn history_keeps_the_last_lines() {
    let mut h = LogHub::new(false);
    assert!(h.get_history().is_empty());
    for i in 0..(MAX_HISTORY + 5) {
        h.broadcast("INFO", "T", &i.to_string());
    }
    let hist = h.get_history();
    assert_eq!(hist.len(), MAX_HISTORY);
    assert_eq!(hist[0], "INFO|T|5");
    assert_eq!(hist[MAX_HISTORY - 1], format!("INFO|T|{}", MAX_HISTORY + 4));
}

#[test]
fn debug_lines_follow_the_switch() {
    let mut quiet = LogHub::new(false);
    assert!(!quiet.is_debug());
    assert_eq!(quiet.log(Level::Debug, "T", "hidden"), None);
    assert!(quiet.get_history().is_empty());
    assert_eq!(quiet.log(Level::Error, "T", "shown"), Some("ERROR|T|shown".to_string()));
    let mut loud = LogHub::new(true);
    assert!(loud.is_debug());
    assert_eq!(loud.log(Level::Debug, "T", "x"), Some("DEBUG|T|x".to_string()));
    assert_eq!(loud.get_history(), vec!["DEBUG|T|x".to_string()]);
}

#[test]
fn compares_in_constant_time() {
    assert!(constant_time_compare("secret", "secret"));
    assert!(!constant_time_compare("secret", "secreT"));
    assert!(!constant_time_compare("secret", "secrets"));
    assert!(constant_time_compare("", ""));
}

#[test]
fn extracts_bearer_tokens() {
    assert_eq!(extract_bearer_token("Bearer abc.def"), Some("abc.def"));
    assert_eq!(extract_bearer_token("Bearer "), Some(""));
    assert_eq!(extract_bearer_token("bearer abc"), None);
    assert_eq!(extract_bearer_token("Basic abc"), None);
    assert_eq!(extract_bearer_token("Bearer"), None);
}

#[test]
fn builds_cookies() {
    assert_eq!(
        create_auth_cookie("tok", false),
        "whatsaly_token=tok; Path=/; Max-Age=3600; HttpOnly; SameSite=Strict"
    );
    assert_eq!(
        create_auth_cookie("tok", true),
        "whatsaly_token=tok; Path=/; Max-Age=3600; HttpOnly; SameSite=Strict; Secure"
    );
    assert_eq!(create_logout_cookie(), "whatsaly_token=; Path=/; Max-Age=0; HttpOnly; SameSite=Strict");
}

#[test]
fn pairs_tokens() {
    let p = generate_token_pair("a".to_string(), "r".to_string());
    assert_eq!(p.access_token, "a");
    assert_eq!(p.refresh_token, "r");
    assert_eq!(p.token_type, "Bearer");
    assert_eq!(p.expires_in, 3600);
    let t = TokenResponse::from_pair(p);
    assert_eq!(t.expires_in, 3600);
    assert_eq!(t.access_token, "a");
}

#[test]
fn token_lifetimes() {
    let a = access_claims("u1", "user", 1_000, "j".to_string(), "s".to_string());
    assert_eq!(a.sub, "u1");
    assert_eq!(a.role, "user");
    assert_eq!(a.iat, 1_000);
    assert_eq!(a.exp, 4_600);
    let r = refresh_claims("u1", "admin", 1_000, "j".to_string(), "s".to_string());
    assert_eq!(r.exp, 1_000 + 7 * 24 * 3600);
    assert_eq!(r.role, "admin");
}
