use ak_operator::crd::{
    AuthentikImage, AuthentikPostgres, AuthentikRedis, AuthentikSmtp, AuthentikSpec, FooterLink,
};
use ak_operator::env::{build_env, build_env_smtp, footer_links_json, EnvEntry};

fn base_spec() -> AuthentikSpec {
    AuthentikSpec {
        image: AuthentikImage {
            repository: "ghcr.io/goauthentik/server".to_string(),
            tag: "2023.5.1".to_string(),
            pull_policy: "IfNotPresent".to_string(),
        },
        secret_key: "sk-123".to_string(),
        footer_links: vec![],
        log_level: None,
        postgres: AuthentikPostgres {
            host: "db".to_string(),
            port: 5432,
            database: "authentik".to_string(),
            username: "ak".to_string(),
            password: "hunter2".to_string(),
            password_secret: None,
            password_secret_key: None,
        },
        redis: AuthentikRedis { host: "cache".to_string(), port: 6379, password: None },
        smtp: None,
    }
}

fn names(env: &[EnvEntry]) -> Vec<String> {
    env.iter().map(|e| e.name.clone()).collect()
}

fn value_of<'a>(env: &'a [EnvEntry], name: &str) -> &'a EnvEntry {
    env.iter().find(|e| e.name == name).expect(name)
}

#[test]
fn fixed_entries_in_order() {
    let env = build_env(&base_spec());
    assert_eq!(
        names(&env),
        vec![
            "AUTHENTIK_SECRET_KEY",
            "AUTHENTIK_FOOTER_LINKS",
            "AUTHENTIK_DISABLE_STARTUP_ANALYTICS",
            "AUTHENTIK_ERROR_REPORTING__ENABLED",
            "AUTHENTIK_POSTGRESQL__HOST",
            "AUTHENTIK_POSTGRESQL__PORT",
            "AUTHENTIK_POSTGRESQL__NAME",
            "AUTHENTIK_POSTGRESQL__USER",
            "AUTHENTIK_REDIS__HOST",
            "AUTHENTIK_REDIS__PORT",
            "AUTHENTIK_POSTGRESQL__PASSWORD",
        ]
    );
    assert_eq!(value_of(&env, "AUTHENTIK_SECRET_KEY").value.as_deref(), Some("sk-123"));
    assert_eq!(value_of(&env, "AUTHENTIK_FOOTER_LINKS").value.as_deref(), Some("[]"));
    assert_eq!(
        value_of(&env, "AUTHENTIK_DISABLE_STARTUP_ANALYTICS").value.as_deref(),
        Some("true")
    );
    assert_eq!(
        value_of(&env, "AUTHENTIK_ERROR_REPORTING__ENABLED").value.as_deref(),
        Some("false")
    );
    assert_eq!(value_of(&env, "AUTHENTIK_POSTGRESQL__PORT").value.as_deref(), Some("5432"));
    assert_eq!(value_of(&env, "AUTHENTIK_REDIS__PORT").value.as_deref(), Some("6379"));
}

#[test]
fn every_entry_exactly_one_of_literal_or_secret() {
    let mut spec = base_spec();
    spec.log_level = Some("debug".to_string());
    spec.redis.password = Some("rpw".to_string());
    spec.postgres.password_secret = Some("pg-secret".to_string());
    spec.postgres.password_secret_key = Some("pw".to_string());
    spec.smtp = Some(AuthentikSmtp {
        host: "mail".to_string(),
        port: 587,
        from: "ak@example.com".to_string(),
        username: "mailer".to_string(),
        password: "mpw".to_string(),
        use_tls: true,
        use_ssl: false,
        timeout: 30,
    });
    for e in build_env(&spec) {
        assert!(
            e.value.is_some() != e.secret_ref.is_some(),
            "entry {} must carry exactly one of literal and secret reference",
            e.name
        );
    }
}

#[test]
fn literal_password_without_full_secret_reference() {
    // only the secret name, no key: the literal password is kept
    let mut spec = base_spec();
    spec.postgres.password_secret = Some("pg-secret".to_string());
    let env = build_env(&spec);
    let pw = value_of(&env, "AUTHENTIK_POSTGRESQL__PASSWORD");
    assert_eq!(pw.value.as_deref(), Some("hunter2"));
    assert!(pw.secret_ref.is_none());
}

#[test]
fn secret_reference_suppresses_literal_password() {
    let mut spec = base_spec();
    spec.postgres.password_secret = Some("pg-secret".to_string());
    spec.postgres.password_secret_key = Some("pw".to_string());
    let env = build_env(&spec);
    let pw = value_of(&env, "AUTHENTIK_POSTGRESQL__PASSWORD");
    assert!(pw.value.is_none());
    let r = pw.secret_ref.as_ref().expect("secret reference");
    assert_eq!(r.secret, "pg-secret");
    assert_eq!(r.key, "pw");
    // no other entry carries the literal password
    assert!(!env.iter().any(|e| e.value.as_deref() == Some("hunter2")));
}

#[test]
fn log_level_entry_only_when_set() {
    let env = build_env(&base_spec());
    assert!(!names(&env).contains(&"AUTHENTIK_LOG_LEVEL".to_string()));
    let mut spec = base_spec();
    spec.log_level = Some("debug".to_string());
    let env = build_env(&spec);
    assert_eq!(value_of(&env, "AUTHENTIK_LOG_LEVEL").value.as_deref(), Some("debug"));
}

#[test]
fn redis_password_entry_only_when_set() {
    let env = build_env(&base_spec());
    assert!(!names(&env).contains(&"AUTHENTIK_REDIS__PASSWORD".to_string()));
    let mut spec = base_spec();
    spec.redis.password = Some("rpw".to_string());
    let env = build_env(&spec);
    assert_eq!(value_of(&env, "AUTHENTIK_REDIS__PASSWORD").value.as_deref(), Some("rpw"));
}

#[test]
fn smtp_block_only_when_present() {
    assert!(build_env_smtp(None).is_empty());
    let smtp = AuthentikSmtp {
        host: "mail".to_string(),
        port: 587,
        from: "ak@example.com".to_string(),
        username: "mailer".to_string(),
        password: "mpw".to_string(),
        use_tls: true,
        use_ssl: false,
        timeout: 30,
    };
    let env = build_env_smtp(Some(&smtp));
    assert_eq!(
        names(&env),
        vec![
            "AUTHENTIK_EMAIL__HOST",
            "AUTHENTIK_EMAIL__PORT",
            "AUTHENTIK_EMAIL__FROM",
            "AUTHENTIK_EMAIL__USERNAME",
            "AUTHENTIK_EMAIL__PASSWORD",
            "AUTHENTIK_EMAIL__USE_TLS",
            "AUTHENTIK_EMAIL__USE_SSL",
            "AUTHENTIK_EMAIL__TIMEOUT",
        ]
    );
    assert_eq!(value_of(&env, "AUTHENTIK_EMAIL__PORT").value.as_deref(), Some("587"));
    assert_eq!(value_of(&env, "AUTHENTIK_EMAIL__USE_TLS").value.as_deref(), Some("true"));
    assert_eq!(value_of(&env, "AUTHENTIK_EMAIL__USE_SSL").value.as_deref(), Some("false"));
    assert_eq!(value_of(&env, "AUTHENTIK_EMAIL__TIMEOUT").value.as_deref(), Some("30"));
}

#[test]
fn footer_links_serialize_as_json_array() {
    let links = vec![
        FooterLink { name: "Home".to_string(), href: "https://example.com".to_string() },
        FooterLink { name: "Docs".to_string(), href: "https://example.com/docs".to_string() },
    ];
    let json = footer_links_json(&links);
    let expected = "[{\"name\":\"Home\",\"href\":\"https://example.com\"},{\"name\":\"Docs\",\"href\":\"https://example.com/docs\"}]";
    assert_eq!(json, expected);
    // the emitted text is valid JSON that parses back to the same links
    let parsed: serde_json::Value = serde_json::from_str(&json).unwrap();
    let arr = parsed.as_array().unwrap();
    assert_eq!(arr.len(), 2);
    assert_eq!(arr[0].get("name").unwrap().as_str(), Some("Home"));
    assert_eq!(arr[1].get("href").unwrap().as_str(), Some("https://example.com/docs"));
}

#[test]
fn footer_links_escape_quotes_and_backslashes() {
    let links =
        vec![FooterLink { name: "a\"b\\c".to_string(), href: "https://example.com".to_string() }];
    let json = footer_links_json(&links);
    let parsed: serde_json::Value = serde_json::from_str(&json).unwrap();
    assert_eq!(parsed[0].get("name").unwrap().as_str(), Some("a\"b\\c"));
}

#[test]
fn extreme_ports_render_exactly() {
    let mut spec = base_spec();
    spec.postgres.port = 65535;
    spec.redis.port = 1;
    let env = build_env(&spec);
    assert_eq!(value_of(&env, "AUTHENTIK_POSTGRESQL__PORT").value.as_deref(), Some("65535"));
    assert_eq!(value_of(&env, "AUTHENTIK_REDIS__PORT").value.as_deref(), Some("1"));
}
