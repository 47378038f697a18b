//! The custom resource describing one deployed instance of the platform:
//! an immutable snapshot of the user-supplied spec, read-only to this core,
//! plus the object metadata the cluster assigns (name, namespace, uid).

use vstd::prelude::*;

verus! {

/// The container image to run: repository, tag and pull policy.
pub struct AuthentikImage {
    pub repository: String,
    pub tag: String,
    pub pull_policy: String,
}

/// One footer link shown by the platform, serialized into the environment
/// as a JSON object with `name` and `href`.
pub struct FooterLink {
    pub name: String,
    pub href: String,
}

/// The database connection. The password is supplied either literally or,
/// when both `password_secret` and `password_secret_key` are present, as a
/// reference into that secret.
pub struct AuthentikPostgres {
    pub host: String,
    pub port: u16,
    pub database: String,
    pub username: String,
    pub password: String,
    pub password_secret: Option<String>,
    pub password_secret_key: Option<String>,
}

/// The cache connection; the password is optional.
pub struct AuthentikRedis {
    pub host: String,
    pub port: u16,
    pub password: Option<String>,
}

/// The optional mail-relay settings, emitted as a block only when present.
pub struct AuthentikSmtp {
    pub host: String,
    pub port: u16,
    pub from: String,
    pub username: String,
    pub password: String,
    pub use_tls: bool,
    pub use_ssl: bool,
    pub timeout: u32,
}

/// The user-supplied description of one platform deployment.
pub struct AuthentikSpec {
    pub image: AuthentikImage,
    pub secret_key: String,
    pub footer_links: Vec<FooterLink>,
    pub log_level: Option<String>,
    pub postgres: AuthentikPostgres,
    pub redis: AuthentikRedis,
    pub smtp: Option<AuthentikSmtp>,
}

/// The metadata the cluster keeps on the instance object. `name` and `uid`
/// are unset until the object is admitted.
pub struct ObjectMeta {
    pub name: Option<String>,
    pub namespace: Option<String>,
    pub uid: Option<String>,
}

/// The instance object: metadata plus spec.
pub struct Authentik {
    pub metadata: ObjectMeta,
    pub spec: AuthentikSpec,
}

} // verus!
