//! The environment assembler: maps the instance spec to the ordered list of
//! configuration entries handed to both containers. Every entry carries
//! exactly one of a literal value or a secret reference; the database
//! password is a secret reference exactly when the spec names both a secret
//! and a key for it.

use vstd::prelude::*;
use vstd::string::StringExecFns;

use crate::crd::{AuthentikPostgres, AuthentikRedis, AuthentikSmtp, AuthentikSpec, FooterLink};
use crate::textfmt::{
    append_json_string, bool_str, spec_bool_str, spec_decimal, spec_json_string, u64_to_string,
};

verus! {

/// A reference to one key of a named secret.
pub struct SecretKeyRef {
    pub secret: String,
    pub key: String,
}

/// One environment entry: a name and exactly one of a literal value or a
/// secret reference.
pub struct EnvEntry {
    pub name: String,
    pub value: Option<String>,
    pub secret_ref: Option<SecretKeyRef>,
}

#[verifier::ext_equal]
pub struct SecretRefModel {
    pub secret: Seq<char>,
    pub key: Seq<char>,
}

#[verifier::ext_equal]
pub struct EnvEntryModel {
    pub name: Seq<char>,
    pub value: Option<Seq<char>>,
    pub secret_ref: Option<SecretRefModel>,
}

impl View for SecretKeyRef {
    type V = SecretRefModel;

    open spec fn view(&self) -> SecretRefModel {
        SecretRefModel { secret: self.secret@, key: self.key@ }
    }
}

impl View for EnvEntry {
    type V = EnvEntryModel;

    open spec fn view(&self) -> EnvEntryModel {
        EnvEntryModel {
            name: self.name@,
            value: match self.value {
                Some(v) => Some(v@),
                None => None,
            },
            secret_ref: match self.secret_ref {
                Some(r) => Some(r@),
                None => None,
            },
        }
    }
}

pub open spec fn env_view(s: Seq<EnvEntry>) -> Seq<EnvEntryModel> {
    s.map_values(|e: EnvEntry| e@)
}

/// The entry invariant: exactly one of literal value and secret reference.
pub open spec fn entry_well_formed(e: EnvEntryModel) -> bool {
    (e.value is Some) <==> (e.secret_ref is None)
}

/// A literal entry.
pub open spec fn lit(name: Seq<char>, value: Seq<char>) -> EnvEntryModel {
    EnvEntryModel { name: name, value: Some(value), secret_ref: None }
}

/// A secret-reference entry.
pub open spec fn sref(name: Seq<char>, secret: Seq<char>, key: Seq<char>) -> EnvEntryModel {
    EnvEntryModel {
        name: name,
        value: None,
        secret_ref: Some(SecretRefModel { secret: secret, key: key }),
    }
}

fn lit_entry(name: &str, value: String) -> (e: EnvEntry)
    ensures
        e@ == lit(name@, value@),
{
    EnvEntry { name: String::from_str(name), value: Some(value), secret_ref: None }
}

fn secret_entry(name: &str, secret: String, key: String) -> (e: EnvEntry)
    ensures
        e@ == sref(name@, secret@, key@),
{
    EnvEntry {
        name: String::from_str(name),
        value: None,
        secret_ref: Some(SecretKeyRef { secret, key }),
    }
}

/// The JSON object one footer link is serialized to.
pub open spec fn spec_footer_link_json(l: FooterLink) -> Seq<char> {
    "{\"name\":"@ + spec_json_string(l.name@) + ",\"href\":"@ + spec_json_string(l.href@) + "}"@
}

pub open spec fn spec_footer_links_inner(ls: Seq<FooterLink>) -> Seq<char>
    decreases ls.len(),
{
    if ls.len() == 0 {
        Seq::empty()
    } else if ls.len() == 1 {
        spec_footer_link_json(ls[0])
    } else {
        spec_footer_links_inner(ls.drop_last()) + ","@ + spec_footer_link_json(ls.last())
    }
}

/// The JSON array the footer links are serialized to.
pub open spec fn spec_footer_links_json(ls: Seq<FooterLink>) -> Seq<char> {
    "["@ + spec_footer_links_inner(ls) + "]"@
}

/// Serializes the footer links as a JSON array of `{name, href}` objects.
pub fn footer_links_json(links: &Vec<FooterLink>) -> (r: String)
    ensures
        r@ == spec_footer_links_json(links@),
{
    let mut out = String::from_str("[");
    let n = links.len();
    let mut i: usize = 0;
    while i < n
        invariant
            n == links@.len(),
            i <= n,
            out@ == "["@ + spec_footer_links_inner(links@.take(i as int)),
        decreases n - i,
    {
        if i > 0 {
            out.append(",");
        }
        out.append("{\"name\":");
        append_json_string(&mut out, links[i].name.as_str());
        out.append(",\"href\":");
        append_json_string(&mut out, links[i].href.as_str());
        out.append("}");
        proof {
            let pre = links@.take(i as int);
            let cur = links@.take(i + 1);
            assert(cur.drop_last() =~= pre);
            assert(cur.last() == links@[i as int]);
            if i == 0 {
                assert(cur.len() == 1);
                assert(cur[0] == links@[0]);
                assert(spec_footer_links_inner(cur) == spec_footer_link_json(links@[0]));
            } else {
                assert(spec_footer_links_inner(cur) == spec_footer_links_inner(pre) + ","@
                    + spec_footer_link_json(links@[i as int]));
            }
            assert(out@ =~= "["@ + spec_footer_links_inner(cur));
        }
        i = i + 1;
    }
    out.append("]");
    proof {
        assert(links@.take(n as int) =~= links@);
        assert(out@ =~= spec_footer_links_json(links@));
    }
    out
}

/// The fixed entries, always present and in this order.
pub open spec fn spec_base_env(s: AuthentikSpec) -> Seq<EnvEntryModel> {
    seq![
        lit("AUTHENTIK_SECRET_KEY"@, s.secret_key@),
        lit("AUTHENTIK_FOOTER_LINKS"@, spec_footer_links_json(s.footer_links@)),
        lit("AUTHENTIK_DISABLE_STARTUP_ANALYTICS"@, "true"@),
        lit("AUTHENTIK_ERROR_REPORTING__ENABLED"@, "false"@),
        lit("AUTHENTIK_POSTGRESQL__HOST"@, s.postgres.host@),
        lit("AUTHENTIK_POSTGRESQL__PORT"@, spec_decimal(s.postgres.port as nat)),
        lit("AUTHENTIK_POSTGRESQL__NAME"@, s.postgres.database@),
        lit("AUTHENTIK_POSTGRESQL__USER"@, s.postgres.username@),
        lit("AUTHENTIK_REDIS__HOST"@, s.redis.host@),
        lit("AUTHENTIK_REDIS__PORT"@, spec_decimal(s.redis.port as nat)),
    ]
}

/// The log-level entry, present only when the spec sets one.
pub open spec fn spec_log_env(s: AuthentikSpec) -> Seq<EnvEntryModel> {
    match s.log_level {
        Some(l) => seq![lit("AUTHENTIK_LOG_LEVEL"@, l@)],
        None => Seq::empty(),
    }
}

/// The database-password entry: a secret reference exactly when the spec
/// supplies both a secret name and a key, else the literal password.
pub open spec fn spec_db_password_entry(p: AuthentikPostgres) -> EnvEntryModel {
    if p.password_secret is Some && p.password_secret_key is Some {
        sref(
            "AUTHENTIK_POSTGRESQL__PASSWORD"@,
            p.password_secret->Some_0@,
            p.password_secret_key->Some_0@,
        )
    } else {
        lit("AUTHENTIK_POSTGRESQL__PASSWORD"@, p.password@)
    }
}

/// The cache-password entry, present only when a password is set, always
/// literal.
pub open spec fn spec_redis_password_env(r: AuthentikRedis) -> Seq<EnvEntryModel> {
    match r.password {
        Some(p) => seq![lit("AUTHENTIK_REDIS__PASSWORD"@, p@)],
        None => Seq::empty(),
    }
}

/// The mail-relay block.
pub open spec fn spec_smtp_entries(m: AuthentikSmtp) -> Seq<EnvEntryModel> {
    seq![
        lit("AUTHENTIK_EMAIL__HOST"@, m.host@),
        lit("AUTHENTIK_EMAIL__PORT"@, spec_decimal(m.port as nat)),
        lit("AUTHENTIK_EMAIL__FROM"@, m.from@),
        lit("AUTHENTIK_EMAIL__USERNAME"@, m.username@),
        lit("AUTHENTIK_EMAIL__PASSWORD"@, m.password@),
        lit("AUTHENTIK_EMAIL__USE_TLS"@, spec_bool_str(m.use_tls)),
        lit("AUTHENTIK_EMAIL__USE_SSL"@, spec_bool_str(m.use_ssl)),
        lit("AUTHENTIK_EMAIL__TIMEOUT"@, spec_decimal(m.timeout as nat)),
    ]
}

pub open spec fn spec_smtp_env(o: Option<AuthentikSmtp>) -> Seq<EnvEntryModel> {
    match o {
        Some(m) => spec_smtp_entries(m),
        None => Seq::empty(),
    }
}

/// The whole assembled environment, in order: fixed entries, optional log
/// level, the database password, the optional cache password, the optional
/// mail-relay block.
pub open spec fn spec_build_env(s: AuthentikSpec) -> Seq<EnvEntryModel> {
    spec_base_env(s) + spec_log_env(s) + seq![spec_db_password_entry(s.postgres)]
        + spec_redis_password_env(s.redis) + spec_smtp_env(s.smtp)
}

/// Where the database-password entry stands in the assembled environment.
pub open spec fn spec_db_password_index(s: AuthentikSpec) -> int {
    spec_base_env(s).len() + spec_log_env(s).len() as int
}

/// The mail-relay entries, emitted as a block only if the section is
/// present in the spec; absence yields no entries.
pub fn build_env_smtp(obj: Option<&AuthentikSmtp>) -> (r: Vec<EnvEntry>)
    ensures
        env_view(r@) == match obj {
            Some(m) => spec_smtp_entries(*m),
            None => Seq::<EnvEntryModel>::empty(),
        },
{
    match obj {
        None => {
            let r: Vec<EnvEntry> = Vec::new();
            proof {
                assert(env_view(r@) =~= Seq::<EnvEntryModel>::empty());
            }
            r
        },
        Some(m) => {
            let mut r: Vec<EnvEntry> = Vec::new();
            r.push(lit_entry("AUTHENTIK_EMAIL__HOST", m.host.clone()));
            r.push(lit_entry("AUTHENTIK_EMAIL__PORT", u64_to_string(m.port as u64)));
            r.push(lit_entry("AUTHENTIK_EMAIL__FROM", m.from.clone()));
            r.push(lit_entry("AUTHENTIK_EMAIL__USERNAME", m.username.clone()));
            r.push(lit_entry("AUTHENTIK_EMAIL__PASSWORD", m.password.clone()));
            r.push(lit_entry("AUTHENTIK_EMAIL__USE_TLS", String::from_str(bool_str(m.use_tls))));
            r.push(lit_entry("AUTHENTIK_EMAIL__USE_SSL", String::from_str(bool_str(m.use_ssl))));
            r.push(lit_entry("AUTHENTIK_EMAIL__TIMEOUT", u64_to_string(m.timeout as u64)));
            proof {
                assert(env_view(r@) =~= spec_smtp_entries(*m));
            }
            r
        },
    }
}

/// Assembles the ordered environment for the instance spec.
pub fn build_env(obj: &AuthentikSpec) -> (r: Vec<EnvEntry>)
    ensures
        env_view(r@) == spec_build_env(*obj),
{
    let mut env: Vec<EnvEntry> = Vec::new();
    env.push(lit_entry("AUTHENTIK_SECRET_KEY", obj.secret_key.clone()));
    env.push(lit_entry("AUTHENTIK_FOOTER_LINKS", footer_links_json(&obj.footer_links)));
    env.push(lit_entry("AUTHENTIK_DISABLE_STARTUP_ANALYTICS", String::from_str("true")));
    env.push(lit_entry("AUTHENTIK_ERROR_REPORTING__ENABLED", String::from_str("false")));
    env.push(lit_entry("AUTHENTIK_POSTGRESQL__HOST", obj.postgres.host.clone()));
    env.push(lit_entry("AUTHENTIK_POSTGRESQL__PORT", u64_to_string(obj.postgres.port as u64)));
    env.push(lit_entry("AUTHENTIK_POSTGRESQL__NAME", obj.postgres.database.clone()));
    env.push(lit_entry("AUTHENTIK_POSTGRESQL__USER", obj.postgres.username.clone()));
    env.push(lit_entry("AUTHENTIK_REDIS__HOST", obj.redis.host.clone()));
    env.push(lit_entry("AUTHENTIK_REDIS__PORT", u64_to_string(obj.redis.port as u64)));
    proof {
        assert(env_view(env@) =~= spec_base_env(*obj));
    }
    if let Some(log_level) = &obj.log_level {
        env.push(lit_entry("AUTHENTIK_LOG_LEVEL", log_level.clone()));
    }
    proof {
        assert(env_view(env@) =~= spec_base_env(*obj) + spec_log_env(*obj));
    }
    let has_secret = obj.postgres.password_secret.is_some()
        && obj.postgres.password_secret_key.is_some();
    if has_secret {
        let secret = match &obj.postgres.password_secret {
            Some(s) => s.clone(),
            None => String::new(),
        };
        let key = match &obj.postgres.password_secret_key {
            Some(k) => k.clone(),
            None => String::new(),
        };
        env.push(secret_entry("AUTHENTIK_POSTGRESQL__PASSWORD", secret, key));
    } else {
        env.push(lit_entry("AUTHENTIK_POSTGRESQL__PASSWORD", obj.postgres.password.clone()));
    }
    proof {
        assert(env_view(env@) =~= spec_base_env(*obj) + spec_log_env(*obj) + seq![
            spec_db_password_entry(obj.postgres),
        ]);
    }
    if let Some(password) = &obj.redis.password {
        env.push(lit_entry("AUTHENTIK_REDIS__PASSWORD", password.clone()));
    }
    proof {
        assert(env_view(env@) =~= spec_base_env(*obj) + spec_log_env(*obj) + seq![
            spec_db_password_entry(obj.postgres),
        ] + spec_redis_password_env(obj.redis));
    }
    let mut smtp_entries = build_env_smtp(obj.smtp.as_ref());
    let ghost smtp_view = env_view(smtp_entries@);
    env.append(&mut smtp_entries);
    proof {
        assert(smtp_view == spec_smtp_env(obj.smtp));
        assert(env_view(env@) =~= spec_build_env(*obj));
    }
    env
}

/// Environment-entry invariant: every assembled entry is exactly one of
/// literal or secret reference, and the database-password entry is a secret
/// reference exactly when the spec supplies both a secret name and a key,
/// else the literal password.
pub proof fn lemma_env_entry_invariant(s: AuthentikSpec)
    ensures
        forall|i: int|
            0 <= i < spec_build_env(s).len() ==> entry_well_formed(#[trigger] spec_build_env(s)[i]),
        spec_build_env(s)[spec_db_password_index(s)] == spec_db_password_entry(s.postgres),
        (spec_db_password_entry(s.postgres).secret_ref is Some) <==> (s.postgres.password_secret
            is Some && s.postgres.password_secret_key is Some),
        !(s.postgres.password_secret is Some && s.postgres.password_secret_key is Some)
            ==> spec_db_password_entry(s.postgres).value == Some(s.postgres.password@),
{
    let base = spec_base_env(s);
    let log = spec_log_env(s);
    let db = seq![spec_db_password_entry(s.postgres)];
    let redis = spec_redis_password_env(s.redis);
    let smtp = spec_smtp_env(s.smtp);
    let all = spec_build_env(s);
    assert(all == base + log + db + redis + smtp);
    assert forall|i: int| 0 <= i < all.len() implies entry_well_formed(#[trigger] all[i]) by {
        assert(forall|j: int| 0 <= j < base.len() ==> entry_well_formed(#[trigger] base[j]));
        assert(forall|j: int| 0 <= j < log.len() ==> entry_well_formed(#[trigger] log[j]));
        assert(forall|j: int| 0 <= j < db.len() ==> entry_well_formed(#[trigger] db[j]));
        assert(forall|j: int| 0 <= j < redis.len() ==> entry_well_formed(#[trigger] redis[j]));
        assert(forall|j: int| 0 <= j < smtp.len() ==> entry_well_formed(#[trigger] smtp[j]));
    }
    assert(all[spec_db_password_index(s)] == spec_db_password_entry(s.postgres));
}

} // verus!
