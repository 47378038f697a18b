use ak_operator::crd::{
    Authentik, AuthentikImage, AuthentikPostgres, AuthentikRedis, AuthentikSpec, FooterLink,
    ObjectMeta,
};
use ak_operator::deployment::{build, manifest_name, Deployment};
use ak_operator::error::ReconcileError;
use ak_operator::labels::{get_labels, get_matching_labels, Label};
use ak_operator::reconcile::{cleanup, plan_apply, reconcile_prepare, Action};

fn sample_spec() -> AuthentikSpec {
    AuthentikSpec {
        image: AuthentikImage {
            repository: "ghcr.io/goauthentik/server".to_string(),
            tag: "2023.5.1".to_string(),
            pull_policy: "IfNotPresent".to_string(),
        },
        secret_key: "sk-123".to_string(),
        footer_links: vec![FooterLink {
            name: "Home".to_string(),
            href: "https://example.com".to_string(),
        }],
        log_level: None,
        postgres: AuthentikPostgres {
            host: "db".to_string(),
            port: 5432,
            database: "authentik".to_string(),
            username: "ak".to_string(),
            password: "hunter2".to_string(),
            password_secret: None,
            password_secret_key: None,
        },
        redis: AuthentikRedis { host: "cache".to_string(), port: 6379, password: None },
        smtp: None,
    }
}

fn sample_instance(spec: AuthentikSpec) -> Authentik {
    Authentik {
        metadata: ObjectMeta {
            name: Some("prod".to_string()),
            namespace: Some("default".to_string()),
            uid: Some("uid-1234".to_string()),
        },
        spec,
    }
}

fn labels_as_pairs(labels: &[Label]) -> Vec<(String, String)> {
    labels.iter().map(|l| (l.key.clone(), l.value.clone())).collect()
}

#[test]
fn manifest_name_is_prefixed() {
    assert_eq!(manifest_name("prod"), "authentik-prod");
}

#[test]
fn build_names_two_containers_and_env() {
    let obj = sample_instance(sample_spec());
    let d: Deployment = build("prod".to_string(), &obj).expect("build should succeed");
    assert_eq!(d.api_version, "apps/v1");
    assert_eq!(d.kind, "Deployment");
    assert_eq!(d.metadata.name, "authentik-prod");
    assert_eq!(d.spec.replicas, 1);
    assert_eq!(d.spec.template.containers.len(), 2);
    let server = &d.spec.template.containers[0];
    let worker = &d.spec.template.containers[1];
    assert_eq!(server.name, "authentik-prod-server");
    assert_eq!(server.args, vec!["server".to_string()]);
    assert_eq!(server.ports.len(), 1);
    assert_eq!(server.ports[0].container_port, 9000);
    assert_eq!(server.ports[0].name, "http");
    assert_eq!(server.ports[0].protocol, "TCP");
    assert_eq!(worker.name, "authentik-prod-worker");
    assert_eq!(worker.args, vec!["worker".to_string()]);
    assert!(worker.ports.is_empty());
    assert_eq!(server.image, "ghcr.io/goauthentik/server:2023.5.1");
    assert_eq!(server.image, worker.image);
    assert_eq!(server.image_pull_policy, "IfNotPresent");
    // both containers receive the identical assembled environment
    assert_eq!(server.env.len(), worker.env.len());
    for (a, b) in server.env.iter().zip(worker.env.iter()) {
        assert_eq!(a.name, b.name);
        assert_eq!(a.value, b.value);
    }
    // a literal database-password entry is present
    let pw = server
        .env
        .iter()
        .find(|e| e.name == "AUTHENTIK_POSTGRESQL__PASSWORD")
        .expect("password entry");
    assert_eq!(pw.value.as_deref(), Some("hunter2"));
    assert!(pw.secret_ref.is_none());
}

#[test]
fn build_owner_reference_links_instance() {
    let obj = sample_instance(sample_spec());
    let d = build("prod".to_string(), &obj).unwrap();
    assert_eq!(d.metadata.owner_references.len(), 1);
    let or = &d.metadata.owner_references[0];
    assert_eq!(or.api_version, "ak.dany.dev/v1");
    assert_eq!(or.kind, "Authentik");
    assert_eq!(or.name, "prod");
    assert_eq!(or.uid, "uid-1234");
    assert!(or.controller);
}

#[test]
fn build_without_uid_is_invalid_obj() {
    let mut obj = sample_instance(sample_spec());
    obj.metadata.uid = None;
    let r = build("prod".to_string(), &obj);
    match r {
        Err(ReconcileError::InvalidObj(m)) => assert_eq!(m, "Missing UID of the instance object."),
        Err(other) => panic!("expected InvalidObj, got {:?}", other),
        Ok(_) => panic!("expected InvalidObj, got a manifest"),
    }
}

#[test]
fn build_twice_same_name_and_labels() {
    let obj = sample_instance(sample_spec());
    let d1 = build("prod".to_string(), &obj).unwrap();
    let d2 = build("prod".to_string(), &obj).unwrap();
    assert_eq!(d1.metadata.name, d2.metadata.name);
    assert_eq!(labels_as_pairs(&d1.metadata.labels), labels_as_pairs(&d2.metadata.labels));
    assert_eq!(
        labels_as_pairs(&d1.spec.template.labels),
        labels_as_pairs(&d2.spec.template.labels)
    );
    assert_eq!(labels_as_pairs(&d1.spec.selector), labels_as_pairs(&d2.spec.selector));
}

#[test]
fn matching_labels_subset_of_full_labels() {
    let matching = get_matching_labels("prod".to_string());
    let full = get_labels("prod".to_string(), "2023.5.1".to_string());
    for l in &matching {
        assert!(
            full.iter().any(|f| f.key == l.key && f.value == l.value),
            "label {} missing from full set",
            l.key
        );
    }
    assert_eq!(matching.len(), 3);
    assert_eq!(full.len(), 5);
}

#[test]
fn label_values_are_fixed() {
    let full = get_labels("prod".to_string(), "2023.5.1".to_string());
    let pairs = labels_as_pairs(&full);
    assert!(pairs.contains(&("app.kubernetes.io/name".to_string(), "authentik".to_string())));
    assert!(pairs.contains(&("app.kubernetes.io/component".to_string(), "server".to_string())));
    assert!(pairs.contains(&("app.kubernetes.io/instance".to_string(), "prod".to_string())));
    assert!(pairs.contains(&(
        "app.kubernetes.io/created-by".to_string(),
        "authentik-operator".to_string()
    )));
    assert!(pairs.contains(&("app.kubernetes.io/version".to_string(), "2023.5.1".to_string())));
}

#[test]
fn selector_matches_template_labels() {
    let obj = sample_instance(sample_spec());
    let d = build("prod".to_string(), &obj).unwrap();
    let template = labels_as_pairs(&d.spec.template.labels);
    for l in &d.spec.selector {
        assert!(template.contains(&(l.key.clone(), l.value.clone())));
    }
}

#[test]
fn prepare_without_name_is_invalid_obj() {
    let mut obj = sample_instance(sample_spec());
    obj.metadata.name = None;
    let r = reconcile_prepare(&obj);
    match r {
        Err(ReconcileError::InvalidObj(m)) => assert_eq!(m, "Missing instance name."),
        other => panic!("expected InvalidObj, got {:?}", other),
    }
}

#[test]
fn prepare_without_namespace_names_instance() {
    let mut obj = sample_instance(sample_spec());
    obj.metadata.namespace = None;
    let r = reconcile_prepare(&obj);
    match r {
        Err(ReconcileError::NoNamespace(n)) => assert_eq!(n, "prod"),
        other => panic!("expected NoNamespace, got {:?}", other),
    }
}

#[test]
fn prepare_returns_name_and_namespace() {
    let obj = sample_instance(sample_spec());
    let (name, ns) = reconcile_prepare(&obj).unwrap();
    assert_eq!(name, "prod");
    assert_eq!(ns, "default");
}

#[test]
fn plan_is_create_then_patch() {
    assert_eq!(plan_apply(false), Action::Create);
    assert_eq!(plan_apply(true), Action::Patch);
    // retrying against the now-present resource plans the same patch again
    assert_eq!(plan_apply(true), plan_apply(true));
}

#[test]
fn cleanup_is_noop() {
    let obj = sample_instance(sample_spec());
    assert!(cleanup(&obj).is_ok());
}
