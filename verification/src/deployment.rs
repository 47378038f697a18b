//! The desired-state builder and the apply reconciler: the full workload
//! manifest is recomputed from the instance spec on every pass, and the
//! create-or-patch decision over the observed cluster state is an
//! idempotent state transition.

use vstd::prelude::*;
use vstd::string::StringExecFns;

use crate::crd::{Authentik, AuthentikSpec};
use crate::env::{build_env, env_view, spec_build_env, EnvEntry, EnvEntryModel};
use crate::error::ReconcileError;
use crate::labels::{
    get_labels, get_matching_labels, labels_view, spec_full_labels, spec_matching_labels, Label,
    LabelModel,
};
use crate::name_prefix;

verus! {

/// One exposed container port.
pub struct ContainerPort {
    pub name: String,
    pub container_port: u16,
    pub protocol: String,
}

/// One container of the pod template.
pub struct Container {
    pub name: String,
    pub image: String,
    pub image_pull_policy: String,
    pub args: Vec<String>,
    pub ports: Vec<ContainerPort>,
    pub env: Vec<EnvEntry>,
}

/// The link binding a derived resource's lifecycle to its instance.
pub struct OwnerReference {
    pub api_version: String,
    pub kind: String,
    pub name: String,
    pub uid: String,
    pub controller: bool,
}

pub struct Metadata {
    pub name: String,
    pub labels: Vec<Label>,
    pub owner_references: Vec<OwnerReference>,
}

pub struct PodTemplate {
    pub labels: Vec<Label>,
    pub containers: Vec<Container>,
}

pub struct DeploymentSpec {
    pub replicas: u32,
    pub selector: Vec<Label>,
    pub template: PodTemplate,
}

/// The desired workload manifest, fully recomputed from the instance spec
/// on every reconcile pass.
pub struct Deployment {
    pub api_version: String,
    pub kind: String,
    pub metadata: Metadata,
    pub spec: DeploymentSpec,
}

#[verifier::ext_equal]
pub struct ContainerPortModel {
    pub name: Seq<char>,
    pub container_port: u16,
    pub protocol: Seq<char>,
}

#[verifier::ext_equal]
pub struct ContainerModel {
    pub name: Seq<char>,
    pub image: Seq<char>,
    pub image_pull_policy: Seq<char>,
    pub args: Seq<Seq<char>>,
    pub ports: Seq<ContainerPortModel>,
    pub env: Seq<EnvEntryModel>,
}

#[verifier::ext_equal]
pub struct OwnerReferenceModel {
    pub api_version: Seq<char>,
    pub kind: Seq<char>,
    pub name: Seq<char>,
    pub uid: Seq<char>,
    pub controller: bool,
}

#[verifier::ext_equal]
pub struct MetadataModel {
    pub name: Seq<char>,
    pub labels: Seq<LabelModel>,
    pub owner_references: Seq<OwnerReferenceModel>,
}

#[verifier::ext_equal]
pub struct PodTemplateModel {
    pub labels: Seq<LabelModel>,
    pub containers: Seq<ContainerModel>,
}

#[verifier::ext_equal]
pub struct DeploymentSpecModel {
    pub replicas: u32,
    pub selector: Seq<LabelModel>,
    pub template: PodTemplateModel,
}

#[verifier::ext_equal]
pub struct DeploymentModel {
    pub api_version: Seq<char>,
    pub kind: Seq<char>,
    pub metadata: MetadataModel,
    pub spec: DeploymentSpecModel,
}

impl View for ContainerPort {
    type V = ContainerPortModel;

    open spec fn view(&self) -> ContainerPortModel {
        ContainerPortModel {
            name: self.name@,
            container_port: self.container_port,
            protocol: self.protocol@,
        }
    }
}

impl View for Container {
    type V = ContainerModel;

    open spec fn view(&self) -> ContainerModel {
        ContainerModel {
            name: self.name@,
            image: self.image@,
            image_pull_policy: self.image_pull_policy@,
            args: self.args@.map_values(|a: String| a@),
            ports: self.ports@.map_values(|p: ContainerPort| p@),
            env: env_view(self.env@),
        }
    }
}

impl View for OwnerReference {
    type V = OwnerReferenceModel;

    open spec fn view(&self) -> OwnerReferenceModel {
        OwnerReferenceModel {
            api_version: self.api_version@,
            kind: self.kind@,
            name: self.name@,
            uid: self.uid@,
            controller: self.controller,
        }
    }
}

impl View for Metadata {
    type V = MetadataModel;

    open spec fn view(&self) -> MetadataModel {
        MetadataModel {
            name: self.name@,
            labels: labels_view(self.labels@),
            owner_references: self.owner_references@.map_values(|o: OwnerReference| o@),
        }
    }
}

impl View for PodTemplate {
    type V = PodTemplateModel;

    open spec fn view(&self) -> PodTemplateModel {
        PodTemplateModel {
            labels: labels_view(self.labels@),
            containers: self.containers@.map_values(|c: Container| c@),
        }
    }
}

impl View for DeploymentSpec {
    type V = DeploymentSpecModel;

    open spec fn view(&self) -> DeploymentSpecModel {
        DeploymentSpecModel {
            replicas: self.replicas,
            selector: labels_view(self.selector@),
            template: self.template@,
        }
    }
}

impl View for Deployment {
    type V = DeploymentModel;

    open spec fn view(&self) -> DeploymentModel {
        DeploymentModel {
            api_version: self.api_version@,
            kind: self.kind@,
            metadata: self.metadata@,
            spec: self.spec@,
        }
    }
}

/// The name of the derived resource: the fixed prefix plus the instance
/// name, the same on every call.
pub open spec fn spec_manifest_name(instance: Seq<char>) -> Seq<char> {
    name_prefix() + instance
}

pub fn manifest_name(instance: &str) -> (r: String)
    ensures
        r@ == spec_manifest_name(instance@),
{
    let mut r = String::from_str("authentik-");
    r.append(instance);
    r
}

/// The image reference: repository, colon, tag.
pub open spec fn spec_image(s: AuthentikSpec) -> Seq<char> {
    s.image.repository@ + ":"@ + s.image.tag@
}

/// The owner reference every derived resource carries: exactly one link to
/// the instance, marked as controller.
pub open spec fn spec_owner_reference(name: Seq<char>, uid: Seq<char>) -> OwnerReferenceModel {
    OwnerReferenceModel {
        api_version: "ak.dany.dev/v1"@,
        kind: "Authentik"@,
        name: name,
        uid: uid,
        controller: true,
    }
}

/// The server container: launch argument `server`, one exposed port.
pub open spec fn spec_server_container(name: Seq<char>, s: AuthentikSpec) -> ContainerModel {
    ContainerModel {
        name: spec_manifest_name(name) + "-server"@,
        image: spec_image(s),
        image_pull_policy: s.image.pull_policy@,
        args: seq!["server"@],
        ports: seq![
            ContainerPortModel { name: "http"@, container_port: 9000, protocol: "TCP"@ },
        ],
        env: spec_build_env(s),
    }
}

/// The worker container: launch argument `worker`, no exposed port, the
/// same image, pull policy and environment as the server.
pub open spec fn spec_worker_container(name: Seq<char>, s: AuthentikSpec) -> ContainerModel {
    ContainerModel {
        name: spec_manifest_name(name) + "-worker"@,
        image: spec_image(s),
        image_pull_policy: s.image.pull_policy@,
        args: seq!["worker"@],
        ports: Seq::empty(),
        env: spec_build_env(s),
    }
}

/// The whole desired manifest as a function of instance name, instance uid
/// and spec alone.
pub open spec fn spec_manifest(name: Seq<char>, uid: Seq<char>, s: AuthentikSpec) -> DeploymentModel {
    DeploymentModel {
        api_version: "apps/v1"@,
        kind: "Deployment"@,
        metadata: MetadataModel {
            name: spec_manifest_name(name),
            labels: spec_full_labels(name, s.image.tag@),
            owner_references: seq![spec_owner_reference(name, uid)],
        },
        spec: DeploymentSpecModel {
            replicas: 1,
            selector: spec_matching_labels(name),
            template: PodTemplateModel {
                labels: spec_full_labels(name, s.image.tag@),
                containers: seq![spec_server_container(name, s), spec_worker_container(name, s)],
            },
        },
    }
}

fn image_string(s: &AuthentikSpec) -> (r: String)
    ensures
        r@ == spec_image(*s),
{
    let mut r = s.image.repository.clone();
    r.append(":");
    r.append(s.image.tag.as_str());
    proof {
        assert(r@ =~= spec_image(*s));
    }
    r
}

fn container_suffix_name(instance: &str, suffix: &str) -> (r: String)
    ensures
        r@ == spec_manifest_name(instance@) + suffix@,
{
    let mut r = manifest_name(instance);
    r.append(suffix);
    r
}

/// Builds the desired manifest for the instance, or fails with `InvalidObj`
/// before any network call when the instance has no assigned unique
/// identifier yet.
pub fn build(name: String, obj: &Authentik) -> (r: Result<Deployment, ReconcileError>)
    ensures
        obj.metadata.uid is Some ==> (r matches Ok(d) && d@ == spec_manifest(
            name@,
            obj.metadata.uid->Some_0@,
            obj.spec,
        )),
        obj.metadata.uid is None ==> (r matches Err(ReconcileError::InvalidObj(m)) && m@
            == "Missing UID of the instance object."@),
{
    let uid = match &obj.metadata.uid {
        Some(u) => u.clone(),
        None => {
            return Err(
                ReconcileError::InvalidObj(String::from_str("Missing UID of the instance object.")),
            );
        },
    };
    let server = Container {
        name: container_suffix_name(name.as_str(), "-server"),
        image: image_string(&obj.spec),
        image_pull_policy: obj.spec.image.pull_policy.clone(),
        args: vec![String::from_str("server")],
        ports: vec![
            ContainerPort {
                name: String::from_str("http"),
                container_port: 9000,
                protocol: String::from_str("TCP"),
            },
        ],
        env: build_env(&obj.spec),
    };
    let worker = Container {
        name: container_suffix_name(name.as_str(), "-worker"),
        image: image_string(&obj.spec),
        image_pull_policy: obj.spec.image.pull_policy.clone(),
        args: vec![String::from_str("worker")],
        ports: Vec::new(),
        env: build_env(&obj.spec),
    };
    let deployment = Deployment {
        api_version: String::from_str("apps/v1"),
        kind: String::from_str("Deployment"),
        metadata: Metadata {
            name: manifest_name(name.as_str()),
            labels: get_labels(name.clone(), obj.spec.image.tag.clone()),
            owner_references: vec![
                OwnerReference {
                    api_version: String::from_str("ak.dany.dev/v1"),
                    kind: String::from_str("Authentik"),
                    name: name.clone(),
                    uid,
                    controller: true,
                },
            ],
        },
        spec: DeploymentSpec {
            replicas: 1,
            selector: get_matching_labels(name.clone()),
            template: PodTemplate {
                labels: get_labels(name.clone(), obj.spec.image.tag.clone()),
                containers: vec![server, worker],
            },
        },
    };
    proof {
        let m = spec_manifest(name@, obj.metadata.uid->Some_0@, obj.spec);
        assert(deployment@.metadata.owner_references =~= m.metadata.owner_references);
        assert(deployment@.spec.template.containers[0] =~~= m.spec.template.containers[0]);
        assert(deployment@.spec.template.containers[1] =~~= m.spec.template.containers[1]);
        assert(deployment@.spec.template.containers =~~= m.spec.template.containers);
        assert(deployment@ =~~= m);
    }
    Ok(deployment)
}

/// Determinism of the builder: the manifest name is a function of the
/// instance name alone, and object labels, template labels and selector are
/// functions of the instance name and image tag alone, so two builds for
/// the same instance yield identical names and label sets.
pub proof fn lemma_build_deterministic(name: Seq<char>, uid: Seq<char>, s: AuthentikSpec)
    ensures
        spec_manifest(name, uid, s).metadata.name == spec_manifest_name(name),
        spec_manifest(name, uid, s).metadata.labels == spec_full_labels(name, s.image.tag@),
        spec_manifest(name, uid, s).spec.template.labels == spec_full_labels(name, s.image.tag@),
        spec_manifest(name, uid, s).spec.selector == spec_matching_labels(name),
{
}

} // verus!
