//! The label sets attached to derived resources. The matching subset (name,
//! component, instance) is used as the selector and must stay a subset of
//! the full label set (which adds created-by and version), so that the
//! selector matches every pod the template produces.

use vstd::prelude::*;
use vstd::string::StringExecFns;

verus! {

/// One label: a fixed key and its value.
pub struct Label {
    pub key: String,
    pub value: String,
}

#[verifier::ext_equal]
pub struct LabelModel {
    pub key: Seq<char>,
    pub value: Seq<char>,
}

impl View for Label {
    type V = LabelModel;

    open spec fn view(&self) -> LabelModel {
        LabelModel { key: self.key@, value: self.value@ }
    }
}

pub open spec fn labels_view(s: Seq<Label>) -> Seq<LabelModel> {
    s.map_values(|l: Label| l@)
}

/// The mapping a label list stands for; a later entry wins on a repeated
/// key, as it does when the list is sent as a JSON object.
pub open spec fn labels_map(s: Seq<LabelModel>) -> Map<Seq<char>, Seq<char>>
    decreases s.len(),
{
    if s.len() == 0 {
        Map::empty()
    } else {
        labels_map(s.drop_last()).insert(s.last().key, s.last().value)
    }
}

pub open spec fn spec_name_label() -> LabelModel {
    LabelModel { key: "app.kubernetes.io/name"@, value: "authentik"@ }
}

pub open spec fn spec_component_label() -> LabelModel {
    LabelModel { key: "app.kubernetes.io/component"@, value: "server"@ }
}

pub open spec fn spec_instance_label(instance: Seq<char>) -> LabelModel {
    LabelModel { key: "app.kubernetes.io/instance"@, value: instance }
}

pub open spec fn spec_created_by_label() -> LabelModel {
    LabelModel { key: "app.kubernetes.io/created-by"@, value: "authentik-operator"@ }
}

pub open spec fn spec_version_label(version: Seq<char>) -> LabelModel {
    LabelModel { key: "app.kubernetes.io/version"@, value: version }
}

/// The stable matching subset, reused as object labels and as selector.
pub open spec fn spec_matching_labels(instance: Seq<char>) -> Seq<LabelModel> {
    seq![
        spec_name_label(),
        spec_component_label(),
        spec_instance_label(instance),
    ]
}

/// The full label set put on the resource and on the pod template.
pub open spec fn spec_full_labels(instance: Seq<char>, version: Seq<char>) -> Seq<LabelModel> {
    spec_matching_labels(instance) + seq![spec_created_by_label(), spec_version_label(version)]
}

/// The matching subset of labels for an instance: name, component and the
/// instance itself. The selector is issued from this same function, so it
/// cannot drift from the template labels.
pub fn get_matching_labels(instance: String) -> (r: Vec<Label>)
    ensures
        labels_view(r@) == spec_matching_labels(instance@),
{
    let mut v: Vec<Label> = Vec::new();
    v.push(
        Label {
            key: String::from_str("app.kubernetes.io/name"),
            value: String::from_str("authentik"),
        },
    );
    v.push(
        Label {
            key: String::from_str("app.kubernetes.io/component"),
            value: String::from_str("server"),
        },
    );
    v.push(Label { key: String::from_str("app.kubernetes.io/instance"), value: instance });
    proof {
        assert(labels_view(v@) =~= spec_matching_labels(instance@));
    }
    v
}

/// The full label set: the matching subset plus created-by and version.
pub fn get_labels(instance: String, version: String) -> (r: Vec<Label>)
    ensures
        labels_view(r@) == spec_full_labels(instance@, version@),
{
    let mut v = get_matching_labels(instance);
    v.push(
        Label {
            key: String::from_str("app.kubernetes.io/created-by"),
            value: String::from_str("authentik-operator"),
        },
    );
    v.push(Label { key: String::from_str("app.kubernetes.io/version"), value: version });
    proof {
        assert(labels_view(v@) =~= spec_full_labels(instance@, version@));
    }
    v
}

proof fn lemma_label_keys_distinct()
    ensures
        spec_name_label().key != spec_created_by_label().key,
        spec_component_label().key != spec_created_by_label().key,
        spec_instance_label(Seq::empty()).key != spec_created_by_label().key,
        spec_name_label().key != spec_version_label(Seq::empty()).key,
        spec_component_label().key != spec_version_label(Seq::empty()).key,
        spec_instance_label(Seq::empty()).key != spec_version_label(Seq::empty()).key,
{
    reveal_strlit("app.kubernetes.io/name");
    reveal_strlit("app.kubernetes.io/component");
    reveal_strlit("app.kubernetes.io/instance");
    reveal_strlit("app.kubernetes.io/created-by");
    reveal_strlit("app.kubernetes.io/version");
    assert("app.kubernetes.io/name"@.len() == 22);
    assert("app.kubernetes.io/component"@.len() == 27);
    assert("app.kubernetes.io/instance"@.len() == 26);
    assert("app.kubernetes.io/created-by"@.len() == 28);
    assert("app.kubernetes.io/version"@.len() == 25);
}

/// Selector soundness: the mapping the matching subset stands for is always
/// a submap of the mapping the full label set stands for, for the same
/// instance, so the selector matches every pod labelled with the full set.
pub proof fn lemma_selector_subset(instance: Seq<char>, version: Seq<char>)
    ensures
        labels_map(spec_matching_labels(instance)).submap_of(
            labels_map(spec_full_labels(instance, version)),
        ),
{
    let m = spec_matching_labels(instance);
    let f = spec_full_labels(instance, version);
    assert(m.len() == 3);
    assert(f.len() == 5);
    assert(m.last() == spec_instance_label(instance));
    assert(m.drop_last().len() == 2);
    assert(m.drop_last().last() == spec_component_label());
    assert(m.drop_last().drop_last().len() == 1);
    assert(m.drop_last().drop_last().last() == spec_name_label());
    assert(m.drop_last().drop_last().drop_last().len() == 0);
    let mm = labels_map(m);
    assert(labels_map(m.drop_last().drop_last().drop_last())
        == Map::<Seq<char>, Seq<char>>::empty());
    assert(labels_map(m.drop_last().drop_last()) == labels_map(
        m.drop_last().drop_last().drop_last(),
    ).insert(spec_name_label().key, spec_name_label().value));
    assert(labels_map(m.drop_last()) == labels_map(m.drop_last().drop_last()).insert(
        spec_component_label().key,
        spec_component_label().value,
    ));
    assert(mm == labels_map(m.drop_last()).insert(spec_instance_label(instance).key, instance));
    assert(mm == Map::<Seq<char>, Seq<char>>::empty().insert(
        spec_name_label().key,
        spec_name_label().value,
    ).insert(spec_component_label().key, spec_component_label().value).insert(
        spec_instance_label(instance).key,
        instance,
    ));
    assert(f.last() == spec_version_label(version));
    assert(f.drop_last().len() == 4);
    assert(f.drop_last().last() == spec_created_by_label());
    assert(f.drop_last().drop_last() =~= m);
    assert(labels_map(f.drop_last().drop_last()) == mm);
    assert(labels_map(f.drop_last()) == mm.insert(
        spec_created_by_label().key,
        spec_created_by_label().value,
    ));
    let fm = labels_map(f);
    assert(fm == mm.insert(spec_created_by_label().key, spec_created_by_label().value).insert(
        spec_version_label(version).key,
        version,
    ));
    lemma_label_keys_distinct();
    assert(spec_instance_label(instance).key == spec_instance_label(Seq::empty()).key);
    assert(spec_version_label(version).key == spec_version_label(Seq::empty()).key);
    assert forall|k: Seq<char>| mm.dom().contains(k) implies fm.dom().contains(k) && fm[k]
        == mm[k] by {
        assert(k == spec_name_label().key || k == spec_component_label().key || k
            == spec_instance_label(instance).key);
    }
}

} // verus!
