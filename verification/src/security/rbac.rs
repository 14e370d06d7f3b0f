//! Builders for service accounts, roles and role bindings, with role presets.
use vstd::prelude::*;
use crate::collections::{inserted_text, str_views, to_strings, views, OrderedMap};
use crate::resources::meta::{BuildError, ObjectMeta};
use crate::resources::rbac::{
    ClusterRole, ClusterRoleBinding, K8sPolicyRule, Role, RoleBinding, RoleRef, ServiceAccount,
    Subject,
};

verus! {

/// The API group of roles.
pub open spec fn rbac_group() -> Seq<char> {
    "rbac.authorization.k8s.io"@
}

/// A list written as none when it is empty.
pub open spec fn none_if_empty<T>(built: Option<Vec<T>>, v: Vec<T>) -> bool {
    if v@.len() == 0 {
        built is None
    } else {
        built == Some(v)
    }
}

/// A map written as none when it is empty.
pub open spec fn none_if_empty_map(built: Option<OrderedMap<String>>, m: OrderedMap<String>) -> bool {
    if m@.len() == 0 {
        built is None
    } else {
        built == Some(m)
    }
}

/// A list of texts written as none when it is empty, by characters.
pub open spec fn texts_or_none(built: Option<Vec<String>>, v: Seq<Seq<char>>) -> bool {
    match built {
        None => v.len() == 0,
        Some(b) => v.len() > 0 && views(b@) == v,
    }
}

/// What a role rule allows.
#[derive(Debug, Clone)]
pub struct PolicyRule {
    pub api_groups: Vec<String>,
    pub resources: Vec<String>,
    pub verbs: Vec<String>,
    pub resource_names: Vec<String>,
}

/// `k` is the Kubernetes form of the rule `r`.
pub open spec fn rule_built_from(k: K8sPolicyRule, r: PolicyRule) -> bool {
    &&& texts_or_none(k.api_groups, views(r.api_groups@))
    &&& texts_or_none(k.resources, views(r.resources@))
    &&& views(k.verbs@) == views(r.verbs@)
    &&& texts_or_none(k.resource_names, views(r.resource_names@))
}

/// `r` allows exactly `verbs` on `resources` of `groups`, with no
/// restriction to named resources.
pub open spec fn rule_is(
    r: PolicyRule,
    groups: Seq<Seq<char>>,
    resources: Seq<Seq<char>>,
    verbs: Seq<Seq<char>>,
) -> bool {
    &&& views(r.api_groups@) == groups
    &&& views(r.resources@) == resources
    &&& views(r.verbs@) == verbs
    &&& r.resource_names@.len() == 0
}

/// A copy of each text of `v`.
fn copy_texts(v: &Vec<String>) -> (r: Vec<String>)
    ensures
        views(r@) == views(v@),
{
    let mut r: Vec<String> = Vec::new();
    let mut i: usize = 0;
    while i < v.len()
        invariant
            i <= v@.len(),
            views(r@) == views(v@).take(i as int),
        decreases v@.len() - i,
    {
        let ghost before = views(r@);
        r.push(v[i].clone());
        assert(views(r@) =~= before.push(v@[i as int]@));
        assert(views(v@).take(i + 1) =~= views(v@).take(i as int).push(v@[i as int]@));
        i = i + 1;
    }
    assert(views(v@).take(v@.len() as int) =~= views(v@));
    r
}

/// A copy of `v`, or none when it is empty.
fn texts_unless_empty(v: &Vec<String>) -> (r: Option<Vec<String>>)
    ensures
        texts_or_none(r, views(v@)),
{
    if v.len() == 0 {
        None
    } else {
        Some(copy_texts(v))
    }
}

impl PolicyRule {
    /// A rule that allows nothing.
    pub fn new() -> (r: Self)
        ensures
            r.api_groups@.len() == 0,
            r.resources@.len() == 0,
            r.verbs@.len() == 0,
            r.resource_names@.len() == 0,
    {
        PolicyRule {
            api_groups: Vec::new(),
            resources: Vec::new(),
            verbs: Vec::new(),
            resource_names: Vec::new(),
        }
    }

    pub fn with_api_groups(self, groups: Vec<String>) -> (r: Self)
        ensures
            r == (PolicyRule { api_groups: groups, ..self }),
    {
        PolicyRule { api_groups: groups, ..self }
    }

    pub fn with_resources(self, resources: Vec<String>) -> (r: Self)
        ensures
            r == (PolicyRule { resources, ..self }),
    {
        PolicyRule { resources, ..self }
    }

    pub fn with_verbs(self, verbs: Vec<String>) -> (r: Self)
        ensures
            r == (PolicyRule { verbs, ..self }),
    {
        PolicyRule { verbs, ..self }
    }

    pub fn with_resource_names(self, names: Vec<String>) -> (r: Self)
        ensures
            r == (PolicyRule { resource_names: names, ..self }),
    {
        PolicyRule { resource_names: names, ..self }
    }

    /// The Kubernetes form of the rule; empty lists other than the verbs
    /// are written as none.
    pub fn to_k8s_rule(&self) -> (r: K8sPolicyRule)
        ensures
            rule_built_from(r, *self),
    {
        K8sPolicyRule {
            api_groups: texts_unless_empty(&self.api_groups),
            resources: texts_unless_empty(&self.resources),
            verbs: copy_texts(&self.verbs),
            resource_names: texts_unless_empty(&self.resource_names),
        }
    }

    /// A rule on the given lists.
    fn from_lists(groups: Vec<&str>, resources: Vec<&str>, verbs: Vec<&str>) -> (r: Self)
        ensures
            rule_is(r, str_views(groups@), str_views(resources@), str_views(verbs@)),
    {
        PolicyRule::new().with_api_groups(to_strings(&groups)).with_resources(
            to_strings(&resources),
        ).with_verbs(to_strings(&verbs))
    }
}

impl Default for PolicyRule {
    fn default() -> (r: Self)
        ensures
            r.api_groups@.len() == 0,
            r.resources@.len() == 0,
            r.verbs@.len() == 0,
            r.resource_names@.len() == 0,
    {
        PolicyRule::new()
    }
}

/// The rules of a role, in Kubernetes form; none when there is no rule.
pub open spec fn rules_built_from(built: Option<Vec<K8sPolicyRule>>, rules: Seq<PolicyRule>) -> bool {
    match built {
        None => rules.len() == 0,
        Some(b) => rules.len() > 0 && b@.len() == rules.len() && forall|i: int|
            0 <= i < rules.len() ==> #[trigger] rule_built_from(b@[i], rules[i]),
    }
}

/// The Kubernetes form of each rule, or none when there is none.
fn k8s_rules(rules: &Vec<PolicyRule>) -> (r: Option<Vec<K8sPolicyRule>>)
    ensures
        rules_built_from(r, rules@),
{
    if rules.len() == 0 {
        return None;
    }
    let mut out: Vec<K8sPolicyRule> = Vec::new();
    let mut i: usize = 0;
    while i < rules.len()
        invariant
            i <= rules@.len(),
            out@.len() == i,
            forall|q: int| 0 <= q < i ==> #[trigger] rule_built_from(out@[q], rules@[q]),
        decreases rules@.len() - i,
    {
        out.push(rules[i].to_k8s_rule());
        i = i + 1;
    }
    Some(out)
}

/// The metadata of a built object: its name, its namespace (if any), and
/// its labels and annotations unless they are empty.
pub open spec fn meta_built_from(
    m: ObjectMeta,
    name: String,
    namespace: Option<String>,
    labels: OrderedMap<String>,
    annotations: OrderedMap<String>,
) -> bool {
    &&& m.name == Some(name)
    &&& m.namespace == namespace
    &&& none_if_empty_map(m.labels, labels)
    &&& none_if_empty_map(m.annotations, annotations)
}

/// The metadata of a built object.
pub(crate) fn build_meta(
    name: String,
    namespace: Option<String>,
    labels: OrderedMap<String>,
    annotations: OrderedMap<String>,
) -> (r: ObjectMeta)
    ensures
        meta_built_from(r, name, namespace, labels, annotations),
{
    let l = if labels.is_empty() {
        None
    } else {
        Some(labels)
    };
    let a = if annotations.is_empty() {
        None
    } else {
        Some(annotations)
    };
    ObjectMeta { name: Some(name), namespace, labels: l, annotations: a }
}

/// The settings of a service account under construction.
#[derive(Debug)]
pub struct ServiceAccountBuilder {
    pub name: String,
    pub namespace: String,
    pub annotations: OrderedMap<String>,
    pub labels: OrderedMap<String>,
}

impl ServiceAccountBuilder {
    pub fn new(name: &str, namespace: &str) -> (r: Self)
        ensures
            r.name@ == name@,
            r.namespace@ == namespace@,
            r.annotations@.len() == 0,
            r.labels@.len() == 0,
    {
        ServiceAccountBuilder {
            name: name.to_string(),
            namespace: namespace.to_string(),
            annotations: OrderedMap::new(),
            labels: OrderedMap::new(),
        }
    }

    pub fn with_annotation(self, key: &str, value: &str) -> (r: Self)
        ensures
            inserted_text(r.annotations, self.annotations, key@, value@),
            r == (ServiceAccountBuilder { annotations: r.annotations, ..self }),
    {
        let mut s = self;
        s.annotations.insert_text(key, value);
        s
    }

    pub fn with_label(self, key: &str, value: &str) -> (r: Self)
        ensures
            inserted_text(r.labels, self.labels, key@, value@),
            r == (ServiceAccountBuilder { labels: r.labels, ..self }),
    {
        let mut s = self;
        s.labels.insert_text(key, value);
        s
    }

    /// The service account; it always builds.
    pub fn build(self) -> (r: Result<ServiceAccount, BuildError>)
        ensures
            r matches Ok(sa) && meta_built_from(
                sa.metadata,
                self.name,
                Some(self.namespace),
                self.labels,
                self.annotations,
            ),
    {
        let ServiceAccountBuilder { name, namespace, annotations, labels } = self;
        Ok(ServiceAccount { metadata: build_meta(name, Some(namespace), labels, annotations) })
    }
}

/// The settings of a role under construction.
#[derive(Debug)]
pub struct RoleBuilder {
    pub name: String,
    pub namespace: String,
    pub rules: Vec<PolicyRule>,
    pub labels: OrderedMap<String>,
    pub annotations: OrderedMap<String>,
}

/// Every verb that the workflow executor may use on jobs and pods.
pub open spec fn executor_verbs() -> Seq<Seq<char>> {
    seq!["get"@, "list"@, "watch"@, "create"@, "update"@, "patch"@, "delete"@]
}

impl RoleBuilder {
    pub fn new(name: &str, namespace: &str) -> (r: Self)
        ensures
            r.name@ == name@,
            r.namespace@ == namespace@,
            r.rules@.len() == 0,
            r.labels@.len() == 0,
            r.annotations@.len() == 0,
    {
        RoleBuilder {
            name: name.to_string(),
            namespace: namespace.to_string(),
            rules: Vec::new(),
            labels: OrderedMap::new(),
            annotations: OrderedMap::new(),
        }
    }

    /// Replaces the rules.
    pub fn with_rules(self, rules: Vec<PolicyRule>) -> (r: Self)
        ensures
            r == (RoleBuilder { rules, ..self }),
    {
        RoleBuilder { rules, ..self }
    }

    /// Appends a rule.
    pub fn add_rule(self, rule: PolicyRule) -> (r: Self)
        ensures
            r.rules@ == self.rules@.push(rule),
            r == (RoleBuilder { rules: r.rules, ..self }),
    {
        let mut s = self;
        s.rules.push(rule);
        s
    }

    pub fn with_label(self, key: &str, value: &str) -> (r: Self)
        ensures
            inserted_text(r.labels, self.labels, key@, value@),
            r == (RoleBuilder { labels: r.labels, ..self }),
    {
        let mut s = self;
        s.labels.insert_text(key, value);
        s
    }

    pub fn with_annotation(self, key: &str, value: &str) -> (r: Self)
        ensures
            inserted_text(r.annotations, self.annotations, key@, value@),
            r == (RoleBuilder { annotations: r.annotations, ..self }),
    {
        let mut s = self;
        s.annotations.insert_text(key, value);
        s
    }

    /// The role; it always builds.
    pub fn build(self) -> (r: Result<Role, BuildError>)
        ensures
            r matches Ok(role) && meta_built_from(
                role.metadata,
                self.name,
                Some(self.namespace),
                self.labels,
                self.annotations,
            ) && rules_built_from(role.rules, self.rules@),
    {
        let rules = k8s_rules(&self.rules);
        let RoleBuilder { name, namespace, rules: _, labels, annotations } = self;
        Ok(Role { metadata: build_meta(name, Some(namespace), labels, annotations), rules })
    }

    /// A role that runs workflows: every verb on jobs and pods, and reading
    /// pod logs.
    pub fn workflow_executor(name: &str, namespace: &str) -> (r: Result<Self, BuildError>)
        ensures
            r matches Ok(b) && b.name@ == name@ && b.namespace@ == namespace@ && b.labels@.len() == 0
                && b.annotations@.len() == 0 && b.rules@.len() == 2 && rule_is(
                b.rules@[0],
                seq!["batch"@, ""@],
                seq!["jobs"@, "pods"@],
                executor_verbs(),
            ) && rule_is(b.rules@[1], seq![""@], seq!["pods/log"@], seq!["get"@, "list"@]),
    {
        let g0 = vec!["batch", ""];
        let r0 = vec!["jobs", "pods"];
        let v0 = vec!["get", "list", "watch", "create", "update", "patch", "delete"];
        let g1 = vec![""];
        let r1 = vec!["pods/log"];
        let v1 = vec!["get", "list"];
        assert(str_views(g0@) =~= seq!["batch"@, ""@]);
        assert(str_views(r0@) =~= seq!["jobs"@, "pods"@]);
        assert(str_views(v0@) =~= executor_verbs());
        assert(str_views(g1@) =~= seq![""@]);
        assert(str_views(r1@) =~= seq!["pods/log"@]);
        assert(str_views(v1@) =~= seq!["get"@, "list"@]);
        let mut rules: Vec<PolicyRule> = Vec::new();
        rules.push(PolicyRule::from_lists(g0, r0, v0));
        rules.push(PolicyRule::from_lists(g1, r1, v1));
        Ok(Self::new(name, namespace).with_rules(rules))
    }

    /// A role that watches workflows: reading jobs, pods, deployments and
    /// replica sets, and pod logs and statuses.
    pub fn workflow_viewer(name: &str, namespace: &str) -> (r: Result<Self, BuildError>)
        ensures
            r matches Ok(b) && b.name@ == name@ && b.namespace@ == namespace@ && b.labels@.len() == 0
                && b.annotations@.len() == 0 && b.rules@.len() == 2 && rule_is(
                b.rules@[0],
                seq!["batch"@, "apps"@, "extensions"@, ""@],
                seq!["jobs"@, "pods"@, "deployments"@, "replicasets"@],
                seq!["get"@, "list"@, "watch"@],
            ) && rule_is(
                b.rules@[1],
                seq![""@],
                seq!["pods/log"@, "pods/status"@],
                seq!["get"@, "list"@],
            ),
    {
        let g0 = vec!["batch", "apps", "extensions", ""];
        let r0 = vec!["jobs", "pods", "deployments", "replicasets"];
        let v0 = vec!["get", "list", "watch"];
        let g1 = vec![""];
        let r1 = vec!["pods/log", "pods/status"];
        let v1 = vec!["get", "list"];
        assert(str_views(g0@) =~= seq!["batch"@, "apps"@, "extensions"@, ""@]);
        assert(str_views(r0@) =~= seq!["jobs"@, "pods"@, "deployments"@, "replicasets"@]);
        assert(str_views(v0@) =~= seq!["get"@, "list"@, "watch"@]);
        assert(str_views(g1@) =~= seq![""@]);
        assert(str_views(r1@) =~= seq!["pods/log"@, "pods/status"@]);
        assert(str_views(v1@) =~= seq!["get"@, "list"@]);
        let mut rules: Vec<PolicyRule> = Vec::new();
        rules.push(PolicyRule::from_lists(g0, r0, v0));
        rules.push(PolicyRule::from_lists(g1, r1, v1));
        Ok(Self::new(name, namespace).with_rules(rules))
    }

    /// A role that may do everything.
    pub fn admin(name: &str, namespace: &str) -> (r: Result<Self, BuildError>)
        ensures
            r matches Ok(b) && b.name@ == name@ && b.namespace@ == namespace@ && b.labels@.len() == 0
                && b.annotations@.len() == 0 && b.rules@.len() == 1 && rule_is(
                b.rules@[0],
                seq!["*"@],
                seq!["*"@],
                seq!["*"@],
            ),
    {
        let g = vec!["*"];
        let res = vec!["*"];
        let v = vec!["*"];
        assert(str_views(g@) =~= seq!["*"@]);
        assert(str_views(res@) =~= seq!["*"@]);
        assert(str_views(v@) =~= seq!["*"@]);
        let mut rules: Vec<PolicyRule> = Vec::new();
        rules.push(PolicyRule::from_lists(g, res, v));
        Ok(Self::new(name, namespace).with_rules(rules))
    }
}

/// A subject for the service account `name` of `namespace`.
fn service_account_subject(name: &str, namespace: &str) -> (r: Subject)
    ensures
        r.kind@ == "ServiceAccount"@,
        r.name@ == name@,
        r.namespace matches Some(n) && n@ == namespace@,
        r.api_group is None,
{
    Subject {
        kind: String::from_str("ServiceAccount"),
        name: name.to_string(),
        namespace: Some(namespace.to_string()),
        api_group: None,
    }
}

/// A subject for the user `name`.
fn user_subject(name: &str) -> (r: Subject)
    ensures
        r.kind@ == "User"@,
        r.name@ == name@,
        r.namespace is None,
        r.api_group is None,
{
    Subject { kind: String::from_str("User"), name: name.to_string(), namespace: None, api_group: None }
}

/// A reference to the role of kind `kind` named `name`.
fn role_ref(kind: &str, name: &str) -> (r: RoleRef)
    ensures
        r.kind@ == kind@,
        r.name@ == name@,
        r.api_group@ == rbac_group(),
{
    RoleRef {
        kind: kind.to_string(),
        name: name.to_string(),
        api_group: String::from_str("rbac.authorization.k8s.io"),
    }
}

/// The settings of a role binding under construction.
#[derive(Debug)]
pub struct RoleBindingBuilder {
    pub name: String,
    pub namespace: String,
    pub subjects: Vec<Subject>,
    pub role_ref: Option<RoleRef>,
    pub labels: OrderedMap<String>,
    pub annotations: OrderedMap<String>,
}

impl RoleBindingBuilder {
    pub fn new(name: &str, namespace: &str) -> (r: Self)
        ensures
            r.name@ == name@,
            r.namespace@ == namespace@,
            r.subjects@.len() == 0,
            r.role_ref is None,
            r.labels@.len() == 0,
            r.annotations@.len() == 0,
    {
        RoleBindingBuilder {
            name: name.to_string(),
            namespace: namespace.to_string(),
            subjects: Vec::new(),
            role_ref: None,
            labels: OrderedMap::new(),
            annotations: OrderedMap::new(),
        }
    }

    pub fn with_subject(self, subject: Subject) -> (r: Self)
        ensures
            r.subjects@ == self.subjects@.push(subject),
            r == (RoleBindingBuilder { subjects: r.subjects, ..self }),
    {
        let mut s = self;
        s.subjects.push(subject);
        s
    }

    /// Grants the role to the service account `name` of `namespace`.
    pub fn with_subject_service_account(self, name: &str, namespace: &str) -> (r: Self)
        ensures
            r.subjects@.len() == self.subjects@.len() + 1,
            r.subjects@.drop_last() == self.subjects@,
            r.subjects@.last().kind@ == "ServiceAccount"@,
            r.subjects@.last().name@ == name@,
            r.subjects@.last().namespace matches Some(n) && n@ == namespace@,
            r.subjects@.last().api_group is None,
            r == (RoleBindingBuilder { subjects: r.subjects, ..self }),
    {
        let mut s = self;
        s.subjects.push(service_account_subject(name, namespace));
        assert(s.subjects@.drop_last() =~= self.subjects@);
        s
    }

    /// Grants the role to the user `name`.
    pub fn with_subject_user(self, name: &str) -> (r: Self)
        ensures
            r.subjects@.len() == self.subjects@.len() + 1,
            r.subjects@.drop_last() == self.subjects@,
            r.subjects@.last().kind@ == "User"@,
            r.subjects@.last().name@ == name@,
            r.subjects@.last().namespace is None,
            r.subjects@.last().api_group is None,
            r == (RoleBindingBuilder { subjects: r.subjects, ..self }),
    {
        let mut s = self;
        s.subjects.push(user_subject(name));
        assert(s.subjects@.drop_last() =~= self.subjects@);
        s
    }

    pub fn with_role_ref(self, role_ref: RoleRef) -> (r: Self)
        ensures
            r == (RoleBindingBuilder { role_ref: Some(role_ref), ..self }),
    {
        RoleBindingBuilder { role_ref: Some(role_ref), ..self }
    }

    /// Binds the role `name` of the binding's namespace.
    pub fn with_role_ref_role(self, name: &str) -> (r: Self)
        ensures
            r.role_ref matches Some(rr) && rr.kind@ == "Role"@ && rr.name@ == name@ && rr.api_group@
                == rbac_group(),
            r == (RoleBindingBuilder { role_ref: r.role_ref, ..self }),
    {
        RoleBindingBuilder { role_ref: Some(role_ref("Role", name)), ..self }
    }

    /// Binds the cluster role `name`.
    pub fn with_role_ref_cluster_role(self, name: &str) -> (r: Self)
        ensures
            r.role_ref matches Some(rr) && rr.kind@ == "ClusterRole"@ && rr.name@ == name@
                && rr.api_group@ == rbac_group(),
            r == (RoleBindingBuilder { role_ref: r.role_ref, ..self }),
    {
        RoleBindingBuilder { role_ref: Some(role_ref("ClusterRole", name)), ..self }
    }

    pub fn with_label(self, key: &str, value: &str) -> (r: Self)
        ensures
            inserted_text(r.labels, self.labels, key@, value@),
            r == (RoleBindingBuilder { labels: r.labels, ..self }),
    {
        let mut s = self;
        s.labels.insert_text(key, value);
        s
    }

    pub fn with_annotation(self, key: &str, value: &str) -> (r: Self)
        ensures
            inserted_text(r.annotations, self.annotations, key@, value@),
            r == (RoleBindingBuilder { annotations: r.annotations, ..self }),
    {
        let mut s = self;
        s.annotations.insert_text(key, value);
        s
    }

    /// The role binding; the role must be given.
    pub fn build(self) -> (r: Result<RoleBinding, BuildError>)
        ensures
            self.role_ref is None ==> (r matches Err(e) && e.message@ == "role_ref must be specified"@),
            self.role_ref matches Some(rr) ==> (r matches Ok(b) && meta_built_from(
                b.metadata,
                self.name,
                Some(self.namespace),
                self.labels,
                self.annotations,
            ) && none_if_empty(b.subjects, self.subjects) && b.role_ref == rr),
    {
        let RoleBindingBuilder { name, namespace, subjects, role_ref, labels, annotations } = self;
        match role_ref {
            None => Err(BuildError::new("role_ref must be specified")),
            Some(rr) => {
                let subs = if subjects.len() == 0 {
                    None
                } else {
                    Some(subjects)
                };
                Ok(
                    RoleBinding {
                        metadata: build_meta(name, Some(namespace), labels, annotations),
                        subjects: subs,
                        role_ref: rr,
                    },
                )
            },
        }
    }
}

/// The settings of a cluster role under construction.
#[derive(Debug)]
pub struct ClusterRoleBuilder {
    pub name: String,
    pub rules: Vec<PolicyRule>,
    pub labels: OrderedMap<String>,
    pub annotations: OrderedMap<String>,
}

impl ClusterRoleBuilder {
    pub fn new(name: &str) -> (r: Self)
        ensures
            r.name@ == name@,
            r.rules@.len() == 0,
            r.labels@.len() == 0,
            r.annotations@.len() == 0,
    {
        ClusterRoleBuilder {
            name: name.to_string(),
            rules: Vec::new(),
            labels: OrderedMap::new(),
            annotations: OrderedMap::new(),
        }
    }

    /// Replaces the rules.
    pub fn with_rules(self, rules: Vec<PolicyRule>) -> (r: Self)
        ensures
            r == (ClusterRoleBuilder { rules, ..self }),
    {
        ClusterRoleBuilder { rules, ..self }
    }

    /// Appends a rule.
    pub fn add_rule(self, rule: PolicyRule) -> (r: Self)
        ensures
            r.rules@ == self.rules@.push(rule),
            r == (ClusterRoleBuilder { rules: r.rules, ..self }),
    {
        let mut s = self;
        s.rules.push(rule);
        s
    }

    pub fn with_label(self, key: &str, value: &str) -> (r: Self)
        ensures
            inserted_text(r.labels, self.labels, key@, value@),
            r == (ClusterRoleBuilder { labels: r.labels, ..self }),
    {
        let mut s = self;
        s.labels.insert_text(key, value);
        s
    }

    pub fn with_annotation(self, key: &str, value: &str) -> (r: Self)
        ensures
            inserted_text(r.annotations, self.annotations, key@, value@),
            r == (ClusterRoleBuilder { annotations: r.annotations, ..self }),
    {
        let mut s = self;
        s.annotations.insert_text(key, value);
        s
    }

    /// The cluster role; it always builds.
    pub fn build(self) -> (r: Result<ClusterRole, BuildError>)
        ensures
            r matches Ok(role) && meta_built_from(
                role.metadata,
                self.name,
                None,
                self.labels,
                self.annotations,
            ) && rules_built_from(role.rules, self.rules@),
    {
        let rules = k8s_rules(&self.rules);
        let ClusterRoleBuilder { name, rules: _, labels, annotations } = self;
        Ok(ClusterRole { metadata: build_meta(name, None, labels, annotations), rules })
    }
}

/// The settings of a cluster role binding under construction.
#[derive(Debug)]
pub struct ClusterRoleBindingBuilder {
    pub name: String,
    pub subjects: Vec<Subject>,
    pub role_ref: Option<RoleRef>,
    pub labels: OrderedMap<String>,
    pub annotations: OrderedMap<String>,
}

impl ClusterRoleBindingBuilder {
    pub fn new(name: &str) -> (r: Self)
        ensures
            r.name@ == name@,
            r.subjects@.len() == 0,
            r.role_ref is None,
            r.labels@.len() == 0,
            r.annotations@.len() == 0,
    {
        ClusterRoleBindingBuilder {
            name: name.to_string(),
            subjects: Vec::new(),
            role_ref: None,
            labels: OrderedMap::new(),
            annotations: OrderedMap::new(),
        }
    }

    pub fn with_subject(self, subject: Subject) -> (r: Self)
        ensures
            r.subjects@ == self.subjects@.push(subject),
            r == (ClusterRoleBindingBuilder { subjects: r.subjects, ..self }),
    {
        let mut s = self;
        s.subjects.push(subject);
        s
    }

    /// Grants the role to the service account `name` of `namespace`.
    pub fn with_subject_service_account(self, name: &str, namespace: &str) -> (r: Self)
        ensures
            r.subjects@.len() == self.subjects@.len() + 1,
            r.subjects@.drop_last() == self.subjects@,
            r.subjects@.last().kind@ == "ServiceAccount"@,
            r.subjects@.last().name@ == name@,
            r.subjects@.last().namespace matches Some(n) && n@ == namespace@,
            r.subjects@.last().api_group is None,
            r == (ClusterRoleBindingBuilder { subjects: r.subjects, ..self }),
    {
        let mut s = self;
        s.subjects.push(service_account_subject(name, namespace));
        assert(s.subjects@.drop_last() =~= self.subjects@);
        s
    }

    /// Grants the role to the user `name`.
    pub fn with_subject_user(self, name: &str) -> (r: Self)
        ensures
            r.subjects@.len() == self.subjects@.len() + 1,
            r.subjects@.drop_last() == self.subjects@,
            r.subjects@.last().kind@ == "User"@,
            r.subjects@.last().name@ == name@,
            r.subjects@.last().namespace is None,
            r.subjects@.last().api_group is None,
            r == (ClusterRoleBindingBuilder { subjects: r.subjects, ..self }),
    {
        let mut s = self;
        s.subjects.push(user_subject(name));
        assert(s.subjects@.drop_last() =~= self.subjects@);
        s
    }

    pub fn with_role_ref(self, role_ref: RoleRef) -> (r: Self)
        ensures
            r == (ClusterRoleBindingBuilder { role_ref: Some(role_ref), ..self }),
    {
        ClusterRoleBindingBuilder { role_ref: Some(role_ref), ..self }
    }

    /// Binds the cluster role `name`.
    pub fn with_role_ref_cluster_role(self, name: &str) -> (r: Self)
        ensures
            r.role_ref matches Some(rr) && rr.kind@ == "ClusterRole"@ && rr.name@ == name@
                && rr.api_group@ == rbac_group(),
            r == (ClusterRoleBindingBuilder { role_ref: r.role_ref, ..self }),
    {
        ClusterRoleBindingBuilder { role_ref: Some(role_ref("ClusterRole", name)), ..self }
    }

    pub fn with_label(self, key: &str, value: &str) -> (r: Self)
        ensures
            inserted_text(r.labels, self.labels, key@, value@),
            r == (ClusterRoleBindingBuilder { labels: r.labels, ..self }),
    {
        let mut s = self;
        s.labels.insert_text(key, value);
        s
    }

    pub fn with_annotation(self, key: &str, value: &str) -> (r: Self)
        ensures
            inserted_text(r.annotations, self.annotations, key@, value@),
            r == (ClusterRoleBindingBuilder { annotations: r.annotations, ..self }),
    {
        let mut s = self;
        s.annotations.insert_text(key, value);
        s
    }

    /// The cluster role binding; the role must be given.
    pub fn build(self) -> (r: Result<ClusterRoleBinding, BuildError>)
        ensures
            self.role_ref is None ==> (r matches Err(e) && e.message@ == "role_ref must be specified"@),
            self.role_ref matches Some(rr) ==> (r matches Ok(b) && meta_built_from(
                b.metadata,
                self.name,
                None,
                self.labels,
                self.annotations,
            ) && none_if_empty(b.subjects, self.subjects) && b.role_ref == rr),
    {
        let ClusterRoleBindingBuilder { name, subjects, role_ref, labels, annotations } = self;
        match role_ref {
            None => Err(BuildError::new("role_ref must be specified")),
            Some(rr) => {
                let subs = if subjects.len() == 0 {
                    None
                } else {
                    Some(subjects)
                };
                Ok(
                    ClusterRoleBinding {
                        metadata: build_meta(name, None, labels, annotations),
                        subjects: subs,
                        role_ref: rr,
                    },
                )
            },
        }
    }
}

} // verus!
