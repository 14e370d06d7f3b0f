use k8s_maestro::collections::OrderedMap;
use k8s_maestro::resources::policy::{LabelSelector, NetworkPolicyPort, IntOrString};
use k8s_maestro::security::limits::{LimitRangeBuilder, LimitRangeItemBuilder, LimitRangeType};
use k8s_maestro::security::network_policy::{NetworkPolicyBuilder, NetworkPolicyRule, PolicyType};
use k8s_maestro::security::rbac::{
    ClusterRoleBindingBuilder, ClusterRoleBuilder, PolicyRule, RoleBindingBuilder, RoleBuilder,
    ServiceAccountBuilder,
};
use k8s_maestro::security::resource_quota::{QuotaScope, ResourceQuotaBuilder};
use k8s_maestro::security::security_context::{
    ContainerSecurityContextBuilder, PodSecurityContextBuilder, SecurityContextConfig,
};

fn text_map(entries: &[(&str, &str)]) -> OrderedMap<String> {
    let mut m = OrderedMap::new();
    for (k, v) in entries {
        m.insert(k.to_string(), v.to_string());
    }
    m
}

#[test]
fn test_service_account_builder() {
    let sa = ServiceAccountBuilder::new("test-sa", "default")
        .with_annotation("eks.amazonaws.com/role-arn", "arn:aws:iam::123456:role/test")
        .build()
        .expect("Failed to build service account");

    assert_eq!(sa.metadata.name, Some("test-sa".to_string()));
    assert_eq!(sa.metadata.namespace, Some("default".to_string()));
    assert!(sa.metadata.annotations.is_some());
}

#[test]
fn test_role_builder() {
    let rule = PolicyRule::new()
        .with_api_groups(vec!["".to_string()])
        .with_resources(vec!["pods".to_string()])
        .with_verbs(vec!["get".to_string(), "list".to_string()]);

    let role = RoleBuilder::new("pod-reader", "default").add_rule(rule).build().expect("Failed to build role");

    assert_eq!(role.metadata.name, Some("pod-reader".to_string()));
    assert!(role.rules.is_some());
    assert_eq!(role.rules.unwrap().len(), 1);
}

#[test]
fn test_workflow_executor_preset() {
    let role = RoleBuilder::workflow_executor("executor", "default")
        .expect("Failed to create executor preset")
        .build()
        .expect("Failed to build role");

    assert_eq!(role.metadata.name, Some("executor".to_string()));
    assert!(role.rules.is_some());
    let rules = role.rules.unwrap();
    assert!(rules.len() > 0);
    assert!(rules[0].verbs.contains(&"create".to_string()));
}

#[test]
fn test_workflow_viewer_preset() {
    let role = RoleBuilder::workflow_viewer("viewer", "default")
        .expect("Failed to create viewer preset")
        .build()
        .expect("Failed to build role");

    assert_eq!(role.metadata.name, Some("viewer".to_string()));
    assert!(role.rules.is_some());
    let rules = role.rules.unwrap();
    assert!(rules.len() > 0);
    assert!(rules[0].verbs.contains(&"get".to_string()));
}

#[test]
fn test_admin_preset() {
    let role = RoleBuilder::admin("admin", "default")
        .expect("Failed to create admin preset")
        .build()
        .expect("Failed to build role");

    assert_eq!(role.metadata.name, Some("admin".to_string()));
    assert!(role.rules.is_some());
    let rules = role.rules.unwrap();
    assert_eq!(rules.len(), 1);
    assert_eq!(rules[0].api_groups, Some(vec!["*".to_string()]));
}

#[test]
fn test_role_binding_builder() {
    let binding = RoleBindingBuilder::new("test-binding", "default")
        .with_subject_service_account("test-sa", "default")
        .with_role_ref_role("pod-reader")
        .build()
        .expect("Failed to build role binding");

    assert_eq!(binding.metadata.name, Some("test-binding".to_string()));
    assert!(binding.subjects.is_some());
    assert_eq!(binding.role_ref.kind, "Role");
}

#[test]
fn test_cluster_role_builder() {
    let rule = PolicyRule::new()
        .with_api_groups(vec!["".to_string()])
        .with_resources(vec!["nodes".to_string()])
        .with_verbs(vec!["get".to_string(), "list".to_string()]);

    let cluster_role = ClusterRoleBuilder::new("node-reader").add_rule(rule).build().expect("Failed to build cluster role");

    assert_eq!(cluster_role.metadata.name, Some("node-reader".to_string()));
    assert!(cluster_role.rules.is_some());
    assert_eq!(cluster_role.rules.unwrap().len(), 1);
}

#[test]
fn test_cluster_role_binding_builder() {
    let binding = ClusterRoleBindingBuilder::new("test-cluster-binding")
        .with_subject_service_account("test-sa", "default")
        .with_role_ref_cluster_role("cluster-admin")
        .build()
        .expect("Failed to build cluster role binding");

    assert_eq!(binding.metadata.name, Some("test-cluster-binding".to_string()));
    assert!(binding.subjects.is_some());
    assert_eq!(binding.role_ref.kind, "ClusterRole");
}

#[test]
fn test_policy_rule() {
    let rule = PolicyRule::new()
        .with_api_groups(vec!["batch".to_string()])
        .with_resources(vec!["jobs".to_string()])
        .with_verbs(vec!["get".to_string(), "list".to_string()])
        .with_resource_names(vec!["specific-job".to_string()]);

    let k8s_rule = rule.to_k8s_rule();
    assert!(k8s_rule.api_groups.is_some());
    assert!(k8s_rule.resources.is_some());
    assert!(k8s_rule.resource_names.is_some());
}

#[test]
fn test_rbac_edge_cases() {
    let k8s_rule = PolicyRule::new().with_verbs(vec!["get".to_string()]).to_k8s_rule();
    assert!(k8s_rule.api_groups.is_none());
    assert!(k8s_rule.resource_names.is_none());
    assert_eq!(k8s_rule.verbs, vec!["get".to_string()]);
    let missing = ClusterRoleBindingBuilder::new("b").build().unwrap_err();
    assert_eq!(missing.to_string(), "role_ref must be specified");
    let role = RoleBuilder::new("empty", "ns").build().unwrap();
    assert!(role.rules.is_none());
    assert!(role.metadata.labels.is_none());
}

#[test]
fn test_security_context_config_restricted() {
    let config = SecurityContextConfig::restricted();
    assert_eq!(config.run_as_non_root, Some(true));
    assert_eq!(config.allow_privilege_escalation, Some(false));
    assert_eq!(config.read_only_root_filesystem, Some(true));
    assert!(config.capabilities_drop.contains(&"ALL".to_string()));
}

#[test]
fn test_security_context_config_baseline() {
    let config = SecurityContextConfig::baseline();
    assert_eq!(config.run_as_non_root, Some(true));
    assert_eq!(config.allow_privilege_escalation, Some(false));
    assert!(config.capabilities_drop.contains(&"NET_RAW".to_string()));
}

#[test]
fn test_security_context_config_privileged() {
    let config = SecurityContextConfig::privileged();
    assert_eq!(config.privileged, Some(true));
    assert_eq!(config.allow_privilege_escalation, Some(true));
}

#[test]
fn test_pod_security_context_builder() {
    let pod_ctx = PodSecurityContextBuilder::new()
        .with_fs_group(2000)
        .with_supplemental_groups(vec![1000, 2000])
        .with_run_as_non_root(true)
        .build();

    assert_eq!(pod_ctx.fs_group, Some(2000));
    assert_eq!(pod_ctx.supplemental_groups, Some(vec![1000, 2000]));
    assert_eq!(pod_ctx.run_as_non_root, Some(true));
}

#[test]
fn test_container_security_context_builder() {
    let container_ctx = ContainerSecurityContextBuilder::new()
        .with_run_as_user(1000)
        .with_run_as_non_root(true)
        .add_capability("NET_ADMIN")
        .drop_capability("KILL")
        .build();

    assert_eq!(container_ctx.run_as_user, Some(1000));
    assert_eq!(container_ctx.run_as_non_root, Some(true));
    assert!(container_ctx.capabilities.is_some());
    let caps = container_ctx.capabilities.unwrap();
    assert!(caps.add.unwrap().contains(&"NET_ADMIN".to_string()));
    assert!(caps.drop.unwrap().contains(&"KILL".to_string()));
}

#[test]
fn test_container_from_restricted_config() {
    let config = SecurityContextConfig::restricted();
    let container_ctx = ContainerSecurityContextBuilder::from_config(&config).build();

    assert_eq!(container_ctx.run_as_non_root, Some(true));
    assert_eq!(container_ctx.allow_privilege_escalation, Some(false));
    assert_eq!(container_ctx.read_only_root_filesystem, Some(true));
}

#[test]
fn test_limit_range_builder_basic() {
    let limit_range = LimitRangeBuilder::new("test-limits", "default").build().expect("Failed to build limit range");

    assert_eq!(limit_range.metadata.name, Some("test-limits".to_string()));
    assert_eq!(limit_range.metadata.namespace, Some("default".to_string()));
    assert!(limit_range.spec.is_none());
}

#[test]
fn test_limit_range_item_builder_container() {
    let item = LimitRangeItemBuilder::new(LimitRangeType::Container)
        .with_default_value("cpu", "500m")
        .with_default_value("memory", "512Mi")
        .with_max_value("cpu", "2")
        .with_max_value("memory", "4Gi")
        .with_min_value("cpu", "100m")
        .build();

    assert_eq!(item.type_, "Container");
    assert!(item.default.is_some());
    assert!(item.max.is_some());
    assert!(item.min.is_some());
}

#[test]
fn test_limit_range_with_item() {
    let item = LimitRangeItemBuilder::new(LimitRangeType::Container)
        .with_default_value("cpu", "500m")
        .with_max_value("memory", "2Gi")
        .build();

    let limit_range = LimitRangeBuilder::new("container-limits", "default")
        .with_limit(item)
        .build()
        .expect("Failed to build limit range");

    assert!(limit_range.spec.is_some());
    let spec = limit_range.spec.unwrap();
    assert_eq!(spec.limits.len(), 1);
    assert_eq!(spec.limits[0].type_, "Container");
}

#[test]
fn test_limit_range_type_persistent_volume_claim() {
    let item = LimitRangeItemBuilder::new(LimitRangeType::PersistentVolumeClaim)
        .with_min_value("storage", "1Gi")
        .with_max_value("storage", "100Gi")
        .build();

    assert_eq!(item.type_, "PersistentVolumeClaim");
    assert!(item.min.is_some());
    assert!(item.max.is_some());
}

#[test]
fn test_limit_range_type_pod() {
    let item = LimitRangeItemBuilder::new(LimitRangeType::Pod).with_max_value("cpu", "4").with_max_value("memory", "8Gi").build();

    assert_eq!(item.type_, "Pod");
}

#[test]
fn test_multiple_limit_items() {
    let container_item = LimitRangeItemBuilder::new(LimitRangeType::Container)
        .with_default_value("cpu", "500m")
        .with_default_value("memory", "512Mi")
        .build();

    let pvc_item = LimitRangeItemBuilder::new(LimitRangeType::PersistentVolumeClaim)
        .with_min_value("storage", "1Gi")
        .with_max_value("storage", "50Gi")
        .build();

    let limit_range = LimitRangeBuilder::new("multi-limits", "default")
        .with_limit(container_item)
        .with_limit(pvc_item)
        .build()
        .expect("Failed to build limit range");

    assert!(limit_range.spec.is_some());
    let spec = limit_range.spec.unwrap();
    assert_eq!(spec.limits.len(), 2);
}

#[test]
fn test_limit_range_with_default_request() {
    let item = LimitRangeItemBuilder::new(LimitRangeType::Container)
        .with_default_value("cpu", "500m")
        .with_default_value("memory", "512Mi")
        .with_default_request_value("cpu", "100m")
        .with_default_request_value("memory", "256Mi")
        .build();

    assert!(item.default_request.is_some());
    let default_request = item.default_request.unwrap();
    assert_eq!(default_request.get("cpu").unwrap(), "100m");
    assert_eq!(default_request.get("memory").unwrap(), "256Mi");
}

#[test]
fn test_limit_range_value_overwrite() {
    let item = LimitRangeItemBuilder::new(LimitRangeType::Container)
        .with_max_value("cpu", "1")
        .with_max_value("cpu", "2")
        .build();
    let max = item.max.unwrap();
    assert_eq!(max.len(), 1);
    assert_eq!(max.get("cpu").unwrap(), "2");
    assert!(item.min.is_none());
}

#[test]
fn test_network_policy_builder_basic() {
    let policy = NetworkPolicyBuilder::new("test-policy", "default").build().expect("Failed to build policy");

    assert_eq!(policy.metadata.name, Some("test-policy".to_string()));
    assert_eq!(policy.metadata.namespace, Some("default".to_string()));
    assert_eq!(policy.spec.as_ref().unwrap().policy_types, Some(vec!["Both".to_string()]));
}

#[test]
fn test_network_policy_with_pod_selector() {
    let selector = LabelSelector { match_labels: Some(text_map(&[("app", "web")])), match_expressions: None };

    let policy = NetworkPolicyBuilder::new("test-policy", "default")
        .with_pod_selector(selector)
        .build()
        .expect("Failed to build policy");

    assert!(policy.spec.is_some());
    assert_eq!(
        policy.spec.unwrap().pod_selector.match_labels.unwrap().get("app"),
        Some(&"web".to_string())
    );
}

#[test]
fn test_network_policy_with_ingress_rule() {
    let rule = NetworkPolicyRule::new()
        .with_pod_selector(LabelSelector { match_labels: Some(text_map(&[("app", "api")])), match_expressions: None });

    let policy = NetworkPolicyBuilder::new("test-policy", "default")
        .with_ingress_rule(rule)
        .build()
        .expect("Failed to build policy");

    assert!(policy.spec.is_some());
    let spec = policy.spec.unwrap();
    assert!(spec.ingress.is_some());
    assert_eq!(spec.ingress.unwrap().len(), 1);
}

#[test]
fn test_network_policy_rule_port_and_types() {
    let port = NetworkPolicyPort { port: Some(IntOrString::Int(443)), protocol: Some("TCP".to_string()), end_port: None };
    let policy = NetworkPolicyBuilder::new("p", "ns")
        .with_egress_rule(NetworkPolicyRule::new().with_port(port.clone()))
        .with_policy_types(vec![PolicyType::Ingress, PolicyType::Egress])
        .build()
        .unwrap();
    let spec = policy.spec.unwrap();
    let egress = spec.egress.unwrap();
    assert!(egress[0].to.is_none());
    assert_eq!(egress[0].ports, Some(vec![port]));
    assert_eq!(spec.policy_types, Some(vec!["Ingress".to_string(), "Egress".to_string()]));
    assert!(spec.ingress.is_none());
}

#[test]
fn test_deny_all_preset() {
    let policy = NetworkPolicyBuilder::deny_all("deny-all", "default")
        .expect("Failed to create deny-all preset")
        .build()
        .expect("Failed to build policy");

    assert_eq!(policy.metadata.name, Some("deny-all".to_string()));
    assert!(policy.spec.is_some());
    let spec = policy.spec.unwrap();
    assert!(spec.ingress.is_none());
    assert!(spec.egress.is_none());
}

#[test]
fn test_allow_all_preset() {
    let policy = NetworkPolicyBuilder::allow_all("allow-all", "default")
        .expect("Failed to create allow-all preset")
        .build()
        .expect("Failed to build policy");

    assert_eq!(policy.metadata.name, Some("allow-all".to_string()));
    assert!(policy.spec.is_some());
    let spec = policy.spec.unwrap();
    assert!(spec.ingress.is_none());
    assert!(spec.egress.is_none());
}

#[test]
fn test_allow_within_namespace_preset() {
    let policy = NetworkPolicyBuilder::allow_within_namespace("allow-ns", "production")
        .expect("Failed to create allow-ns preset")
        .build()
        .expect("Failed to build policy");

    assert_eq!(policy.metadata.name, Some("allow-ns".to_string()));
    assert!(policy.spec.is_some());
    let spec = policy.spec.unwrap();
    assert!(spec.ingress.is_some());
    assert!(spec.egress.is_some());
    let from = spec.ingress.unwrap()[0].from.clone().unwrap();
    let labels = from[0].pod_selector.clone().unwrap().match_labels.unwrap();
    assert_eq!(labels.get("kubernetes.io/metadata.name").unwrap(), "production");
}

#[test]
fn test_resource_quota_builder_basic() {
    let quota = ResourceQuotaBuilder::new("test-quota", "default").build().expect("Failed to build quota");

    assert_eq!(quota.metadata.name, Some("test-quota".to_string()));
    assert_eq!(quota.metadata.namespace, Some("default".to_string()));
    let spec = quota.spec.unwrap();
    assert!(spec.hard.is_none());
    assert!(spec.scopes.is_none());
}

#[test]
fn test_resource_quota_with_hard_limits() {
    let limits = text_map(&[("requests.cpu", "4"), ("limits.memory", "16Gi")]);

    let quota = ResourceQuotaBuilder::new("test-quota", "default")
        .with_hard_limits(limits)
        .build()
        .expect("Failed to build quota");

    assert!(quota.spec.is_some());
    let spec = quota.spec.unwrap();
    assert!(spec.hard.is_some());
    let hard = spec.hard.unwrap();
    assert_eq!(hard.get("requests.cpu").unwrap(), "4");
    assert_eq!(hard.get("limits.memory").unwrap(), "16Gi");
}

#[test]
fn test_resource_quota_with_scopes() {
    let quota = ResourceQuotaBuilder::new("test-quota", "default")
        .with_scope(QuotaScope::Terminating)
        .with_scope(QuotaScope::BestEffort)
        .build()
        .expect("Failed to build quota");

    assert!(quota.spec.is_some());
    let spec = quota.spec.unwrap();
    assert!(spec.scopes.is_some());
    let scopes = spec.scopes.unwrap();
    assert!(scopes.contains(&"Terminating".to_string()));
    assert!(scopes.contains(&"BestEffort".to_string()));
}

#[test]
fn test_small_workload_preset() {
    let quota = ResourceQuotaBuilder::small_workload("small", "team-a")
        .expect("Failed to create small workload preset")
        .build()
        .expect("Failed to build quota");

    assert_eq!(quota.metadata.name, Some("small".to_string()));
    assert!(quota.spec.is_some());
    let spec = quota.spec.unwrap();
    assert!(spec.hard.is_some());
    let hard = spec.hard.unwrap();
    assert_eq!(hard.get("requests.cpu").unwrap(), "2");
    assert_eq!(hard.get("limits.memory").unwrap(), "8Gi");
}

#[test]
fn test_medium_workload_preset() {
    let quota = ResourceQuotaBuilder::medium_workload("medium", "team-a")
        .expect("Failed to create medium workload preset")
        .build()
        .expect("Failed to build quota");

    assert_eq!(quota.metadata.name, Some("medium".to_string()));
    assert!(quota.spec.is_some());
    let spec = quota.spec.unwrap();
    assert!(spec.hard.is_some());
    let hard = spec.hard.unwrap();
    assert_eq!(hard.get("requests.cpu").unwrap(), "10");
    assert_eq!(hard.get("limits.memory").unwrap(), "40Gi");
}

#[test]
fn test_large_workload_preset() {
    let quota = ResourceQuotaBuilder::large_workload("large", "team-a")
        .expect("Failed to create large workload preset")
        .build()
        .expect("Failed to build quota");

    assert_eq!(quota.metadata.name, Some("large".to_string()));
    assert!(quota.spec.is_some());
    let spec = quota.spec.unwrap();
    assert!(spec.hard.is_some());
    let hard = spec.hard.unwrap();
    assert_eq!(hard.get("requests.cpu").unwrap(), "50");
    assert_eq!(hard.get("limits.memory").unwrap(), "200Gi");
    assert_eq!(hard.len(), 6);
    assert_eq!(hard.get("persistentvolumeclaims").unwrap(), "100");
    assert_eq!(hard.get("count/pods").unwrap(), "200");
}
