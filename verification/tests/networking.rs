use k8s_maestro::collections::OrderedMap;
use k8s_maestro::networking::dns::{headless_service_dns_pattern, pod_dns_name, service_dns_name};
use k8s_maestro::networking::ingress::{IngressBuilder, IngressPath, PathType, TLSConfig};
use k8s_maestro::networking::service::{ServiceBuilder, ServicePort, ServiceType};

fn text_map(entries: &[(&str, &str)]) -> OrderedMap<String> {
    let mut m = OrderedMap::new();
    for (k, v) in entries {
        m.insert(k.to_string(), v.to_string());
    }
    m
}

#[test]
fn test_service_dns_name() {
    let dns = service_dns_name("my-service", "default");
    assert_eq!(dns, "my-service.default.svc.cluster.local");
}

#[test]
fn test_service_dns_name_custom_namespace() {
    let dns = service_dns_name("api-server", "production");
    assert_eq!(dns, "api-server.production.svc.cluster.local");
}

#[test]
fn test_pod_dns_name() {
    let dns = pod_dns_name("my-pod", "default");
    assert_eq!(dns, "my-pod.default.pod.cluster.local");
}

#[test]
fn test_headless_service_dns_pattern() {
    let dns = headless_service_dns_pattern("stateful-set", "default");
    assert_eq!(dns, "*.stateful-set.default.svc.cluster.local");
}

#[test]
fn test_dns_with_special_characters() {
    let dns = service_dns_name("my-service-123", "my-namespace");
    assert_eq!(dns, "my-service-123.my-namespace.svc.cluster.local");
}

#[test]
fn test_ingress_builder_basic() {
    let ingress = IngressBuilder::new()
        .with_name("test-ingress")
        .with_namespace("default")
        .with_host("example.com")
        .with_path("/", "test-service", 80)
        .build()
        .expect("Should build ingress");

    assert_eq!(ingress.metadata.name, Some("test-ingress".to_string()));
    assert_eq!(ingress.metadata.namespace, Some("default".to_string()));
    assert_eq!(ingress.spec.as_ref().unwrap().rules.as_ref().unwrap().len(), 1);
}

#[test]
fn test_ingress_builder_tls() {
    let ingress = IngressBuilder::new()
        .with_name("tls-ingress")
        .with_namespace("default")
        .with_host("secure.example.com")
        .with_path("/", "secure-service", 443)
        .with_tls_secret("tls-secret")
        .build()
        .expect("Should build ingress with TLS");

    assert!(ingress.spec.as_ref().unwrap().tls.is_some());
    let tls = ingress.spec.as_ref().unwrap().tls.as_ref().unwrap();
    assert_eq!(tls.len(), 1);
    assert_eq!(tls[0].secret_name.as_ref().unwrap(), "tls-secret");
}

#[test]
fn test_ingress_builder_multiple_paths() {
    let paths = vec![
        IngressPath {
            path: "/api".to_string(),
            path_type: PathType::Prefix,
            service_name: "api-service".to_string(),
            service_port: 8080,
        },
        IngressPath {
            path: "/static".to_string(),
            path_type: PathType::Prefix,
            service_name: "static-service".to_string(),
            service_port: 80,
        },
    ];

    let ingress = IngressBuilder::new()
        .with_name("multi-path-ingress")
        .with_namespace("default")
        .with_host("example.com")
        .with_paths(paths)
        .build()
        .expect("Should build ingress with multiple paths");

    assert_eq!(
        ingress.spec.as_ref().unwrap().rules.as_ref().unwrap()[0]
            .http
            .as_ref()
            .unwrap()
            .paths
            .len(),
        2
    );
}

#[test]
fn test_ingress_builder_validation_missing_name() {
    let result = IngressBuilder::new()
        .with_namespace("default")
        .with_host("example.com")
        .with_path("/", "test-service", 80)
        .build();

    assert!(result.is_err());
    assert!(result.unwrap_err().to_string().contains("name is required"));
}

#[test]
fn test_ingress_builder_validation_missing_namespace() {
    let result = IngressBuilder::new()
        .with_name("test-ingress")
        .with_host("example.com")
        .with_path("/", "test-service", 80)
        .build();

    assert!(result.is_err());
    assert!(result.unwrap_err().to_string().contains("namespace is required"));
}

#[test]
fn test_ingress_builder_validation_missing_host() {
    let result = IngressBuilder::new()
        .with_name("test-ingress")
        .with_namespace("default")
        .with_path("/", "test-service", 80)
        .build();

    assert!(result.is_err());
    assert!(result.unwrap_err().to_string().contains("Host is required"));
}

#[test]
fn test_ingress_builder_validation_missing_paths() {
    let result = IngressBuilder::new()
        .with_name("test-ingress")
        .with_namespace("default")
        .with_host("example.com")
        .build();

    assert!(result.is_err());
    assert!(result.unwrap_err().to_string().contains("path is required"));
}

#[test]
fn test_ingress_builder_with_annotations() {
    let annotations = text_map(&[
        ("nginx.ingress.kubernetes.io/rewrite-target", "/$2"),
        ("cert-manager.io/cluster-issuer", "letsencrypt-prod"),
    ]);

    let ingress = IngressBuilder::new()
        .with_name("annotated-ingress")
        .with_namespace("default")
        .with_host("example.com")
        .with_path("/", "test-service", 80)
        .with_annotations(annotations.clone())
        .build()
        .expect("Should build ingress with annotations");

    assert_eq!(ingress.metadata.annotations.as_ref().unwrap(), &annotations);
}

#[test]
fn test_ingress_builder_with_ingress_class() {
    let ingress = IngressBuilder::new()
        .with_name("class-ingress")
        .with_namespace("default")
        .with_host("example.com")
        .with_path("/", "test-service", 80)
        .with_ingress_class("nginx")
        .build()
        .expect("Should build ingress with ingress class");

    assert_eq!(ingress.spec.as_ref().unwrap().ingress_class_name.as_ref().unwrap(), "nginx");
}

#[test]
fn test_ingress_path_default() {
    let path = IngressPath::default();
    assert_eq!(path.path, "/");
    assert_eq!(path.path_type, PathType::Prefix);
    assert_eq!(path.service_name, "");
    assert_eq!(path.service_port, 80);
}

#[test]
fn test_tls_config_default() {
    let tls = TLSConfig::default();
    assert!(tls.hosts.is_empty());
    assert_eq!(tls.secret_name, "");
}

#[test]
fn test_ingress_builder_path_order_and_backend() {
    let ingress = IngressBuilder::new()
        .with_name("ordered")
        .with_namespace("default")
        .with_host("example.com")
        .with_path("/a", "svc-a", 81)
        .with_path("/b", "svc-b", 82)
        .build()
        .expect("builds");
    let rules = ingress.spec.as_ref().unwrap().rules.as_ref().unwrap();
    assert_eq!(rules[0].host, Some("example.com".to_string()));
    let paths = &rules[0].http.as_ref().unwrap().paths;
    assert_eq!(paths[0].path, Some("/a".to_string()));
    assert_eq!(paths[1].path, Some("/b".to_string()));
    assert_eq!(paths[0].path_type, "Prefix");
    let backend = paths[1].backend.service.as_ref().unwrap();
    assert_eq!(backend.name, "svc-b");
    assert_eq!(backend.port.as_ref().unwrap().number, Some(82));
}

#[test]
fn test_service_builder_clusterip() {
    let selector = text_map(&[("app", "test")]);

    let service = ServiceBuilder::new()
        .with_name("test-service")
        .with_namespace("default")
        .with_port(80, 8080, "TCP")
        .with_selector(selector.clone())
        .with_type(ServiceType::ClusterIP)
        .build()
        .expect("Should build service");

    assert_eq!(service.metadata.name, Some("test-service".to_string()));
    assert_eq!(service.metadata.namespace, Some("default".to_string()));
    assert_eq!(service.spec.as_ref().unwrap().type_, Some("ClusterIP".to_string()));
    assert_eq!(service.spec.as_ref().unwrap().ports.as_ref().unwrap().len(), 1);
    assert_eq!(service.spec.as_ref().unwrap().selector.as_ref().unwrap(), &selector);
}

#[test]
fn test_service_builder_headless() {
    let selector = text_map(&[("app", "stateful")]);

    let service = ServiceBuilder::new()
        .with_name("headless-service")
        .with_namespace("default")
        .with_port(80, 8080, "TCP")
        .with_selector(selector)
        .with_type(ServiceType::Headless)
        .build()
        .expect("Should build headless service");

    assert_eq!(service.spec.as_ref().unwrap().cluster_ip, Some("None".to_string()));
    assert_eq!(service.spec.as_ref().unwrap().type_, Some("ClusterIP".to_string()));
}

#[test]
fn test_service_builder_nodeport() {
    let selector = text_map(&[("app", "test")]);

    let service = ServiceBuilder::new()
        .with_name("nodeport-service")
        .with_namespace("default")
        .with_port(80, 8080, "TCP")
        .with_selector(selector)
        .with_type(ServiceType::NodePort)
        .build()
        .expect("Should build NodePort service");

    assert_eq!(service.spec.as_ref().unwrap().type_, Some("NodePort".to_string()));
}

#[test]
fn test_service_builder_loadbalancer() {
    let selector = text_map(&[("app", "test")]);

    let service = ServiceBuilder::new()
        .with_name("lb-service")
        .with_namespace("default")
        .with_port(80, 8080, "TCP")
        .with_selector(selector)
        .with_type(ServiceType::LoadBalancer)
        .build()
        .expect("Should build LoadBalancer service");

    assert_eq!(service.spec.as_ref().unwrap().type_, Some("LoadBalancer".to_string()));
}

#[test]
fn test_service_builder_validation_missing_name() {
    let result = ServiceBuilder::new().with_namespace("default").with_port(80, 8080, "TCP").build();

    assert!(result.is_err());
    assert!(result.unwrap_err().to_string().contains("name is required"));
}

#[test]
fn test_service_builder_validation_missing_namespace() {
    let result = ServiceBuilder::new().with_name("test-service").with_port(80, 8080, "TCP").build();

    assert!(result.is_err());
    assert!(result.unwrap_err().to_string().contains("namespace is required"));
}

#[test]
fn test_service_builder_multiple_ports() {
    let selector = text_map(&[("app", "test")]);

    let ports = vec![
        ServicePort {
            port: 80,
            target_port: 8080,
            protocol: "TCP".to_string(),
            name: Some("http".to_string()),
        },
        ServicePort {
            port: 443,
            target_port: 8443,
            protocol: "TCP".to_string(),
            name: Some("https".to_string()),
        },
    ];

    let service = ServiceBuilder::new()
        .with_name("multi-port-service")
        .with_namespace("default")
        .with_ports(ports)
        .with_selector(selector)
        .build()
        .expect("Should build service with multiple ports");

    assert_eq!(service.spec.as_ref().unwrap().ports.as_ref().unwrap().len(), 2);
}

#[test]
fn test_service_builder_advanced_options() {
    let selector = text_map(&[("app", "test")]);

    let service = ServiceBuilder::new()
        .with_name("advanced-service")
        .with_namespace("default")
        .with_port(80, 8080, "TCP")
        .with_selector(selector)
        .with_session_affinity("ClientIP")
        .with_external_traffic_policy("Local")
        .build()
        .expect("Should build service with advanced options");

    assert_eq!(service.spec.as_ref().unwrap().session_affinity.as_ref().unwrap(), "ClientIP");
    assert_eq!(service.spec.as_ref().unwrap().external_traffic_policy.as_ref().unwrap(), "Local");
}

#[test]
fn test_service_port_default() {
    let port = ServicePort::default();
    assert_eq!(port.port, 80);
    assert_eq!(port.target_port, 8080);
    assert_eq!(port.protocol, "TCP");
    assert!(port.name.is_none());
}

#[test]
fn test_service_builder_port_forms() {
    let service = ServiceBuilder::new()
        .with_name("ports")
        .with_namespace("ns")
        .with_port(80, 8080, "UDP")
        .build()
        .expect("builds");
    let spec = service.spec.as_ref().unwrap();
    let port = &spec.ports.as_ref().unwrap()[0];
    assert_eq!(port.port, 80);
    assert_eq!(port.target_port, Some(8080));
    assert_eq!(port.protocol, Some("UDP".to_string()));
    assert!(spec.selector.is_none());
    assert!(spec.cluster_ip.is_none());
}
