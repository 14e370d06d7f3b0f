use k8s_maestro::collections::OrderedMap;
use k8s_maestro::steps::result::{JsonValue, StepResult, StepStatus};
use k8s_maestro::workflows::dependency::chain::DependencyChain;
use k8s_maestro::workflows::dependency::condition::ConditionBuilder;
use k8s_maestro::workflows::dependency::dag::DependencyGraph;
use k8s_maestro::workflows::dependency::topological_sort::{detect_cycles, topological_sort};

fn create_result(step_id: &str, status: StepStatus) -> StepResult {
    StepResult::new(step_id).with_status(status)
}

fn create_result_with_output(step_id: &str, key: &str, value: JsonValue) -> StepResult {
    StepResult::new(step_id).with_output(key, value)
}

fn create_graph_from_edges(nodes: Vec<&str>, edges: Vec<(&str, &str)>) -> DependencyGraph {
    let mut graph = DependencyGraph::new();
    for node in nodes {
        graph.add_node(node.to_string());
    }
    for (from, to) in edges {
        graph.add_edge(from.to_string(), to.to_string());
    }
    graph
}

fn create_graph(nodes: Vec<&str>, edges: Vec<(&str, &str)>) -> DependencyGraph {
    DependencyGraph {
        nodes: nodes.into_iter().map(String::from).collect(),
        edges: edges.into_iter().map(|(a, b)| (a.to_string(), b.to_string())).collect(),
        conditions: OrderedMap::new(),
        depends_on_any: OrderedMap::new(),
    }
}

#[test]
fn test_new_chain() {
    let chain = DependencyChain::new();
    assert!(chain.is_empty());
    assert_eq!(chain.len(), 0);
}

#[test]
fn test_add_step() {
    let mut chain = DependencyChain::new();
    chain.add_step("A");
    chain.add_step("B");
    assert_eq!(chain.len(), 2);
    assert!(!chain.is_empty());
}

#[test]
fn test_with_dependency_simple() {
    let mut chain = DependencyChain::new();
    chain.add_step("A");
    chain.add_step("B").with_dependency("A");

    let step = chain.get_step(1).unwrap();
    assert_eq!(step.step_id, "B");
    assert_eq!(step.depends_on, vec!["A"]);
    assert!(!step.depends_on_any);
}

#[test]
fn test_with_conditional_dependency() {
    let mut chain = DependencyChain::new();
    chain.add_step("A");
    chain.add_step("B").with_conditional_dependency("A", ConditionBuilder::all_success());

    let step = chain.get_step(1).unwrap();
    assert_eq!(step.step_id, "B");
    assert_eq!(step.depends_on, vec!["A"]);
    assert!(step.condition.is_some());
    assert!(!step.depends_on_any);
}

#[test]
fn test_with_dependency_any() {
    let mut chain = DependencyChain::new();
    chain.add_step("A");
    chain.add_step("B");
    chain.add_step("C").with_dependency_any(vec!["A", "B"]);

    let step = chain.get_step(2).unwrap();
    assert_eq!(step.step_id, "C");
    assert_eq!(step.depends_on.len(), 2);
    assert!(step.depends_on.contains(&"A".to_string()));
    assert!(step.depends_on.contains(&"B".to_string()));
    assert!(step.depends_on_any);
}

#[test]
fn test_build_dag_simple_chain() {
    let mut chain = DependencyChain::new();
    chain.add_step("A");
    chain.add_step("B").with_dependency("A");
    chain.add_step("C").with_dependency("B");

    let graph = chain.clone().build_dag().unwrap();
    assert_eq!(graph.nodes.len(), 3);
    assert_eq!(graph.edges.len(), 2);
}

#[test]
fn test_build_dag_topological_sort() {
    let mut chain = DependencyChain::new();
    chain.add_step("A");
    chain.add_step("B").with_dependency("A");
    chain.add_step("C").with_dependency("B");

    let graph = chain.clone().build_dag().unwrap();
    let levels = graph.topological_sort().unwrap();
    assert_eq!(levels, vec![vec!["A"], vec!["B"], vec!["C"]]);
}

#[test]
fn test_chain_single_step() {
    let mut chain = DependencyChain::new();
    chain.add_step("A");
    let graph = chain.clone().build_dag().unwrap();
    assert_eq!(graph.nodes.len(), 1);
    assert_eq!(graph.edges.len(), 0);
}

#[test]
fn test_all_success_all_succeed() {
    let deps = vec![create_result("A", StepStatus::Success), create_result("B", StepStatus::Success)];
    let condition = ConditionBuilder::all_success();
    assert!(condition.evaluate(&deps));
}

#[test]
fn test_any_success_one_succeeds() {
    let deps = vec![create_result("A", StepStatus::Success), create_result("B", StepStatus::Failure)];
    let condition = ConditionBuilder::any_success();
    assert!(condition.evaluate(&deps));
}

#[test]
fn test_output_greater_than_passes() {
    let deps = vec![create_result_with_output("A", "data_size", JsonValue::Number(1500))];
    let condition = ConditionBuilder::output_greater_than("data_size", 1000);
    assert!(condition.evaluate(&deps));
}

#[test]
fn test_output_greater_than_fails_at_threshold() {
    let deps = vec![create_result_with_output("A", "data_size", JsonValue::Number(1000))];
    assert!(!ConditionBuilder::output_greater_than("data_size", 1000).evaluate(&deps));
    let missing = vec![create_result("A", StepStatus::Success)];
    assert!(!ConditionBuilder::output_greater_than("data_size", 0).evaluate(&missing));
}

fn nested_value(tag: &str) -> JsonValue {
    JsonValue::Object(vec![
        ("items".to_string(), JsonValue::Array(vec![JsonValue::Number(1), JsonValue::Null, JsonValue::Bool(true)])),
        ("tag".to_string(), JsonValue::String(tag.to_string())),
    ])
}

#[test]
fn test_output_equals_nested_values() {
    let deps = vec![create_result_with_output("A", "summary", nested_value("x"))];
    assert!(ConditionBuilder::output_equals("summary", nested_value("x")).evaluate(&deps));
    assert!(!ConditionBuilder::output_equals("summary", nested_value("y")).evaluate(&deps));
    let shorter = JsonValue::Object(vec![("tag".to_string(), JsonValue::String("x".to_string()))]);
    assert!(!ConditionBuilder::output_equals("summary", shorter).evaluate(&deps));
    assert!(!ConditionBuilder::output_equals("summary", JsonValue::Array(vec![])).evaluate(&deps));
}

#[test]
fn test_json_value_copies_and_comparisons() {
    let v = nested_value("x");
    let copy = v.duplicate();
    assert_eq!(copy, v);
    assert!(copy.same_as(&v));
    assert_eq!(v.clone(), v);
    assert!(!v.same_as(&nested_value("z")));
    let a = JsonValue::Array(vec![JsonValue::Number(1), JsonValue::Number(2)]);
    let b = JsonValue::Array(vec![JsonValue::Number(1), JsonValue::Number(3)]);
    assert!(!a.same_as(&b));
    assert!(a.same_as(&a.duplicate()));
    assert_eq!(a.as_i64(), None);
}

#[test]
fn test_add_node() {
    let mut graph = DependencyGraph::new();
    graph.add_node("A".to_string());
    graph.add_node("B".to_string());
    assert_eq!(graph.nodes.len(), 2);
}

#[test]
fn dag_test_topological_sort_simple_chain() {
    let graph = create_graph_from_edges(vec!["A", "B", "C"], vec![("A", "B"), ("B", "C")]);
    let levels = graph.topological_sort().unwrap();
    assert_eq!(levels, vec![vec!["A"], vec!["B"], vec!["C"]]);
}

#[test]
fn dag_test_cycle_detection_no_cycle() {
    let graph = create_graph_from_edges(vec!["A", "B", "C"], vec![("A", "B"), ("B", "C")]);
    assert!(graph.detect_cycles().is_ok());
}

#[test]
fn topological_sort_test_topological_sort_simple_chain() {
    let graph = create_graph(vec!["A", "B", "C"], vec![("A", "B"), ("B", "C")]);
    let levels = topological_sort(&graph).unwrap();
    assert_eq!(levels, vec![vec!["A"], vec!["B"], vec!["C"]]);
}

#[test]
fn test_topological_sort_parallel() {
    let graph = create_graph(vec!["A", "B", "C", "D"], vec![("A", "D"), ("B", "D"), ("C", "D")]);
    let levels = topological_sort(&graph).unwrap();
    assert_eq!(levels.len(), 2);
}

#[test]
fn test_cycle_detection_simple_cycle() {
    let graph = create_graph(vec!["A", "B", "C"], vec![("A", "B"), ("B", "C"), ("C", "A")]);
    assert!(detect_cycles(&graph).is_err());
}

#[test]
fn topological_sort_test_cycle_detection_no_cycle() {
    let graph = create_graph(vec!["A", "B", "C"], vec![("A", "B"), ("B", "C")]);
    assert!(detect_cycles(&graph).is_ok());
}

#[test]
fn test_dependencies_mirror_dependents() {
    let graph = create_graph_from_edges(vec!["A", "B", "C"], vec![("A", "C"), ("B", "C")]);
    assert_eq!(graph.get_dependencies("C"), vec!["A".to_string(), "B".to_string()]);
    assert_eq!(graph.get_dependents("A"), vec!["C".to_string()]);
    assert_eq!(graph.get_dependents("B"), vec!["C".to_string()]);
    assert!(graph.get_dependencies("A").is_empty());
}
