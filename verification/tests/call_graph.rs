use leo_lang::passes::call_graph::CallGraph;

#[test]
fn call_graph_without_edges_has_no_cycle() {
    let graph = CallGraph::new(vec![0, 1, 2]);
    assert!(!graph.contains_cycle());
    assert!(!CallGraph::new(vec![]).contains_cycle());
}

#[test]
fn call_graph_calls_without_recursion() {
    // main calls foo and bar, both call baz: no function calls itself, directly or not.
    let mut graph = CallGraph::new(vec![0, 1, 2, 3]);
    graph.add_edge(0, 1);
    graph.add_edge(0, 2);
    graph.add_edge(1, 3);
    graph.add_edge(2, 3);
    graph.add_edge(1, 3);
    assert!(!graph.contains_cycle());
}

#[test]
fn call_graph_detects_self_call() {
    let mut graph = CallGraph::new(vec![0, 1]);
    graph.add_edge(0, 1);
    graph.add_edge(1, 1);
    assert!(graph.contains_cycle());
}

#[test]
fn call_graph_detects_mutual_recursion() {
    let mut graph = CallGraph::new(vec![0, 1, 2, 3]);
    graph.add_edge(0, 1);
    graph.add_edge(1, 2);
    graph.add_edge(2, 3);
    graph.add_edge(3, 1);
    assert!(graph.contains_cycle());
}

#[test]
fn call_graph_cycle_unreached_from_sources() {
    // 5 and 6 call each other, but no source reaches them.
    let mut graph = CallGraph::new(vec![0]);
    graph.add_edge(0, 1);
    graph.add_edge(5, 6);
    graph.add_edge(6, 5);
    assert!(!graph.contains_cycle());
    graph.add_edge(1, 5);
    assert!(graph.contains_cycle());
}
