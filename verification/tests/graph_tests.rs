use pksc::builtin::graph::{BuildGraph, GraphError};

fn graph_of(names: &[&str], deps: &[(&str, &str)]) -> BuildGraph {
    let mut g = BuildGraph::new();
    for n in names {
        g.add_node(n.to_string());
    }
    for (a, b) in deps {
        g.add_dependency(&a.to_string(), &b.to_string()).unwrap();
    }
    g
}

/// Runs the graph, with `dirty` saying which nodes run their action, and
/// returns the nodes in the order they were visited.
fn visit_all(g: &BuildGraph, dirty: &[usize]) -> Vec<usize> {
    let mut run = g.exec().unwrap();
    let mut seen = Vec::new();
    while let Some(v) = run.next_node() {
        seen.push(v);
        if dirty.contains(&v) {
            run.node_was_dirty(g, v);
        }
    }
    seen
}

#[test]
fn add_node_numbers_nodes_in_order() {
    let mut g = BuildGraph::new();
    assert_eq!(g.len(), 0);
    assert_eq!(g.add_node("a".to_string()), 0);
    assert_eq!(g.add_node("b".to_string()), 1);
    assert_eq!(g.len(), 2);
}

#[test]
fn node_index_finds_named_node() {
    let g = graph_of(&["a", "b", "c"], &[]);
    assert_eq!(g.node_index(&"b".to_string()).unwrap(), 1);
}

#[test]
fn later_node_takes_over_a_name() {
    let g = graph_of(&["a", "b", "a"], &[]);
    assert_eq!(g.node_index(&"a".to_string()).unwrap(), 2);
}

#[test]
fn node_index_of_unknown_name() {
    let g = graph_of(&["a"], &[]);
    let err = g.node_index(&"zzz".to_string()).unwrap_err();
    match &err {
        GraphError::NodeNotFound { name } => assert_eq!(name, "zzz"),
        GraphError::Cycle => panic!("wrong error"),
    }
    assert_eq!(err.message(), "Node 'zzz' not found");
}

#[test]
fn add_dependency_reports_first_unknown_name() {
    let mut g = graph_of(&["a"], &[]);
    match g.add_dependency(&"x".to_string(), &"y".to_string()) {
        Err(GraphError::NodeNotFound { name }) => assert_eq!(name, "x"),
        _ => panic!("expected a missing node"),
    }
    match g.add_dependency(&"a".to_string(), &"y".to_string()) {
        Err(GraphError::NodeNotFound { name }) => assert_eq!(name, "y"),
        _ => panic!("expected a missing node"),
    }
}

#[test]
fn exec_refuses_a_cycle() {
    let g = graph_of(&["a", "b"], &[("a", "b"), ("b", "a")]);
    let err = g.exec().err().expect("a cycle has no order");
    assert!(matches!(err, GraphError::Cycle));
}

#[test]
fn exec_refuses_a_self_loop() {
    let g = graph_of(&["a"], &[("a", "a")]);
    assert!(g.exec().is_err());
}

#[test]
fn clean_run_visits_in_dependency_order() {
    let g = graph_of(&["c", "b", "a"], &[("a", "b"), ("b", "c")]);
    let seen = visit_all(&g, &[]);
    assert_eq!(seen, vec![2, 1, 0]);
}

#[test]
fn every_node_visited_exactly_once() {
    let g = graph_of(
        &["a", "b", "c", "d", "e"],
        &[("a", "b"), ("a", "c"), ("b", "d"), ("c", "d"), ("d", "e")],
    );
    for dirty in [vec![], vec![0], vec![0, 1, 2, 3, 4], vec![2, 3]] {
        let mut seen = visit_all(&g, &dirty);
        assert_eq!(seen.len(), 5);
        seen.sort();
        assert_eq!(seen, vec![0, 1, 2, 3, 4]);
    }
}

#[test]
fn dirty_node_leads_to_its_dependents_next() {
    // a -> b, a -> c, and c -> d; the edge to c was added last, so c is
    // visited first, and d, which the dirty c leads to, before b.
    let g = graph_of(&["a", "b", "c", "d"], &[("a", "b"), ("a", "c"), ("c", "d")]);
    let seen = visit_all(&g, &[0, 2]);
    assert_eq!(seen, vec![0, 2, 3, 1]);
}

#[test]
fn empty_graph_run_ends_at_once() {
    let g = BuildGraph::new();
    let mut run = g.exec().unwrap();
    assert_eq!(run.next_node(), None);
    assert_eq!(run.next_node(), None);
}
