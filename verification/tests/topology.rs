use tpt_ignis::topology::{Component, ReactorGraph};

#[test]
fn dependents_trace_cooling_failure() {
    let mut g = ReactorGraph::new();
    g.add(Component::new("pump_a", "pump"));
    g.add(Component::new("magnet_seg_1", "hts_magnet").cools_from(&["pump_a"]));
    g.add(Component::new("magnet_seg_2", "hts_magnet").cools_from(&["magnet_seg_1"]));
    let deps = g.dependents_of("pump_a");
    assert!(deps.contains(&"magnet_seg_1".to_string()));
    assert!(deps.contains(&"magnet_seg_2".to_string()));
}

#[test]
fn mock_reactor_has_expected_topology() {
    let g = ReactorGraph::mock_reactor();
    assert_eq!(g.len(), 8);
    // Cryoplant feeds both pumps; both pumps feed hts_seg_3.
    let from_cryo = g.dependents_of("cryoplant");
    assert!(from_cryo.contains(&"pump_a".to_string()));
    assert!(from_cryo.contains(&"pump_b".to_string()));
    assert!(from_cryo.contains(&"hts_seg_3".to_string()));
    assert!(from_cryo.contains(&"divertor".to_string()));
}

#[test]
fn dependents_are_exactly_the_reachable_components() {
    let g = ReactorGraph::mock_reactor();
    let mut deps = g.dependents_of("pump_a");
    deps.sort();
    assert_eq!(deps, vec!["divertor", "hts_seg_1", "hts_seg_3"]);
    assert!(g.dependents_of("vessel").is_empty());
    assert!(g.dependents_of("nothing").is_empty());
}

#[test]
fn dependents_handle_cycles_without_duplicates() {
    let mut g = ReactorGraph::new();
    g.add(Component::new("a", "x").cools_from(&["c"]));
    g.add(Component::new("b", "x").cools_from(&["a"]));
    g.add(Component::new("c", "x").cools_from(&["b", "a"]));
    let mut deps = g.dependents_of("a");
    deps.sort();
    assert_eq!(deps, vec!["a", "b", "c"]);
}

#[test]
fn add_replaces_component_with_same_id() {
    let mut g = ReactorGraph::new();
    g.add(Component::new("p", "pump"));
    g.add(Component::new("p", "spare_pump"));
    assert_eq!(g.len(), 1);
    assert_eq!(g.components()[0].kind(), "spare_pump");
}

#[test]
fn add_registers_one_edge_per_dependency() {
    let mut g = ReactorGraph::new();
    g.add(Component::new("m", "magnet").cools_from(&["p1", "p2"]));
    let edges: Vec<(String, String)> = g.edges().clone();
    assert_eq!(
        edges,
        vec![("p1".to_string(), "m".to_string()), ("p2".to_string(), "m".to_string())]
    );
}

#[test]
fn ddl_and_cascade_sql() {
    let ddl = ReactorGraph::ddl();
    assert_eq!(ddl.len(), 2);
    assert!(ddl[0].starts_with("CREATE TABLE reactor_component ("));
    assert!(ddl[1].starts_with("CREATE TABLE reactor_cooling_edge ("));
    let sql = ReactorGraph::dependents_sql("pump_a");
    assert!(sql.starts_with("WITH RECURSIVE dep(to_id) AS ("));
    assert!(sql.contains("WHERE from_id = 'pump_a'"));
    assert!(sql.ends_with(") SELECT to_id FROM dep"));
}

#[test]
fn cascade_sql_quotes_the_start_id() {
    let sql = ReactorGraph::dependents_sql("x' OR '1'='1");
    assert!(sql.contains("WHERE from_id = 'x'' OR ''1''=''1'\n"));
    assert!(sql.ends_with(") SELECT to_id FROM dep"));
}
