use bloxml::graph::node::{Node, Relation, Type};
use bloxml::graph::rgraph::RustGraph;

fn contains_parents(graph: &RustGraph, idx: usize) -> usize {
    let mut count = 0;
    for e in 0..graph.edge_count() {
        let (_, b, rel) = graph.edge(e).unwrap();
        if b == idx && rel == Relation::Contains {
            count += 1;
        }
    }
    count
}

fn find_hierarchy_roots(graph: &RustGraph) -> Vec<usize> {
    (0..graph.node_count())
        .filter(|&idx| contains_parents(graph, idx) == 0)
        .collect()
}

fn validate_module_hierarchy(graph: &RustGraph) -> Result<(), String> {
    if graph.is_cyclic() {
        return Err("Module hierarchy contains cycles".to_string());
    }
    graph
        .topological_sort()
        .map_err(|_| "Cannot create topological ordering".to_string())?;
    for idx in 0..graph.node_count() {
        let parents = contains_parents(graph, idx);
        if parents > 1 {
            return Err(format!("Node {idx} has multiple parents ({parents})"));
        }
    }
    let containment_nodes: Vec<usize> = (0..graph.node_count())
        .filter(|&idx| {
            (0..graph.edge_count()).any(|e| {
                let (a, b, rel) = graph.edge(e).unwrap();
                rel == Relation::Contains && (a == idx || b == idx)
            })
        })
        .collect();
    if containment_nodes.len() > 1 {
        let containment_edge_count = (0..graph.edge_count())
            .filter(|&e| graph.edge(e).unwrap().2 == Relation::Contains)
            .count();
        let root_count = containment_nodes
            .iter()
            .filter(|&&idx| contains_parents(graph, idx) == 0)
            .count();
        let expected_edges = containment_nodes.len() - root_count;
        if containment_edge_count != expected_edges {
            return Err(format!(
                "Invalid forest structure: {} nodes, {} roots, but {} containment edges (expected {})",
                containment_nodes.len(),
                root_count,
                containment_edge_count,
                expected_edges
            ));
        }
    }
    Ok(())
}

fn validate_node_path(graph: &RustGraph, idx: usize, expected: &str) -> Result<(), String> {
    let actual = graph.get_node_path(idx);
    if actual == expected {
        Ok(())
    } else {
        Err(format!("Path mismatch for node {idx}: expected '{expected}', got '{actual}'"))
    }
}

#[test]
fn test_basic_path_parsing() {
    let mut graph = RustGraph::new();
    let user_idx = graph.add_type_from_path("models::user::User");
    let user_node = graph.node(user_idx).unwrap();
    assert_eq!(user_node.name(), "User");
    assert!(matches!(user_node, Node::Type(_)));
}

#[test]
fn test_module_hierarchy_creation() {
    let mut graph = RustGraph::new();
    graph.add_type_from_path("utils::db::postgres::Connection");

    let utils = graph.find_by_name("utils");
    let db = graph.find_by_name("db");
    let postgres = graph.find_by_name("postgres");
    let connection = graph.find_by_name("Connection");

    assert_eq!(utils.len(), 1);
    assert_eq!(db.len(), 1);
    assert_eq!(postgres.len(), 1);
    assert_eq!(connection.len(), 1);

    let utils_idx = utils[0].index;
    let db_idx = db[0].index;
    let postgres_idx = postgres[0].index;
    let connection_idx = connection[0].index;

    assert!(matches!(graph.node(utils_idx).unwrap(), Node::Module(_)));
    assert!(matches!(graph.node(db_idx).unwrap(), Node::Module(_)));
    assert!(matches!(graph.node(postgres_idx).unwrap(), Node::Module(_)));
    assert!(matches!(graph.node(connection_idx).unwrap(), Node::Type(_)));

    assert_eq!(graph.node_count(), 4);

    validate_module_hierarchy(&graph).expect("Module hierarchy should be valid");

    let roots = find_hierarchy_roots(&graph);
    assert_eq!(roots.len(), 1);
    assert_eq!(roots[0], utils_idx);

    assert!(!graph.is_cyclic(), "Module hierarchy should be acyclic");

    let topo_order = graph
        .topological_sort()
        .expect("Should be able to topologically sort a valid hierarchy");
    assert_eq!(topo_order.len(), 4);

    let pos = |x: usize| topo_order.iter().position(|&y| y == x).unwrap();
    assert!(pos(utils_idx) < pos(db_idx), "utils should come before db in topological order");
    assert!(pos(db_idx) < pos(postgres_idx), "db should come before postgres in topological order");
    assert!(
        pos(postgres_idx) < pos(connection_idx),
        "postgres should come before Connection in topological order"
    );

    validate_node_path(&graph, utils_idx, "utils").expect("utils path should be correct");
    validate_node_path(&graph, db_idx, "utils::db").expect("db path should be correct");
    validate_node_path(&graph, postgres_idx, "utils::db::postgres")
        .expect("postgres path should be correct");
    validate_node_path(&graph, connection_idx, "utils::db::postgres::Connection")
        .expect("Connection path should be correct");
}

#[test]
fn test_module_reuse() {
    let mut graph = RustGraph::new();
    graph.add_type_from_path("utils::db::Connection");
    graph.add_type_from_path("utils::db::Query");

    let utils_modules = graph.find_by_name("utils");
    let db_modules = graph.find_by_name("db");
    assert_eq!(utils_modules.len(), 1);
    assert_eq!(db_modules.len(), 1);

    let connections = graph.find_by_name("Connection");
    let queries = graph.find_by_name("Query");
    assert_eq!(connections.len(), 1);
    assert_eq!(queries.len(), 1);

    let db_idx = db_modules[0].index;
    let db_contents = graph.find_connected_nodes(db_idx);
    assert_eq!(db_contents.len(), 2);
}

#[test]
fn test_different_node_types() {
    let mut graph = RustGraph::new();
    let struct_idx = graph.add_type_from_path("models::User");
    let enum_idx = graph.add_type_from_path("models::Status");
    let function_idx = graph.add_function_from_path("utils::validate");
    let trait_idx = graph.add_trait_from_path("traits::Database");

    assert!(matches!(graph.node(struct_idx).unwrap(), Node::Type(_)));
    assert!(matches!(graph.node(enum_idx).unwrap(), Node::Type(_)));
    assert!(matches!(graph.node(function_idx).unwrap(), Node::Function(_)));
    assert!(matches!(graph.node(trait_idx).unwrap(), Node::Trait(_)));

    assert_eq!(graph.node(struct_idx).unwrap().name(), "User");
    assert_eq!(graph.node(enum_idx).unwrap().name(), "Status");
    assert_eq!(graph.node(function_idx).unwrap().name(), "validate");
    assert_eq!(graph.node(trait_idx).unwrap().name(), "Database");
}

#[test]
fn test_path_reconstruction() {
    let mut graph = RustGraph::new();
    let connection_idx = graph.add_type_from_path("utils::db::Connection");
    let reconstructed_path = graph.get_node_path(connection_idx);
    assert_eq!(reconstructed_path, "utils::db::Connection");
}

#[test]
fn test_single_component_path() {
    let mut graph = RustGraph::new();
    let user_idx = graph.add_type_from_path("User");
    assert_eq!(graph.node(user_idx).unwrap().name(), "User");
    assert!(matches!(graph.node(user_idx).unwrap(), Node::Type(_)));
    let path = graph.get_node_path(user_idx);
    assert_eq!(path, "User");
}

#[test]
fn test_search_by_name() {
    let mut graph = RustGraph::new();
    graph.add_type_from_path("models::User");
    graph.add_type_from_path("admin::User");
    let users = graph.find_by_name("User");
    assert_eq!(users.len(), 2);
    let missing = graph.find_by_name("NonExistent");
    assert_eq!(missing.len(), 0);
}

#[test]
fn test_search_by_partial_name() {
    let mut graph = RustGraph::new();
    graph.add_type_from_path("models::User");
    graph.add_type_from_path("models::UserService");
    graph.add_type_from_path("admin::AdminUser");
    let user_matches = graph.find_by_partial_name("User");
    assert_eq!(user_matches.len(), 3);
    let service_matches = graph.find_by_partial_name("Service");
    assert_eq!(service_matches.len(), 1);
}

#[test]
fn test_search_by_type() {
    let mut graph = RustGraph::new();
    graph.add_type_from_path("models::User");
    graph.add_type_from_path("models::Status");
    graph.add_function_from_path("utils::validate");
    graph.add_trait_from_path("traits::Database");

    let types = graph.find_by_type("Type");
    let functions = graph.find_by_type("Function");
    let traits = graph.find_by_type("Trait");
    let modules = graph.find_by_type("Module");

    assert_eq!(types.len(), 2);
    assert_eq!(functions.len(), 1);
    assert_eq!(traits.len(), 1);
    assert!(modules.len() >= 3);
}

#[test]
fn test_search_by_pattern() {
    let mut graph = RustGraph::new();
    graph.add_type_from_path("models::UserData");
    graph.add_type_from_path("admin::AdminData");
    graph.add_function_from_path("utils::validate_data");

    let data_matches = graph.find_by_pattern("data");
    assert_eq!(data_matches.len(), 3);
    let data_upper_matches = graph.find_by_pattern("DATA");
    assert_eq!(data_upper_matches.len(), 3);
}

#[test]
fn test_connected_nodes() {
    let mut graph = RustGraph::new();
    let user_idx = graph.add_type_from_path("models::User");
    let service_idx = graph.add_type_from_path("services::UserService");
    graph.add_edge(service_idx, user_idx, Relation::Uses);

    let connected = graph.find_connected_nodes(service_idx);
    let uses_relationships: Vec<_> = connected
        .into_iter()
        .filter(|entry| entry.relation() == Relation::Uses)
        .collect();
    assert_eq!(uses_relationships.len(), 1);
    assert_eq!(uses_relationships[0].node().name(), "User");
}

#[test]
fn test_find_dependents() {
    let mut graph = RustGraph::new();
    let user_idx = graph.add_type_from_path("models::User");
    let service_idx = graph.add_type_from_path("services::UserService");
    let controller_idx = graph.add_type_from_path("controllers::UserController");

    graph.add_edge(service_idx, user_idx, Relation::Uses);
    graph.add_edge(controller_idx, user_idx, Relation::Uses);

    let dependent_names: Vec<String> = graph
        .find_dependents(user_idx)
        .into_iter()
        .filter_map(|entry| {
            if entry.relation() != Relation::Contains {
                Some(entry.node().name())
            } else {
                None
            }
        })
        .collect();

    assert_eq!(dependent_names.len(), 2);
    assert!(dependent_names.contains(&"UserService".to_string()));
    assert!(dependent_names.contains(&"UserController".to_string()));
}

#[test]
fn test_find_paths() {
    let mut graph = RustGraph::new();
    let a_idx = graph.add_type_from_path("A");
    let b_idx = graph.add_type_from_path("B");
    let c_idx = graph.add_type_from_path("C");

    graph.add_edge(a_idx, b_idx, Relation::Uses);
    graph.add_edge(b_idx, c_idx, Relation::Uses);

    let paths = graph.find_paths(a_idx, c_idx);
    assert_eq!(paths.len(), 1);
    assert_eq!(paths[0], vec![a_idx, b_idx, c_idx]);

    let paths_ab = graph.find_paths(a_idx, b_idx);
    assert_eq!(paths_ab.len(), 1);
    assert_eq!(paths_ab[0], vec![a_idx, b_idx]);

    let paths_self = graph.find_paths(a_idx, a_idx);
    assert_eq!(paths_self.len(), 1);
    assert_eq!(paths_self[0], vec![a_idx]);
}

#[test]
fn test_empty_path() {
    let mut graph = RustGraph::new();
    let idx = graph.add_from_path("", Node::Type(Type::new("Test".to_string(), "Test".to_string())));
    assert_eq!(graph.node(idx).unwrap().name(), "Test");
    let path = graph.get_node_path(idx);
    assert_eq!(path, "Test");
}

#[test]
fn test_complex_hierarchy() {
    let mut graph = RustGraph::new();
    graph.add_type_from_path("web::api::v1::users::User");
    graph.add_type_from_path("web::api::v1::posts::Post");
    graph.add_type_from_path("web::api::v2::users::User");
    graph.add_function_from_path("web::middleware::auth::verify");

    let v1_modules = graph.find_by_name("v1");
    let v2_modules = graph.find_by_name("v2");
    let users_modules = graph.find_by_name("users");
    let user_structs = graph.find_by_name("User");

    assert_eq!(v1_modules.len(), 1);
    assert_eq!(v2_modules.len(), 1);
    assert_eq!(users_modules.len(), 2);
    assert_eq!(user_structs.len(), 2);

    if let Some(user_entry) = user_structs.first() {
        let path = graph.get_node_path(user_entry.index);
        assert!(path.contains("User"));
    }
}

#[test]
fn test_petgraph_hierarchy_validation() {
    let mut graph = RustGraph::new();
    graph.add_type_from_path("utils::db::Connection");

    assert!(validate_module_hierarchy(&graph).is_ok());
    assert!(!graph.is_cyclic(), "Module hierarchy should be acyclic");

    let roots = find_hierarchy_roots(&graph);
    assert_eq!(roots.len(), 1);

    assert!(graph.topological_sort().is_ok());

    let utils = graph.find_by_name("utils")[0].index;
    let connection = graph.find_by_name("Connection")[0].index;

    graph.add_edge(connection, utils, Relation::Contains);

    assert!(graph.is_cyclic(), "Should detect cycle");
    assert!(
        validate_module_hierarchy(&graph).is_err(),
        "Should detect invalid hierarchy"
    );

    let mut graph2 = RustGraph::new();
    graph2.add_type_from_path("utils::db::Connection");
    graph2.add_type_from_path("models::User");

    let roots2 = find_hierarchy_roots(&graph2);
    assert_eq!(roots2.len(), 2, "Should have two root nodes");

    assert!(
        validate_module_hierarchy(&graph2).is_ok(),
        "Forest should be valid"
    );
    assert!(!graph2.is_cyclic());
}

#[test]
fn test_path_indexing_actual_failure() {
    let mut graph = RustGraph::new();
    graph.add_type_from_path("utils::db::Connection");
    graph.add_type_from_path("utils::validation::EmailValidator");
    graph.add_type_from_path("models::db::User");

    let _db_modules = graph.find_by_name("db");

    let utils_db_by_path = graph.find_module_by_path_hierarchical("utils::db");
    let models_db_by_path = graph.find_module_by_path_hierarchical("models::db");

    if let (Some(utils_idx), Some(models_idx)) = (utils_db_by_path, models_db_by_path) {
        let utils_path = graph.get_node_path(utils_idx);
        let models_path = graph.get_node_path(models_idx);
        assert_eq!(utils_path, "utils::db");
        assert_eq!(models_path, "models::db");
    }

    assert!(graph.find_module_by_path_hierarchical("utils::db").is_some());
    assert!(graph.find_module_by_path_hierarchical("models::db").is_some());
    // Lookups start from root modules: the nested `db` modules need their full path.
    assert!(graph.find_module_by_path_hierarchical("db").is_none());

    let test_paths = ["utils", "models", "utils::db", "models::db"];
    for path in &test_paths {
        assert!(graph.find_module_by_path_hierarchical(path).is_some());
    }
}

#[test]
fn test_hierarchical_path_resolution() {
    let mut graph = RustGraph::new();
    graph.add_type_from_path("utils::db::Connection");
    graph.add_type_from_path("utils::validation::EmailValidator");
    graph.add_type_from_path("models::db::User");

    let utils_modules = graph.find_by_name("utils");
    let db_modules = graph.find_by_name("db");
    let models_modules = graph.find_by_name("models");

    assert_eq!(utils_modules.len(), 1, "Should find utils module");
    assert_eq!(db_modules.len(), 2, "Should find both db modules");
    assert_eq!(models_modules.len(), 1, "Should find models module");

    let utils_db = graph.find_module_by_path_hierarchical("utils::db");
    let models_db = graph.find_module_by_path_hierarchical("models::db");
    let utils_validation = graph.find_module_by_path_hierarchical("utils::validation");

    assert!(utils_db.is_some(), "Should find utils::db via graph traversal");
    assert!(models_db.is_some(), "Should find models::db via graph traversal");
    assert!(utils_validation.is_some(), "Should find utils::validation via graph traversal");

    assert_ne!(
        utils_db.unwrap(),
        models_db.unwrap(),
        "utils::db and models::db should be different modules"
    );

    let utils_db_path = graph.get_node_path(utils_db.unwrap());
    let models_db_path = graph.get_node_path(models_db.unwrap());
    assert_eq!(utils_db_path, "utils::db");
    assert_eq!(models_db_path, "models::db");
}

#[test]
fn path_round_trip_nested() {
    let mut graph = RustGraph::new();
    let idx = graph.add_type_from_path("a::b::c::Type");
    assert_eq!(graph.get_node_path(idx), "a::b::c::Type");
    assert_eq!(graph.node(idx).unwrap().name(), "Type");
    assert_eq!(graph.get_node_path(graph.node_count() + 3), "");
}

#[test]
fn module_reuse_generic_names() {
    let mut graph = RustGraph::new();
    graph.add_type_from_path("a::b::X");
    graph.add_type_from_path("a::b::Y");
    assert_eq!(graph.find_by_name("a").len(), 1);
    assert_eq!(graph.find_by_name("b").len(), 1);
    assert_eq!(graph.node_count(), 4);
    assert_eq!(graph.edge_count(), 3);
}

#[test]
fn disambiguation_same_leaf_module() {
    let mut graph = RustGraph::new();
    graph.add_type_from_path("utils::db::Connection");
    graph.add_type_from_path("models::db::User");
    let u = graph.find_module_by_path_hierarchical("utils::db").unwrap();
    let m = graph.find_module_by_path_hierarchical("models::db").unwrap();
    assert_ne!(u, m);
    assert_eq!(graph.get_node_path(u), "utils::db");
    assert_eq!(graph.get_node_path(m), "models::db");
    assert!(graph.find_module_by_path_hierarchical("utils::missing").is_none());
    assert!(graph.find_module_by_path_hierarchical("").is_none());
}

#[test]
fn forest_after_many_insertions() {
    let mut graph = RustGraph::new();
    for p in [
        "a::b::c::T",
        "a::b::U",
        "x::b::c::V",
        "a::c::W",
        "Solo",
        "a::b::c::T",
        "m::*",
    ] {
        graph.add_type_from_path(p);
    }
    graph.add_function_from_path("a::f");
    graph.add_trait_from_path("x::Tr");
    for idx in 0..graph.node_count() {
        assert!(contains_parents(&graph, idx) <= 1);
    }
    let mut contains_only = RustGraph::new();
    for idx in 0..graph.node_count() {
        contains_only.add_node(graph.node(idx).unwrap().duplicate());
    }
    for e in 0..graph.edge_count() {
        let (a, b, rel) = graph.edge(e).unwrap();
        if rel == Relation::Contains {
            assert!(a < b);
            contains_only.add_edge(a, b, rel);
        }
    }
    assert!(!contains_only.is_cyclic());
}

#[test]
fn cycle_detection_three_nodes() {
    let mut graph = RustGraph::new();
    let a = graph.add_type_from_path("A");
    let b = graph.add_type_from_path("B");
    let c = graph.add_type_from_path("C");
    graph.add_edge(a, b, Relation::Uses);
    graph.add_edge(b, c, Relation::Uses);
    assert!(!graph.is_cyclic());
    graph.add_edge(c, a, Relation::Uses);
    assert!(graph.is_cyclic());
    match graph.topological_sort() {
        Err(v) => assert!(v == a || v == b || v == c),
        Ok(_) => panic!("a cyclic graph has no topological order"),
    }
    let sccs = graph.strongly_connected_components();
    assert_eq!(sccs.len(), 1);
    assert_eq!(sccs[0].len(), 3);
}

#[test]
fn self_loop_is_a_cycle() {
    let mut graph = RustGraph::new();
    let a = graph.add_type_from_path("A");
    graph.add_edge(a, a, Relation::Uses);
    assert!(graph.is_cyclic());
    assert_eq!(graph.topological_sort(), Err(a));
}

#[test]
fn simple_paths_with_two_routes() {
    let mut graph = RustGraph::new();
    let a = graph.add_type_from_path("A");
    let b = graph.add_type_from_path("B");
    let c = graph.add_type_from_path("C");
    let d = graph.add_type_from_path("D");
    graph.add_edge(a, b, Relation::Uses);
    graph.add_edge(b, d, Relation::Uses);
    graph.add_edge(a, c, Relation::Uses);
    graph.add_edge(c, d, Relation::Uses);
    let mut paths = graph.find_paths(a, d);
    paths.sort();
    assert_eq!(paths, vec![vec![a, b, d], vec![a, c, d]]);
    assert!(graph.find_paths(d, a).is_empty());
}

#[test]
fn kind_names_and_lookups() {
    let mut graph = RustGraph::new();
    let t = graph.add_trait_from_path("k::Tr");
    assert_eq!(graph.node(t).unwrap().node_str(), "Trait");
    let k = graph.find_by_name("k")[0].index;
    assert_eq!(graph.node(k).unwrap().node_str(), "Module");
    assert!(graph.node(graph.node_count()).is_none());
    assert!(graph.edge(graph.edge_count()).is_none());
    assert!(graph.find_by_partial_name("zzz").is_empty());
    assert_eq!(graph.find_by_pattern("TR").len(), 1);
}

#[test]
fn lookup_starts_from_root_modules() {
    let mut graph = RustGraph::new();
    graph.add_type_from_path("x::c::T");
    assert!(graph.find_module_by_path_hierarchical("c").is_none());
    let u = graph.add_type_from_path("c::U");
    let c = graph.find_module_by_path_hierarchical("c").unwrap();
    assert_eq!(graph.get_node_path(c), "c");
    let parents: Vec<usize> = (0..graph.edge_count())
        .map(|e| graph.edge(e).unwrap())
        .filter(|(_, b, rel)| *b == u && *rel == Relation::Contains)
        .map(|(a, _, _)| a)
        .collect();
    assert_eq!(parents, vec![c]);
    assert_eq!(graph.find_by_name("c").len(), 2);
}

#[test]
fn duplicate_edges_give_each_path_once() {
    let mut graph = RustGraph::new();
    let a = graph.add_type_from_path("A");
    let b = graph.add_type_from_path("B");
    let c = graph.add_type_from_path("C");
    graph.add_edge(a, b, Relation::Uses);
    graph.add_edge(a, b, Relation::Implements);
    graph.add_edge(b, c, Relation::Uses);
    assert_eq!(graph.find_paths(a, c), vec![vec![a, b, c]]);
    assert!(graph.find_paths(a, 99).is_empty());
    assert!(graph.find_paths(99, 99).is_empty());
}
