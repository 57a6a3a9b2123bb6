use std::sync::Arc;

use orbital::preprocessor::builder::ShaderBuilder;
use orbital::preprocessor::error::ShaderPreprocessorError;
use orbital::preprocessor::library::NodeLibrary;
use orbital::preprocessor::node::ShaderNode;
use orbital::preprocessor::registry::NodeRegistry;

/// A tiny custom library of nodes, independent of the engine prelude.
fn test_library() -> NodeLibrary {
    let mut lib = NodeLibrary::new("test");
    lib.add(ShaderNode::new("pi", "const PI: f32 = 3.14;\n"));
    lib.add(ShaderNode::new("sq", "fn sq(x: f32) -> f32 { return x * x; }\n").with_deps(&["pi"]));
    lib.add(
        ShaderNode::new("cubed", "fn cubed(x: f32) -> f32 { return x * x * x; }\n")
            .with_deps(&["sq"]),
    );
    lib
}

fn test_registry() -> NodeRegistry {
    let mut registry = NodeRegistry::new();
    registry.register_library(&test_library()).unwrap();
    registry
}

#[test]
fn builder_resolves_dependencies_transitively() {
    let mut builder = ShaderBuilder::new(Arc::new(test_registry()));
    builder.add_node("cubed").unwrap();

    let source = builder.build();

    // Dependency-first, deduplicated ordering: pi, sq, cubed.
    assert!(source.find("const PI").unwrap() < source.find("fn sq").unwrap());
    assert!(source.find("fn sq").unwrap() < source.find("fn cubed").unwrap());
    assert_eq!(source.matches("fn sq").count(), 1);
}

#[test]
fn builder_deduplicates_nodes() {
    let mut builder = ShaderBuilder::new(Arc::new(test_registry()));
    builder.add_node("cubed").unwrap();
    builder.add_node("sq").unwrap();
    builder.add_node("cubed").unwrap();

    let source = builder.build();
    assert_eq!(source.matches("fn sq").count(), 1);
    assert_eq!(source.matches("fn cubed").count(), 1);
    assert_eq!(builder.node_names().len(), 3); // pi, sq, cubed
}

#[test]
fn builder_appends_raw_source_after_nodes() {
    let mut builder = ShaderBuilder::new(Arc::new(test_registry()));
    builder.add_node("sq").unwrap();
    builder.add_source("fn main() { return; }\n");

    let source = builder.build();
    assert!(source.find("fn sq").unwrap() < source.find("fn main").unwrap());
}

#[test]
fn unknown_node_errors() {
    let mut builder = ShaderBuilder::new(Arc::new(test_registry()));
    let err = builder.add_node("does_not_exist").unwrap_err();
    assert!(matches!(err, ShaderPreprocessorError::UnknownNode { .. }));
}

#[test]
fn registry_conflicting_names_error() {
    let mut registry = test_registry();
    // Same name, different source -> conflict.
    let node = ShaderNode::new("pi", "const PI: f32 = 0.0;\n");
    let err = registry.register(node).unwrap_err();
    assert!(matches!(err, ShaderPreprocessorError::ConflictingNodeName { .. }));
}

#[test]
fn registry_re_registration_of_identical_node_is_idempotent() {
    let mut registry = test_registry();
    // Same name + same source -> no-op, no error.
    let node = ShaderNode::new("pi", "const PI: f32 = 3.14;\n");
    registry.register(node).unwrap();
    assert_eq!(registry.len(), test_registry().len());
}

#[test]
fn registry_accepts_runtime_generated_source() {
    let mut registry = NodeRegistry::new();
    let dynamic_source = format!("fn dynamic(x: f32) -> f32 {{ return x + {}; }}\n", 1.0);
    let node = ShaderNode::new("dynamic", &dynamic_source);
    registry.register(node).unwrap();

    let mut builder = ShaderBuilder::new(Arc::new(registry));
    builder.add_node("dynamic").unwrap();
    assert!(builder.build().contains("fn dynamic"));
}

#[test]
fn global_registry_starts_empty() {
    let registry = NodeRegistry::global();
    assert!(registry.is_empty());
    assert!(registry.get("does_not_exist").is_none());
}

#[test]
fn dependency_cycle_errors() {
    let mut registry = NodeRegistry::new();
    registry
        .register_library(&{
            let mut lib = NodeLibrary::new("cycle");
            lib.add(ShaderNode::new("a", "fn a() {}\n").with_deps(&["b"]));
            lib.add(ShaderNode::new("b", "fn b() {}\n").with_deps(&["a"]));
            lib
        })
        .unwrap();

    let mut builder = ShaderBuilder::new(Arc::new(registry));
    let err = builder.add_node("a").unwrap_err();
    assert!(matches!(err, ShaderPreprocessorError::DependencyCycle { .. }));
}

#[test]
fn self_dependency_cycle_errors() {
    let mut registry = NodeRegistry::new();
    registry
        .register(ShaderNode::new("self", "fn self_fn() {}\n").with_deps(&["self"]))
        .unwrap();

    let mut builder = ShaderBuilder::new(Arc::new(registry));
    let err = builder.add_node("self").unwrap_err();
    assert!(matches!(err, ShaderPreprocessorError::DependencyCycle { .. }));
}

#[test]
fn builder_emits_exact_node_sources() {
    let mut builder = ShaderBuilder::new(Arc::new(test_registry()));
    builder.add_node("sq").unwrap();

    // The emitted output must contain exactly the `sq` node's source (plus its
    // dependency `pi`), in order, with no extra/mangled content.
    let source = builder.build();
    assert!(source.contains("const PI: f32 = 3.14;"));
    assert!(source.contains("fn sq(x: f32) -> f32 { return x * x; }"));
    assert!(!source.contains("cubed"));
}

#[test]
fn custom_registry_supports_third_party_nodes() {
    // A third-party crate registering its own node library and a shader
    // referencing those nodes by name.
    let mut registry = NodeRegistry::new();
    registry
        .register_library(&{
            let mut lib = NodeLibrary::new("third_party");
            lib.add(
                ShaderNode::new("tp_util", "fn tp_util(x: f32) -> f32 { return x; }\n")
                    .with_deps(&["base"]),
            );
            lib.add(ShaderNode::new("base", "const BASE: f32 = 1.0;\n"));
            lib
        })
        .unwrap();

    let mut builder = ShaderBuilder::new(Arc::new(registry));
    builder.add_node("tp_util").unwrap();
    let source = builder.build();

    assert!(source.contains("const BASE: f32 = 1.0;"));
    assert!(source.contains("fn tp_util"));
    // Dependency `base` precedes its dependant `tp_util`.
    assert!(source.find("const BASE").unwrap() < source.find("fn tp_util").unwrap());
}

// --- Further cases -----------------------------------------------------------

#[test]
fn build_joins_pieces_with_newlines() {
    let mut builder = ShaderBuilder::new(Arc::new(test_registry()));
    builder.add_node("sq").unwrap();
    builder.add_source("// tail");
    assert_eq!(
        builder.build(),
        "const PI: f32 = 3.14;\n\nfn sq(x: f32) -> f32 { return x * x; }\n\n// tail"
    );
}

#[test]
fn empty_builder_builds_empty_source() {
    let builder = ShaderBuilder::new(Arc::new(test_registry()));
    assert_eq!(builder.build(), "");
    assert!(builder.resolved_order().is_empty());
    assert!(builder.node_names().is_empty());
}

#[test]
fn resolved_order_puts_dependencies_first() {
    let mut builder = ShaderBuilder::new(Arc::new(test_registry()));
    builder.add_nodes(&["cubed", "pi"]).unwrap();
    let order: Vec<&str> = builder.resolved_order().iter().map(|s| s.as_str()).collect();
    assert_eq!(order, vec!["pi", "sq", "cubed"]);
}

#[test]
fn add_node_twice_changes_nothing() {
    let mut builder = ShaderBuilder::new(Arc::new(test_registry()));
    builder.add_node("cubed").unwrap();
    let first = builder.build();
    builder.add_node("cubed").unwrap();
    assert_eq!(builder.build(), first);
    assert_eq!(builder.resolved_order().len(), 3);
}

#[test]
fn unknown_node_leaves_builder_unchanged() {
    let mut builder = ShaderBuilder::new(Arc::new(test_registry()));
    builder.add_node("sq").unwrap();
    let before = builder.build();
    let err = builder.add_node("missing").unwrap_err();
    match err {
        ShaderPreprocessorError::UnknownNode { name } => assert_eq!(name, "missing"),
        other => panic!("unexpected error {:?}", other),
    }
    assert_eq!(builder.build(), before);
}

#[test]
fn add_nodes_stops_at_first_unknown_name() {
    let mut builder = ShaderBuilder::new(Arc::new(test_registry()));
    let err = builder.add_nodes(&["pi", "nope", "cubed"]).unwrap_err();
    assert!(matches!(err, ShaderPreprocessorError::UnknownNode { ref name } if name == "nope"));
    let order: Vec<&str> = builder.resolved_order().iter().map(|s| s.as_str()).collect();
    assert_eq!(order, vec!["pi"]);
}

#[test]
fn cycle_error_names_the_node_found_again() {
    let mut registry = NodeRegistry::new();
    let mut lib = NodeLibrary::new("cycle");
    lib.add(ShaderNode::new("a", "fn a() {}\n").with_deps(&["b"]));
    lib.add(ShaderNode::new("b", "fn b() {}\n").with_deps(&["a"]));
    registry.register_library(&lib).unwrap();
    let mut builder = ShaderBuilder::new(Arc::new(registry));
    match builder.add_node("a").unwrap_err() {
        ShaderPreprocessorError::DependencyCycle { name } => assert_eq!(name, "a"),
        other => panic!("unexpected error {:?}", other),
    }
}

#[test]
fn missing_dependency_is_skipped() {
    let mut registry = NodeRegistry::new();
    registry
        .register(ShaderNode::new("lonely", "fn lonely() {}\n").with_deps(&["absent"]))
        .unwrap();
    let mut builder = ShaderBuilder::new(Arc::new(registry));
    builder.add_node("lonely").unwrap();
    assert_eq!(builder.build(), "fn lonely() {}\n");
}

#[test]
fn debug_flag_round_trips() {
    let mut builder = ShaderBuilder::new(Arc::new(NodeRegistry::new()));
    assert!(!builder.debug());
    builder.set_debug(true);
    assert!(builder.debug());
    builder.set_debug(false);
    assert!(!builder.debug());
}

#[test]
fn registry_get_returns_registered_node() {
    let registry = test_registry();
    let node = registry.get("sq").unwrap();
    assert_eq!(node.name, "sq");
    assert_eq!(node.source, "fn sq(x: f32) -> f32 { return x * x; }\n");
    assert_eq!(node.depends_on, vec!["pi".to_string()]);
    assert!(registry.get("nothing").is_none());
    assert_eq!(registry.len(), 3);
    assert!(!registry.is_empty());
    assert!(NodeRegistry::new().is_empty());
}

#[test]
fn register_library_keeps_nodes_before_a_conflict() {
    let mut registry = NodeRegistry::new();
    registry.register(ShaderNode::new("b", "B\n")).unwrap();
    let mut lib = NodeLibrary::new("mixed");
    lib.add(ShaderNode::new("a", "A\n"));
    lib.add(ShaderNode::new("b", "other\n"));
    lib.add(ShaderNode::new("c", "C\n"));
    match registry.register_library(&lib).unwrap_err() {
        ShaderPreprocessorError::ConflictingNodeName { name } => assert_eq!(name, "b"),
        other => panic!("unexpected error {:?}", other),
    }
    assert!(registry.get("a").is_some());
    assert_eq!(registry.get("b").unwrap().source, "B\n");
    assert!(registry.get("c").is_none());
    assert_eq!(registry.len(), 2);
}

#[test]
fn register_library_twice_is_idempotent() {
    let mut registry = test_registry();
    registry.register_library(&test_library()).unwrap();
    assert_eq!(registry.len(), 3);
}

#[test]
fn cloned_registry_has_same_nodes() {
    let registry = test_registry();
    let copy = registry.clone();
    assert_eq!(copy.len(), 3);
    assert_eq!(copy.get("cubed").unwrap().source, registry.get("cubed").unwrap().source);
    assert!(NodeRegistry::default().is_empty());
}

#[test]
fn node_with_deps_adds_dependencies() {
    let node = ShaderNode::new("n", "src").with_deps(&["x", "y"]).with_deps(&["z"]);
    assert_eq!(node.depends_on, vec!["x".to_string(), "y".to_string(), "z".to_string()]);
    assert_eq!(node.name, "n");
    assert_eq!(node.source, "src");
    let lib = test_library();
    assert_eq!(lib.name, "test");
    assert_eq!(lib.nodes.len(), 3);
}

#[test]
fn registering_a_node_with_other_dependencies_is_a_conflict() {
    let mut r = NodeRegistry::new();
    assert!(r.register(ShaderNode::new("n", "fn n() {}\n")).is_ok());
    match r.register(ShaderNode::new("n", "fn n() {}\n").with_deps(&["m"])).unwrap_err() {
        ShaderPreprocessorError::ConflictingNodeName { name } => assert_eq!(name, "n"),
        other => panic!("unexpected error {:?}", other),
    }
    assert!(r.get("n").unwrap().depends_on.is_empty());
}

#[test]
fn request_adds_only_its_dependencies() {
    let mut builder = ShaderBuilder::new(Arc::new(test_registry()));
    builder.add_node("sq").unwrap();
    let order: Vec<&str> = builder.resolved_order().iter().map(|s| s.as_str()).collect();
    assert_eq!(order, vec!["pi", "sq"]);
}
