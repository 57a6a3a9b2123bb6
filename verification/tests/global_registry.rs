//! The process-wide registry; kept in a test binary of its own so that the
//! registrations made here do not reach other tests.

use orbital::preprocessor::builder::ShaderBuilder;
use orbital::preprocessor::error::ShaderPreprocessorError;
use orbital::preprocessor::global::register_global_library;
use orbital::preprocessor::library::NodeLibrary;
use orbital::preprocessor::node::ShaderNode;
use orbital::preprocessor::prelude::prelude_library;
use orbital::preprocessor::registry::NodeRegistry;
use orbital::shader_libs::math_library;

fn third_party_library() -> NodeLibrary {
    let mut lib = NodeLibrary::new("third_party");
    lib.add(ShaderNode::new("tp_base", "const TP_BASE: f32 = 1.0;\n"));
    lib.add(
        ShaderNode::new("tp_util", "fn tp_util(x: f32) -> f32 { return x * TP_BASE; }\n")
            .with_deps(&["tp_base", "pi"]),
    );
    lib
}

#[test]
fn global_registry_is_extended_by_registered_libraries() {
    assert!(NodeRegistry::global().is_empty());

    // Engine startup registers the prelude.
    let prelude = prelude_library();
    register_global_library(&prelude).unwrap();
    let snapshot = NodeRegistry::global();
    assert_eq!(snapshot.len(), prelude.nodes.len());
    for node in &prelude.nodes {
        assert_eq!(snapshot.get(&node.name).unwrap().source, node.source);
    }
    assert!(snapshot.get("does_not_exist").is_none());

    // Libraries that agree with the prelude register without effect.
    register_global_library(&math_library()).unwrap();
    assert_eq!(NodeRegistry::global().len(), prelude.nodes.len());

    register_global_library(&third_party_library()).unwrap();
    let snapshot = NodeRegistry::global();
    assert_eq!(snapshot.len(), prelude.nodes.len() + 2);
    assert!(snapshot.get("tp_util").is_some());

    // Registering the same library again is idempotent.
    register_global_library(&third_party_library()).unwrap();
    assert_eq!(NodeRegistry::global().len(), prelude.nodes.len() + 2);

    // A conflicting node is refused by name.
    let mut conflicting = NodeLibrary::new("conflict");
    conflicting.add(ShaderNode::new("pi", "const PI: f32 = 3.0;\n"));
    match register_global_library(&conflicting).unwrap_err() {
        ShaderPreprocessorError::ConflictingNodeName { name } => assert_eq!(name, "pi"),
        other => panic!("unexpected error {:?}", other),
    }

    let mut builder = ShaderBuilder::with_global_registry();
    builder.add_node("tp_util").unwrap();
    let order: Vec<&str> = builder.resolved_order().iter().map(|s| s.as_str()).collect();
    assert_eq!(order, vec!["tp_base", "pi", "tp_util"]);
}
