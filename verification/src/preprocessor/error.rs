use vstd::prelude::*;

verus! {

/// Errors raised while registering or resolving shader nodes.
#[derive(Debug)]
pub enum ShaderPreprocessorError {
    /// A requested node name is not registered in the registry.
    UnknownNode { name: String },
    /// Two distinct nodes were registered under the same name.
    ConflictingNodeName { name: String },
    /// Resolving a node followed a circular dependency chain.
    DependencyCycle { name: String },
}

/// The abstract content of a [`ShaderPreprocessorError`]: which kind of
/// error it is and the node name it reports.
pub ghost enum PreprocessorErrorView {
    UnknownNode(Seq<char>),
    ConflictingNodeName(Seq<char>),
    DependencyCycle(Seq<char>),
}

impl View for ShaderPreprocessorError {
    type V = PreprocessorErrorView;

    open spec fn view(&self) -> PreprocessorErrorView {
        match self {
            ShaderPreprocessorError::UnknownNode { name } => PreprocessorErrorView::UnknownNode(
                name@,
            ),
            ShaderPreprocessorError::ConflictingNodeName { name } =>
                PreprocessorErrorView::ConflictingNodeName(name@),
            ShaderPreprocessorError::DependencyCycle { name } =>
                PreprocessorErrorView::DependencyCycle(name@),
        }
    }
}

} // verus!
