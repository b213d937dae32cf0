//! The options of the inferencing engine and the models that it serves.

use std::path::PathBuf;
use vstd::prelude::*;

verus! {

/// `std::path::PathBuf`, carried through as it is.
#[verifier::external_type_specification]
#[verifier::external_body]
pub struct ExPathBuf(PathBuf);

/// `PathBuf::new`: an empty path. Nothing is stated of it.
pub assume_specification[ PathBuf::new ]() -> (path: PathBuf)
;

/// `PathBuf::clone`: the copy is the same path.
pub assume_specification[ <PathBuf as Clone>::clone ](path: &PathBuf) -> (copy: PathBuf)
    ensures
        copy == *path,
;

/// The name of the one model that the engine loads.
pub const LLAMA2_13B_CHAT: &'static str = "llama2-13b-chat";

/// Where the models are and whether to use the GPU.
pub struct LLmOptions {
    pub model_registry: PathBuf,
    pub use_gpu: bool,
}

impl Default for LLmOptions {
    /// An empty registry path, and no GPU.
    fn default() -> (options: LLmOptions)
        ensures
            !options.use_gpu,
    {
        LLmOptions { model_registry: PathBuf::new(), use_gpu: false }
    }
}

/// The engine that runs the models of a registry.
#[derive(Clone)]
pub struct LlmEngine {
    pub registry: PathBuf,
    pub use_gpu: bool,
}

impl LlmEngine {
    /// An engine for the models under `registry`.
    pub fn new(registry: PathBuf, use_gpu: bool) -> (engine: LlmEngine)
        ensures
            engine == (LlmEngine { registry, use_gpu }),
    {
        LlmEngine { registry, use_gpu }
    }
}

/// The inferencing engine as a component of a host.
pub struct LlmComponent {
    engine: LlmEngine,
}

impl LlmComponent {
    /// The engine that the component holds.
    pub closed spec fn engine_of(&self) -> LlmEngine {
        self.engine
    }

    /// A component with an engine for the models under `registry`.
    pub fn new(registry: PathBuf, use_gpu: bool) -> (component: LlmComponent)
        ensures
            component.engine_of() == (LlmEngine { registry, use_gpu }),
    {
        LlmComponent { engine: LlmEngine::new(registry, use_gpu) }
    }

    /// A copy of the engine, for a host to work with.
    pub fn build_data(&self) -> (engine: LlmEngine)
        ensures
            engine == self.engine_of(),
    {
        LlmEngine { registry: self.engine.registry.clone(), use_gpu: self.engine.use_gpu }
    }
}

/// A model that a guest may ask for.
#[derive(Clone, Debug, PartialEq, Eq)]
pub enum InferencingModel {
    Llama2V70bChat,
    Llama2V13bChat,
    Llama2V7bChat,
    Other(String),
}

/// What a guest is told when the engine cannot serve it.
#[derive(Clone, Debug, PartialEq, Eq)]
pub enum LlmError {
    ModelNotSupported,
    RuntimeError(String),
    InvalidInput(String),
}

/// The architecture of a model.
#[derive(Clone, Copy, Debug, PartialEq, Eq, Structural)]
pub enum ModelArchitecture {
    Llama,
}

/// The name of the file that holds `model` in the registry. Only the chat
/// model with thirteen billion parameters has one.
pub fn model_name(model: InferencingModel) -> (name: Result<&'static str, LlmError>)
    ensures
        model is Llama2V13bChat ==> name is Ok && name->Ok_0@ == LLAMA2_13B_CHAT@,
        !(model is Llama2V13bChat) ==> name is Err && name->Err_0 is ModelNotSupported,
{
    match model {
        InferencingModel::Llama2V13bChat => Ok(LLAMA2_13B_CHAT),
        _ => Err(LlmError::ModelNotSupported),
    }
}

/// The architecture of `model`: the three Llama models have one, any other
/// model is not supported.
pub fn model_arch(model: &InferencingModel) -> (architecture: Result<ModelArchitecture, LlmError>)
    ensures
        !(model is Other) ==> architecture is Ok && architecture->Ok_0 == ModelArchitecture::Llama,
        model is Other ==> architecture is Err && architecture->Err_0 is ModelNotSupported,
{
    match model {
        InferencingModel::Llama2V70bChat
        | InferencingModel::Llama2V13bChat
        | InferencingModel::Llama2V7bChat => Ok(ModelArchitecture::Llama),
        InferencingModel::Other(_) => Err(LlmError::ModelNotSupported),
    }
}

} // verus!
