//! What a caller sends to a backend.

use crate::error::{BackendError, BackendErrorView};
use crate::message::{Message, Tool};
use crate::names::{find_name, has_name};
use crate::status::StatusCallback;
use uuid::Uuid;
use vstd::prelude::*;

verus! {

/// Bit pattern of the default sampling temperature, 0.7.
pub const DEFAULT_TEMPERATURE_BITS: u32 = 0x3F33_3333;

/// Bit pattern of the default nucleus-sampling mass, 0.9.
pub const DEFAULT_TOP_P_BITS: u32 = 0x3F66_6666;

/// The default cap on generated tokens.
pub const DEFAULT_MAX_TOKENS: u32 = 4096;

/// Sampling parameters. What they mean is up to the backend. The two real
/// numbers are held as the bit patterns of IEEE 754 single-precision
/// values, which stand for them one to one.
#[derive(Clone, Copy, Debug, PartialEq, Eq)]
pub struct InferenceConfig {
    /// Sampling temperature, as a bit pattern.
    pub temperature: Option<u32>,
    /// Nucleus-sampling mass, as a bit pattern.
    pub top_p: Option<u32>,
    /// Cap on the number of generated tokens.
    pub max_tokens: Option<u32>,
}

impl Default for InferenceConfig {
    /// Temperature 0.7, nucleus mass 0.9, and at most 4096 tokens.
    fn default() -> (config: Self)
        ensures
            config.temperature == Some(DEFAULT_TEMPERATURE_BITS),
            config.top_p == Some(DEFAULT_TOP_P_BITS),
            config.max_tokens == Some(DEFAULT_MAX_TOKENS),
    {
        InferenceConfig {
            temperature: Some(DEFAULT_TEMPERATURE_BITS),
            top_p: Some(DEFAULT_TOP_P_BITS),
            max_tokens: Some(DEFAULT_MAX_TOKENS),
        }
    }
}

/// A chat request to send to a backend.
#[derive(Clone)]
pub struct ChatRequest {
    /// The conversation so far, oldest message first.
    pub messages: Vec<Message>,
    /// The model to use; the backend's default where there is none.
    pub model: Option<String>,
    /// The tools offered to the model.
    pub tools: Option<Vec<Tool>>,
    pub inference_config: Option<InferenceConfig>,
    /// Ties the response to this request.
    pub session_id: Option<Uuid>,
    /// Where progress is reported while the call runs.
    pub status_callback: Option<StatusCallback>,
}

/// Whether no two of `tools` have the same name.
pub open spec fn distinct_tool_names(tools: Seq<Tool>) -> bool {
    forall|i: int, j: int|
        0 <= i < j < tools.len() ==> (#[trigger] tools[i]).name@ != (#[trigger] tools[j]).name@
}

/// Whether every one of `tools` can be told from the others by its name.
fn tools_are_distinct(tools: &Vec<Tool>) -> (distinct: bool)
    ensures
        distinct == distinct_tool_names(tools@),
{
    let mut j: usize = 0;
    while j < tools.len()
        invariant
            j <= tools@.len(),
            forall|a: int, b: int|
                0 <= a < b < j ==> (#[trigger] tools@[a]).name@ != (#[trigger] tools@[b]).name@,
        decreases tools@.len() - j,
    {
        let mut i: usize = 0;
        while i < j
            invariant
                i <= j < tools@.len(),
                forall|a: int|
                    0 <= a < i ==> (#[trigger] tools@[a]).name@ != tools@[j as int].name@,
            decreases j - i,
        {
            if tools[i].name == tools[j].name {
                return false;
            }
            i = i + 1;
        }
        j = j + 1;
    }
    true
}

impl ChatRequest {
    /// The model that serves this request: the one it names, or
    /// `default_model` where it names none.
    pub open spec fn resolved_model(&self, default_model: Seq<char>) -> Seq<char> {
        match self.model {
            Some(name) => name@,
            None => default_model,
        }
    }

    /// Whether no two of the tools offered have the same name.
    pub open spec fn tool_names_are_distinct(&self) -> bool {
        match self.tools {
            Some(tools) => distinct_tool_names(tools@),
            None => true,
        }
    }

    /// Whether every tool offered can be told from the others by its name.
    pub fn has_distinct_tool_names(&self) -> (distinct: bool)
        ensures
            distinct == self.tool_names_are_distinct(),
    {
        match &self.tools {
            Some(tools) => tools_are_distinct(tools),
            None => true,
        }
    }

    /// Where the backend's default model is one of those it supports, every
    /// request that is not refused is served by a supported model.
    pub proof fn lemma_resolved_model_is_supported(
        &self,
        supported_models: Seq<String>,
        default_model: Seq<char>,
    )
        requires
            has_name(supported_models, default_model),
            self.model is Some ==> has_name(supported_models, self.model.unwrap()@),
        ensures
            has_name(supported_models, self.resolved_model(default_model)),
    {
    }

    /// Settles which model serves the request, before anything is sent. A
    /// request that names no model gets `default_model`. One that names a
    /// model gets it where it is among `supported_models`, and is refused
    /// as unsupported where it is not.
    pub fn resolve_model(&self, supported_models: &Vec<String>, default_model: &str) -> (model:
        Result<String, BackendError>)
        ensures
            model is Err <==> self.model is Some && !has_name(
                supported_models@,
                self.model.unwrap()@,
            ),
            model matches Ok(name) ==> name@ == self.resolved_model(default_model@),
            model matches Err(error) ==> error@ == (BackendErrorView::UnsupportedModel {
                model: self.model.unwrap()@,
            }),
    {
        match &self.model {
            None => Ok(String::from_str(default_model)),
            Some(name) => match find_name(supported_models, name) {
                Some(_) => Ok(name.clone()),
                None => Err(BackendError::UnsupportedModel { model: name.clone() }),
            },
        }
    }
}

} // verus!
