//! What a backend hands back for a request.

use crate::message::{Message, ToolCall};
use crate::request::ChatRequest;
use uuid::Uuid;
use vstd::prelude::*;

verus! {

/// Token accounting of one call.
#[derive(Clone, Copy, Debug, PartialEq, Eq)]
pub struct Usage {
    pub input_tokens: u32,
    pub output_tokens: u32,
    /// Producers keep this at the sum of the other two.
    pub total_tokens: u32,
}

/// A complete response from a backend.
#[derive(Clone, Debug, PartialEq, Eq)]
pub struct ChatResponse {
    /// The assistant's reply.
    pub message: Message,
    /// The tool calls of the reply, set apart for convenience.
    pub tool_calls: Vec<ToolCall>,
    pub usage: Option<Usage>,
    /// The model that was used.
    pub model: String,
    /// The identifier of the request, if it had one.
    pub session_id: Option<Uuid>,
}

impl ChatResponse {
    /// Whether the tool calls set apart are those of the reply's content,
    /// in their order.
    pub open spec fn is_consistent(&self) -> bool {
        self.tool_calls@ == Message::tool_calls_in(self.message.content@)
    }

    /// Whether no two of the tool calls set apart have the same identifier.
    pub open spec fn tool_call_ids_are_distinct(&self) -> bool {
        forall|i: int, j: int|
            0 <= i < j < self.tool_calls@.len() ==> (#[trigger] self.tool_calls@[i]).id@ != (
            #[trigger] self.tool_calls@[j]).id@
    }

    /// Whether every tool call set apart can be told from the others by its
    /// identifier.
    pub fn has_distinct_tool_call_ids(&self) -> (distinct: bool)
        ensures
            distinct == self.tool_call_ids_are_distinct(),
    {
        let mut j: usize = 0;
        while j < self.tool_calls.len()
            invariant
                j <= self.tool_calls@.len(),
                forall|a: int, b: int|
                    0 <= a < b < j ==> (#[trigger] self.tool_calls@[a]).id@ != (
                    #[trigger] self.tool_calls@[b]).id@,
            decreases self.tool_calls@.len() - j,
        {
            let mut i: usize = 0;
            while i < j
                invariant
                    i <= j < self.tool_calls@.len(),
                    forall|a: int|
                        0 <= a < i ==> (#[trigger] self.tool_calls@[a]).id@
                            != self.tool_calls@[j as int].id@,
                decreases j - i,
            {
                if self.tool_calls[i].id == self.tool_calls[j].id {
                    return false;
                }
                i = i + 1;
            }
            j = j + 1;
        }
        true
    }

    /// The response to `request` that carries `message` as the reply. The
    /// reply is kept whole, its tool calls are set apart in their order,
    /// and the request's session identifier is echoed.
    pub fn for_request(
        request: &ChatRequest,
        message: Message,
        model: String,
        usage: Option<Usage>,
    ) -> (response: ChatResponse)
        ensures
            response.message == message,
            response.is_consistent(),
            response.usage == usage,
            response.model == model,
            response.session_id == request.session_id,
    {
        let tool_calls = message.tool_calls();
        ChatResponse { message, tool_calls, usage, model, session_id: request.session_id }
    }
}

} // verus!
