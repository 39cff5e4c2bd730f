//! A common contract for talking to large-language-model backends: the
//! request and response data model, the streaming-event protocol, and the
//! retry policy that callers and backends agree on.

pub mod backoff;
pub mod error;
pub mod foreign;
pub mod message;
pub mod names;
pub mod request;
pub mod response;
pub mod retry;
pub mod status;
pub mod stream;
pub mod time;

pub use backoff::{BackoffStrategy, RetryConfig};
pub use error::{BackendError, BackendErrorView, BackendResult};
pub use message::{
    ContentBlock, ContentBlockView, Message, MessageRole, MessageView, Tool, ToolCall,
    ToolCallView, ToolView,
};
pub use request::{ChatRequest, InferenceConfig};
pub use response::{ChatResponse, Usage};
pub use retry::{RetryAction, RetryEvent, RetryState};
pub use status::{BackendStatus, BackendStatusView, StatusCallback, StatusSink};
pub use stream::{is_whole_stream, ChatStreamEvent, ChatStreamEventView, StreamMonitor, StreamItem};
