pub mod agent;
pub mod codec;
pub mod gesture;
pub mod json;
pub mod llm;

pub use json::{Json, PathStep};
pub use llm::{
    build_request, is_success, reply_text, status_error, ChatMessage, ChatRequest, LlmConfig,
    LlmError, Provider,
};
