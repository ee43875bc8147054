//! Value objects at the boundary to the external agent collaborator.
//!
//! The agent itself — the wrapper around third-party model provider APIs —
//! is an external collaborator: the core only needs a
//! `chat(agent_id, prompt) -> text` call-and-response from it. These are the
//! plain values that cross that boundary and the adapters around it.

use vstd::prelude::*;
use vstd::string::StringExecFns;

verus! {

/// Agent-layer failures.
pub enum GooseError {
    /// The agent could not be initialized.
    InitializationError(String),
    /// Bad agent configuration.
    ConfigError(String),
    /// A message could not be processed.
    MessageError(String),
    /// A streaming response failed.
    StreamError(String),
    /// A runtime failure.
    RuntimeError(String),
    /// A failure inside the agent framework.
    GooseFrameworkError(String),
}

/// Chat behavior configuration of the agent.
pub struct ChatConfig {
    /// Maximum number of messages kept in conversation history.
    pub max_history_length: usize,
    /// Whether streaming responses are enabled.
    pub enable_streaming: bool,
    /// Request timeout in seconds.
    pub timeout_seconds: u64,
    /// An optional system prompt.
    pub system_prompt: Option<String>,
}

/// Which model provider the agent talks to, with its credentials.
pub enum ProviderConfig {
    Databricks { endpoint: String, token: String, model: String },
    OpenAI { api_key: String, model: String, base_url: Option<String>, organization: Option<String> },
    Anthropic { api_key: String, model: String, base_url: Option<String> },
    Google { api_key: String, model: String, base_url: Option<String> },
}

impl ProviderConfig {
    /// The provider's display name.
    pub fn provider_name(&self) -> (r: &'static str)
        ensures
            match *self {
                ProviderConfig::Databricks { .. } => r@ == "Databricks"@,
                ProviderConfig::OpenAI { .. } => r@ == "OpenAI"@,
                ProviderConfig::Anthropic { .. } => r@ == "Anthropic"@,
                ProviderConfig::Google { .. } => r@ == "Google"@,
            },
    {
        match self {
            ProviderConfig::Databricks { .. } => "Databricks",
            ProviderConfig::OpenAI { .. } => "OpenAI",
            ProviderConfig::Anthropic { .. } => "Anthropic",
            ProviderConfig::Google { .. } => "Google",
        }
    }

    /// The configured model name.
    pub fn model_name(&self) -> (r: &str)
        ensures
            match *self {
                ProviderConfig::Databricks { model: ref m, .. } => r@ == m@,
                ProviderConfig::OpenAI { model: ref m, .. } => r@ == m@,
                ProviderConfig::Anthropic { model: ref m, .. } => r@ == m@,
                ProviderConfig::Google { model: ref m, .. } => r@ == m@,
            },
    {
        match self {
            ProviderConfig::Databricks { model, .. } => model.as_str(),
            ProviderConfig::OpenAI { model, .. } => model.as_str(),
            ProviderConfig::Anthropic { model, .. } => model.as_str(),
            ProviderConfig::Google { model, .. } => model.as_str(),
        }
    }
}

/// Who authored a conversation message.
pub enum MessageRole {
    User,
    Assistant,
    System,
}

/// One chunk of a streaming agent response.
pub struct StreamResponse {
    pub chunk: String,
    pub is_complete: bool,
    pub error: Option<String>,
}

impl StreamResponse {
    /// An intermediate chunk.
    pub fn chunk(chunk: String) -> (r: StreamResponse)
        ensures
            r.chunk == chunk,
            !r.is_complete,
            r.error is None,
    {
        StreamResponse { chunk, is_complete: false, error: None }
    }

    /// The stream finished.
    pub fn complete() -> (r: StreamResponse)
        ensures
            r.chunk@.len() == 0,
            r.is_complete,
            r.error is None,
    {
        StreamResponse { chunk: String::new(), is_complete: true, error: None }
    }

    /// The stream failed; it also ends the stream.
    pub fn error(error: String) -> (r: StreamResponse)
        ensures
            r.chunk@.len() == 0,
            r.is_complete,
            r.error == Some(error),
    {
        StreamResponse { chunk: String::new(), is_complete: true, error: Some(error) }
    }
}

/// Token accounting of one agent call.
pub struct TokenUsage {
    pub prompt_tokens: u32,
    pub completion_tokens: u32,
    pub total_tokens: u32,
}

/// The role attached to an agent conversation entry.
pub enum AgentRole {
    System,
    User,
    Assistant,
    Tool,
}

/// The kind of an agent conversation entry.
pub enum MessageType {
    Text,
    ToolCall,
    ToolResult,
    System,
    Error,
}

/// Request to chat with an agent, from the desktop shell.
pub struct ChatRequest {
    pub agent_id: String,
    pub message: String,
}

/// Request that names an agent.
pub struct AgentIdRequest {
    pub agent_id: String,
}

/// The desktop-shell response envelope.
pub struct TauriResponse<T> {
    pub success: bool,
    pub data: Option<T>,
    pub error: Option<String>,
}

impl<T> TauriResponse<T> {
    /// A successful response carrying data.
    pub fn success(data: T) -> (r: TauriResponse<T>)
        ensures
            r.success,
            r.data == Some(data),
            r.error is None,
    {
        TauriResponse { success: true, data: Some(data), error: None }
    }

    /// A failed response carrying the error text.
    pub fn error(error: String) -> (r: TauriResponse<T>)
        ensures
            !r.success,
            r.data is None,
            r.error == Some(error),
    {
        TauriResponse { success: false, data: None, error: Some(error) }
    }
}

/// Pagination parameters of the agent history routes.
pub struct QueryParams {
    pub limit: Option<usize>,
    pub offset: Option<usize>,
}

/// Aggregate statistics over the registered agents.
pub struct AgentStatistics {
    pub total_agents: usize,
    pub total_messages: usize,
    pub total_tokens: u64,
    pub active_agents: usize,
}

} // verus!
