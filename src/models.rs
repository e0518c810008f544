//! The data the management and inference endpoints report, held as plain values.
use vstd::prelude::*;

verus! {

/// Versions reported by one worker.
#[derive(Debug, Clone, PartialEq, Eq)]
pub struct WorkerVersion {
    pub hive: String,
    pub ollama: String,
}

/// The verification status of one worker.
#[derive(Debug, Clone, Copy, PartialEq, Eq, Structural)]
pub enum NodeStatus {
    Verified,
    Waiting,
    Unknown,
}

/// An authentication key; `created_at` counts seconds since the Unix epoch.
#[derive(Debug, Clone, PartialEq, Eq)]
pub struct AuthKey {
    pub id: String,
    pub name: String,
    pub role: String,
    pub created_at: i64,
}

/// An inference request.
#[derive(Debug, Clone, PartialEq, Eq)]
pub struct GenerateRequest {
    pub model: String,
    pub prompt: String,
    pub stream: bool,
    pub node: Option<String>,
}

/// A non-streamed inference reply: its text, and every other member as
/// (name, JSON text).
#[derive(Debug, Clone, PartialEq, Eq)]
pub struct GenerateResponse {
    pub result: String,
    pub extra: Vec<(String, String)>,
}

/// One message of a chat.
#[derive(Debug, Clone, PartialEq, Eq)]
pub struct ChatMessage {
    pub role: String,
    pub content: String,
}

/// A chat request.
#[derive(Debug, Clone, PartialEq, Eq)]
pub struct ChatRequest {
    pub model: String,
    pub messages: Vec<ChatMessage>,
    pub stream: bool,
}

/// An embedding request.
#[derive(Debug, Clone, PartialEq, Eq)]
pub struct EmbedRequest {
    pub model: String,
    pub input: Vec<String>,
}

/// Versions per worker name.
pub type WorkerVersions = Vec<(String, WorkerVersion)>;

/// Status per worker name.
pub type WorkerStatuses = Vec<(String, NodeStatus)>;

/// Open connections per worker name.
pub type WorkerConnections = Vec<(String, usize)>;

/// Ping times per worker name, in seconds since the Unix epoch.
pub type WorkerPings = Vec<(String, Vec<i64>)>;

/// Supported model tags per worker name.
pub type WorkerTags = Vec<(String, Vec<String>)>;

/// Queue length per model or worker name.
pub type QueueMap = Vec<(String, usize)>;

/// All authentication keys.
pub type AuthKeys = Vec<AuthKey>;

} // verus!
