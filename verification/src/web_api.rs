//! Request and response value objects of the HTTP and desktop-shell
//! adapters. The route handlers themselves live outside the library; they
//! exchange these plain values with it.

use vstd::prelude::*;

use crate::types::{DownloadRequest, RemoveRequest, UploadRequest};

verus! {

/// Request to create a chat room over the web API.
pub struct WebCreateRoomRequest {
    pub name: String,
    pub description: Option<String>,
}

/// Request to join a chat room over the web API.
pub struct WebJoinRoomRequest {
    pub room_id: String,
    pub user_name: String,
}

/// Request to send a chat message over the web API.
pub struct WebSendMessageRequest {
    pub room_id: String,
    pub content: String,
}

/// Request to leave a chat room over the web API.
pub struct WebLeaveRoomRequest {
    pub room_id: String,
}

/// The uniform web response envelope: either data or an error, stamped with
/// the time it was built.
pub struct WebApiResponse<T> {
    pub success: bool,
    pub data: Option<T>,
    pub error: Option<String>,
    pub timestamp: u64,
}

impl<T> WebApiResponse<T> {
    /// A successful response carrying data.
    pub fn success(data: T) -> (r: WebApiResponse<T>)
        ensures
            r.success,
            r.data == Some(data),
            r.error is None,
    {
        WebApiResponse {
            success: true,
            data: Some(data),
            error: None,
            timestamp: crate::node::current_time() / 1000,
        }
    }

    /// A failed response carrying the error text.
    pub fn error(error: String) -> (r: WebApiResponse<T>)
        ensures
            !r.success,
            r.data is None,
            r.error == Some(error),
    {
        WebApiResponse {
            success: false,
            data: None,
            error: Some(error),
            timestamp: crate::node::current_time() / 1000,
        }
    }
}

/// Query parameters of the progress stream route.
pub struct ProgressQuery {
    pub session_id: Option<String>,
}

/// Request to download over the web API.
pub struct WebDownloadRequest {
    pub doc_ticket: String,
    pub download_dir: Option<String>,
}

impl WebDownloadRequest {
    /// The transfer-layer request this stands for.
    pub fn into_request(self) -> (r: DownloadRequest)
        ensures
            r.doc_ticket@ == self.doc_ticket@,
            r.download_dir == self.download_dir,
    {
        DownloadRequest { doc_ticket: self.doc_ticket, download_dir: self.download_dir }
    }
}

/// Request to upload over the web API.
pub struct WebUploadRequest {
    pub file_path: String,
}

impl WebUploadRequest {
    /// The transfer-layer request this stands for.
    pub fn into_request(self) -> (r: UploadRequest)
        ensures
            r.file_path@ == self.file_path@,
    {
        UploadRequest { file_path: self.file_path }
    }
}

/// Request to remove a file over the web API.
pub struct WebRemoveRequest {
    pub file_path: String,
}

impl WebRemoveRequest {
    /// The transfer-layer request this stands for.
    pub fn into_request(self) -> (r: RemoveRequest)
        ensures
            r.file_path@ == self.file_path@,
    {
        RemoveRequest { file_path: self.file_path }
    }
}

/// A share code handed out over the web API.
pub struct WebShareResponse {
    pub doc_ticket: String,
    pub success: bool,
    pub message: String,
}

/// The node status as rendered for adapters, with formatted times.
pub struct NodeStatusResponse {
    pub node_id: String,
    pub connected_peers: usize,
    pub active_topics: usize,
    pub started_at: String,
    pub last_activity: String,
    pub relay_mode: String,
}

/// A created or joined topic and its invitation ticket.
pub struct TopicResponse {
    pub topic_id: String,
    pub ticket: String,
}

/// Request to initialize the node.
pub struct InitRequest {
    pub secret_key: Option<String>,
    pub relay: Option<String>,
    pub no_relay: Option<bool>,
    pub name: Option<String>,
    pub bind_port: Option<u16>,
}

/// Request to create a topic.
pub struct CreateTopicRequest {
    pub topic_id: Option<String>,
}

/// Request to join a topic by ticket.
pub struct JoinTopicRequest {
    pub ticket: String,
}

/// Request to broadcast a chat message on a topic.
pub struct MessageRequest {
    pub message: String,
}

/// Request to ask the external agent on a topic.
pub struct AgentRequest {
    pub agent_id: String,
    pub prompt: String,
}

/// An error as rendered for adapters.
pub struct ApiError {
    pub message: String,
}

/// Request to fetch the files behind a share ticket, from the desktop shell.
pub struct GetBlobRequest {
    pub blob_ticket: String,
}

impl GetBlobRequest {
    /// The transfer-layer request this stands for; no directory override.
    pub fn into_request(self) -> (r: DownloadRequest)
        ensures
            r.doc_ticket@ == self.blob_ticket@,
            r.download_dir is None,
    {
        DownloadRequest { doc_ticket: self.blob_ticket, download_dir: None }
    }
}

/// A share code handed out to the desktop shell.
pub struct GetShareCodeResponse {
    pub doc_ticket: String,
}

/// Request to add a file, from the desktop shell.
pub struct AppendFileRequest {
    pub file_path: String,
}

impl AppendFileRequest {
    /// The transfer-layer request this stands for.
    pub fn into_request(self) -> (r: UploadRequest)
        ensures
            r.file_path@ == self.file_path@,
    {
        UploadRequest { file_path: self.file_path }
    }
}

/// Request to remove a file, from the desktop shell.
pub struct RemoveFileRequest {
    pub file_path: String,
}

impl RemoveFileRequest {
    /// The transfer-layer request this stands for.
    pub fn into_request(self) -> (r: RemoveRequest)
        ensures
            r.file_path@ == self.file_path@,
    {
        RemoveRequest { file_path: self.file_path }
    }
}

/// One item of the demonstration to-do list.
pub struct Todo {
    pub id: usize,
    pub description: String,
    pub completed: bool,
}

/// A new to-do entry as submitted by a form.
pub struct NewTodo {
    pub description: String,
}

} // verus!
