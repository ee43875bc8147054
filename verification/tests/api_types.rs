//! Tests of the adapter value objects and the agent boundary types.

use iroh_node::agent_api::{ProviderConfig, StreamResponse, TauriResponse};
use iroh_node::node::{fmt_relay_mode, RelayMode};
use iroh_node::web_api::{AppendFileRequest, GetBlobRequest, WebApiResponse, WebDownloadRequest};

#[test]
fn test_stream_response_creation() {
    let chunk_response = StreamResponse::chunk("Hello".to_string());
    assert_eq!(chunk_response.chunk, "Hello");
    assert!(!chunk_response.is_complete);
    assert!(chunk_response.error.is_none());

    let complete_response = StreamResponse::complete();
    assert!(complete_response.is_complete);
    assert!(complete_response.chunk.is_empty());

    let error_response = StreamResponse::error("Test error".to_string());
    assert!(error_response.is_complete);
    assert_eq!(error_response.error.as_ref().unwrap(), "Test error");
}

#[test]
fn provider_config_names() {
    let provider = ProviderConfig::OpenAI {
        api_key: "SECRET-REDACTED".to_string(),
        model: "gpt-4".to_string(),
        base_url: None,
        organization: None,
    };
    assert_eq!(provider.provider_name(), "OpenAI");
    assert_eq!(provider.model_name(), "gpt-4");

    let provider = ProviderConfig::Anthropic {
        api_key: "SECRET-REDACTED".to_string(),
        model: "sonnet-small".to_string(),
        base_url: None,
    };
    assert_eq!(provider.provider_name(), "Anthropic");
    assert_eq!(provider.model_name(), "sonnet-small");
}

#[test]
fn web_api_response_envelopes() {
    let ok: WebApiResponse<u32> = WebApiResponse::success(7);
    assert!(ok.success);
    assert_eq!(ok.data, Some(7));
    assert!(ok.error.is_none());

    let bad: WebApiResponse<u32> = WebApiResponse::error("broken".to_string());
    assert!(!bad.success);
    assert!(bad.data.is_none());
    assert_eq!(bad.error.as_deref(), Some("broken"));
}

#[test]
fn tauri_response_envelopes() {
    let ok: TauriResponse<&str> = TauriResponse::success("done");
    assert!(ok.success);
    assert_eq!(ok.data, Some("done"));

    let bad: TauriResponse<&str> = TauriResponse::error("nope".to_string());
    assert!(!bad.success);
    assert_eq!(bad.error.as_deref(), Some("nope"));
}

#[test]
fn web_requests_convert_to_transfer_requests() {
    let request = WebDownloadRequest {
        doc_ticket: "t1".to_string(),
        download_dir: Some("/tmp/d".to_string()),
    };
    let converted = request.into_request();
    assert_eq!(converted.doc_ticket, "t1");
    assert_eq!(converted.download_dir.as_deref(), Some("/tmp/d"));

    let blob = GetBlobRequest { blob_ticket: "t2".to_string() };
    let converted = blob.into_request();
    assert_eq!(converted.doc_ticket, "t2");
    assert!(converted.download_dir.is_none());

    let append = AppendFileRequest { file_path: "/tmp/x".to_string() };
    assert_eq!(append.into_request().file_path, "/tmp/x");
}

#[test]
fn relay_mode_labels() {
    assert_eq!(fmt_relay_mode(&RelayMode::Disabled), "no relay");
    assert_eq!(fmt_relay_mode(&RelayMode::Default), "default relay servers");
    assert_eq!(
        fmt_relay_mode(&RelayMode::Custom("https://r.example".to_string())),
        "https://r.example"
    );
}
