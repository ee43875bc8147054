//! Tests of the transfer-layer value objects, errors, and progress events.

use iroh_node::progress::{DefaultProgressNotifier, ProgressNotifier, TransferEvent};
use iroh_node::transfer_error::IrohTransferError;
use iroh_node::types::{DownloadRequest, TransferConfig, UploadRequest};

#[test]
fn test_transfer_config_default() {
    let config = TransferConfig::default();
    assert!(config.data_root.ends_with("iroh_data"));
    assert!(!config.verbose_logging);
}

#[test]
fn test_download_request_creation() {
    let request = DownloadRequest {
        doc_ticket: "test_ticket".to_string(),
        download_dir: Some(String::from("/tmp/downloads")),
    };

    assert_eq!(request.doc_ticket, "test_ticket");
    assert!(request.download_dir.is_some());
}

#[test]
fn test_upload_request_creation() {
    let request = UploadRequest { file_path: String::from("/tmp/test.txt") };

    assert_eq!(request.file_path, String::from("/tmp/test.txt"));
}

#[test]
fn test_error_creation() {
    let error = IrohTransferError::file_not_found("test.txt");
    assert!(error.message().contains("test.txt"));

    let error = IrohTransferError::duplicate_file_name("duplicate.txt");
    assert!(error.message().contains("duplicate.txt"));

    let error = IrohTransferError::config("配置错误");
    assert!(error.message().contains("配置错误"));
}

#[test]
fn test_progress_notifier() {
    let notifier = DefaultProgressNotifier::new();
    let event = TransferEvent::DownloadQueueAppend {
        id: "test_id".to_string(),
        size: 1024,
        name: "test.txt".to_string(),
    };

    notifier.notify(event);
}

#[test]
fn test_transfer_event_display() {
    let event = TransferEvent::DownloadProgress { id: "test_id".to_string(), offset: 512 };

    let display_str = event.display_string();
    assert!(display_str.contains("下载进度"));
    assert!(display_str.contains("test_id"));
    assert!(display_str.contains("512"));
}

#[test]
fn test_transfer_event_display_upload() {
    let event = TransferEvent::UploadQueueAppend {
        id: "f1".to_string(),
        size: 2048,
        title: "notes.txt".to_string(),
    };

    let display_str = event.display_string();
    assert!(display_str.contains("上传队列添加"));
    assert!(display_str.contains("notes.txt"));
    assert!(display_str.contains("2048"));
    assert!(display_str.contains("f1"));
}

#[test]
fn test_error_variants() {
    assert!(IrohTransferError::ticket_parse("bad text").message().contains("bad text"));
    assert!(IrohTransferError::network("unreachable").message().contains("unreachable"));
    assert!(IrohTransferError::other("misc").message().contains("misc"));
    assert!(IrohTransferError::DownloadDirNotFound
        .message()
        .contains("download directory not found"));
}
