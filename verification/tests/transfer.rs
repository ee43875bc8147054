//! Tests of the file-transfer client and the integrated client.

use iroh_node::chat::{ChatConfig, CreateRoomRequest};
use iroh_node::client::IrohClient;
use iroh_node::integrated_client::{IntegratedClientBuilder, IrohIntegratedClient};
use iroh_node::progress::DefaultProgressNotifier;
use iroh_node::transfer_error::IrohTransferError;
use iroh_node::types::{DownloadRequest, RemoveRequest, TransferConfig, UploadRequest};

fn transfer_config() -> TransferConfig {
    TransferConfig {
        data_root: "iroh_data".to_string(),
        download_dir: Some("/tmp/quick_send".to_string()),
        verbose_logging: false,
    }
}

fn chat_config() -> ChatConfig {
    ChatConfig {
        user_name: "alice".to_string(),
        max_message_history: 100,
        enable_file_sharing: true,
    }
}

#[test]
fn duplicate_file_name_is_refused_and_first_file_unaffected() {
    let notifier = DefaultProgressNotifier::new();
    let mut client = IrohClient::new(transfer_config()).expect("new");

    // Two different local files that normalize to the same store key.
    let first = UploadRequest { file_path: "/tmp/a/test.txt".to_string() };
    let second = UploadRequest { file_path: "/tmp/b/test.txt".to_string() };

    client.upload_file(&first, 11, &vec![1u8; 32], &notifier).expect("first upload");
    let before = client.index.len();

    let result = client.upload_file(&second, 22, &vec![2u8; 32], &notifier);
    assert!(matches!(result, Err(IrohTransferError::DuplicateFileName(ref n)) if n == "test.txt"));

    // The first file's entry is exactly as it was.
    assert_eq!(client.index.len(), before);
    assert_eq!(client.index[0].name, "test.txt");
    assert_eq!(client.index[0].size, 11);
    assert_eq!(client.index[0].hash, vec![1u8; 32]);
}

#[test]
fn upload_rejects_a_path_with_no_file_name() {
    let notifier = DefaultProgressNotifier::new();
    let mut client = IrohClient::new(transfer_config()).expect("new");
    let request = UploadRequest { file_path: "/tmp/dir/".to_string() };
    let result = client.upload_file(&request, 1, &vec![0u8; 32], &notifier);
    assert!(matches!(result, Err(IrohTransferError::FileNotFound(_))));
}

#[test]
fn share_code_round_trips_the_index() {
    let notifier = DefaultProgressNotifier::new();
    let mut client = IrohClient::new(transfer_config()).expect("new");
    client
        .upload_file(&UploadRequest { file_path: "/x/a.txt".to_string() }, 3, &vec![7u8; 32], &notifier)
        .expect("upload a");
    client
        .upload_file(&UploadRequest { file_path: "/x/b.txt".to_string() }, 4, &vec![8u8; 32], &notifier)
        .expect("upload b");

    let share = client.get_share_code().expect("share code");
    let entries = IrohClient::decode_doc_ticket(&share.doc_ticket).expect("decodes");
    assert_eq!(entries.len(), 2);
    assert_eq!(entries[0].name, "a.txt");
    assert_eq!(entries[0].size, 3);
    assert_eq!(entries[0].hash, vec![7u8; 32]);
    assert_eq!(entries[1].name, "b.txt");

    // Case-insensitive, like the topic tickets.
    let upper = share.doc_ticket.to_uppercase();
    assert_eq!(IrohClient::decode_doc_ticket(&upper).expect("decodes").len(), 2);
}

#[test]
fn download_resolves_the_directory() {
    let notifier = DefaultProgressNotifier::new();
    let mut client = IrohClient::new(transfer_config()).expect("new");
    client
        .upload_file(&UploadRequest { file_path: "/x/a.txt".to_string() }, 3, &vec![7u8; 32], &notifier)
        .expect("upload");
    let share = client.get_share_code().expect("share code");

    // An explicit directory wins.
    let (text, entries) = client
        .download_files(
            &DownloadRequest {
                doc_ticket: share.doc_ticket.clone(),
                download_dir: Some("/tmp/explicit".to_string()),
            },
            &notifier,
        )
        .expect("download");
    assert!(text.ends_with("/tmp/explicit"));
    assert_eq!(entries.len(), 1);
    assert_eq!(entries[0].name, "a.txt");

    // Otherwise the configured default applies.
    let (text, _) = client
        .download_files(
            &DownloadRequest { doc_ticket: share.doc_ticket.clone(), download_dir: None },
            &notifier,
        )
        .expect("download");
    assert!(text.ends_with("/tmp/quick_send"));

    // With neither, the download directory is missing.
    let mut bare = transfer_config();
    bare.download_dir = None;
    let client = IrohClient { config: bare, ..client };
    let result = client.download_files(
        &DownloadRequest { doc_ticket: share.doc_ticket, download_dir: None },
        &notifier,
    );
    assert!(matches!(result, Err(IrohTransferError::DownloadDirNotFound)));
}

#[test]
fn download_rejects_garbage_tickets() {
    let notifier = DefaultProgressNotifier::new();
    let client = IrohClient::new(transfer_config()).expect("new");
    let result = client.download_files(
        &DownloadRequest { doc_ticket: "!!!".to_string(), download_dir: None },
        &notifier,
    );
    assert!(matches!(result, Err(IrohTransferError::TicketParse(_))));
}

#[test]
fn remove_file_deletes_the_entry() {
    let notifier = DefaultProgressNotifier::new();
    let mut client = IrohClient::new(transfer_config()).expect("new");
    client
        .upload_file(&UploadRequest { file_path: "/x/a.txt".to_string() }, 3, &vec![7u8; 32], &notifier)
        .expect("upload");
    client.remove_file(&RemoveRequest { file_path: "/y/a.txt".to_string() }).expect("remove");
    assert!(client.index.is_empty());

    // A path with no file-name component is the one input that fails.
    let result = client.remove_file(&RemoveRequest { file_path: "/y/dir/".to_string() });
    assert!(matches!(result, Err(IrohTransferError::FileNotFound(_))));

    // Uploading the same name again now succeeds.
    client
        .upload_file(&UploadRequest { file_path: "/x/a.txt".to_string() }, 5, &vec![9u8; 32], &notifier)
        .expect("upload again");
}

#[test]
fn integrated_chat_must_be_enabled() {
    let mut client = IrohIntegratedClient::new(transfer_config(), chat_config()).expect("new");
    assert!(!client.is_chat_enabled());
    assert!(client
        .create_chat_room(CreateRoomRequest { name: "Demo".to_string(), description: None })
        .is_err());
    client.enable_chat().expect("enable");
    assert!(client.is_chat_enabled());
    client
        .create_chat_room(CreateRoomRequest { name: "Demo".to_string(), description: None })
        .expect("create");
}

#[test]
fn upload_and_share_posts_the_share_ticket() {
    let notifier = DefaultProgressNotifier::new();
    let mut client = IntegratedClientBuilder::new()
        .transfer_config(transfer_config())
        .chat_config(chat_config())
        .enable_chat(true)
        .build()
        .expect("build");
    let room = client
        .create_chat_room(CreateRoomRequest { name: "Demo".to_string(), description: None })
        .expect("create");

    let sent = client
        .upload_and_share_file(
            &UploadRequest { file_path: "/x/report.pdf".to_string() },
            room.room.id.clone(),
            99,
            &vec![3u8; 32],
            &notifier,
        )
        .expect("upload and share");

    // The posted message carries the ticket of the index that now holds the
    // file; resolving it back gives that file.
    let (_, entries) = client.download_file_from_chat(&sent.message, &notifier).expect("resolve");
    assert_eq!(entries.len(), 1);
    assert_eq!(entries[0].name, "report.pdf");
    assert_eq!(entries[0].size, 99);
    assert_eq!(entries[0].hash, vec![3u8; 32]);

    // The share also appears in the room history.
    let history = client.get_message_history(&room.room.id).expect("history");
    assert!(history
        .iter()
        .any(|m| matches!(m.message_type,
            iroh_node::chat::MessageType::FileShare { ref file_name, .. } if file_name == "report.pdf")));
}

#[test]
fn download_from_chat_requires_a_file_share() {
    let notifier = DefaultProgressNotifier::new();
    let client = IrohIntegratedClient::new(transfer_config(), chat_config()).expect("new");
    let message = iroh_node::chat::ChatMessage::new_text(
        "u".to_string(),
        "alice".to_string(),
        "hi".to_string(),
        "r".to_string(),
    );
    assert!(client.download_file_from_chat(&message, &notifier).is_err());
}

#[test]
fn upload_failure_after_share_does_not_roll_back() {
    // A duplicate upload fails before anything is shared; a successful
    // upload whose share step fails (chat disabled) stays uploaded.
    let notifier = DefaultProgressNotifier::new();
    let mut client = IrohIntegratedClient::new(transfer_config(), chat_config()).expect("new");
    let result = client.upload_and_share_file(
        &UploadRequest { file_path: "/x/kept.txt".to_string() },
        "some-room".to_string(),
        7,
        &vec![1u8; 32],
        &notifier,
    );
    assert!(result.is_err());
    assert_eq!(client.transfer_client.index.len(), 1);
    assert_eq!(client.transfer_client.index[0].name, "kept.txt");
}

#[test]
fn update_chat_user_name_requires_disabled_chat() {
    let mut client = IrohIntegratedClient::new(transfer_config(), chat_config()).expect("new");
    client.update_chat_user_name("bob".to_string()).expect("disabled, ok");
    assert_eq!(client.chat_config.user_name, "bob");
    client.enable_chat().expect("enable");
    assert!(client.update_chat_user_name("carol".to_string()).is_err());
}

#[test]
fn u64_rendering_is_decimal() {
    assert_eq!(iroh_node::progress::u64_to_string(0), "0");
    assert_eq!(iroh_node::progress::u64_to_string(512), "512");
    assert_eq!(iroh_node::progress::u64_to_string(18446744073709551615), "18446744073709551615");
}

#[test]
fn standalone_adapter_wraps_the_client() {
    let mut adapter =
        iroh_node::standalone::StandaloneAdapter::new(transfer_config()).expect("new");
    adapter
        .upload_file(&UploadRequest { file_path: "/x/a.txt".to_string() }, 3, &vec![7u8; 32])
        .expect("upload");
    assert_eq!(adapter.client().index.len(), 1);
    let share = adapter.get_share_code().expect("share");
    let (_, entries) = adapter
        .download_files(&DownloadRequest { doc_ticket: share.doc_ticket, download_dir: None })
        .expect("download");
    assert_eq!(entries.len(), 1);
    adapter.remove_file(&RemoveRequest { file_path: "a.txt".to_string() }).expect("remove");
    assert!(adapter.client().index.is_empty());
}
