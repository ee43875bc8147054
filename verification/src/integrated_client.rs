//! The integrated client: file transfer and chat composed, so a file can be
//! uploaded and its share ticket posted as a chat message in one call, and a
//! chat file-share message resolved back into a download.

use vstd::prelude::*;
use vstd::string::StringExecFns;

use crate::chat::{
    ChatConfig, ChatKindView, ChatMessage, CreateRoomRequest, JoinRoomRequest, LeaveRoomRequest,
    SendMessageRequest,
};
use crate::chat_client::{IrohChatClient, JoinOutcome, LeaveOutcome, SendOutcome};
use crate::client::{entries_view, index_from_bytes_spec, is_file_name_of, FileEntry, IrohClient};
use crate::progress::ProgressNotifier;
use crate::ticket::{ascii_lower_of, base32_lower_of};
use crate::transfer_error::{IrohTransferError, TransferResult};
use crate::types::{DownloadRequest, RemoveRequest, ShareResponse, TransferConfig, UploadRequest};

verus! {

/// File transfer and chat in one client. The chat half is optional and can
/// be enabled after construction.
pub struct IrohIntegratedClient {
    pub transfer_client: IrohClient,
    pub chat_client: Option<IrohChatClient>,
    pub transfer_config: TransferConfig,
    pub chat_config: ChatConfig,
}

impl IrohIntegratedClient {
    pub open spec fn wf(&self) -> bool {
        &&& self.transfer_client.wf()
        &&& (self.chat_client matches Some(c) ==> c.wf())
    }

    pub open spec fn chat_enabled(&self) -> bool {
        self.chat_client is Some
    }

    /// Build an integrated client with chat disabled.
    pub fn new(transfer_config: TransferConfig, chat_config: ChatConfig) -> (r: TransferResult<
        IrohIntegratedClient,
    >)
        ensures
            match r {
                Ok(c) => {
                    &&& c.wf()
                    &&& !c.chat_enabled()
                    &&& c.transfer_client.entries().len() == 0
                    &&& c.transfer_config@ == transfer_config@
                    &&& c.chat_config@ == chat_config@
                },
                Err(_) => false,
            },
    {
        let transfer_client = match IrohClient::new(transfer_config.duplicate()) {
            Ok(c) => c,
            Err(e) => {
                return Err(e);
            },
        };
        Ok(
            IrohIntegratedClient {
                transfer_client,
                chat_client: None,
                transfer_config,
                chat_config,
            },
        )
    }

    /// Enable the chat half; enabling twice changes nothing.
    pub fn enable_chat(&mut self) -> (r: TransferResult<()>)
        requires
            old(self).wf(),
        ensures
            final(self).wf(),
            r is Ok,
            final(self).chat_enabled(),
            final(self).transfer_client == old(self).transfer_client,
            old(self).chat_enabled() ==> *final(self) == *old(self),
    {
        if self.chat_client.is_some() {
            return Ok(());
        }
        let chat_client = IrohChatClient::new(self.chat_config.duplicate());
        self.chat_client = Some(chat_client);
        Ok(())
    }

    /// Disable the chat half, leaving every joined room first. The returned
    /// outcomes carry the "left" notices for the runtime to broadcast.
    pub fn disable_chat(&mut self) -> (r: TransferResult<Vec<LeaveOutcome>>)
        requires
            old(self).wf(),
        ensures
            final(self).wf(),
            r is Ok,
            !final(self).chat_enabled(),
            final(self).transfer_client == old(self).transfer_client,
    {
        let mut outcomes: Vec<LeaveOutcome> = Vec::new();
        let cc = self.chat_client.take();
        match cc {
            Some(mut client) => {
                let rooms = client.get_joined_rooms();
                let mut i: usize = 0;
                while i < rooms.len()
                    invariant
                        client.wf(),
                    decreases rooms@.len() - i,
                {
                    let request = LeaveRoomRequest { room_id: rooms[i].id.clone() };
                    match client.leave_room(request) {
                        Ok(o) => outcomes.push(o),
                        Err(_) => {},
                    }
                    i += 1;
                }
            },
            None => {},
        }
        Ok(outcomes)
    }

    /// Whether chat is enabled.
    pub fn is_chat_enabled(&self) -> (r: bool)
        ensures
            r == self.chat_enabled(),
    {
        self.chat_client.is_some()
    }

    /// Upload a file into the local store; see
    /// [`IrohClient::upload_file`] for the exact contract — in particular a
    /// name that maps to an existing store key is refused and nothing is
    /// overwritten.
    pub fn upload_file<N: ProgressNotifier>(
        &mut self,
        request: &UploadRequest,
        size: u64,
        hash: &Vec<u8>,
        notifier: &N,
    ) -> (r: TransferResult<()>)
        requires
            old(self).wf(),
            hash@.len() < 0x1_0000_0000,
        ensures
            final(self).wf(),
            final(self).chat_client == old(self).chat_client,
            match r {
                Ok(_) => exists|name: Seq<char>|
                    {
                        &&& #[trigger] is_file_name_of(request.file_path@, name)
                        &&& name.len() > 0
                        &&& !crate::client::index_has_key(
                            old(self).transfer_client.entries(),
                            crate::client::key_of(name),
                        )
                        &&& final(self).transfer_client.entries() == old(
                            self,
                        ).transfer_client.entries().push(
                            crate::client::FileEntryView {
                                key: crate::client::key_of(name),
                                name,
                                size,
                                hash: hash@,
                            },
                        )
                    },
                Err(e) => {
                    &&& *final(self) == *old(self)
                    &&& match e {
                        IrohTransferError::DuplicateFileName(n) => is_file_name_of(
                            request.file_path@,
                            n@,
                        ) && old(self).transfer_client.has_key(crate::client::key_of(n@)),
                        IrohTransferError::FileNotFound(_) => forall|name: Seq<char>|
                            #[trigger] is_file_name_of(request.file_path@, name) ==> name.len()
                                == 0,
                        IrohTransferError::Other(_) => exists|name: Seq<char>|
                            #[trigger] is_file_name_of(request.file_path@, name) && name.len() > 0
                                && (!crate::wire::str_wf(name) || old(
                                self,
                            ).transfer_client.entries().len() + 1 >= 0x1_0000_0000),
                        _ => false,
                    }
                },
            },
    {
        self.transfer_client.upload_file(request, size, hash, notifier)
    }

    /// Download the files behind a share ticket; see
    /// [`IrohClient::download_files`].
    pub fn download_files<N: ProgressNotifier>(&self, request: &DownloadRequest, notifier: &N) -> (r:
        TransferResult<(String, Vec<FileEntry>)>)
        ensures
            match r {
                Ok(p) => {
                    &&& (forall|b: Seq<u8>|
                        ascii_lower_of(request.doc_ticket@) == base32_lower_of(b)
                            ==> index_from_bytes_spec(b) == Some(entries_view(p.1@)))
                    &&& (exists|b: Seq<u8>|
                        ascii_lower_of(request.doc_ticket@) == base32_lower_of(b)
                            && #[trigger] index_from_bytes_spec(b) == Some(entries_view(p.1@)))
                    &&& (request.download_dir is None
                        ==> self.transfer_client.config.download_dir is Some)
                },
                Err(e) => match e {
                    IrohTransferError::TicketParse(_) => forall|b: Seq<u8>|
                        ascii_lower_of(request.doc_ticket@) == base32_lower_of(b)
                            ==> index_from_bytes_spec(b) is None,
                    IrohTransferError::DownloadDirNotFound => request.download_dir is None
                        && self.transfer_client.config.download_dir is None,
                    _ => false,
                },
            },
    {
        self.transfer_client.download_files(request, notifier)
    }

    /// A share ticket for the current document index; see
    /// [`IrohClient::get_share_code`].
    pub fn get_share_code(&self) -> (r: TransferResult<ShareResponse>)
        requires
            self.wf(),
        ensures
            match r {
                Ok(resp) => {
                    &&& resp.doc_ticket@ == base32_lower_of(
                        crate::client::enc_index(self.transfer_client.entries()),
                    )
                    &&& index_from_bytes_spec(
                        crate::client::enc_index(self.transfer_client.entries()),
                    ) == Some(self.transfer_client.entries())
                },
                Err(_) => false,
            },
    {
        self.transfer_client.get_share_code()
    }

    /// Remove a file's index entry; see [`IrohClient::remove_file`].
    pub fn remove_file(&mut self, request: &RemoveRequest) -> (r: TransferResult<()>)
        requires
            old(self).wf(),
        ensures
            final(self).wf(),
            final(self).chat_client == old(self).chat_client,
            match r {
                Ok(_) => exists|name: Seq<char>|
                    {
                        &&& #[trigger] is_file_name_of(request.file_path@, name)
                        &&& !final(self).transfer_client.has_key(crate::client::key_of(name))
                        &&& forall|k2: Seq<u8>|
                            k2 != crate::client::key_of(name)
                                ==> (final(self).transfer_client.has_key(k2) <==> old(
                                self,
                            ).transfer_client.has_key(k2))
                    },
                Err(e) => {
                    &&& *final(self) == *old(self)
                    &&& e is FileNotFound
                    &&& forall|name: Seq<char>|
                        #[trigger] is_file_name_of(request.file_path@, name) ==> name.len() == 0
                },
            },
    {
        self.transfer_client.remove_file(request)
    }

    /// Create a chat room; fails when chat is disabled.
    pub fn create_chat_room(&mut self, request: CreateRoomRequest) -> (r: TransferResult<
        JoinOutcome,
    >)
        requires
            old(self).wf(),
        ensures
            final(self).wf(),
            final(self).transfer_client == old(self).transfer_client,
            !old(self).chat_enabled() ==> (r is Err && *final(self) == *old(self)),
            match r {
                Ok(o) => {
                    &&& old(self).chat_enabled()
                    &&& o.room.name@ == request.name@
                    &&& o.room@.description == (match request.description {
                        Some(d) => Some(d@),
                        None => None,
                    })
                    &&& o.room.topic_id@ == crate::chat::topic_of_room(o.room.id@)
                    &&& final(self).chat_client->0.room_of(o.room.id@) == Some(o.room@)
                    &&& o.send.topic@ == o.room.topic_id@
                    &&& o.events@.len() == 2
                    &&& (o.events@[0] matches crate::chat::ChatEvent::UserJoined(u) && u@ == old(
                        self,
                    ).chat_client->0.current_user@)
                    &&& (o.events@[1] matches crate::chat::ChatEvent::RoomCreated(rm) && rm@
                        == o.room@)
                },
                Err(e) => !old(self).chat_enabled() || (e is Other && !crate::wire::str_wf(
                    old(self).chat_client->0.current_user.name@ + " joined the room"@,
                )),
            },
    {
        match &mut self.chat_client {
            Some(client) => client.create_room(request),
            None => Err(chat_disabled_error()),
        }
    }

    /// Join a chat room; fails when chat is disabled.
    pub fn join_chat_room(&mut self, request: JoinRoomRequest) -> (r: TransferResult<JoinOutcome>)
        requires
            old(self).wf(),
        ensures
            final(self).wf(),
            final(self).transfer_client == old(self).transfer_client,
            !old(self).chat_enabled() ==> (r is Err && *final(self) == *old(self)),
            match r {
                Ok(o) => {
                    &&& old(self).chat_enabled()
                    &&& o.room.id@ == request.room_id@
                    &&& o.room.topic_id@ == crate::chat::topic_of_room(request.room_id@)
                    &&& final(self).chat_client->0.room_of(request.room_id@) == Some(o.room@)
                    &&& o.send.topic@ == o.room.topic_id@
                },
                Err(e) => !old(self).chat_enabled() || (e is Other && !(crate::wire::str_wf(
                    old(self).chat_client->0.current_user.name@ + " joined the room"@,
                ) && crate::wire::str_wf(request.room_id@))),
            },
    {
        match &mut self.chat_client {
            Some(client) => client.join_room(request),
            None => Err(chat_disabled_error()),
        }
    }

    /// Send a chat message; fails when chat is disabled.
    pub fn send_chat_message(&mut self, request: SendMessageRequest) -> (r: TransferResult<
        SendOutcome,
    >)
        requires
            old(self).wf(),
        ensures
            final(self).wf(),
            final(self).transfer_client == old(self).transfer_client,
            !old(self).chat_enabled() ==> (r is Err && *final(self) == *old(self)),
            match r {
                Ok(o) => {
                    &&& old(self).chat_enabled()
                    &&& old(self).chat_client->0.room_of(request.room_id@) is Some
                    &&& o.message@.content == request.content@
                    &&& o.message@.message_type == request.message_type@
                    &&& o.message@.room_id == request.room_id@
                    &&& o.message@.sender_id == old(self).chat_client->0.current_user.id@
                    &&& o.message@.sender_name == old(self).chat_client->0.current_user.name@
                    &&& o.bytes@ == crate::chat::enc_chat_message(o.message@)
                    &&& final(self).chat_client->0.history_of(request.room_id@)
                        == crate::chat::bounded_append(
                        old(self).chat_client->0.history_of(request.room_id@),
                        o.message@,
                        old(self).chat_client->0.config.max_message_history,
                    )
                },
                Err(e) => !old(self).chat_enabled() || (e is Other && (old(
                    self,
                ).chat_client->0.room_of(request.room_id@) is None || !(crate::wire::str_wf(
                    old(self).chat_client->0.current_user.id@,
                ) && crate::wire::str_wf(old(self).chat_client->0.current_user.name@)
                    && crate::wire::str_wf(request.content@) && crate::chat::chat_kind_wf(
                    request.message_type@,
                ) && crate::wire::str_wf(request.room_id@)))),
            },
    {
        match &mut self.chat_client {
            Some(client) => client.send_message(request),
            None => Err(chat_disabled_error()),
        }
    }

    /// Leave a chat room; fails when chat is disabled.
    pub fn leave_chat_room(&mut self, request: LeaveRoomRequest) -> (r: TransferResult<
        LeaveOutcome,
    >)
        requires
            old(self).wf(),
        ensures
            final(self).wf(),
            final(self).transfer_client == old(self).transfer_client,
            !old(self).chat_enabled() ==> (r is Err && *final(self) == *old(self)),
            old(self).chat_enabled() ==> r is Ok,
            match r {
                Ok(o) => {
                    &&& old(self).chat_enabled()
                    &&& final(self).chat_client->0.room_of(request.room_id@) is None
                    &&& o.events@.len() == 1
                    &&& (o.events@[0] matches crate::chat::ChatEvent::UserLeft {
                        user_id,
                        user_name,
                    } && user_id@ == old(self).chat_client->0.current_user.id@ && user_name@ == old(
                        self,
                    ).chat_client->0.current_user.name@)
                },
                Err(_) => !old(self).chat_enabled(),
            },
    {
        match &mut self.chat_client {
            Some(client) => client.leave_room(request),
            None => Err(chat_disabled_error()),
        }
    }

    /// Share a file into a chat room; fails when chat is disabled, and with
    /// a feature-disabled error when file sharing is off.
    pub fn share_file_in_chat(&mut self, room_id: String, file_name: String, doc_ticket: String) -> (r:
        TransferResult<SendOutcome>)
        requires
            old(self).wf(),
        ensures
            final(self).wf(),
            final(self).transfer_client == old(self).transfer_client,
            !old(self).chat_enabled() ==> (r is Err && *final(self) == *old(self)),
            match r {
                Ok(o) => {
                    &&& old(self).chat_enabled()
                    &&& old(self).chat_client->0.config.enable_file_sharing
                    &&& old(self).chat_client->0.room_of(room_id@) is Some
                    &&& o.message@.message_type == (ChatKindView::FileShare {
                        file_name: file_name@,
                        doc_ticket: doc_ticket@,
                    })
                    &&& o.message@.room_id == room_id@
                    &&& o.bytes@ == crate::chat::enc_chat_message(o.message@)
                    &&& final(self).chat_client->0.history_of(room_id@)
                        == crate::chat::bounded_append(
                        old(self).chat_client->0.history_of(room_id@),
                        o.message@,
                        old(self).chat_client->0.config.max_message_history,
                    )
                },
                Err(e) => {
                    &&& *final(self) == *old(self)
                    &&& (!old(self).chat_enabled() || (e is Other && (!old(
                        self,
                    ).chat_client->0.config.enable_file_sharing || old(self).chat_client->0.room_of(
                        room_id@,
                    ) is None || !(crate::wire::str_wf(old(self).chat_client->0.current_user.id@)
                        && crate::wire::str_wf(old(self).chat_client->0.current_user.name@)
                        && crate::wire::str_wf("shared a file: "@ + file_name@)
                        && crate::wire::str_wf(file_name@) && crate::wire::str_wf(doc_ticket@)
                        && crate::wire::str_wf(room_id@)))))
                },
            },
    {
        match &mut self.chat_client {
            Some(client) => client.share_file(room_id, file_name, doc_ticket),
            None => Err(chat_disabled_error()),
        }
    }

    /// The rooms joined by the chat half; fails when chat is disabled.
    pub fn get_joined_rooms(&self) -> (r: TransferResult<Vec<crate::chat::ChatRoom>>)
        ensures
            match r {
                Ok(rooms) => self.chat_enabled() && crate::chat_client::rooms_view(rooms@)
                    == self.chat_client->0.rooms(),
                Err(_) => !self.chat_enabled(),
            },
    {
        match &self.chat_client {
            Some(client) => Ok(client.get_joined_rooms()),
            None => Err(chat_disabled_error()),
        }
    }

    /// A room's kept history; fails when chat is disabled.
    pub fn get_message_history(&self, room_id: &str) -> (r: TransferResult<Vec<ChatMessage>>)
        ensures
            match r {
                Ok(msgs) => self.chat_enabled() && crate::chat_client::messages_view(msgs@)
                    == self.chat_client->0.history_of(room_id@),
                Err(_) => !self.chat_enabled(),
            },
    {
        match &self.chat_client {
            Some(client) => Ok(client.get_message_history(room_id)),
            None => Err(chat_disabled_error()),
        }
    }

    /// Upload a file, obtain a share ticket for the index, and post a
    /// file-share message into the room. Two independently-failable steps:
    /// when posting fails after a successful upload, the file stays uploaded
    /// and shareable — there is no rollback.
    pub fn upload_and_share_file<N: ProgressNotifier>(
        &mut self,
        upload_request: &UploadRequest,
        room_id: String,
        size: u64,
        hash: &Vec<u8>,
        notifier: &N,
    ) -> (r: TransferResult<SendOutcome>)
        requires
            old(self).wf(),
            hash@.len() < 0x1_0000_0000,
        ensures
            final(self).wf(),
            match r {
                Ok(o) => {
                    &&& old(self).chat_enabled()
                    &&& exists|name: Seq<char>|
                        #[trigger] is_file_name_of(upload_request.file_path@, name)
                            && final(self).transfer_client.entries() == old(
                            self,
                        ).transfer_client.entries().push(
                            crate::client::FileEntryView {
                                key: crate::client::key_of(name),
                                name,
                                size,
                                hash: hash@,
                            },
                        )
                    &&& o.message@.message_type matches ChatKindView::FileShare {
                        file_name: _,
                        doc_ticket: t,
                    } && t == base32_lower_of(
                        crate::client::enc_index(final(self).transfer_client.entries()),
                    )
                },
                Err(_) => {
                    // Either the upload step itself failed and nothing changed,
                    ||| (*final(self) == *old(self) && ((exists|name: Seq<char>|
                        #[trigger] is_file_name_of(upload_request.file_path@, name) && (old(
                            self,
                        ).transfer_client.has_key(crate::client::key_of(name))
                            || !crate::wire::str_wf(name))) || (forall|name: Seq<char>|
                        #[trigger] is_file_name_of(upload_request.file_path@, name) ==> name.len()
                            == 0) || old(self).transfer_client.entries().len() + 1
                        >= 0x1_0000_0000))
                    // or the file was uploaded, the later share step failed, and
                    // the upload is not rolled back.
                    ||| (final(self).chat_client == old(self).chat_client
                        && exists|name: Seq<char>|
                        #[trigger] is_file_name_of(upload_request.file_path@, name)
                            && final(self).transfer_client.entries() == old(
                            self,
                        ).transfer_client.entries().push(
                            (crate::client::FileEntryView {
                                key: crate::client::key_of(name),
                                name,
                                size,
                                hash: hash@,
                            }),
                        ))
                },
            },
    {
        match self.transfer_client.upload_file(upload_request, size, hash, notifier) {
            Ok(_) => {},
            Err(e) => {
                return Err(e);
            },
        }
        let share_response = match self.transfer_client.get_share_code() {
            Ok(resp) => resp,
            Err(e) => {
                return Err(e);
            },
        };
        let file_name = crate::client::file_name_of_path(upload_request.file_path.as_str());
        self.share_file_in_chat(room_id, file_name, share_response.doc_ticket)
    }

    /// Resolve a chat file-share message back into a download: the ticket is
    /// taken from the message and no directory override is applied, so the
    /// client's configured default decides. A message of any other kind is
    /// refused with a distinguishable type-mismatch error.
    pub fn download_file_from_chat<N: ProgressNotifier>(
        &self,
        message: &ChatMessage,
        notifier: &N,
    ) -> (r: TransferResult<(String, Vec<FileEntry>)>)
        ensures
            match r {
                Ok(p) => {
                    &&& message@.message_type matches ChatKindView::FileShare {
                        file_name: _,
                        doc_ticket: t,
                    } && (forall|b: Seq<u8>|
                        ascii_lower_of(t) == base32_lower_of(b) ==> index_from_bytes_spec(b)
                            == Some(entries_view(p.1@))) && (exists|b: Seq<u8>|
                        ascii_lower_of(t) == base32_lower_of(b)
                            && #[trigger] index_from_bytes_spec(b) == Some(entries_view(p.1@)))
                    &&& self.transfer_client.config.download_dir is Some
                    &&& p.0@ == "files downloaded to: "@
                        + self.transfer_client.config@.download_dir->0
                },
                Err(e) => {
                    &&& (e is Other <==> !(message.message_type is FileShare))
                    &&& (e is TicketParse ==> (message@.message_type
                        matches ChatKindView::FileShare { file_name: _, doc_ticket: t } && forall|
                        b: Seq<u8>,
                    |
                        ascii_lower_of(t) == base32_lower_of(b) ==> index_from_bytes_spec(
                            b,
                        ) is None))
                    &&& (e is DownloadDirNotFound
                        ==> self.transfer_client.config.download_dir is None)
                    &&& (e is Other || e is TicketParse || e is DownloadDirNotFound)
                },
            },
    {
        match &message.message_type {
            crate::chat::MessageType::FileShare { file_name: _, doc_ticket } => {
                let request = DownloadRequest { doc_ticket: doc_ticket.clone(), download_dir: None };
                self.transfer_client.download_files(&request, notifier)
            },
            _ => Err(IrohTransferError::other("the message is not a file share")),
        }
    }

    /// The underlying transfer client.
    pub fn transfer_client(&self) -> (r: &IrohClient)
        ensures
            r == &self.transfer_client,
    {
        &self.transfer_client
    }

    /// The underlying chat client, when enabled.
    pub fn chat_client(&self) -> (r: Option<&IrohChatClient>)
        ensures
            match r {
                Some(c) => self.chat_enabled() && c == &self.chat_client->0,
                None => !self.chat_enabled(),
            },
    {
        match &self.chat_client {
            Some(c) => Some(c),
            None => None,
        }
    }

    /// Update the configured chat user name. Refused while chat is enabled:
    /// disable chat, update, and re-enable instead.
    pub fn update_chat_user_name(&mut self, new_name: String) -> (r: TransferResult<()>)
        ensures
            old(self).chat_enabled() ==> (r is Err && *final(self) == *old(self)),
            !old(self).chat_enabled() ==> (r is Ok && final(self).chat_config.user_name@
                == new_name@),
    {
        if self.chat_client.is_some() {
            return Err(
                IrohTransferError::other(
                    "disable chat, update the name, then enable chat again",
                ),
            );
        }
        self.chat_config.user_name = new_name;
        Ok(())
    }
}

fn chat_disabled_error() -> (r: IrohTransferError)
    ensures
        r is Other,
{
    IrohTransferError::other("chat is not enabled; call enable_chat first")
}

/// Builds an [`IrohIntegratedClient`] from its two configurations.
pub struct IntegratedClientBuilder {
    pub transfer_config: TransferConfig,
    pub chat_config: ChatConfig,
    pub enable_chat: bool,
}

impl IntegratedClientBuilder {
    /// Start from the default configurations, with chat off.
    pub fn new() -> (r: IntegratedClientBuilder)
        ensures
            !r.enable_chat,
            r.transfer_config.data_root@ == "iroh_data"@,
            r.transfer_config.download_dir is None,
            !r.transfer_config.verbose_logging,
            r.chat_config.max_message_history == 1000,
            r.chat_config.enable_file_sharing,
            r.chat_config.user_name@.len() == 13,
    {
        IntegratedClientBuilder {
            transfer_config: TransferConfig::default(),
            chat_config: ChatConfig::default(),
            enable_chat: false,
        }
    }

    pub fn transfer_config(self, config: TransferConfig) -> (r: IntegratedClientBuilder)
        ensures
            r == (IntegratedClientBuilder { transfer_config: config, ..self }),
    {
        IntegratedClientBuilder { transfer_config: config, ..self }
    }

    pub fn chat_config(self, config: ChatConfig) -> (r: IntegratedClientBuilder)
        ensures
            r == (IntegratedClientBuilder { chat_config: config, ..self }),
    {
        IntegratedClientBuilder { chat_config: config, ..self }
    }

    pub fn enable_chat(self, enable: bool) -> (r: IntegratedClientBuilder)
        ensures
            r == (IntegratedClientBuilder { enable_chat: enable, ..self }),
    {
        IntegratedClientBuilder { enable_chat: enable, ..self }
    }

    /// Build the client, enabling chat when asked to.
    pub fn build(self) -> (r: TransferResult<IrohIntegratedClient>)
        ensures
            match r {
                Ok(c) => c.wf() && (c.chat_enabled() <==> self.enable_chat),
                Err(_) => false,
            },
    {
        let mut client = match IrohIntegratedClient::new(self.transfer_config, self.chat_config) {
            Ok(c) => c,
            Err(e) => {
                return Err(e);
            },
        };
        if self.enable_chat {
            match client.enable_chat() {
                Ok(_) => {},
                Err(e) => {
                    return Err(e);
                },
            }
        }
        Ok(client)
    }
}

impl Default for IntegratedClientBuilder {
    fn default() -> (r: IntegratedClientBuilder)
        ensures
            !r.enable_chat,
    {
        IntegratedClientBuilder::new()
    }
}

} // verus!
