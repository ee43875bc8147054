//! The standalone adapter: a transfer client bundled with a default notifier
//! for embedding the library without any surrounding runtime of its own.

use vstd::prelude::*;

use crate::client::{entries_view, index_from_bytes_spec, FileEntry, IrohClient};
use crate::progress::DefaultProgressNotifier;
use crate::ticket::{ascii_lower_of, base32_lower_of};
use crate::transfer_error::{IrohTransferError, TransferResult};
use crate::types::{DownloadRequest, RemoveRequest, ShareResponse, TransferConfig, UploadRequest};

verus! {

/// A transfer client with a default (discarding) progress notifier attached.
pub struct StandaloneAdapter {
    client: IrohClient,
    notifier: DefaultProgressNotifier,
}

impl StandaloneAdapter {
    pub closed spec fn client_spec(&self) -> IrohClient {
        self.client
    }

    pub open spec fn wf(&self) -> bool {
        self.client_spec().wf()
    }

    /// A fresh adapter over an empty store.
    pub fn new(config: TransferConfig) -> (r: TransferResult<StandaloneAdapter>)
        ensures
            match r {
                Ok(a) => a.wf() && a.client_spec().entries().len() == 0,
                Err(_) => false,
            },
    {
        let client = match IrohClient::new(config) {
            Ok(c) => c,
            Err(e) => {
                return Err(e);
            },
        };
        Ok(StandaloneAdapter { client, notifier: DefaultProgressNotifier::new() })
    }

    /// A share ticket for the current index; see [`IrohClient::get_share_code`].
    pub fn get_share_code(&self) -> (r: TransferResult<ShareResponse>)
        requires
            self.wf(),
        ensures
            match r {
                Ok(resp) => resp.doc_ticket@ == base32_lower_of(
                    crate::client::enc_index(self.client_spec().entries()),
                ),
                Err(_) => false,
            },
    {
        self.client.get_share_code()
    }

    /// Decode a ticket and queue its files; see [`IrohClient::download_files`].
    pub fn download_files(&self, request: &DownloadRequest) -> (r: TransferResult<
        (String, Vec<FileEntry>),
    >)
        ensures
            match r {
                Ok(p) => {
                    &&& (forall|b: Seq<u8>|
                        ascii_lower_of(request.doc_ticket@) == base32_lower_of(b)
                            ==> index_from_bytes_spec(b) == Some(entries_view(p.1@)))
                    &&& (exists|b: Seq<u8>|
                        ascii_lower_of(request.doc_ticket@) == base32_lower_of(b)
                            && #[trigger] index_from_bytes_spec(b) == Some(entries_view(p.1@)))
                },
                Err(e) => match e {
                    IrohTransferError::TicketParse(_) => forall|b: Seq<u8>|
                        ascii_lower_of(request.doc_ticket@) == base32_lower_of(b)
                            ==> index_from_bytes_spec(b) is None,
                    IrohTransferError::DownloadDirNotFound => request.download_dir is None
                        && self.client_spec().config.download_dir is None,
                    _ => false,
                },
            },
    {
        self.client.download_files(request, &self.notifier)
    }

    /// Import a file; see [`IrohClient::upload_file`] — a duplicate store key
    /// is refused and the index is left as it was.
    pub fn upload_file(&mut self, request: &UploadRequest, size: u64, hash: &Vec<u8>) -> (r:
        TransferResult<()>)
        requires
            old(self).wf(),
            hash@.len() < 0x1_0000_0000,
        ensures
            final(self).wf(),
            match r {
                Ok(_) => exists|name: Seq<char>|
                    {
                        &&& #[trigger] crate::client::is_file_name_of(request.file_path@, name)
                        &&& name.len() > 0
                        &&& !old(self).client_spec().has_key(crate::client::key_of(name))
                        &&& final(self).client_spec().entries() == old(
                            self,
                        ).client_spec().entries().push(
                            (crate::client::FileEntryView {
                                key: crate::client::key_of(name),
                                name,
                                size,
                                hash: hash@,
                            }),
                        )
                    },
                Err(e) => {
                    &&& final(self).client_spec() == old(self).client_spec()
                    &&& match e {
                        IrohTransferError::DuplicateFileName(n) => crate::client::is_file_name_of(
                            request.file_path@,
                            n@,
                        ) && old(self).client_spec().has_key(crate::client::key_of(n@)),
                        IrohTransferError::FileNotFound(_) => forall|name: Seq<char>|
                            #[trigger] crate::client::is_file_name_of(request.file_path@, name)
                                ==> name.len() == 0,
                        IrohTransferError::Other(_) => exists|name: Seq<char>|
                            #[trigger] crate::client::is_file_name_of(request.file_path@, name)
                                && name.len() > 0 && (!crate::wire::str_wf(name) || old(
                                self,
                            ).client_spec().entries().len() + 1 >= 0x1_0000_0000),
                        _ => false,
                    }
                },
            },
    {
        self.client.upload_file(request, size, hash, &self.notifier)
    }

    /// Remove an index entry; see [`IrohClient::remove_file`].
    pub fn remove_file(&mut self, request: &RemoveRequest) -> (r: TransferResult<()>)
        requires
            old(self).wf(),
        ensures
            final(self).wf(),
            match r {
                Ok(_) => exists|name: Seq<char>|
                    {
                        &&& #[trigger] crate::client::is_file_name_of(request.file_path@, name)
                        &&& !final(self).client_spec().has_key(crate::client::key_of(name))
                        &&& forall|k2: Seq<u8>|
                            k2 != crate::client::key_of(name)
                                ==> (final(self).client_spec().has_key(k2) <==> old(
                                self,
                            ).client_spec().has_key(k2))
                    },
                Err(e) => {
                    &&& final(self).client_spec() == old(self).client_spec()
                    &&& e is FileNotFound
                    &&& forall|name: Seq<char>|
                        #[trigger] crate::client::is_file_name_of(request.file_path@, name)
                            ==> name.len() == 0
                },
            },
    {
        self.client.remove_file(request)
    }

    /// The underlying client, for advanced use.
    pub fn client(&self) -> (r: &IrohClient)
        ensures
            r == &self.client_spec(),
    {
        &self.client
    }
}

} // verus!
