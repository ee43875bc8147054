//! Transfer-layer value objects.

use vstd::prelude::*;
use vstd::string::StringExecFns;

verus! {

/// File transfer configuration. Paths are carried as text; the surrounding
/// runtime resolves them against the file system.
pub struct TransferConfig {
    /// The root directory of the local content-addressed store.
    pub data_root: String,
    /// The default download directory, when one is configured.
    pub download_dir: Option<String>,
    /// Whether verbose logging is enabled.
    pub verbose_logging: bool,
}

#[verifier::ext_equal]
pub ghost struct TransferConfigView {
    pub data_root: Seq<char>,
    pub download_dir: Option<Seq<char>>,
    pub verbose_logging: bool,
}

impl View for TransferConfig {
    type V = TransferConfigView;

    open spec fn view(&self) -> TransferConfigView {
        TransferConfigView {
            data_root: self.data_root@,
            download_dir: match self.download_dir {
                Some(ref d) => Some(d@),
                None => None,
            },
            verbose_logging: self.verbose_logging,
        }
    }
}

impl Default for TransferConfig {
    /// A local store under `iroh_data`, no download directory, quiet logs.
    fn default() -> (r: TransferConfig)
        ensures
            r.data_root@ == "iroh_data"@,
            r.download_dir is None,
            !r.verbose_logging,
    {
        TransferConfig {
            data_root: String::from_str("iroh_data"),
            download_dir: None,
            verbose_logging: false,
        }
    }
}

impl TransferConfig {
    /// Copy the configuration.
    pub fn duplicate(&self) -> (r: TransferConfig)
        ensures
            r@ == self@,
    {
        let r = TransferConfig {
            data_root: self.data_root.clone(),
            download_dir: match &self.download_dir {
                Some(d) => Some(d.clone()),
                None => None,
            },
            verbose_logging: self.verbose_logging,
        };
        assert(r@ =~= self@);
        r
    }
}

/// Request to download the files behind a share ticket.
pub struct DownloadRequest {
    /// The share ticket in text form.
    pub doc_ticket: String,
    /// An overriding download directory.
    pub download_dir: Option<String>,
}

/// Request to upload one local file.
pub struct UploadRequest {
    /// The path of the file to upload.
    pub file_path: String,
}

/// Request to remove one file from the local index.
pub struct RemoveRequest {
    /// The path whose file name names the entry to remove.
    pub file_path: String,
}

/// A share ticket for the caller's current document index.
pub struct ShareResponse {
    /// The share ticket in text form.
    pub doc_ticket: String,
}

/// Information about one stored file.
pub struct FileInfo {
    pub id: String,
    pub name: String,
    pub size: u64,
    pub path: String,
}

/// The handles of the local store: the writing author and the document the
/// index lives in, both as 32-byte identifiers.
pub struct IrohState {
    pub author: Vec<u8>,
    pub doc: Vec<u8>,
}

impl IrohState {
    pub fn new(author: Vec<u8>, doc: Vec<u8>) -> (r: IrohState)
        ensures
            r.author@ == author@,
            r.doc@ == doc@,
    {
        IrohState { author, doc }
    }
}

} // verus!
