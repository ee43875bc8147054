//! Errors of the transfer and chat client layer.

use vstd::prelude::*;
use vstd::string::StringExecFns;

verus! {

/// A transfer-layer failure.
#[derive(Debug)]
pub enum IrohTransferError {
    /// The store client failed.
    IrohClient(String),
    /// A document operation failed.
    DocError(String),
    /// An input/output failure.
    Io(String),
    /// A share ticket could not be parsed.
    TicketParse(String),
    /// The named file does not exist.
    FileNotFound(String),
    /// A file with the same store key already exists; nothing is overwritten.
    DuplicateFileName(String),
    /// No download directory was given and none is configured.
    DownloadDirNotFound,
    /// Bad configuration.
    Config(String),
    /// A network failure.
    Network(String),
    /// Any other failure.
    Other(String),
}

pub type TransferResult<T> = Result<T, IrohTransferError>;

/// The detail text an error displays, prefixed by its kind.
pub open spec fn error_text_spec(e: &IrohTransferError) -> Seq<char> {
    match *e {
        IrohTransferError::IrohClient(ref m) => "iroh client error: "@ + m@,
        IrohTransferError::DocError(ref m) => "document error: "@ + m@,
        IrohTransferError::Io(ref m) => "io error: "@ + m@,
        IrohTransferError::TicketParse(ref m) => "ticket parse error: "@ + m@,
        IrohTransferError::FileNotFound(ref m) => "file not found: "@ + m@,
        IrohTransferError::DuplicateFileName(ref m) => "duplicate file name: "@ + m@,
        IrohTransferError::DownloadDirNotFound => "download directory not found"@,
        IrohTransferError::Config(ref m) => "config error: "@ + m@,
        IrohTransferError::Network(ref m) => "network error: "@ + m@,
        IrohTransferError::Other(ref m) => "other error: "@ + m@,
    }
}

impl IrohTransferError {
    /// A ticket parse error.
    pub fn ticket_parse(msg: &str) -> (r: IrohTransferError)
        ensures
            r matches IrohTransferError::TicketParse(m) && m@ == msg@,
    {
        IrohTransferError::TicketParse(String::from_str(msg))
    }

    /// A file-not-found error.
    pub fn file_not_found(path: &str) -> (r: IrohTransferError)
        ensures
            r matches IrohTransferError::FileNotFound(m) && m@ == path@,
    {
        IrohTransferError::FileNotFound(String::from_str(path))
    }

    /// A duplicate-file-name error.
    pub fn duplicate_file_name(name: &str) -> (r: IrohTransferError)
        ensures
            r matches IrohTransferError::DuplicateFileName(m) && m@ == name@,
    {
        IrohTransferError::DuplicateFileName(String::from_str(name))
    }

    /// A configuration error.
    pub fn config(msg: &str) -> (r: IrohTransferError)
        ensures
            r matches IrohTransferError::Config(m) && m@ == msg@,
    {
        IrohTransferError::Config(String::from_str(msg))
    }

    /// A network error.
    pub fn network(msg: &str) -> (r: IrohTransferError)
        ensures
            r matches IrohTransferError::Network(m) && m@ == msg@,
    {
        IrohTransferError::Network(String::from_str(msg))
    }

    /// Any other error.
    pub fn other(msg: &str) -> (r: IrohTransferError)
        ensures
            r matches IrohTransferError::Other(m) && m@ == msg@,
    {
        IrohTransferError::Other(String::from_str(msg))
    }

    /// The error's display text.
    pub fn message(&self) -> (r: String)
        ensures
            r@ == error_text_spec(self),
    {
        match self {
            IrohTransferError::IrohClient(m) => prefixed("iroh client error: ", m),
            IrohTransferError::DocError(m) => prefixed("document error: ", m),
            IrohTransferError::Io(m) => prefixed("io error: ", m),
            IrohTransferError::TicketParse(m) => prefixed("ticket parse error: ", m),
            IrohTransferError::FileNotFound(m) => prefixed("file not found: ", m),
            IrohTransferError::DuplicateFileName(m) => prefixed("duplicate file name: ", m),
            IrohTransferError::DownloadDirNotFound => String::from_str(
                "download directory not found",
            ),
            IrohTransferError::Config(m) => prefixed("config error: ", m),
            IrohTransferError::Network(m) => prefixed("network error: ", m),
            IrohTransferError::Other(m) => prefixed("other error: ", m),
        }
    }
}

fn prefixed(prefix: &str, detail: &String) -> (r: String)
    ensures
        r@ == prefix@ + detail@,
{
    let mut out = String::from_str(prefix);
    out.append(detail.as_str());
    out
}

} // verus!
