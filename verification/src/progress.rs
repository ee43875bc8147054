//! Transfer progress events and the pluggable notifier.
//!
//! Events are emitted through a [`ProgressNotifier`]; the transfer core stays
//! ignorant of which concrete sink is attached.

use vstd::prelude::*;
use vstd::string::StringExecFns;

use crate::wire::ascii_to_string;

verus! {

/// A transfer progress event, for both directions.
pub enum TransferEvent {
    /// A file was found and queued for download.
    DownloadQueueAppend { id: String, size: u64, name: String },
    /// Download progress, in bytes from the start.
    DownloadProgress { id: String, offset: u64 },
    /// One file finished downloading.
    DownloadDone { id: String },
    /// A file was found and queued for upload.
    UploadQueueAppend { id: String, size: u64, title: String },
    /// Upload progress, in bytes from the start.
    UploadProgress { id: String, offset: u64 },
    /// One file finished uploading.
    UploadDone { id: String },
    /// The transfer failed; the operation is aborted, not retried.
    TransferError { id: String, error: String },
}

#[verifier::ext_equal]
pub ghost enum TransferEventView {
    DownloadQueueAppend { id: Seq<char>, size: u64, name: Seq<char> },
    DownloadProgress { id: Seq<char>, offset: u64 },
    DownloadDone { id: Seq<char> },
    UploadQueueAppend { id: Seq<char>, size: u64, title: Seq<char> },
    UploadProgress { id: Seq<char>, offset: u64 },
    UploadDone { id: Seq<char> },
    TransferError { id: Seq<char>, error: Seq<char> },
}

impl View for TransferEvent {
    type V = TransferEventView;

    open spec fn view(&self) -> TransferEventView {
        match *self {
            TransferEvent::DownloadQueueAppend { ref id, size, ref name } => TransferEventView::DownloadQueueAppend {
                id: id@,
                size,
                name: name@,
            },
            TransferEvent::DownloadProgress { ref id, offset } => TransferEventView::DownloadProgress {
                id: id@,
                offset,
            },
            TransferEvent::DownloadDone { ref id } => TransferEventView::DownloadDone { id: id@ },
            TransferEvent::UploadQueueAppend { ref id, size, ref title } => TransferEventView::UploadQueueAppend {
                id: id@,
                size,
                title: title@,
            },
            TransferEvent::UploadProgress { ref id, offset } => TransferEventView::UploadProgress {
                id: id@,
                offset,
            },
            TransferEvent::UploadDone { ref id } => TransferEventView::UploadDone { id: id@ },
            TransferEvent::TransferError { ref id, ref error } => TransferEventView::TransferError {
                id: id@,
                error: error@,
            },
        }
    }
}

// ---------------------------------------------------------------------------
// Decimal rendering
// ---------------------------------------------------------------------------

/// The ASCII decimal digits of an unsigned number, most significant first.
pub open spec fn dec_digits(n: u64) -> Seq<u8>
    decreases n,
{
    if n < 10 {
        seq![(0x30 + n) as u8]
    } else {
        dec_digits(n / 10) + seq![(0x30 + (n % 10)) as u8]
    }
}

/// The decimal text of an unsigned number.
pub open spec fn decimal_of(n: u64) -> Seq<char> {
    dec_digits(n).map_values(|b: u8| b as char)
}

fn push_dec(out: &mut Vec<u8>, n: u64)
    requires
        forall|i: int| 0 <= i < old(out)@.len() ==> old(out)@[i] < 0x80,
    ensures
        final(out)@ == old(out)@ + dec_digits(n),
        forall|i: int| 0 <= i < final(out)@.len() ==> final(out)@[i] < 0x80,
    decreases n,
{
    if n < 10 {
        out.push(0x30 + (n as u8));
        assert(out@ =~= old(out)@ + dec_digits(n));
    } else {
        push_dec(out, n / 10);
        let d = n % 10;
        out.push(0x30 + (d as u8));
        assert(out@ =~= old(out)@ + dec_digits(n));
    }
}

/// Render an unsigned number in decimal.
pub fn u64_to_string(n: u64) -> (r: String)
    ensures
        r@ == decimal_of(n),
{
    let mut digits: Vec<u8> = Vec::new();
    push_dec(&mut digits, n);
    assert(digits@ =~= dec_digits(n));
    ascii_to_string(digits)
}

// ---------------------------------------------------------------------------
// Event display
// ---------------------------------------------------------------------------

/// The display text of an event.
pub open spec fn event_text_spec(e: TransferEventView) -> Seq<char> {
    match e {
        TransferEventView::DownloadQueueAppend { id, size, name } => "下载队列添加: "@ + name
            + " ("@ + decimal_of(size) + "字节) - "@ + id,
        TransferEventView::DownloadProgress { id, offset } => "下载进度: "@ + id + " - "@
            + decimal_of(offset) + "字节"@,
        TransferEventView::DownloadDone { id } => "下载完成: "@ + id,
        TransferEventView::UploadQueueAppend { id, size, title } => "上传队列添加: "@ + title
            + " ("@ + decimal_of(size) + "字节) - "@ + id,
        TransferEventView::UploadProgress { id, offset } => "上传进度: "@ + id + " - "@
            + decimal_of(offset) + "字节"@,
        TransferEventView::UploadDone { id } => "上传完成: "@ + id,
        TransferEventView::TransferError { id, error } => "传输错误: "@ + id + " - "@ + error,
    }
}

impl TransferEvent {
    /// The event's display text.
    pub fn display_string(&self) -> (r: String)
        ensures
            r@ == event_text_spec(self@),
    {
        match self {
            TransferEvent::DownloadQueueAppend { id, size, name } => {
                let mut out = String::from_str("下载队列添加: ");
                out.append(name.as_str());
                out.append(" (");
                out.append(u64_to_string(*size).as_str());
                out.append("字节) - ");
                out.append(id.as_str());
                out
            },
            TransferEvent::DownloadProgress { id, offset } => {
                let mut out = String::from_str("下载进度: ");
                out.append(id.as_str());
                out.append(" - ");
                out.append(u64_to_string(*offset).as_str());
                out.append("字节");
                out
            },
            TransferEvent::DownloadDone { id } => {
                let mut out = String::from_str("下载完成: ");
                out.append(id.as_str());
                out
            },
            TransferEvent::UploadQueueAppend { id, size, title } => {
                let mut out = String::from_str("上传队列添加: ");
                out.append(title.as_str());
                out.append(" (");
                out.append(u64_to_string(*size).as_str());
                out.append("字节) - ");
                out.append(id.as_str());
                out
            },
            TransferEvent::UploadProgress { id, offset } => {
                let mut out = String::from_str("上传进度: ");
                out.append(id.as_str());
                out.append(" - ");
                out.append(u64_to_string(*offset).as_str());
                out.append("字节");
                out
            },
            TransferEvent::UploadDone { id } => {
                let mut out = String::from_str("上传完成: ");
                out.append(id.as_str());
                out
            },
            TransferEvent::TransferError { id, error } => {
                let mut out = String::from_str("传输错误: ");
                out.append(id.as_str());
                out.append(" - ");
                out.append(error.as_str());
                out
            },
        }
    }

    /// Copy the event.
    pub fn duplicate(&self) -> (r: TransferEvent)
        ensures
            r@ == self@,
    {
        let r = match self {
            TransferEvent::DownloadQueueAppend { id, size, name } => TransferEvent::DownloadQueueAppend {
                id: id.clone(),
                size: *size,
                name: name.clone(),
            },
            TransferEvent::DownloadProgress { id, offset } => TransferEvent::DownloadProgress {
                id: id.clone(),
                offset: *offset,
            },
            TransferEvent::DownloadDone { id } => TransferEvent::DownloadDone { id: id.clone() },
            TransferEvent::UploadQueueAppend { id, size, title } => TransferEvent::UploadQueueAppend {
                id: id.clone(),
                size: *size,
                title: title.clone(),
            },
            TransferEvent::UploadProgress { id, offset } => TransferEvent::UploadProgress {
                id: id.clone(),
                offset: *offset,
            },
            TransferEvent::UploadDone { id } => TransferEvent::UploadDone { id: id.clone() },
            TransferEvent::TransferError { id, error } => TransferEvent::TransferError {
                id: id.clone(),
                error: error.clone(),
            },
        };
        assert(r@ =~= self@);
        r
    }
}

// ---------------------------------------------------------------------------
// Notifiers
// ---------------------------------------------------------------------------

/// A progress sink: the transfer core calls `notify` once per event, and an
/// adapter decides what becomes of it (a broadcast channel, a callback, a
/// test capture).
pub trait ProgressNotifier {
    fn notify(&self, event: TransferEvent);
}

/// The default notifier: it discards events.
pub struct DefaultProgressNotifier {
}

impl DefaultProgressNotifier {
    pub fn new() -> (r: DefaultProgressNotifier) {
        DefaultProgressNotifier {  }
    }
}

impl Default for DefaultProgressNotifier {
    fn default() -> (r: DefaultProgressNotifier) {
        DefaultProgressNotifier::new()
    }
}

impl ProgressNotifier for DefaultProgressNotifier {
    fn notify(&self, _event: TransferEvent) {
    }
}

} // verus!
