//! The file-transfer client.
//!
//! Files live in a content-addressed local store; the client owns the
//! document index that maps sanitized file names to content hashes. Uploading
//! refuses to overwrite an existing entry; the index can be exported as a
//! share ticket of the same codec family as the topic tickets, and a received
//! ticket is decoded into the list of files to fetch. Reading and writing the
//! actual bytes is the runtime's part; it reports through the notifier.

use vstd::prelude::*;
use vstd::string::{StringExecFns, StrSliceExecFns};
use vstd::utf8::encode_utf8;

use crate::progress::{ProgressNotifier, TransferEvent};
use crate::ticket::{ascii_lower_of, base32_decode_folded, base32_encode_lower, base32_lower_of};
use crate::transfer_error::{IrohTransferError, TransferResult};
use crate::types::{
    DownloadRequest, IrohState, RemoveRequest, ShareResponse, TransferConfig, UploadRequest,
};
use crate::wire::{
    enc_blob, enc_str, fits_u32, le32, le64, lemma_take_blob, lemma_take_str, lemma_take_u32,
    lemma_take_u64, read_blob, read_str, read_u32, read_u64, str_len_fits, str_wf, take_blob,
    take_str, take_u32, take_u64,
};

verus! {

// ---------------------------------------------------------------------------
// Store keys and file names
// ---------------------------------------------------------------------------

/// The store key of a file name: its UTF-8 bytes, null-terminated.
pub open spec fn key_of(name: Seq<char>) -> Seq<u8> {
    encode_utf8(name) + seq![0u8]
}

/// Compute a file name's store key.
pub fn make_key(name: &str) -> (r: Vec<u8>)
    ensures
        r@ == key_of(name@),
{
    let mut out = name.as_bytes_vec();
    out.push(0);
    assert(out@ =~= key_of(name@));
    out
}

/// `n` is the file-name component of the path `p`: the suffix after the last
/// separator.
pub open spec fn is_file_name_of(p: Seq<char>, n: Seq<char>) -> bool {
    exists|j: int|
        0 <= j <= p.len() && n == p.skip(j) && (j == 0 || p[j - 1] == '/') && (forall|k: int|
            j <= k < p.len() ==> p[k] != '/')
}

/// The file-name component of a path.
pub fn file_name_of_path(path: &str) -> (r: String)
    ensures
        is_file_name_of(path@, r@),
{
    let len = path.unicode_len();
    let mut j: usize = len;
    loop
        invariant
            j <= len,
            len == path@.len(),
            forall|k: int| j <= k < len ==> path@[k] != '/',
        decreases j,
    {
        if j == 0 {
            let tail = path.substring_char(0, len);
            let r = String::from_str(tail);
            proof {
                assert(r@ =~= path@.skip(0));
            }
            return r;
        }
        if path.get_char(j - 1) == '/' {
            let tail = path.substring_char(j, len);
            let r = String::from_str(tail);
            proof {
                assert(r@ =~= path@.skip(j as int));
            }
            return r;
        }
        j -= 1;
    }
}

/// The file name of a path is unique: two suffixes that both start right
/// after a separator (or at the start) and contain none are the same.
pub proof fn lemma_file_name_unique(p: Seq<char>, n1: Seq<char>, n2: Seq<char>)
    requires
        is_file_name_of(p, n1),
        is_file_name_of(p, n2),
    ensures
        n1 == n2,
{
    let j1 = choose|j: int|
        0 <= j <= p.len() && n1 == p.skip(j) && (j == 0 || p[j - 1] == '/') && (forall|k: int|
            j <= k < p.len() ==> p[k] != '/');
    let j2 = choose|j: int|
        0 <= j <= p.len() && n2 == p.skip(j) && (j == 0 || p[j - 1] == '/') && (forall|k: int|
            j <= k < p.len() ==> p[k] != '/');
    if j1 < j2 {
        assert(p[j2 - 1] != '/');
    } else if j2 < j1 {
        assert(p[j1 - 1] != '/');
    }
}

// ---------------------------------------------------------------------------
// The document index and its share-ticket codec
// ---------------------------------------------------------------------------

/// One indexed file: its store key, display name, size, and content hash.
pub struct FileEntry {
    pub key: Vec<u8>,
    pub name: String,
    pub size: u64,
    pub hash: Vec<u8>,
}

#[verifier::ext_equal]
pub ghost struct FileEntryView {
    pub key: Seq<u8>,
    pub name: Seq<char>,
    pub size: u64,
    pub hash: Seq<u8>,
}

impl View for FileEntry {
    type V = FileEntryView;

    open spec fn view(&self) -> FileEntryView {
        FileEntryView { key: self.key@, name: self.name@, size: self.size, hash: self.hash@ }
    }
}

impl FileEntry {
    /// Copy the entry.
    pub fn duplicate(&self) -> (r: FileEntry)
        ensures
            r@ == self@,
    {
        let r = FileEntry {
            key: crate::registry::clone_bytes(&self.key),
            name: self.name.clone(),
            size: self.size,
            hash: crate::registry::clone_bytes(&self.hash),
        };
        assert(r@ =~= self@);
        r
    }
}

pub open spec fn entries_view(l: Seq<FileEntry>) -> Seq<FileEntryView> {
    l.map_values(|e: FileEntry| e@)
}

/// An entry is well formed when its texts fit the wire format and its key is
/// derived from its name.
pub open spec fn entry_wf(e: FileEntryView) -> bool {
    &&& str_wf(e.name)
    &&& fits_u32(e.hash.len() as int)
    &&& e.key == key_of(e.name)
}

/// Whether an entry with the store key exists.
pub open spec fn index_has_key(l: Seq<FileEntryView>, k: Seq<u8>) -> bool {
    exists|i: int| 0 <= i < l.len() && (#[trigger] l[i]).key == k
}

/// The ticket layout of one entry: name, size, content hash.
pub open spec fn enc_entry(e: FileEntryView) -> Seq<u8> {
    enc_str(e.name) + le64(e.size) + enc_blob(e.hash)
}

pub open spec fn take_entry(b: Seq<u8>) -> Option<(FileEntryView, Seq<u8>)> {
    match take_str(b) {
        Some((name, r1)) => match take_u64(r1) {
            Some((size, r2)) => match take_blob(r2) {
                Some((hash, r3)) => Some(
                    (FileEntryView { key: key_of(name), name, size, hash }, r3),
                ),
                None => None,
            },
            None => None,
        },
        None => None,
    }
}

pub open spec fn enc_entry_seq(l: Seq<FileEntryView>) -> Seq<u8>
    decreases l.len(),
{
    if l.len() == 0 {
        Seq::empty()
    } else {
        enc_entry(l[0]) + enc_entry_seq(l.drop_first())
    }
}

pub open spec fn take_entry_n(n: nat, b: Seq<u8>) -> Option<(Seq<FileEntryView>, Seq<u8>)>
    decreases n,
{
    if n == 0 {
        Some((Seq::empty(), b))
    } else {
        match take_entry(b) {
            Some((e, rest)) => match take_entry_n((n - 1) as nat, rest) {
                Some((l, rest2)) => Some((seq![e] + l, rest2)),
                None => None,
            },
            None => None,
        }
    }
}

/// The share-ticket layout of a whole index: the entry count, then each
/// entry.
pub open spec fn enc_index(l: Seq<FileEntryView>) -> Seq<u8> {
    le32(l.len() as u32) + enc_entry_seq(l)
}

/// Parse a complete index; trailing bytes are rejected.
pub open spec fn index_from_bytes_spec(b: Seq<u8>) -> Option<Seq<FileEntryView>> {
    match take_u32(b) {
        Some((n, r1)) => match take_entry_n(n as nat, r1) {
            Some((l, r2)) => if r2.len() == 0 {
                Some(l)
            } else {
                None
            },
            None => None,
        },
        None => None,
    }
}

pub open spec fn index_wf(l: Seq<FileEntryView>) -> bool {
    &&& fits_u32(l.len() as int)
    &&& forall|i: int| 0 <= i < l.len() ==> entry_wf(#[trigger] l[i])
    &&& forall|i: int, j: int| 0 <= i < j < l.len() ==> l[i].key != l[j].key
}

proof fn lemma_take_entry(e: FileEntryView, rest: Seq<u8>)
    requires
        entry_wf(e),
    ensures
        take_entry(enc_entry(e) + rest) == Some((e, rest)),
{
    let t1 = le64(e.size) + (enc_blob(e.hash) + rest);
    assert(enc_entry(e) + rest =~= enc_str(e.name) + t1);
    lemma_take_str(e.name, t1);
    lemma_take_u64(e.size, enc_blob(e.hash) + rest);
    lemma_take_blob(e.hash, rest);
}

proof fn lemma_take_entry_n(l: Seq<FileEntryView>, rest: Seq<u8>)
    requires
        forall|i: int| 0 <= i < l.len() ==> entry_wf(#[trigger] l[i]),
    ensures
        take_entry_n(l.len() as nat, enc_entry_seq(l) + rest) == Some((l, rest)),
    decreases l.len(),
{
    if l.len() == 0 {
        assert(enc_entry_seq(l) + rest =~= rest);
        assert(l =~= Seq::<FileEntryView>::empty());
    } else {
        let tail = l.drop_first();
        assert(enc_entry_seq(l) + rest =~= enc_entry(l[0]) + (enc_entry_seq(tail) + rest));
        lemma_take_entry(l[0], enc_entry_seq(tail) + rest);
        lemma_take_entry_n(tail, rest);
        assert(seq![l[0]] + tail =~= l);
    }
}

/// A well-formed index's ticket layout parses back to the index itself.
pub proof fn lemma_index_round_trip(l: Seq<FileEntryView>)
    requires
        index_wf(l),
    ensures
        index_from_bytes_spec(enc_index(l)) == Some(l),
{
    assert(enc_index(l) =~= le32(l.len() as u32) + (enc_entry_seq(l) + Seq::<u8>::empty()));
    lemma_take_u32(l.len() as u32, enc_entry_seq(l) + Seq::<u8>::empty());
    lemma_take_entry_n(l, Seq::<u8>::empty());
}

proof fn lemma_enc_entry_seq_snoc(l: Seq<FileEntryView>, e: FileEntryView)
    ensures
        enc_entry_seq(l.push(e)) == enc_entry_seq(l) + enc_entry(e),
    decreases l.len(),
{
    let lp = l.push(e);
    if l.len() == 0 {
        assert(lp[0] == e);
        assert(lp.drop_first() =~= Seq::<FileEntryView>::empty());
        assert(enc_entry_seq(Seq::<FileEntryView>::empty()) == Seq::<u8>::empty());
        assert(enc_entry_seq(lp) == enc_entry(e) + enc_entry_seq(lp.drop_first()));
        assert(enc_entry_seq(lp) =~= enc_entry_seq(l) + enc_entry(e));
    } else {
        assert(lp[0] == l[0]);
        assert(lp.drop_first() =~= l.drop_first().push(e));
        lemma_enc_entry_seq_snoc(l.drop_first(), e);
        assert(enc_entry_seq(lp) == enc_entry(l[0]) + enc_entry_seq(lp.drop_first()));
        assert(enc_entry_seq(lp) =~= enc_entry_seq(l) + enc_entry(e));
    }
}

/// Anything the entry parser accepts is well formed.
proof fn lemma_take_entry_n_gives_wf(n: nat, b: Seq<u8>)
    ensures
        take_entry_n(n, b) matches Some(p) ==> p.0.len() == n && forall|i: int|
            0 <= i < p.0.len() ==> entry_wf(#[trigger] p.0[i]),
    decreases n,
{
    if n != 0 && take_entry_n(n, b) is Some {
        crate::ticket::lemma_take_str_gives_wf(b);
        let (e, rest) = take_entry(b)->0;
        lemma_take_entry_n_gives_wf((n - 1) as nat, rest);
    }
}

// ---------------------------------------------------------------------------
// The client
// ---------------------------------------------------------------------------

/// The transfer client: the store handles, the configuration, and the
/// document index it exclusively owns.
pub struct IrohClient {
    pub state: IrohState,
    pub config: TransferConfig,
    pub index: Vec<FileEntry>,
}

impl IrohClient {
    pub open spec fn entries(&self) -> Seq<FileEntryView> {
        entries_view(self.index@)
    }

    pub open spec fn has_key(&self, k: Seq<u8>) -> bool {
        index_has_key(self.entries(), k)
    }

    pub open spec fn wf(&self) -> bool {
        index_wf(self.entries())
    }

    /// A fresh client with an empty index and fresh author and document
    /// handles.
    pub fn new(config: TransferConfig) -> (r: TransferResult<IrohClient>)
        ensures
            match r {
                Ok(c) => c.wf() && c.entries().len() == 0 && c.config@ == config@,
                Err(_) => false,
            },
    {
        let author = crate::identity::random_bytes_32();
        let doc = crate::identity::random_bytes_32();
        Ok(IrohClient { state: IrohState::new(author, doc), config, index: Vec::new() })
    }

    /// The store handles.
    pub fn client(&self) -> (r: &IrohState)
        ensures
            r == &self.state,
    {
        &self.state
    }

    /// The document identifier.
    pub fn doc(&self) -> (r: Vec<u8>)
        ensures
            r@ == self.state.doc@,
    {
        crate::registry::clone_bytes(&self.state.doc)
    }

    /// The author identifier.
    pub fn author(&self) -> (r: Vec<u8>)
        ensures
            r@ == self.state.author@,
    {
        crate::registry::clone_bytes(&self.state.author)
    }

    /// The index position of a store key.
    fn find_entry(&self, key: &Vec<u8>) -> (r: Option<usize>)
        ensures
            match r {
                Some(i) => i < self.entries().len() && self.entries()[i as int].key == key@
                    && self.has_key(key@),
                None => !self.has_key(key@),
            },
    {
        let mut i: usize = 0;
        while i < self.index.len()
            invariant
                i <= self.index@.len(),
                forall|j: int| 0 <= j < i ==> (#[trigger] self.entries()[j]).key != key@,
            decreases self.index@.len() - i,
        {
            if crate::registry::bytes_eq(&self.index[i].key, key) {
                assert(self.entries()[i as int].key == key@);
                return Some(i);
            }
            i += 1;
        }
        assert forall|j: int|
            0 <= j < self.entries().len() implies (#[trigger] self.entries()[j]).key != key@ by {}
        None
    }

    /// Import one local file into the store: the file's name gives its store
    /// key; a second file whose name maps to the same key is refused with
    /// `DuplicateFileName` and the index — the first file included — is left
    /// exactly as it was. The runtime streams the bytes and supplies their
    /// size and content hash; queue, progress, and completion events go to
    /// the notifier.
    pub fn upload_file<N: ProgressNotifier>(
        &mut self,
        request: &UploadRequest,
        size: u64,
        hash: &Vec<u8>,
        notifier: &N,
    ) -> (r: TransferResult<()>)
        requires
            old(self).wf(),
            hash@.len() < 0x1_0000_0000,
        ensures
            final(self).wf(),
            final(self).config == old(self).config,
            final(self).state == old(self).state,
            match r {
                Ok(_) => exists|name: Seq<char>|
                    {
                        &&& #[trigger] is_file_name_of(request.file_path@, name)
                        &&& name.len() > 0
                        &&& !old(self).has_key(key_of(name))
                        &&& final(self).entries() == old(self).entries().push(
                            FileEntryView { key: key_of(name), name, size, hash: hash@ },
                        )
                    },
                Err(e) => {
                    &&& *final(self) == *old(self)
                    &&& match e {
                        IrohTransferError::DuplicateFileName(n) => is_file_name_of(
                            request.file_path@,
                            n@,
                        ) && old(self).has_key(key_of(n@)),
                        IrohTransferError::FileNotFound(_) => forall|name: Seq<char>|
                            #[trigger] is_file_name_of(request.file_path@, name) ==> name.len()
                                == 0,
                        IrohTransferError::Other(_) => exists|name: Seq<char>|
                            #[trigger] is_file_name_of(request.file_path@, name) && name.len() > 0
                                && (!str_wf(name) || old(self).entries().len() + 1
                                >= 0x1_0000_0000),
                        _ => false,
                    }
                },
            },
    {
        let name = file_name_of_path(request.file_path.as_str());
        if name.as_str().unicode_len() == 0 {
            proof {
                assert forall|n2: Seq<char>|
                    #[trigger] is_file_name_of(request.file_path@, n2) implies n2.len() == 0 by {
                    lemma_file_name_unique(request.file_path@, name@, n2);
                }
            }
            return Err(IrohTransferError::file_not_found("the path has no file name"));
        }
        if !str_len_fits(name.as_str()) {
            return Err(IrohTransferError::other("the file name is too long"));
        }
        let key = make_key(name.as_str());
        if self.find_entry(&key).is_some() {
            return Err(IrohTransferError::DuplicateFileName(name));
        }
        if (self.index.len() as u64) + 1 >= 0x1_0000_0000u64 {
            return Err(IrohTransferError::other("the index is full"));
        }
        let ghost old_entries = self.entries();
        let ghost nm = name@;
        let id = request.file_path.clone();
        let entry = FileEntry {
            key,
            name: name.clone(),
            size,
            hash: crate::registry::clone_bytes(hash),
        };
        let ghost ev = entry@;
        self.index.push(entry);
        proof {
            assert(self.entries() =~= old_entries.push(ev));
            assert forall|a: int, b: int|
                0 <= a < b < self.entries().len() implies self.entries()[a].key
                != self.entries()[b].key by {
                if b < old_entries.len() {
                    assert(old_entries[a].key != old_entries[b].key);
                }
            }
            assert(is_file_name_of(request.file_path@, nm) && nm.len() > 0 && !index_has_key(
                old_entries,
                key_of(nm),
            ) && self.entries() == old_entries.push(
                FileEntryView { key: key_of(nm), name: nm, size, hash: hash@ },
            ));
        }
        notifier.notify(
            TransferEvent::UploadQueueAppend { id: id.clone(), size, title: name },
        );
        notifier.notify(TransferEvent::UploadProgress { id: id.clone(), offset: size });
        notifier.notify(TransferEvent::UploadDone { id });
        Ok(())
    }

    /// Remove the index entry named by a path's file name. Removing an
    /// absent entry is not an error; only a path with no file name is.
    pub fn remove_file(&mut self, request: &RemoveRequest) -> (r: TransferResult<()>)
        requires
            old(self).wf(),
        ensures
            final(self).wf(),
            final(self).config == old(self).config,
            final(self).state == old(self).state,
            match r {
                Ok(_) => exists|name: Seq<char>|
                    {
                        &&& #[trigger] is_file_name_of(request.file_path@, name)
                        &&& !final(self).has_key(key_of(name))
                        &&& forall|k2: Seq<u8>|
                            k2 != key_of(name) ==> (final(self).has_key(k2) <==> old(
                                self,
                            ).has_key(k2))
                    },
                Err(e) => {
                    &&& *final(self) == *old(self)
                    &&& e is FileNotFound
                    &&& forall|name: Seq<char>|
                        #[trigger] is_file_name_of(request.file_path@, name) ==> name.len() == 0
                },
            },
    {
        let name = file_name_of_path(request.file_path.as_str());
        if name.as_str().unicode_len() == 0 {
            proof {
                assert forall|n2: Seq<char>|
                    #[trigger] is_file_name_of(request.file_path@, n2) implies n2.len() == 0 by {
                    lemma_file_name_unique(request.file_path@, name@, n2);
                }
            }
            return Err(IrohTransferError::file_not_found("the path has no file name"));
        }
        let key = make_key(name.as_str());
        let ghost full = self.entries();
        match self.find_entry(&key) {
            Some(i) => {
                self.index.remove(i);
                proof {
                    assert(self.entries() =~= full.remove(i as int));
                    lemma_index_remove(full, i as int, key@);
                }
            },
            None => {},
        }
        Ok(())
    }

    /// A read-only share ticket for the caller's current document index: the
    /// base-32 text of the index layout, lower-cased for display.
    pub fn get_share_code(&self) -> (r: TransferResult<ShareResponse>)
        requires
            self.wf(),
        ensures
            match r {
                Ok(resp) => {
                    &&& resp.doc_ticket@ == base32_lower_of(enc_index(self.entries()))
                    &&& ascii_lower_of(resp.doc_ticket@) == resp.doc_ticket@
                    &&& index_from_bytes_spec(enc_index(self.entries())) == Some(self.entries())
                },
                Err(_) => false,
            },
    {
        let bytes = self.index_to_bytes();
        let doc_ticket = base32_encode_lower(&bytes);
        proof {
            lemma_index_round_trip(self.entries());
        }
        Ok(ShareResponse { doc_ticket })
    }

    /// Serialize the index to its ticket layout.
    fn index_to_bytes(&self) -> (r: Vec<u8>)
        requires
            self.wf(),
        ensures
            r@ == enc_index(self.entries()),
    {
        let ghost l = self.entries();
        let mut out: Vec<u8> = Vec::new();
        crate::wire::write_u32(&mut out, self.index.len() as u32);
        let mut i: usize = 0;
        while i < self.index.len()
            invariant
                i <= self.index@.len(),
                l == entries_view(self.index@),
                index_wf(l),
                out@ == le32(self.index@.len() as u32) + enc_entry_seq(l.take(i as int)),
            decreases self.index@.len() - i,
        {
            let e = &self.index[i];
            assert(entry_wf(l[i as int]));
            crate::wire::write_str(&mut out, e.name.as_str());
            crate::wire::write_u64(&mut out, e.size);
            crate::wire::write_blob(&mut out, e.hash.as_slice());
            proof {
                lemma_enc_entry_seq_snoc(l.take(i as int), l[i as int]);
                assert(l.take(i as int + 1) =~= l.take(i as int).push(l[i as int]));
                assert(out@ =~= le32(self.index@.len() as u32) + enc_entry_seq(
                    l.take(i as int + 1),
                ));
            }
            i += 1;
        }
        assert(l.take(self.index@.len() as int) =~= l);
        assert(out@ =~= enc_index(l));
        out
    }

    /// Decode a share ticket, resolve the download directory — the request's
    /// directory, else the configured default, else `DownloadDirNotFound` —
    /// and queue every listed file for export. The returned entries are what
    /// the runtime must fetch and write under the returned directory.
    pub fn download_files<N: ProgressNotifier>(&self, request: &DownloadRequest, notifier: &N) -> (r:
        TransferResult<(String, Vec<FileEntry>)>)
        ensures
            match r {
                Ok(p) => {
                    &&& (forall|b: Seq<u8>|
                        ascii_lower_of(request.doc_ticket@) == base32_lower_of(b)
                            ==> index_from_bytes_spec(b) == Some(entries_view(p.1@)))
                    &&& (exists|b: Seq<u8>|
                        ascii_lower_of(request.doc_ticket@) == base32_lower_of(b)
                            && #[trigger] index_from_bytes_spec(b) == Some(entries_view(p.1@)))
                    &&& p.0@ == "files downloaded to: "@ + (match request.download_dir {
                        Some(ref d) => d@,
                        None => self.config@.download_dir->0,
                    })
                    &&& (request.download_dir is None ==> self.config.download_dir is Some)
                },
                Err(e) => match e {
                    IrohTransferError::TicketParse(_) => forall|b: Seq<u8>|
                        ascii_lower_of(request.doc_ticket@) == base32_lower_of(b)
                            ==> index_from_bytes_spec(b) is None,
                    IrohTransferError::DownloadDirNotFound => request.download_dir is None
                        && self.config.download_dir is None,
                    _ => false,
                },
            },
    {
        let entries = match Self::decode_doc_ticket(&request.doc_ticket) {
            Ok(e) => e,
            Err(e) => {
                return Err(e);
            },
        };
        let download_dir: String = match &request.download_dir {
            Some(d) => d.clone(),
            None => match &self.config.download_dir {
                Some(d) => d.clone(),
                None => {
                    return Err(IrohTransferError::DownloadDirNotFound);
                },
            },
        };
        let mut i: usize = 0;
        while i < entries.len()
            decreases entries@.len() - i,
        {
            let mut dest = download_dir.clone();
            dest.append("/");
            dest.append(entries[i].name.as_str());
            notifier.notify(
                TransferEvent::DownloadQueueAppend {
                    id: dest,
                    size: entries[i].size,
                    name: entries[i].name.clone(),
                },
            );
            i += 1;
        }
        let mut result = String::from_str("files downloaded to: ");
        result.append(download_dir.as_str());
        Ok((result, entries))
    }

    /// Decode a share ticket's text into its index entries. Succeeds exactly
    /// when the case-folded text is the base-32 form of a valid index layout;
    /// the accepted text is, up to ASCII case, the encoding of the result.
    pub fn decode_doc_ticket(text: &String) -> (r: TransferResult<Vec<FileEntry>>)
        ensures
            match r {
                Ok(entries) => {
                    &&& forall|b: Seq<u8>|
                        ascii_lower_of(text@) == base32_lower_of(b) ==> index_from_bytes_spec(b)
                            == Some(entries_view(entries@))
                    &&& exists|b: Seq<u8>|
                        ascii_lower_of(text@) == base32_lower_of(b) && #[trigger] index_from_bytes_spec(
                            b,
                        ) == Some(entries_view(entries@))
                },
                Err(e) => e is TicketParse && forall|b: Seq<u8>|
                    ascii_lower_of(text@) == base32_lower_of(b) ==> index_from_bytes_spec(
                        b,
                    ) is None,
            },
    {
        let bytes = match base32_decode_folded(text.as_str()) {
            Some(v) => v,
            None => {
                return Err(IrohTransferError::ticket_parse("invalid base32 text"));
            },
        };
        proof {
            assert(bytes@.skip(0) =~= bytes@);
        }
        let (n, p1) = match read_u32(&bytes, 0) {
            Some(v) => v,
            None => {
                return Err(IrohTransferError::ticket_parse("malformed share ticket"));
            },
        };
        let (entries, p2) = match read_entries(&bytes, p1, n) {
            Some(v) => v,
            None => {
                return Err(IrohTransferError::ticket_parse("malformed share ticket"));
            },
        };
        if p2 != bytes.len() {
            assert(bytes@.skip(p2 as int).len() != 0);
            return Err(IrohTransferError::ticket_parse("malformed share ticket"));
        }
        assert(bytes@.skip(p2 as int).len() == 0);
        proof {
            assert(ascii_lower_of(text@) == base32_lower_of(bytes@));
            assert(index_from_bytes_spec(bytes@) == Some(entries_view(entries@)));
        }
        Ok(entries)
    }
}

/// Removing the only entry with a key leaves an index without it; all other
/// keys keep their membership, and uniqueness is kept.
proof fn lemma_index_remove(l: Seq<FileEntryView>, i: int, k: Seq<u8>)
    requires
        0 <= i < l.len(),
        l[i].key == k,
        forall|a: int, b: int| 0 <= a < b < l.len() ==> l[a].key != l[b].key,
    ensures
        !index_has_key(l.remove(i), k),
        forall|k2: Seq<u8>| k2 != k ==> (index_has_key(l.remove(i), k2) <==> index_has_key(l, k2)),
        forall|a: int, b: int| 0 <= a < b < l.remove(i).len() ==> l.remove(i)[a].key != l.remove(
            i,
        )[b].key,
{
    let rem = l.remove(i);
    assert forall|j: int| 0 <= j < rem.len() implies rem[j].key != k by {
        if j < i {
            assert(rem[j] == l[j]);
        } else {
            assert(rem[j] == l[j + 1]);
        }
    }
    assert forall|k2: Seq<u8>| k2 != k implies (index_has_key(rem, k2) <==> index_has_key(
        l,
        k2,
    )) by {
        if index_has_key(rem, k2) {
            let j = choose|j: int| 0 <= j < rem.len() && rem[j].key == k2;
            if j < i {
                assert(l[j].key == k2);
            } else {
                assert(l[j + 1].key == k2);
            }
        }
        if index_has_key(l, k2) {
            let j = choose|j: int| 0 <= j < l.len() && l[j].key == k2;
            if j < i {
                assert(rem[j].key == k2);
            } else if j > i {
                assert(rem[j - 1].key == k2);
            }
        }
    }
    assert forall|a: int, b: int| 0 <= a < b < rem.len() implies rem[a].key != rem[b].key by {
        let a2 = if a < i {
            a
        } else {
            a + 1
        };
        let b2 = if b < i {
            b
        } else {
            b + 1
        };
        assert(rem[a] == l[a2] && rem[b] == l[b2]);
    }
}

/// Parse exactly `n` entries.
#[verifier::rlimit(50)]
fn read_entries(input: &Vec<u8>, pos: usize, n: u32) -> (r: Option<(Vec<FileEntry>, usize)>)
    requires
        pos <= input.len(),
    ensures
        match r {
            Some(p) => take_entry_n(n as nat, input@.skip(pos as int)) == Some(
                (entries_view(p.0@), input@.skip(p.1 as int)),
            ) && pos <= p.1 <= input.len(),
            None => take_entry_n(n as nat, input@.skip(pos as int)) is None,
        },
{
    let mut out: Vec<FileEntry> = Vec::new();
    let mut p = pos;
    let mut i: u32 = 0;
    proof {
        assert(entries_view(out@) =~= Seq::<FileEntryView>::empty());
        if take_entry_n(n as nat, input@.skip(pos as int)) is Some {
            let (l0, _r0) = take_entry_n(n as nat, input@.skip(pos as int))->0;
            assert(entries_view(out@) + l0 =~= l0);
        }
    }
    loop
        invariant
            i <= n,
            pos <= p <= input.len(),
            take_entry_n(n as nat, input@.skip(pos as int)) == match take_entry_n(
                (n - i) as nat,
                input@.skip(p as int),
            ) {
                Some((l, rest)) => Some((entries_view(out@) + l, rest)),
                None => None::<(Seq<FileEntryView>, Seq<u8>)>,
            },
            out@.len() == i,
        decreases n - i,
    {
        if i == n {
            proof {
                assert(take_entry_n(0, input@.skip(p as int)) == Some(
                    (Seq::<FileEntryView>::empty(), input@.skip(p as int)),
                ));
                assert(entries_view(out@) + Seq::<FileEntryView>::empty() =~= entries_view(out@));
            }
            return Some((out, p));
        }
        match read_one_entry(input, p) {
            None => {
                return None;
            },
            Some((e, p2)) => {
                proof {
                    let l_old = entries_view(out@);
                    let tail = take_entry_n((n - i - 1) as nat, input@.skip(p2 as int));
                    if tail is Some {
                        let (tl, _trest) = tail->0;
                        assert(l_old + (seq![e@] + tl) =~= (l_old.push(e@)) + tl);
                    }
                    assert(entries_view(out@.push(e)) =~= entries_view(out@).push(e@));
                }
                out.push(e);
                p = p2;
                i += 1;
            },
        }
    }
}

fn read_one_entry(input: &Vec<u8>, pos: usize) -> (r: Option<(FileEntry, usize)>)
    requires
        pos <= input.len(),
    ensures
        match r {
            Some(p) => take_entry(input@.skip(pos as int)) == Some(
                (p.0@, input@.skip(p.1 as int)),
            ) && pos <= p.1 <= input.len(),
            None => take_entry(input@.skip(pos as int)) is None,
        },
{
    let (name, p1) = match read_str(input, pos) {
        Some(v) => v,
        None => {
            return None;
        },
    };
    let (size, p2) = match read_u64(input, p1) {
        Some(v) => v,
        None => {
            return None;
        },
    };
    let (hash, p3) = match read_blob(input, p2) {
        Some(v) => v,
        None => {
            return None;
        },
    };
    let key = make_key(name.as_str());
    Some((FileEntry { key, name, size, hash }, p3))
}

} // verus!
