//! Topic invitation tickets.
//!
//! A ticket carries a 32-byte topic identifier together with the addresses of
//! peers already on the topic. Its text form is the unpadded base-32 encoding
//! of a fixed binary layout, folded to lower case for display; decoding folds
//! case back before the base-32 step, so the round trip is case-insensitive.

use vstd::prelude::*;
use vstd::string::StringExecFns;

use crate::error::NodeError;
use crate::wire::{
    str_len_fits,
    enc_opt_str, enc_str_list, fits_u32, le32, lemma_take_bytes, lemma_take_opt_str,
    lemma_take_str_list, lemma_take_u32, read_exact, read_opt_str, read_str_list, read_u32,
    str_list_wf, str_wf, strings_view, take_blob, take_bytes, take_opt_str, take_str,
    take_str_list, take_str_n, take_u32, take_u8, write_opt_str, write_raw, write_str_list,
    write_u32,
};

verus! {

// ---------------------------------------------------------------------------
// ASCII case folding (the display form of a ticket is lower case)
// ---------------------------------------------------------------------------

pub open spec fn ascii_lower_char(c: char) -> char {
    if 'A' <= c && c <= 'Z' {
        ((c as u32) + 32) as char
    } else {
        c
    }
}

pub open spec fn ascii_lower_of(s: Seq<char>) -> Seq<char> {
    s.map_values(|c: char| ascii_lower_char(c))
}

// ---------------------------------------------------------------------------
// Base-32 text layer (trusted boundary to the `data_encoding` crate)
// ---------------------------------------------------------------------------

/// The lower-cased, unpadded base-32 text of a byte string, as produced by
/// `data_encoding::BASE32_NOPAD`. Named rather than spelled out: the bit-level
/// definition belongs to the outside crate.
pub uninterp spec fn base32_lower_of(bytes: Seq<u8>) -> Seq<char>;

/// Relies on `data_encoding::BASE32_NOPAD.encode`: a pure function of the
/// input bytes; the result is ASCII over `A-Z2-7` and is folded to lower case
/// here, so folding it again leaves it unchanged.
#[verifier::external_body]
pub(crate) fn base32_encode_lower(bytes: &Vec<u8>) -> (r: String)
    ensures
        r@ == base32_lower_of(bytes@),
        ascii_lower_of(r@) == r@,
{
    let mut text = data_encoding::BASE32_NOPAD.encode(bytes.as_slice());
    text.make_ascii_lowercase();
    text
}

/// Relies on `data_encoding::BASE32_NOPAD.decode`: the encoding is canonical,
/// so decoding accepts exactly the (upper-case) encodings and inverts
/// `encode`. Input is upper-cased first, so any text whose lower-case fold is
/// the display form of `b` decodes to `b`, and anything accepted is such a
/// text.
#[verifier::external_body]
pub(crate) fn base32_decode_folded(s: &str) -> (r: Option<Vec<u8>>)
    ensures
        forall|b: Seq<u8>| ascii_lower_of(s@) == base32_lower_of(b) ==> r is Some && r->0@ == b,
        r is Some ==> ascii_lower_of(s@) == base32_lower_of(r->0@),
{
    match data_encoding::BASE32_NOPAD.decode(s.to_ascii_uppercase().as_bytes()) {
        Ok(v) => Some(v),
        Err(_) => None,
    }
}

// ---------------------------------------------------------------------------
// Peer addresses
// ---------------------------------------------------------------------------

/// The address of one peer: its 32-byte node identifier, an optional relay
/// URL, and its direct socket addresses in text form.
pub struct PeerAddr {
    pub node_id: Vec<u8>,
    pub relay_url: Option<String>,
    pub direct_addresses: Vec<String>,
}

#[verifier::ext_equal]
pub ghost struct PeerAddrView {
    pub node_id: Seq<u8>,
    pub relay_url: Option<Seq<char>>,
    pub direct_addresses: Seq<Seq<char>>,
}

impl View for PeerAddr {
    type V = PeerAddrView;

    open spec fn view(&self) -> PeerAddrView {
        PeerAddrView {
            node_id: self.node_id@,
            relay_url: match self.relay_url {
                Some(ref s) => Some(s@),
                None => None,
            },
            direct_addresses: strings_view(self.direct_addresses@),
        }
    }
}

impl PeerAddr {
    /// Copy the address.
    pub fn duplicate(&self) -> (r: PeerAddr)
        ensures
            r@ == self@,
    {
        let node_id = crate::registry::clone_bytes(&self.node_id);
        let relay_url = match &self.relay_url {
            Some(s) => Some(s.clone()),
            None => None,
        };
        let mut direct_addresses: Vec<String> = Vec::new();
        let mut i: usize = 0;
        while i < self.direct_addresses.len()
            invariant
                i <= self.direct_addresses@.len(),
                strings_view(direct_addresses@) == strings_view(self.direct_addresses@).take(
                    i as int,
                ),
            decreases self.direct_addresses@.len() - i,
        {
            let ghost pre = direct_addresses@;
            direct_addresses.push(self.direct_addresses[i].clone());
            proof {
                let sv = strings_view(self.direct_addresses@);
                assert(strings_view(direct_addresses@) =~= strings_view(pre).push(
                    direct_addresses@[i as int]@,
                ));
                assert(sv.take(i as int + 1) =~= sv.take(i as int).push(sv[i as int]));
                assert(strings_view(direct_addresses@) =~= sv.take(i as int + 1));
            }
            i += 1;
        }
        assert(strings_view(self.direct_addresses@).take(self.direct_addresses@.len() as int)
            =~= strings_view(self.direct_addresses@));
        let r = PeerAddr { node_id, relay_url, direct_addresses };
        assert(r@ =~= self@);
        r
    }
}

pub open spec fn peer_wf(p: PeerAddrView) -> bool {
    &&& p.node_id.len() == crate::ID_LEN
    &&& (p.relay_url is Some ==> str_wf(p.relay_url->0))
    &&& str_list_wf(p.direct_addresses)
}

pub open spec fn enc_peer(p: PeerAddrView) -> Seq<u8> {
    p.node_id + enc_opt_str(p.relay_url) + enc_str_list(p.direct_addresses)
}

pub open spec fn take_peer(b: Seq<u8>) -> Option<(PeerAddrView, Seq<u8>)> {
    match take_bytes(crate::ID_LEN as int, b) {
        Some((nid, r1)) => match take_opt_str(r1) {
            Some((relay, r2)) => match take_str_list(r2) {
                Some((direct, r3)) => Some(
                    (PeerAddrView { node_id: nid, relay_url: relay, direct_addresses: direct }, r3),
                ),
                None => None,
            },
            None => None,
        },
        None => None,
    }
}

pub open spec fn enc_peer_seq(ps: Seq<PeerAddrView>) -> Seq<u8>
    decreases ps.len(),
{
    if ps.len() == 0 {
        Seq::empty()
    } else {
        enc_peer(ps[0]) + enc_peer_seq(ps.drop_first())
    }
}

pub open spec fn take_peer_n(n: nat, b: Seq<u8>) -> Option<(Seq<PeerAddrView>, Seq<u8>)>
    decreases n,
{
    if n == 0 {
        Some((Seq::empty(), b))
    } else {
        match take_peer(b) {
            Some((p, rest)) => match take_peer_n((n - 1) as nat, rest) {
                Some((ps, rest2)) => Some((seq![p] + ps, rest2)),
                None => None,
            },
            None => None,
        }
    }
}

pub proof fn lemma_take_peer(p: PeerAddrView, rest: Seq<u8>)
    requires
        peer_wf(p),
    ensures
        take_peer(enc_peer(p) + rest) == Some((p, rest)),
{
    let r1 = enc_opt_str(p.relay_url) + (enc_str_list(p.direct_addresses) + rest);
    assert(enc_peer(p) + rest =~= p.node_id + r1);
    lemma_take_bytes(p.node_id, r1);
    lemma_take_opt_str(p.relay_url, enc_str_list(p.direct_addresses) + rest);
    lemma_take_str_list(p.direct_addresses, rest);
}

pub proof fn lemma_take_peer_n(ps: Seq<PeerAddrView>, rest: Seq<u8>)
    requires
        forall|i: int| 0 <= i < ps.len() ==> peer_wf(#[trigger] ps[i]),
    ensures
        take_peer_n(ps.len() as nat, enc_peer_seq(ps) + rest) == Some((ps, rest)),
    decreases ps.len(),
{
    if ps.len() == 0 {
        assert(enc_peer_seq(ps) + rest =~= rest);
        assert(ps =~= Seq::<PeerAddrView>::empty());
    } else {
        let tail = ps.drop_first();
        assert(enc_peer_seq(ps) + rest =~= enc_peer(ps[0]) + (enc_peer_seq(tail) + rest));
        lemma_take_peer(ps[0], enc_peer_seq(tail) + rest);
        lemma_take_peer_n(tail, rest);
        assert(seq![ps[0]] + tail =~= ps);
    }
}

proof fn lemma_enc_peer_seq_snoc(ps: Seq<PeerAddrView>, p: PeerAddrView)
    ensures
        enc_peer_seq(ps.push(p)) == enc_peer_seq(ps) + enc_peer(p),
    decreases ps.len(),
{
    let pp = ps.push(p);
    if ps.len() == 0 {
        assert(pp[0] == p);
        assert(pp.drop_first() =~= Seq::<PeerAddrView>::empty());
        assert(enc_peer_seq(Seq::<PeerAddrView>::empty()) == Seq::<u8>::empty());
        assert(enc_peer_seq(pp) == enc_peer(p) + enc_peer_seq(pp.drop_first()));
        assert(enc_peer_seq(pp) =~= enc_peer_seq(ps) + enc_peer(p));
    } else {
        assert(pp[0] == ps[0]);
        assert(pp.drop_first() =~= ps.drop_first().push(p));
        lemma_enc_peer_seq_snoc(ps.drop_first(), p);
        assert(enc_peer_seq(pp) == enc_peer(ps[0]) + enc_peer_seq(pp.drop_first()));
        assert(enc_peer_seq(pp) =~= enc_peer_seq(ps) + enc_peer(p));
    }
}

// ---------------------------------------------------------------------------
// Tickets
// ---------------------------------------------------------------------------

/// A topic invitation: the topic identifier and the peers to dial.
pub struct Ticket {
    pub topic: Vec<u8>,
    pub peers: Vec<PeerAddr>,
}

#[verifier::ext_equal]
pub ghost struct TicketView {
    pub topic: Seq<u8>,
    pub peers: Seq<PeerAddrView>,
}

pub open spec fn peers_view(l: Seq<PeerAddr>) -> Seq<PeerAddrView> {
    l.map_values(|p: PeerAddr| p@)
}

impl View for Ticket {
    type V = TicketView;

    open spec fn view(&self) -> TicketView {
        TicketView { topic: self.topic@, peers: peers_view(self.peers@) }
    }
}

pub open spec fn ticket_wf(t: TicketView) -> bool {
    &&& t.topic.len() == crate::ID_LEN
    &&& fits_u32(t.peers.len() as int)
    &&& forall|i: int| 0 <= i < t.peers.len() ==> peer_wf(#[trigger] t.peers[i])
}

/// The fixed binary layout of a ticket: the raw topic bytes, then the peer
/// count, then each peer.
pub open spec fn enc_ticket(t: TicketView) -> Seq<u8> {
    t.topic + le32(t.peers.len() as u32) + enc_peer_seq(t.peers)
}

/// Parse a complete ticket; trailing bytes are rejected.
pub open spec fn ticket_from_bytes_spec(b: Seq<u8>) -> Option<TicketView> {
    match take_bytes(crate::ID_LEN as int, b) {
        Some((topic, r1)) => match take_u32(r1) {
            Some((n, r2)) => match take_peer_n(n as nat, r2) {
                Some((peers, r3)) => if r3.len() == 0 {
                    Some(TicketView { topic, peers })
                } else {
                    None
                },
                None => None,
            },
            None => None,
        },
        None => None,
    }
}

/// A well-formed ticket's binary form parses back to the ticket itself.
pub proof fn lemma_ticket_round_trip(t: TicketView)
    requires
        ticket_wf(t),
    ensures
        ticket_from_bytes_spec(enc_ticket(t)) == Some(t),
{
    let r1 = le32(t.peers.len() as u32) + (enc_peer_seq(t.peers) + Seq::<u8>::empty());
    assert(enc_ticket(t) =~= t.topic + r1);
    lemma_take_bytes(t.topic, r1);
    lemma_take_u32(t.peers.len() as u32, enc_peer_seq(t.peers) + Seq::<u8>::empty());
    lemma_take_peer_n(t.peers, Seq::<u8>::empty());
}

// ---------------------------------------------------------------------------
// Parsed values are well formed
// ---------------------------------------------------------------------------

pub proof fn lemma_take_str_gives_wf(b: Seq<u8>)
    ensures
        take_str(b) matches Some(p) ==> str_wf(p.0),
{
    if take_str(b) is Some {
        let (bytes, _r) = take_blob(b)->0;
        broadcast use vstd::utf8::decode_utf8_encode_utf8;

        assert(vstd::utf8::encode_utf8(vstd::utf8::decode_utf8(bytes)) == bytes);
    }
}

pub proof fn lemma_take_str_list_gives_wf(b: Seq<u8>)
    ensures
        take_str_list(b) matches Some(p) ==> str_list_wf(p.0),
{
    if take_str_list(b) is Some {
        let (n, r) = take_u32(b)->0;
        lemma_take_str_n_gives_wf(n as nat, r);
    }
}

proof fn lemma_take_str_n_gives_wf(n: nat, b: Seq<u8>)
    ensures
        take_str_n(n, b) matches Some(p) ==> p.0.len() == n && forall|i: int|
            0 <= i < p.0.len() ==> str_wf(#[trigger] p.0[i]),
    decreases n,
{
    if n != 0 && take_str_n(n, b) is Some {
        let (s, rest) = take_str(b)->0;
        lemma_take_str_gives_wf(b);
        lemma_take_str_n_gives_wf((n - 1) as nat, rest);
    }
}

pub proof fn lemma_take_peer_gives_wf(b: Seq<u8>)
    ensures
        take_peer(b) matches Some(p) ==> peer_wf(p.0),
{
    if take_peer(b) is Some {
        let (nid, r1) = take_bytes(crate::ID_LEN as int, b)->0;
        let (relay, r2) = take_opt_str(r1)->0;
        if relay is Some {
            let (tag, r1b) = take_u8(r1)->0;
            lemma_take_str_gives_wf(r1b);
        }
        lemma_take_str_list_gives_wf(r2);
    }
}

proof fn lemma_take_peer_n_gives_wf(n: nat, b: Seq<u8>)
    ensures
        take_peer_n(n, b) matches Some(p) ==> p.0.len() == n && forall|i: int|
            0 <= i < p.0.len() ==> peer_wf(#[trigger] p.0[i]),
    decreases n,
{
    if n != 0 && take_peer_n(n, b) is Some {
        let (p, rest) = take_peer(b)->0;
        lemma_take_peer_gives_wf(b);
        lemma_take_peer_n_gives_wf((n - 1) as nat, rest);
    }
}

pub proof fn lemma_parsed_ticket_wf(b: Seq<u8>)
    ensures
        ticket_from_bytes_spec(b) is Some ==> ticket_wf(ticket_from_bytes_spec(b)->0),
{
    if ticket_from_bytes_spec(b) is Some {
        let (topic, r1) = take_bytes(crate::ID_LEN as int, b)->0;
        let (n, r2) = take_u32(r1)->0;
        lemma_take_peer_n_gives_wf(n as nat, r2);
    }
}

// ---------------------------------------------------------------------------
// Executable codec
// ---------------------------------------------------------------------------

fn write_peer(out: &mut Vec<u8>, p: &PeerAddr)
    requires
        peer_wf(p@),
    ensures
        final(out)@ == old(out)@ + enc_peer(p@),
{
    write_raw(out, p.node_id.as_slice());
    write_opt_str(out, &p.relay_url);
    write_str_list(out, &p.direct_addresses);
    assert(out@ =~= old(out)@ + enc_peer(p@));
}

fn read_peer(input: &Vec<u8>, pos: usize) -> (r: Option<(PeerAddr, usize)>)
    requires
        pos <= input.len(),
    ensures
        match r {
            Some(p) => take_peer(input@.skip(pos as int)) == Some(
                (p.0@, input@.skip(p.1 as int)),
            ) && pos <= p.1 <= input.len(),
            None => take_peer(input@.skip(pos as int)) is None,
        },
{
    match read_exact(input, pos, crate::ID_LEN) {
        None => None,
        Some((node_id, p1)) => match read_opt_str(input, p1) {
            None => None,
            Some((relay_url, p2)) => match read_str_list(input, p2) {
                None => None,
                Some((direct_addresses, p3)) => Some(
                    (PeerAddr { node_id, relay_url, direct_addresses }, p3),
                ),
            },
        },
    }
}

impl Ticket {
    pub open spec fn wf(&self) -> bool {
        ticket_wf(self@)
    }

    /// Check well-formedness of the lengths that the wire format's 32-bit
    /// length fields impose.
    pub fn check_wf(&self) -> (b: bool)
        ensures
            b == self.wf(),
    {
        if self.topic.len() != crate::ID_LEN {
            return false;
        }
        if (self.peers.len() as u64) >= 0x1_0000_0000u64 {
            return false;
        }
        let mut i: usize = 0;
        while i < self.peers.len()
            invariant
                i <= self.peers@.len(),
                self.topic@.len() == crate::ID_LEN,
                fits_u32(self.peers@.len() as int),
                forall|j: int| 0 <= j < i ==> peer_wf(#[trigger] peers_view(self.peers@)[j]),
            decreases self.peers@.len() - i,
        {
            if !peer_check_wf(&self.peers[i]) {
                assert(!peer_wf(peers_view(self.peers@)[i as int]));
                return false;
            }
            assert(peer_wf(peers_view(self.peers@)[i as int]));
            i += 1;
        }
        true
    }

    /// Serialize to the fixed binary layout.
    pub fn to_bytes(&self) -> (r: Vec<u8>)
        requires
            self.wf(),
        ensures
            r@ == enc_ticket(self@),
    {
        let ghost pv = peers_view(self.peers@);
        let mut out: Vec<u8> = Vec::new();
        write_raw(&mut out, self.topic.as_slice());
        write_u32(&mut out, self.peers.len() as u32);
        let mut i: usize = 0;
        while i < self.peers.len()
            invariant
                i <= self.peers@.len(),
                pv == peers_view(self.peers@),
                ticket_wf(self@),
                out@ == self.topic@ + le32(self.peers@.len() as u32) + enc_peer_seq(
                    pv.take(i as int),
                ),
            decreases self.peers@.len() - i,
        {
            assert(pv[i as int] == self.peers@[i as int]@);
            write_peer(&mut out, &self.peers[i]);
            proof {
                lemma_enc_peer_seq_snoc(pv.take(i as int), pv[i as int]);
                assert(pv.take(i as int + 1) =~= pv.take(i as int).push(pv[i as int]));
                assert(out@ =~= self.topic@ + le32(self.peers@.len() as u32) + enc_peer_seq(
                    pv.take(i as int + 1),
                ));
            }
            i += 1;
        }
        assert(pv.take(self.peers@.len() as int) =~= pv);
        assert(out@ =~= enc_ticket(self@));
        out
    }

    /// Deserialize from the fixed binary layout; trailing bytes are an error.
    pub fn from_bytes(bytes: &Vec<u8>) -> (r: Result<Ticket, NodeError>)
        ensures
            match r {
                Ok(t) => ticket_from_bytes_spec(bytes@) == Some(t@) && t.wf(),
                Err(e) => ticket_from_bytes_spec(bytes@) is None && e is DecodeError,
            },
    {
        proof {
            assert(bytes@.skip(0) =~= bytes@);
        }
        let err_msg = "malformed ticket payload";
        match read_exact(bytes, 0, crate::ID_LEN) {
            None => Err(NodeError::DecodeError(String::from_str(err_msg))),
            Some((topic, p1)) => match read_u32(bytes, p1) {
                None => Err(NodeError::DecodeError(String::from_str(err_msg))),
                Some((n, p2)) => match read_peers(bytes, p2, n) {
                    None => Err(NodeError::DecodeError(String::from_str(err_msg))),
                    Some((peers, p3)) => {
                        if p3 != bytes.len() {
                            assert(bytes@.skip(p3 as int).len() != 0);
                            return Err(NodeError::DecodeError(String::from_str(err_msg)));
                        }
                        assert(bytes@.skip(p3 as int).len() == 0);
                        let t = Ticket { topic, peers };
                        proof {
                            lemma_parsed_ticket_wf(bytes@);
                        }
                        Ok(t)
                    },
                },
            },
        }
    }

    /// Encode to the copy-pasteable text token: base-32 of the binary layout,
    /// lower-cased for display.
    pub fn encode(&self) -> (r: String)
        requires
            self.wf(),
        ensures
            r@ == base32_lower_of(enc_ticket(self@)),
            ascii_lower_of(r@) == r@,
    {
        let bytes = self.to_bytes();
        base32_encode_lower(&bytes)
    }

    /// Decode a text token. Succeeds exactly when the case-folded text is the
    /// base-32 form of a valid ticket layout: the accepted text is, up to
    /// ASCII case, an encoding of the result, and every such layout parses to
    /// the returned ticket, which is what makes the encode/decode round trip
    /// derivable by callers.
    pub fn decode(s: &str) -> (r: Result<Ticket, NodeError>)
        ensures
            match r {
                Ok(t) => {
                    &&& t.wf()
                    &&& forall|b: Seq<u8>|
                        ascii_lower_of(s@) == base32_lower_of(b) ==> ticket_from_bytes_spec(b)
                            == Some(t@)
                    &&& exists|b: Seq<u8>|
                        ascii_lower_of(s@) == base32_lower_of(b)
                            && #[trigger] ticket_from_bytes_spec(b) == Some(t@)
                },
                Err(e) => e is DecodeError && forall|b: Seq<u8>|
                    ascii_lower_of(s@) == base32_lower_of(b) ==> ticket_from_bytes_spec(b) is None,
            },
    {
        match base32_decode_folded(s) {
            None => Err(NodeError::DecodeError(String::from_str("invalid base32 text"))),
            Some(v) => {
                let r = Ticket::from_bytes(&v);
                proof {
                    if r is Ok {
                        assert(ascii_lower_of(s@) == base32_lower_of(v@));
                        assert(ticket_from_bytes_spec(v@) == Some((r->Ok_0)@));
                    }
                }
                r
            },
        }
    }
}

fn peer_check_wf(p: &PeerAddr) -> (b: bool)
    ensures
        b == peer_wf(p@),
{
    if p.node_id.len() != crate::ID_LEN {
        return false;
    }
    match &p.relay_url {
        Some(s) => {
            if !str_len_fits(s.as_str()) {
                return false;
            }
            assert(p@.relay_url == Some(s@) && str_wf(s@));
        },
        None => {
            assert(p@.relay_url is None);
        },
    }
    if (p.direct_addresses.len() as u64) >= 0x1_0000_0000u64 {
        return false;
    }
    let mut i: usize = 0;
    while i < p.direct_addresses.len()
        invariant
            i <= p.direct_addresses@.len(),
            p.node_id@.len() == crate::ID_LEN,
            p@.relay_url is Some ==> str_wf(p@.relay_url->0),
            fits_u32(p.direct_addresses@.len() as int),
            forall|j: int|
                0 <= j < i ==> str_wf(#[trigger] strings_view(p.direct_addresses@)[j]),
        decreases p.direct_addresses@.len() - i,
    {
        assert(strings_view(p.direct_addresses@)[i as int] == p.direct_addresses@[i as int]@);
        if !str_len_fits(p.direct_addresses[i].as_str()) {
            assert(!str_wf(strings_view(p.direct_addresses@)[i as int]));
            return false;
        }
        assert(str_wf(strings_view(p.direct_addresses@)[i as int]));
        i += 1;
    }
    true
}

fn read_peers(input: &Vec<u8>, pos: usize, n: u32) -> (r: Option<(Vec<PeerAddr>, usize)>)
    requires
        pos <= input.len(),
    ensures
        match r {
            Some(p) => take_peer_n(n as nat, input@.skip(pos as int)) == Some(
                (peers_view(p.0@), input@.skip(p.1 as int)),
            ) && pos <= p.1 <= input.len(),
            None => take_peer_n(n as nat, input@.skip(pos as int)) is None,
        },
{
    let mut out: Vec<PeerAddr> = Vec::new();
    let mut p = pos;
    let mut i: u32 = 0;
    proof {
        assert(peers_view(out@) =~= Seq::<PeerAddrView>::empty());
        if take_peer_n(n as nat, input@.skip(pos as int)) is Some {
            let (l0, _r0) = take_peer_n(n as nat, input@.skip(pos as int))->0;
            assert(peers_view(out@) + l0 =~= l0);
        }
    }
    loop
        invariant
            i <= n,
            pos <= p <= input.len(),
            take_peer_n(n as nat, input@.skip(pos as int)) == match take_peer_n(
                (n - i) as nat,
                input@.skip(p as int),
            ) {
                Some((l, rest)) => Some((peers_view(out@) + l, rest)),
                None => None::<(Seq<PeerAddrView>, Seq<u8>)>,
            },
            out@.len() == i,
        decreases n - i,
    {
        if i == n {
            proof {
                assert(take_peer_n(0, input@.skip(p as int)) == Some(
                    (Seq::<PeerAddrView>::empty(), input@.skip(p as int)),
                ));
                assert(peers_view(out@) + Seq::<PeerAddrView>::empty() =~= peers_view(out@));
            }
            return Some((out, p));
        }
        match read_peer(input, p) {
            None => {
                return None;
            },
            Some((pa, p2)) => {
                proof {
                    let l_old = peers_view(out@);
                    let tail = take_peer_n((n - i - 1) as nat, input@.skip(p2 as int));
                    if tail is Some {
                        let (tl, _trest) = tail->0;
                        assert(l_old + (seq![pa@] + tl) =~= (l_old.push(pa@)) + tl);
                    }
                    assert(peers_view(out@.push(pa)) =~= peers_view(out@).push(pa@));
                }
                out.push(pa);
                p = p2;
                i += 1;
            },
        }
    }
}

} // verus!
