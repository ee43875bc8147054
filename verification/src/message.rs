//! Typed application messages and their payload wire format.
//!
//! Every envelope carries exactly one `MessageType` variant, encoded as a tag
//! byte followed by the variant's fields.

use vstd::prelude::*;
use vstd::string::StringExecFns;

use crate::error::NodeError;
use crate::wire::{
    enc_opt_str, enc_str, lemma_take_opt_str, lemma_take_str, lemma_take_u8, read_opt_str,
    read_str, read_u8, str_len_fits, str_wf, take_opt_str, take_str, take_u8,
};

verus! {

/// The decoded payload of an envelope: a tagged union with exactly one
/// variant per message kind.
pub enum MessageType {
    /// A chat line.
    Chat { text: String },
    /// A node announcing its display name.
    NodeInfo { name: Option<String> },
    /// A request for the external agent collaborator.
    AgentRequest { prompt: String, agent_id: String },
    /// The agent's reply, broadcast back on the same topic.
    AgentResponse { content: String, agent_id: String },
    /// An error report.
    Error { message: String },
    /// A system notice.
    System { content: String },
}

#[verifier::ext_equal]
pub ghost enum MessageTypeView {
    Chat { text: Seq<char> },
    NodeInfo { name: Option<Seq<char>> },
    AgentRequest { prompt: Seq<char>, agent_id: Seq<char> },
    AgentResponse { content: Seq<char>, agent_id: Seq<char> },
    Error { message: Seq<char> },
    System { content: Seq<char> },
}

impl View for MessageType {
    type V = MessageTypeView;

    open spec fn view(&self) -> MessageTypeView {
        match *self {
            MessageType::Chat { ref text } => MessageTypeView::Chat { text: text@ },
            MessageType::NodeInfo { ref name } => MessageTypeView::NodeInfo {
                name: match *name {
                    Some(ref s) => Some(s@),
                    None => None,
                },
            },
            MessageType::AgentRequest { ref prompt, ref agent_id } => MessageTypeView::AgentRequest {
                prompt: prompt@,
                agent_id: agent_id@,
            },
            MessageType::AgentResponse { ref content, ref agent_id } => MessageTypeView::AgentResponse {
                content: content@,
                agent_id: agent_id@,
            },
            MessageType::Error { ref message } => MessageTypeView::Error { message: message@ },
            MessageType::System { ref content } => MessageTypeView::System { content: content@ },
        }
    }
}

pub open spec fn message_wf(m: MessageTypeView) -> bool {
    match m {
        MessageTypeView::Chat { text } => str_wf(text),
        MessageTypeView::NodeInfo { name } => name is Some ==> str_wf(name->0),
        MessageTypeView::AgentRequest { prompt, agent_id } => str_wf(prompt) && str_wf(agent_id),
        MessageTypeView::AgentResponse { content, agent_id } => str_wf(content) && str_wf(
            agent_id,
        ),
        MessageTypeView::Error { message } => str_wf(message),
        MessageTypeView::System { content } => str_wf(content),
    }
}

/// The payload layout: a tag byte, then the variant's fields in order.
pub open spec fn enc_message(m: MessageTypeView) -> Seq<u8> {
    match m {
        MessageTypeView::Chat { text } => seq![0u8] + enc_str(text),
        MessageTypeView::NodeInfo { name } => seq![1u8] + enc_opt_str(name),
        MessageTypeView::AgentRequest { prompt, agent_id } => seq![2u8] + enc_str(prompt)
            + enc_str(agent_id),
        MessageTypeView::AgentResponse { content, agent_id } => seq![3u8] + enc_str(content)
            + enc_str(agent_id),
        MessageTypeView::Error { message } => seq![4u8] + enc_str(message),
        MessageTypeView::System { content } => seq![5u8] + enc_str(content),
    }
}

pub open spec fn take_message(b: Seq<u8>) -> Option<(MessageTypeView, Seq<u8>)> {
    match take_u8(b) {
        Some((tag, r0)) => {
            if tag == 0 {
                match take_str(r0) {
                    Some((text, r1)) => Some((MessageTypeView::Chat { text }, r1)),
                    None => None,
                }
            } else if tag == 1 {
                match take_opt_str(r0) {
                    Some((name, r1)) => Some((MessageTypeView::NodeInfo { name }, r1)),
                    None => None,
                }
            } else if tag == 2 {
                match take_str(r0) {
                    Some((prompt, r1)) => match take_str(r1) {
                        Some((agent_id, r2)) => Some(
                            (MessageTypeView::AgentRequest { prompt, agent_id }, r2),
                        ),
                        None => None,
                    },
                    None => None,
                }
            } else if tag == 3 {
                match take_str(r0) {
                    Some((content, r1)) => match take_str(r1) {
                        Some((agent_id, r2)) => Some(
                            (MessageTypeView::AgentResponse { content, agent_id }, r2),
                        ),
                        None => None,
                    },
                    None => None,
                }
            } else if tag == 4 {
                match take_str(r0) {
                    Some((message, r1)) => Some((MessageTypeView::Error { message }, r1)),
                    None => None,
                }
            } else if tag == 5 {
                match take_str(r0) {
                    Some((content, r1)) => Some((MessageTypeView::System { content }, r1)),
                    None => None,
                }
            } else {
                None
            }
        },
        None => None,
    }
}

/// Parse a complete payload; trailing bytes are rejected.
pub open spec fn message_from_bytes_spec(b: Seq<u8>) -> Option<MessageTypeView> {
    match take_message(b) {
        Some((m, rest)) => if rest.len() == 0 {
            Some(m)
        } else {
            None
        },
        None => None,
    }
}

/// A well-formed payload's binary form parses back to the payload itself.
pub proof fn lemma_message_round_trip(m: MessageTypeView)
    requires
        message_wf(m),
    ensures
        message_from_bytes_spec(enc_message(m)) == Some(m),
{
    let e: Seq<u8> = Seq::empty();
    match m {
        MessageTypeView::Chat { text } => {
            assert(enc_message(m) =~= seq![0u8] + (enc_str(text) + e));
            lemma_take_u8(0u8, enc_str(text) + e);
            lemma_take_str(text, e);
        },
        MessageTypeView::NodeInfo { name } => {
            assert(enc_message(m) =~= seq![1u8] + (enc_opt_str(name) + e));
            lemma_take_u8(1u8, enc_opt_str(name) + e);
            lemma_take_opt_str(name, e);
        },
        MessageTypeView::AgentRequest { prompt, agent_id } => {
            assert(enc_message(m) =~= seq![2u8] + (enc_str(prompt) + (enc_str(agent_id) + e)));
            lemma_take_u8(2u8, enc_str(prompt) + (enc_str(agent_id) + e));
            lemma_take_str(prompt, enc_str(agent_id) + e);
            lemma_take_str(agent_id, e);
        },
        MessageTypeView::AgentResponse { content, agent_id } => {
            assert(enc_message(m) =~= seq![3u8] + (enc_str(content) + (enc_str(agent_id) + e)));
            lemma_take_u8(3u8, enc_str(content) + (enc_str(agent_id) + e));
            lemma_take_str(content, enc_str(agent_id) + e);
            lemma_take_str(agent_id, e);
        },
        MessageTypeView::Error { message } => {
            assert(enc_message(m) =~= seq![4u8] + (enc_str(message) + e));
            lemma_take_u8(4u8, enc_str(message) + e);
            lemma_take_str(message, e);
        },
        MessageTypeView::System { content } => {
            assert(enc_message(m) =~= seq![5u8] + (enc_str(content) + e));
            lemma_take_u8(5u8, enc_str(content) + e);
            lemma_take_str(content, e);
        },
    }
}

/// Anything the parser accepts is well formed.
pub proof fn lemma_parsed_message_wf(b: Seq<u8>)
    ensures
        take_message(b) matches Some(p) ==> message_wf(p.0),
{
    if take_message(b) is Some {
        let (tag, r0) = take_u8(b)->0;
        crate::ticket::lemma_take_str_gives_wf(r0);
        if tag == 1 {
            let (name, _r1) = take_opt_str(r0)->0;
            if name is Some {
                let (t2, r0b) = take_u8(r0)->0;
                crate::ticket::lemma_take_str_gives_wf(r0b);
            }
        }
        if tag == 2 || tag == 3 {
            let (s1, r1) = take_str(r0)->0;
            crate::ticket::lemma_take_str_gives_wf(r1);
        }
    }
}

impl MessageType {
    pub open spec fn wf(&self) -> bool {
        message_wf(self@)
    }

    /// Check that every text field fits behind a 32-bit length prefix.
    pub fn check_wf(&self) -> (b: bool)
        ensures
            b == self.wf(),
    {
        match self {
            MessageType::Chat { text } => str_len_fits(text.as_str()),
            MessageType::NodeInfo { name } => match name {
                Some(s) => str_len_fits(s.as_str()),
                None => true,
            },
            MessageType::AgentRequest { prompt, agent_id } => str_len_fits(prompt.as_str())
                && str_len_fits(agent_id.as_str()),
            MessageType::AgentResponse { content, agent_id } => str_len_fits(content.as_str())
                && str_len_fits(agent_id.as_str()),
            MessageType::Error { message } => str_len_fits(message.as_str()),
            MessageType::System { content } => str_len_fits(content.as_str()),
        }
    }

    /// Serialize the payload. Fails exactly when some text field is too long
    /// for the wire format's length prefixes.
    pub fn to_bytes(&self) -> (r: Result<Vec<u8>, NodeError>)
        ensures
            match r {
                Ok(v) => self.wf() && v@ == enc_message(self@),
                Err(e) => !self.wf() && e is EncodeError,
            },
    {
        if !self.check_wf() {
            return Err(NodeError::EncodeError(String::from_str("message field too long")));
        }
        let mut out: Vec<u8> = Vec::new();
        match self {
            MessageType::Chat { text } => {
                crate::wire::write_u8(&mut out, 0);
                crate::wire::write_str(&mut out, text.as_str());
            },
            MessageType::NodeInfo { name } => {
                crate::wire::write_u8(&mut out, 1);
                crate::wire::write_opt_str(&mut out, name);
            },
            MessageType::AgentRequest { prompt, agent_id } => {
                crate::wire::write_u8(&mut out, 2);
                crate::wire::write_str(&mut out, prompt.as_str());
                crate::wire::write_str(&mut out, agent_id.as_str());
            },
            MessageType::AgentResponse { content, agent_id } => {
                crate::wire::write_u8(&mut out, 3);
                crate::wire::write_str(&mut out, content.as_str());
                crate::wire::write_str(&mut out, agent_id.as_str());
            },
            MessageType::Error { message } => {
                crate::wire::write_u8(&mut out, 4);
                crate::wire::write_str(&mut out, message.as_str());
            },
            MessageType::System { content } => {
                crate::wire::write_u8(&mut out, 5);
                crate::wire::write_str(&mut out, content.as_str());
            },
        }
        assert(out@ =~= enc_message(self@));
        Ok(out)
    }

    /// Deserialize a payload; trailing bytes are an error.
    pub fn from_bytes(bytes: &Vec<u8>) -> (r: Result<MessageType, NodeError>)
        ensures
            match r {
                Ok(m) => message_from_bytes_spec(bytes@) == Some(m@) && m.wf(),
                Err(e) => message_from_bytes_spec(bytes@) is None && e is DecodeError,
            },
    {
        proof {
            assert(bytes@.skip(0) =~= bytes@);
        }
        let err_msg = "malformed message payload";
        let parsed = read_message(bytes, 0);
        match parsed {
            None => Err(NodeError::DecodeError(String::from_str(err_msg))),
            Some((m, p)) => {
                if p != bytes.len() {
                    assert(bytes@.skip(p as int).len() != 0);
                    return Err(NodeError::DecodeError(String::from_str(err_msg)));
                }
                assert(bytes@.skip(p as int).len() == 0);
                proof {
                    lemma_parsed_message_wf(bytes@);
                }
                Ok(m)
            },
        }
    }
}

fn read_message(input: &Vec<u8>, pos: usize) -> (r: Option<(MessageType, usize)>)
    requires
        pos <= input.len(),
    ensures
        match r {
            Some(p) => take_message(input@.skip(pos as int)) == Some(
                (p.0@, input@.skip(p.1 as int)),
            ) && pos <= p.1 <= input.len(),
            None => take_message(input@.skip(pos as int)) is None,
        },
{
    match read_u8(input, pos) {
        None => None,
        Some((tag, p0)) => {
            if tag == 0 {
                match read_str(input, p0) {
                    None => None,
                    Some((text, p1)) => Some((MessageType::Chat { text }, p1)),
                }
            } else if tag == 1 {
                match read_opt_str(input, p0) {
                    None => None,
                    Some((name, p1)) => Some((MessageType::NodeInfo { name }, p1)),
                }
            } else if tag == 2 {
                match read_str(input, p0) {
                    None => None,
                    Some((prompt, p1)) => match read_str(input, p1) {
                        None => None,
                        Some((agent_id, p2)) => Some(
                            (MessageType::AgentRequest { prompt, agent_id }, p2),
                        ),
                    },
                }
            } else if tag == 3 {
                match read_str(input, p0) {
                    None => None,
                    Some((content, p1)) => match read_str(input, p1) {
                        None => None,
                        Some((agent_id, p2)) => Some(
                            (MessageType::AgentResponse { content, agent_id }, p2),
                        ),
                    },
                }
            } else if tag == 4 {
                match read_str(input, p0) {
                    None => None,
                    Some((message, p1)) => Some((MessageType::Error { message }, p1)),
                }
            } else if tag == 5 {
                match read_str(input, p0) {
                    None => None,
                    Some((content, p1)) => Some((MessageType::System { content }, p1)),
                }
            } else {
                None
            }
        },
    }
}

} // verus!
