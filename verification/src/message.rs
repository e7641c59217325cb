//! The messages exchanged with the proxy server.

use crate::json::{
    decimal_text, is_string_literal, json_string_text, lemma_decimal_is_unique,
    lemma_same_start_same_rest, lemma_string_literal_is_unique, push_decimal, quote,
};
use crate::wire::{frame, framed, lemma_frame_round_trip, unframed, HEADER_LEN};
use vstd::prelude::*;
use vstd::string::StringExecFns;
use vstd::utf8::encode_utf8;

verus! {

/// Tag of a proxy request, the only message the client sends.
pub const TAG_PROXY_REQUEST: u8 = 0;

/// Tag of the response that grants the proxied connection.
pub const TAG_SUCCESS: u8 = 50;

/// Tag of the response that denies the proxied connection.
pub const TAG_FAILED: u8 = 51;

/// True for the tags that this version of the protocol gives a meaning to.
pub open spec fn is_known_tag(tag: u8) -> bool {
    tag == TAG_PROXY_REQUEST || tag == TAG_SUCCESS || tag == TAG_FAILED
}

/// The type of a message, one byte on the wire.
///
/// A tag without a meaning is kept as `Unknown` with its value: the codec
/// rejects nothing, the handshake decides what an unexpected tag means.
#[derive(Clone, Copy, Debug, PartialEq, Eq, Structural)]
pub enum MessageId {
    ProxyRequest,
    Success,
    Failed,
    Unknown(u8),
}

impl MessageId {
    /// `Unknown` holds only tags that no other variant stands for, so that
    /// each tag has exactly one well-formed message type.
    pub open spec fn wf(self) -> bool {
        self matches MessageId::Unknown(tag) ==> !is_known_tag(tag)
    }

    /// The byte that stands for this message type on the wire.
    pub open spec fn spec_tag(self) -> u8 {
        match self {
            MessageId::ProxyRequest => TAG_PROXY_REQUEST,
            MessageId::Success => TAG_SUCCESS,
            MessageId::Failed => TAG_FAILED,
            MessageId::Unknown(tag) => tag,
        }
    }

    /// The message type that a byte stands for.
    pub open spec fn spec_from_tag(tag: u8) -> MessageId {
        if tag == TAG_PROXY_REQUEST {
            MessageId::ProxyRequest
        } else if tag == TAG_SUCCESS {
            MessageId::Success
        } else if tag == TAG_FAILED {
            MessageId::Failed
        } else {
            MessageId::Unknown(tag)
        }
    }

    /// The byte that stands for this message type on the wire.
    pub fn tag(self) -> (tag: u8)
        ensures
            tag == self.spec_tag(),
    {
        match self {
            MessageId::ProxyRequest => TAG_PROXY_REQUEST,
            MessageId::Success => TAG_SUCCESS,
            MessageId::Failed => TAG_FAILED,
            MessageId::Unknown(tag) => tag,
        }
    }

    /// Reads a message type from its byte. Every byte is accepted.
    pub fn from_tag(tag: u8) -> (id: MessageId)
        ensures
            id == Self::spec_from_tag(tag),
            id.wf(),
            id.spec_tag() == tag,
    {
        if tag == TAG_PROXY_REQUEST {
            MessageId::ProxyRequest
        } else if tag == TAG_SUCCESS {
            MessageId::Success
        } else if tag == TAG_FAILED {
            MessageId::Failed
        } else {
            MessageId::Unknown(tag)
        }
    }
}

/// The header common to all messages sent and received: the message type and
/// the length in bytes of the body that follows.
#[derive(Clone, Copy, Debug, PartialEq, Eq, Structural)]
pub struct MessageHeader {
    pub msg_type: MessageId,
    pub len: u32,
}

impl MessageHeader {
    /// A header is well-formed when its message type is.
    pub open spec fn wf(self) -> bool {
        self.msg_type.wf()
    }
}

/// What a proxy request holds, as plain values.
pub struct ProxyRequestView {
    pub msg_type: Seq<char>,
    pub instance_id: u64,
    pub dst_ip: Seq<char>,
    pub dst_port: Seq<char>,
}

/// The body of a proxy request: the instance on whose behalf the connection
/// is asked for, and the destination. The port travels as a string, as the
/// proxy server expects it.
#[derive(Debug)]
pub struct ProxyRequest {
    msg_type: String,
    instance_id: u64,
    dst_ip: String,
    dst_port: String,
}

impl View for ProxyRequest {
    type V = ProxyRequestView;

    closed spec fn view(&self) -> ProxyRequestView {
        ProxyRequestView {
            msg_type: self.msg_type@,
            instance_id: self.instance_id,
            dst_ip: self.dst_ip@,
            dst_port: self.dst_port@,
        }
    }
}

impl Clone for ProxyRequest {
    fn clone(&self) -> (copy: ProxyRequest)
        ensures
            copy@ == self@,
    {
        ProxyRequest {
            msg_type: self.msg_type.clone(),
            instance_id: self.instance_id,
            dst_ip: self.dst_ip.clone(),
            dst_port: self.dst_port.clone(),
        }
    }
}

/// The JSON object of a proxy request, given the JSON text of each of its
/// string members: the members in the order `msg_type`, `instance_id`,
/// `dst_ip`, `dst_port`, without white space.
pub open spec fn request_text(
    msg_type_json: Seq<char>,
    instance_id: u64,
    dst_ip_json: Seq<char>,
    dst_port_json: Seq<char>,
) -> Seq<char> {
    "{\"msg_type\":"@ + msg_type_json + ",\"instance_id\":"@ + decimal_text(instance_id as nat)
        + ",\"dst_ip\":"@ + dst_ip_json + ",\"dst_port\":"@ + dst_port_json + "}"@
}

/// The JSON text of a proxy request.
pub open spec fn body_text(req: ProxyRequestView) -> Seq<char> {
    request_text(
        json_string_text(req.msg_type),
        req.instance_id,
        json_string_text(req.dst_ip),
        json_string_text(req.dst_port),
    )
}

/// The body of a proxy request on the wire: its JSON text in UTF-8.
pub open spec fn body_bytes(req: ProxyRequestView) -> Seq<u8> {
    encode_utf8(body_text(req))
}

/// A proxy request on the wire: header and body.
pub open spec fn encoded(req: ProxyRequestView) -> Seq<u8>
    recommends
        body_bytes(req).len() <= u32::MAX,
{
    framed(MessageId::ProxyRequest, body_bytes(req))
}

/// Puts the JSON object of a proxy request together from the JSON text of
/// its string members.
pub fn assemble_request_text(
    msg_type_json: &str,
    instance_id: u64,
    dst_ip_json: &str,
    dst_port_json: &str,
) -> (text: String)
    ensures
        text@ == request_text(msg_type_json@, instance_id, dst_ip_json@, dst_port_json@),
{
    let mut text = String::new();
    text.append("{\"msg_type\":");
    text.append(msg_type_json);
    text.append(",\"instance_id\":");
    push_decimal(&mut text, instance_id);
    text.append(",\"dst_ip\":");
    text.append(dst_ip_json);
    text.append(",\"dst_port\":");
    text.append(dst_port_json);
    text.append("}");
    assert(text@ =~= request_text(msg_type_json@, instance_id, dst_ip_json@, dst_port_json@));
    text
}

impl ProxyRequest {
    /// A request for a connection to `dst_ip`, port `dst_port`, on behalf of
    /// instance `instance_id`.
    pub fn new(instance_id: u64, dst_ip: String, dst_port: String) -> (req: ProxyRequest)
        ensures
            req@ == (ProxyRequestView {
                msg_type: "PROXY_REQUEST"@,
                instance_id,
                dst_ip: dst_ip@,
                dst_port: dst_port@,
            }),
    {
        ProxyRequest { msg_type: "PROXY_REQUEST".to_owned(), instance_id, dst_ip, dst_port }
    }

    /// The kind of message, as the body names it.
    pub fn msg_type(&self) -> (s: &str)
        ensures
            s@ == self@.msg_type,
    {
        self.msg_type.as_str()
    }

    /// The instance on whose behalf the connection is asked for.
    pub fn instance_id(&self) -> (id: u64)
        ensures
            id == self@.instance_id,
    {
        self.instance_id
    }

    /// The destination address.
    pub fn dst_ip(&self) -> (s: &str)
        ensures
            s@ == self@.dst_ip,
    {
        self.dst_ip.as_str()
    }

    /// The destination port.
    pub fn dst_port(&self) -> (s: &str)
        ensures
            s@ == self@.dst_port,
    {
        self.dst_port.as_str()
    }

    /// The JSON text of the request.
    pub fn body(&self) -> (text: String)
        ensures
            text@ == body_text(self@),
    {
        let msg_type_json = quote(self.msg_type.as_str());
        let dst_ip_json = quote(self.dst_ip.as_str());
        let dst_port_json = quote(self.dst_port.as_str());
        assemble_request_text(
            msg_type_json.as_str(),
            self.instance_id,
            dst_ip_json.as_str(),
            dst_port_json.as_str(),
        )
    }

    /// The request as it goes on the wire: the tag of a proxy request, the
    /// length of the body, the body. `None` when the body is longer than the
    /// 32-bit length field can say.
    pub fn encode(&self) -> (out: Option<Vec<u8>>)
        ensures
            out is Some <==> body_bytes(self@).len() <= u32::MAX,
            out matches Some(bytes) ==> bytes@ == encoded(self@),
    {
        let text = self.body();
        let body = text.as_str().as_bytes();
        if body.len() > 0xffff_ffff {
            None
        } else {
            Some(frame(MessageId::ProxyRequest, body))
        }
    }
}

/// Writing a well-formed message type as a byte and reading the byte back
/// gives the same message type.
pub proof fn lemma_tag_round_trip(id: MessageId)
    requires
        id.wf(),
    ensures
        MessageId::spec_from_tag(id.spec_tag()) == id,
{
}

/// Reading a byte as a message type and writing it out gives the same byte,
/// and what was read is well-formed.
pub proof fn lemma_from_tag_round_trip(tag: u8)
    ensures
        MessageId::spec_from_tag(tag).wf(),
        MessageId::spec_from_tag(tag).spec_tag() == tag,
{
}

/// A proxy request put on the wire and taken apart again gives the tag of a
/// proxy request and the JSON text of the request, byte for byte, and the
/// length in the header is the length of that body.
pub proof fn lemma_request_round_trip(req: ProxyRequestView)
    requires
        body_bytes(req).len() <= u32::MAX,
    ensures
        encoded(req).len() == HEADER_LEN + body_bytes(req).len(),
        encoded(req)[0] == TAG_PROXY_REQUEST,
        unframed(encoded(req)) == Some(
            (
                MessageHeader {
                    msg_type: MessageId::ProxyRequest,
                    len: body_bytes(req).len() as u32,
                },
                body_bytes(req),
            ),
        ),
{
    lemma_frame_round_trip(MessageId::ProxyRequest, body_bytes(req));
}

/// The JSON object of a request, with what follows each member put together
/// first: the same text as `request_text`, in the order in which a reader
/// takes it apart.
proof fn lemma_request_text_nested(
    msg_type_json: Seq<char>,
    instance_id: u64,
    dst_ip_json: Seq<char>,
    dst_port_json: Seq<char>,
)
    ensures
        request_text(msg_type_json, instance_id, dst_ip_json, dst_port_json) == "{\"msg_type\":"@
            + (msg_type_json + (",\"instance_id\":"@ + (decimal_text(instance_id as nat) + (
        ",\"dst_ip\":"@ + (dst_ip_json + (",\"dst_port\":"@ + (dst_port_json + "}"@))))))),
{
    let nested = "{\"msg_type\":"@ + (msg_type_json + (",\"instance_id\":"@ + (decimal_text(
        instance_id as nat,
    ) + (",\"dst_ip\":"@ + (dst_ip_json + (",\"dst_port\":"@ + (dst_port_json + "}"@)))))));
    assert(request_text(msg_type_json, instance_id, dst_ip_json, dst_port_json) =~= nested);
}

/// The JSON object of a request comes apart in one way only: two requests
/// with the same text have the same instance id and, member for member, the
/// same JSON text, where those texts have the shape of a string literal.
pub proof fn lemma_request_text_determines_members(
    msg_type_a: Seq<char>,
    instance_id_a: u64,
    dst_ip_a: Seq<char>,
    dst_port_a: Seq<char>,
    msg_type_b: Seq<char>,
    instance_id_b: u64,
    dst_ip_b: Seq<char>,
    dst_port_b: Seq<char>,
)
    requires
        is_string_literal(msg_type_a),
        is_string_literal(dst_ip_a),
        is_string_literal(dst_port_a),
        is_string_literal(msg_type_b),
        is_string_literal(dst_ip_b),
        is_string_literal(dst_port_b),
        request_text(msg_type_a, instance_id_a, dst_ip_a, dst_port_a) == request_text(
            msg_type_b,
            instance_id_b,
            dst_ip_b,
            dst_port_b,
        ),
    ensures
        msg_type_a == msg_type_b,
        instance_id_a == instance_id_b,
        dst_ip_a == dst_ip_b,
        dst_port_a == dst_port_b,
{
    lemma_request_text_nested(msg_type_a, instance_id_a, dst_ip_a, dst_port_a);
    lemma_request_text_nested(msg_type_b, instance_id_b, dst_ip_b, dst_port_b);
    let end_a = dst_port_a + "}"@;
    let end_b = dst_port_b + "}"@;
    let port_a = ",\"dst_port\":"@ + end_a;
    let port_b = ",\"dst_port\":"@ + end_b;
    let ip_a = ",\"dst_ip\":"@ + (dst_ip_a + port_a);
    let ip_b = ",\"dst_ip\":"@ + (dst_ip_b + port_b);
    let id_a = ",\"instance_id\":"@ + (decimal_text(instance_id_a as nat) + ip_a);
    let id_b = ",\"instance_id\":"@ + (decimal_text(instance_id_b as nat) + ip_b);
    lemma_same_start_same_rest("{\"msg_type\":"@, msg_type_a + id_a, msg_type_b + id_b);
    lemma_string_literal_is_unique(msg_type_a, id_a, msg_type_b, id_b);
    lemma_same_start_same_rest(
        ",\"instance_id\":"@,
        decimal_text(instance_id_a as nat) + ip_a,
        decimal_text(instance_id_b as nat) + ip_b,
    );
    reveal_strlit(",\"dst_ip\":");
    assert(ip_a[0] == ',');
    assert(ip_b[0] == ',');
    lemma_decimal_is_unique(instance_id_a as nat, ip_a, instance_id_b as nat, ip_b);
    lemma_same_start_same_rest(",\"dst_ip\":"@, dst_ip_a + port_a, dst_ip_b + port_b);
    lemma_string_literal_is_unique(dst_ip_a, port_a, dst_ip_b, port_b);
    lemma_same_start_same_rest(",\"dst_port\":"@, end_a, end_b);
    lemma_string_literal_is_unique(dst_port_a, "}"@, dst_port_b, "}"@);
}

} // verus!
