//! The session grant: what the authorization service answered for the key
//! that opened the session, and the single slot that keeps it.

use crate::json::{json_string_text, quote};
use vstd::prelude::*;
use vstd::string::StringExecFns;

verus! {

/// The authorization result for a session.
#[derive(Clone, Copy, Debug, PartialEq, Eq, Structural)]
pub struct SessionGrant {
    /// The instance that the session is served by.
    pub instance_id: u64,
    pub is_admin: bool,
    pub is_grading_assistant: bool,
    pub tcp_forwarding_allowed: bool,
}

impl SessionGrant {
    /// A grant from the answer of the authorization service, which sends
    /// each permission as a number: zero denies, any other value grants.
    pub fn from_flags(
        instance_id: u64,
        is_admin: u8,
        is_grading_assistant: u8,
        tcp_forwarding_allowed: u8,
    ) -> (grant: SessionGrant)
        ensures
            grant == (SessionGrant {
                instance_id,
                is_admin: is_admin != 0,
                is_grading_assistant: is_grading_assistant != 0,
                tcp_forwarding_allowed: tcp_forwarding_allowed != 0,
            }),
    {
        SessionGrant {
            instance_id,
            is_admin: is_admin != 0,
            is_grading_assistant: is_grading_assistant != 0,
            tcp_forwarding_allowed: tcp_forwarding_allowed != 0,
        }
    }
}

/// The answer to an authentication request as the host process reads it,
/// every flag one byte.
#[derive(Clone, Copy, Debug, PartialEq, Eq, Structural)]
pub struct RefApiShhAuthenticatedResponse {
    /// Whether the request was answered at all.
    pub success: u8,
    /// Whether the requested instance will be served to the user. If this is
    /// zero, the fields below hold nothing.
    pub access_granted: u8,
    /// The instance that the request belongs to.
    pub instance_id: u64,
    /// Whether the key belongs to an admin.
    pub is_admin: u8,
    /// Whether the key belongs to a grading assistant.
    pub is_grading_assistent: u8,
}

/// The slot that holds the grant of this session: empty until the one
/// successful authentication, then unchanged for as long as it lives.
pub struct GrantCache {
    slot: Option<SessionGrant>,
}

impl View for GrantCache {
    type V = Option<SessionGrant>;

    closed spec fn view(&self) -> Option<SessionGrant> {
        self.slot
    }
}

/// What the slot holds after an attempt to store `grant`: the grant if the
/// slot was empty, else what it held.
pub open spec fn stored_after(slot: Option<SessionGrant>, grant: SessionGrant) -> Option<
    SessionGrant,
> {
    if slot is None {
        Some(grant)
    } else {
        slot
    }
}

impl GrantCache {
    /// An empty cache.
    pub fn new() -> (cache: GrantCache)
        ensures
            cache@ is None,
    {
        GrantCache { slot: None }
    }

    /// Whether a grant is stored.
    pub fn is_set(&self) -> (set: bool)
        ensures
            set == self@ is Some,
    {
        self.slot.is_some()
    }

    /// A copy of the stored grant, if there is one.
    pub fn get(&self) -> (grant: Option<SessionGrant>)
        ensures
            grant == self@,
    {
        self.slot
    }

    /// Stores the grant. The cache must be empty: to store a second grant is
    /// a programming error.
    pub fn set(&mut self, grant: SessionGrant)
        requires
            old(self)@ is None,
        ensures
            final(self)@ == Some(grant),
    {
        self.slot = Some(grant);
    }

    /// Stores the grant if the cache is empty and says whether it did. A
    /// cache that holds a grant is left as it is.
    pub fn try_set(&mut self, grant: SessionGrant) -> (stored: bool)
        ensures
            stored == old(self)@ is None,
            final(self)@ == stored_after(old(self)@, grant),
    {
        if self.is_set() {
            false
        } else {
            self.set(grant);
            true
        }
    }
}

/// The slot is set once: whatever it held, after one attempt to store a
/// grant it holds a grant, and a second attempt changes nothing. On an empty
/// slot the grant that stays is the first.
pub proof fn lemma_set_once(slot: Option<SessionGrant>, first: SessionGrant, second: SessionGrant)
    ensures
        stored_after(slot, first) is Some,
        stored_after(stored_after(slot, first), second) == stored_after(slot, first),
        slot is None ==> stored_after(stored_after(slot, first), second) == Some(first),
{
}

/// The JSON object that asks the authorization service about a key, given
/// the JSON text of the two strings: the members `name` and `pubkey`, in that
/// order, without white space.
pub open spec fn lookup_text(name_json: Seq<char>, pubkey_json: Seq<char>) -> Seq<char> {
    "{\"name\":"@ + name_json + ",\"pubkey\":"@ + pubkey_json + "}"@
}

/// Puts the JSON object of a lookup together from the JSON text of its two
/// strings.
pub fn assemble_lookup_text(name_json: &str, pubkey_json: &str) -> (text: String)
    ensures
        text@ == lookup_text(name_json@, pubkey_json@),
{
    let mut text = String::new();
    text.append("{\"name\":");
    text.append(name_json);
    text.append(",\"pubkey\":");
    text.append(pubkey_json);
    text.append("}");
    assert(text@ =~= lookup_text(name_json@, pubkey_json@));
    text
}

/// The body of the request that asks the authorization service whether the
/// key `pubkey` may have the task or instance `name`.
pub fn lookup_body(name: &str, pubkey: &str) -> (text: String)
    ensures
        text@ == lookup_text(json_string_text(name@), json_string_text(pubkey@)),
{
    let name_json = quote(name);
    let pubkey_json = quote(pubkey);
    assemble_lookup_text(name_json.as_str(), pubkey_json.as_str())
}

} // verus!
