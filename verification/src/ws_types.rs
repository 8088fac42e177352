//! Messages exchanged over a live connection.
//!
//! A client frame is a JSON object tagged by its `action` member; a server
//! frame is the full content snapshot of the project the connection follows.

use vstd::prelude::*;
use crate::object_id::{hex_bytes, is_object_id_hex, ObjectId};

verus! {

/// Tag of the member that names the kind of a client frame.
pub const ACTION: &'static str = "action";

/// Value of the tag for a request to follow a project.
pub const OPEN_PROJECT: &'static str = "open_project";

/// Value of the tag for an edit of the followed project.
pub const EDIT_PROJECT: &'static str = "edit_project";

/// Member that names the project to follow.
pub const PROJECT_ID: &'static str = "project_id";

/// Member that holds the tier container markup.
pub const TIER_CONTAINER_HTML: &'static str = "tier_container_html";

/// Member that holds the image carousel markup.
pub const IMAGE_CAROUSEL_HTML: &'static str = "image_carousel_html";

/// What a content snapshot says, as text.
pub ghost struct Snapshot {
    pub tier_container_html: Seq<char>,
    pub image_carousel_html: Seq<char>,
}

/// The content snapshot sent to every follower of a project: on joining, and
/// after each accepted edit.
#[derive(Debug, PartialEq, Eq)]
pub struct ProjectContentsResponse {
    pub tier_container_html: String,
    pub image_carousel_html: String,
}

impl View for ProjectContentsResponse {
    type V = Snapshot;

    open spec fn view(&self) -> Snapshot {
        Snapshot {
            tier_container_html: self.tier_container_html@,
            image_carousel_html: self.image_carousel_html@,
        }
    }
}

impl Clone for ProjectContentsResponse {
    fn clone(&self) -> (copy: Self)
        ensures
            copy@ == self@,
    {
        ProjectContentsResponse {
            tier_container_html: self.tier_container_html.clone(),
            image_carousel_html: self.image_carousel_html.clone(),
        }
    }
}

/// What a client message says.
pub ghost enum Request {
    OpenProject { project_id: Seq<u8> },
    EditProject { contents: Snapshot },
}

/// A message from a client. An edit names no project: it is meant for the
/// project that the connection follows.
#[derive(Debug, PartialEq, Eq)]
pub enum ClientMessage {
    OpenProject { project_id: ObjectId },
    EditProject { tier_container_html: String, image_carousel_html: String },
}

impl View for ClientMessage {
    type V = Request;

    open spec fn view(&self) -> Request {
        match self {
            ClientMessage::OpenProject { project_id } => Request::OpenProject {
                project_id: project_id@,
            },
            ClientMessage::EditProject { tier_container_html, image_carousel_html } => {
                Request::EditProject {
                    contents: Snapshot {
                        tier_container_html: tier_container_html@,
                        image_carousel_html: image_carousel_html@,
                    },
                }
            },
        }
    }
}

/// The text of an optional string.
pub open spec fn text_of(s: Option<String>) -> Option<Seq<char>> {
    match s {
        Some(s) => Some(s@),
        None => None,
    }
}

/// What a message says, if there is one.
pub open spec fn request_of(m: Option<ClientMessage>) -> Option<Request> {
    match m {
        Some(m) => Some(m@),
        None => None,
    }
}

/// The message that the string members of a frame spell.
///
/// A frame tagged `open_project` must name its project by twenty-four
/// hexadecimal digits; one tagged `edit_project` must carry both pieces of
/// markup. Members that the kind does not ask for are ignored. Every other
/// frame spells no message.
pub open spec fn decode_fields(
    action: Option<Seq<char>>,
    project_id: Option<Seq<char>>,
    tier_container_html: Option<Seq<char>>,
    image_carousel_html: Option<Seq<char>>,
) -> Option<Request> {
    if action == Some(OPEN_PROJECT@) {
        if project_id is Some && is_object_id_hex(project_id.unwrap()) {
            Some(Request::OpenProject { project_id: hex_bytes(project_id.unwrap()) })
        } else {
            None
        }
    } else if action == Some(EDIT_PROJECT@) {
        if tier_container_html is Some && image_carousel_html is Some {
            Some(
                Request::EditProject {
                    contents: Snapshot {
                        tier_container_html: tier_container_html.unwrap(),
                        image_carousel_html: image_carousel_html.unwrap(),
                    },
                },
            )
        } else {
            None
        }
    } else {
        None
    }
}

/// Builds the message that the string members of a frame spell, or `None`
/// where they spell none.
pub fn decode_client_message(
    action: Option<String>,
    project_id: Option<String>,
    tier_container_html: Option<String>,
    image_carousel_html: Option<String>,
) -> (message: Option<ClientMessage>)
    ensures
        request_of(message) == decode_fields(
            text_of(action),
            text_of(project_id),
            text_of(tier_container_html),
            text_of(image_carousel_html),
        ),
{
    let action = match action {
        Some(action) => action,
        None => { return None; },
    };
    if action == OPEN_PROJECT.to_owned() {
        match project_id {
            Some(hex) => match ObjectId::parse_str(hex.as_str()) {
                Some(project_id) => Some(ClientMessage::OpenProject { project_id }),
                None => None,
            },
            None => None,
        }
    } else if action == EDIT_PROJECT.to_owned() {
        match (tier_container_html, image_carousel_html) {
            (Some(tier_container_html), Some(image_carousel_html)) => Some(
                ClientMessage::EditProject { tier_container_html, image_carousel_html },
            ),
            _ => None,
        }
    } else {
        None
    }
}

/// The member of `members` under `key`, if there is one.
pub open spec fn member(members: Map<Seq<char>, Seq<char>>, key: Seq<char>) -> Option<
    Seq<char>,
> {
    if members.contains_key(key) {
        Some(members[key])
    } else {
        None
    }
}

/// The message that a frame spells, given the string members of its text;
/// text that is no JSON spells none.
pub open spec fn decode_frame(members: Option<Map<Seq<char>, Seq<char>>>) -> Option<Request> {
    match members {
        Some(members) => decode_fields(
            member(members, ACTION@),
            member(members, PROJECT_ID@),
            member(members, TIER_CONTAINER_HTML@),
            member(members, IMAGE_CAROUSEL_HTML@),
        ),
        None => None,
    }
}

/// Reads a client frame. A frame that is not JSON, that lacks its tag or a
/// member its kind asks for, or that names its project by anything but
/// twenty-four hexadecimal digits is no message.
pub fn parse_client_message(text: &str) -> (message: Option<ClientMessage>)
    ensures
        request_of(message) == decode_frame(json_text_members(text@)),
{
    match parse_json(text) {
        Some(value) => {
            let action = json_string_member(&value, ACTION);
            let project_id = json_string_member(&value, PROJECT_ID);
            let tier_container_html = json_string_member(&value, TIER_CONTAINER_HTML);
            let image_carousel_html = json_string_member(&value, IMAGE_CAROUSEL_HTML);
            decode_client_message(action, project_id, tier_container_html, image_carousel_html)
        },
        None => None,
    }
}

impl ProjectContentsResponse {
    /// The server frame that carries this snapshot: a JSON object with the
    /// two pieces of markup under their member names.
    pub fn to_frame(&self) -> (text: String)
        ensures
            text@ == json_pair_text(
                TIER_CONTAINER_HTML@,
                self@.tier_container_html,
                IMAGE_CAROUSEL_HTML@,
                self@.image_carousel_html,
            ),
    {
        encode_json_pair(
            TIER_CONTAINER_HTML,
            self.tier_container_html.as_str(),
            IMAGE_CAROUSEL_HTML,
            self.image_carousel_html.as_str(),
        )
    }
}

/// A parsed JSON document of `serde_json`, carried from the parser to the
/// member lookups.
#[verifier::external_type_specification]
#[verifier::external_body]
pub struct ExJsonValue(serde_json::Value);

/// The members of a JSON object whose values are strings, by name. A
/// document that is not an object has none.
pub uninterp spec fn json_members(value: serde_json::Value) -> Map<Seq<char>, Seq<char>>;

/// The string members of the document that `text` spells, or `None` where
/// `text` is not JSON.
pub uninterp spec fn json_text_members(text: Seq<char>) -> Option<Map<Seq<char>, Seq<char>>>;

/// The text of the JSON object with the two string members given, as the
/// serializer writes it.
pub uninterp spec fn json_pair_text(
    first_name: Seq<char>,
    first: Seq<char>,
    second_name: Seq<char>,
    second: Seq<char>,
) -> Seq<char>;

/// `serde_json::from_str`, read as a `serde_json::Value`.
///
/// Trusted: whether the text parses, and which string members the parsed
/// document has, depend on the text alone.
#[verifier::external_body]
fn parse_json(text: &str) -> (r: Option<serde_json::Value>)
    ensures
        r is Some <==> json_text_members(text@) is Some,
        r matches Some(value) ==> json_members(value) == json_text_members(text@).unwrap(),
{
    match serde_json::from_str::<serde_json::Value>(text) {
        Ok(value) => Some(value),
        Err(_) => None,
    }
}

/// `serde_json::Value::get` with a string index.
///
/// Trusted: the lookup finds the member of that name if the document is an
/// object that has one; the result is its text where its value is a string.
#[verifier::external_body]
fn json_string_member(value: &serde_json::Value, name: &str) -> (r: Option<String>)
    ensures
        r is Some <==> json_members(*value).contains_key(name@),
        r matches Some(s) ==> s@ == json_members(*value)[name@],
{
    match value.get(name) {
        Some(serde_json::Value::String(s)) => Some(s.clone()),
        _ => None,
    }
}

/// `serde_json::to_string`, on a map of two string members.
///
/// Trusted: the text written depends on the names and values alone.
#[verifier::external_body]
fn encode_json_pair(first_name: &str, first: &str, second_name: &str, second: &str) -> (text:
    String)
    ensures
        text@ == json_pair_text(first_name@, first@, second_name@, second@),
{
    let members = std::collections::BTreeMap::from([(first_name, first), (second_name, second)]);
    serde_json::to_string(&members).unwrap_or_default()
}

} // verus!
