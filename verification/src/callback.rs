//! The evaluation of one inbound callback request: authentication first, then
//! classification, then the decision on what to answer.
//!
//! Every request is evaluated once and ends in exactly one [`Outcome`]. The
//! body is never interpreted before the request is known to be authentic:
//! [`handle_callback`] reads it only as the bytes that were signed, and the
//! functions that accept a parsed body are reached with the kind that
//! [`handle_callback`] returned.

use crate::message_verification::{
    canonical_message, header_bytes, header_fields, hmac_sha256, is_signature_header, mac_accepts,
    signature_bytes, verification, verify_message, MESSAGE_ID, MESSAGE_SIGNATURE,
    MESSAGE_TIMESTAMP,
};
use crate::twitch_messages::{
    classified, ChallengeRequest, NotificationMessage, RevocationMessage, TwitchEventsubMessage,
};
use axum::http::HeaderMap;
use vstd::prelude::*;
use vstd::string::*;
use vstd::utf8::encode_utf8;

verus! {

/// The header that declares the kind of the message.
pub const MESSAGE_TYPE: &'static str = "twitch-eventsub-message-type";

/// The body of an accepted message, parsed as its kind demands.
#[derive(Debug, PartialEq, Eq)]
pub enum Payload {
    Challenge(ChallengeRequest),
    Notification(NotificationMessage),
    Revocation(RevocationMessage),
}

/// Why a request was turned away.
#[derive(Debug, PartialEq, Eq)]
pub enum Rejection {
    /// A required header, named here, is absent.
    MissingHeader(String),
    /// The request is not authentic.
    Unauthorized,
    /// The declared message type holds none of the known tokens.
    UnknownKind,
    /// The body is not what the kind of the message demands.
    BadRequest,
}

/// How the evaluation of a request ended.
#[derive(Debug, PartialEq, Eq)]
pub enum Outcome {
    Accepted(TwitchEventsubMessage, Payload),
    Rejected(Rejection),
}

/// A rejection over plain values.
pub enum RejectionView {
    MissingHeader(Seq<char>),
    Unauthorized,
    UnknownKind,
    BadRequest,
}

impl View for Rejection {
    type V = RejectionView;

    open spec fn view(&self) -> RejectionView {
        match self {
            Rejection::MissingHeader(name) => RejectionView::MissingHeader(name@),
            Rejection::Unauthorized => RejectionView::Unauthorized,
            Rejection::UnknownKind => RejectionView::UnknownKind,
            Rejection::BadRequest => RejectionView::BadRequest,
        }
    }
}

/// The first of the four required headers that a request lacks, in the
/// order id, timestamp, signature, type; none where it carries all four.
pub open spec fn first_missing_header(fields: Map<Seq<char>, Seq<u8>>) -> Option<Seq<char>> {
    if !fields.contains_key(MESSAGE_ID@) {
        Some(MESSAGE_ID@)
    } else if !fields.contains_key(MESSAGE_TIMESTAMP@) {
        Some(MESSAGE_TIMESTAMP@)
    } else if !fields.contains_key(MESSAGE_SIGNATURE@) {
        Some(MESSAGE_SIGNATURE@)
    } else if !fields.contains_key(MESSAGE_TYPE@) {
        Some(MESSAGE_TYPE@)
    } else {
        None
    }
}

/// The kind under which a request with the given headers, body and secret is
/// admitted, or why it is turned away. All four headers are looked for
/// before anything else; then the request is authenticated; only then is its
/// declared type classified.
pub open spec fn admission(fields: Map<Seq<char>, Seq<u8>>, body: Seq<u8>, secret: Seq<u8>)
    -> Result<TwitchEventsubMessage, RejectionView> {
    match first_missing_header(fields) {
        Some(name) => Err(RejectionView::MissingHeader(name)),
        None => if verification(fields, body, secret) is Err {
            Err(RejectionView::Unauthorized)
        } else {
            match classified(fields[MESSAGE_TYPE@]) {
                Some(kind) => Ok(kind),
                None => Err(RejectionView::UnknownKind),
            }
        },
    }
}

/// Only an authentic request is admitted: where a kind is returned, all four
/// headers are present, the signature header is well formed and spells the
/// tag of the signed message, and the kind is that of the declared type.
pub proof fn lemma_admitted_is_authentic(
    fields: Map<Seq<char>, Seq<u8>>,
    body: Seq<u8>,
    secret: Seq<u8>,
)
    requires
        admission(fields, body, secret) is Ok,
    ensures
        fields.contains_key(MESSAGE_ID@),
        fields.contains_key(MESSAGE_TIMESTAMP@),
        fields.contains_key(MESSAGE_SIGNATURE@),
        fields.contains_key(MESSAGE_TYPE@),
        verification(fields, body, secret) is Ok,
        is_signature_header(fields[MESSAGE_SIGNATURE@]),
        mac_accepts(
            canonical_message(fields[MESSAGE_ID@], fields[MESSAGE_TIMESTAMP@], body),
            signature_bytes(fields[MESSAGE_SIGNATURE@]),
            secret,
        ),
        classified(fields[MESSAGE_TYPE@]) == Some(admission(fields, body, secret)->Ok_0),
{
}

/// A request that carries all four headers and a well-formed signature
/// header which spells the tag of the signed message is never turned away as
/// unauthorized or for a missing header: it is admitted under the kind of
/// its declared type, or rejected as of unknown kind where that type holds
/// no token.
pub proof fn lemma_signed_request_is_classified(
    fields: Map<Seq<char>, Seq<u8>>,
    body: Seq<u8>,
    secret: Seq<u8>,
)
    requires
        fields.contains_key(MESSAGE_ID@),
        fields.contains_key(MESSAGE_TIMESTAMP@),
        fields.contains_key(MESSAGE_SIGNATURE@),
        fields.contains_key(MESSAGE_TYPE@),
        is_signature_header(fields[MESSAGE_SIGNATURE@]),
        signature_bytes(fields[MESSAGE_SIGNATURE@]) == hmac_sha256(
            secret,
            canonical_message(fields[MESSAGE_ID@], fields[MESSAGE_TIMESTAMP@], body),
        ),
    ensures
        admission(fields, body, secret) == match classified(fields[MESSAGE_TYPE@]) {
            Some(kind) => Ok::<TwitchEventsubMessage, RejectionView>(kind),
            None => Err::<TwitchEventsubMessage, RejectionView>(RejectionView::UnknownKind),
        },
{
}

/// A request whose signature header does not spell the tag of the signed
/// message is never admitted.
pub proof fn lemma_forged_request_is_turned_away(
    fields: Map<Seq<char>, Seq<u8>>,
    body: Seq<u8>,
    secret: Seq<u8>,
)
    requires
        fields.contains_key(MESSAGE_ID@),
        fields.contains_key(MESSAGE_TIMESTAMP@),
        fields.contains_key(MESSAGE_SIGNATURE@),
        !is_signature_header(fields[MESSAGE_SIGNATURE@]) || signature_bytes(
            fields[MESSAGE_SIGNATURE@],
        ) != hmac_sha256(
            secret,
            canonical_message(fields[MESSAGE_ID@], fields[MESSAGE_TIMESTAMP@], body),
        ),
    ensures
        admission(fields, body, secret) is Err,
        fields.contains_key(MESSAGE_TYPE@) ==> admission(fields, body, secret) == Err::<
            TwitchEventsubMessage,
            RejectionView,
        >(RejectionView::Unauthorized),
{
}

/// Looks for the four required headers and names the first that is absent.
fn missing_header(headers: &HeaderMap) -> (missing: Option<String>)
    ensures
        match missing {
            Some(name) => first_missing_header(header_fields(*headers)) == Some(name@),
            None => first_missing_header(header_fields(*headers)) is None,
        },
{
    if header_bytes(headers, MESSAGE_ID).is_none() {
        Some(MESSAGE_ID.to_owned())
    } else if header_bytes(headers, MESSAGE_TIMESTAMP).is_none() {
        Some(MESSAGE_TIMESTAMP.to_owned())
    } else if header_bytes(headers, MESSAGE_SIGNATURE).is_none() {
        Some(MESSAGE_SIGNATURE.to_owned())
    } else if header_bytes(headers, MESSAGE_TYPE).is_none() {
        Some(MESSAGE_TYPE.to_owned())
    } else {
        None
    }
}

/// Authenticates a request and tells the kind of its message. `Ok` means
/// that the request is authentic and that its body is to be parsed as the
/// returned kind demands; every failure is final.
pub fn handle_callback(headers: &HeaderMap, body: &String, secret: &String) -> (admitted: Result<
    TwitchEventsubMessage,
    Rejection,
>)
    ensures
        match admitted {
            Ok(kind) => admission(header_fields(*headers), encode_utf8(body@), encode_utf8(secret@))
                == Ok::<TwitchEventsubMessage, RejectionView>(kind),
            Err(rejection) => admission(
                header_fields(*headers),
                encode_utf8(body@),
                encode_utf8(secret@),
            ) == Err::<TwitchEventsubMessage, RejectionView>(rejection@),
        },
{
    if let Some(name) = missing_header(headers) {
        return Err(Rejection::MissingHeader(name));
    }
    if verify_message(headers, body, secret).is_err() {
        return Err(Rejection::Unauthorized);
    }
    let declared_type = match header_bytes(headers, MESSAGE_TYPE) {
        Some(declared_type) => declared_type,
        None => {
            return Err(Rejection::MissingHeader(MESSAGE_TYPE.to_owned()));
        },
    };
    match TwitchEventsubMessage::classify(declared_type.as_slice()) {
        Some(kind) => Ok(kind),
        None => Err(Rejection::UnknownKind),
    }
}

/// Ends the evaluation of a callback verification: accepted with the parsed
/// challenge, or rejected where the body held none.
pub fn handle_verification_callback(parsed: Option<ChallengeRequest>) -> (outcome: Outcome)
    ensures
        outcome == match parsed {
            Some(request) => Outcome::Accepted(
                TwitchEventsubMessage::WebhookCallbackVerification,
                Payload::Challenge(request),
            ),
            None => Outcome::Rejected(Rejection::BadRequest),
        },
{
    match parsed {
        Some(request) => Outcome::Accepted(
            TwitchEventsubMessage::WebhookCallbackVerification,
            Payload::Challenge(request),
        ),
        None => Outcome::Rejected(Rejection::BadRequest),
    }
}

/// Ends the evaluation of a notification: accepted with the parsed event, or
/// rejected where the body held none.
pub fn handle_notification_callback(parsed: Option<NotificationMessage>) -> (outcome: Outcome)
    ensures
        outcome == match parsed {
            Some(message) => Outcome::Accepted(
                TwitchEventsubMessage::Notification,
                Payload::Notification(message),
            ),
            None => Outcome::Rejected(Rejection::BadRequest),
        },
{
    match parsed {
        Some(message) => Outcome::Accepted(
            TwitchEventsubMessage::Notification,
            Payload::Notification(message),
        ),
        None => Outcome::Rejected(Rejection::BadRequest),
    }
}

/// Ends the evaluation of a revocation: accepted with the parsed message, or
/// rejected where the body held none.
pub fn handle_revocation_callback(parsed: Option<RevocationMessage>) -> (outcome: Outcome)
    ensures
        outcome == match parsed {
            Some(message) => Outcome::Accepted(
                TwitchEventsubMessage::Revocation,
                Payload::Revocation(message),
            ),
            None => Outcome::Rejected(Rejection::BadRequest),
        },
{
    match parsed {
        Some(message) => Outcome::Accepted(
            TwitchEventsubMessage::Revocation,
            Payload::Revocation(message),
        ),
        None => Outcome::Rejected(Rejection::BadRequest),
    }
}

/// The status of an answer to a request that was served.
pub const STATUS_OK: u16 = 200;

/// The status of an answer to a request that lacks a header, declares an
/// unknown kind or carries a body of the wrong shape.
pub const STATUS_BAD_REQUEST: u16 = 400;

/// The status of an answer to a request that is not authentic.
pub const STATUS_UNAUTHORIZED: u16 = 401;

/// The status of an answer to a request whose notice could not be delivered.
pub const STATUS_INTERNAL_SERVER_ERROR: u16 = 500;

/// The content type under which a challenge is echoed.
pub const TEXT_PLAIN: &'static str = "text/plain";

/// An answer to the sender of a request.
#[derive(Debug, PartialEq, Eq)]
pub struct Reply {
    pub status: u16,
    pub content_type: Option<String>,
    pub body: String,
}

/// What is to be done once the evaluation of a request has ended.
#[derive(Debug, PartialEq, Eq)]
pub enum Action {
    /// Answer the sender at once.
    Respond(Reply),
    /// Post the text to the chat webhook, then answer with
    /// [`delivery_status`].
    Notify(String),
}

/// An answer over plain values.
pub struct ReplyView {
    pub status: u16,
    pub content_type: Option<Seq<char>>,
    pub body: Seq<char>,
}

/// An action over plain values.
pub enum ActionView {
    Respond(ReplyView),
    Notify(Seq<char>),
}

impl View for Reply {
    type V = ReplyView;

    open spec fn view(&self) -> ReplyView {
        ReplyView {
            status: self.status,
            content_type: match self.content_type {
                Some(content_type) => Some(content_type@),
                None => None,
            },
            body: self.body@,
        }
    }
}

impl View for Action {
    type V = ActionView;

    open spec fn view(&self) -> ActionView {
        match self {
            Action::Respond(reply) => ActionView::Respond(reply@),
            Action::Notify(text) => ActionView::Notify(text@),
        }
    }
}

/// The status with which a rejection is answered: 401 where the request is
/// not authentic, 400 in every other case.
pub open spec fn rejection_status(rejection: RejectionView) -> u16 {
    match rejection {
        RejectionView::Unauthorized => STATUS_UNAUTHORIZED,
        _ => STATUS_BAD_REQUEST,
    }
}

/// The notice that a broadcaster went live.
pub open spec fn went_live_text(login: Seq<char>) -> Seq<char> {
    login + " went live\nhttps://twitch.tv/"@ + login
}

/// The notice that a subscription was revoked.
pub open spec fn revocation_text(user_id: Seq<char>, reason: Seq<char>) -> Seq<char> {
    "revoced subscription to user id: "@ + user_id + "  reason: "@ + reason
}

/// A bare answer: the status and nothing else.
pub open spec fn bare_reply(status: u16) -> ReplyView {
    ReplyView { status, content_type: None, body: Seq::empty() }
}

/// What an outcome calls for. A challenge is echoed as plain text with
/// status 200; a notification and a revocation are passed on as notices; a
/// rejection is answered with its bare status.
pub open spec fn action_for(outcome: Outcome) -> ActionView {
    match outcome {
        Outcome::Accepted(_, Payload::Challenge(request)) => ActionView::Respond(
            ReplyView {
                status: STATUS_OK,
                content_type: Some(TEXT_PLAIN@),
                body: request.challenge@,
            },
        ),
        Outcome::Accepted(_, Payload::Notification(message)) => ActionView::Notify(
            went_live_text(message.event.broadcaster_user_login@),
        ),
        Outcome::Accepted(_, Payload::Revocation(message)) => ActionView::Notify(
            revocation_text(message.condition.broadcaster_user_id@, message.status@),
        ),
        Outcome::Rejected(rejection) => ActionView::Respond(
            bare_reply(rejection_status(rejection@)),
        ),
    }
}

impl Rejection {
    /// The status with which this rejection is answered.
    pub fn status(&self) -> (status: u16)
        ensures
            status == rejection_status(self@),
    {
        match self {
            Rejection::Unauthorized => STATUS_UNAUTHORIZED,
            _ => STATUS_BAD_REQUEST,
        }
    }
}

/// Writes the notice that `login` went live.
pub fn went_live_message(login: &str) -> (text: String)
    ensures
        text@ == went_live_text(login@),
{
    let mut text = login.to_owned();
    text.append(" went live\nhttps://twitch.tv/");
    text.append(login);
    text
}

/// Writes the notice that the subscription to `user_id` was revoked for
/// `reason`.
pub fn revocation_message(user_id: &str, reason: &str) -> (text: String)
    ensures
        text@ == revocation_text(user_id@, reason@),
{
    let mut text = "revoced subscription to user id: ".to_owned();
    text.append(user_id);
    text.append("  reason: ");
    text.append(reason);
    text
}

/// Decides what an outcome calls for.
pub fn respond(outcome: Outcome) -> (action: Action)
    ensures
        action@ == action_for(outcome),
{
    match outcome {
        Outcome::Accepted(_, Payload::Challenge(request)) => Action::Respond(
            Reply {
                status: STATUS_OK,
                content_type: Some(TEXT_PLAIN.to_owned()),
                body: request.challenge,
            },
        ),
        Outcome::Accepted(_, Payload::Notification(message)) => Action::Notify(
            went_live_message(message.event.broadcaster_user_login.as_str()),
        ),
        Outcome::Accepted(_, Payload::Revocation(message)) => Action::Notify(
            revocation_message(
                message.condition.broadcaster_user_id.as_str(),
                message.status.as_str(),
            ),
        ),
        Outcome::Rejected(rejection) => Action::Respond(
            Reply { status: rejection.status(), content_type: None, body: String::new() },
        ),
    }
}

/// The status with which a request is answered after its notice was handed
/// to the chat webhook: 200 where the notice was delivered, 500 where it was
/// not. The outcome of the evaluation itself stands either way.
pub fn delivery_status(delivered: bool) -> (status: u16)
    ensures
        status == if delivered {
            STATUS_OK
        } else {
            STATUS_INTERNAL_SERVER_ERROR
        },
{
    if delivered {
        STATUS_OK
    } else {
        STATUS_INTERNAL_SERVER_ERROR
    }
}

} // verus!
