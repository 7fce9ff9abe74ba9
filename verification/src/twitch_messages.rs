//! The messages that the event-subscription service sends, and the rule that
//! tells their kinds apart.

use crate::subslice::{
    contains, contains_seq, lemma_contains_in_longer, lemma_contains_itself,
    lemma_contains_needs_room,
};
use vstd::prelude::*;
use vstd::string::*;

verus! {

/// The reply of the token endpoint, as far as it is used: the access token.
#[derive(Debug, PartialEq, Eq)]
pub struct AppTokenMessage {
    pub access_token: String,
}

/// The kinds of message that the service sends to a webhook.
#[derive(Debug, Clone, Copy, PartialEq, Eq, Structural)]
pub enum TwitchEventsubMessage {
    Notification,
    WebhookCallbackVerification,
    Revocation,
}

/// The body of a callback verification: the challenge to echo.
#[derive(Debug, PartialEq, Eq)]
pub struct ChallengeRequest {
    pub challenge: String,
}

/// The body of a stream-online notification.
#[derive(Debug, PartialEq, Eq)]
pub struct NotificationMessage {
    pub event: Event,
}

/// The event of a notification: who went live.
#[derive(Debug, PartialEq, Eq)]
pub struct Event {
    pub broadcaster_user_login: String,
}

/// The body of a revocation: whose subscription ended, and why.
#[derive(Debug, PartialEq, Eq)]
pub struct RevocationMessage {
    pub condition: Condition,
    pub status: String,
}

/// The condition of a subscription: whom it is about.
#[derive(Debug, PartialEq, Eq)]
pub struct Condition {
    pub broadcaster_user_id: String,
}

/// The token that marks a callback verification.
pub open spec fn verification_token() -> Seq<u8> {
    "webhook_callback_verification".spec_bytes()
}

/// The token that marks a notification.
pub open spec fn notification_token() -> Seq<u8> {
    "notification".spec_bytes()
}

/// The token that marks a revocation.
pub open spec fn revocation_token() -> Seq<u8> {
    "revocation".spec_bytes()
}

/// The kind that a declared message type stands for: the first of the three
/// tokens, in the order verification, notification, revocation, that occurs
/// anywhere in it; none where no token occurs.
pub open spec fn classified(declared_type: Seq<u8>) -> Option<TwitchEventsubMessage> {
    if contains_seq(declared_type, verification_token()) {
        Some(TwitchEventsubMessage::WebhookCallbackVerification)
    } else if contains_seq(declared_type, notification_token()) {
        Some(TwitchEventsubMessage::Notification)
    } else if contains_seq(declared_type, revocation_token()) {
        Some(TwitchEventsubMessage::Revocation)
    } else {
        None
    }
}

impl TwitchEventsubMessage {
    /// Tells the kind of a message from its declared type. A token matches
    /// wherever it occurs, so a longer value that holds one is still
    /// recognised; `None` is the answer to every value that holds no token.
    pub fn classify(declared_type: &[u8]) -> (kind: Option<TwitchEventsubMessage>)
        ensures
            kind == classified(declared_type@),
    {
        if contains(declared_type, "webhook_callback_verification".as_bytes()) {
            Some(TwitchEventsubMessage::WebhookCallbackVerification)
        } else if contains(declared_type, "notification".as_bytes()) {
            Some(TwitchEventsubMessage::Notification)
        } else if contains(declared_type, "revocation".as_bytes()) {
            Some(TwitchEventsubMessage::Revocation)
        } else {
            None
        }
    }
}

/// The three tokens are 29, 12 and 10 bytes long.
pub proof fn lemma_token_lengths()
    ensures
        verification_token().len() == 29,
        notification_token().len() == 12,
        revocation_token().len() == 10,
{
    broadcast use is_ascii_spec_bytes;

    reveal_strlit("webhook_callback_verification");
    reveal_strlit("notification");
    reveal_strlit("revocation");
    assert(is_ascii("webhook_callback_verification"));
    assert(is_ascii("notification"));
    assert(is_ascii("revocation"));
}

/// Each token alone is classified as its own kind, and the empty value as
/// none.
pub proof fn lemma_classify_tokens()
    ensures
        classified(verification_token()) == Some(
            TwitchEventsubMessage::WebhookCallbackVerification,
        ),
        classified(notification_token()) == Some(TwitchEventsubMessage::Notification),
        classified(revocation_token()) == Some(TwitchEventsubMessage::Revocation),
        classified(Seq::empty()) == None::<TwitchEventsubMessage>,
{
    lemma_token_lengths();
    lemma_contains_itself(verification_token());
    lemma_contains_itself(notification_token());
    lemma_contains_itself(revocation_token());
    if contains_seq(notification_token(), verification_token()) {
        lemma_contains_needs_room(notification_token(), verification_token());
    }
    if contains_seq(revocation_token(), verification_token()) {
        lemma_contains_needs_room(revocation_token(), verification_token());
    }
    if contains_seq(revocation_token(), notification_token()) {
        lemma_contains_needs_room(revocation_token(), notification_token());
    }
    lemma_too_short_is_unknown(Seq::empty());
}

/// A declared type of fewer than ten bytes holds no token.
pub proof fn lemma_too_short_is_unknown(declared_type: Seq<u8>)
    requires
        declared_type.len() < 10,
    ensures
        classified(declared_type) == None::<TwitchEventsubMessage>,
{
    lemma_token_lengths();
    if contains_seq(declared_type, verification_token()) {
        lemma_contains_needs_room(declared_type, verification_token());
    }
    if contains_seq(declared_type, notification_token()) {
        lemma_contains_needs_room(declared_type, notification_token());
    }
    if contains_seq(declared_type, revocation_token()) {
        lemma_contains_needs_room(declared_type, revocation_token());
    }
}

/// A token is recognised wherever it stands: a declared type that holds one
/// of the three tokens, with any bytes before and after it, is never unknown,
/// and one that holds the verification token is a callback verification
/// whatever else it holds.
pub proof fn lemma_token_matches_anywhere(before: Seq<u8>, after: Seq<u8>)
    ensures
        classified(before + verification_token() + after) == Some(
            TwitchEventsubMessage::WebhookCallbackVerification,
        ),
        classified(before + notification_token() + after) is Some,
        classified(before + revocation_token() + after) is Some,
{
    lemma_contains_itself(verification_token());
    lemma_contains_itself(notification_token());
    lemma_contains_itself(revocation_token());
    lemma_contains_in_longer(before, verification_token(), after, verification_token());
    lemma_contains_in_longer(before, notification_token(), after, notification_token());
    lemma_contains_in_longer(before, revocation_token(), after, revocation_token());
}

/// A declared type of fewer than 29 bytes that holds the notification token
/// is a notification, whatever stands around the token.
pub proof fn lemma_short_notification(declared_type: Seq<u8>)
    requires
        contains_seq(declared_type, notification_token()),
        declared_type.len() < 29,
    ensures
        classified(declared_type) == Some(TwitchEventsubMessage::Notification),
{
    lemma_token_lengths();
    if contains_seq(declared_type, verification_token()) {
        lemma_contains_needs_room(declared_type, verification_token());
    }
}

} // verus!
