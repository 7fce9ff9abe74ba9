//! The decisions behind the subscription panel: which addresses of the
//! remote service to call, which subscriptions to replace, and what to show.
//! The calls themselves are made elsewhere; their answers come in as plain
//! values.

use crate::twitch_messages::Condition;
use vstd::prelude::*;
use vstd::string::*;

verus! {

/// One subscription as the panel shows it.
#[derive(Debug, PartialEq, Eq)]
pub struct UserCard {
    pub pfp_link: String,
    pub user_login: String,
    pub eventsub_id: String,
    pub status: String,
}

/// One subscription as the remote service lists it.
#[derive(Debug, PartialEq, Eq)]
pub struct EventSub {
    pub id: String,
    pub status: String,
    pub condition: Condition,
}

/// One user as the remote service describes them.
#[derive(Debug, PartialEq, Eq)]
pub struct User {
    pub id: String,
    pub login: String,
    pub profile_image_url: String,
}

/// The two ways to name a user to the remote service.
#[derive(Debug, PartialEq, Eq)]
pub enum UserIdentifier {
    ID(String),
    LOGIN(String),
}

/// What has to be done to subscribe to a user afresh.
#[derive(Debug, PartialEq, Eq)]
pub struct Resubscription {
    /// The ids of the subscriptions to remove first, in listing order.
    pub remove: Vec<String>,
    /// The id of the user to subscribe to afterwards.
    pub add: String,
}

/// The address that lists and creates subscriptions.
pub const SUBSCRIPTIONS_URL: &'static str = "https://api.twitch.tv/helix/eventsub/subscriptions";

/// The address at which the subscription `sub_id` is deleted.
pub open spec fn removal_url_text(sub_id: Seq<char>) -> Seq<char> {
    SUBSCRIPTIONS_URL@ + "?id="@ + sub_id
}

/// The address at which a user is looked up.
pub open spec fn user_url_text(identifier: UserIdentifier) -> Seq<char> {
    match identifier {
        UserIdentifier::ID(id) => "https://api.twitch.tv/helix/users?"@ + "id="@ + id@,
        UserIdentifier::LOGIN(login) => "https://api.twitch.tv/helix/users?"@ + "login="@
            + login@,
    }
}

/// The address to which the remote service is to deliver its messages.
pub open spec fn callback_url_text(server_url: Seq<char>) -> Seq<char> {
    server_url + "/callback"@
}

/// The address at which an application token is requested.
pub open spec fn token_url_text(client_id: Seq<char>, client_secret: Seq<char>) -> Seq<char> {
    "https://id.twitch.tv/oauth2/token?client_id="@ + client_id + "&client_secret="@
        + client_secret + "&grant_type=client_credentials"@
}

/// The value of the authorization header that carries `access_token`.
pub open spec fn bearer_text(access_token: Seq<char>) -> Seq<char> {
    "Bearer "@ + access_token
}

/// Writes the address at which the subscription `sub_id` is deleted.
pub fn removal_url(sub_id: &str) -> (url: String)
    ensures
        url@ == removal_url_text(sub_id@),
{
    let mut url = SUBSCRIPTIONS_URL.to_owned();
    url.append("?id=");
    url.append(sub_id);
    url
}

/// Writes the address at which the user named by `identifier` is looked up.
pub fn user_url(identifier: &UserIdentifier) -> (url: String)
    ensures
        url@ == user_url_text(*identifier),
{
    let mut url = "https://api.twitch.tv/helix/users?".to_owned();
    match identifier {
        UserIdentifier::ID(id) => {
            url.append("id=");
            url.append(id.as_str());
        },
        UserIdentifier::LOGIN(login) => {
            url.append("login=");
            url.append(login.as_str());
        },
    }
    url
}

/// Writes the address to which the remote service is to deliver its
/// messages for a server reachable at `server_url`.
pub fn callback_url(server_url: &str) -> (url: String)
    ensures
        url@ == callback_url_text(server_url@),
{
    let mut url = server_url.to_owned();
    url.append("/callback");
    url
}

/// Writes the address at which an application token is requested.
pub fn token_url(client_id: &str, client_secret: &str) -> (url: String)
    ensures
        url@ == token_url_text(client_id@, client_secret@),
{
    let mut url = "https://id.twitch.tv/oauth2/token?client_id=".to_owned();
    url.append(client_id);
    url.append("&client_secret=");
    url.append(client_secret);
    url.append("&grant_type=client_credentials");
    url
}

/// Writes the value of the authorization header that carries `access_token`.
pub fn bearer(access_token: &str) -> (value: String)
    ensures
        value@ == bearer_text(access_token@),
{
    let mut value = "Bearer ".to_owned();
    value.append(access_token);
    value
}

/// The card of a subscription whose user was looked up: none where the
/// lookup found nobody.
pub open spec fn card_of(sub: EventSub, user: Option<User>) -> Option<UserCard> {
    match user {
        Some(user) => Some(
            UserCard {
                pfp_link: user.profile_image_url,
                user_login: user.login,
                eventsub_id: sub.id,
                status: sub.status,
            },
        ),
        None => None,
    }
}

/// The cards of the listed subscriptions, in listing order, each paired
/// with what the lookup of its user found. A subscription whose user was not
/// found has no card.
pub open spec fn cards_of(found: Seq<(EventSub, Option<User>)>) -> Seq<UserCard>
    decreases found.len(),
{
    if found.len() == 0 {
        Seq::empty()
    } else {
        let before = cards_of(found.drop_last());
        match card_of(found.last().0, found.last().1) {
            Some(card) => before.push(card),
            None => before,
        }
    }
}

/// The ids of those listed subscriptions that are about the user `user_id`,
/// in listing order.
pub open spec fn subs_about(subs: Seq<EventSub>, user_id: Seq<char>) -> Seq<String>
    decreases subs.len(),
{
    if subs.len() == 0 {
        Seq::empty()
    } else {
        let before = subs_about(subs.drop_last(), user_id);
        if subs.last().condition.broadcaster_user_id@ == user_id {
            before.push(subs.last().id)
        } else {
            before
        }
    }
}

/// Makes the card of a subscription from what the lookup of its user found.
pub fn card_from_sub(sub: EventSub, user: Option<User>) -> (card: Option<UserCard>)
    ensures
        card == card_of(sub, user),
{
    match user {
        Some(user) => Some(
            UserCard {
                pfp_link: user.profile_image_url,
                user_login: user.login,
                eventsub_id: sub.id,
                status: sub.status,
            },
        ),
        None => None,
    }
}

/// Makes the cards of the listed subscriptions, each paired with what the
/// lookup of its user found.
pub fn get_cards(found: &Vec<(EventSub, Option<User>)>) -> (cards: Vec<UserCard>)
    ensures
        cards@ == cards_of(found@),
{
    let mut cards: Vec<UserCard> = Vec::new();
    let mut i: usize = 0;
    while i < found.len()
        invariant
            i <= found@.len(),
            cards@ == cards_of(found@.take(i as int)),
        decreases found@.len() - i,
    {
        proof {
            assert(found@.take(i + 1).drop_last() == found@.take(i as int));
        }
        let sub = &found[i].0;
        match &found[i].1 {
            Some(user) => {
                cards.push(
                    UserCard {
                        pfp_link: user.profile_image_url.clone(),
                        user_login: user.login.clone(),
                        eventsub_id: sub.id.clone(),
                        status: sub.status.clone(),
                    },
                );
            },
            None => {},
        }
        i += 1;
    }
    proof {
        assert(found@.take(i as int) == found@);
    }
    cards
}

/// Plans a fresh subscription to the user that a lookup found: every listed
/// subscription about that user is removed first, then one is added. Where
/// the lookup found nobody, nothing is to be done.
pub fn readd_sub(subs: &Vec<EventSub>, user: Option<User>) -> (plan: Option<Resubscription>)
    ensures
        match user {
            Some(user) => plan matches Some(plan) && plan.add == user.id && plan.remove@
                == subs_about(subs@, user.id@),
            None => plan is None,
        },
{
    let user = match user {
        Some(user) => user,
        None => {
            return None;
        },
    };
    let mut remove: Vec<String> = Vec::new();
    let mut i: usize = 0;
    while i < subs.len()
        invariant
            i <= subs@.len(),
            remove@ == subs_about(subs@.take(i as int), user.id@),
        decreases subs@.len() - i,
    {
        proof {
            assert(subs@.take(i + 1).drop_last() == subs@.take(i as int));
        }
        let sub = &subs[i];
        if sub.condition.broadcaster_user_id == user.id {
            remove.push(sub.id.clone());
        }
        i += 1;
    }
    proof {
        assert(subs@.take(i as int) == subs@);
    }
    Some(Resubscription { remove, add: user.id })
}

} // verus!
