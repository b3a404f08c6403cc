//! The Twitch API: what is asked of it and what it answers.
use vstd::prelude::*;
use vstd::string::StringExecFns;

use crate::channel::Channel;
use crate::either::Either;

verus! {

/// How the program names itself to the servers.
pub const USER_AGENT: &'static str = "channel_watch/0.1.0";

/// Where access tokens are asked for.
pub const TOKEN_URL: &'static str = "https://id.twitch.tv/oauth2/token";

/// A query string before it is encoded: names and values in order.
pub open spec fn pairs<'a>(query: Seq<(&'a str, &'a str)>) -> Seq<(Seq<char>, Seq<char>)> {
    query.map_values(|p: (&'a str, &'a str)| (p.0@, p.1@))
}

/// An access token and what belongs to it.
pub struct OAuth {
    pub access_token: String,
    pub refresh_token: Option<String>,
    pub expires_in: u64,
    pub token_type: String,
    pub client_id: String,
    pub bearer_token: String,
}

/// Why no access token can be asked for.
#[derive(Copy, Clone, Debug, PartialEq, Eq)]
pub enum OAuthError {
    EmptyClientId,
    EmptyClientSecret,
}

impl OAuthError {
    /// The text that is shown for the error.
    pub open spec fn text(self) -> Seq<char> {
        match self {
            OAuthError::EmptyClientId => "twitch client id cannot be empty"@,
            OAuthError::EmptyClientSecret => "twitch client secret cannot be empty"@,
        }
    }

    /// The text that is shown for the error.
    pub fn message(&self) -> (r: &'static str)
        ensures
            r@ == self.text(),
    {
        match self {
            OAuthError::EmptyClientId => "twitch client id cannot be empty",
            OAuthError::EmptyClientSecret => "twitch client secret cannot be empty",
        }
    }
}

impl OAuth {
    /// The query that asks for an access token in the name of the program.
    pub open spec fn token_pairs(id: Seq<char>, secret: Seq<char>) -> Seq<(Seq<char>, Seq<char>)> {
        seq![
            ("client_id"@, id),
            ("client_secret"@, secret),
            ("grant_type"@, "client_credentials"@),
        ]
    }

    /// The query that asks for an access token, if both the id and the secret are given.
    pub fn token_query<'a>(client_id: &'a str, client_secret: &'a str) -> (r: Result<
        Vec<(&'a str, &'a str)>,
        OAuthError,
    >)
        ensures
            client_id@.len() == 0 ==> r == Err::<Vec<(&'a str, &'a str)>, OAuthError>(
                OAuthError::EmptyClientId,
            ),
            client_id@.len() != 0 && client_secret@.len() == 0 ==> r == Err::<
                Vec<(&'a str, &'a str)>,
                OAuthError,
            >(OAuthError::EmptyClientSecret),
            client_id@.len() != 0 && client_secret@.len() != 0 ==> (r matches Ok(q) && pairs(q@)
                == Self::token_pairs(client_id@, client_secret@)),
    {
        if client_id.is_empty() {
            return Err(OAuthError::EmptyClientId);
        }
        if client_secret.is_empty() {
            return Err(OAuthError::EmptyClientSecret);
        }
        let mut query: Vec<(&'a str, &'a str)> = Vec::new();
        query.push(("client_id", client_id));
        query.push(("client_secret", client_secret));
        query.push(("grant_type", "client_credentials"));
        assert(pairs(query@) =~= Self::token_pairs(client_id@, client_secret@));
        Ok(query)
    }

    /// Completes a token that the server sent with the id that it was asked for, and
    /// with the text that later requests are authorized by.
    pub fn authorized(self, client_id: &str) -> (r: Self)
        ensures
            r.client_id@ == client_id@,
            r.bearer_token@ == "Bearer "@ + self.access_token@,
            r == (OAuth { client_id: r.client_id, bearer_token: r.bearer_token, ..self }),
    {
        let mut bearer_token = String::from_str("Bearer ");
        bearer_token.append(self.access_token.as_str());
        OAuth { client_id: String::from_str(client_id), bearer_token, ..self }
    }
}

/// A request to the API: where it goes and the headers that it carries.
pub struct Request {
    pub url: String,
    pub client_id: String,
    pub authorization: String,
}

impl Request {
    /// The request to the endpoint `ep`, authorized by `oauth`.
    pub fn new(ep: &str, oauth: &OAuth) -> (r: Self)
        ensures
            r.url@ == "https://api.twitch.tv/helix/"@ + ep@,
            r.client_id@ == oauth.client_id@,
            r.authorization@ == oauth.bearer_token@,
    {
        let mut url = String::from_str("https://api.twitch.tv/helix/");
        url.append(ep);
        Request {
            url,
            client_id: oauth.client_id.clone(),
            authorization: oauth.bearer_token.clone(),
        }
    }
}

/// What is asked of each of `items`: an id under the name `id_key`, and a login, without
/// the `#` that it may start with, under `login_key`.
pub open spec fn query_pairs<'a>(
    items: Seq<Either<&'a str, &'a str>>,
    id_key: Seq<char>,
    login_key: Seq<char>,
) -> Seq<(Seq<char>, Seq<char>)> {
    items.map_values(
        |item: Either<&'a str, &'a str>|
            match item {
                Either::Left(id) => (id_key, id@),
                Either::Right(login) => (login_key, crate::channel::bare(login@)),
            },
    )
}

/// Turns ids and logins into a query.
fn id_login_to_query<'a>(
    items: &[Either<&'a str, &'a str>],
    id_key: &'a str,
    login_key: &'a str,
) -> (r: Vec<(&'a str, &'a str)>)
    ensures
        pairs(r@) == query_pairs(items@, id_key@, login_key@),
{
    let mut query: Vec<(&'a str, &'a str)> = Vec::new();
    let mut i: usize = 0;
    while i < items.len()
        invariant
            i <= items@.len(),
            pairs(query@) == query_pairs(items@.take(i as int), id_key@, login_key@),
        decreases items@.len() - i,
    {
        let pair = match items[i] {
            Either::Left(id) => (id_key, id),
            Either::Right(login) => (login_key, Channel::strip_prefix(login)),
        };
        let ghost before = query@;
        query.push(pair);
        assert(pairs(query@) =~= pairs(before).push((pair.0@, pair.1@)));
        assert(items@.take(i + 1) =~= items@.take(i as int).push(items@[i as int]));
        assert(query_pairs(items@.take(i + 1), id_key@, login_key@) =~= query_pairs(
            items@.take(i as int),
            id_key@,
            login_key@,
        ).push((pair.0@, pair.1@)));
        i = i + 1;
    }
    assert(items@.take(i as int) =~= items@);
    query
}

/// The query that asks the endpoint `users` for the given ids and logins.
pub fn users_query<'a>(items: &[Either<&'a str, &'a str>]) -> (r: Vec<(&'a str, &'a str)>)
    ensures
        pairs(r@) == query_pairs(items@, "id"@, "login"@),
{
    id_login_to_query(items, "id", "login")
}

/// The query that asks the endpoint `streams` for the streams of the given ids and logins.
pub fn streams_query<'a>(items: &[Either<&'a str, &'a str>]) -> (r: Vec<(&'a str, &'a str)>)
    ensures
        pairs(r@) == query_pairs(items@, "user_id"@, "user_login"@),
{
    id_login_to_query(items, "user_id", "user_login")
}

/// A running stream.
#[derive(Clone, Debug, PartialEq, Eq)]
pub struct Stream {
    pub game_id: String,
    pub game_name: String,
    pub id: String,
    pub is_mature: bool,
    pub language: String,
    pub started_at: String,
    pub tag_ids: Vec<String>,
    pub thumbnail_url: String,
    pub title: String,
    pub type_: String,
    pub user_id: String,
    pub user_login: String,
    pub user_name: String,
    pub viewer_count: i64,
}

/// A user, whose channel can be followed.
#[derive(Debug)]
pub struct User {
    pub login: String,
    pub display_name: String,
    pub id: String,
    pub created_at: String,
    pub description: String,
    pub profile_image_url: String,
}

/// A query has one pair for each item, at the same place: an id as it is, and a login without
/// the `#` that it may start with, each under the name that the endpoint has for it.
pub proof fn queries_name_every_item<'a>(
    items: Seq<Either<&'a str, &'a str>>,
    id_key: Seq<char>,
    login_key: Seq<char>,
    i: int,
)
    ensures
        query_pairs(items, id_key, login_key).len() == items.len(),
        0 <= i < items.len() ==> match items[i] {
            Either::Left(id) => query_pairs(items, id_key, login_key)[i] == (id_key, id@),
            Either::Right(login) => {
                &&& query_pairs(items, id_key, login_key)[i].0 == login_key
                &&& login@.len() > 0 && login@[0] == '#' ==> query_pairs(
                    items,
                    id_key,
                    login_key,
                )[i].1 == login@.skip(1)
                &&& login@.len() == 0 || login@[0] != '#' ==> query_pairs(
                    items,
                    id_key,
                    login_key,
                )[i].1 == login@
            },
        },
{
    if 0 <= i < items.len() {
        if let Either::Right(login) = items[i] {
            if login@.len() > 0 {
                assert(login@.skip(1) =~= login@.drop_first());
            }
        }
    }
}

/// Users are asked for under the names `id` and `login`, and streams under the names
/// `user_id` and `user_login`, whatever else is asked for at once.
pub proof fn one_channel_is_asked_for_by_its_login<'a>(
    items: Seq<Either<&'a str, &'a str>>,
    i: int,
    name: &'a str,
)
    requires
        0 <= i < items.len(),
        name@.len() > 0 ==> name@[0] != '#',
    ensures
        items[i] == Either::<&'a str, &'a str>::Right(name) ==> query_pairs(
            items,
            "id"@,
            "login"@,
        )[i] == ("login"@, name@) && query_pairs(items, "user_id"@, "user_login"@)[i] == (
            "user_login"@,
            name@,
        ),
        items[i] == Either::<&'a str, &'a str>::Left(name) ==> query_pairs(
            items,
            "id"@,
            "login"@,
        )[i] == ("id"@, name@) && query_pairs(items, "user_id"@, "user_login"@)[i] == (
            "user_id"@,
            name@,
        ),
{
}

/// A query is known by all of its pairs, in order.
pub proof fn queries_are_whole<'a>(query: Seq<(&'a str, &'a str)>, i: int)
    ensures
        pairs(query).len() == query.len(),
        0 <= i < query.len() ==> pairs(query)[i] == (query[i].0@, query[i].1@),
{
}

/// A token is asked for with the id, the secret and the way in which it is granted, each
/// under its own name.
pub proof fn tokens_are_asked_for_by_the_credentials(id: Seq<char>, secret: Seq<char>)
    ensures
        OAuth::token_pairs(id, secret).len() == 3,
        OAuth::token_pairs(id, secret)[0] == ("client_id"@, id),
        OAuth::token_pairs(id, secret)[1] == ("client_secret"@, secret),
        OAuth::token_pairs(id, secret)[2] == ("grant_type"@, "client_credentials"@),
{
}

/// The error names what was empty.
pub proof fn errors_name_what_is_empty(error: OAuthError)
    ensures
        error == OAuthError::EmptyClientId ==> error.text() == "twitch client id cannot be empty"@,
        error == OAuthError::EmptyClientSecret ==> error.text()
            == "twitch client secret cannot be empty"@,
{
}

} // verus!
