//! What the operations give for what they are given, whatever that is.
use vstd::prelude::*;

use crate::app::App;
use crate::channel::Channel;
use crate::config::Configuration;
use crate::decode::LoadError;
use crate::duration::{format_seconds, pluralize};
use crate::either::Either;
use crate::helix::{streams_query, users_query, OAuth, OAuthError, Request, Stream, User};
use crate::images::{preview_url, ImageFetcher, ImageKind, ImageLoader, Images, PreviewImage};
use crate::info::{format_viewers, uptime_seconds, StreamInfo};
use crate::input::{Events, Input, ListAction, Outcome, Validity};
use crate::roster::{hovered_preview, Clicked, Entry, PictureName, Roster};
use crate::state::{State, Users};
use crate::status::{status_of_streams, Status, StatusChecker, StatusMap};
use crate::text::{
    contains_white_space, decimal, is_white_space, push_decimal, replace_char,
    same_ignoring_ascii_case, to_ascii_lower,
};

verus! {

/// A positive span is said by its days, the hours below a day, the minutes below an hour and
/// the seconds below a minute, with a comma behind each but `and` before the last, and those
/// left out of which there are none. Nothing is said of another span.
pub proof fn spans_are_said_in_their_units(
    secs: i64,
    r: String,
    days: int,
    hours: int,
    minutes: int,
    seconds: int,
)
    requires
        call_ensures(format_seconds, (secs,), r),
        0 <= days,
        0 <= hours < 24,
        0 <= minutes < 60,
        0 <= seconds < 60,
    ensures
        secs <= 0 ==> r@.len() == 0,
        secs == 86400 * days + 3600 * hours + 60 * minutes + seconds ==> ({
            let parts = (if days > 1 {
                seq![crate::text::decimal_int(days) + " days"@]
            } else if days == 1 {
                seq!["1 day"@]
            } else {
                seq![]
            }) + (if hours > 1 {
                seq![crate::text::decimal_int(hours) + " hours"@]
            } else if hours == 1 {
                seq!["1 hour"@]
            } else {
                seq![]
            }) + (if minutes > 1 {
                seq![crate::text::decimal_int(minutes) + " minutes"@]
            } else if minutes == 1 {
                seq!["1 minute"@]
            } else {
                seq![]
            }) + (if seconds > 1 {
                seq![crate::text::decimal_int(seconds) + " seconds"@]
            } else if seconds == 1 {
                seq!["1 second"@]
            } else {
                seq![]
            });
            &&& parts.len() == 0 ==> r@.len() == 0
            &&& parts.len() == 1 ==> r@ == parts[0]
            &&& parts.len() == 2 ==> r@ == parts[0] + " and "@ + parts[1]
            &&& parts.len() == 3 ==> r@ == parts[0] + ", "@ + (parts[1] + " and "@ + parts[2])
            &&& parts.len() == 4 ==> r@ == parts[0] + ", "@ + (parts[1] + ", "@ + (parts[2]
                + " and "@ + parts[3]))
        }),
{
    if secs == 86400 * days + 3600 * hours + 60 * minutes + seconds {
        crate::duration::segments_count_each_unit(days, hours, minutes, seconds);
        let parts = crate::duration::segments(secs as int);
        reveal_with_fuel(crate::duration::sentence, 4);
    }
}

/// More than one of a unit take its whole name, and any other count the name without its last
/// letter.
pub proof fn units_are_counted(name: &str, n: i64, r: String)
    requires
        call_ensures(pluralize, (name, n), r),
        name@.len() > 0,
    ensures
        n > 1 ==> r@ == crate::text::decimal_int(n as int) + " "@ + name@,
        n <= 1 ==> r@ == crate::text::decimal_int(n as int) + " "@ + name@.take(name@.len() - 1),
{
    assert(name@.take(name@.len() - 1) =~= name@.drop_last());
}

/// Two names stand for one channel exactly if they differ in nothing but a `#` in front and
/// the case of ASCII letters.
pub proof fn names_of_one_channel_agree_everywhere(
    left: &str,
    right: &str,
    r: bool,
    a: Seq<char>,
    b: Seq<char>,
)
    requires
        call_ensures(Channel::is_eq, (left, right), r),
        left@ == seq!['#'] + a || left@ == a && (a.len() > 0 ==> a[0] != '#'),
        right@ == seq!['#'] + b || right@ == b && (b.len() > 0 ==> b[0] != '#'),
    ensures
        r <==> a.len() == b.len() && forall|i: int|
            0 <= i < a.len() ==> {
                ||| #[trigger] a[i] == b[i]
                ||| 0x41 <= a[i] as u32 <= 0x5a && b[i] as u32 == a[i] as u32 + 32
                ||| 0x41 <= b[i] as u32 <= 0x5a && a[i] as u32 == b[i] as u32 + 32
            },
{
    crate::channel::channels_are_told_apart(left@, right@, a, b);
}

/// One `#` is taken off the front of a name, and nothing else.
pub proof fn one_hash_sign_is_taken_off(input: &str, r: &str, rest: Seq<char>)
    requires
        call_ensures(Channel::strip_prefix, (input,), r),
    ensures
        input@ == seq!['#'] + rest ==> r@ == rest,
        input@.len() == 0 || input@[0] != '#' ==> r@ == input@,
{
    assert((seq!['#'] + rest).drop_first() =~= rest);
}

/// The settings are the two values as they were given, and the first that is missing is named.
pub proof fn settings_are_taken_as_they_are(
    id: Option<String>,
    secret: Option<String>,
    r: Result<Configuration, String>,
)
    requires
        call_ensures(Configuration::from_env, (id, secret), r),
    ensures
        id is Some && secret is Some ==> (r matches Ok(found) && Some(found.client_id) == id && Some(
            found.client_secret,
        ) == secret),
        id is None ==> (r matches Err(text) && text@ == "cannot find '"@ + "TWITCH_CLIENT_ID"@
            + "' in env"@),
        id is Some && secret is None ==> (r matches Err(text) && text@ == "cannot find '"@
            + "TWITCH_CLIENT_SECRET"@ + "' in env"@),
{
}

/// The message of an error says what is wrong, names the address and ends with the cause.
pub proof fn loading_errors_are_said(error: &LoadError, url: &str, r: String)
    requires
        call_ensures(LoadError::message, (error, url), r),
    ensures
        *error matches LoadError::Unknown(cause) ==> r@ == "unknown format for "@ + url@ + ": "@
            + cause@,
        *error matches LoadError::Unsupported(format) ==> r@ == "unsupported format for "@ + url@
            + ": "@ + format@,
        *error matches LoadError::Broken(cause) ==> r@ == "cannot load '"@ + url@ + "': "@ + cause@,
{
}

/// Only PNG and JPEG are accepted; an error tells an unknown format from another one, with the
/// text that the guess came to.
pub proof fn other_formats_are_refused(guess: Result<String, String>, r: Result<(), LoadError>)
    requires
        call_ensures(ImageLoader::check_format, (guess,), r),
    ensures
        guess matches Err(cause) ==> (r matches Err(LoadError::Unknown(text)) && text@ == cause@),
        guess matches Ok(format) ==> {
            &&& r is Ok <==> format@ == "Png"@ || format@ == "Jpeg"@
            &&& r matches Err(error) ==> (error matches LoadError::Unsupported(text) && text@
                == format@)
        },
{
}

/// A picture comes out under its own address and reason, made of all of its bytes; if none
/// does, the error is that of the first step that failed.
pub proof fn pictures_come_out_as_they_went_in(
    url: String,
    kind: ImageKind,
    data: Vec<u8>,
    r: Result<(String, ImageKind, egui_extras::RetainedImage), LoadError>,
)
    requires
        call_ensures(ImageLoader::load_image, (url, kind, data), r),
    ensures
        ({
            let start = if data@.len() < 128 {
                data@
            } else {
                data@.take(128)
            };
            let guess = crate::decode::guessed_format(start);
            let known = guess == Ok::<Seq<char>, Seq<char>>("Png"@) || guess == Ok::<
                Seq<char>,
                Seq<char>,
            >("Jpeg"@);
            let broken = crate::decode::decoding_error(data@);
            &&& r is Ok <==> known && broken is None
            &&& r matches Ok(loaded) ==> loaded.0@ == url@ && loaded.1 == kind
                && crate::decode::picture_source(loaded.2) == (url@, data@)
            &&& guess matches Err(cause) ==> (r matches Err(LoadError::Unknown(text)) && text@
                == cause)
            &&& !known && guess is Ok ==> (r matches Err(LoadError::Unsupported(text)) && text@
                == guess->Ok_0)
            &&& known && broken is Some ==> (r matches Err(LoadError::Broken(text)) && text@
                == broken->Some_0)
        }),
{
    crate::decode::formats_are_told_from_the_start(data@);
    assert(data@.take(data@.len() as int) =~= data@);
    if data@.len() >= 128 {
        assert(crate::decode::head(data@) =~= data@.take(128));
    }
}

/// A token is asked for only with an id and a secret, and then with both and the way in which
/// it is granted.
pub proof fn tokens_are_asked_for<'a>(
    id: &'a str,
    secret: &'a str,
    r: Result<Vec<(&'a str, &'a str)>, OAuthError>,
)
    requires
        call_ensures(OAuth::token_query, (id, secret), r),
    ensures
        id@.len() == 0 ==> (r matches Err(error) && error == OAuthError::EmptyClientId),
        id@.len() > 0 && secret@.len() == 0 ==> (r matches Err(error) && error
            == OAuthError::EmptyClientSecret),
        id@.len() > 0 && secret@.len() > 0 ==> (r matches Ok(query) && {
            &&& query@.len() == 3
            &&& query@[0].0@ == "client_id"@ && query@[0].1@ == id@
            &&& query@[1].0@ == "client_secret"@ && query@[1].1@ == secret@
            &&& query@[2].0@ == "grant_type"@ && query@[2].1@ == "client_credentials"@
        }),
{
    if r is Ok {
        let query = r->Ok_0@;
        if id@.len() > 0 && secret@.len() > 0 {
            let asked = crate::helix::pairs(query);
            assert(asked.len() == query.len());
            assert(asked[0] == (query[0].0@, query[0].1@));
            assert(asked[1] == (query[1].0@, query[1].1@));
            assert(asked[2] == (query[2].0@, query[2].1@));
        }
    }
}

/// The error says which of the two was empty.
pub proof fn empty_credentials_are_named(error: &OAuthError, r: &'static str)
    requires
        call_ensures(OAuthError::message, (error,), r),
    ensures
        *error == OAuthError::EmptyClientId ==> r@ == "twitch client id cannot be empty"@,
        *error == OAuthError::EmptyClientSecret ==> r@ == "twitch client secret cannot be empty"@,
{
}

/// A token that the server sent keeps what it came with; it is completed with the id and with
/// the text for later requests, which holds the token itself.
pub proof fn tokens_are_completed(oauth: OAuth, id: &str, r: OAuth)
    requires
        call_ensures(OAuth::authorized, (oauth, id), r),
    ensures
        r.client_id@ == id@,
        r.bearer_token@ == "Bearer "@ + oauth.access_token@,
        r.access_token == oauth.access_token,
        r.refresh_token == oauth.refresh_token,
        r.expires_in == oauth.expires_in,
        r.token_type == oauth.token_type,
{
}

/// A request goes to the endpoint itself, in the name of the id and by the token that belong
/// together.
pub proof fn requests_go_to_their_endpoint(ep: &str, oauth: &OAuth, r: Request)
    requires
        call_ensures(Request::new, (ep, oauth), r),
    ensures
        r.url@ == "https://api.twitch.tv/helix/"@ + ep@,
        r.client_id@ == oauth.client_id@,
        r.authorization@ == oauth.bearer_token@,
{
}

/// Users and streams are asked for item by item, in order: by an id as it is, or by a login
/// without the `#` that it may start with, each under the name of its endpoint.
pub proof fn every_item_is_asked_for<'a>(
    items: &[Either<&'a str, &'a str>],
    users: Vec<(&'a str, &'a str)>,
    streams: Vec<(&'a str, &'a str)>,
    i: int,
)
    requires
        call_ensures(users_query, (items,), users),
        call_ensures(streams_query, (items,), streams),
    ensures
        users@.len() == items@.len(),
        streams@.len() == items@.len(),
        0 <= i < items@.len() ==> (items@[i] matches Either::Left(id) ==> {
            &&& users@[i].0@ == "id"@ && users@[i].1@ == id@
            &&& streams@[i].0@ == "user_id"@ && streams@[i].1@ == id@
        }),
        0 <= i < items@.len() ==> (items@[i] matches Either::Right(login) ==> {
            let name = if login@.len() > 0 && login@[0] == '#' {
                login@.skip(1)
            } else {
                login@
            };
            &&& users@[i].0@ == "login"@ && users@[i].1@ == name
            &&& streams@[i].0@ == "user_login"@ && streams@[i].1@ == name
        }),
{
    let u = crate::helix::pairs(users@);
    let s = crate::helix::pairs(streams@);
    assert(u.len() == users@.len() && s.len() == streams@.len());
    crate::helix::queries_name_every_item(items@, "id"@, "login"@, i);
    crate::helix::queries_name_every_item(items@, "user_id"@, "user_login"@, i);
    if 0 <= i < items@.len() {
        assert(u[i] == (users@[i].0@, users@[i].1@));
        assert(s[i] == (streams@[i].0@, streams@[i].1@));
    }
}

/// The address of a preview holds the login itself, unchanged.
pub proof fn previews_are_found_by_the_login(login: &str, r: String)
    requires
        call_ensures(preview_url, (login,), r),
    ensures
        r@ == "https://static-cdn.jtvnw.net/previews-ttv/live_user_"@ + login@ + "-250x141.jpg"@,
{
    crate::images::previews_are_named_by_the_login(login@);
}

/// A preview has to be fetched again from a minute after it came on, and not before.
pub proof fn previews_are_renewed_after_a_minute<I>(preview: &PreviewImage<I>, now: u128, r: bool)
    requires
        call_ensures(PreviewImage::<I>::should_update, (preview, now), r),
    ensures
        r <==> now >= preview.last + 60_000_000_000,
{
}

/// A picture is given as it is kept; it is asked for only if it is not kept, and not at an
/// empty address.
pub proof fn kept_pictures_are_given<I>(
    images: &Images<I>,
    url: &str,
    r: (Option<&I>, Option<(String, ImageKind)>),
)
    requires
        call_ensures(Images::<I>::get_static, (images, url), r),
    ensures
        images.static_images@.contains_key(url@) ==> r.0 == Some(&images.static_images@[url@])
            && r.1 is None,
        !images.static_images@.contains_key(url@) ==> r.0 is None,
        !images.static_images@.contains_key(url@) && url@.len() > 0 ==> (r.1 matches Some(asked)
            && asked.0@ == url@ && asked.1 == ImageKind::Static),
        url@.len() == 0 ==> r.1 is None,
{
}

/// A preview is given as it is kept, also if it is out of date; it is asked for if it is not
/// kept, or from a minute after it came on, and not at an empty address.
pub proof fn kept_previews_are_given<I>(
    images: &Images<I>,
    url: &str,
    now: u128,
    r: (Option<&I>, Option<(String, ImageKind)>),
)
    requires
        call_ensures(Images::<I>::get_preview, (images, url, now), r),
    ensures
        ({
            let previews = images.preview_images@;
            &&& previews.contains_key(url@) ==> r.0 == Some(&previews[url@].image)
            &&& !previews.contains_key(url@) ==> r.0 is None
            &&& !previews.contains_key(url@) && url@.len() > 0 ==> (r.1 matches Some(asked)
                && asked.0@ == url@ && asked.1 == ImageKind::Preview)
            &&& previews.contains_key(url@) && url@.len() > 0 && now >= previews[url@].last
                + 60_000_000_000 ==> (r.1 matches Some(asked) && asked.0@ == url@ && asked.1
                == ImageKind::Refresh)
            &&& previews.contains_key(url@) && now < previews[url@].last + 60_000_000_000
                ==> r.1 is None
            &&& url@.len() == 0 ==> r.1 is None
        }),
{
}

/// A picture that is added is kept at its address, and every other picture stays.
pub proof fn added_pictures_are_kept<I>(
    images: &mut Images<I>,
    key: String,
    image: I,
    other: Seq<char>,
)
    requires
        call_ensures(Images::<I>::add_static, (images, key, image), ()),
    ensures
        final(images).static_images@.contains_key(key@),
        final(images).static_images@[key@] == image,
        other != key@ ==> final(images).static_images@.contains_key(other) == old(images).static_images@.contains_key(other) && final(images).static_images@[other] == old(images).static_images@[other],
        final(images).preview_images@ == old(images).preview_images@,
{
}

/// A preview that is added is kept at its address with the time at which it came, and every
/// other picture stays.
pub proof fn added_previews_are_kept<I>(
    images: &mut Images<I>,
    key: String,
    image: I,
    now: u128,
    other: Seq<char>,
)
    requires
        call_ensures(Images::<I>::add_preview, (images, key, image, now), ()),
    ensures
        final(images).preview_images@.contains_key(key@),
        final(images).preview_images@[key@].image == image,
        final(images).preview_images@[key@].last == now,
        other != key@ ==> final(images).preview_images@.contains_key(other) == old(images).preview_images@.contains_key(other) && final(images).preview_images@[other] == old(images).preview_images@[other],
        final(images).static_images@ == old(images).static_images@,
{
}

/// Forgetting a picture and a preview leaves every other picture.
pub proof fn only_two_pictures_are_forgotten<I>(
    images: &mut Images<I>,
    static_url: &str,
    preview_url: &str,
    other: Seq<char>,
)
    requires
        call_ensures(Images::<I>::remove, (images, static_url, preview_url), ()),
    ensures
        !final(images).static_images@.contains_key(static_url@),
        !final(images).preview_images@.contains_key(preview_url@),
        other != static_url@ ==> final(images).static_images@.contains_key(other) == old(images).static_images@.contains_key(other) && final(images).static_images@[other] == old(images).static_images@[other],
        other != preview_url@ ==> final(images).preview_images@.contains_key(other) == old(images).preview_images@.contains_key(other) && final(images).preview_images@[other] == old(images).preview_images@[other],
{
}

/// The request for a picture is its address and its reason, and there is none at an empty
/// address.
pub proof fn pictures_are_requested_by_their_address(
    kind: ImageKind,
    url: &str,
    r: Option<(String, ImageKind)>,
)
    requires
        call_ensures(ImageFetcher::fetch, (kind, url), r),
    ensures
        url@.len() == 0 ==> r is None,
        url@.len() > 0 ==> (r matches Some(asked) && asked.0@ == url@ && asked.1 == kind),
{
}

/// A fetch is started exactly if its address is not held back; from then on it is, and no
/// other address is freed or held back by it.
pub proof fn fetches_are_started_once(
    fetcher: &mut ImageFetcher,
    url: String,
    r: bool,
    other: Seq<char>,
)
    requires
        call_ensures(ImageFetcher::begin, (fetcher, url), r),
    ensures
        r <==> !old(fetcher).seen@.contains(url@),
        final(fetcher).seen@.contains(url@),
        other != url@ ==> (final(fetcher).seen@.contains(other) <==> old(fetcher).seen@.contains(
            other,
        )),
{
}

/// The end of a fetch hands on its data with its own address and reason, and frees its own
/// address if it gave a preview, and no other.
pub proof fn fetches_end_with_their_data(
    fetcher: &mut ImageFetcher,
    url: String,
    kind: ImageKind,
    data: Option<Vec<u8>>,
    r: Option<(String, ImageKind, Vec<u8>)>,
    other: Seq<char>,
)
    requires
        call_ensures(ImageFetcher::finish, (fetcher, url, kind, data), r),
    ensures
        data is None ==> r is None,
        data matches Some(bytes) ==> (r matches Some(loaded) && loaded.0 == url && loaded.1 == kind
            && loaded.2 == bytes),
        final(fetcher).seen@.contains(other) <==> old(fetcher).seen@.contains(other) && !(other
            == url@ && data is Some && (kind == ImageKind::Preview || kind == ImageKind::Refresh)),
{
}

/// At first no address is held back, and nothing is watched.
pub proof fn nothing_is_seen_at_first(
    fetcher: ImageFetcher,
    checker: StatusChecker,
    any: Seq<char>,
)
    requires
        call_ensures(ImageFetcher::new, (), fetcher),
        call_ensures(StatusChecker::new, (), checker),
    ensures
        !fetcher.seen@.contains(any),
        !checker.seen@.contains(any),
{
}

/// Of the pictures that came, the last at each address is kept there, and where none came
/// nothing changes.
pub proof fn pictures_that_came_are_kept<I>(
    arrivals: Vec<(String, ImageKind, I, u128)>,
    images: &mut Images<I>,
    last: int,
    url: Seq<char>,
)
    requires
        call_ensures(ImageLoader::poll::<I>, (arrivals, images), ()),
    ensures
        0 <= last < arrivals@.len() && arrivals@[last].1 == ImageKind::Static && (forall|j: int|
            last < j < arrivals@.len() && (#[trigger] arrivals@[j]).0@ == arrivals@[last].0@
                ==> arrivals@[j].1 != ImageKind::Static) ==> final(images).static_images@.contains_key(arrivals@[last].0@) && final(images).static_images@[arrivals@[last].0@] == arrivals@[last].2,
        0 <= last < arrivals@.len() && arrivals@[last].1 != ImageKind::Static && (forall|j: int|
            last < j < arrivals@.len() && (#[trigger] arrivals@[j]).0@ == arrivals@[last].0@
                ==> arrivals@[j].1 == ImageKind::Static) ==> final(images).preview_images@.contains_key(arrivals@[last].0@) && final(images).preview_images@[arrivals@[last].0@].image == arrivals@[last].2 && final(images).preview_images@[arrivals@[last].0@].last == arrivals@[last].3,
        (forall|j: int|
            0 <= j < arrivals@.len() && (#[trigger] arrivals@[j]).0@ == url ==> arrivals@[j].1
                != ImageKind::Static) ==> final(images).static_images@.contains_key(url) == old(images).static_images@.contains_key(url) && final(images).static_images@[url] == old(images).static_images@[url],
        (forall|j: int|
            0 <= j < arrivals@.len() && (#[trigger] arrivals@[j]).0@ == url ==> arrivals@[j].1
                == ImageKind::Static) ==> final(images).preview_images@.contains_key(url) == old(images).preview_images@.contains_key(url) && final(images).preview_images@[url] == old(images).preview_images@[url],
{
    crate::images::pictures_stay_without_arrivals(old(images)@, arrivals@, url);
    if 0 <= last < arrivals@.len() && (forall|j: int|
        last < j < arrivals@.len() ==> (#[trigger] arrivals@[j]).0@ != arrivals@[last].0@ || (
        arrivals@[j].1 == ImageKind::Static) != (arrivals@[last].1 == ImageKind::Static)) {
        crate::images::last_arrivals_are_kept(old(images)@, arrivals@, last);
    }
}

/// The uptime is the span to the present without the part of a second.
pub proof fn uptime_is_the_whole_seconds(started: i64, now: i64, nanos: u32, r: i64)
    requires
        call_ensures(uptime_seconds, (started, now, nanos), r),
    ensures
        ({
            let span = (now - started) * 1_000_000_000 + nanos;
            &&& span >= 0 ==> r * 1_000_000_000 <= span < (r + 1) * 1_000_000_000
            &&& span < 0 ==> (r - 1) * 1_000_000_000 < span <= r * 1_000_000_000
        }),
{
    crate::info::uptime_drops_parts_of_a_second(started as int, now as int, nanos as int);
}

/// The number of viewers stands in front of the word, which is in the plural if there are
/// more than one.
pub proof fn viewers_are_said(count: i64, r: String)
    requires
        call_ensures(format_viewers, (count,), r),
    ensures
        count > 1 ==> r@ == crate::text::decimal_int(count as int) + " viewers"@,
        count <= 1 ==> r@ == (crate::text::decimal_int(count as int) + " viewer"@).push('\0'),
{
    crate::info::viewers_are_counted(count as int);
}

/// Each line about a stream says what it is for.
pub proof fn lines_about_a_stream(
    stream: &Stream,
    started_at: String,
    uptime: i64,
    r: StreamInfo,
    words: String,
    viewers: String,
)
    requires
        call_ensures(StreamInfo::new, (stream, started_at, uptime), r),
        call_ensures(format_seconds, (uptime,), words),
        call_ensures(format_viewers, (stream.viewer_count,), viewers),
    ensures
        r.title@ == stream.title@,
        r.game@ == stream.game_name@,
        r.game_hint@ == "game id: "@ + stream.game_id@,
        r.started_at@ == started_at@,
        r.started_hint@ == words@ + " ago"@,
        r.viewers@ == viewers@,
        stream.is_mature ==> r.mature@ == "Yes"@,
        !stream.is_mature ==> r.mature@ == "No"@,
{
    crate::info::views_of_lines_are_whole(r);
    crate::info::lines_say_what_they_are_for(*stream, started_at@, uptime as int);
}

/// What is said of a stream at a time rests on its start as the server wrote it: it is what is
/// said of the stream with the start as it is written at the local offset, and with the uptime
/// that has passed since then.
pub proof fn starts_and_uptimes_are_said(
    stream: &Stream,
    now: i64,
    nanos: u32,
    offset: i32,
    r: Option<StreamInfo>,
    uptime: i64,
    words: String,
    viewers: String,
)
    requires
        call_ensures(StreamInfo::display_info, (stream, now, nanos, offset), r),
        call_ensures(format_seconds, (uptime,), words),
        call_ensures(format_viewers, (stream.viewer_count,), viewers),
    ensures
        ({
            let written = crate::text::replaced(stream.started_at@, 'Z', " +00"@);
            let read = "[year]-[month]-[day]T[hour]:[minute]:[second] [offset_hour]"@;
            let write = "[year]-[month]-[day] [hour]:[minute]:[second] [offset_hour][offset_minute]"@;
            let shown = crate::info::local_time(written, read, offset, write);
            let started = crate::info::read_time(written, read);
            &&& shown is None ==> r is None
            &&& shown matches Some(text) ==> (r matches Some(info) && {
                &&& started is Some
                &&& info.started_at@ == text
                &&& info.title@ == stream.title@
                &&& info.game@ == stream.game_name@
                &&& info.game_hint@ == "game id: "@ + stream.game_id@
                &&& info.viewers@ == viewers@
                &&& info.mature@ == (if stream.is_mature {
                    "Yes"@
                } else {
                    "No"@
                })
                &&& call_ensures(
                    uptime_seconds,
                    (started->Some_0, now, nanos),
                    uptime,
                ) ==> info.started_hint@ == words@ + " ago"@
            })
        }),
{
    crate::info::starts_are_read_as_the_server_writes_them(
        *stream,
        now as int,
        nanos as int,
        offset,
    );
    if r is Some {
        crate::info::views_of_lines_are_whole(r->Some_0);
    }
}

/// A name is written in the ordinary color exactly if nothing is wrong with it, or nothing is
/// typed.
pub proof fn wrong_names_stand_out(validity: &Validity, r: bool, hint: Option<&'static str>)
    requires
        call_ensures(Validity::is_ordinary, (validity,), r),
        call_ensures(Validity::hint, (validity,), hint),
    ensures
        match *validity {
            Validity::Empty | Validity::Valid => r && hint is None,
            Validity::Duplicate(_) => !r && hint is None,
            Validity::ContainsSpaces => !r && (hint matches Some(text) && text@
                == "The input cannot contain spaces"@),
            Validity::Unknown => !r && (hint matches Some(text) && text@
                == "Unknown Twitch channel"@),
        },
{
}

/// The list keeps its end in sight unless it points a user out.
pub proof fn lists_stick_to_their_end(action: &ListAction, r: bool)
    requires
        call_ensures(ListAction::sticks_to_bottom, (action,), r),
    ensures
        match *action {
            ListAction::Nothing | ListAction::ScrollToBottom => r,
            ListAction::Highlight(_) => !r,
        },
{
}

/// A name is empty, or a character of it is white space, or it stands for the channel of a
/// user, of whom the first is pointed out; otherwise it is valid.
pub proof fn typed_names_are_judged(input: &Input, state: &State, r: Validity, k: int)
    requires
        call_ensures(Input::check_validity, (input, state), r),
    ensures
        ({
            let name = input.buffer@;
            let users = state.users.list@;
            let spaced = exists|i: int|
                0 <= i < name.len() && crate::text::white_space(#[trigger] name[i]);
            &&& name.len() == 0 ==> r == Validity::Empty
            &&& name.len() > 0 && spaced ==> r == Validity::ContainsSpaces
            &&& name.len() > 0 && !spaced && 0 <= k < users.len() && crate::channel::same_channel(
                name,
                users[k].login@,
            ) && (forall|j: int|
                0 <= j < k ==> !crate::channel::same_channel(name, (#[trigger] users[j]).login@))
                ==> r == Validity::Duplicate(k as usize)
            &&& name.len() > 0 && !spaced && (forall|j: int|
                0 <= j < users.len() ==> !crate::channel::same_channel(
                    name,
                    (#[trigger] users[j]).login@,
                )) ==> r == Validity::Valid
        }),
{
    assert(state.users.list@.len() == state.users.list.len());
    crate::input::names_are_judged_in_order(input.buffer@, state.users.list@, k);
}

/// The answer about a name is the first user that was found, or else the name as it was typed.
pub proof fn first_users_are_the_answer(
    name: String,
    reply: Option<Vec<User>>,
    r: Either<User, String>,
)
    requires
        call_ensures(Input::lookup_result, (name, reply), r),
    ensures
        reply is Some && reply->Some_0@.len() > 0 ==> (r matches Either::Left(user) && user
            == reply->Some_0@[0]),
        reply is None || reply->Some_0@.len() == 0 ==> (r matches Either::Right(back) && back
            == name),
{
}

/// To send a text off hands all of it over and empties the line, and changes nothing else.
pub proof fn sent_texts_are_handed_over(input: &mut Input, r: String)
    requires
        call_ensures(Input::try_add_channel, (input,), r),
    ensures
        r@ == old(input).buffer@,
        final(input).buffer@.len() == 0,
        final(input).validity == old(input).validity,
        final(input).pending == old(input).pending,
{
}

/// In a frame an answer changes something only if it was awaited, a changed text is judged
/// anew, and only a valid text that was sent off is looked up.
pub proof fn frames_take_the_events_in(
    input: &mut Input,
    events: Events,
    action: &mut ListAction,
    state: &mut State,
    r: Outcome,
)
    requires
        call_ensures(Input::display, (input, events, action, state), r),
    ensures
        ({
            let awaited = old(input).pending && events.result is Some;
            let found = awaited && events.result->Some_0 is Left;
            let refused = awaited && events.result->Some_0 is Right;
            let text = if refused {
                events.result->Some_0->Right_0@
            } else {
                old(input).buffer@
            };
            let sent = final(input).validity == Validity::Valid && events.submitted;
            &&& found ==> final(state)@ == old(state)@.with_user(events.result->Some_0->Left_0) && (
            r.watch matches Some(login) && login@ == events.result->Some_0->Left_0.login@)
            &&& !found ==> final(state)@ == old(state)@ && r.watch is None
            &&& events.changed ==> final(input).validity == crate::input::validity_of(
                text,
                final(state)@.users,
            )
            &&& !events.changed && refused ==> final(input).validity == Validity::Unknown
            &&& !events.changed && !refused ==> final(input).validity == old(input).validity
            &&& sent ==> final(input).buffer@.len() == 0 && final(input).pending && (
            r.lookup matches Some(name) && name@ == text)
            &&& !sent ==> final(input).buffer@ == text && r.lookup is None && (final(input).pending
                <==> old(input).pending && !awaited)
            &&& final(input).validity matches Validity::Duplicate(i) ==> *final(action)
                == ListAction::Highlight(i)
            &&& !(final(input).validity is Duplicate) && (found || sent) ==> *final(action)
                == ListAction::ScrollToBottom
            &&& !(final(input).validity is Duplicate) && !found && !sent ==> *final(action) == *old(action)
        }),
{
    crate::input::frames_follow_the_events(
        *old(input),
        *final(input),
        events,
        *old(action),
        *final(action),
        old(state)@,
        final(state)@,
        r,
    );
}

/// The channels that are live, and the others, are all of them, each in the order of the list.
pub proof fn channels_are_drawn_in_order(state: &State, r: Roster, a: int, b: int, i: usize)
    requires
        call_ensures(Roster::new, (state,), r),
    ensures
        0 <= a < b < r.online@.len() ==> r.online@[a] < r.online@[b],
        0 <= a < b < r.offline@.len() ==> r.offline@[a] < r.offline@[b],
        r.online@.contains(i) <==> i < state.users.list@.len()
            && state.status.map@[state.users.list@[i as int].login@] != Status::Offline,
        r.offline@.contains(i) <==> i < state.users.list@.len()
            && state.status.map@[state.users.list@[i as int].login@] == Status::Offline,
{
    assert(state.users.list@.len() == state.users.list.len());
    crate::roster::groups_keep_the_order_of_the_list(state@, true, a, b, i);
    crate::roster::groups_keep_the_order_of_the_list(state@, false, a, b, i);
}

/// A line is drawn exactly if there is a channel behind it.
pub proof fn lines_are_drawn_before_something(roster: &Roster, r: bool)
    requires
        call_ensures(Roster::has_separator, (roster,), r),
    ensures
        r <==> roster.offline@.len() > 0,
{
}

/// A user is shown with the picture at their own address, is marked exactly if the list points
/// out their own place, and is named by their own id.
pub proof fn users_are_shown_with_their_own<'a, 'b, I>(
    entry: &Entry<'a>,
    images: &'b Images<I>,
    command_only: bool,
    r: PictureName<'b, I>,
)
    requires
        call_ensures(Entry::<'a>::display_picture_name::<I>, (entry, images, command_only), r),
    ensures
        ({
            let url = entry.user.profile_image_url@;
            let kept = images.static_images@;
            &&& kept.contains_key(url) ==> r.image == Some(&kept[url]) && r.request is None
            &&& !kept.contains_key(url) ==> r.image is None
            &&& !kept.contains_key(url) && url.len() > 0 ==> (r.request matches Some(asked)
                && asked.0@ == url && asked.1 == ImageKind::Static)
            &&& url.len() == 0 ==> r.request is None
            &&& r.highlighted <==> (entry.action matches ListAction::Highlight(i) && i
                == entry.index)
            &&& command_only ==> (r.hint matches Some(text) && text@ == "user id: "@
                + entry.user.id@)
            &&& !command_only ==> r.hint is None
        }),
{
}

/// A double click, and nothing else, opens the page of the user's own channel; only a user who
/// is pointed out is said to be followed already.
pub proof fn clicks_open_the_own_page<'a>(entry: &Entry<'a>, double_clicked: bool, r: Clicked)
    requires
        call_ensures(Entry::<'a>::handle_double_click, (entry, double_clicked), r),
    ensures
        double_clicked ==> (r.open_url matches Some(url) && url@ == "https://twitch.tv/"@
            + entry.user.login@),
        !double_clicked ==> r.open_url is None,
        entry.action == ListAction::Highlight(entry.index) ==> (r.hint matches Some(text) && text@
            == "This channel has already been added"@),
        entry.action != ListAction::Highlight(entry.index) ==> r.hint is None,
{
}

/// A click on the button notes the user's own place, and without one nothing is noted.
pub proof fn clicks_take_out_the_own_place<'a>(
    entry: &Entry<'a>,
    clicked: bool,
    to_remove: &mut Option<usize>,
    highlighted: bool,
)
    requires
        call_ensures(Entry::<'a>::handle_remove, (entry, clicked, to_remove), ()),
        call_ensures(Entry::<'a>::is_highlighted, (entry,), highlighted),
    ensures
        clicked ==> *final(to_remove) == Some(entry.index),
        !clicked ==> *final(to_remove) == *old(to_remove),
        highlighted <==> entry.action == ListAction::Highlight(entry.index),
{
}

/// A preview is shown and asked for only while the key is held.
pub proof fn previews_are_shown_on_demand<'a, I>(
    images: &'a Images<I>,
    url: &str,
    shift_only: bool,
    now: u128,
    r: (Option<&'a I>, Option<(String, ImageKind)>),
    got: (Option<&'a I>, Option<(String, ImageKind)>),
)
    requires
        call_ensures(hovered_preview::<I>, (images, url, shift_only, now), r),
        call_ensures(Images::<I>::get_preview, (images, url, now), got),
    ensures
        !shift_only ==> r.0 is None && r.1 is None,
        shift_only ==> r.0 == got.0,
        shift_only ==> (r.1 is Some <==> got.1 is Some),
        shift_only && r.1 is Some ==> r.1->Some_0.0@ == got.1->Some_0.0@ && r.1->Some_0.1
            == got.1->Some_0.1,
{
}

/// A user takes the place of the first one with the same id, or else a new place at the end,
/// and nobody else moves.
pub proof fn users_take_one_place(users: &mut Users, user: User, k: int)
    requires
        call_ensures(Users::append, (users, user), ()),
    ensures
        ({
            let list = old(users).list@;
            &&& (forall|j: int| 0 <= j < list.len() ==> (#[trigger] list[j]).id@ != user.id@)
                ==> final(users).list@ == list.push(user)
            &&& 0 <= k < list.len() && list[k].id@ == user.id@ && (forall|j: int|
                0 <= j < k ==> (#[trigger] list[j]).id@ != user.id@) ==> final(users).list@
                == list.update(k, user)
        }),
{
    crate::state::adding_changes_one_place(old(users).list@, user, k);
}

/// The users that were saved are followed again, all of them and in order, with channels that
/// are not live and not shown; what is saved and watched is that list.
pub proof fn saved_users_are_followed_again(
    following: Option<Users>,
    state: State,
    saved: &Users,
    logins: Vec<String>,
    login: Seq<char>,
    i: int,
)
    requires
        call_ensures(State::load, (following,), state),
        call_ensures(State::following, (&state,), saved),
        call_ensures(State::logins, (&state,), logins),
    ensures
        following is None ==> state.users.list@.len() == 0,
        following matches Some(users) ==> state.users.list@ == users.list@,
        saved.list@ == state.users.list@,
        logins@.len() == state.users.list@.len(),
        0 <= i < logins@.len() ==> logins@[i]@ == state.users.list@[i].login@,
        ({
            let followed = exists|j: int|
                0 <= j < state.users.list@.len() && (#[trigger] state.users.list@[j]).login@
                    == login;
            &&& state.status.map@.contains_key(login) <==> followed
            &&& state.shown@.contains_key(login) <==> followed
            &&& followed ==> state.status.map@[login] == Status::Offline && !state.shown@[login]
        }),
{
    crate::state::only_followed_channels_are_known_at_first(state.users.list@, login);
}

/// The channel of a user who is added is not live and not shown; what is known of any other
/// channel stays.
pub proof fn users_are_added(state: &mut State, user: User, login: Seq<char>, k: int)
    requires
        call_ensures(State::add, (state, user), ()),
    ensures
        ({
            let list = old(state).users.list@;
            &&& (forall|j: int| 0 <= j < list.len() ==> (#[trigger] list[j]).id@ != user.id@)
                ==> final(state).users.list@ == list.push(user)
            &&& 0 <= k < list.len() && list[k].id@ == user.id@ && (forall|j: int|
                0 <= j < k ==> (#[trigger] list[j]).id@ != user.id@) ==> final(state).users.list@
                == list.update(k, user)
        }),
        final(state).status.map@.contains_key(user.login@),
        final(state).status.map@[user.login@] == Status::Offline,
        final(state).shown@.contains_key(user.login@),
        !final(state).shown@[user.login@],
        login != user.login@ ==> {
            &&& final(state).status.map@.contains_key(login) == old(state).status.map@.contains_key(login)
            &&& final(state).status.map@[login] == old(state).status.map@[login]
            &&& final(state).shown@.contains_key(login) == old(state).shown@.contains_key(login)
            &&& final(state).shown@[login] == old(state).shown@[login]
        },
{
    crate::state::views_of_states_are_whole(*old(state));
    crate::state::views_of_states_are_whole(*final(state));
    crate::state::adding_changes_one_place(old(state).users.list@, user, k);
    crate::state::adding_leaves_other_channels_alone(old(state)@, user, login);
}

/// Taking out a user takes the status of that channel and its two pictures along, leaves the
/// others in order with all that is known of them, and does nothing for a place behind the
/// list.
pub proof fn users_are_taken_out<I>(
    state: &mut State,
    index: usize,
    images: &mut Images<I>,
    other: int,
    login: Seq<char>,
    url: Seq<char>,
)
    requires
        call_ensures(State::remove::<I>, (state, index, images), ()),
    ensures
        index >= old(state).users.list@.len() ==> *final(state) == *old(state) && *final(images)
            == *old(images),
        index < old(state).users.list@.len() ==> ({
            let list = old(state).users.list@;
            let left = final(state).users.list@;
            let user = list[index as int];
            let preview = "https://static-cdn.jtvnw.net/previews-ttv/live_user_"@ + user.login@
                + "-250x141.jpg"@;
            &&& left.len() == list.len() - 1
            &&& 0 <= other < index ==> left[other] == list[other]
            &&& index < other < list.len() ==> left[other - 1] == list[other]
            &&& final(state).shown@ == old(state).shown@
            &&& !final(state).status.map@.contains_key(user.login@)
            &&& login != user.login@ ==> {
                &&& final(state).status.map@.contains_key(login) == old(state).status.map@.contains_key(login)
                &&& final(state).status.map@[login] == old(state).status.map@[login]
            }
            &&& !final(images).static_images@.contains_key(user.profile_image_url@)
            &&& !final(images).preview_images@.contains_key(preview)
            &&& url != user.profile_image_url@ ==> {
                &&& final(images).static_images@.contains_key(url) == old(images).static_images@.contains_key(url)
                &&& final(images).static_images@[url] == old(images).static_images@[url]
            }
            &&& url != preview ==> {
                &&& final(images).preview_images@.contains_key(url) == old(images).preview_images@.contains_key(url)
                &&& final(images).preview_images@[url] == old(images).preview_images@[url]
            }
        }),
{
    crate::state::views_of_states_are_whole(*old(state));
    crate::state::views_of_states_are_whole(*final(state));
    if index < old(state).users.list@.len() {
        crate::images::previews_are_named_by_the_login(
            old(state).users.list@[index as int].login@,
        );
        crate::state::removing_leaves_others_alone(old(state)@, index as int, other, login);
    }
}

/// Details are shown or not as they were marked last, each channel for itself.
pub proof fn details_are_shown_as_marked(
    state: &mut State,
    login: String,
    shown: bool,
    other: Seq<char>,
)
    requires
        call_ensures(State::set_shown, (state, login, shown), ()),
    ensures
        final(state).shown@.contains_key(login@),
        final(state).shown@[login@] == shown,
        other != login@ ==> {
            &&& final(state).shown@.contains_key(other) == old(state).shown@.contains_key(other)
            &&& final(state).shown@[other] == old(state).shown@[other]
        },
        final(state).users.list@ == old(state).users.list@,
        final(state).status.map@ == old(state).status.map@,
{
    crate::state::views_of_states_are_whole(*old(state));
    crate::state::views_of_states_are_whole(*final(state));
}

/// What is known of a channel is what is kept under its own login.
pub proof fn channels_are_known_by_their_login(
    state: &State,
    login: &str,
    shown: bool,
    status: &Status,
    online: bool,
)
    requires
        call_ensures(State::is_shown, (state, login), shown),
        call_ensures(StatusMap::get, (&state.status, login), status),
        call_ensures(Status::is_online, (status,), online),
    ensures
        shown == state.shown@[login@],
        *status == state.status.map@[login@],
        online <==> *status != Status::Offline,
{
}

/// The first stream of an answer makes a channel live, as it came but for its picture, which
/// becomes the preview of its own channel; without a stream or an answer it is not live.
pub proof fn first_streams_make_channels_live(reply: Option<Vec<Stream>>, r: Status)
    requires
        call_ensures(status_of_streams, (reply,), r),
    ensures
        reply is None || reply->Some_0@.len() == 0 ==> r == Status::Offline,
        reply is Some && reply->Some_0@.len() > 0 ==> (r matches Status::Online(stream) && {
            let first = reply->Some_0@[0];
            &&& stream.thumbnail_url@ == "https://static-cdn.jtvnw.net/previews-ttv/live_user_"@
                + first.user_login@ + "-250x141.jpg"@
            &&& stream.game_id == first.game_id
            &&& stream.game_name == first.game_name
            &&& stream.id == first.id
            &&& stream.is_mature == first.is_mature
            &&& stream.language == first.language
            &&& stream.started_at == first.started_at
            &&& stream.tag_ids == first.tag_ids
            &&& stream.title == first.title
            &&& stream.type_ == first.type_
            &&& stream.user_id == first.user_id
            &&& stream.user_login == first.user_login
            &&& stream.user_name == first.user_name
            &&& stream.viewer_count == first.viewer_count
        }),
{
    if reply is Some && reply->Some_0@.len() > 0 {
        crate::images::previews_are_named_by_the_login(reply->Some_0@[0].user_login@);
    }
}

/// A status is kept under its own login, or forgotten, and those of other channels stay.
pub proof fn statuses_are_kept_apart(
    map: &mut StatusMap,
    login: String,
    status: Status,
    other: Seq<char>,
)
    requires
        call_ensures(StatusMap::insert, (map, login, status), ()),
    ensures
        final(map).map@.contains_key(login@),
        final(map).map@[login@] == status,
        other != login@ ==> final(map).map@.contains_key(other) == old(map).map@.contains_key(other)
            && final(map).map@[other] == old(map).map@[other],
{
}

/// A channel that is forgotten has no status, and those of other channels stay.
pub proof fn statuses_are_forgotten_apart(map: &mut StatusMap, login: &str, other: Seq<char>)
    requires
        call_ensures(StatusMap::remove, (map, login), ()),
    ensures
        !final(map).map@.contains_key(login@),
        other != login@ ==> final(map).map@.contains_key(other) == old(map).map@.contains_key(other)
            && final(map).map@[other] == old(map).map@[other],
{
}

/// A task is started for a channel exactly the first time, and for each channel by itself.
pub proof fn channels_are_watched_once(
    checker: &mut StatusChecker,
    login: String,
    r: bool,
    other: Seq<char>,
)
    requires
        call_ensures(StatusChecker::watch, (checker, login), r),
    ensures
        r <==> !old(checker).seen@.contains(login@),
        final(checker).seen@.contains(login@),
        other != login@ ==> (final(checker).seen@.contains(other) <==> old(checker).seen@.contains(
            other,
        )),
{
}

/// Of the news about a channel the last counts, and without news nothing changes.
pub proof fn news_is_entered(
    updates: Vec<(String, Status)>,
    map: &mut StatusMap,
    last: int,
    login: Seq<char>,
)
    requires
        call_ensures(StatusChecker::poll, (updates, map), ()),
    ensures
        0 <= last < updates@.len() && (forall|j: int|
            last < j < updates@.len() ==> (#[trigger] updates@[j]).0@ != updates@[last].0@)
            ==> final(map).map@.contains_key(updates@[last].0@) && final(map).map@[updates@[last].0@] == updates@[last].1,
        (forall|j: int| 0 <= j < updates@.len() ==> (#[trigger] updates@[j]).0@ != login) ==> final(map).map@.contains_key(login) == old(map).map@.contains_key(login) && final(map).map@[login]
            == old(map).map@[login],
{
    if 0 <= last < updates@.len() && (forall|j: int|
        last < j < updates@.len() ==> (#[trigger] updates@[j]).0@ != updates@[last].0@) {
        crate::laws::last_news_counts(old(map)@, updates@, last);
    }
    if forall|j: int| 0 <= j < updates@.len() ==> (#[trigger] updates@[j]).0@ != login {
        crate::status::channels_stay_without_news(old(map)@, updates@, login);
    }
}

/// Numerals are written behind what is there, and have a sign if they are negative.
pub proof fn numerals_are_written(out: &mut String, n: u64, m: i64, r: String)
    requires
        call_ensures(push_decimal, (out, n), ()),
        call_ensures(decimal, (m,), r),
    ensures
        final(out)@ == old(out)@ + crate::text::decimal_nat(n as nat),
        m >= 0 ==> r@ == crate::text::decimal_nat(m as nat),
        m < 0 ==> r@ == seq!['-'] + crate::text::decimal_nat((-m) as nat),
{
}

/// A text holds white space exactly if one of its characters is white space.
pub proof fn white_space_is_found(s: &str, r: bool)
    requires
        call_ensures(contains_white_space, (s,), r),
    ensures
        r <==> exists|i: int| 0 <= i < s@.len() && crate::text::white_space(#[trigger] s@[i]),
{
}

/// Two texts are the same but for case exactly if they are equally long and at each place have
/// the same character, or the capital and the small form of one ASCII letter.
pub proof fn case_is_ignored(left: &str, right: &str, r: bool)
    requires
        call_ensures(same_ignoring_ascii_case, (left, right), r),
    ensures
        r <==> left@.len() == right@.len() && forall|i: int|
            0 <= i < left@.len() ==> {
                ||| #[trigger] left@[i] == right@[i]
                ||| 0x41 <= left@[i] as u32 <= 0x5a && right@[i] as u32 == left@[i] as u32 + 32
                ||| 0x41 <= right@[i] as u32 <= 0x5a && left@[i] as u32 == right@[i] as u32 + 32
            },
{
    let a = crate::text::ascii_lowered(left@);
    let b = crate::text::ascii_lowered(right@);
    if r {
        assert(a.len() == b.len());
        assert forall|i: int| 0 <= i < left@.len() implies {
            ||| #[trigger] left@[i] == right@[i]
            ||| 0x41 <= left@[i] as u32 <= 0x5a && right@[i] as u32 == left@[i] as u32 + 32
            ||| 0x41 <= right@[i] as u32 <= 0x5a && left@[i] as u32 == right@[i] as u32 + 32
        } by {
            assert(a[i] == b[i]);
        }
    }
    if left@.len() == right@.len() && (forall|i: int|
        0 <= i < left@.len() ==> {
            ||| #[trigger] left@[i] == right@[i]
            ||| 0x41 <= left@[i] as u32 <= 0x5a && right@[i] as u32 == left@[i] as u32 + 32
            ||| 0x41 <= right@[i] as u32 <= 0x5a && left@[i] as u32 == right@[i] as u32 + 32
        }) {
        assert forall|i: int| 0 <= i < a.len() implies a[i] == b[i] by {
            assert(left@[i] == left@[i]);
        }
        assert(a =~= b);
    }
}

/// A text in which the character does not occur stays as it is.
pub proof fn texts_without_the_character_stay(s: &str, from: char, to: &str, r: String)
    requires
        call_ensures(replace_char, (s, from, to), r),
    ensures
        r@ == crate::text::replaced(s@, from, to@),
        (forall|i: int| 0 <= i < s@.len() ==> #[trigger] s@[i] != from) ==> r@ == s@,
{
    if forall|i: int| 0 <= i < s@.len() ==> #[trigger] s@[i] != from {
        unreplaced(s@, from, to@);
    }
}

/// Without the character nothing is replaced.
proof fn unreplaced(s: Seq<char>, from: char, to: Seq<char>)
    requires
        forall|i: int| 0 <= i < s.len() ==> #[trigger] s[i] != from,
    ensures
        crate::text::replaced(s, from, to) == s,
    decreases s.len(),
{
    if s.len() > 0 {
        let front = s.drop_last();
        assert(front + seq![s.last()] =~= s);
        assert forall|i: int| 0 <= i < front.len() implies #[trigger] front[i] != from by {
            assert(front[i] == s[i]);
        }
        unreplaced(front, from, to);
        crate::text::replacing_goes_by_characters(front, seq![s.last()], s.last(), from, to);
        assert(s.last() == s[s.len() - 1]);
    } else {
        assert(s =~= seq![]);
        crate::text::replacing_goes_by_characters(s, s, from, from, to);
    }
}

/// The program starts with the given channels, all of which are watched, an empty line and no
/// pictures.
pub proof fn programs_start_with_their_channels<I>(
    state: State,
    r: (App<I>, Vec<String>),
    i: int,
    url: Seq<char>,
)
    requires
        call_ensures(App::<I>::new, (state,), r),
    ensures
        r.0.state == state,
        r.0.input.buffer@.len() == 0,
        r.0.input.validity == Validity::Empty,
        !r.0.input.pending,
        !r.0.images.static_images@.contains_key(url),
        !r.0.images.preview_images@.contains_key(url),
        r.1@.len() == state.users.list@.len(),
        0 <= i < r.1@.len() ==> r.1@[i]@ == state.users.list@[i].login@,
{
}

/// Between two frames the pictures that came and the news about channels are taken in, each as
/// by itself, and the line and the list of users stay.
pub proof fn arrivals_and_news_are_taken_in<I>(
    app: &mut App<I>,
    arrivals: Vec<(String, ImageKind, I, u128)>,
    updates: Vec<(String, Status)>,
    last: int,
    url: Seq<char>,
    login: Seq<char>,
)
    requires
        call_ensures(App::<I>::poll, (app, arrivals, updates), ()),
    ensures
        final(app).input == old(app).input,
        final(app).state.users.list@ == old(app).state.users.list@,
        final(app).state.shown@ == old(app).state.shown@,
        0 <= last < arrivals@.len() && arrivals@[last].1 == ImageKind::Static && (forall|j: int|
            last < j < arrivals@.len() && (#[trigger] arrivals@[j]).0@ == arrivals@[last].0@
                ==> arrivals@[j].1 != ImageKind::Static) ==> {
            let kept = final(app).images.static_images@;
            kept.contains_key(arrivals@[last].0@) && kept[arrivals@[last].0@] == arrivals@[last].2
        },
        0 <= last < arrivals@.len() && arrivals@[last].1 != ImageKind::Static && (forall|j: int|
            last < j < arrivals@.len() && (#[trigger] arrivals@[j]).0@ == arrivals@[last].0@
                ==> arrivals@[j].1 == ImageKind::Static) ==> {
            let kept = final(app).images.preview_images@;
            kept.contains_key(arrivals@[last].0@) && kept[arrivals@[last].0@].image
                == arrivals@[last].2 && kept[arrivals@[last].0@].last == arrivals@[last].3
        },
        (forall|j: int| 0 <= j < arrivals@.len() ==> (#[trigger] arrivals@[j]).0@ != url) ==> {
            let before = old(app).images;
            let after = final(app).images;
            &&& after.static_images@.contains_key(url) == before.static_images@.contains_key(url)
            &&& after.static_images@[url] == before.static_images@[url]
            &&& after.preview_images@.contains_key(url) == before.preview_images@.contains_key(url)
            &&& after.preview_images@[url] == before.preview_images@[url]
        },
        0 <= last < updates@.len() && (forall|j: int|
            last < j < updates@.len() ==> (#[trigger] updates@[j]).0@ != updates@[last].0@) ==> {
            let known = final(app).state.status.map@;
            known.contains_key(updates@[last].0@) && known[updates@[last].0@] == updates@[last].1
        },
        (forall|j: int| 0 <= j < updates@.len() ==> (#[trigger] updates@[j]).0@ != login) ==> {
            let before = old(app).state.status.map@;
            let after = final(app).state.status.map@;
            after.contains_key(login) == before.contains_key(login) && after[login] == before[login]
        },
{
    crate::state::views_of_states_are_whole(old(app).state);
    crate::state::views_of_states_are_whole(final(app).state);
    crate::images::pictures_stay_without_arrivals(old(app).images@, arrivals@, url);
    if 0 <= last < arrivals@.len() && (forall|j: int|
        last < j < arrivals@.len() ==> (#[trigger] arrivals@[j]).0@ != arrivals@[last].0@ || (
        arrivals@[j].1 == ImageKind::Static) != (arrivals@[last].1 == ImageKind::Static)) {
        crate::images::last_arrivals_are_kept(old(app).images@, arrivals@, last);
    }
    let status = old(app).state@.status;
    if 0 <= last < updates@.len() && (forall|j: int|
        last < j < updates@.len() ==> (#[trigger] updates@[j]).0@ != updates@[last].0@) {
        crate::laws::last_news_counts(status, updates@, last);
    }
    if forall|j: int| 0 <= j < updates@.len() ==> (#[trigger] updates@[j]).0@ != login {
        crate::status::channels_stay_without_news(status, updates@, login);
    }
}

/// A frame begins with the line, with a list that does nothing unless the line makes it, and
/// leaves the pictures.
pub proof fn frames_begin_with_the_line<I>(
    app: &mut App<I>,
    events: Events,
    r: (Outcome, ListAction),
)
    requires
        call_ensures(App::<I>::begin_frame, (app, events), r),
    ensures
        final(app).images == old(app).images,
        ({
            let before = old(app).input;
            let after = final(app).input;
            let awaited = before.pending && events.result is Some;
            let found = awaited && events.result->Some_0 is Left;
            let refused = awaited && events.result->Some_0 is Right;
            let text = if refused {
                events.result->Some_0->Right_0@
            } else {
                before.buffer@
            };
            let sent = after.validity == Validity::Valid && events.submitted;
            &&& found ==> final(app).state@ == old(app).state@.with_user(
                events.result->Some_0->Left_0,
            ) && (r.0.watch matches Some(login) && login@
                == events.result->Some_0->Left_0.login@)
            &&& !found ==> final(app).state@ == old(app).state@ && r.0.watch is None
            &&& events.changed ==> after.validity == crate::input::validity_of(
                text,
                final(app).state@.users,
            )
            &&& !events.changed && refused ==> after.validity == Validity::Unknown
            &&& !events.changed && !refused ==> after.validity == before.validity
            &&& sent ==> after.buffer@.len() == 0 && after.pending && (
            r.0.lookup matches Some(name) && name@ == text)
            &&& !sent ==> after.buffer@ == text && r.0.lookup is None && (after.pending
                <==> before.pending && !awaited)
            &&& after.validity matches Validity::Duplicate(i) ==> r.1 == ListAction::Highlight(i)
            &&& !(after.validity is Duplicate) && (found || sent) ==> r.1
                == ListAction::ScrollToBottom
            &&& !(after.validity is Duplicate) && !found && !sent ==> r.1 == ListAction::Nothing
        }),
{
    crate::input::frames_follow_the_events(
        old(app).input,
        final(app).input,
        events,
        ListAction::Nothing,
        r.1,
        old(app).state@,
        final(app).state@,
        r.0,
    );
}

/// The channels are drawn as they stand in the list, the live ones and the others.
pub proof fn programs_draw_their_channels<I>(app: &App<I>, r: Roster, a: int, b: int, i: usize)
    requires
        call_ensures(App::<I>::roster, (app,), r),
    ensures
        0 <= a < b < r.online@.len() ==> r.online@[a] < r.online@[b],
        0 <= a < b < r.offline@.len() ==> r.offline@[a] < r.offline@[b],
        r.online@.contains(i) <==> i < app.state.users.list@.len()
            && app.state.status.map@[app.state.users.list@[i as int].login@] != Status::Offline,
        r.offline@.contains(i) <==> i < app.state.users.list@.len()
            && app.state.status.map@[app.state.users.list@[i as int].login@] == Status::Offline,
{
    assert(app.state.users.list@.len() == app.state.users.list.len());
    crate::roster::groups_keep_the_order_of_the_list(app.state@, true, a, b, i);
    crate::roster::groups_keep_the_order_of_the_list(app.state@, false, a, b, i);
}

/// A frame ends with nobody taken out, or with the one user that was asked for, whose status
/// and pictures go along; the line stays.
pub proof fn frames_end_with_at_most_one_user_less<I>(
    app: &mut App<I>,
    to_remove: Option<usize>,
    other: int,
    login: Seq<char>,
    url: Seq<char>,
)
    requires
        call_ensures(App::<I>::end_frame, (app, to_remove), ()),
    ensures
        final(app).input == old(app).input,
        to_remove is None || to_remove->Some_0 >= old(app).state.users.list@.len() ==> *final(app)
            == *old(app),
        to_remove is Some && to_remove->Some_0 < old(app).state.users.list@.len() ==> ({
            let index = to_remove->Some_0;
            let list = old(app).state.users.list@;
            let left = final(app).state.users.list@;
            let user = list[index as int];
            let preview = "https://static-cdn.jtvnw.net/previews-ttv/live_user_"@ + user.login@
                + "-250x141.jpg"@;
            let known = old(app).state.status.map@;
            let still = final(app).state.status.map@;
            let before = old(app).images;
            let after = final(app).images;
            &&& left.len() == list.len() - 1
            &&& 0 <= other < index ==> left[other] == list[other]
            &&& index < other < list.len() ==> left[other - 1] == list[other]
            &&& final(app).state.shown@ == old(app).state.shown@
            &&& !still.contains_key(user.login@)
            &&& login != user.login@ ==> still.contains_key(login) == known.contains_key(login)
                && still[login] == known[login]
            &&& !after.static_images@.contains_key(user.profile_image_url@)
            &&& !after.preview_images@.contains_key(preview)
            &&& url != user.profile_image_url@ ==> after.static_images@.contains_key(url)
                == before.static_images@.contains_key(url) && after.static_images@[url]
                == before.static_images@[url]
            &&& url != preview ==> after.preview_images@.contains_key(url)
                == before.preview_images@.contains_key(url) && after.preview_images@[url]
                == before.preview_images@[url]
        }),
{
    crate::state::views_of_states_are_whole(old(app).state);
    crate::state::views_of_states_are_whole(final(app).state);
    if to_remove is Some && to_remove->Some_0 < old(app).state.users.list@.len() {
        let index = to_remove->Some_0 as int;
        crate::images::previews_are_named_by_the_login(old(app).state.users.list@[index].login@);
        crate::state::removing_leaves_others_alone(old(app).state@, index, other, login);
    }
}

/// Files are given to the decoder by what is in them, and a file that is no picture always is.
pub proof fn files_are_judged_by_their_kind(
    data: &[u8],
    r: bool,
    frame: Option<usize>,
    jpeg: bool,
    png: bool,
)
    requires
        call_ensures(ImageLoader::can_decode, (data,), r),
        call_ensures(crate::jpeg::find_frame, (data,), frame),
        call_ensures(crate::jpeg::check_frame, (data,), jpeg),
        call_ensures(crate::png::check_palette, (data,), png),
    ensures
        ({
            let is_png = data@.len() >= 8 && data@[0] == 0x89 && data@[1] == 0x50 && data@[2]
                == 0x4e && data@[3] == 0x47 && data@[4] == 0x0d && data@[5] == 0x0a && data@[6]
                == 0x1a && data@[7] == 0x0a;
            let is_jpeg = data@.len() >= 3 && data@[0] == 0xff && data@[1] == 0xd8 && data@[2]
                == 0xff;
            &&& is_png ==> r == png
            &&& is_jpeg ==> r == jpeg
            &&& !is_png && !is_jpeg ==> r
        }),
        jpeg == crate::jpeg::frame_fits(data@),
        png == crate::png::palette_fits(data@),
        frame is None <==> crate::jpeg::first_frame(data@) is None,
        frame matches Some(at) ==> crate::jpeg::first_frame(data@) == Some(at as int),
{
    crate::decode::only_pictures_are_looked_into(data@);
}

/// White space is what Unicode gives that property; in lower case only the capital letters of
/// ASCII change.
pub proof fn characters_are_told_apart(c: char, space: bool, low: char)
    requires
        call_ensures(is_white_space, (c,), space),
        call_ensures(to_ascii_lower, (c,), low),
    ensures
        space <==> ({
            let code = c as u32;
            ||| 0x9 <= code <= 0xd
            ||| code == 0x20
            ||| code == 0x85
            ||| code == 0xa0
            ||| code == 0x1680
            ||| 0x2000 <= code <= 0x200a
            ||| 0x2028 <= code <= 0x2029
            ||| code == 0x202f
            ||| code == 0x205f
            ||| code == 0x3000
        }),
        0x41 <= c as u32 <= 0x5a ==> low as u32 == c as u32 + 32,
        !(0x41 <= c as u32 <= 0x5a) ==> low == c,
{
}

/// Without anything given, nothing is followed, typed, kept, known or done.
pub proof fn everything_starts_empty<I>(
    users: Users,
    state: State,
    statuses: StatusMap,
    status: Status,
    images: Images<I>,
    input: Input,
    validity: Validity,
    action: ListAction,
    any: Seq<char>,
)
    requires
        call_ensures(<Users as Default>::default, (), users),
        call_ensures(<State as Default>::default, (), state),
        call_ensures(<StatusMap as Default>::default, (), statuses),
        call_ensures(<Status as Default>::default, (), status),
        call_ensures(<Images<I> as Default>::default, (), images),
        call_ensures(<Input as Default>::default, (), input),
        call_ensures(<Validity as Default>::default, (), validity),
        call_ensures(<ListAction as Default>::default, (), action),
    ensures
        users.list@.len() == 0,
        state.users.list@.len() == 0,
        !state.status.map@.contains_key(any),
        !state.shown@.contains_key(any),
        !statuses.map@.contains_key(any),
        status == Status::Offline,
        !images.static_images@.contains_key(any),
        !images.preview_images@.contains_key(any),
        input.buffer@.len() == 0,
        input.validity == Validity::Empty,
        !input.pending,
        validity == Validity::Empty,
        action == ListAction::Nothing,
{
}

/// Work is done in the context of the runtime that it is given: it is lent a guard of that
/// runtime and no other.
pub proof fn work_is_done_in_its_own_runtime<F: FnOnce(&tokio::runtime::EnterGuard<'_>)>(
    handle: &tokio::runtime::Handle,
    f: F,
)
    requires
        call_ensures(crate::runtime::enter_context, (Some(handle), f), ()),
    ensures
        exists|guard: tokio::runtime::EnterGuard<'_>| #[trigger]
            crate::runtime::entered(guard) == *handle && f.ensures((&guard,), ()),
{
}

/// A channel is asked about every half minute, and tokens are asked for where Twitch gives
/// them.
pub proof fn constants_are_those_of_the_service()
    ensures
        StatusChecker::DELAY == 30,
        crate::helix::TOKEN_URL@ == "https://id.twitch.tv/oauth2/token"@,
{
}

} // verus!
