//! What holds of the library as a whole.
use vstd::prelude::*;

use crate::either::Either;
use crate::helix::{Stream, User};
use crate::images::{ImageKind, ImagesView};
use crate::input::{Events, Input, Validity};
use crate::state::StateView;
use crate::status::Status;

verus! {

/// Starting again with the users that were saved keeps all of them, in order; every channel
/// then has a status, which is that it is not live, and no details are shown.
pub proof fn starting_again_keeps_the_users(saved: StateView)
    ensures
        StateView::fresh(saved.users).users == saved.users,
        StateView::fresh(saved.users).in_step(),
        forall|login: Seq<char>|
            StateView::fresh(saved.users).status.contains_key(login) ==> #[trigger] StateView::fresh(
                saved.users,
            ).status[login] == Status::Offline,
        forall|login: Seq<char>|
            StateView::fresh(saved.users).shown.contains_key(login) ==> !#[trigger] StateView::fresh(
                saved.users,
            ).shown[login],
{
}

/// News about channels, followed or not, keeps every followed channel with a status.
pub proof fn news_keeps_in_step(state: StateView, updates: Seq<(String, Status)>)
    requires
        state.in_step(),
    ensures
        (StateView { status: crate::status::updated(state.status, updates), ..state }).in_step(),
    decreases updates.len(),
{
    if updates.len() > 0 {
        news_keeps_in_step(state, updates.drop_last());
        let before = StateView {
            status: crate::status::updated(state.status, updates.drop_last()),
            ..state
        };
        let after = StateView { status: crate::status::updated(state.status, updates), ..state };
        assert forall|i: int| 0 <= i < after.users.len() implies after.status.contains_key(
            (#[trigger] after.users[i]).login@,
        ) && after.shown.contains_key(after.users[i].login@) by {
            assert(before.status.contains_key(before.users[i].login@));
        }
    }
}

/// No two users have the same id.
pub open spec fn ids_differ(list: Seq<User>) -> bool {
    forall|i: int, j: int|
        0 <= i < j < list.len() ==> (#[trigger] list[i]).id@ != (#[trigger] list[j]).id@
}

/// No two users have the same login.
pub open spec fn logins_differ(list: Seq<User>) -> bool {
    forall|i: int, j: int|
        0 <= i < j < list.len() ==> (#[trigger] list[i]).login@ != (#[trigger] list[j]).login@
}

/// Adding a user keeps the logins of the users different if the ids are different and no user
/// with another id has the same login; taking one out keeps them different, and every followed
/// channel with a status.
pub proof fn logins_stay_different(state: StateView, user: User, index: int)
    requires
        logins_differ(state.users),
        forall|j: int|
            0 <= j < state.users.len() && (#[trigger] state.users[j]).id@ != user.id@
                ==> state.users[j].login@ != user.login@,
    ensures
        ids_differ(state.users) ==> logins_differ(state.with_user(user).users),
        0 <= index < state.users.len() ==> logins_differ(state.without(index).users),
        0 <= index < state.users.len() && state.in_step() ==> state.without(index).in_step(),
{
    let list = state.users;
    if !crate::state::lacks_id(list, user.id@) {
        crate::state::first_with_id_exists(list, user.id@);
    }
    if 0 <= index < list.len() && state.in_step() {
        crate::state::removing_keeps_in_step(state, index);
    }
}

/// Adding a user and taking one out keep the ids of the users different.
pub proof fn ids_stay_different(list: Seq<User>, user: User, index: int)
    requires
        ids_differ(list),
    ensures
        ids_differ(crate::state::appended(list, user)),
        0 <= index < list.len() ==> ids_differ(list.remove(index)),
{
    if !crate::state::lacks_id(list, user.id@) {
        crate::state::first_with_id_exists(list, user.id@);
    }
}

/// A user who was added stands in the list, and adding the same user again changes nothing.
pub proof fn adding_again_changes_nothing(list: Seq<User>, user: User)
    ensures
        crate::state::appended(list, user).contains(user),
        crate::state::appended(crate::state::appended(list, user), user)
            == crate::state::appended(list, user),
{
    let once = crate::state::appended(list, user);
    if crate::state::lacks_id(list, user.id@) {
        assert(once[list.len() as int] == user);
        assert(!crate::state::lacks_id(once, user.id@));
        crate::state::first_with_id_exists(once, user.id@);
        let i = choose|i: int| crate::state::is_first_with_id(once, user.id@, i);
        if i < list.len() {
            assert(once[i] == list[i]);
        }
        assert(i == list.len());
    } else {
        crate::state::first_with_id_exists(list, user.id@);
        let first = choose|i: int| crate::state::is_first_with_id(list, user.id@, i);
        assert(once[first] == user);
        assert(!crate::state::lacks_id(once, user.id@));
        assert(crate::state::is_first_with_id(once, user.id@, first)) by {
            assert forall|j: int| 0 <= j < first implies (#[trigger] once[j]).id@ != user.id@ by {
                assert(once[j] == list[j]);
            }
        }
        let again = choose|i: int| crate::state::is_first_with_id(once, user.id@, i);
        assert(again == first);
    }
    assert(crate::state::appended(once, user) =~= once);
}

/// Taking out a user who was just added to the end brings the list back, and also the
/// statuses if there was none for the login.
pub proof fn removing_undoes_adding(state: StateView, user: User)
    requires
        crate::state::lacks_id(state.users, user.id@),
    ensures
        state.with_user(user).without(state.users.len() as int).users == state.users,
        !state.status.contains_key(user.login@) ==> state.with_user(user).without(
            state.users.len() as int,
        ).status == state.status,
{
    let back = state.with_user(user).without(state.users.len() as int);
    assert(back.users =~= state.users);
    if !state.status.contains_key(user.login@) {
        assert(back.status =~= state.status);
    }
}

/// A name is valid exactly if it is not empty, holds no white space and stands for no
/// channel that is followed; it is a duplicate only of a user whose channel it stands for.
pub proof fn validity_tells_what_is_wrong(name: Seq<char>, users: Seq<User>)
    requires
        users.len() <= usize::MAX,
    ensures
        crate::input::validity_of(name, users) == Validity::Valid <==> name.len() > 0
            && !crate::text::has_white_space(name) && !crate::input::is_followed(users, name),
        crate::input::validity_of(name, users) matches Validity::Duplicate(i) ==> i < users.len()
            && crate::channel::same_channel(name, users[i as int].login@),
        crate::input::validity_of(name, users) != Validity::Unknown,
{
    if crate::input::is_followed(users, name) {
        first_named_exists(users, name);
    }
}

/// If a name stands for the channel of some user, there is a first one.
proof fn first_named_exists(users: Seq<User>, name: Seq<char>)
    requires
        crate::input::is_followed(users, name),
    ensures
        exists|i: int| crate::input::is_first_named(users, name, i),
    decreases users.len(),
{
    let k = choose|k: int|
        0 <= k < users.len() && crate::channel::same_channel(name, (#[trigger] users[k]).login@);
    let front = users.take(k);
    if crate::input::is_followed(front, name) {
        first_named_exists(front, name);
        let i = choose|i: int| crate::input::is_first_named(front, name, i);
        assert forall|j: int| 0 <= j < i implies !crate::channel::same_channel(
            name,
            (#[trigger] users[j]).login@,
        ) by {
            assert(front[j] == users[j]);
        }
        assert(crate::input::is_first_named(users, name, i));
    } else {
        assert forall|j: int| 0 <= j < k implies !crate::channel::same_channel(
            name,
            (#[trigger] users[j]).login@,
        ) by {
            assert(front[j] == users[j]);
        }
        assert(crate::input::is_first_named(users, name, k));
    }
}

/// A channel that was added is not added again: no name that stands for it is valid.
pub proof fn added_channels_are_not_valid(state: StateView, user: User, name: Seq<char>)
    requires
        crate::channel::same_channel(name, user.login@),
    ensures
        crate::input::is_followed(state.with_user(user).users, name),
        crate::input::validity_of(name, state.with_user(user).users) != Validity::Valid,
{
    adding_again_changes_nothing(state.users, user);
    let users = state.with_user(user).users;
    let i = users.index_of(user);
    assert(users[i] == user);
}

/// A channel that was taken out can be added again under any fitting name, unless another
/// user with the same channel is left.
pub proof fn removed_channels_can_be_added_again(state: StateView, index: int, name: Seq<char>)
    requires
        0 <= index < state.users.len(),
        name.len() > 0,
        !crate::text::has_white_space(name),
        forall|j: int|
            0 <= j < state.users.len() && j != index ==> !crate::channel::same_channel(
                name,
                (#[trigger] state.users[j]).login@,
            ),
    ensures
        crate::input::validity_of(name, state.without(index).users) == Validity::Valid,
{
    let users = state.without(index).users;
    assert forall|i: int| 0 <= i < users.len() implies !crate::channel::same_channel(
        name,
        (#[trigger] users[i]).login@,
    ) by {
        let j = if i < index {
            i
        } else {
            i + 1
        };
        assert(users[i] == state.users[j]);
    }
}

/// Adding a user brings in no login but that user's own, so that whoever watches the logins
/// from the start, and that of each user who is added, watches every followed channel.
pub proof fn added_logins_are_the_only_new_ones(state: StateView, user: User, login: Seq<char>)
    requires
        crate::state::has_login(state.with_user(user).users, login),
    ensures
        crate::state::has_login(state.users, login) || login == user.login@,
{
    let users = state.with_user(user).users;
    let i = choose|i: int| 0 <= i < users.len() && (#[trigger] users[i]).login@ == login;
    crate::state::appended_at(state.users, user, i);
}

/// A name that was sent off and for which no channel is found comes back into the line,
/// where it is marked as unknown until the text is changed.
pub proof fn refused_names_come_back(input: Input, events: Events, name: String, users: Seq<User>)
    requires
        input.pending,
        events.result == Some(Either::<User, String>::Right(name)),
    ensures
        input.text_after(events) == name@,
        !events.changed ==> input.validity_after(events, users) == Validity::Unknown,
{
}

/// The addresses of the previews of two channels differ if the logins do, so that the
/// picture that goes with a user is that of no other login.
pub proof fn previews_are_told_apart(a: Seq<char>, b: Seq<char>)
    ensures
        crate::images::preview_address(a) == crate::images::preview_address(b) ==> a == b,
{
    let pre = "https://static-cdn.jtvnw.net/previews-ttv/live_user_"@;
    let w = crate::text::decimal_nat(crate::images::PREVIEW_WIDTH as nat);
    let h = crate::text::decimal_nat(crate::images::PREVIEW_HEIGHT as nat);
    let pa = crate::images::preview_address(a);
    let pb = crate::images::preview_address(b);
    if pa == pb {
        assert(pa.len() == pre.len() + a.len() + "-"@.len() + w.len() + "x"@.len() + h.len()
            + ".jpg"@.len());
        assert(pb.len() == pre.len() + b.len() + "-"@.len() + w.len() + "x"@.len() + h.len()
            + ".jpg"@.len());
        assert forall|i: int| 0 <= i < a.len() implies a[i] == b[i] by {
            assert(pa[pre.len() + i] == a[i]);
            assert(pb[pre.len() + i] == b[i]);
        }
        assert(a =~= b);
    }
}

/// The preview that the status of a user's channel names goes with the user, and the
/// previews of other logins stay.
pub proof fn previews_go_with_their_users<I>(
    images: ImagesView<I>,
    user: User,
    stream: Stream,
    other: Seq<char>,
)
    requires
        stream.thumbnail_url@ == crate::images::preview_address(stream.user_login@),
        stream.user_login@ == user.login@,
    ensures
        ({
            let left = images.previews.remove(crate::images::preview_address(user.login@));
            &&& !left.contains_key(stream.thumbnail_url@)
            &&& other != user.login@ ==> left.contains_key(crate::images::preview_address(other))
                == images.previews.contains_key(crate::images::preview_address(other))
        }),
{
    previews_are_told_apart(user.login@, other);
}

/// A picture that came is found again and not asked for.
pub proof fn stored_pictures_are_found<I>(
    images: ImagesView<I>,
    url: Seq<char>,
    image: I,
    came: u128,
)
    ensures
        images.with(url, ImageKind::Static, image, came).statics[url] == image,
        images.with(url, ImageKind::Static, image, came).static_request(url) is None,
{
}

/// A preview that came is found again; for a minute nothing is asked for, and after that a
/// new one is, if the address is not empty.
pub proof fn stored_previews_last_a_minute<I>(
    images: ImagesView<I>,
    url: Seq<char>,
    kind: ImageKind,
    image: I,
    came: u128,
    now: u128,
)
    requires
        kind != ImageKind::Static,
    ensures
        images.with(url, kind, image, came).previews[url].image == image,
        now < came + 60_000_000_000 ==> images.with(url, kind, image, came).preview_request(
            url,
            now,
        ) is None,
        now >= came + 60_000_000_000 ==> images.with(url, kind, image, came).preview_request(
            url,
            now,
        ) == crate::images::request_for(ImageKind::Refresh, url),
{
}

/// An address that is held back stays so, whatever other fetches end and however its own ends,
/// unless that gave a preview: a picture that does not change is fetched once, and an address
/// that gave nothing is not tried again.
pub proof fn addresses_stay_held_back(
    seen: Set<Seq<char>>,
    url: Seq<char>,
    ended: Seq<char>,
    kind: ImageKind,
    got_data: bool,
)
    requires
        seen.contains(url),
    ensures
        seen.insert(ended).contains(url),
        ended != url || kind == ImageKind::Static || !got_data ==> crate::images::finished(
            seen,
            ended,
            kind,
            got_data,
        ).contains(url),
        ended == url && kind != ImageKind::Static && got_data ==> !crate::images::finished(
            seen,
            ended,
            kind,
            got_data,
        ).contains(url),
{
}

/// What happens to the fetches of pictures: one is asked for, or one is over.
pub enum FetchEvent {
    /// The picture at the address is asked for.
    Asked(Seq<char>),
    /// The fetch of the address, for that reason, is over, with data or without.
    Over(Seq<char>, ImageKind, bool),
}

/// The addresses that are held back after `events`.
pub open spec fn held_back(seen: Set<Seq<char>>, events: Seq<FetchEvent>) -> Set<Seq<char>>
    decreases events.len(),
{
    if events.len() == 0 {
        seen
    } else {
        let before = held_back(seen, events.drop_last());
        match events.last() {
            FetchEvent::Asked(url) => before.insert(url),
            FetchEvent::Over(url, kind, got_data) => crate::images::finished(
                before,
                url,
                kind,
                got_data,
            ),
        }
    }
}

/// Whatever happens, an address that was asked for stays held back as long as no fetch of it
/// gives a preview, so that no second fetch of it is started until then.
pub proof fn addresses_are_held_back_throughout(
    seen: Set<Seq<char>>,
    events: Seq<FetchEvent>,
    url: Seq<char>,
)
    requires
        forall|i: int|
            0 <= i < events.len() ==> (#[trigger] events[i] matches FetchEvent::Over(
                other,
                kind,
                got_data,
            ) ==> other != url || kind == ImageKind::Static || !got_data),
    ensures
        held_back(seen.insert(url), events).contains(url),
    decreases events.len(),
{
    if events.len() > 0 {
        let before = events.drop_last();
        assert forall|i: int| 0 <= i < before.len() implies (#[trigger] before[i] matches FetchEvent::Over(
            other,
            kind,
            got_data,
        ) ==> other != url || kind == ImageKind::Static || !got_data) by {
            assert(before[i] == events[i]);
        }
        addresses_are_held_back_throughout(seen, before, url);
        assert(events.last() == events[events.len() - 1]);
    }
}

/// Where the clocks are moved, only the text of a stream's start changes: how long the stream
/// has run is said alike at every offset.
pub proof fn offsets_move_only_the_start(stream: Stream, now: int, nanos: int, a: i32, b: i32)
    requires
        crate::info::told(stream, now, nanos, a) is Some,
        crate::info::told(stream, now, nanos, b) is Some,
    ensures
        ({
            let there = crate::info::told(stream, now, nanos, b)->Some_0;
            crate::info::told(stream, now, nanos, a) == Some(
                crate::info::StreamInfoView {
                    started_at: crate::info::local_start_of(stream, a)->Some_0,
                    ..there
                },
            )
        }),
{
}

/// Of the news about a channel the last counts.
pub proof fn last_news_counts(
    map: Map<Seq<char>, Status>,
    updates: Seq<(String, Status)>,
    last: int,
)
    requires
        0 <= last < updates.len(),
        forall|j: int| last < j < updates.len() ==> (#[trigger] updates[j]).0@ != updates[last].0@,
    ensures
        crate::status::updated(map, updates).contains_key(updates[last].0@),
        crate::status::updated(map, updates)[updates[last].0@] == updates[last].1,
    decreases updates.len(),
{
    if last < updates.len() - 1 {
        last_news_counts(map, updates.drop_last(), last);
    }
}

} // verus!
