//! The list of channels as it is shown: first those that are live, then the others.
use vstd::prelude::*;
use vstd::string::StringExecFns;

use crate::helix::User;
use crate::images::{ImageKind, Images};
use crate::input::ListAction;
use crate::state::State;
use crate::status::Status;

verus! {

/// The places in the list of users at which the channels stand that are live, and those
/// of the channels that are not; both in the order of the list.
pub struct Roster {
    pub online: Vec<usize>,
    pub offline: Vec<usize>,
}

/// Whether the channel of the user at `i` is live.
pub open spec fn is_live(state: crate::state::StateView, i: int) -> bool {
    state.status[state.users[i].login@] is Online
}

/// The places below `end` of the users whose channels are live, or those of the users whose
/// channels are not, in order.
pub open spec fn places(state: crate::state::StateView, end: int, live: bool) -> Seq<usize>
    decreases end,
{
    if end <= 0 {
        seq![]
    } else if is_live(state, end - 1) == live {
        places(state, end - 1, live).push((end - 1) as usize)
    } else {
        places(state, end - 1, live)
    }
}

/// The list as it is shown: the places of the users whose channels are live, then the others.
pub open spec fn shown_order(state: crate::state::StateView) -> Seq<usize> {
    places(state, state.users.len() as int, true) + places(state, state.users.len() as int, false)
}

impl Roster {
    /// The order in which the channels in `state` are shown.
    pub fn new(state: &State) -> (r: Self)
        requires
            state@.in_step(),
        ensures
            r.online@ == places(state@, state@.users.len() as int, true),
            r.offline@ == places(state@, state@.users.len() as int, false),
    {
        let mut online: Vec<usize> = Vec::new();
        let mut offline: Vec<usize> = Vec::new();
        let mut i: usize = 0;
        while i < state.users.list.len()
            invariant
                state@.in_step(),
                i <= state@.users.len(),
                online@ == places(state@, i as int, true),
                offline@ == places(state@, i as int, false),
            decreases state@.users.len() - i,
        {
            let login = state.users.list[i].login.as_str();
            assert(state@.status.contains_key(state@.users[i as int].login@));
            if state.status.get(login).is_online() {
                online.push(i);
            } else {
                offline.push(i);
            }
            i = i + 1;
        }
        Roster { online, offline }
    }

    /// Whether a line is drawn before the channels that are not live.
    pub fn has_separator(&self) -> (r: bool)
        ensures
            r == (self.offline@.len() > 0),
    {
        self.offline.len() > 0
    }
}

/// A user in the list, the place of the user in it, and what the list does in this frame.
pub struct Entry<'a> {
    pub index: usize,
    pub user: &'a User,
    pub action: ListAction,
}

/// How the picture and the name of a user are shown.
pub struct PictureName<'a, I> {
    /// The picture, if it is there.
    pub image: Option<&'a I>,
    /// The picture that has to be fetched.
    pub request: Option<(String, ImageKind)>,
    /// Whether the name is written in the color of a warning.
    pub highlighted: bool,
    /// What is said while the pointer is on the name.
    pub hint: Option<String>,
}

/// What follows from a click on the name of a user.
pub struct Clicked {
    /// The page that is opened.
    pub open_url: Option<String>,
    /// What is said while the pointer is on the name, which the list then scrolls to.
    pub hint: Option<&'static str>,
}

impl<'a> Entry<'a> {
    /// Whether the list points this user out.
    pub fn is_highlighted(&self) -> (r: bool)
        ensures
            r == (self.action == ListAction::Highlight(self.index)),
    {
        match self.action {
            ListAction::Highlight(index) => index == self.index,
            _ => false,
        }
    }

    /// How the picture and the name are shown; with the command key held, the id of the
    /// user is said.
    pub fn display_picture_name<'b, I>(
        &self,
        images: &'b Images<I>,
        command_only: bool,
    ) -> (r: PictureName<'b, I>)
        ensures
            r.image == (if images@.statics.contains_key(self.user.profile_image_url@) {
                Some(&images@.statics[self.user.profile_image_url@])
            } else {
                None
            }),
            crate::images::request_view(r.request) == images@.static_request(
                self.user.profile_image_url@,
            ),
            r.highlighted == (self.action == ListAction::Highlight(self.index)),
            crate::text::option_text(r.hint) == (if command_only {
                Some("user id: "@ + self.user.id@)
            } else {
                None
            }),
    {
        let (image, request) = images.get_static(self.user.profile_image_url.as_str());
        let hint = if command_only {
            let mut text = String::from_str("user id: ");
            text.append(self.user.id.as_str());
            Some(text)
        } else {
            None
        };
        PictureName { image, request, highlighted: self.is_highlighted(), hint }
    }

    /// Opens the page of the channel on a double click, and says of a user that is pointed
    /// out that the channel is already followed.
    pub fn handle_double_click(&self, double_clicked: bool) -> (r: Clicked)
        ensures
            crate::text::option_text(r.open_url) == (if double_clicked {
                Some("https://twitch.tv/"@ + self.user.login@)
            } else {
                None
            }),
            crate::text::option_str(r.hint) == (if self.action == ListAction::Highlight(
                self.index,
            ) {
                Some("This channel has already been added"@)
            } else {
                None
            }),
    {
        let open_url = if double_clicked {
            let mut url = String::from_str("https://twitch.tv/");
            url.append(self.user.login.as_str());
            Some(url)
        } else {
            None
        };
        let hint = if self.is_highlighted() {
            Some("This channel has already been added")
        } else {
            None
        };
        Clicked { open_url, hint }
    }

    /// Notes that the user is to be taken out if the button for it was clicked.
    pub fn handle_remove(&self, clicked: bool, to_remove: &mut Option<usize>)
        ensures
            *final(to_remove) == (if clicked {
                Some(self.index)
            } else {
                *old(to_remove)
            }),
    {
        if clicked {
            *to_remove = Some(self.index);
        }
    }
}

/// The preview that is shown with the stream at `thumbnail_url` while the shift key is held,
/// and what has to be fetched for it at the time `now`.
pub fn hovered_preview<'a, I>(
    images: &'a Images<I>,
    thumbnail_url: &str,
    shift_only: bool,
    now: u128,
) -> (r: (Option<&'a I>, Option<(String, ImageKind)>))
    ensures
        r.0 == (if shift_only && images@.previews.contains_key(thumbnail_url@) {
            Some(&images@.previews[thumbnail_url@].image)
        } else {
            None
        }),
        crate::images::request_view(r.1) == (if shift_only {
            images@.preview_request(thumbnail_url@, now)
        } else {
            None
        }),
{
    if shift_only {
        images.get_preview(thumbnail_url, now)
    } else {
        (None, None)
    }
}

/// The places below `end` are in order, and they are those of the users they should be of.
proof fn places_hold(state: crate::state::StateView, end: int, live: bool)
    requires
        end <= state.users.len() <= usize::MAX,
    ensures
        forall|a: int, b: int|
            0 <= a < b < places(state, end, live).len() ==> #[trigger] places(state, end, live)[a]
                < #[trigger] places(state, end, live)[b],
        forall|a: int|
            0 <= a < places(state, end, live).len() ==> (#[trigger] places(state, end, live)[a])
                < end && is_live(state, places(state, end, live)[a] as int) == live,
        forall|i: int|
            0 <= i < end && #[trigger] is_live(state, i) == live ==> places(
                state,
                end,
                live,
            ).contains(i as usize),
    decreases end,
{
    if end > 0 {
        places_hold(state, end - 1, live);
        let before = places(state, end - 1, live);
        let all = places(state, end, live);
        assert forall|i: int|
            0 <= i < end && #[trigger] is_live(state, i) == live implies all.contains(
            i as usize,
        ) by {
            if i < end - 1 {
                assert(before.contains(i as usize));
                assert(all[before.index_of(i as usize)] == i as usize);
            } else {
                assert(all[before.len() as int] == i as usize);
            }
        }
    }
}

/// Every user stands in the list that is shown exactly once, and nobody else does.
pub proof fn everyone_is_shown_once(state: crate::state::StateView, i: usize)
    requires
        state.users.len() <= usize::MAX,
    ensures
        shown_order(state).contains(i) <==> i < state.users.len(),
        shown_order(state).no_duplicates(),
{
    let n = state.users.len() as int;
    let online = places(state, n, true);
    let offline = places(state, n, false);
    let both = shown_order(state);
    places_hold(state, n, true);
    places_hold(state, n, false);
    if i < n {
        if is_live(state, i as int) {
            assert(online.contains(i));
            assert(both[online.index_of(i)] == i);
        } else {
            assert(offline.contains(i));
            assert(both[online.len() + offline.index_of(i)] == i);
        }
    }
    assert forall|a: int, b: int|
        0 <= a < both.len() && 0 <= b < both.len() && a != b implies both[a] != both[b] by {
        if a < online.len() && b >= online.len() {
            assert(is_live(state, online[a] as int));
            assert(!is_live(state, offline[b - online.len()] as int));
        } else if b < online.len() && a >= online.len() {
            assert(is_live(state, online[b] as int));
            assert(!is_live(state, offline[a - online.len()] as int));
        }
    }
}

/// The status of the channel at `a` in the list that is shown.
pub open spec fn status_shown(state: crate::state::StateView, a: int) -> Status {
    state.status[state.users[shown_order(state)[a] as int].login@]
}

/// The list that is shown is sorted by the order of the statuses: no channel stands before
/// one that it comes after.
pub proof fn live_channels_come_first(state: crate::state::StateView, a: int, b: int)
    requires
        state.users.len() <= usize::MAX,
        0 <= a < b < shown_order(state).len(),
    ensures
        !crate::status::comes_after(status_shown(state, a), status_shown(state, b)),
{
    let n = state.users.len() as int;
    let online = places(state, n, true);
    let offline = places(state, n, false);
    places_hold(state, n, true);
    places_hold(state, n, false);
    if a >= online.len() {
        assert(!is_live(state, offline[a - online.len()] as int));
        assert(!is_live(state, offline[b - online.len()] as int));
    } else {
        assert(is_live(state, online[a] as int));
    }
}

/// The places of the channels that are live, and those of the others, are all of them, each
/// once, in the order of the list.
pub proof fn groups_keep_the_order_of_the_list(
    state: crate::state::StateView,
    live: bool,
    a: int,
    b: int,
    i: usize,
)
    requires
        state.users.len() <= usize::MAX,
    ensures
        ({
            let group = places(state, state.users.len() as int, live);
            &&& 0 <= a < b < group.len() ==> group[a] < group[b]
            &&& group.contains(i) <==> i < state.users.len() && (
            state.status[state.users[i as int].login@] is Online <==> live)
        }),
{
    let n = state.users.len() as int;
    let group = places(state, n, live);
    places_hold(state, n, live);
    if group.contains(i) {
        assert(group[group.index_of(i)] == i);
        assert(is_live(state, i as int) == live);
    }
    if i < n && (state.status[state.users[i as int].login@] is Online <==> live) {
        assert(is_live(state, i as int) == live);
    }
}

} // verus!
