//! The line in which the name of a channel is typed.
use vstd::prelude::*;

use crate::channel::Channel;
use crate::either::Either;
use crate::helix::User;
use crate::state::{State, StateView};
use crate::text::contains_white_space;

verus! {

/// What is wrong with the typed name, if anything is.
#[derive(Debug, Copy, Clone, PartialEq, Eq, Structural)]
pub enum Validity {
    Empty,
    Valid,
    /// The channel is already followed, at this place in the list.
    Duplicate(usize),
    ContainsSpaces,
    /// There is no such channel.
    Unknown,
}

impl Default for Validity {
    fn default() -> (r: Self)
        ensures
            r == Validity::Empty,
    {
        Validity::Empty
    }
}

impl Validity {
    /// Whether the name is written in the ordinary color, not in that of an error.
    pub fn is_ordinary(&self) -> (r: bool)
        ensures
            r == (*self == Validity::Empty || *self == Validity::Valid),
    {
        match self {
            Validity::Empty | Validity::Valid => true,
            _ => false,
        }
    }

    /// What is said about a name while the pointer is on it.
    pub open spec fn hint_text(self) -> Option<Seq<char>> {
        match self {
            Validity::ContainsSpaces => Some("The input cannot contain spaces"@),
            Validity::Unknown => Some("Unknown Twitch channel"@),
            _ => None,
        }
    }

    /// What is said about a name while the pointer is on it.
    pub fn hint(&self) -> (r: Option<&'static str>)
        ensures
            crate::text::option_str(r) == self.hint_text(),
    {
        match self {
            Validity::ContainsSpaces => Some("The input cannot contain spaces"),
            Validity::Unknown => Some("Unknown Twitch channel"),
            _ => None,
        }
    }
}

/// What the list of channels does in a frame.
#[derive(Debug, Copy, Clone, PartialEq, Eq, Structural)]
pub enum ListAction {
    Nothing,
    ScrollToBottom,
    /// The user at this place in the list is pointed out.
    Highlight(usize),
}

impl Default for ListAction {
    fn default() -> (r: Self)
        ensures
            r == ListAction::Nothing,
    {
        ListAction::Nothing
    }
}

impl ListAction {
    /// Whether the list keeps its end in sight, which it does unless it points a user out.
    pub fn sticks_to_bottom(&self) -> (r: bool)
        ensures
            r == !(*self is Highlight),
    {
        match self {
            ListAction::Highlight(_) => false,
            _ => true,
        }
    }
}

/// Whether `users[i]` is the first user whose channel `name` stands for.
pub open spec fn is_first_named(users: Seq<User>, name: Seq<char>, i: int) -> bool {
    &&& 0 <= i < users.len()
    &&& crate::channel::same_channel(name, users[i].login@)
    &&& forall|j: int|
        0 <= j < i ==> !crate::channel::same_channel(name, (#[trigger] users[j]).login@)
}

/// Whether `name` stands for the channel of some user in `users`.
pub open spec fn is_followed(users: Seq<User>, name: Seq<char>) -> bool {
    exists|i: int|
        0 <= i < users.len() && crate::channel::same_channel(name, (#[trigger] users[i]).login@)
}

/// What is wrong with `name` while the users in `users` are followed: an empty name and a
/// name with white space come before one that is already followed.
pub open spec fn validity_of(name: Seq<char>, users: Seq<User>) -> Validity {
    if name.len() == 0 {
        Validity::Empty
    } else if crate::text::has_white_space(name) {
        Validity::ContainsSpaces
    } else if is_followed(users, name) {
        Validity::Duplicate((choose|i: int| is_first_named(users, name, i)) as usize)
    } else {
        Validity::Valid
    }
}

/// The line: the typed text, what is wrong with it, and whether the answer about a channel
/// is still to come.
pub struct Input {
    pub buffer: String,
    pub validity: Validity,
    pub pending: bool,
}

impl Default for Input {
    fn default() -> (r: Self)
        ensures
            r.buffer@ == Seq::<char>::empty(),
            r.validity == Validity::Empty,
            !r.pending,
    {
        Input { buffer: String::new(), validity: Validity::default(), pending: false }
    }
}

/// What happened to the line in a frame: the answer that came, if one did, whether the text
/// was changed, and whether it was sent off.
pub struct Events {
    pub result: Option<Either<User, String>>,
    pub changed: bool,
    pub submitted: bool,
}

/// What has to be done after a frame.
pub struct Outcome {
    /// The channel with this login has to be watched.
    pub watch: Option<String>,
    /// The channel with this name has to be looked up.
    pub lookup: Option<String>,
    /// What is said while the pointer is on the line.
    pub hint: Option<&'static str>,
}

/// The user that came as an answer, if the answer was awaited.
pub open spec fn found_user(pending: bool, result: Option<Either<User, String>>) -> Option<User> {
    match result {
        Some(Either::Left(user)) if pending => Some(user),
        _ => None,
    }
}

/// The name that came back because there is no such channel, if the answer was awaited.
pub open spec fn refused_name(pending: bool, result: Option<Either<User, String>>) -> Option<
    String,
> {
    match result {
        Some(Either::Right(name)) if pending => Some(name),
        _ => None,
    }
}

/// Whether a frame with the given events takes the line from `before` to `after`, the list's
/// action and the state likewise, and comes to `outcome`.
///
/// A user that was found is added and watched, and a name that was refused comes back into
/// the line. A changed text is judged anew. A valid text that is sent off is looked up, and
/// leaves the line empty. The user whose channel is already followed is pointed out, and the
/// list scrolls to its end when a user was found or a text is sent off.
pub open spec fn displayed(
    before: Input,
    after: Input,
    events: Events,
    action_before: ListAction,
    action_after: ListAction,
    state_before: StateView,
    state_after: StateView,
    outcome: Outcome,
) -> bool {
    let found = found_user(before.pending, events.result);
    let text = before.text_after(events);
    let sends = after.validity == Validity::Valid && events.submitted;
    &&& state_after == (match found {
        Some(user) => state_before.with_user(user),
        None => state_before,
    })
    &&& after.validity == before.validity_after(events, state_after.users)
    &&& after.buffer@ == (if sends {
        seq![]
    } else {
        text
    })
    &&& after.pending == (sends || before.pending && events.result is None)
    &&& action_after == (match after.validity {
        Validity::Duplicate(index) => ListAction::Highlight(index),
        _ => if sends || found is Some {
            ListAction::ScrollToBottom
        } else {
            action_before
        },
    })
    &&& crate::text::option_text(outcome.watch) == (match found {
        Some(user) => Some(user.login@),
        None => None,
    })
    &&& crate::text::option_text(outcome.lookup) == (if sends {
        Some(text)
    } else {
        None
    })
    &&& crate::text::option_str(outcome.hint) == after.validity.hint_text()
}

impl Input {
    /// The text of the line once the answer is in: a name that was refused takes the place
    /// of what was typed since.
    pub open spec fn text_after(self, events: Events) -> Seq<char> {
        match refused_name(self.pending, events.result) {
            Some(name) => name@,
            None => self.buffer@,
        }
    }

    /// What is wrong with the text once the answer is in and the users are `users`.
    pub open spec fn validity_after(self, events: Events, users: Seq<User>) -> Validity {
        if events.changed {
            validity_of(self.text_after(events), users)
        } else if refused_name(self.pending, events.result) is Some {
            Validity::Unknown
        } else {
            self.validity
        }
    }

    /// Takes one frame's events in: enters the answer, judges a changed text, and sends a
    /// valid one off.
    ///
    /// A user that was found is added to `state`. The user whose channel is already followed
    /// is pointed out in `list_action`, and the list scrolls to its end when a user was found
    /// or a name is sent off.
    pub fn display(
        &mut self,
        events: Events,
        list_action: &mut ListAction,
        state: &mut State,
    ) -> (r: Outcome)
        ensures
            displayed(
                *old(self),
                *final(self),
                events,
                *old(list_action),
                *final(list_action),
                old(state)@,
                final(state)@,
                r,
            ),
            old(state)@.in_step() ==> final(state)@.in_step(),
    {
        let mut watch: Option<String> = None;
        let mut lookup: Option<String> = None;
        if self.pending {
            match events.result {
                Some(Either::Left(user)) => {
                    watch = Some(user.login.clone());
                    state.add(user);
                    *list_action = ListAction::ScrollToBottom;
                    self.pending = false;
                },
                Some(Either::Right(name)) => {
                    self.buffer = name;
                    self.validity = Validity::Unknown;
                    self.pending = false;
                },
                None => {},
            }
        }
        if events.changed {
            self.validity = self.check_validity(state);
        }
        match self.validity {
            Validity::Valid => {
                if events.submitted {
                    lookup = Some(self.try_add_channel());
                    self.pending = true;
                    *list_action = ListAction::ScrollToBottom;
                }
            },
            Validity::Duplicate(index) => {
                *list_action = ListAction::Highlight(index);
            },
            _ => {},
        }
        Outcome { watch, lookup, hint: self.validity.hint() }
    }

    /// Sends the text off: hands it over to be looked up, and empties the line.
    pub fn try_add_channel(&mut self) -> (r: String)
        ensures
            r@ == old(self).buffer@,
            final(self).buffer@ == Seq::<char>::empty(),
            final(self).validity == old(self).validity,
            final(self).pending == old(self).pending,
    {
        let mut text = String::new();
        std::mem::swap(&mut text, &mut self.buffer);
        text
    }

    /// Turns the answer about the channel `name` into a result: the first user that was
    /// found, or else the name.
    pub fn lookup_result(name: String, reply: Option<Vec<User>>) -> (r: Either<User, String>)
        ensures
            r == (match reply {
                Some(users) => if users@.len() > 0 {
                    Either::Left(users@[0])
                } else {
                    Either::Right(name)
                },
                None => Either::Right(name),
            }),
    {
        match reply {
            Some(mut users) => {
                if users.len() == 0 {
                    Either::Right(name)
                } else {
                    Either::Left(users.remove(0))
                }
            },
            None => Either::Right(name),
        }
    }

    /// Judges the text while the users in `state` are followed.
    pub fn check_validity(&self, state: &State) -> (r: Validity)
        ensures
            r == validity_of(self.buffer@, state@.users),
    {
        if self.buffer.as_str().is_empty() {
            return Validity::Empty;
        }
        if contains_white_space(self.buffer.as_str()) {
            return Validity::ContainsSpaces;
        }
        let ghost name = self.buffer@;
        let ghost users = state@.users;
        let mut i: usize = 0;
        while i < state.users.list.len()
            invariant
                name == self.buffer@,
                users == state@.users,
                name.len() > 0,
                !crate::text::has_white_space(name),
                i <= users.len(),
                forall|j: int|
                    0 <= j < i ==> !crate::channel::same_channel(
                        name,
                        (#[trigger] users[j]).login@,
                    ),
            decreases users.len() - i,
        {
            if Channel::is_eq(self.buffer.as_str(), state.users.list[i].login.as_str()) {
                assert(is_first_named(users, name, i as int));
                assert((choose|k: int| is_first_named(users, name, k)) == i);
                assert(is_followed(users, name));
                return Validity::Duplicate(i);
            }
            i = i + 1;
        }
        Validity::Valid
    }
}

/// A name is judged by the first of these that holds: it is empty, a character of it is white
/// space, or it stands for the channel of a user, of whom the first is pointed out.
pub proof fn names_are_judged_in_order(name: Seq<char>, users: Seq<User>, k: int)
    requires
        users.len() <= usize::MAX,
    ensures
        name.len() == 0 <==> validity_of(name, users) == Validity::Empty,
        name.len() > 0 && (exists|i: int|
            0 <= i < name.len() && crate::text::white_space(#[trigger] name[i])) <==> validity_of(
            name,
            users,
        ) == Validity::ContainsSpaces,
        name.len() > 0 && !crate::text::has_white_space(name) && 0 <= k < users.len()
            && crate::channel::same_channel(name, users[k].login@) && (forall|j: int|
            0 <= j < k ==> !crate::channel::same_channel(name, (#[trigger] users[j]).login@))
            ==> validity_of(name, users) == Validity::Duplicate(k as usize),
        name.len() > 0 && !crate::text::has_white_space(name) && (forall|j: int|
            0 <= j < users.len() ==> !crate::channel::same_channel(
                name,
                (#[trigger] users[j]).login@,
            )) ==> validity_of(name, users) == Validity::Valid,
{
    if name.len() > 0 && !crate::text::has_white_space(name) && 0 <= k < users.len()
        && crate::channel::same_channel(name, users[k].login@) && (forall|j: int|
        0 <= j < k ==> !crate::channel::same_channel(name, (#[trigger] users[j]).login@)) {
        assert(is_followed(users, name));
        assert(is_first_named(users, name, k));
        let first = choose|i: int| is_first_named(users, name, i);
        assert(first == k);
    }
}

/// What is said about a name: why it cannot be looked up, if it is not that it is followed.
pub proof fn hints_say_what_is_wrong(validity: Validity)
    ensures
        validity == Validity::ContainsSpaces ==> validity.hint_text() == Some(
            "The input cannot contain spaces"@,
        ),
        validity == Validity::Unknown ==> validity.hint_text() == Some("Unknown Twitch channel"@),
        validity != Validity::ContainsSpaces && validity != Validity::Unknown
            ==> validity.hint_text() is None,
{
}

/// In a frame an answer changes something only if it was awaited: a user who was found is
/// added and watched, and the name of a channel that there is not comes back into the line,
/// as unknown. A text that was changed is judged anew, with a user who was just found among
/// the others. Only a valid text that was sent off is looked up; it leaves the line and is
/// awaited. The list points out the user whose channel is followed already, or else goes to
/// its end when a user was found or a text was sent off.
pub proof fn frames_follow_the_events(
    before: Input,
    after: Input,
    events: Events,
    action_before: ListAction,
    action_after: ListAction,
    state_before: StateView,
    state_after: StateView,
    outcome: Outcome,
)
    requires
        displayed(
            before,
            after,
            events,
            action_before,
            action_after,
            state_before,
            state_after,
            outcome,
        ),
    ensures
        before.pending && (events.result matches Some(Either::Left(user)) && {
            &&& state_after == state_before.with_user(user)
            &&& outcome.watch matches Some(login) && login@ == user.login@
        }) || !(before.pending && events.result is Some && events.result->Some_0 is Left) && {
            &&& state_after == state_before
            &&& outcome.watch is None
        },
        ({
            let refused = before.pending && events.result is Some && events.result->Some_0 is Right;
            let text = if refused {
                events.result->Some_0->Right_0@
            } else {
                before.buffer@
            };
            let sent = after.validity == Validity::Valid && events.submitted;
            &&& events.changed ==> after.validity == validity_of(text, state_after.users)
            &&& !events.changed && refused ==> after.validity == Validity::Unknown
            &&& !events.changed && !refused ==> after.validity == before.validity
            &&& sent ==> after.buffer@.len() == 0 && after.pending && (
            outcome.lookup matches Some(name) && name@ == text)
            &&& !sent ==> after.buffer@ == text && outcome.lookup is None && (after.pending <==> before.pending
                && events.result is None)
        }),
        ({
            let found = before.pending && events.result is Some && events.result->Some_0 is Left;
            let sent = after.validity == Validity::Valid && events.submitted;
            &&& after.validity matches Validity::Duplicate(i) ==> action_after
                == ListAction::Highlight(i)
            &&& !(after.validity is Duplicate) && (found || sent) ==> action_after
                == ListAction::ScrollToBottom
            &&& !(after.validity is Duplicate) && !found && !sent ==> action_after == action_before
        }),
        match after.validity {
            Validity::ContainsSpaces => outcome.hint matches Some(hint) && hint@
                == "The input cannot contain spaces"@,
            Validity::Unknown => outcome.hint matches Some(hint) && hint@
                == "Unknown Twitch channel"@,
            _ => outcome.hint is None,
        },
{
}

} // verus!
