//! The followed channels and what is known of them.
use vstd::hash_map::StringHashMap;
use vstd::prelude::*;

use crate::helix::User;
use crate::images::{preview_url, Images};
use crate::status::{Status, StatusMap};

verus! {

/// Whether `list[i]` is the first user in `list` with the given id.
pub open spec fn is_first_with_id(list: Seq<User>, id: Seq<char>, i: int) -> bool {
    &&& 0 <= i < list.len()
    &&& list[i].id@ == id
    &&& forall|j: int| 0 <= j < i ==> (#[trigger] list[j]).id@ != id
}

/// Whether no user in `list` has the given id.
pub open spec fn lacks_id(list: Seq<User>, id: Seq<char>) -> bool {
    forall|j: int| 0 <= j < list.len() ==> (#[trigger] list[j]).id@ != id
}

/// `list` after `user` was added: in the place of the first user with the same id, or
/// behind the others.
pub open spec fn appended(list: Seq<User>, user: User) -> Seq<User> {
    if lacks_id(list, user.id@) {
        list.push(user)
    } else {
        list.update(choose|i: int| is_first_with_id(list, user.id@, i), user)
    }
}

/// Whether some user in `list` has the given login.
pub open spec fn has_login(list: Seq<User>, login: Seq<char>) -> bool {
    exists|i: int| 0 <= i < list.len() && (#[trigger] list[i]).login@ == login
}

/// The users whose channels are followed, in the order in which they were added.
pub struct Users {
    pub list: Vec<User>,
}

impl View for Users {
    type V = Seq<User>;

    open spec fn view(&self) -> Seq<User> {
        self.list@
    }
}

impl Default for Users {
    fn default() -> (r: Self)
        ensures
            r@ == Seq::<User>::empty(),
    {
        Users { list: Vec::new() }
    }
}

impl Users {
    /// Adds `user`, in the place of the one who has the same id if there is one.
    pub fn append(&mut self, user: User)
        ensures
            final(self)@ == appended(old(self)@, user),
    {
        let mut i: usize = 0;
        while i < self.list.len()
            invariant
                i <= self@.len(),
                self@ == old(self)@,
                forall|j: int| 0 <= j < i ==> (#[trigger] self@[j]).id@ != user.id@,
            decreases self@.len() - i,
        {
            if self.list[i].id == user.id {
                let ghost first = choose|k: int| is_first_with_id(self@, user.id@, k);
                assert(is_first_with_id(self@, user.id@, i as int));
                assert(first == i);
                assert(!lacks_id(self@, user.id@));
                self.list.set(i, user);
                return;
            }
            i = i + 1;
        }
        self.list.push(user);
    }
}

/// What is kept between two frames: the users, the status of each channel and whether its
/// details are shown, both by the login.
pub struct State {
    pub users: Users,
    pub status: StatusMap,
    pub shown: StringHashMap<bool>,
}

/// [`State`] as a sequence and two maps.
#[verifier::ext_equal]
pub struct StateView {
    pub users: Seq<User>,
    pub status: Map<Seq<char>, Status>,
    pub shown: Map<Seq<char>, bool>,
}

impl View for State {
    type V = StateView;

    open spec fn view(&self) -> StateView {
        StateView { users: self.users@, status: self.status@, shown: self.shown@ }
    }
}

impl StateView {
    /// Nothing is followed.
    pub open spec fn empty() -> Self {
        StateView { users: Seq::empty(), status: Map::empty(), shown: Map::empty() }
    }

    /// The users in `list` are followed; none is known to be live and no details are shown.
    pub open spec fn fresh(list: Seq<User>) -> Self {
        StateView {
            users: list,
            status: Map::new(|login: Seq<char>| has_login(list, login), |login| Status::Offline),
            shown: Map::new(|login: Seq<char>| has_login(list, login), |login| false),
        }
    }

    /// `user` was added; the channel is not known to be live and no details are shown.
    pub open spec fn with_user(self, user: User) -> Self {
        StateView {
            users: appended(self.users, user),
            status: self.status.insert(user.login@, Status::Offline),
            shown: self.shown.insert(user.login@, false),
        }
    }

    /// The user at `index` was taken out, and the status of the channel with it.
    pub open spec fn without(self, index: int) -> Self {
        StateView {
            users: self.users.remove(index),
            status: self.status.remove(self.users[index].login@),
            shown: self.shown,
        }
    }

    /// No other user has the login of the user at `index`.
    pub open spec fn sole_login(self, index: int) -> bool {
        forall|j: int|
            0 <= j < self.users.len() && j != index ==> (#[trigger] self.users[j]).login@
                != self.users[index].login@
    }

    /// Every followed channel has a status and is marked as shown or not.
    pub open spec fn in_step(self) -> bool {
        forall|i: int|
            0 <= i < self.users.len() ==> {
                &&& self.status.contains_key((#[trigger] self.users[i]).login@)
                &&& self.shown.contains_key(self.users[i].login@)
            }
    }
}

impl Default for State {
    fn default() -> (r: Self)
        ensures
            r@ == StateView::empty(),
            r@.in_step(),
    {
        State {
            users: Users::default(),
            status: StatusMap::default(),
            shown: StringHashMap::new(),
        }
    }
}

impl State {
    /// Starts with the users that were saved; with none if they could not be read.
    pub fn load(following: Option<Users>) -> (r: Self)
        ensures
            r@ == StateView::fresh(
                match following {
                    Some(users) => users@,
                    None => Seq::empty(),
                },
            ),
            r@.in_step(),
    {
        let users = match following {
            Some(users) => users,
            None => Users::default(),
        };
        let mut status = StatusMap::default();
        let mut shown: StringHashMap<bool> = StringHashMap::new();
        let ghost list = users@;
        let mut i: usize = 0;
        assert(StateView::fresh(list.take(0)).status =~= status@);
        assert(StateView::fresh(list.take(0)).shown =~= shown@);
        while i < users.list.len()
            invariant
                list == users@,
                i <= list.len(),
                status@ == StateView::fresh(list.take(i as int)).status,
                shown@ == StateView::fresh(list.take(i as int)).shown,
            decreases list.len() - i,
        {
            let login = users.list[i].login.clone();
            proof {
                fresh_step(list, i as int);
            }
            status.insert(login.clone(), Status::default());
            shown.insert(login, false);
            i = i + 1;
        }
        assert(list.take(i as int) =~= list);
        State { users, status, shown }
    }

    /// What is saved: the users who are followed.
    pub fn following(&self) -> (r: &Users)
        ensures
            r@ == self@.users,
    {
        &self.users
    }

    /// The logins of the users, in order: the channels to be watched from the start.
    pub fn logins(&self) -> (r: Vec<String>)
        ensures
            r@.len() == self@.users.len(),
            forall|i: int| 0 <= i < r@.len() ==> (#[trigger] r@[i])@ == self@.users[i].login@,
    {
        let mut logins: Vec<String> = Vec::new();
        let mut i: usize = 0;
        while i < self.users.list.len()
            invariant
                i <= self@.users.len(),
                logins@.len() == i,
                forall|j: int| 0 <= j < i ==> (#[trigger] logins@[j])@ == self@.users[j].login@,
            decreases self@.users.len() - i,
        {
            logins.push(self.users.list[i].login.clone());
            i = i + 1;
        }
        logins
    }

    /// Adds `user`, whose channel is not known to be live.
    pub fn add(&mut self, user: User)
        ensures
            final(self)@ == old(self)@.with_user(user),
            old(self)@.in_step() ==> final(self)@.in_step(),
    {
        proof {
            if self@.in_step() {
                adding_keeps_in_step(self@, user);
            }
        }
        self.status.insert(user.login.clone(), Status::default());
        self.shown.insert(user.login.clone(), false);
        self.users.append(user);
    }

    /// Takes out the user at `index`, if there is one, with the status of the channel and
    /// its pictures.
    pub fn remove<I>(&mut self, index: usize, images: &mut Images<I>)
        ensures
            index >= old(self)@.users.len() ==> *final(self) == *old(self) && *final(images) == *old(
                images,
            ),
            index < old(self)@.users.len() ==> {
                let user = old(self)@.users[index as int];
                &&& final(self)@ == old(self)@.without(index as int)
                &&& final(images)@.statics == old(images)@.statics.remove(user.profile_image_url@)
                &&& final(images)@.previews == old(images)@.previews.remove(
                    crate::images::preview_address(user.login@),
                )
                &&& old(self)@.in_step() ==> (final(self)@.in_step() <==> old(self)@.sole_login(
                    index as int,
                ))
            },
    {
        if index >= self.users.list.len() {
            return;
        }
        proof {
            if self@.in_step() {
                removing_keeps_in_step(self@, index as int);
            }
        }
        let user = self.users.list.remove(index);
        self.status.remove(user.login.as_str());
        let preview = preview_url(user.login.as_str());
        images.remove(user.profile_image_url.as_str(), preview.as_str());
    }

    /// Whether the details of the channel `login`, which must be known, are shown.
    pub fn is_shown(&self, login: &str) -> (r: bool)
        requires
            self@.shown.contains_key(login@),
        ensures
            r == self@.shown[login@],
    {
        *self.shown.get(login).unwrap()
    }

    /// Marks the details of the channel `login` as shown or not.
    pub fn set_shown(&mut self, login: String, shown: bool)
        requires
            old(self)@.shown.contains_key(login@),
        ensures
            final(self)@ == (StateView {
                shown: old(self)@.shown.insert(login@, shown),
                ..old(self)@
            }),
            old(self)@.in_step() ==> final(self)@.in_step(),
    {
        proof {
            if self@.in_step() {
                showing_keeps_in_step(self@, login@, shown);
            }
        }
        self.shown.insert(login, shown);
    }
}

/// One more user is one more key of the maps.
proof fn fresh_step(list: Seq<User>, i: int)
    requires
        0 <= i < list.len(),
    ensures
        StateView::fresh(list.take(i + 1)).status == StateView::fresh(list.take(i)).status.insert(
            list[i].login@,
            Status::Offline,
        ),
        StateView::fresh(list.take(i + 1)).shown == StateView::fresh(list.take(i)).shown.insert(
            list[i].login@,
            false,
        ),
{
    assert forall|login: Seq<char>| #[trigger]
        has_login(list.take(i + 1), login) == (has_login(list.take(i), login) || login
            == list[i].login@) by {
        if has_login(list.take(i), login) {
            let k = choose|k: int|
                0 <= k < list.take(i).len() && (#[trigger] list.take(i)[k]).login@ == login;
            assert(list.take(i + 1)[k].login@ == login);
        }
        if login == list[i].login@ {
            assert(list.take(i + 1)[i].login@ == login);
        }
        if has_login(list.take(i + 1), login) {
            let k = choose|k: int|
                0 <= k < list.take(i + 1).len() && (#[trigger] list.take(i + 1)[k]).login@ == login;
            if k < i {
                assert(list.take(i)[k].login@ == login);
            }
        }
    }
    assert(StateView::fresh(list.take(i + 1)).status =~= StateView::fresh(
        list.take(i),
    ).status.insert(list[i].login@, Status::Offline));
    assert(StateView::fresh(list.take(i + 1)).shown =~= StateView::fresh(list.take(i)).shown.insert(
        list[i].login@,
        false,
    ));
}

/// Adding a user keeps every followed channel with a status and marked as shown or not.
pub proof fn adding_keeps_in_step(state: StateView, user: User)
    requires
        state.in_step(),
    ensures
        state.with_user(user).in_step(),
{
    let next = state.with_user(user);
    assert forall|i: int| 0 <= i < next.users.len() implies next.status.contains_key(
        (#[trigger] next.users[i]).login@,
    ) && next.shown.contains_key(next.users[i].login@) by {
        appended_at(state.users, user, i);
        if next.users[i] != user {
            assert(state.status.contains_key(state.users[i].login@));
        }
    }
}

/// Showing or hiding the details of a channel keeps every followed channel marked.
pub proof fn showing_keeps_in_step(state: StateView, login: Seq<char>, shown: bool)
    requires
        state.in_step(),
    ensures
        (StateView { shown: state.shown.insert(login, shown), ..state }).in_step(),
{
    let after = StateView { shown: state.shown.insert(login, shown), ..state };
    assert forall|i: int| 0 <= i < after.users.len() implies after.status.contains_key(
        (#[trigger] after.users[i]).login@,
    ) && after.shown.contains_key(after.users[i].login@) by {
        assert(state.status.contains_key(state.users[i].login@));
    }
}

/// Taking a user out keeps every followed channel with a status exactly if no other user has
/// the same login.
pub proof fn removing_keeps_in_step(state: StateView, index: int)
    requires
        state.in_step(),
        0 <= index < state.users.len(),
    ensures
        state.without(index).in_step() <==> state.sole_login(index),
{
    let login = state.users[index].login@;
    let next = state.without(index);
    if state.sole_login(index) {
        assert forall|i: int| 0 <= i < next.users.len() implies next.status.contains_key(
            (#[trigger] next.users[i]).login@,
        ) && next.shown.contains_key(next.users[i].login@) by {
            let j = if i < index {
                i
            } else {
                i + 1
            };
            assert(next.users[i] == state.users[j]);
            assert(state.status.contains_key(state.users[j].login@));
        }
    } else {
        let j = choose|j: int|
            0 <= j < state.users.len() && j != index && (#[trigger] state.users[j]).login@ == login;
        let i = if j < index {
            j
        } else {
            j - 1
        };
        assert(next.users[i] == state.users[j]);
        assert(!next.status.contains_key(next.users[i].login@));
    }
}

/// A user who is not in the list has a place in it; anyone else stays at the same place.
pub proof fn appended_at(list: Seq<User>, user: User, i: int)
    requires
        0 <= i < appended(list, user).len(),
    ensures
        appended(list, user)[i] == user || i < list.len() && appended(
            list,
            user,
        )[i] == list[i],
        appended(list, user)[i].id@ != user.id@ ==> i < list.len()
            && appended(list, user)[i] == list[i],
{
    if !lacks_id(list, user.id@) {
        first_with_id_exists(list, user.id@);
    }
}

/// If some user has the id, there is a first one.
pub proof fn first_with_id_exists(list: Seq<User>, id: Seq<char>)
    requires
        !lacks_id(list, id),
    ensures
        exists|i: int| is_first_with_id(list, id, i),
    decreases list.len(),
{
    let k = choose|k: int| 0 <= k < list.len() && (#[trigger] list[k]).id@ == id;
    let front = list.take(k);
    if lacks_id(front, id) {
        assert forall|j: int| 0 <= j < k implies (#[trigger] list[j]).id@ != id by {
            assert(front[j] == list[j]);
        }
        assert(is_first_with_id(list, id, k));
    } else {
        first_with_id_exists(front, id);
        let i = choose|i: int| is_first_with_id(front, id, i);
        assert forall|j: int| 0 <= j < i implies (#[trigger] list[j]).id@ != id by {
            assert(front[j] == list[j]);
        }
        assert(is_first_with_id(list, id, i));
    }
}

/// Adding a user changes one place in the list: that of the first user with the same id, or
/// else a new one behind the others.
pub proof fn adding_changes_one_place(list: Seq<User>, user: User, k: int)
    ensures
        (forall|j: int| 0 <= j < list.len() ==> (#[trigger] list[j]).id@ != user.id@) ==> appended(
            list,
            user,
        ) == list.push(user),
        0 <= k < list.len() && list[k].id@ == user.id@ && (forall|j: int|
            0 <= j < k ==> (#[trigger] list[j]).id@ != user.id@) ==> appended(list, user)
            == list.update(k, user),
{
    if 0 <= k < list.len() && list[k].id@ == user.id@ && (forall|j: int|
        0 <= j < k ==> (#[trigger] list[j]).id@ != user.id@) {
        assert(!lacks_id(list, user.id@));
        assert(is_first_with_id(list, user.id@, k));
        let first = choose|i: int| is_first_with_id(list, user.id@, i);
        assert(first == k);
    }
}

/// The channel of a user who is added is not live and its details are not shown; what is
/// known of any other channel stays.
pub proof fn adding_leaves_other_channels_alone(state: StateView, user: User, login: Seq<char>)
    ensures
        ({
            let after = state.with_user(user);
            &&& after.users == appended(state.users, user)
            &&& after.status.contains_key(user.login@)
            &&& after.status[user.login@] == Status::Offline
            &&& after.shown.contains_key(user.login@)
            &&& !after.shown[user.login@]
            &&& login != user.login@ ==> {
                &&& after.status.contains_key(login) == state.status.contains_key(login)
                &&& after.status[login] == state.status[login]
                &&& after.shown.contains_key(login) == state.shown.contains_key(login)
                &&& after.shown[login] == state.shown[login]
            }
        }),
{
}

/// Taking out a user leaves the others in order, and what is known of any other channel.
pub proof fn removing_leaves_others_alone(
    state: StateView,
    index: int,
    other: int,
    login: Seq<char>,
)
    requires
        0 <= index < state.users.len(),
    ensures
        ({
            let after = state.without(index);
            &&& after.users.len() == state.users.len() - 1
            &&& 0 <= other < index ==> after.users[other] == state.users[other]
            &&& index < other < state.users.len() ==> after.users[other - 1] == state.users[other]
            &&& after.shown == state.shown
            &&& !after.status.contains_key(state.users[index].login@)
            &&& login != state.users[index].login@ ==> after.status.contains_key(login)
                == state.status.contains_key(login) && after.status[login] == state.status[login]
        }),
{
}

/// At the start exactly the followed channels have a status, which is that they are not live,
/// and exactly these are marked, as not shown.
pub proof fn only_followed_channels_are_known_at_first(list: Seq<User>, login: Seq<char>)
    ensures
        ({
            let fresh = StateView::fresh(list);
            let followed = exists|i: int|
                0 <= i < list.len() && (#[trigger] list[i]).login@ == login;
            &&& fresh.users == list
            &&& fresh.status.contains_key(login) <==> followed
            &&& fresh.shown.contains_key(login) <==> followed
            &&& followed ==> fresh.status[login] == Status::Offline && !fresh.shown[login]
        }),
        StateView::empty() == StateView::fresh(seq![]),
{
    assert(StateView::empty() =~= StateView::fresh(seq![]));
}

/// What it is that the users and the maps are in step, and that a login is that of one user.
pub proof fn in_step_speaks_of_every_user(state: StateView, index: int)
    ensures
        state.in_step() <==> forall|i: int|
            0 <= i < state.users.len() ==> state.status.contains_key(
                (#[trigger] state.users[i]).login@,
            ) && state.shown.contains_key(state.users[i].login@),
        state.sole_login(index) <==> !exists|j: int|
            0 <= j < state.users.len() && j != index && (#[trigger] state.users[j]).login@
                == state.users[index].login@,
{
}

/// A state is known by its whole list and its two maps.
pub proof fn views_of_states_are_whole(state: State)
    ensures
        state@.users == state.users.list@,
        state@.status == state.status.map@,
        state@.shown == state.shown@,
{
}

} // verus!
