//! Which of the followed channels are live.
use std::cmp::Ordering;

use vstd::hash_map::StringHashMap;
use vstd::hash_set::StringHashSet;
use vstd::prelude::*;

use crate::helix::Stream;
use crate::images::preview_url;

verus! {

/// Whether a channel is live, and with which stream.
#[derive(Debug, PartialEq)]
pub enum Status {
    Offline,
    Online(Box<Stream>),
}

impl Default for Status {
    fn default() -> (r: Self)
        ensures
            r == Status::Offline,
    {
        Status::Offline
    }
}

impl Status {
    /// Whether the channel is live.
    pub fn is_online(&self) -> (r: bool)
        ensures
            r == (self is Online),
    {
        match self {
            Status::Online(_) => true,
            Status::Offline => false,
        }
    }
}

/// Live channels come before those that are not; otherwise no channel comes first.
impl PartialOrd for Status {
    fn partial_cmp(&self, other: &Self) -> (r: Option<Ordering>) {
        match (self.is_online(), other.is_online()) {
            (true, true) | (false, false) => Some(Ordering::Equal),
            (true, false) => Some(Ordering::Less),
            (false, true) => Some(Ordering::Greater),
        }
    }
}

impl vstd::std_specs::cmp::PartialOrdSpecImpl for Status {
    open spec fn obeys_partial_cmp_spec() -> bool {
        true
    }

    open spec fn partial_cmp_spec(&self, other: &Self) -> Option<Ordering> {
        if (self is Online) == (other is Online) {
            Some(Ordering::Equal)
        } else if self is Online {
            Some(Ordering::Less)
        } else {
            Some(Ordering::Greater)
        }
    }
}

/// Whether a channel with the status `left` comes after one with the status `right`.
pub open spec fn comes_after(left: Status, right: Status) -> bool {
    vstd::std_specs::cmp::PartialOrdSpec::partial_cmp_spec(&left, &right) == Some(
        Ordering::Greater,
    )
}

/// The order of statuses is a weak order: of two statuses at most one comes after the other,
/// and a status that comes after another comes after or before every third.
pub proof fn statuses_are_weakly_ordered(a: Status, b: Status, c: Status)
    ensures
        !(comes_after(a, b) && comes_after(b, a)),
        comes_after(a, b) ==> comes_after(a, c) || comes_after(c, b),
{
}

/// The status that an answer about the streams of one channel gives it: the first stream
/// makes it live, and without a stream or an answer it is not.
///
/// The stream shows the preview picture of its channel in place of the picture that
/// the server named.
pub fn status_of_streams(reply: Option<Vec<Stream>>) -> (r: Status)
    ensures
        r is Online <==> reply is Some && reply->Some_0@.len() > 0,
        r matches Status::Online(stream) ==> {
            let first = reply->Some_0@[0];
            &&& stream.thumbnail_url@ == crate::images::preview_address(first.user_login@)
            &&& *stream == (Stream { thumbnail_url: stream.thumbnail_url, ..first })
        },
{
    match reply {
        Some(mut streams) => {
            if streams.len() == 0 {
                return Status::Offline;
            }
            let first = streams.remove(0);
            let thumbnail_url = preview_url(first.user_login.as_str());
            Status::Online(Box::new(Stream { thumbnail_url, ..first }))
        },
        None => Status::Offline,
    }
}

/// The status of each channel by its login.
pub struct StatusMap {
    pub map: StringHashMap<Status>,
}

impl View for StatusMap {
    type V = Map<Seq<char>, Status>;

    open spec fn view(&self) -> Map<Seq<char>, Status> {
        self.map@
    }
}

impl Default for StatusMap {
    fn default() -> (r: Self)
        ensures
            r@ == Map::<Seq<char>, Status>::empty(),
    {
        StatusMap { map: StringHashMap::new() }
    }
}

impl StatusMap {
    /// The status of the channel `login`, which must be known.
    pub fn get(&self, login: &str) -> (r: &Status)
        requires
            self@.contains_key(login@),
        ensures
            *r == self@[login@],
    {
        self.map.get(login).unwrap()
    }

    /// Makes `status` the status of the channel `login`.
    pub fn insert(&mut self, login: String, status: Status)
        ensures
            final(self)@ == old(self)@.insert(login@, status),
    {
        self.map.insert(login, status)
    }

    /// Forgets the channel `login`.
    pub fn remove(&mut self, login: &str)
        ensures
            final(self)@ == old(self)@.remove(login@),
    {
        self.map.remove(login)
    }
}

/// `map` after the news in `updates`, of which the later overrules the earlier.
pub open spec fn updated(
    map: Map<Seq<char>, Status>,
    updates: Seq<(String, Status)>,
) -> Map<Seq<char>, Status>
    decreases updates.len(),
{
    if updates.len() == 0 {
        map
    } else {
        updated(map, updates.drop_last()).insert(updates.last().0@, updates.last().1)
    }
}

/// Which channels are being watched. The task that watches a channel asks for its streams
/// every [`StatusChecker::DELAY`] seconds.
pub struct StatusChecker {
    pub seen: StringHashSet,
}

impl View for StatusChecker {
    type V = Set<Seq<char>>;

    open spec fn view(&self) -> Set<Seq<char>> {
        self.seen@
    }
}

impl StatusChecker {
    /// The seconds between two questions about one channel.
    pub const DELAY: u64 = 30;

    /// Watches no channel yet.
    pub fn new() -> (r: Self)
        ensures
            r@ == Set::<Seq<char>>::empty(),
    {
        StatusChecker { seen: StringHashSet::new() }
    }

    /// Notes that the channel `login` is to be watched, and says whether a task has to be
    /// started for it: there is one from the first time on.
    pub fn watch(&mut self, login: String) -> (r: bool)
        ensures
            final(self)@ == old(self)@.insert(login@),
            r == !old(self)@.contains(login@),
    {
        self.seen.insert(login)
    }

    /// Enters the news in `updates` into `map`, in order.
    pub fn poll(updates: Vec<(String, Status)>, map: &mut StatusMap)
        ensures
            final(map)@ == updated(old(map)@, updates@),
    {
        let ghost all = updates@;
        for update in news: updates
            invariant
                news.seq() == all,
                map@ == updated(old(map)@, all.take(news.index() as int)),
        {
            let (login, status) = update;
            assert(all.take(news.index() + 1).drop_last() =~= all.take(news.index() as int));
            map.insert(login, status);
        }
        assert(all.take(all.len() as int) =~= all);
    }
}

/// A channel that is not live comes after one that is, and no other channel comes after one.
pub proof fn only_live_channels_come_first(a: Status, b: Status)
    ensures
        comes_after(a, b) <==> a == Status::Offline && b != Status::Offline,
        vstd::std_specs::cmp::PartialOrdSpec::partial_cmp_spec(&a, &b) == Some(Ordering::Less)
            <==> a != Status::Offline && b == Status::Offline,
        vstd::std_specs::cmp::PartialOrdSpec::partial_cmp_spec(&a, &b) == Some(Ordering::Equal)
            <==> ((a == Status::Offline) == (b == Status::Offline)),
{
}

/// Without news of it, what is known of a channel stays.
pub proof fn channels_stay_without_news(
    map: Map<Seq<char>, Status>,
    updates: Seq<(String, Status)>,
    login: Seq<char>,
)
    requires
        forall|j: int| 0 <= j < updates.len() ==> (#[trigger] updates[j]).0@ != login,
    ensures
        updated(map, updates).contains_key(login) == map.contains_key(login),
        updated(map, updates)[login] == map[login],
    decreases updates.len(),
{
    if updates.len() > 0 {
        let before = updates.drop_last();
        assert forall|j: int| 0 <= j < before.len() implies (#[trigger] before[j]).0@ != login by {
            assert(before[j] == updates[j]);
        }
        channels_stay_without_news(map, before, login);
        assert(updates.last() == updates[updates.len() - 1]);
    }
}

/// The statuses are known by the whole map, and the watched channels by the whole set.
pub proof fn views_of_statuses_are_whole(statuses: StatusMap, checker: StatusChecker)
    ensures
        statuses@ == statuses.map@,
        checker@ == checker.seen@,
{
}

} // verus!
