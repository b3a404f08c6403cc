//! The pictures of the channels: which are kept, and which have to be fetched.
use vstd::hash_map::StringHashMap;
use vstd::hash_set::StringHashSet;
use vstd::prelude::*;
use vstd::string::StringExecFns;

use crate::text::push_decimal;

verus! {

/// The width of a preview picture.
pub const PREVIEW_WIDTH: u64 = 250;

/// The height of a preview picture.
pub const PREVIEW_HEIGHT: u64 = 141;

/// The address of the preview picture of the channel `login`.
pub open spec fn preview_address(login: Seq<char>) -> Seq<char> {
    "https://static-cdn.jtvnw.net/previews-ttv/live_user_"@ + login + "-"@
        + crate::text::decimal_nat(PREVIEW_WIDTH as nat) + "x"@ + crate::text::decimal_nat(
        PREVIEW_HEIGHT as nat,
    ) + ".jpg"@
}

/// The address of the preview picture of the channel `login`.
pub fn preview_url(login: &str) -> (r: String)
    ensures
        r@ == preview_address(login@),
{
    let mut url = String::from_str("https://static-cdn.jtvnw.net/previews-ttv/live_user_");
    url.append(login);
    url.append("-");
    push_decimal(&mut url, PREVIEW_WIDTH);
    url.append("x");
    push_decimal(&mut url, PREVIEW_HEIGHT);
    url.append(".jpg");
    url
}

/// Why a picture is fetched.
#[derive(Copy, Clone, Debug, PartialEq, Eq, Structural)]
pub enum ImageKind {
    /// It does not change.
    Static,
    /// It is a preview that is not there yet.
    Preview,
    /// It is a preview that is out of date.
    Refresh,
}

/// A preview picture and the time at which it came, in nanoseconds of a clock that
/// does not go back.
pub struct PreviewImage<I> {
    pub last: u128,
    pub image: I,
}

impl<I> PreviewImage<I> {
    /// The nanoseconds for which a preview is up to date.
    pub const PREVIEW_INTERVAL: u128 = 60_000_000_000;

    /// Whether the picture is out of date at the time `now`.
    pub open spec fn stale(self, now: u128) -> bool {
        now - self.last >= 60_000_000_000
    }

    /// Whether the picture is out of date at the time `now`.
    pub fn should_update(&self, now: u128) -> (r: bool)
        ensures
            r == self.stale(now),
    {
        now >= self.last && now - self.last >= Self::PREVIEW_INTERVAL
    }
}

/// What a picture is asked for by: its address and why it is fetched. Nothing is asked for
/// at an empty address.
pub open spec fn request_for(kind: ImageKind, url: Seq<char>) -> Option<(Seq<char>, ImageKind)> {
    if url.len() == 0 {
        None
    } else {
        Some((url, kind))
    }
}

/// The address and the reason of a request.
pub open spec fn request_view(request: Option<(String, ImageKind)>) -> Option<
    (Seq<char>, ImageKind),
> {
    match request {
        Some(r) => Some((r.0@, r.1)),
        None => None,
    }
}

/// The pictures that are kept, by their addresses.
#[verifier::reject_recursive_types(I)]
pub struct Images<I> {
    pub static_images: StringHashMap<I>,
    pub preview_images: StringHashMap<PreviewImage<I>>,
}

/// The pictures that are kept, as two maps.
#[verifier::ext_equal]
pub struct ImagesView<I> {
    pub statics: Map<Seq<char>, I>,
    pub previews: Map<Seq<char>, PreviewImage<I>>,
}

impl<I> ImagesView<I> {
    /// The pictures after `image`, which was fetched for the reason `kind`, came at the
    /// time `now`.
    pub open spec fn with(self, url: Seq<char>, kind: ImageKind, image: I, now: u128) -> Self {
        if kind == ImageKind::Static {
            ImagesView { statics: self.statics.insert(url, image), ..self }
        } else {
            ImagesView {
                previews: self.previews.insert(url, PreviewImage { last: now, image }),
                ..self
            }
        }
    }

    /// The pictures after all of `arrivals` came, in order.
    pub open spec fn with_all(self, arrivals: Seq<(String, ImageKind, I, u128)>) -> Self
        decreases arrivals.len(),
    {
        if arrivals.len() == 0 {
            self
        } else {
            let a = arrivals.last();
            self.with_all(arrivals.drop_last()).with(a.0@, a.1, a.2, a.3)
        }
    }

    /// What is asked for when the picture at `url` is to be shown.
    pub open spec fn static_request(self, url: Seq<char>) -> Option<(Seq<char>, ImageKind)> {
        if self.statics.contains_key(url) {
            None
        } else {
            request_for(ImageKind::Static, url)
        }
    }

    /// What is asked for when the preview at `url` is to be shown at the time `now`.
    pub open spec fn preview_request(self, url: Seq<char>, now: u128) -> Option<
        (Seq<char>, ImageKind),
    > {
        if !self.previews.contains_key(url) {
            request_for(ImageKind::Preview, url)
        } else if self.previews[url].stale(now) {
            request_for(ImageKind::Refresh, url)
        } else {
            None
        }
    }
}

impl<I> View for Images<I> {
    type V = ImagesView<I>;

    open spec fn view(&self) -> ImagesView<I> {
        ImagesView { statics: self.static_images@, previews: self.preview_images@ }
    }
}

impl<I> Default for Images<I> {
    fn default() -> (r: Self)
        ensures
            r@.statics == Map::<Seq<char>, I>::empty(),
            r@.previews == Map::<Seq<char>, PreviewImage<I>>::empty(),
    {
        Images { static_images: StringHashMap::new(), preview_images: StringHashMap::new() }
    }
}

impl<I> Images<I> {
    /// The picture at `url`, or else what has to be asked for.
    pub fn get_static(&self, url: &str) -> (r: (Option<&I>, Option<(String, ImageKind)>))
        ensures
            r.0 == (if self@.statics.contains_key(url@) {
                Some(&self@.statics[url@])
            } else {
                None
            }),
            request_view(r.1) == self@.static_request(url@),
    {
        match self.static_images.get(url) {
            Some(image) => (Some(image), None),
            None => (None, ImageFetcher::fetch(ImageKind::Static, url)),
        }
    }

    /// The preview at `url` as it is kept, and what has to be asked for at the time `now`
    /// because it is not there or out of date.
    pub fn get_preview(&self, url: &str, now: u128) -> (r: (
        Option<&I>,
        Option<(String, ImageKind)>,
    ))
        ensures
            r.0 == (if self@.previews.contains_key(url@) {
                Some(&self@.previews[url@].image)
            } else {
                None
            }),
            request_view(r.1) == self@.preview_request(url@, now),
    {
        match self.preview_images.get(url) {
            Some(preview) => {
                if preview.should_update(now) {
                    (Some(&preview.image), ImageFetcher::fetch(ImageKind::Refresh, url))
                } else {
                    (Some(&preview.image), None)
                }
            },
            None => (None, ImageFetcher::fetch(ImageKind::Preview, url)),
        }
    }

    /// Keeps `img` as the picture at `key`.
    pub fn add_static(&mut self, key: String, img: I)
        ensures
            final(self)@.statics == old(self)@.statics.insert(key@, img),
            final(self)@.previews == old(self)@.previews,
    {
        self.static_images.insert(key, img);
    }

    /// Keeps `img` as the preview at `key`, which came at the time `now`.
    pub fn add_preview(&mut self, key: String, img: I, now: u128)
        ensures
            final(self)@.statics == old(self)@.statics,
            final(self)@.previews == old(self)@.previews.insert(
                key@,
                (PreviewImage { last: now, image: img }),
            ),
    {
        self.preview_images.insert(key, PreviewImage { last: now, image: img });
    }

    /// Forgets the picture at `static_url` and the preview at `preview_url`.
    pub fn remove(&mut self, static_url: &str, preview_url: &str)
        ensures
            final(self)@.statics == old(self)@.statics.remove(static_url@),
            final(self)@.previews == old(self)@.previews.remove(preview_url@),
    {
        self.static_images.remove(static_url);
        self.preview_images.remove(preview_url);
    }
}

/// The addresses that are being fetched or are not fetched again.
pub struct ImageFetcher {
    pub seen: StringHashSet,
}

impl View for ImageFetcher {
    type V = Set<Seq<char>>;

    open spec fn view(&self) -> Set<Seq<char>> {
        self.seen@
    }
}

/// The addresses that are held back after the fetch of `url` is over: one that gave a
/// preview may be fetched again.
pub open spec fn finished(
    seen: Set<Seq<char>>,
    url: Seq<char>,
    kind: ImageKind,
    got_data: bool,
) -> Set<Seq<char>> {
    if got_data && kind != ImageKind::Static {
        seen.remove(url)
    } else {
        seen
    }
}

impl ImageFetcher {
    /// Holds no address back.
    pub fn new() -> (r: Self)
        ensures
            r@ == Set::<Seq<char>>::empty(),
    {
        ImageFetcher { seen: StringHashSet::new() }
    }

    /// The request for the picture at `url`, unless the address is empty.
    pub fn fetch(kind: ImageKind, url: &str) -> (r: Option<(String, ImageKind)>)
        ensures
            request_view(r) == request_for(kind, url@),
    {
        if url.is_empty() {
            None
        } else {
            Some((String::from_str(url), kind))
        }
    }

    /// Whether the fetch of `url` is to be started; from then on the address is held back.
    pub fn begin(&mut self, url: String) -> (r: bool)
        ensures
            final(self)@ == old(self)@.insert(url@),
            r == !old(self)@.contains(url@),
    {
        self.seen.insert(url)
    }

    /// Takes in how the fetch of `url` went, and hands on what has to be loaded: the data,
    /// if there are any.
    pub fn finish(&mut self, url: String, kind: ImageKind, data: Option<Vec<u8>>) -> (r: Option<
        (String, ImageKind, Vec<u8>),
    >)
        ensures
            final(self)@ == finished(old(self)@, url@, kind, data is Some),
            r == (match data {
                Some(d) => Some((url, kind, d)),
                None => None,
            }),
    {
        match data {
            Some(data) => {
                if kind != ImageKind::Static {
                    self.seen.remove(url.as_str());
                }
                Some((url, kind, data))
            },
            None => None,
        }
    }
}

/// Where loaded pictures are put.
pub struct ImageLoader;

impl ImageLoader {
    /// Keeps the loaded pictures in `arrivals`, each with its address, the reason for which
    /// it was fetched and the time at which it came.
    pub fn poll<I>(arrivals: Vec<(String, ImageKind, I, u128)>, images: &mut Images<I>)
        ensures
            final(images)@ == old(images)@.with_all(arrivals@),
    {
        let ghost all = arrivals@;
        for arrival in news: arrivals
            invariant
                news.seq() == all,
                images@ == old(images)@.with_all(all.take(news.index() as int)),
        {
            let (url, kind, img, now) = arrival;
            assert(all.take(news.index() + 1).drop_last() =~= all.take(news.index() as int));
            match kind {
                ImageKind::Static => images.add_static(url, img),
                ImageKind::Preview | ImageKind::Refresh => images.add_preview(url, img, now),
            }
        }
        assert(all.take(all.len() as int) =~= all);
    }
}

/// The address of a preview is the login itself, with the address of the server and what
/// previews begin with in front of it, and the size of the picture behind.
pub proof fn previews_are_named_by_the_login(login: Seq<char>)
    ensures
        preview_address(login) == "https://static-cdn.jtvnw.net/previews-ttv/live_user_"@ + login
            + "-250x141.jpg"@,
{
    reveal_strlit("-");
    reveal_strlit("x");
    reveal_strlit(".jpg");
    reveal_strlit("-250x141.jpg");
    reveal_with_fuel(crate::text::decimal_nat, 4);
    let w = crate::text::decimal_nat(250);
    let h = crate::text::decimal_nat(141);
    assert(w =~= seq!['2', '5', '0']);
    assert(h =~= seq!['1', '4', '1']);
    assert("-"@ + w + "x"@ + h + ".jpg"@ =~= "-250x141.jpg"@);
    let pre = "https://static-cdn.jtvnw.net/previews-ttv/live_user_"@;
    assert(preview_address(login) =~= pre + login + ("-"@ + w + "x"@ + h + ".jpg"@));
}

/// A picture that comes is kept at its own address, among the pictures that do not change or
/// among the previews, and leaves every other picture as it is.
pub proof fn pictures_leave_others_alone<I>(
    images: ImagesView<I>,
    url: Seq<char>,
    kind: ImageKind,
    image: I,
    now: u128,
    other: Seq<char>,
)
    ensures
        ({
            let after = images.with(url, kind, image, now);
            &&& kind == ImageKind::Static ==> after.statics.contains_key(url) && after.statics[url]
                == image && after.previews == images.previews
            &&& kind != ImageKind::Static ==> after.previews.contains_key(url)
                && after.previews[url].image == image && after.previews[url].last == now
                && after.statics == images.statics
            &&& other != url ==> {
                &&& after.statics.contains_key(other) == images.statics.contains_key(other)
                &&& after.statics[other] == images.statics[other]
                &&& after.previews.contains_key(other) == images.previews.contains_key(other)
                &&& after.previews[other] == images.previews[other]
            }
        }),
{
}

/// Of the pictures that come, the last at each address is the one that is kept there, among
/// the pictures that do not change or among the previews.
pub proof fn last_arrivals_are_kept<I>(
    images: ImagesView<I>,
    arrivals: Seq<(String, ImageKind, I, u128)>,
    last: int,
)
    requires
        0 <= last < arrivals.len(),
        forall|j: int|
            last < j < arrivals.len() ==> (#[trigger] arrivals[j]).0@ != arrivals[last].0@ || (
            arrivals[j].1 == ImageKind::Static) != (arrivals[last].1 == ImageKind::Static),
    ensures
        ({
            let url = arrivals[last].0@;
            let after = images.with_all(arrivals);
            if arrivals[last].1 == ImageKind::Static {
                after.statics.contains_key(url) && after.statics[url] == arrivals[last].2
            } else {
                after.previews.contains_key(url) && after.previews[url].image == arrivals[last].2
                    && after.previews[url].last == arrivals[last].3
            }
        }),
    decreases arrivals.len(),
{
    if last < arrivals.len() - 1 {
        let before = arrivals.drop_last();
        assert forall|j: int| last < j < before.len() implies (#[trigger] before[j]).0@
            != before[last].0@ || (before[j].1 == ImageKind::Static) != (before[last].1
            == ImageKind::Static) by {
            assert(before[j] == arrivals[j]);
        }
        last_arrivals_are_kept(images, before, last);
        assert(arrivals.last() == arrivals[arrivals.len() - 1]);
    }
}

/// Where no picture comes, none comes, goes or changes.
pub proof fn pictures_stay_without_arrivals<I>(
    images: ImagesView<I>,
    arrivals: Seq<(String, ImageKind, I, u128)>,
    url: Seq<char>,
)
    ensures
        (forall|j: int|
            0 <= j < arrivals.len() && (#[trigger] arrivals[j]).0@ == url ==> arrivals[j].1
                != ImageKind::Static) ==> images.with_all(arrivals).statics.contains_key(url)
            == images.statics.contains_key(url) && images.with_all(arrivals).statics[url]
            == images.statics[url],
        (forall|j: int|
            0 <= j < arrivals.len() && (#[trigger] arrivals[j]).0@ == url ==> arrivals[j].1
                == ImageKind::Static) ==> images.with_all(arrivals).previews.contains_key(url)
            == images.previews.contains_key(url) && images.with_all(arrivals).previews[url]
            == images.previews[url],
    decreases arrivals.len(),
{
    if arrivals.len() > 0 {
        let before = arrivals.drop_last();
        pictures_stay_without_arrivals(images, before, url);
        assert(forall|j: int| 0 <= j < before.len() ==> before[j] == #[trigger] arrivals[j]);
        assert(arrivals.last() == arrivals[arrivals.len() - 1]);
        if forall|j: int|
            0 <= j < arrivals.len() && (#[trigger] arrivals[j]).0@ == url ==> arrivals[j].1
                != ImageKind::Static {
            assert forall|j: int| 0 <= j < before.len() && (#[trigger] before[j]).0@ == url implies
                before[j].1 != ImageKind::Static by {
                assert(before[j] == arrivals[j]);
            }
        }
        if forall|j: int|
            0 <= j < arrivals.len() && (#[trigger] arrivals[j]).0@ == url ==> arrivals[j].1
                == ImageKind::Static {
            assert forall|j: int| 0 <= j < before.len() && (#[trigger] before[j]).0@ == url implies
                before[j].1 == ImageKind::Static by {
                assert(before[j] == arrivals[j]);
            }
        }
    }
}

/// A picture that is not kept is asked for at its own address, a preview that is kept again
/// from a minute after it came on, and nothing at an empty address.
pub proof fn missing_pictures_are_asked_for<I>(
    images: ImagesView<I>,
    url: Seq<char>,
    kind: ImageKind,
    now: u128,
)
    ensures
        url.len() == 0 ==> request_for(kind, url) is None && images.static_request(url) is None
            && images.preview_request(url, now) is None,
        url.len() > 0 ==> request_for(kind, url) == Some((url, kind)),
        images.statics.contains_key(url) ==> images.static_request(url) is None,
        url.len() > 0 && !images.statics.contains_key(url) ==> images.static_request(url) == Some(
            (url, ImageKind::Static),
        ),
        url.len() > 0 && !images.previews.contains_key(url) ==> images.preview_request(url, now)
            == Some((url, ImageKind::Preview)),
        url.len() > 0 && images.previews.contains_key(url) && now >= images.previews[url].last
            + 60_000_000_000 ==> images.preview_request(url, now) == Some((url, ImageKind::Refresh)),
        images.previews.contains_key(url) && now < images.previews[url].last + 60_000_000_000
            ==> images.preview_request(url, now) is None,
{
}

/// A preview is out of date from a minute after it came on, and not before.
pub proof fn previews_are_stale_after_a_minute<I>(preview: PreviewImage<I>, now: u128)
    ensures
        preview.stale(now) <==> now >= preview.last + 60_000_000_000,
{
}

/// A request is known by its whole address and its reason, and kept pictures by the maps that
/// they are kept in.
pub proof fn views_of_pictures_are_whole<I>(
    url: String,
    kind: ImageKind,
    images: Images<I>,
    fetcher: ImageFetcher,
)
    ensures
        request_view(Some((url, kind))) == Some((url@, kind)),
        request_view(None) == None::<(Seq<char>, ImageKind)>,
        images@.statics == images.static_images@,
        images@.previews == images.preview_images@,
        fetcher@ == fetcher.seen@,
{
}

/// The end of a fetch frees its own address, if it gave a preview, and no other, and it holds
/// no address back that was not.
pub proof fn only_previews_are_freed(
    seen: Set<Seq<char>>,
    ended: Seq<char>,
    kind: ImageKind,
    got_data: bool,
    url: Seq<char>,
)
    ensures
        finished(seen, ended, kind, got_data).contains(url) <==> seen.contains(url) && !(url
            == ended && got_data && (kind == ImageKind::Preview || kind == ImageKind::Refresh)),
{
}

} // verus!
