//! What is said about a running stream.
use vstd::prelude::*;
use vstd::string::StringExecFns;

use crate::duration::format_seconds;
use crate::helix::Stream;
use crate::text::{decimal, replace_char};

verus! {

/// How the start of a stream is written, with an offset in place of the `Z`.
pub const TWITCH_TIMESTAMP: &'static str =
    "[year]-[month]-[day]T[hour]:[minute]:[second] [offset_hour]";

/// How the start of a stream is shown.
pub const LOCAL_TIMESTAMP: &'static str =
    "[year]-[month]-[day] [hour]:[minute]:[second] [offset_hour][offset_minute]";

/// No time that a clock shows is further from the beginning of 1970 than this many seconds.
pub const FARTHEST: i64 = 32_000_000_000_000;

/// The time that `OffsetDateTime::parse` reads from `text` by the format description `read`,
/// in seconds since the beginning of 1970.
pub uninterp spec fn read_time(text: Seq<char>, read: Seq<char>) -> Option<i64>;

/// The text that `OffsetDateTime::format` writes by the format description `write` for the
/// time that is read from `text` by the format description `read` and moved to an offset of
/// `offset` seconds from UTC.
pub uninterp spec fn local_time(
    text: Seq<char>,
    read: Seq<char>,
    offset: i32,
    write: Seq<char>,
) -> Option<Seq<char>>;

/// `time::OffsetDateTime::parse`, then `checked_to_offset` and `format`, with format
/// descriptions of the first version, which `time::format_description::parse_borrowed` reads
/// from `read` and `write`.
///
/// Only the two descriptions that this library uses are given to it: it panics on some texts
/// that are none. The time is given as its Unix timestamp. The contract claims that the
/// timestamp depends on the text and its description alone and the text that is written on
/// the four arguments alone, and that the year, which has at most six digits, and the offset,
/// which is below 26 hours, keep the timestamp within [`FARTHEST`]. There is no answer if the
/// text is not written by its description, or if the offset or the date at it is out of the
/// range of `time`.
#[verifier::external_body]
fn move_time(text: &str, read: &str, offset: i32, write: &str) -> (r: Option<(i64, String)>)
    requires
        read@ == TWITCH_TIMESTAMP@,
        write@ == LOCAL_TIMESTAMP@,
    ensures
        match r {
            Some(found) => read_time(text@, read@) == Some(found.0) && local_time(
                text@,
                read@,
                offset,
                write@,
            ) == Some(found.1@) && -FARTHEST <= found.0 <= FARTHEST,
            None => local_time(text@, read@, offset, write@) is None,
        },
{
    let read = time::format_description::parse_borrowed::<1>(read).ok()?;
    let write = time::format_description::parse_borrowed::<1>(write).ok()?;
    let offset = time::UtcOffset::from_whole_seconds(offset).ok()?;
    let at = time::OffsetDateTime::parse(text, &read).ok()?.checked_to_offset(offset)?;
    Some((at.unix_timestamp(), at.format(&write).ok()?))
}

/// The whole seconds between `started` and a time that is `nanos` nanoseconds after `now`;
/// a part of a second is dropped, also from a negative span.
pub open spec fn whole_seconds_between(started: int, now: int, nanos: int) -> int {
    let span = (now - started) * 1_000_000_000 + nanos;
    if span >= 0 {
        span / 1_000_000_000
    } else {
        -((-span) / 1_000_000_000)
    }
}

/// The whole seconds from `started` to the time `nanos` nanoseconds after `now`.
pub fn uptime_seconds(started: i64, now: i64, nanos: u32) -> (r: i64)
    requires
        i64::MIN <= now - started <= i64::MAX,
        nanos < 1_000_000_000,
    ensures
        r == whole_seconds_between(started as int, now as int, nanos as int),
{
    let span: i64 = now - started;
    if span < 0 && nanos > 0 {
        span + 1
    } else {
        span
    }
}

/// The number of viewers in words.
pub open spec fn viewers_text(count: int) -> Seq<char> {
    crate::text::decimal_int(count) + " viewer"@ + (if count > 1 {
        seq!['s']
    } else {
        seq!['\0']
    })
}

/// Says how many viewers there are.
///
/// Behind the word stands the letter of the plural, or else the character with the
/// number zero, which shows as nothing.
pub fn format_viewers(count: i64) -> (r: String)
    ensures
        r@ == viewers_text(count as int),
{
    let mut text = decimal(count);
    text.append(" viewer");
    text.push(if count > 1 {
        's'
    } else {
        '\0'
    });
    assert(text@ =~= viewers_text(count as int));
    text
}

/// The lines about a stream, and the hints behind two of them.
pub struct StreamInfo {
    pub title: String,
    pub game: String,
    pub game_hint: String,
    pub started_at: String,
    pub started_hint: String,
    pub viewers: String,
    pub mature: &'static str,
}

/// [`StreamInfo`] with its texts as sequences.
#[verifier::ext_equal]
pub struct StreamInfoView {
    pub title: Seq<char>,
    pub game: Seq<char>,
    pub game_hint: Seq<char>,
    pub started_at: Seq<char>,
    pub started_hint: Seq<char>,
    pub viewers: Seq<char>,
    pub mature: Seq<char>,
}

impl View for StreamInfo {
    type V = StreamInfoView;

    open spec fn view(&self) -> StreamInfoView {
        StreamInfoView {
            title: self.title@,
            game: self.game@,
            game_hint: self.game_hint@,
            started_at: self.started_at@,
            started_hint: self.started_hint@,
            viewers: self.viewers@,
            mature: self.mature@,
        }
    }
}

/// What is said about `stream`, which started at the time written as `started_at` and has
/// run for `uptime` seconds.
pub open spec fn info_of(stream: Stream, started_at: Seq<char>, uptime: int) -> StreamInfoView {
    StreamInfoView {
        title: stream.title@,
        game: stream.game_name@,
        game_hint: "game id: "@ + stream.game_id@,
        started_at,
        started_hint: crate::duration::sentence(crate::duration::segments(uptime)) + " ago"@,
        viewers: viewers_text(stream.viewer_count as int),
        mature: if stream.is_mature {
            "Yes"@
        } else {
            "No"@
        },
    }
}

/// When `stream` started, as it is written by [`TWITCH_TIMESTAMP`].
pub open spec fn start_text(stream: Stream) -> Seq<char> {
    crate::text::replaced(stream.started_at@, 'Z', " +00"@)
}

/// When `stream` started, in seconds since the beginning of 1970, if that can be read.
pub open spec fn start_of(stream: Stream) -> Option<i64> {
    read_time(start_text(stream), TWITCH_TIMESTAMP@)
}

/// When `stream` started, as it is shown where the clocks are `offset` seconds ahead of UTC,
/// if that can be read and written.
pub open spec fn local_start_of(stream: Stream, offset: i32) -> Option<Seq<char>> {
    local_time(start_text(stream), TWITCH_TIMESTAMP@, offset, LOCAL_TIMESTAMP@)
}

/// What is said about `stream` at the time `nanos` nanoseconds after `now`, where the clocks
/// are `offset` seconds ahead of UTC, if anything.
pub open spec fn told(stream: Stream, now: int, nanos: int, offset: i32) -> Option<StreamInfoView> {
    match local_start_of(stream, offset) {
        None => None,
        Some(text) => Some(
            info_of(stream, text, whole_seconds_between(start_of(stream)->Some_0 as int, now, nanos)),
        ),
    }
}

impl StreamInfo {
    /// What is said about `stream`, which started at the time written as `started_at` and
    /// has run for `uptime` seconds.
    pub fn new(stream: &Stream, started_at: String, uptime: i64) -> (r: Self)
        ensures
            r@ == info_of(*stream, started_at@, uptime as int),
    {
        let mut game_hint = String::from_str("game id: ");
        game_hint.append(stream.game_id.as_str());
        let mut started_hint = format_seconds(uptime);
        started_hint.append(" ago");
        StreamInfo {
            title: stream.title.clone(),
            game: stream.game_name.clone(),
            game_hint,
            started_at,
            started_hint,
            viewers: format_viewers(stream.viewer_count),
            mature: if stream.is_mature {
                "Yes"
            } else {
                "No"
            },
        }
    }

    /// What is said about `stream` at the time `nanos` nanoseconds after `now`, where the
    /// clocks are `offset` seconds ahead of UTC. Nothing is said if the start of the stream
    /// cannot be read or cannot be written for that offset.
    pub fn display_info(stream: &Stream, now: i64, nanos: u32, offset: i32) -> (r: Option<Self>)
        requires
            -FARTHEST <= now <= FARTHEST,
            nanos < 1_000_000_000,
        ensures
            match told(*stream, now as int, nanos as int, offset) {
                None => r is None,
                Some(info) => r matches Some(i) && i@ == info && start_of(*stream) is Some,
            },
    {
        let written = replace_char(stream.started_at.as_str(), 'Z', " +00");
        match move_time(written.as_str(), TWITCH_TIMESTAMP, offset, LOCAL_TIMESTAMP) {
            None => None,
            Some((at, text)) => Some(StreamInfo::new(stream, text, uptime_seconds(at, now, nanos))),
        }
    }
}

/// The uptime is the span to the present without the part of a second: it comes no further
/// from zero than the span, and within a second of it.
pub proof fn uptime_drops_parts_of_a_second(started: int, now: int, nanos: int)
    ensures
        ({
            let span = (now - started) * 1_000_000_000 + nanos;
            let whole = whole_seconds_between(started, now, nanos);
            &&& span >= 0 ==> whole * 1_000_000_000 <= span < (whole + 1) * 1_000_000_000
            &&& span < 0 ==> (whole - 1) * 1_000_000_000 < span <= whole * 1_000_000_000
        }),
{
}

/// The number of viewers stands in front of the word, which is in the plural if there are
/// more than one, and otherwise has the character with the number zero behind it.
pub proof fn viewers_are_counted(count: int)
    ensures
        count > 1 ==> viewers_text(count) == crate::text::decimal_int(count) + " viewers"@,
        count <= 1 ==> viewers_text(count) == (crate::text::decimal_int(count) + " viewer"@).push(
            '\0',
        ),
{
    reveal_strlit(" viewer");
    reveal_strlit(" viewers");
    assert(" viewers"@ =~= " viewer"@ + seq!['s']);
    assert(crate::text::decimal_int(count) + " viewer"@ + seq!['s'] =~= crate::text::decimal_int(
        count,
    ) + (" viewer"@ + seq!['s']));
    assert(crate::text::decimal_int(count) + " viewer"@ + seq!['\0'] =~= (crate::text::decimal_int(
        count,
    ) + " viewer"@).push('\0'));
}

/// Each line about a stream says what it is for: the title, the game and its id, the start and
/// how long ago it was, the viewers, and whether the stream is for adults.
pub proof fn lines_say_what_they_are_for(stream: Stream, started_at: Seq<char>, uptime: int)
    ensures
        ({
            let lines = info_of(stream, started_at, uptime);
            &&& lines.title == stream.title@
            &&& lines.game == stream.game_name@
            &&& lines.game_hint == "game id: "@ + stream.game_id@
            &&& lines.started_at == started_at
            &&& lines.started_hint == crate::duration::sentence(crate::duration::segments(uptime))
                + " ago"@
            &&& lines.viewers == viewers_text(stream.viewer_count as int)
            &&& stream.is_mature ==> lines.mature == "Yes"@
            &&& !stream.is_mature ==> lines.mature == "No"@
        }),
{
}

/// What is said of a stream rests on its start as the server wrote it, with an offset of zero
/// in place of the `Z`: the start is shown at the local offset, and the uptime counts from it
/// to the present.
pub proof fn starts_are_read_as_the_server_writes_them(
    stream: Stream,
    now: int,
    nanos: int,
    offset: i32,
)
    ensures
        ({
            let written = crate::text::replaced(stream.started_at@, 'Z', " +00"@);
            let read = "[year]-[month]-[day]T[hour]:[minute]:[second] [offset_hour]"@;
            let write = "[year]-[month]-[day] [hour]:[minute]:[second] [offset_hour][offset_minute]"@;
            &&& start_of(stream) == read_time(written, read)
            &&& local_start_of(stream, offset) == local_time(written, read, offset, write)
            &&& local_time(written, read, offset, write) is None ==> told(
                stream,
                now,
                nanos,
                offset,
            ) is None
            &&& local_time(written, read, offset, write) matches Some(text) ==> told(
                stream,
                now,
                nanos,
                offset,
            ) == Some(
                info_of(
                    stream,
                    text,
                    whole_seconds_between(read_time(written, read)->Some_0 as int, now, nanos),
                ),
            )
        }),
{
}

/// The lines about a stream are known by all of their texts.
pub proof fn views_of_lines_are_whole(info: StreamInfo)
    ensures
        info@.title == info.title@,
        info@.game == info.game@,
        info@.game_hint == info.game_hint@,
        info@.started_at == info.started_at@,
        info@.started_hint == info.started_hint@,
        info@.viewers == info.viewers@,
        info@.mature == info.mature@,
{
}

} // verus!
