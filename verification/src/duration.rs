//! Spans of time in words, such as `1 day, 2 hours and 5 seconds`.
use vstd::prelude::*;
use vstd::string::{StrSliceExecFns, StringExecFns};

use crate::text::decimal;

verus! {

/// The seconds in a day.
pub const DAY: i64 = 86400;

/// The seconds in an hour.
pub const HOUR: i64 = 3600;

/// The seconds in a minute.
pub const MINUTE: i64 = 60;

/// The whole days in a span of `secs` seconds.
pub open spec fn days_in(secs: int) -> int {
    secs / 86400
}

/// The whole hours that the days leave over.
pub open spec fn hours_in(secs: int) -> int {
    secs % 86400 / 3600
}

/// The whole minutes that the hours leave over.
pub open spec fn minutes_in(secs: int) -> int {
    secs % 3600 / 60
}

/// The seconds that the minutes leave over.
pub open spec fn seconds_in(secs: int) -> int {
    secs % 60
}

/// A count and the name of what is counted; a count of one takes the `s` off the name.
pub open spec fn counted(name: Seq<char>, n: int) -> Seq<char> {
    crate::text::decimal_int(n) + " "@ + (if n > 1 {
        name
    } else {
        name.drop_last()
    })
}

/// The segment for one unit, which is left out if there is none of it.
pub open spec fn segment(name: Seq<char>, n: int) -> Seq<Seq<char>> {
    if n > 0 {
        seq![counted(name, n)]
    } else {
        seq![]
    }
}

/// The segments of a span from the largest unit to the smallest; a span that is
/// not positive has none.
pub open spec fn segments(secs: int) -> Seq<Seq<char>> {
    if secs <= 0 {
        seq![]
    } else {
        segment("days"@, days_in(secs)) + segment("hours"@, hours_in(secs)) + segment(
            "minutes"@,
            minutes_in(secs),
        ) + segment("seconds"@, seconds_in(secs))
    }
}

/// Segments as they are read out: commas between them, and `and` before the last.
pub open spec fn sentence(parts: Seq<Seq<char>>) -> Seq<char>
    decreases parts.len(),
{
    if parts.len() == 0 {
        seq![]
    } else if parts.len() == 1 {
        parts[0]
    } else if parts.len() == 2 {
        parts[0] + " and "@ + parts[1]
    } else {
        parts[0] + ", "@ + sentence(parts.drop_first())
    }
}

/// The texts of a list of strings.
pub open spec fn texts(parts: Seq<String>) -> Seq<Seq<char>> {
    parts.map_values(|p: String| p@)
}

/// Names `n` of the unit `name`, which is given in the plural.
pub fn pluralize(name: &str, n: i64) -> (r: String)
    requires
        name@.len() > 0,
    ensures
        r@ == counted(name@, n as int),
{
    let mut out = decimal(n);
    out.append(" ");
    if n > 1 {
        out.append(name);
    } else {
        let len: usize = name.unicode_len();
        out.append(name.substring_char(0, len - 1));
        assert(name@.subrange(0, len - 1) =~= name@.drop_last());
    }
    out
}

/// Adds the segment for `n` of the unit `name` to `parts`, unless there is none of it.
fn push_segment(parts: &mut Vec<String>, name: &str, n: i64)
    requires
        name@.len() > 0,
    ensures
        texts(final(parts)@) == texts(old(parts)@) + segment(name@, n as int),
{
    if n > 0 {
        parts.push(pluralize(name, n));
    }
    assert(texts(parts@) =~= texts(old(parts)@) + segment(name@, n as int));
}

/// Reads the segments out.
fn read_out(parts: &Vec<String>) -> (r: String)
    ensures
        r@ == sentence(texts(parts@)),
{
    let ghost all = texts(parts@);
    let len: usize = parts.len();
    if len == 0 {
        return String::new();
    }
    let mut i: usize = len - 1;
    let mut out = parts[i].clone();
    assert(all.skip(i as int) =~= seq![out@]);
    while i > 0
        invariant
            i < len,
            len == parts@.len(),
            all == texts(parts@),
            out@ == sentence(all.skip(i as int)),
        decreases i,
    {
        let mut next = parts[i - 1].clone();
        if i == len - 1 {
            next.append(" and ");
        } else {
            next.append(", ");
        }
        next.append(out.as_str());
        assert(all.skip(i - 1).drop_first() =~= all.skip(i as int));
        out = next;
        i = i - 1;
    }
    assert(all.skip(0) =~= all);
    out
}

/// Says how long `secs` seconds are in days, hours, minutes and seconds.
///
/// Units of which there are none are left out, and nothing is said of a span that
/// is not positive.
pub fn format_seconds(secs: i64) -> (r: String)
    ensures
        r@ == sentence(segments(secs as int)),
{
    let mut parts: Vec<String> = Vec::new();
    if secs > 0 {
        proof {
            reveal_strlit("days");
            reveal_strlit("hours");
            reveal_strlit("minutes");
            reveal_strlit("seconds");
        }
        push_segment(&mut parts, "days", secs / DAY);
        let secs_of_day: i64 = secs % DAY;
        push_segment(&mut parts, "hours", secs_of_day / HOUR);
        let secs_of_hour: i64 = secs_of_day % HOUR;
        assert(secs_of_hour == secs % 3600);
        push_segment(&mut parts, "minutes", secs_of_hour / MINUTE);
        let secs_of_minute: i64 = secs_of_hour % MINUTE;
        assert(secs_of_minute == secs % 60);
        push_segment(&mut parts, "seconds", secs_of_minute);
    }
    assert(texts(parts@) =~= segments(secs as int));
    read_out(&parts)
}

/// The units of a span add up to it, and none of the smaller ones makes up a larger one.
pub proof fn units_add_up(secs: int)
    requires
        secs >= 0,
    ensures
        days_in(secs) * 86400 + hours_in(secs) * 3600 + minutes_in(secs) * 60 + seconds_in(secs)
            == secs,
        days_in(secs) >= 0,
        0 <= hours_in(secs) < 24,
        0 <= minutes_in(secs) < 60,
        0 <= seconds_in(secs) < 60,
{
}

/// A span is said in words exactly if it is positive.
pub proof fn words_only_for_positive_spans(secs: int)
    ensures
        sentence(segments(secs)).len() == 0 <==> secs <= 0,
{
    if secs > 0 {
        let parts = segments(secs);
        units_add_up(secs);
        assert(parts.len() > 0);
        assert(parts[0].len() > 0) by {
            reveal_strlit(" ");
        }
    }
}

/// The seconds in the unit that a name with the first letter `c` stands for; zero if no unit
/// starts with `c`.
pub open spec fn unit_size(c: char) -> int {
    if c == 'd' {
        86400
    } else if c == 'h' {
        3600
    } else if c == 'm' {
        60
    } else if c == 's' {
        1
    } else {
        0
    }
}

/// Reads one more character of a span in words: `so_far.0` are the seconds that were read,
/// and `so_far.1` is the count in front of the next unit.
pub open spec fn read_char(so_far: (int, int), c: char) -> (int, int) {
    if '0' <= c <= '9' {
        (so_far.0, so_far.1 * 10 + (c as int - 0x30))
    } else if unit_size(c) > 0 {
        (so_far.0 + so_far.1 * unit_size(c), 0)
    } else {
        so_far
    }
}

/// Reads on with the characters of `text`.
pub open spec fn read_on(so_far: (int, int), text: Seq<char>) -> (int, int)
    decreases text.len(),
{
    if text.len() == 0 {
        so_far
    } else {
        read_char(read_on(so_far, text.drop_last()), text.last())
    }
}

/// The seconds of a span in words.
pub open spec fn read_span(text: Seq<char>) -> int {
    read_on((0, 0), text).0
}

/// To read two texts is to read the first and then the second.
proof fn read_on_joined(so_far: (int, int), a: Seq<char>, b: Seq<char>)
    ensures
        read_on(so_far, a + b) == read_on(read_on(so_far, a), b),
    decreases b.len(),
{
    if b.len() == 0 {
        assert(a + b =~= a);
    } else {
        read_on_joined(so_far, a, b.drop_last());
        assert((a + b).drop_last() =~= a + b.drop_last());
        assert((a + b).last() == b.last());
    }
}

/// A numeral is read as its number.
proof fn read_numeral(total: int, n: nat)
    ensures
        read_on((total, 0), crate::text::decimal_nat(n)) == (total, n as int),
    decreases n,
{
    reveal_with_fuel(read_on, 2);
    let text = crate::text::decimal_nat(n);
    if n < 10 {
        assert(text.drop_last() =~= Seq::<char>::empty());
        assert(text.last() == crate::text::digit(n));
    } else {
        read_numeral(total, n / 10);
        assert(text.drop_last() =~= crate::text::decimal_nat(n / 10));
        assert(text.last() == crate::text::digit(n % 10));
    }
}

/// Letters after the first of a unit's name, and what stands between segments, count for
/// nothing.
proof fn read_letters(total: int, text: Seq<char>)
    requires
        forall|i: int| 0 <= i < text.len() ==> !('0' <= #[trigger] text[i] <= '9'),
    ensures
        read_on((total, 0), text) == (total, 0int),
    decreases text.len(),
{
    if text.len() > 0 {
        read_letters(total, text.drop_last());
        assert(0 * unit_size(text.last()) == 0) by (nonlinear_arith);
    }
}

/// A segment is read as its count times the size of its unit.
proof fn read_counted(total: int, name: Seq<char>, n: int)
    requires
        n > 0,
        name.len() > 1,
        unit_size(name[0]) > 0,
        forall|i: int| 0 <= i < name.len() ==> !('0' <= #[trigger] name[i] <= '9'),
    ensures
        read_on((total, 0), counted(name, n)) == (total + n * unit_size(name[0]), 0int),
{
    reveal_strlit(" ");
    let word = if n > 1 {
        name
    } else {
        name.drop_last()
    };
    let number = crate::text::decimal_nat(n as nat);
    let first = seq![word[0]];
    assert(word =~= first + word.drop_first());
    assert(counted(name, n) =~= number + (" "@ + (first + word.drop_first())));
    read_numeral(total, n as nat);
    read_on_joined((total, 0), number, " "@ + (first + word.drop_first()));
    read_on_joined((total, n), " "@, first + word.drop_first());
    reveal_with_fuel(read_on, 2);
    assert(read_on((total, n), " "@) == (total, n)) by {
        assert(" "@.drop_last() =~= Seq::<char>::empty());
    }
    read_on_joined((total, n), first, word.drop_first());
    assert(first.drop_last() =~= Seq::<char>::empty());
    assert(read_on((total, n), first) == (total + n * unit_size(name[0]), 0int));
    assert forall|i: int| 0 <= i < word.drop_first().len() implies !('0'
        <= #[trigger] word.drop_first()[i] <= '9') by {
        assert(word.drop_first()[i] == name[i + 1]);
    }
    read_letters(total + n * unit_size(name[0]), word.drop_first());
}

/// Whether `part` is read as `size` seconds wherever it stands.
pub open spec fn reads_as(part: Seq<char>, size: int) -> bool {
    forall|total: int| #[trigger] read_on((total, 0), part) == (total + size, 0int)
}

/// The sum of `sizes`.
pub open spec fn sum(sizes: Seq<int>) -> int
    decreases sizes.len(),
{
    if sizes.len() == 0 {
        0
    } else {
        sizes[0] + sum(sizes.drop_first())
    }
}

/// Segments that are read out are read as their sum.
proof fn read_sentence(total: int, parts: Seq<Seq<char>>, sizes: Seq<int>)
    requires
        parts.len() == sizes.len(),
        forall|i: int| 0 <= i < parts.len() ==> #[trigger] reads_as(parts[i], sizes[i]),
    ensures
        read_on((total, 0), sentence(parts)) == (total + sum(sizes), 0int),
    decreases parts.len(),
{
    reveal_strlit(" and ");
    reveal_strlit(", ");
    if parts.len() > 0 {
        assert(reads_as(parts[0], sizes[0]));
        let next = total + sizes[0];
        assert(read_on((total, 0), parts[0]) == (next, 0int));
        if parts.len() == 1 {
            assert(sum(sizes.drop_first()) == 0);
        } else if parts.len() == 2 {
            assert(reads_as(parts[1], sizes[1]));
            assert(read_on((next, 0), parts[1]) == (next + sizes[1], 0int));
            assert(sentence(parts) =~= parts[0] + (" and "@ + parts[1]));
            read_on_joined((total, 0), parts[0], " and "@ + parts[1]);
            read_on_joined((next, 0), " and "@, parts[1]);
            read_letters(next, " and "@);
            reveal_with_fuel(sum, 3);
            assert(sizes.drop_first()[0] == sizes[1]);
        } else {
            let rest = parts.drop_first();
            assert(sentence(parts) =~= parts[0] + (", "@ + sentence(rest)));
            read_on_joined((total, 0), parts[0], ", "@ + sentence(rest));
            read_on_joined((next, 0), ", "@, sentence(rest));
            read_letters(next, ", "@);
            assert forall|i: int| 0 <= i < rest.len() implies #[trigger] reads_as(
                rest[i],
                sizes.drop_first()[i],
            ) by {
                assert(reads_as(parts[i + 1], sizes[i + 1]));
            }
            read_sentence(next, rest, sizes.drop_first());
        }
    }
}

/// The sum of two lists of numbers is that of both.
proof fn sum_joined(a: Seq<int>, b: Seq<int>)
    ensures
        sum(a + b) == sum(a) + sum(b),
    decreases a.len(),
{
    if a.len() == 0 {
        assert(a + b =~= b);
    } else {
        sum_joined(a.drop_first(), b);
        assert((a + b).drop_first() =~= a.drop_first() + b);
    }
}

/// The sizes of the segments of one unit.
spec fn sizes_of(n: int, size: int) -> Seq<int> {
    if n > 0 {
        seq![n * size]
    } else {
        seq![]
    }
}

/// The segment of one unit is read as its size.
proof fn read_segment(name: Seq<char>, n: int)
    requires
        n >= 0,
        name.len() > 1,
        unit_size(name[0]) > 0,
        forall|i: int| 0 <= i < name.len() ==> !('0' <= #[trigger] name[i] <= '9'),
    ensures
        segment(name, n).len() == sizes_of(n, unit_size(name[0])).len(),
        forall|i: int|
            0 <= i < segment(name, n).len() ==> #[trigger] reads_as(
                segment(name, n)[i],
                sizes_of(n, unit_size(name[0]))[i],
            ),
        sum(sizes_of(n, unit_size(name[0]))) == n * unit_size(name[0]),
{
    reveal_with_fuel(sum, 2);
    let sizes = sizes_of(n, unit_size(name[0]));
    if n > 0 {
        assert forall|total: int| #[trigger] read_on((total, 0), counted(name, n)) == (
            total + sizes[0],
            0int,
        ) by {
            read_counted(total, name, n);
        }
        assert(reads_as(counted(name, n), sizes[0]));
        assert(sizes.drop_first() =~= Seq::<int>::empty());
    } else {
        assert(0 * unit_size(name[0]) == 0) by (nonlinear_arith);
    }
}

/// A span can be read back from its words.
pub proof fn spans_can_be_read_back(secs: int)
    requires
        secs >= 0,
    ensures
        read_span(sentence(segments(secs))) == secs,
{
    if secs > 0 {
        reveal_strlit("days");
        reveal_strlit("hours");
        reveal_strlit("minutes");
        reveal_strlit("seconds");
        units_add_up(secs);
        read_segment("days"@, days_in(secs));
        read_segment("hours"@, hours_in(secs));
        read_segment("minutes"@, minutes_in(secs));
        read_segment("seconds"@, seconds_in(secs));
        let d = sizes_of(days_in(secs), 86400);
        let h = sizes_of(hours_in(secs), 3600);
        let m = sizes_of(minutes_in(secs), 60);
        let s = sizes_of(seconds_in(secs), 1);
        let sizes = d + h + m + s;
        sum_joined(d + h + m, s);
        sum_joined(d + h, m);
        sum_joined(d, h);
        let parts = segments(secs);
        assert(parts.len() == sizes.len());
        assert forall|i: int| 0 <= i < parts.len() implies #[trigger] reads_as(
            parts[i],
            sizes[i],
        ) by {
            let a = d.len();
            let b = a + h.len();
            let c = b + m.len();
            if i < a {
                assert(reads_as(segment("days"@, days_in(secs))[i], d[i]));
            } else if i < b {
                assert(reads_as(segment("hours"@, hours_in(secs))[i - a], h[i - a]));
            } else if i < c {
                assert(reads_as(segment("minutes"@, minutes_in(secs))[i - b], m[i - b]));
            } else {
                assert(reads_as(segment("seconds"@, seconds_in(secs))[i - c], s[i - c]));
            }
        }
        read_sentence(0, parts, sizes);
    }
}

/// Two spans are said in the same words only if they are equally long.
pub proof fn words_tell_spans_apart(a: int, b: int)
    requires
        a >= 0,
        b >= 0,
        sentence(segments(a)) == sentence(segments(b)),
    ensures
        a == b,
{
    spans_can_be_read_back(a);
    spans_can_be_read_back(b);
}

/// The segments of a span are its days, the hours below a day, the minutes below an hour and
/// the seconds below a minute, in this order, each with its own count and none of which there
/// are none.
pub proof fn segments_count_each_unit(days: int, hours: int, minutes: int, seconds: int)
    requires
        0 <= days,
        0 <= hours < 24,
        0 <= minutes < 60,
        0 <= seconds < 60,
    ensures
        segments(86400 * days + 3600 * hours + 60 * minutes + seconds) == (if days > 1 {
            seq![crate::text::decimal_int(days) + " days"@]
        } else if days == 1 {
            seq!["1 day"@]
        } else {
            seq![]
        }) + (if hours > 1 {
            seq![crate::text::decimal_int(hours) + " hours"@]
        } else if hours == 1 {
            seq!["1 hour"@]
        } else {
            seq![]
        }) + (if minutes > 1 {
            seq![crate::text::decimal_int(minutes) + " minutes"@]
        } else if minutes == 1 {
            seq!["1 minute"@]
        } else {
            seq![]
        }) + (if seconds > 1 {
            seq![crate::text::decimal_int(seconds) + " seconds"@]
        } else if seconds == 1 {
            seq!["1 second"@]
        } else {
            seq![]
        }),
{
    let secs = 86400 * days + 3600 * hours + 60 * minutes + seconds;
    assert(days_in(secs) == days);
    assert(hours_in(secs) == hours);
    assert(minutes_in(secs) == minutes);
    assert(seconds_in(secs) == seconds);
    reveal_strlit(" ");
    reveal_strlit("days");
    reveal_strlit("hours");
    reveal_strlit("minutes");
    reveal_strlit("seconds");
    reveal_strlit(" days");
    reveal_strlit(" hours");
    reveal_strlit(" minutes");
    reveal_strlit(" seconds");
    reveal_strlit("1 day");
    reveal_strlit("1 hour");
    reveal_strlit("1 minute");
    reveal_strlit("1 second");
    assert(" "@ + "days"@ =~= " days"@);
    assert(" "@ + "hours"@ =~= " hours"@);
    assert(" "@ + "minutes"@ =~= " minutes"@);
    assert(" "@ + "seconds"@ =~= " seconds"@);
    assert(counted("days"@, days) =~= crate::text::decimal_int(days) + (" "@ + "days"@) || days
        <= 1);
    assert(counted("hours"@, hours) =~= crate::text::decimal_int(hours) + (" "@ + "hours"@) || hours
        <= 1);
    assert(counted("minutes"@, minutes) =~= crate::text::decimal_int(minutes) + (" "@ + "minutes"@)
        || minutes <= 1);
    assert(counted("seconds"@, seconds) =~= crate::text::decimal_int(seconds) + (" "@ + "seconds"@)
        || seconds <= 1);
    assert(crate::text::decimal_nat(1) =~= seq!['1']);
    assert(counted("days"@, 1) =~= "1 day"@);
    assert(counted("hours"@, 1) =~= "1 hour"@);
    assert(counted("minutes"@, 1) =~= "1 minute"@);
    assert(counted("seconds"@, 1) =~= "1 second"@);
}

/// One segment is read out as it is, two with `and` between them, and each more in front with
/// a comma behind it.
pub proof fn segments_are_joined(first: Seq<char>, second: Seq<char>, rest: Seq<Seq<char>>)
    ensures
        sentence(seq![]) == Seq::<char>::empty(),
        sentence(seq![first]) == first,
        sentence(seq![first, second]) == first + " and "@ + second,
        rest.len() >= 2 ==> sentence(seq![first] + rest) == first + ", "@ + sentence(rest),
{
    assert((seq![first] + rest).drop_first() =~= rest);
}

/// A count of more than one stands in front of the whole name, and any other in front of the
/// name without its last letter.
pub proof fn counts_above_one_take_the_plural(singular: Seq<char>, last: char, n: int)
    ensures
        n > 1 ==> counted(singular.push(last), n) == crate::text::decimal_int(n) + " "@
            + singular.push(last),
        n <= 1 ==> counted(singular.push(last), n) == crate::text::decimal_int(n) + " "@ + singular,
{
    assert(singular.push(last).drop_last() =~= singular);
}

} // verus!
