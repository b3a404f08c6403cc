//! Channel names as they are typed: with or without a leading `#`, in any case.
use vstd::prelude::*;
use vstd::string::StrSliceExecFns;

use crate::text::same_ignoring_ascii_case;

verus! {

/// The comparison of channel names.
pub struct Channel;

/// `name` without the `#` that it may start with.
pub open spec fn bare(name: Seq<char>) -> Seq<char> {
    if name.len() > 0 && name[0] == '#' {
        name.drop_first()
    } else {
        name
    }
}

/// Whether two names stand for one channel.
pub open spec fn same_channel(left: Seq<char>, right: Seq<char>) -> bool {
    crate::text::ascii_lowered(bare(left)) == crate::text::ascii_lowered(bare(right))
}

impl Channel {
    /// Whether `left` and `right` name one channel: a leading `#` and the case of
    /// ASCII letters do not count.
    pub fn is_eq(left: &str, right: &str) -> (r: bool)
        ensures
            r == same_channel(left@, right@),
    {
        same_ignoring_ascii_case(Self::strip_prefix(left), Self::strip_prefix(right))
    }

    /// Takes one leading `#` off `input`, if there is one.
    pub fn strip_prefix(input: &str) -> (r: &str)
        ensures
            r@ == bare(input@),
    {
        let len: usize = input.unicode_len();
        if len > 0 && input.get_char(0) == '#' {
            let rest = input.substring_char(1, len);
            assert(rest@ =~= input@.drop_first());
            rest
        } else {
            input
        }
    }
}

/// Naming one channel is an equivalence: a name stands for its own channel, the order of
/// two names does not matter, and a third name links two others.
pub proof fn same_channel_is_an_equivalence(a: Seq<char>, b: Seq<char>, c: Seq<char>)
    ensures
        same_channel(a, a),
        same_channel(a, b) ==> same_channel(b, a),
        same_channel(a, b) && same_channel(b, c) ==> same_channel(a, c),
{
}

/// A `#` in front of a bare name does not change the channel that it names.
pub proof fn hash_sign_does_not_count(name: Seq<char>)
    requires
        name.len() > 0 ==> name[0] != '#',
    ensures
        bare(seq!['#'] + name) == name,
        same_channel(seq!['#'] + name, name),
{
    assert((seq!['#'] + name).drop_first() =~= name);
}

/// The case of ASCII letters does not change the channel that a name stands for.
pub proof fn case_does_not_count(name: Seq<char>)
    ensures
        same_channel(crate::text::ascii_lowered(name), name),
{
    let low = crate::text::ascii_lowered(name);
    assert(crate::text::ascii_lowered(bare(low)) =~= crate::text::ascii_lowered(bare(name))) by {
        assert forall|c: char|
            #[trigger] crate::text::ascii_lower(crate::text::ascii_lower(c))
                == crate::text::ascii_lower(c) by {}
        if name.len() > 0 {
            assert(low[0] == crate::text::ascii_lower(name[0]));
        }
        assert(bare(low) =~= crate::text::ascii_lowered(bare(name)));
    }
}

/// Two names, with or without a `#` in front, stand for one channel exactly if behind it they
/// are equally long and at each place have the same character, or the capital and the small
/// form of one ASCII letter.
pub proof fn channels_are_told_apart(
    left: Seq<char>,
    right: Seq<char>,
    a: Seq<char>,
    b: Seq<char>,
)
    requires
        left == seq!['#'] + a || left == a && (a.len() > 0 ==> a[0] != '#'),
        right == seq!['#'] + b || right == b && (b.len() > 0 ==> b[0] != '#'),
    ensures
        bare(left) == a,
        bare(right) == b,
        same_channel(left, right) <==> a.len() == b.len() && forall|i: int|
            0 <= i < a.len() ==> {
                ||| #[trigger] a[i] == b[i]
                ||| 0x41 <= a[i] as u32 <= 0x5a && b[i] as u32 == a[i] as u32 + 32
                ||| 0x41 <= b[i] as u32 <= 0x5a && a[i] as u32 == b[i] as u32 + 32
            },
{
    assert((seq!['#'] + a).drop_first() =~= a);
    assert((seq!['#'] + b).drop_first() =~= b);
    let l = crate::text::ascii_lowered(a);
    let r = crate::text::ascii_lowered(b);
    if same_channel(left, right) {
        assert(l.len() == r.len());
        assert forall|i: int| 0 <= i < a.len() implies {
            ||| #[trigger] a[i] == b[i]
            ||| 0x41 <= a[i] as u32 <= 0x5a && b[i] as u32 == a[i] as u32 + 32
            ||| 0x41 <= b[i] as u32 <= 0x5a && a[i] as u32 == b[i] as u32 + 32
        } by {
            assert(l[i] == r[i]);
        }
    }
    if a.len() == b.len() && (forall|i: int|
        0 <= i < a.len() ==> {
            ||| #[trigger] a[i] == b[i]
            ||| 0x41 <= a[i] as u32 <= 0x5a && b[i] as u32 == a[i] as u32 + 32
            ||| 0x41 <= b[i] as u32 <= 0x5a && a[i] as u32 == b[i] as u32 + 32
        }) {
        assert forall|i: int| 0 <= i < l.len() implies l[i] == r[i] by {
            assert(a[i] == a[i]);
        }
        assert(l =~= r);
    }
}

} // verus!
