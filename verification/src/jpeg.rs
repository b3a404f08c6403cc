//! The frame and the scans of a JPEG file.
use vstd::prelude::*;

use crate::bytes::read_word;

verus! {

/// The longest side of a picture whose blocks are always counted in 16 bits without overflow.
pub const LONGEST_SIDE: u16 = 65528;

/// Whether the two bytes from `at` are a marker. A byte `ff` in front of another one only
/// fills, and one in front of a zero is no marker.
pub open spec fn is_marker(data: Seq<u8>, at: int) -> bool {
    data[at] == 0xff && data[at + 1] != 0 && data[at + 1] != 0xff
}

/// Whether a marker with this second byte is in front of a frame.
pub open spec fn starts_frame(marker: u8) -> bool {
    0xc0 <= marker <= 0xcf && marker != 0xc4 && marker != 0xc8 && marker != 0xcc
}

/// Whether a marker with this second byte is in front of tables, a restart interval, data of
/// an application or a comment: of a segment that may stand before the frame and each scan.
pub open spec fn starts_preface(marker: u8) -> bool {
    marker == 0xc4 || marker == 0xdb || marker == 0xdd || 0xe0 <= marker <= 0xef || marker == 0xfe
}

/// Where the segment ends whose marker is at `at`, if the file is long enough. The length
/// that stands behind the marker counts itself.
pub open spec fn segment_end(data: Seq<u8>, at: int) -> Option<int> {
    let length = crate::bytes::word(data, at + 2);
    if at + 3 < data.len() && length >= 2 && at + 2 + length <= data.len() {
        Some(at + 2 + length)
    } else {
        None
    }
}

/// Where the marker of the first frame is, from `at` on. Bytes in front of a marker are
/// passed over, and so is a segment that may stand before the frame.
pub open spec fn frame_from(data: Seq<u8>, at: int) -> Option<int>
    decreases data.len() - at,
{
    if at + 1 >= data.len() {
        None
    } else if !is_marker(data, at) {
        frame_from(data, at + 1)
    } else if starts_frame(data[at + 1]) {
        Some(at)
    } else if starts_preface(data[at + 1]) {
        match segment_end(data, at) {
            Some(end) => frame_from(data, end),
            None => None,
        }
    } else {
        None
    }
}

/// Whether the frame whose marker is at `at` has a whole header, with three bytes for each of
/// its components.
pub open spec fn has_header(data: Seq<u8>, at: int) -> bool {
    &&& at + 9 < data.len()
    &&& crate::bytes::word(data, at + 2) == 8 + 3 * data[at + 9]
    &&& segment_end(data, at) is Some
}

/// Where the marker of the first frame is, if the frame has a whole header.
pub open spec fn first_frame(data: Seq<u8>) -> Option<int> {
    match frame_from(data, 2) {
        Some(at) => if has_header(data, at) {
            Some(at)
        } else {
            None
        },
        None => None,
    }
}

/// The bits of a sample, by the header of the frame at `frame`.
pub open spec fn precision(data: Seq<u8>, frame: int) -> u8 {
    data[frame + 4]
}

/// The lines of the frame at `frame`.
pub open spec fn lines(data: Seq<u8>, frame: int) -> int {
    crate::bytes::word(data, frame + 5)
}

/// The columns of the frame at `frame`.
pub open spec fn columns(data: Seq<u8>, frame: int) -> int {
    crate::bytes::word(data, frame + 7)
}

/// The samples of a pixel in the frame at `frame`.
pub open spec fn components(data: Seq<u8>, frame: int) -> u8 {
    data[frame + 9]
}

/// The name of the component `k` of the frame at `frame`.
pub open spec fn component_name(data: Seq<u8>, frame: int, k: int) -> u8 {
    data[frame + 10 + 3 * k]
}

/// How many samples of the component `k` stand side by side in a unit of the frame.
pub open spec fn horizontal_factor(data: Seq<u8>, frame: int, k: int) -> int {
    data[frame + 11 + 3 * k] as int / 16
}

/// How many samples of the component `k` stand above each other in a unit of the frame.
pub open spec fn vertical_factor(data: Seq<u8>, frame: int, k: int) -> int {
    data[frame + 11 + 3 * k] as int % 16
}

/// Whether no component of the frame has more samples above each other than `k`.
pub open spec fn is_tallest(data: Seq<u8>, frame: int, k: int) -> bool {
    forall|j: int|
        0 <= j < components(data, frame) ==> #[trigger] vertical_factor(data, frame, j)
            <= vertical_factor(data, frame, k)
}

/// Whether the scan whose marker is at `scan` has a whole header, with two bytes for each of
/// its components.
pub open spec fn has_scan_header(data: Seq<u8>, scan: int) -> bool {
    &&& scan + 4 < data.len()
    &&& segment_end(data, scan) == Some(scan + 8 + 2 * data[scan + 4])
}

/// The name of the component that is the `i`th in the scan at `scan`.
pub open spec fn scan_name(data: Seq<u8>, scan: int, i: int) -> u8 {
    data[scan + 5 + 2 * i]
}

/// Whether the component with this name is in the scan at `scan`.
pub open spec fn is_scanned(data: Seq<u8>, scan: int, name: u8) -> bool {
    exists|i: int| 0 <= i < data[scan + 4] && #[trigger] scan_name(data, scan, i) == name
}

/// Whether the scan at `scan` of the frame at `frame` gives the coefficient `i` to its last
/// bit, where each component has 64 of them. Only a progressive frame gives them in parts.
pub open spec fn completes(data: Seq<u8>, frame: int, scan: int, i: int) -> bool {
    let behind = scan + 5 + 2 * data[scan + 4];
    &&& data[behind + 2] as int % 16 == 0
    &&& is_scanned(data, scan, component_name(data, frame, i / 64))
    &&& data[frame + 1] == 0xc2 ==> data[behind] <= i % 64 <= data[behind + 1]
}

/// The coefficients that are given to their last bit behind the scan at `scan`, if `done`
/// says which were before.
pub open spec fn done_behind(data: Seq<u8>, frame: int, scan: int, done: Seq<bool>) -> Seq<bool> {
    Seq::new(done.len(), |i: int| done[i] || completes(data, frame, scan, i))
}

/// Whether all coefficients of the component `k` are given to their last bit.
pub open spec fn is_done(done: Seq<bool>, k: int) -> bool {
    forall|i: int| 64 * k <= i < 64 * k + 64 ==> #[trigger] done[i]
}

/// Whether the decoder overflows in a scan of only the component `k`, where it counts blocks
/// of eight by eight samples with 16 bits.
///
/// It counts one line of blocks too far if this scan gives the rest of the component, and
/// both lines and columns if the blocks come in threes, which do not come out even.
pub open spec fn miscounts(data: Seq<u8>, frame: int, k: int, rest: bool) -> bool {
    ||| lines(data, frame) > LONGEST_SIDE && is_tallest(data, frame, k) && (rest
        || vertical_factor(data, frame, k) == 3)
    ||| columns(data, frame) > LONGEST_SIDE && horizontal_factor(data, frame, k) == 3
}

/// Whether the decoder overflows in the scan at `scan` of the frame at `frame`, if `done`
/// says which coefficients it has. It does not in a scan of several components.
pub open spec fn scan_overflows(data: Seq<u8>, frame: int, scan: int, done: Seq<bool>) -> bool {
    &&& data[scan + 4] == 1
    &&& exists|k: int|
        0 <= k < components(data, frame) && #[trigger] component_name(data, frame, k) == scan_name(
            data,
            scan,
            0,
        ) && miscounts(
            data,
            frame,
            k,
            !is_done(done, k) && is_done(done_behind(data, frame, scan, done), k),
        )
}

/// Whether the decoder overflows in a scan of the frame at `frame`, from `at` on, if `done`
/// says which coefficients it has. The samples of a scan, and the markers for a restart in
/// them, are passed over.
pub open spec fn overflows_from(data: Seq<u8>, frame: int, at: int, done: Seq<bool>) -> bool
    decreases data.len() - at,
{
    if at + 1 >= data.len() {
        false
    } else if !is_marker(data, at) || 0xd0 <= data[at + 1] <= 0xd7 {
        overflows_from(data, frame, at + 1, done)
    } else if data[at + 1] == 0xda {
        has_scan_header(data, at) && (scan_overflows(data, frame, at, done) || overflows_from(
            data,
            frame,
            at + 8 + 2 * data[at + 4],
            done_behind(data, frame, at, done),
        ))
    } else if starts_preface(data[at + 1]) {
        match segment_end(data, at) {
            Some(end) => overflows_from(data, frame, end, done),
            None => false,
        }
    } else {
        false
    }
}

/// No coefficient of `count` components.
pub open spec fn nothing_done(count: u8) -> Seq<bool> {
    Seq::new(64 * count as nat, |i: int| false)
}

/// Whether the decoder gives two bytes for each sample of a lossless frame, which it does
/// unless a sample has eight bits, and the picture does not have room for them, which it has
/// only if there is one component, of more than eight bits.
pub open spec fn overfills(data: Seq<u8>, frame: int) -> bool {
    if components(data, frame) == 1 {
        2 <= precision(data, frame) <= 7
    } else {
        2 <= precision(data, frame) <= 16 && precision(data, frame) != 8
    }
}

/// Whether the decoder can cope with the frame of a JPEG file. It refuses a frame of another
/// kind, and one that has not one, three or four components.
pub open spec fn frame_fits(data: Seq<u8>) -> bool {
    match first_frame(data) {
        None => true,
        Some(frame) => {
            let marker = data[frame + 1];
            let count = components(data, frame);
            if count != 1 && count != 3 && count != 4 {
                true
            } else if marker == 0xc3 {
                !overfills(data, frame)
            } else if 0xc0 <= marker <= 0xc2 && precision(data, frame) == 8 && (lines(data, frame)
                > LONGEST_SIDE || columns(data, frame) > LONGEST_SIDE) {
                !overflows_from(data, frame, frame + 10 + 3 * count, nothing_done(count))
            } else {
                true
            }
        },
    }
}

/// Decides [`starts_preface`].
fn is_preface(marker: u8) -> (r: bool)
    ensures
        r == starts_preface(marker),
{
    marker == 0xc4 || marker == 0xdb || marker == 0xdd || (0xe0 <= marker && marker <= 0xef)
        || marker == 0xfe
}

/// Finds the end of the segment whose marker is at `at`.
fn find_end(data: &[u8], at: usize) -> (r: Option<usize>)
    requires
        at < data@.len(),
    ensures
        match segment_end(data@, at as int) {
            Some(end) => r matches Some(n) && n == end,
            None => r is None,
        },
{
    if data.len() - at <= 3 {
        return None;
    }
    let length: usize = read_word(data, at + 2) as usize;
    if length < 2 || length > data.len() - at - 2 {
        return None;
    }
    Some(at + 2 + length)
}

/// Finds the marker of the first frame in a JPEG file.
pub fn find_frame(data: &[u8]) -> (r: Option<usize>)
    ensures
        match first_frame(data@) {
            Some(at) => r matches Some(n) && n == at,
            None => r is None,
        },
{
    let mut at: usize = 2;
    while at < data.len() && data.len() - at > 1
        invariant
            frame_from(data@, 2) == frame_from(data@, at as int),
        decreases data.len() - at,
    {
        let marker = data[at + 1];
        if data[at] != 0xff || marker == 0 || marker == 0xff {
            at = at + 1;
        } else if 0xc0 <= marker && marker <= 0xcf && marker != 0xc4 && marker != 0xc8 && marker
            != 0xcc {
            if data.len() - at <= 9 || read_word(data, at + 2) != 8 + 3 * data[at + 9] as u16 {
                return None;
            }
            return match find_end(data, at) {
                Some(_) => Some(at),
                None => None,
            };
        } else if is_preface(marker) {
            match find_end(data, at) {
                Some(end) => {
                    at = end;
                },
                None => {
                    return None;
                },
            }
        } else {
            return None;
        }
    }
    None
}

/// Decides [`is_tallest`].
fn check_tallest(data: &[u8], frame: usize, k: usize) -> (r: bool)
    requires
        has_header(data@, frame as int),
        k < components(data@, frame as int),
    ensures
        r == is_tallest(data@, frame as int, k as int),
{
    let size: usize = data.len();
    let count: usize = data[frame + 9] as usize;
    let own: u8 = data[frame + 11 + 3 * k] % 16;
    let mut j: usize = 0;
    while j < count
        invariant
            size == data@.len(),
            has_header(data@, frame as int),
            count == components(data@, frame as int),
            k < count,
            own == vertical_factor(data@, frame as int, k as int),
            forall|i: int|
                0 <= i < j ==> #[trigger] vertical_factor(data@, frame as int, i)
                    <= vertical_factor(data@, frame as int, k as int),
        decreases count - j,
    {
        let factor: u8 = data[frame + 11 + 3 * j] % 16;
        assert(factor == vertical_factor(data@, frame as int, j as int));
        if factor > own {
            return false;
        }
        j = j + 1;
    }
    true
}

/// Decides [`has_scan_header`].
fn check_scan_header(data: &[u8], scan: usize) -> (r: bool)
    requires
        scan < data@.len(),
    ensures
        r == has_scan_header(data@, scan as int),
{
    if data.len() - scan <= 4 {
        return false;
    }
    match find_end(data, scan) {
        Some(end) => end - scan == 8 + 2 * data[scan + 4] as usize,
        None => false,
    }
}

/// Decides [`is_scanned`].
fn check_scanned(data: &[u8], scan: usize, name: u8) -> (r: bool)
    requires
        has_scan_header(data@, scan as int),
    ensures
        r == is_scanned(data@, scan as int, name),
{
    let size: usize = data.len();
    let count: usize = data[scan + 4] as usize;
    let mut i: usize = 0;
    while i < count
        invariant
            size == data@.len(),
            has_scan_header(data@, scan as int),
            count == data@[scan + 4],
            forall|j: int| 0 <= j < i ==> #[trigger] scan_name(data@, scan as int, j) != name,
        decreases count - i,
    {
        let own: u8 = data[scan + 5 + 2 * i];
        assert(own == scan_name(data@, scan as int, i as int));
        if own == name {
            return true;
        }
        i = i + 1;
    }
    false
}

/// Finds the coefficients that are given to their last bit behind the scan at `scan`.
fn find_done(data: &[u8], frame: usize, scan: usize, done: &Vec<bool>) -> (r: Vec<bool>)
    requires
        has_header(data@, frame as int),
        has_scan_header(data@, scan as int),
        done@.len() == 64 * components(data@, frame as int),
    ensures
        r@ == done_behind(data@, frame as int, scan as int, done@),
{
    let size: usize = data.len();
    let progressive: bool = data[frame + 1] == 0xc2;
    let behind: usize = scan + 5 + 2 * data[scan + 4] as usize;
    let first: u8 = data[behind];
    let last: u8 = data[behind + 1];
    let whole: bool = data[behind + 2] % 16 == 0;
    let mut after: Vec<bool> = Vec::new();
    while after.len() < done.len()
        invariant
            size == data@.len(),
            has_header(data@, frame as int),
            has_scan_header(data@, scan as int),
            done@.len() == 64 * components(data@, frame as int),
            progressive == (data@[frame + 1] == 0xc2),
            behind == scan + 5 + 2 * data@[scan + 4],
            first == data@[behind as int],
            last == data@[behind + 1],
            whole == (data@[behind + 2] as int % 16 == 0),
            after@.len() <= done@.len(),
            forall|j: int|
                0 <= j < after@.len() ==> #[trigger] after@[j] == (done@[j] || completes(
                    data@,
                    frame as int,
                    scan as int,
                    j,
                )),
        decreases done.len() - after.len(),
    {
        let i: usize = after.len();
        let k: usize = i / 64;
        let name: u8 = data[frame + 10 + 3 * k];
        assert(name == component_name(data@, frame as int, i as int / 64));
        let given: bool = done[i] || (whole && (!progressive || (first as usize <= i % 64 && i % 64
            <= last as usize)) && check_scanned(data, scan, name));
        after.push(given);
    }
    assert(after@ =~= done_behind(data@, frame as int, scan as int, done@));
    after
}

/// Decides [`is_done`].
fn check_done(done: &Vec<bool>, k: usize) -> (r: bool)
    requires
        64 * k + 64 <= done@.len(),
    ensures
        r == is_done(done@, k as int),
{
    let size: usize = done.len();
    let end: usize = 64 * k + 64;
    let mut i: usize = 64 * k;
    while i < end
        invariant
            size == done@.len(),
            end == 64 * k + 64,
            end <= size,
            64 * k <= i <= end,
            forall|j: int| 64 * k <= j < i ==> #[trigger] done@[j],
        decreases end - i,
    {
        if !done[i] {
            return false;
        }
        i = i + 1;
    }
    true
}

/// Decides [`scan_overflows`], with the coefficients that are done behind the scan.
fn check_scan(
    data: &[u8],
    frame: usize,
    scan: usize,
    done: &Vec<bool>,
    after: &Vec<bool>,
) -> (r: bool)
    requires
        has_header(data@, frame as int),
        has_scan_header(data@, scan as int),
        done@.len() == 64 * components(data@, frame as int),
        after@ == done_behind(data@, frame as int, scan as int, done@),
    ensures
        r == scan_overflows(data@, frame as int, scan as int, done@),
{
    let size: usize = data.len();
    if data[scan + 4] != 1 {
        return false;
    }
    let tall: bool = read_word(data, frame + 5) > LONGEST_SIDE;
    let wide: bool = read_word(data, frame + 7) > LONGEST_SIDE;
    let name: u8 = data[scan + 5];
    let count: usize = data[frame + 9] as usize;
    let mut k: usize = 0;
    while k < count
        invariant
            size == data@.len(),
            has_header(data@, frame as int),
            data@[scan + 4] == 1,
            tall == (lines(data@, frame as int) > LONGEST_SIDE),
            wide == (columns(data@, frame as int) > LONGEST_SIDE),
            name == scan_name(data@, scan as int, 0),
            count == components(data@, frame as int),
            done@.len() == 64 * count,
            after@ == done_behind(data@, frame as int, scan as int, done@),
            forall|i: int|
                0 <= i < k && #[trigger] component_name(data@, frame as int, i) == name
                    ==> !miscounts(
                    data@,
                    frame as int,
                    i,
                    !is_done(done@, i) && is_done(after@, i),
                ),
        decreases count - k,
    {
        let own: u8 = data[frame + 10 + 3 * k];
        let factors: u8 = data[frame + 11 + 3 * k];
        assert(own == component_name(data@, frame as int, k as int));
        assert(factors % 16 == vertical_factor(data@, frame as int, k as int));
        assert(factors / 16 == horizontal_factor(data@, frame as int, k as int));
        if own == name {
            let rest: bool = !check_done(done, k) && check_done(after, k);
            if tall && (rest || factors % 16 == 3) && check_tallest(data, frame, k) || wide
                && factors / 16 == 3 {
                return true;
            }
        }
        k = k + 1;
    }
    false
}

/// Decides whether the decoder can cope with the frame of a JPEG file.
pub fn check_frame(data: &[u8]) -> (r: bool)
    ensures
        r == frame_fits(data@),
{
    let frame: usize = match find_frame(data) {
        Some(at) => at,
        None => {
            return true;
        },
    };
    assert(data@.len() == data.len());
    let marker: u8 = data[frame + 1];
    let bits: u8 = data[frame + 4];
    let count: u8 = data[frame + 9];
    if count != 1 && count != 3 && count != 4 {
        return true;
    }
    if marker == 0xc3 {
        return if count == 1 {
            bits < 2 || bits > 7
        } else {
            bits < 2 || bits > 16 || bits == 8
        };
    }
    if marker < 0xc0 || marker > 0xc2 || bits != 8 {
        return true;
    }
    if read_word(data, frame + 5) <= LONGEST_SIDE && read_word(data, frame + 7) <= LONGEST_SIDE {
        return true;
    }
    let size: usize = data.len();
    let total: usize = 64 * count as usize;
    let mut done: Vec<bool> = Vec::new();
    while done.len() < total
        invariant
            total == 64 * count,
            done@.len() <= total,
            forall|i: int| 0 <= i < done@.len() ==> !#[trigger] done@[i],
        decreases total - done.len(),
    {
        done.push(false);
    }
    assert(done@ =~= nothing_done(count));
    let mut at: usize = frame + 10 + 3 * count as usize;
    while at < size && size - at > 1
        invariant
            size == data@.len(),
            has_header(data@, frame as int),
            done@.len() == 64 * components(data@, frame as int),
            frame_fits(data@) == !overflows_from(data@, frame as int, at as int, done@),
        decreases size - at,
    {
        let marker = data[at + 1];
        if data[at] != 0xff || marker == 0 || marker == 0xff || (0xd0 <= marker && marker <= 0xd7) {
            at = at + 1;
        } else if marker == 0xda {
            if !check_scan_header(data, at) {
                return true;
            }
            let after = find_done(data, frame, at, &done);
            if check_scan(data, frame, at, &done, &after) {
                return false;
            }
            at = at + 8 + 2 * data[at + 4] as usize;
            done = after;
        } else if is_preface(marker) {
            match find_end(data, at) {
                Some(end) => {
                    at = end;
                },
                None => {
                    return true;
                },
            }
        } else {
            return true;
        }
    }
    true
}

/// The frame is found by passing over bytes that are no marker, and over tables, restart
/// intervals, data of applications and comments as long as they say they are; whatever else
/// comes first, there is no frame.
pub proof fn frames_are_found_behind_the_tables(data: Seq<u8>, at: int)
    requires
        0 <= at,
    ensures
        at + 1 >= data.len() ==> frame_from(data, at) is None,
        at + 1 < data.len() ==> ({
            let marker = data[at + 1];
            let marked = data[at] == 0xff && marker != 0 && marker != 0xff;
            let framed = marker == 0xc0 || marker == 0xc1 || marker == 0xc2 || marker == 0xc3
                || marker == 0xc5 || marker == 0xc6 || marker == 0xc7 || marker == 0xc9 || marker
                == 0xca || marker == 0xcb || marker == 0xcd || marker == 0xce || marker == 0xcf;
            let passed = marker == 0xc4 || marker == 0xdb || marker == 0xdd || marker == 0xfe
                || 0xe0 <= marker <= 0xef;
            let length = 0x100 * data[at + 2] + data[at + 3];
            let whole = at + 3 < data.len() && length >= 2 && at + 2 + length <= data.len();
            &&& !marked ==> frame_from(data, at) == frame_from(data, at + 1)
            &&& marked && framed ==> frame_from(data, at) == Some(at)
            &&& marked && passed && whole ==> frame_from(data, at) == frame_from(
                data,
                at + 2 + length,
            )
            &&& marked && !framed && !(passed && whole) ==> frame_from(data, at) is None
        }),
        match frame_from(data, 2) {
            None => first_frame(data) is None,
            Some(frame) => {
                let length = 0x100 * data[frame + 2] + data[frame + 3];
                &&& frame + 9 < data.len() && length == 8 + 3 * data[frame + 9] && frame + 2
                    + length <= data.len() ==> first_frame(data) == Some(frame)
                &&& !(frame + 9 < data.len() && length == 8 + 3 * data[frame + 9] && frame + 2
                    + length <= data.len()) ==> first_frame(data) is None
            },
        },
{
}

/// Every frame fits but a lossless one whose samples do not fit their room, and one with a
/// long side in a scan of which the decoder overflows.
pub proof fn ordinary_frames_fit(data: Seq<u8>)
    ensures
        match first_frame(data) {
            None => frame_fits(data),
            Some(frame) => {
                let marker = data[frame + 1];
                let bits = data[frame + 4];
                let lines = 0x100 * data[frame + 5] + data[frame + 6];
                let columns = 0x100 * data[frame + 7] + data[frame + 8];
                let count = data[frame + 9];
                let known = count == 1 || count == 3 || count == 4;
                let cosine = marker == 0xc0 || marker == 0xc1 || marker == 0xc2;
                let long = lines > 65528 || columns > 65528;
                &&& !known ==> frame_fits(data)
                &&& known && marker == 0xc3 ==> (frame_fits(data) <==> bits < 2 || bits == 8 || bits
                    > 16 || count == 1 && bits > 8)
                &&& known && cosine && bits == 8 && long ==> (frame_fits(data) <==> !overflows_from(
                    data,
                    frame,
                    frame + 10 + 3 * count,
                    Seq::new(64 * count as nat, |i: int| false),
                ))
                &&& marker != 0xc3 && !(cosine && bits == 8 && long) ==> frame_fits(data)
            },
        },
{
    if let Some(frame) = first_frame(data) {
        let count = data[frame + 9];
        assert(nothing_done(count) =~= Seq::new(64 * count as nat, |i: int| false));
    }
}

/// The scans are read in order, past their samples and the restarts in them, until one of them
/// overflows or something else comes.
pub proof fn scans_are_read_in_order(data: Seq<u8>, frame: int, at: int, done: Seq<bool>)
    requires
        0 <= at,
    ensures
        at + 1 >= data.len() ==> !overflows_from(data, frame, at, done),
        at + 1 < data.len() ==> ({
            let marker = data[at + 1];
            let marked = data[at] == 0xff && marker != 0 && marker != 0xff && !(0xd0 <= marker
                <= 0xd7);
            let passed = marker == 0xc4 || marker == 0xdb || marker == 0xdd || marker == 0xfe
                || 0xe0 <= marker <= 0xef;
            let length = 0x100 * data[at + 2] + data[at + 3];
            let whole = at + 3 < data.len() && length >= 2 && at + 2 + length <= data.len();
            let scanned = at + 4 < data.len() && length == 6 + 2 * data[at + 4] && at + 2 + length
                <= data.len();
            &&& !marked ==> overflows_from(data, frame, at, done) == overflows_from(
                data,
                frame,
                at + 1,
                done,
            )
            &&& marked && passed && whole ==> overflows_from(data, frame, at, done)
                == overflows_from(data, frame, at + 2 + length, done)
            &&& marked && marker == 0xda && scanned ==> overflows_from(data, frame, at, done) == (
            scan_overflows(data, frame, at, done) || overflows_from(
                data,
                frame,
                at + 2 + length,
                done_behind(data, frame, at, done),
            ))
            &&& marked && !(passed && whole) && !(marker == 0xda && scanned) ==> !overflows_from(
                data,
                frame,
                at,
                done,
            )
        }),
{
}

/// A scan of several components never overflows. One of a single component does in a frame of
/// more than 65528 lines, if no other component is taller and the scan gives the rest of it or
/// its blocks stand in threes, or in one of more than 65528 columns, if its blocks do.
pub proof fn only_scans_of_one_component_overflow(
    data: Seq<u8>,
    frame: int,
    scan: int,
    done: Seq<bool>,
    k: int,
)
    requires
        0 <= k < data[frame + 9],
        data[frame + 10 + 3 * k] == data[scan + 5],
        forall|j: int|
            0 <= j < data[frame + 9] && j != k ==> #[trigger] component_name(data, frame, j)
                != data[scan + 5],
    ensures
        data[scan + 4] != 1 ==> !scan_overflows(data, frame, scan, done),
        data[scan + 4] == 1 ==> ({
            let lines = 0x100 * data[frame + 5] + data[frame + 6];
            let columns = 0x100 * data[frame + 7] + data[frame + 8];
            let high = data[frame + 11 + 3 * k] as int % 16;
            let wide = data[frame + 11 + 3 * k] as int / 16;
            let tallest = forall|j: int|
                0 <= j < data[frame + 9] ==> #[trigger] vertical_factor(data, frame, j) <= high;
            let after = done_behind(data, frame, scan, done);
            let rest = !(forall|i: int| 64 * k <= i < 64 * k + 64 ==> #[trigger] done[i]) && (
            forall|i: int| 64 * k <= i < 64 * k + 64 ==> #[trigger] after[i]);
            scan_overflows(data, frame, scan, done) <==> lines > 65528 && tallest && (rest || high
                == 3) || columns > 65528 && wide == 3
        }),
{
    assert(component_name(data, frame, k) == data[scan + 5]);
    assert(scan_name(data, scan, 0) == data[scan + 5]);
    assert(is_tallest(data, frame, k) <==> forall|j: int|
        0 <= j < data[frame + 9] ==> #[trigger] vertical_factor(data, frame, j) <= data[frame + 11
            + 3 * k] as int % 16);
    let after = done_behind(data, frame, scan, done);
    assert(is_done(after, k) <==> forall|i: int|
        64 * k <= i < 64 * k + 64 ==> #[trigger] after[i]);
    assert(is_done(done, k) <==> forall|i: int| 64 * k <= i < 64 * k + 64 ==> #[trigger] done[i]);
    if scan_overflows(data, frame, scan, done) {
        let j = choose|j: int|
            0 <= j < components(data, frame) && #[trigger] component_name(data, frame, j)
                == scan_name(data, scan, 0) && miscounts(
                data,
                frame,
                j,
                !is_done(done, j) && is_done(done_behind(data, frame, scan, done), j),
            );
        assert(j == k);
    }
}

/// A scan gives a coefficient to its last bit if it leaves none and has the component, and in
/// a progressive frame only if it is among those of the scan; what was given stays so.
pub proof fn scans_give_their_coefficients(
    data: Seq<u8>,
    frame: int,
    scan: int,
    done: Seq<bool>,
    k: int,
    j: int,
    n: int,
)
    requires
        0 <= k,
        0 <= j < 64,
        64 * k + j < done.len(),
        0 <= n < data[scan + 4],
    ensures
        ({
            let after = done_behind(data, frame, scan, done);
            let behind = scan + 5 + 2 * data[scan + 4];
            let own = data[frame + 10 + 3 * k] == data[scan + 5 + 2 * n];
            let among = data[frame + 1] != 0xc2 || data[behind] <= j <= data[behind + 1];
            let whole = data[behind + 2] as int % 16 == 0;
            &&& after.len() == done.len()
            &&& done[64 * k + j] ==> after[64 * k + j]
            &&& own && among && whole ==> after[64 * k + j]
            &&& !(among && whole) ==> after[64 * k + j] == done[64 * k + j]
            &&& !done[64 * k + j] && after[64 * k + j] ==> exists|i: int|
                0 <= i < data[scan + 4] && #[trigger] data[scan + 5 + 2 * i] == data[frame + 10 + 3
                    * k]
        }),
{
    let i = 64 * k + j;
    assert(i / 64 == k && i % 64 == j);
    assert(scan_name(data, scan, n) == data[scan + 5 + 2 * n]);
    assert(component_name(data, frame, k) == data[frame + 10 + 3 * k]);
    let after = done_behind(data, frame, scan, done);
    if !done[i] && after[i] {
        let m = choose|m: int|
            0 <= m < data[scan + 4] && #[trigger] scan_name(data, scan, m) == component_name(
                data,
                frame,
                k,
            );
        assert(data[scan + 5 + 2 * m] == data[frame + 10 + 3 * k]);
    }
}

/// The factors of a component stand in one byte of the header of the frame.
pub proof fn factors_share_a_byte(data: Seq<u8>, frame: int, k: int)
    ensures
        component_name(data, frame, k) == data[frame + 10 + 3 * k],
        16 * horizontal_factor(data, frame, k) + vertical_factor(data, frame, k) == data[frame + 11
            + 3 * k],
        0 <= vertical_factor(data, frame, k) < 16,
{
}

} // verus!
