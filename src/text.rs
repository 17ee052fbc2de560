//! Text injection: line breaks normalised for the platform, UTF-16 code units,
//! and the fixed-size chunks that become one synthetic key-down/key-up pair each.
use vstd::prelude::*;
use vstd::string::StrSliceExecFns;
use crate::platform::{LineBreakStyle, PlatformKind, line_break_style_of};
use crate::strings::{trim_of, trim_str};

verus! {

/// Number of UTF-16 code units carried by one synthetic keyboard event.
pub const CHUNK_UNITS: usize = 24;

/// What `\n` becomes in the given convention.
pub open spec fn line_break(style: LineBreakStyle) -> Seq<char> {
    match style {
        LineBreakStyle::CarriageReturn => seq!['\r'],
        LineBreakStyle::CarriageReturnLineFeed => seq!['\r', '\n'],
    }
}

/// What one character of the input becomes after line-break normalisation.
pub open spec fn normalized_char(c: char, style: LineBreakStyle) -> Seq<char> {
    if c == '\n' {
        line_break(style)
    } else {
        seq![c]
    }
}

/// The text with every `\n` replaced by the platform's line break.
pub open spec fn normalize(s: Seq<char>, style: LineBreakStyle) -> Seq<char>
    decreases s.len(),
{
    if s.len() == 0 {
        Seq::empty()
    } else {
        normalize(s.drop_last(), style) + normalized_char(s.last(), style)
    }
}

/// The UTF-16 code units of one character.
pub open spec fn utf16_of(c: char) -> Seq<u16> {
    let v = c as u32 as int;
    if v < 0x10000 {
        seq![v as u16]
    } else {
        seq![(0xD800 + (v - 0x10000) / 1024) as u16, (0xDC00 + (v - 0x10000) % 1024) as u16]
    }
}

/// The UTF-16 encoding of a character sequence.
pub open spec fn encode_utf16(s: Seq<char>) -> Seq<u16>
    decreases s.len(),
{
    if s.len() == 0 {
        Seq::empty()
    } else {
        encode_utf16(s.drop_last()) + utf16_of(s.last())
    }
}

pub open spec fn is_high_surrogate(u: u16) -> bool {
    0xD800 <= u <= 0xDBFF
}

pub open spec fn is_low_surrogate(u: u16) -> bool {
    0xDC00 <= u <= 0xDFFF
}

/// Every high surrogate is followed by a low one: no pair is cut.
pub open spec fn pairs_whole(s: Seq<u16>) -> bool {
    forall|i: int|
        0 <= i < s.len() && is_high_surrogate(#[trigger] s[i]) ==> i + 1 < s.len()
            && is_low_surrogate(s[i + 1])
}

/// Length of the first chunk: `k` units, or `k - 1` where the `k`-th unit is
/// the first half of a surrogate pair, so that a character is never split.
pub open spec fn first_chunk_len(s: Seq<u16>, k: nat) -> nat {
    if s.len() <= k {
        s.len()
    } else if is_high_surrogate(s[k - 1]) {
        (k - 1) as nat
    } else {
        k
    }
}

/// `s` cut into consecutive chunks of at most `k` units, each ending on a
/// character boundary.
pub open spec fn chunked(s: Seq<u16>, k: nat) -> Seq<Seq<u16>>
    recommends
        k >= 2,
    decreases s.len(),
{
    if s.len() == 0 || k < 2 {
        Seq::empty()
    } else {
        let n = first_chunk_len(s, k);
        seq![s.take(n as int)] + chunked(s.skip(n as int), k)
    }
}

/// The code units that injecting `text` posts, in order.
pub open spec fn injected_units(text: Seq<char>, style: LineBreakStyle) -> Seq<u16> {
    encode_utf16(normalize(text, style))
}

/// The contents of a list of chunks.
pub open spec fn chunk_views(chunks: Seq<Vec<u16>>) -> Seq<Seq<u16>> {
    chunks.map_values(|c: Vec<u16>| c@)
}

/// The keystroke events that type a text: each chunk is posted as one key-down
/// and one key-up event, and `delay_ms` is slept after each chunk when non-zero.
pub struct InjectionPlan {
    pub chunks: Vec<Vec<u16>>,
    pub delay_ms: u64,
}

/// Why a text cannot be injected.
#[derive(Clone, Copy, Debug, PartialEq, Eq, Structural)]
pub enum InjectError {
    /// Synthetic keyboard input is not implemented on this platform.
    Unsupported,
    /// The process may not post synthetic input until the user allows it.
    PermissionRequired,
}

pub open spec fn inject_error_text(e: InjectError) -> Seq<char> {
    match e {
        InjectError::Unsupported => "Auto-typing is not supported on this platform"@,
        InjectError::PermissionRequired => "Accessibility permission is required to type into other apps. Enable it in System Settings \u{2192} Privacy & Security \u{2192} Accessibility."@,
    }
}

impl InjectError {
    pub fn message(&self) -> (r: String)
        ensures
            r@ == inject_error_text(*self),
    {
        match self {
            InjectError::Unsupported => String::from_str(
                "Auto-typing is not supported on this platform",
            ),
            InjectError::PermissionRequired => String::from_str(
                "Accessibility permission is required to type into other apps. Enable it in System Settings \u{2192} Privacy & Security \u{2192} Accessibility.",
            ),
        }
    }
}

proof fn lemma_encode_concat(a: Seq<char>, b: Seq<char>)
    ensures
        encode_utf16(a + b) == encode_utf16(a) + encode_utf16(b),
    decreases b.len(),
{
    if b.len() == 0 {
        assert(a + b == a);
        assert(encode_utf16(b) == Seq::<u16>::empty());
        assert(encode_utf16(a) + encode_utf16(b) == encode_utf16(a));
    } else {
        let ab = a + b;
        assert(ab.drop_last() == a + b.drop_last());
        assert(ab.last() == b.last());
        lemma_encode_concat(a, b.drop_last());
        assert(encode_utf16(a + b) == encode_utf16(a + b.drop_last()) + utf16_of(b.last()));
        assert(encode_utf16(b) == encode_utf16(b.drop_last()) + utf16_of(b.last()));
    }
}

proof fn lemma_encode_one(c: char)
    ensures
        encode_utf16(seq![c]) == utf16_of(c),
{
    let s = seq![c];
    assert(s.drop_last() == Seq::<char>::empty());
    assert(encode_utf16(Seq::<char>::empty()) == Seq::<u16>::empty());
    assert(Seq::<u16>::empty() + utf16_of(c) == utf16_of(c));
}

proof fn lemma_encode_two(c: char, d: char)
    ensures
        encode_utf16(seq![c, d]) == utf16_of(c) + utf16_of(d),
{
    let s = seq![c, d];
    assert(s.drop_last() == seq![c]);
    lemma_encode_one(c);
}

/// The UTF-16 units of one character of the input, after normalisation.
fn push_units(out: &mut Vec<u16>, c: char, style: LineBreakStyle)
    ensures
        final(out)@ == old(out)@ + encode_utf16(normalized_char(c, style)),
{
    if c == '\n' {
        proof {
            lemma_encode_one('\r');
            lemma_encode_two('\r', '\n');
            assert(('\r' as u32) == 13u32);
            assert(('\n' as u32) == 10u32);
        }
        out.push(0x0Du16);
        if let LineBreakStyle::CarriageReturnLineFeed = style {
            out.push(0x0Au16);
        }
    } else {
        proof {
            lemma_encode_one(c);
            vstd::utf8::char_is_scalar(c);
        }
        let v = c as u32;
        if v < 0x10000 {
            out.push(v as u16);
        } else {
            let w = v - 0x10000;
            out.push((0xD800 + w / 1024) as u16);
            out.push((0xDC00 + w % 1024) as u16);
        }
    }
}

/// The code units that typing `text` posts: line breaks normalised, then UTF-16.
pub fn encode_for_injection(text: &str, style: LineBreakStyle) -> (r: Vec<u16>)
    ensures
        r@ == injected_units(text@, style),
{
    let n = text.unicode_len();
    let mut out: Vec<u16> = Vec::new();
    let mut i: usize = 0;
    while i < n
        invariant
            n == text@.len(),
            i <= n,
            out@ == encode_utf16(normalize(text@.subrange(0, i as int), style)),
        decreases n - i,
    {
        let c = text.get_char(i);
        proof {
            let pre = text@.subrange(0, i as int);
            let next = text@.subrange(0, i + 1);
            assert(next.drop_last() == pre);
            assert(next.last() == c);
            lemma_encode_concat(normalize(pre, style), normalized_char(c, style));
        }
        push_units(&mut out, c, style);
        i = i + 1;
    }
    assert(text@.subrange(0, n as int) == text@);
    out
}

/// Splits `units` into chunks of at most `size` units that never end inside a
/// surrogate pair.
pub fn chunk_units(units: &Vec<u16>, size: usize) -> (r: Vec<Vec<u16>>)
    requires
        size >= 2,
    ensures
        chunk_views(r@) == chunked(units@, size as nat),
{
    let n = units.len();
    let mut chunks: Vec<Vec<u16>> = Vec::new();
    let mut start: usize = 0;
    proof {
        assert(units@.skip(0) == units@);
        assert(chunk_views(chunks@) == Seq::<Seq<u16>>::empty());
        assert(Seq::<Seq<u16>>::empty() + chunked(units@, size as nat) == chunked(
            units@,
            size as nat,
        ));
    }
    while start < n
        invariant
            n == units@.len(),
            start <= n,
            size >= 2,
            chunk_views(chunks@) + chunked(units@.skip(start as int), size as nat) == chunked(
                units@,
                size as nat,
            ),
        decreases n - start,
    {
        let end: usize = if n - start <= size {
            n
        } else if 0xD800 <= units[start + size - 1] && units[start + size - 1] <= 0xDBFF {
            start + size - 1
        } else {
            start + size
        };
        let mut chunk: Vec<u16> = Vec::new();
        let mut j: usize = start;
        while j < end
            invariant
                start <= j <= end <= n,
                n == units@.len(),
                chunk@ == units@.subrange(start as int, j as int),
            decreases end - j,
        {
            chunk.push(units[j]);
            j = j + 1;
        }
        proof {
            let rest = units@.skip(start as int);
            assert(rest.len() > 0);
            let first = first_chunk_len(rest, size as nat);
            if rest.len() > size {
                assert(rest[size - 1] == units@[start + size - 1]);
            }
            assert(first == end - start);
            assert(chunk@ == rest.take(first as int));
            assert(rest.skip(first as int) == units@.skip(end as int));
            let old_views = chunk_views(chunks@);
            assert(chunk_views(chunks@.push(chunk)) == old_views.push(chunk@));
            assert(old_views.push(chunk@) + chunked(units@.skip(end as int), size as nat) == old_views
                + chunked(rest, size as nat));
        }
        chunks.push(chunk);
        start = end;
    }
    proof {
        assert(units@.skip(n as int).len() == 0);
        assert(chunked(units@.skip(n as int), size as nat) == Seq::<Seq<u16>>::empty());
        assert(chunk_views(chunks@) + Seq::<Seq<u16>>::empty() == chunk_views(chunks@));
    }
    chunks
}

/// Plans the synthetic keystrokes that type `text` into the focused application.
///
/// Fails only where the platform has no injection. An empty text gives a plan
/// with no events at all.
pub fn type_text(text: &str, per_chunk_delay_ms: u64, platform: PlatformKind) -> (r: Result<
    InjectionPlan,
    InjectError,
>)
    ensures
        platform == PlatformKind::Unsupported <==> r == Err::<InjectionPlan, InjectError>(
            InjectError::Unsupported,
        ),
        platform != PlatformKind::Unsupported <==> r is Ok,
        r is Ok ==> ({
            let style = line_break_style_of(platform)->Some_0;
            &&& line_break_style_of(platform) is Some
            &&& chunk_views(r->Ok_0.chunks@) == chunked(
                injected_units(text@, style),
                CHUNK_UNITS as nat,
            )
            &&& r->Ok_0.delay_ms == per_chunk_delay_ms
        }),
{
    match platform.line_break_style() {
        None => Err(InjectError::Unsupported),
        Some(style) => {
            let units = encode_for_injection(text, style);
            let chunks = chunk_units(&units, CHUNK_UNITS);
            Ok(InjectionPlan { chunks, delay_ms: per_chunk_delay_ms })
        },
    }
}

/// Plans typing `text`, given `trimmed`, the text without its surrounding
/// blanks. A blank text types nothing; otherwise the process must hold the
/// permission to post synthetic input.
pub fn plan_typing_trimmed(
    text: &str,
    trimmed: &str,
    per_chunk_delay_ms: u64,
    platform: PlatformKind,
    permission_granted: bool,
) -> (r: Result<InjectionPlan, InjectError>)
    ensures
        trimmed@.len() == 0 ==> (r matches Ok(p) && p.chunks@.len() == 0 && p.delay_ms
            == per_chunk_delay_ms),
        trimmed@.len() != 0 && !permission_granted ==> r == Err::<InjectionPlan, InjectError>(
            InjectError::PermissionRequired,
        ),
        trimmed@.len() != 0 && permission_granted && platform == PlatformKind::Unsupported
            ==> r == Err::<InjectionPlan, InjectError>(InjectError::Unsupported),
        trimmed@.len() != 0 && permission_granted && platform != PlatformKind::Unsupported ==> (
        r matches Ok(p) && chunk_views(p.chunks@) == chunked(
            injected_units(text@, line_break_style_of(platform)->Some_0),
            CHUNK_UNITS as nat,
        ) && p.delay_ms == per_chunk_delay_ms),
{
    if trimmed.unicode_len() == 0 {
        return Ok(InjectionPlan { chunks: Vec::new(), delay_ms: per_chunk_delay_ms });
    }
    if !permission_granted {
        return Err(InjectError::PermissionRequired);
    }
    type_text(text, per_chunk_delay_ms, platform)
}

/// Plans typing a transcription into the focused application: as
/// `plan_typing_trimmed`, with the text trimmed by `str::trim`.
pub fn plan_typing(
    text: &str,
    per_chunk_delay_ms: u64,
    platform: PlatformKind,
    permission_granted: bool,
) -> (r: Result<InjectionPlan, InjectError>)
    ensures
        trim_of(text@).len() == 0 ==> (r matches Ok(p) && p.chunks@.len() == 0 && p.delay_ms
            == per_chunk_delay_ms),
        trim_of(text@).len() != 0 && !permission_granted ==> r == Err::<InjectionPlan, InjectError>(
            InjectError::PermissionRequired,
        ),
        trim_of(text@).len() != 0 && permission_granted && platform == PlatformKind::Unsupported
            ==> r == Err::<InjectionPlan, InjectError>(InjectError::Unsupported),
        trim_of(text@).len() != 0 && permission_granted && platform != PlatformKind::Unsupported
            ==> (r matches Ok(p) && chunk_views(p.chunks@) == chunked(
            injected_units(text@, line_break_style_of(platform)->Some_0),
            CHUNK_UNITS as nat,
        ) && p.delay_ms == per_chunk_delay_ms),
{
    plan_typing_trimmed(text, trim_str(text), per_chunk_delay_ms, platform, permission_granted)
}

/// Concatenating the chunks of a sequence gives the sequence back.
pub proof fn lemma_chunks_concatenate(s: Seq<u16>, k: nat)
    requires
        k >= 2,
    ensures
        chunked(s, k).flatten() == s,
    decreases s.len(),
{
    if s.len() == 0 {
        assert(chunked(s, k) == Seq::<Seq<u16>>::empty());
        assert(s == Seq::<u16>::empty());
    } else {
        let n = first_chunk_len(s, k);
        let rest = chunked(s.skip(n as int), k);
        lemma_chunks_concatenate(s.skip(n as int), k);
        let all = seq![s.take(n as int)] + rest;
        assert(all.drop_first() == rest);
        assert(all[0] == s.take(n as int));
        assert(all.flatten() == s.take(n as int) + rest.flatten());
        assert(s.take(n as int) + s.skip(n as int) == s);
    }
}

/// Every chunk holds at least one and at most `k` units.
pub proof fn lemma_chunk_sizes(s: Seq<u16>, k: nat, i: int)
    requires
        k >= 2,
        0 <= i < chunked(s, k).len(),
    ensures
        0 < chunked(s, k)[i].len() <= k,
    decreases s.len(),
{
    let n = first_chunk_len(s, k);
    let rest = chunked(s.skip(n as int), k);
    if i > 0 {
        lemma_chunk_sizes(s.skip(n as int), k, i - 1);
        assert(chunked(s, k)[i] == rest[i - 1]);
    }
}

/// Where no surrogate pair is cut in `s`, no chunk ends with the first half of
/// a pair: each chunk holds whole characters.
pub proof fn lemma_chunks_keep_pairs(s: Seq<u16>, k: nat, i: int)
    requires
        k >= 2,
        pairs_whole(s),
        0 <= i < chunked(s, k).len(),
    ensures
        chunked(s, k)[i].len() > 0,
        !is_high_surrogate(chunked(s, k)[i].last()),
    decreases s.len(),
{
    lemma_chunk_sizes(s, k, i);
    let n = first_chunk_len(s, k);
    let tail = s.skip(n as int);
    if i == 0 {
        let c = s.take(n as int);
        assert(chunked(s, k)[0] == c);
        assert(c.last() == s[n - 1]);
        if is_high_surrogate(s[n - 1]) {
            assert(is_low_surrogate(s[n as int]));
            assert(s.len() > k && n == k - 1);
        }
    } else {
        assert forall|j: int|
            0 <= j < tail.len() && is_high_surrogate(#[trigger] tail[j]) implies j + 1 < tail.len()
                && is_low_surrogate(tail[j + 1]) by {
            assert(tail[j] == s[n + j]);
        }
        lemma_chunks_keep_pairs(tail, k, i - 1);
        assert(chunked(s, k)[i] == chunked(tail, k)[i - 1]);
    }
}

proof fn lemma_utf16_of_pairs_whole(c: char)
    ensures
        pairs_whole(utf16_of(c)),
        utf16_of(c).len() > 0,
        !is_high_surrogate(utf16_of(c).last()),
{
    vstd::utf8::char_is_scalar(c);
    let v = c as u32 as int;
    if v >= 0x10000 {
        let hi = 0xD800 + (v - 0x10000) / 1024;
        let lo = 0xDC00 + (v - 0x10000) % 1024;
        assert(0xD800 <= hi <= 0xDBFF);
        assert(0xDC00 <= lo <= 0xDFFF);
        assert(utf16_of(c)[0] == hi as u16);
        assert(utf16_of(c)[1] == lo as u16);
    }
}

/// The UTF-16 encoding of any text keeps its surrogate pairs whole.
pub proof fn lemma_encoding_pairs_whole(t: Seq<char>)
    ensures
        pairs_whole(encode_utf16(t)),
        encode_utf16(t).len() > 0 ==> !is_high_surrogate(encode_utf16(t).last()),
    decreases t.len(),
{
    if t.len() > 0 {
        lemma_encoding_pairs_whole(t.drop_last());
        lemma_utf16_of_pairs_whole(t.last());
        let a = encode_utf16(t.drop_last());
        let b = utf16_of(t.last());
        let ab = a + b;
        assert(encode_utf16(t) == ab);
        assert forall|i: int|
            0 <= i < ab.len() && is_high_surrogate(#[trigger] ab[i]) implies i + 1 < ab.len()
                && is_low_surrogate(ab[i + 1]) by {
            if i < a.len() {
                assert(ab[i] == a[i]);
                if i + 1 < a.len() {
                    assert(ab[i + 1] == a[i + 1]);
                } else {
                    assert(a.last() == a[i]);
                }
            } else {
                assert(ab[i] == b[i - a.len()]);
                assert(ab[i + 1] == b[i + 1 - a.len()]);
            }
        }
        assert(ab.last() == b.last());
    }
}

/// Typing never splits a character between two keyboard events: each chunk
/// posted ends on a character boundary.
pub proof fn lemma_injection_keeps_characters(text: Seq<char>, style: LineBreakStyle, i: int)
    requires
        0 <= i < chunked(injected_units(text, style), CHUNK_UNITS as nat).len(),
    ensures
        !is_high_surrogate(chunked(injected_units(text, style), CHUNK_UNITS as nat)[i].last()),
{
    lemma_encoding_pairs_whole(normalize(text, style));
    lemma_chunks_keep_pairs(injected_units(text, style), CHUNK_UNITS as nat, i);
}

/// Typing an empty text on a supported platform succeeds and posts no event.
pub proof fn lemma_empty_text_posts_nothing(style: LineBreakStyle)
    ensures
        injected_units(Seq::empty(), style).len() == 0,
        chunked(injected_units(Seq::empty(), style), CHUNK_UNITS as nat).len() == 0,
{
    assert(normalize(Seq::<char>::empty(), style) == Seq::<char>::empty());
    assert(encode_utf16(Seq::<char>::empty()) == Seq::<u16>::empty());
}

/// The units of all posted chunks, in order, are exactly the UTF-16 encoding of
/// the text with its line breaks normalised.
pub proof fn lemma_injection_reproduces_text(text: Seq<char>, style: LineBreakStyle)
    ensures
        chunked(injected_units(text, style), CHUNK_UNITS as nat).flatten() == encode_utf16(
            normalize(text, style),
        ),
{
    lemma_chunks_concatenate(injected_units(text, style), CHUNK_UNITS as nat);
}

} // verus!
