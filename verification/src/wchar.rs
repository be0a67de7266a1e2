//! Wide strings: UTF-16 code units, terminated by a zero unit, as the
//! platform's calls expect them.

use vstd::prelude::*;
use vstd::slice::slice_subrange;

verus! {

/// The UTF-16 code units of one scalar value: the value itself below
/// `0x10000`, a high and a low surrogate above.
pub open spec fn utf16_of_char(c: char) -> Seq<u16> {
    let v = c as int;
    if v < 0x10000 {
        seq![v as u16]
    } else {
        seq![(0xD800 + (v - 0x10000) / 0x400) as u16, (0xDC00 + (v - 0x10000) % 0x400) as u16]
    }
}

/// The UTF-16 code units of a string, scalar value by scalar value.
pub open spec fn utf16(s: Seq<char>) -> Seq<u16>
    decreases s.len(),
{
    if s.len() == 0 {
        Seq::empty()
    } else {
        utf16(s.drop_last()) + utf16_of_char(s.last())
    }
}

/// A string as the platform takes it: its UTF-16 code units and a
/// terminating zero.
pub open spec fn c_u16(s: Seq<char>) -> Seq<u16> {
    utf16(s).push(0u16)
}

/// Appends the UTF-16 code units of `c` to `out`.
pub fn push_utf16(out: &mut Vec<u16>, c: char)
    ensures
        final(out)@ == old(out)@ + utf16_of_char(c),
{
    let v: u32 = c as u32;
    if v < 0x10000 {
        out.push(v as u16);
    } else {
        let w: u32 = v - 0x10000;
        let hi: u32 = 0xD800 + w / 0x400;
        let lo: u32 = 0xDC00 + w % 0x400;
        out.push(hi as u16);
        out.push(lo as u16);
    }
}

/// Encodes `s` as UTF-16 without a terminator.
pub fn encode_utf16(s: &str) -> (r: Vec<u16>)
    ensures
        r@ == utf16(s@),
{
    let mut out: Vec<u16> = Vec::new();
    for c in it: s.chars()
        invariant
            it.seq() == s@,
            out@ == utf16(s@.take(it.index() as int)),
    {
        proof {
            let i = it.index() as int;
            assert(s@.take(i + 1).drop_last() =~= s@.take(i));
        }
        push_utf16(&mut out, c);
    }
    proof {
        assert(s@.take(s@.len() as int) =~= s@);
    }
    out
}

/// A value that can be handed to the platform as a wide string.
pub trait ToCU16Str {
    /// The code units that `to_c_u16` yields.
    spec fn c_u16_units(&self) -> Seq<u16>;

    fn to_c_u16(&self) -> (r: Vec<u16>)
        ensures
            r@ == self.c_u16_units(),
    ;
}

impl<'a> ToCU16Str for &'a str {
    open spec fn c_u16_units(&self) -> Seq<u16> {
        c_u16(self@)
    }

    fn to_c_u16(&self) -> (r: Vec<u16>) {
        let mut t = encode_utf16(*self);
        t.push(0u16);
        t
    }
}

impl ToCU16Str for String {
    open spec fn c_u16_units(&self) -> Seq<u16> {
        c_u16(self@)
    }

    fn to_c_u16(&self) -> (r: Vec<u16>) {
        self.as_str().to_c_u16()
    }
}

/// An absent string is no buffer at all: not even a terminator.
impl<S: ToCU16Str> ToCU16Str for Option<S> {
    open spec fn c_u16_units(&self) -> Seq<u16> {
        match self {
            None => Seq::empty(),
            Some(s) => s.c_u16_units(),
        }
    }

    fn to_c_u16(&self) -> (r: Vec<u16>) {
        match self {
            None => Vec::new(),
            Some(s) => s.to_c_u16(),
        }
    }
}

/// The units of `s` before its first zero unit; all of `s` where it holds
/// none.
pub open spec fn until_nul(s: Seq<u16>) -> Seq<u16> {
    match s.index_of_first(0u16) {
        Some(n) => s.take(n),
        None => s,
    }
}

/// A zero unit at `n` with none before it is the first one.
pub proof fn lemma_first_nul(s: Seq<u16>, n: int)
    requires
        0 <= n < s.len(),
        s[n] == 0,
        forall|j: int| 0 <= j < n ==> s[j] != 0,
    ensures
        s.index_of_first(0u16) == Some(n),
        until_nul(s) == s.take(n),
{
    s.index_of_first_ensures(0u16);
}

/// A zero-terminated run of UTF-16 code units inside a borrowed buffer.
pub struct CU16String<'a> {
    buf: &'a [u16],
    /// length of the run, including the terminator
    len: usize,
}

impl<'a> View for CU16String<'a> {
    type V = Seq<u16>;

    /// The code units before the terminator.
    closed spec fn view(&self) -> Seq<u16> {
        self.buf@.take(self.len - 1)
    }
}

impl<'a> CU16String<'a> {
    #[verifier::type_invariant]
    spec fn well_formed(self) -> bool {
        &&& 1 <= self.len <= self.buf@.len()
        &&& self.buf@[self.len - 1] == 0
        &&& forall|j: int| 0 <= j < self.len - 1 ==> self.buf@[j] != 0
    }

    /// Takes the run that starts `buf` and ends at its first zero unit.
    /// A buffer without a zero unit holds no such run.
    pub fn new(buf: &'a [u16]) -> (r: Option<CU16String<'a>>)
        ensures
            r is Some <==> buf@.contains(0u16),
            r is Some ==> r->0@ == until_nul(buf@),
    {
        let n = buf.len();
        let mut i: usize = 0;
        while i < n
            invariant
                n == buf@.len(),
                i <= n,
                forall|j: int| 0 <= j < i ==> buf@[j] != 0,
            decreases n - i,
        {
            if buf[i] == 0 {
                proof {
                    lemma_first_nul(buf@, i as int);
                }
                return Some(CU16String { buf, len: i + 1 });
            }
            i = i + 1;
        }
        None
    }

    /// The code units before the terminator, borrowed from the buffer.
    pub fn as_u16_vec(&self) -> (r: &'a [u16])
        ensures
            r@ == self@,
    {
        proof {
            use_type_invariant(self);
        }
        slice_subrange(self.buf, 0, self.len - 1)
    }
}

/// What is left of a limit on the number of strings once one was taken.
pub open spec fn one_fewer(count: Option<usize>) -> Option<usize> {
    match count {
        Some(c) => Some((c - 1) as usize),
        None => None,
    }
}

/// The strings of a multistring: zero-terminated runs that follow one
/// another, up to an empty run, to the end of the buffer, to a run that no
/// zero unit ends, or to `count` strings, whichever comes first.
pub open spec fn multistring(s: Seq<u16>, count: Option<usize>) -> Seq<Seq<u16>>
    decreases s.len(),
{
    match s.index_of_first(0u16) {
        Some(n) => if n > 0 && n < s.len() && count != Some(0usize) {
            seq![s.take(n)] + multistring(s.skip(n + 1), one_fewer(count))
        } else {
            Seq::empty()
        },
        None => Seq::empty(),
    }
}

/// A limit on the number of strings is kept.
pub proof fn lemma_multistring_limit(s: Seq<u16>, limit: usize)
    ensures
        multistring(s, Some(limit)).len() <= limit,
    decreases s.len(),
{
    s.index_of_first_ensures(0u16);
    match s.index_of_first(0u16) {
        Some(n) => {
            if n > 0 && n < s.len() && limit != 0 {
                lemma_multistring_limit(s.skip(n + 1), (limit - 1) as usize);
            }
        },
        None => {},
    }
}

/// Splits a multistring into its strings, each borrowed from `buf`.
pub fn split_c_u16_multistring<'a>(buf: &'a [u16], count: Option<usize>) -> (r: Vec<CU16String<'a>>)
    ensures
        r@.len() == multistring(buf@, count).len(),
        forall|i: int| 0 <= i < r@.len() ==> (#[trigger] r@[i])@ == multistring(buf@, count)[i],
{
    let n = buf.len();
    let mut out: Vec<CU16String<'a>> = Vec::new();
    let mut pos: usize = 0;
    let mut left = count;
    let ghost mut done: Seq<Seq<u16>> = Seq::empty();
    proof {
        assert(buf@.skip(0) =~= buf@);
    }
    loop
        invariant
            n == buf@.len(),
            pos <= n,
            out@.len() == done.len(),
            forall|i: int| 0 <= i < out@.len() ==> (#[trigger] out@[i])@ == done[i],
            multistring(buf@, count) == done + multistring(buf@.skip(pos as int), left),
        decreases n - pos,
    {
        let ghost rest = buf@.skip(pos as int);
        proof {
            rest.index_of_first_ensures(0u16);
        }
        if left == Some(0) {
            return out;
        }
        let tail = slice_subrange(buf, pos, n);
        match CU16String::new(tail) {
            None => {
                return out;
            },
            Some(piece) => {
                let ghost k = rest.index_of_first(0u16)->0;
                proof {
                    use_type_invariant(&piece);
                    assert(rest.take(k).len() == k);
                }
                if piece.len == 1 {
                    return out;
                }
                proof {
                    assert(rest.skip(k + 1) =~= buf@.skip(pos + k + 1));
                    done = done.push(rest.take(k));
                }
                pos = pos + piece.len;
                left = match left {
                    Some(c) => Some(c - 1),
                    None => None,
                };
                out.push(piece);
            },
        }
    }
}

/// Parses a multistring and hands each of its strings to `f`, in order.
/// Returns how many there were: never more than `count`.
pub fn from_c_u16_multistring<F: Fn(&[u16])>(buf: &[u16], count: Option<usize>, f: F) -> (r: usize)
    requires
        forall|s: &[u16]| multistring(buf@, count).contains(s@) ==> f.requires((s,)),
    ensures
        r == multistring(buf@, count).len(),
        forall|i: int|
            0 <= i < r ==> exists|s: &[u16]|
                s@ == #[trigger] multistring(buf@, count)[i] && call_ensures(f, (s,), ()),
        count is Some ==> r <= count->0,
{
    let pieces = split_c_u16_multistring(buf, count);
    let mut ctr: usize = 0;
    while ctr < pieces.len()
        invariant
            ctr <= pieces@.len(),
            pieces@.len() == multistring(buf@, count).len(),
            forall|i: int|
                0 <= i < pieces@.len() ==> (#[trigger] pieces@[i])@ == multistring(buf@, count)[i],
            forall|s: &[u16]| multistring(buf@, count).contains(s@) ==> f.requires((s,)),
            forall|i: int|
                0 <= i < ctr ==> exists|s: &[u16]|
                    s@ == #[trigger] multistring(buf@, count)[i] && call_ensures(f, (s,), ()),
        decreases pieces@.len() - ctr,
    {
        let units = pieces[ctr].as_u16_vec();
        f(units);
        ctr = ctr + 1;
    }
    proof {
        if count is Some {
            lemma_multistring_limit(buf@, count->0);
        }
    }
    ctr
}

/// The first unit of a surrogate pair.
pub open spec fn is_high_surrogate(u: u16) -> bool {
    0xD800 <= u <= 0xDBFF
}

/// The second unit of a surrogate pair.
pub open spec fn is_low_surrogate(u: u16) -> bool {
    0xDC00 <= u <= 0xDFFF
}

/// The scalar value that a surrogate pair stands for.
pub open spec fn surrogate_pair_value(hi: u16, lo: u16) -> u32 {
    (0x10000 + (hi - 0xD800) * 0x400 + (lo - 0xDC00)) as u32
}

/// The text that UTF-16 code units stand for, where every unit that is half
/// of a surrogate pair without its other half gives U+FFFD.
pub open spec fn utf16_lossy(u: Seq<u16>) -> Seq<char>
    decreases u.len(),
{
    if u.len() == 0 {
        Seq::empty()
    } else if is_high_surrogate(u[0]) && u.len() >= 2 && is_low_surrogate(u[1]) {
        seq![surrogate_pair_value(u[0], u[1]) as char] + utf16_lossy(u.skip(2))
    } else if is_high_surrogate(u[0]) || is_low_surrogate(u[0]) {
        seq!['\u{FFFD}'] + utf16_lossy(u.skip(1))
    } else {
        seq![(u[0] as u32) as char] + utf16_lossy(u.skip(1))
    }
}

/// The code units of a text are those of its first scalar value, followed
/// by those of the rest.
pub proof fn lemma_utf16_first(s: Seq<char>)
    requires
        s.len() > 0,
    ensures
        utf16(s) == utf16_of_char(s[0]) + utf16(s.drop_first()),
    decreases s.len(),
{
    if s.len() == 1 {
        assert(utf16(s.drop_last()) + utf16_of_char(s.last()) =~= utf16_of_char(s[0]) + utf16(
            s.drop_first(),
        ));
    } else {
        lemma_utf16_first(s.drop_last());
        assert(s.drop_last().drop_first() =~= s.drop_first().drop_last());
    }
}

/// Encoding loses nothing: decoding the code units of a text gives the text
/// back, and replaces nothing in it.
pub proof fn lemma_utf16_round_trip(s: Seq<char>)
    ensures
        utf16_lossy(utf16(s)) == s,
    decreases s.len(),
{
    if s.len() > 0 {
        let c = s[0];
        let rest = utf16(s.drop_first());
        let u = utf16_of_char(c) + rest;
        lemma_utf16_first(s);
        lemma_utf16_round_trip(s.drop_first());
        vstd::utf8::char_is_scalar(c);
        vstd::utf8::char_u32_cast(c, c as u32);
        if (c as u32) < 0x10000 {
            assert(u.skip(1) =~= rest);
        } else {
            assert(u.skip(2) =~= rest);
        }
    }
}

/// A text without U+0000 has no zero among its code units.
pub proof fn lemma_utf16_without_nul(s: Seq<char>)
    requires
        !s.contains('\0'),
    ensures
        !utf16(s).contains(0u16),
    decreases s.len(),
{
    if s.len() > 0 {
        let c = s.last();
        assert(s.contains(c));
        assert forall|d: char| s.drop_last().contains(d) implies s.contains(d) by {
            let i = choose|i: int| 0 <= i < s.drop_last().len() && s.drop_last()[i] == d;
            assert(s[i] == d);
        }
        lemma_utf16_without_nul(s.drop_last());
        vstd::utf8::char_is_scalar(c);
        vstd::utf8::char_u32_cast(c, c as u32);
        vstd::utf8::char_u32_cast('\0', 0u32);
        let all = utf16(s.drop_last()) + utf16_of_char(c);
        assert forall|i: int| 0 <= i < all.len() implies all[i] != 0 by {
            if i < utf16(s.drop_last()).len() {
                assert(utf16(s.drop_last()).contains(all[i]));
            }
        }
    }
}

/// A text without U+0000 reads back as itself: what is prepared for the
/// platform ends at its terminator, and decodes to the text.
pub proof fn lemma_c_u16_reads_back(s: Seq<char>)
    requires
        !s.contains('\0'),
    ensures
        until_nul(c_u16(s)) == utf16(s),
        utf16_lossy(until_nul(c_u16(s))) == s,
{
    lemma_utf16_without_nul(s);
    let units = utf16(s);
    assert forall|j: int| 0 <= j < units.len() implies c_u16(s)[j] != 0 by {
        assert(units.contains(units[j]));
    }
    lemma_first_nul(c_u16(s), units.len() as int);
    assert(c_u16(s).take(units.len() as int) =~= units);
    lemma_utf16_round_trip(s);
}

/// `char::from_u32` of the standard library: the scalar value numbered `v`,
/// and none where `v` is a surrogate code point or lies above `0x10FFFF`.
#[verifier::external_body]
fn char_from_u32(v: u32) -> (r: Option<char>)
    ensures
        r is Some <==> (v <= 0xD7FF || 0xE000 <= v <= 0x10FFFF),
        r is Some ==> r->0 as u32 == v,
{
    char::from_u32(v)
}

/// `String::push` of the standard library: appends one scalar value to the
/// end of the string.
#[verifier::external_body]
fn string_push(s: &mut String, c: char)
    ensures
        final(s)@ == old(s)@.push(c),
{
    s.push(c)
}

/// Decodes UTF-16 code units; a surrogate without its partner becomes
/// U+FFFD, so every input has a text.
pub fn from_utf16_lossy(units: &[u16]) -> (r: String)
    ensures
        r@ == utf16_lossy(units@),
{
    let n = units.len();
    let mut out = String::new();
    let mut i: usize = 0;
    proof {
        assert(units@.skip(0) =~= units@);
    }
    while i < n
        invariant
            n == units@.len(),
            i <= n,
            utf16_lossy(units@) == out@ + utf16_lossy(units@.skip(i as int)),
        decreases n - i,
    {
        let ghost rest = units@.skip(i as int);
        let u: u16 = units[i];
        let mut c: char = '\u{FFFD}';
        let mut step: usize = 1;
        if 0xD800 <= u && u <= 0xDBFF {
            if i + 1 < n && 0xDC00 <= units[i + 1] && units[i + 1] <= 0xDFFF {
                let l: u16 = units[i + 1];
                let v: u32 = 0x10000 + (u as u32 - 0xD800) * 0x400 + (l as u32 - 0xDC00);
                if let Some(x) = char_from_u32(v) {
                    c = x;
                }
                step = 2;
                proof {
                    vstd::utf8::char_u32_cast(c, v);
                }
            }
        } else if u < 0xDC00 || 0xDFFF < u {
            if let Some(x) = char_from_u32(u as u32) {
                c = x;
            }
            proof {
                vstd::utf8::char_u32_cast(c, u as u32);
            }
        }
        string_push(&mut out, c);
        proof {
            assert(rest.skip(step as int) =~= units@.skip(i + step));
        }
        i = i + step;
    }
    out
}

impl<'a> CU16String<'a> {
    /// The text of the string, decoded as `from_utf16_lossy` does.
    pub fn to_string(&self) -> (r: String)
        ensures
            r@ == utf16_lossy(self@),
    {
        from_utf16_lossy(self.as_u16_vec())
    }
}

} // verus!
