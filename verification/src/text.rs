//! Text handling: UTF-16 encoding and lossy decoding, whitespace trimming,
//! ASCII case folding and decimal rendering.
use vstd::prelude::*;

verus! {

/// The character that lossy UTF-16 decoding puts in place of an unpaired surrogate.
pub open spec fn replacement_char() -> char {
    '\u{FFFD}'
}

pub open spec fn is_surrogate(u: u16) -> bool {
    0xD800 <= u <= 0xDFFF
}

pub open spec fn is_high_surrogate(u: u16) -> bool {
    0xD800 <= u <= 0xDBFF
}

pub open spec fn is_low_surrogate(u: u16) -> bool {
    0xDC00 <= u <= 0xDFFF
}

/// The code point that a high and a low surrogate stand for together.
pub open spec fn pair_code_point(high: u16, low: u16) -> int {
    0x10000 + (high - 0xD800) * 1024 + (low - 0xDC00)
}

/// A Unicode scalar value: at most 0x10FFFF and not a surrogate.
pub open spec fn is_scalar_value(v: int) -> bool {
    0 <= v <= 0x10FFFF && !(0xD800 <= v <= 0xDFFF)
}

/// Lossy UTF-16 decoding: each unit outside the surrogate range is a
/// character, a high surrogate followed by a low one is one character, and
/// every other surrogate becomes the replacement character.
pub open spec fn decode_utf16_lossy(units: Seq<u16>) -> Seq<char>
    decreases units.len(),
{
    if units.len() == 0 {
        Seq::empty()
    } else if !is_surrogate(units[0]) {
        seq![units[0] as char] + decode_utf16_lossy(units.drop_first())
    } else if is_high_surrogate(units[0]) && units.len() >= 2 && is_low_surrogate(units[1]) {
        seq![pair_code_point(units[0], units[1]) as char] + decode_utf16_lossy(
            units.subrange(2, units.len() as int),
        )
    } else {
        seq![replacement_char()] + decode_utf16_lossy(units.drop_first())
    }
}

/// The UTF-16 code units of one character.
pub open spec fn encode_char_utf16(c: char) -> Seq<u16> {
    let v = c as int;
    if v < 0x10000 {
        seq![v as u16]
    } else {
        seq![(0xD800 + (v - 0x10000) / 1024) as u16, (0xDC00 + (v - 0x10000) % 1024) as u16]
    }
}

/// The UTF-16 encoding of a character sequence.
pub open spec fn encode_utf16(s: Seq<char>) -> Seq<u16>
    decreases s.len(),
{
    if s.len() == 0 {
        Seq::empty()
    } else {
        encode_char_utf16(s[0]) + encode_utf16(s.drop_first())
    }
}

/// `char::from_u32`: the character with scalar value `v` when `v` is a
/// Unicode scalar value, `None` otherwise.
#[verifier::external_body]
fn char_from_u32(v: u32) -> (r: Option<char>)
    ensures
        r == (if is_scalar_value(v as int) {
            Some(v as char)
        } else {
            None::<char>
        }),
{
    char::from_u32(v)
}

/// Collects the characters of `s` in order.
pub fn chars_of(s: &str) -> (out: Vec<char>)
    ensures
        out@ == s@,
{
    let mut out: Vec<char> = Vec::new();
    for c in it: s.chars()
        invariant
            out@ == it.seq().take(it.index() as int),
    {
        out.push(c);
    }
    out
}


/// Decodes UTF-16 code units, putting the replacement character in place of
/// each unpaired surrogate.
pub fn decode_utf16_lossy_units(units: &[u16]) -> (out: Vec<char>)
    ensures
        out@ == decode_utf16_lossy(units@),
{
    let n = units.len();
    let mut out: Vec<char> = Vec::new();
    let mut i: usize = 0;
    assert(units@.subrange(0, n as int) =~= units@);
    assert(out@ + decode_utf16_lossy(units@) =~= decode_utf16_lossy(units@));
    while i < n
        invariant
            n == units@.len(),
            i <= n,
            out@ + decode_utf16_lossy(units@.subrange(i as int, n as int)) == decode_utf16_lossy(units@),
        decreases n - i,
    {
        let ghost rest = units@.subrange(i as int, n as int);
        let u = units[i];
        if u < 0xD800 || u > 0xDFFF {
            assert(rest.drop_first() =~= units@.subrange(i + 1, n as int));
            let c = char_from_u32(u as u32).unwrap();
            out.push(c);
            assert(out@ + decode_utf16_lossy(units@.subrange(i + 1, n as int)) =~= decode_utf16_lossy(units@));
            i = i + 1;
        } else if u <= 0xDBFF && i + 1 < n && units[i + 1] >= 0xDC00 && units[i + 1] <= 0xDFFF {
            let w = units[i + 1];
            assert(rest.subrange(2, rest.len() as int) =~= units@.subrange(i + 2, n as int));
            let v: u32 = 0x10000 + (u as u32 - 0xD800) * 1024 + (w as u32 - 0xDC00);
            let c = char_from_u32(v).unwrap();
            out.push(c);
            assert(out@ + decode_utf16_lossy(units@.subrange(i + 2, n as int)) =~= decode_utf16_lossy(units@));
            i = i + 2;
        } else {
            assert(rest.drop_first() =~= units@.subrange(i + 1, n as int));
            out.push('\u{FFFD}');
            assert(out@ + decode_utf16_lossy(units@.subrange(i + 1, n as int)) =~= decode_utf16_lossy(units@));
            i = i + 1;
        }
    }
    assert(units@.subrange(n as int, n as int) =~= Seq::<u16>::empty());
    assert(out@ + Seq::<char>::empty() =~= out@);
    out
}


/// The null-terminated UTF-16 form of `s` for the guide window's Win32 calls;
/// the same as `wstring`.
pub fn to_wide(s: &str) -> (out: Vec<u16>)
    ensures
        out@ == encode_utf16(s@).push(0u16),
{
    wstring(s)
}

/// Encoding distributes over concatenation.
pub proof fn lemma_encode_utf16_concat(a: Seq<char>, b: Seq<char>)
    ensures
        encode_utf16(a + b) == encode_utf16(a) + encode_utf16(b),
    decreases a.len(),
{
    if a.len() == 0 {
        assert(a + b =~= b);
        assert(encode_utf16(a) + encode_utf16(b) =~= encode_utf16(b));
    } else {
        assert((a + b).drop_first() =~= a.drop_first() + b);
        lemma_encode_utf16_concat(a.drop_first(), b);
        assert(encode_utf16(a + b) =~= encode_utf16(a) + encode_utf16(b));
    }
}

/// The UTF-16 units of one character, appended to `out`.
fn push_char_utf16(out: &mut Vec<u16>, c: char)
    ensures
        final(out)@ == old(out)@ + encode_char_utf16(c),
{
    let v = c as u32;
    if v < 0x10000 {
        out.push(v as u16);
    } else {
        let offset = v - 0x10000;
        out.push((0xD800 + offset / 1024) as u16);
        out.push((0xDC00 + offset % 1024) as u16);
    }
    assert(final(out)@ =~= old(out)@ + encode_char_utf16(c));
}

/// The UTF-16 encoding of `s` followed by a terminating zero unit, as the
/// wide-string parameters of Win32 expect it.
pub fn wstring(s: &str) -> (out: Vec<u16>)
    ensures
        out@ == encode_utf16(s@).push(0u16),
{
    let chars = chars_of(s);
    let n = chars.len();
    let mut out: Vec<u16> = Vec::new();
    let mut i: usize = 0;
    assert(encode_utf16(Seq::<char>::empty()) =~= Seq::<u16>::empty());
    assert(chars@.take(0) =~= Seq::<char>::empty());
    while i < n
        invariant
            n == chars@.len(),
            chars@ == s@,
            i <= n,
            out@ == encode_utf16(chars@.take(i as int)),
        decreases n - i,
    {
        let c = chars[i];
        push_char_utf16(&mut out, c);
        proof {
            assert(chars@.take(i + 1) =~= chars@.take(i as int) + seq![c]);
            lemma_encode_utf16_concat(chars@.take(i as int), seq![c]);
            assert(seq![c].drop_first() =~= Seq::<char>::empty());
            assert(encode_utf16(Seq::<char>::empty()) =~= Seq::<u16>::empty());
            assert(encode_utf16(seq![c]) =~= encode_char_utf16(c));
        }
        i = i + 1;
    }
    assert(chars@.take(n as int) =~= s@);
    out.push(0u16);
    out
}


proof fn lemma_decode_after_char(c: char, rest: Seq<u16>)
    ensures
        decode_utf16_lossy(encode_char_utf16(c) + rest) == seq![c] + decode_utf16_lossy(rest),
{
    let v = c as int;
    let units = encode_char_utf16(c) + rest;
    if v < 0x10000 {
        assert(units[0] == v as u16);
        assert(units.drop_first() =~= rest);
        assert((v as u16) as char == c);
    } else {
        let q = (v - 0x10000) / 1024;
        let r = (v - 0x10000) % 1024;
        assert(0 <= r < 1024 && (v - 0x10000) == q * 1024 + r) by (nonlinear_arith)
            requires v >= 0x10000, q == (v - 0x10000) / 1024, r == (v - 0x10000) % 1024;
        assert(0 <= q < 1024) by (nonlinear_arith)
            requires 0x10000 <= v <= 0x10FFFF, q == (v - 0x10000) / 1024;
        assert(units[0] == (0xD800 + q) as u16);
        assert(units[1] == (0xDC00 + r) as u16);
        assert(units.subrange(2, units.len() as int) =~= rest);
        assert(pair_code_point(units[0], units[1]) == v);
        assert((v as char) == c);
    }
}

/// Decoding an encoding followed by more units decodes the two parts apart.
proof fn lemma_decode_after_encoding(s: Seq<char>, rest: Seq<u16>)
    ensures
        decode_utf16_lossy(encode_utf16(s) + rest) == s + decode_utf16_lossy(rest),
    decreases s.len(),
{
    if s.len() == 0 {
        assert(encode_utf16(s) + rest =~= rest);
        assert(s + decode_utf16_lossy(rest) =~= decode_utf16_lossy(rest));
    } else {
        lemma_decode_after_encoding(s.drop_first(), rest);
        assert(encode_utf16(s) + rest =~= encode_char_utf16(s[0]) + (encode_utf16(s.drop_first()) + rest));
        lemma_decode_after_char(s[0], encode_utf16(s.drop_first()) + rest);
        assert(seq![s[0]] + (s.drop_first() + decode_utf16_lossy(rest)) =~= s + decode_utf16_lossy(rest));
    }
}

/// Decoding the UTF-16 encoding of a character sequence gives it back.
pub proof fn lemma_utf16_round_trip(s: Seq<char>)
    ensures
        decode_utf16_lossy(encode_utf16(s)) == s,
    decreases s.len(),
{
    if s.len() == 0 {
        assert(encode_utf16(s) =~= Seq::<u16>::empty());
        assert(decode_utf16_lossy(Seq::<u16>::empty()) =~= s);
    } else {
        lemma_utf16_round_trip(s.drop_first());
        lemma_decode_after_char(s[0], encode_utf16(s.drop_first()));
        assert(seq![s[0]] + s.drop_first() =~= s);
    }
}


/// The characters with the Unicode `White_Space` property, which
/// `char::is_whitespace` recognises.
pub open spec fn is_unicode_whitespace(c: char) -> bool {
    let v = c as u32;
    ||| 0x9 <= v <= 0xD
    ||| v == 0x20
    ||| v == 0x85
    ||| v == 0xA0
    ||| v == 0x1680
    ||| 0x2000 <= v <= 0x200A
    ||| v == 0x2028
    ||| v == 0x2029
    ||| v == 0x202F
    ||| v == 0x205F
    ||| v == 0x3000
}

/// `s` without its trailing whitespace.
pub open spec fn trim_trailing_whitespace(s: Seq<char>) -> Seq<char>
    decreases s.len(),
{
    if s.len() > 0 && is_unicode_whitespace(s.last()) {
        trim_trailing_whitespace(s.drop_last())
    } else {
        s
    }
}

/// A character's code with ASCII upper-case letters mapped to lower case.
pub open spec fn ascii_fold(c: char) -> int {
    let v = c as int;
    if 65 <= v <= 90 {
        v + 32
    } else {
        v
    }
}

/// Equality of two character sequences when ASCII letters are compared
/// without regard to case.
pub open spec fn eq_ignore_ascii_case(a: Seq<char>, b: Seq<char>) -> bool {
    &&& a.len() == b.len()
    &&& forall|i: int| 0 <= i < a.len() ==> #[trigger] ascii_fold(a[i]) == ascii_fold(b[i])
}

/// The scalar value of `c`.
pub fn char_code(c: char) -> (v: u32)
    ensures
        v as int == c as int,
        is_scalar_value(v as int),
{
    c as u32
}

/// Whether `c` has the Unicode `White_Space` property.
pub fn is_whitespace(c: char) -> (r: bool)
    ensures
        r == is_unicode_whitespace(c),
{
    let v = c as u32;
    (0x9 <= v && v <= 0xD) || v == 0x20 || v == 0x85 || v == 0xA0 || v == 0x1680 || (0x2000
        <= v && v <= 0x200A) || v == 0x2028 || v == 0x2029 || v == 0x202F || v == 0x205F || v
        == 0x3000
}

/// Where the text of a zero-terminated wide-character buffer ends: at the
/// first zero unit, or at the end of the buffer when it holds none.
pub open spec fn text_end(units: Seq<u16>) -> int
    decreases units.len(),
{
    if units.len() == 0 || units[0] == 0 {
        0
    } else {
        1 + text_end(units.drop_first())
    }
}

/// The text of a wide-character buffer as Win32 means it: the units before
/// the first zero unit, decoded lossily, without trailing whitespace.
pub open spec fn clean_wide_text(units: Seq<u16>) -> Seq<char> {
    trim_trailing_whitespace(decode_utf16_lossy(units.take(text_end(units))))
}

/// `k` is the first zero unit of `units`, or its length when it holds none.
pub proof fn lemma_text_end(units: Seq<u16>, k: int)
    requires
        0 <= k <= units.len(),
        forall|j: int| 0 <= j < k ==> units[j] != 0,
        k == units.len() || units[k] == 0,
    ensures
        text_end(units) == k,
    decreases k,
{
    if k > 0 {
        lemma_text_end(units.drop_first(), k - 1);
    }
}

/// The position of the first zero unit of `units`, or its length.
pub fn find_text_end(units: &[u16]) -> (k: usize)
    ensures
        k == text_end(units@),
        k <= units@.len(),
{
    let n = units.len();
    let mut k: usize = 0;
    while k < n && units[k] != 0
        invariant
            n == units@.len(),
            k <= n,
            forall|j: int| 0 <= j < k ==> units@[j] != 0,
        decreases n - k,
    {
        k = k + 1;
    }
    proof {
        lemma_text_end(units@, k as int);
    }
    k
}

/// The first `k` units of `units`.
pub fn units_prefix(units: &[u16], k: usize) -> (out: Vec<u16>)
    requires
        k <= units@.len(),
    ensures
        out@ == units@.take(k as int),
{
    let mut out: Vec<u16> = Vec::new();
    let mut i: usize = 0;
    while i < k
        invariant
            k <= units@.len(),
            i <= k,
            out@ == units@.take(i as int),
        decreases k - i,
    {
        out.push(units[i]);
        assert(out@ =~= units@.take(i + 1));
        i = i + 1;
    }
    out
}

/// Drops trailing whitespace.
pub fn trim_whitespace_end(chars: &Vec<char>) -> (out: Vec<char>)
    ensures
        out@ == trim_trailing_whitespace(chars@),
{
    let mut k: usize = chars.len();
    assert(chars@.take(k as int) =~= chars@);
    while k > 0 && is_whitespace(chars[k - 1])
        invariant
            k <= chars@.len(),
            trim_trailing_whitespace(chars@.take(k as int)) == trim_trailing_whitespace(chars@),
        decreases k,
    {
        assert(chars@.take(k as int).drop_last() =~= chars@.take(k - 1));
        k = k - 1;
    }
    let mut out: Vec<char> = Vec::new();
    let mut i: usize = 0;
    while i < k
        invariant
            i <= k <= chars@.len(),
            out@ == chars@.take(i as int),
        decreases k - i,
    {
        out.push(chars[i]);
        assert(out@ =~= chars@.take(i + 1));
        i = i + 1;
    }
    out
}

/// The text of a zero-terminated wide-character buffer: the units before
/// the first zero unit, decoded lossily, without trailing whitespace.
pub fn clean_wide_units(units: &[u16]) -> (name: Vec<char>)
    ensures
        name@ == clean_wide_text(units@),
{
    let k = find_text_end(units);
    let prefix = units_prefix(units, k);
    let decoded = decode_utf16_lossy_units(prefix.as_slice());
    trim_whitespace_end(&decoded)
}

/// A character sequence without the NUL character.
pub open spec fn has_no_nul(s: Seq<char>) -> bool {
    forall|i: int| 0 <= i < s.len() ==> s[i] != '\0'
}

proof fn lemma_char_units_nonzero(c: char)
    requires
        c != '\0',
    ensures
        forall|j: int| 0 <= j < encode_char_utf16(c).len() ==> encode_char_utf16(c)[j] != 0,
{
    let v = c as int;
    if v >= 0x10000 {
        assert(0 <= (v - 0x10000) / 1024 < 1024) by (nonlinear_arith)
            requires 0x10000 <= v <= 0x10FFFF;
    }
}

proof fn lemma_encoding_has_no_zero(s: Seq<char>)
    requires
        has_no_nul(s),
    ensures
        forall|j: int| 0 <= j < encode_utf16(s).len() ==> encode_utf16(s)[j] != 0,
    decreases s.len(),
{
    if s.len() > 0 {
        assert(has_no_nul(s.drop_first()));
        lemma_encoding_has_no_zero(s.drop_first());
        let c = s[0];
        assert(c != '\0');
        let e = encode_utf16(s);
        let h = encode_char_utf16(c);
        assert(e == h + encode_utf16(s.drop_first()));
        assert forall|j: int| 0 <= j < e.len() implies e[j] != 0 by {
            if j >= h.len() {
                assert(e[j] == encode_utf16(s.drop_first())[j - h.len()]);
            } else {
                lemma_char_units_nonzero(c);
                assert(e[j] == h[j]);
            }
        }
    }
}

/// A name written into a buffer and terminated by a zero unit comes out of
/// `clean_wide_text` unchanged, whatever follows the terminator, when it holds
/// no NUL and does not end in whitespace.
pub proof fn lemma_clean_name_from_terminated_buffer(name: Seq<char>, rest: Seq<u16>)
    requires
        has_no_nul(name),
        name.len() == 0 || !is_unicode_whitespace(name.last()),
    ensures
        clean_wide_text(encode_utf16(name).push(0u16) + rest) == name,
{
    let e = encode_utf16(name);
    let units = e.push(0u16) + rest;
    lemma_encoding_has_no_zero(name);
    lemma_text_end(units, e.len() as int);
    assert(units.take(e.len() as int) =~= e);
    lemma_utf16_round_trip(name);
}

/// Whether `a` equals `b` when ASCII letters are compared without regard to case.
pub fn chars_eq_ignore_ascii_case(a: &Vec<char>, b: &str) -> (r: bool)
    ensures
        r == eq_ignore_ascii_case(a@, b@),
{
    let bc = chars_of(b);
    if a.len() != bc.len() {
        return false;
    }
    let n = a.len();
    let mut i: usize = 0;
    while i < n
        invariant
            n == a@.len() == bc@.len(),
            bc@ == b@,
            i <= n,
            forall|j: int| 0 <= j < i ==> #[trigger] ascii_fold(a@[j]) == ascii_fold(bc@[j]),
        decreases n - i,
    {
        let x = char_code(a[i]);
        let y = char_code(bc[i]);
        let fx = if 65 <= x && x <= 90 { x + 32 } else { x };
        let fy = if 65 <= y && y <= 90 { y + 32 } else { y };
        assert(ascii_fold(a@[i as int]) == fx as int);
        assert(ascii_fold(bc@[i as int]) == fy as int);
        if fx != fy {
            return false;
        }
        i = i + 1;
    }
    true
}


/// `String::push`: appends `c` to the end of `s`.
#[verifier::external_body]
fn string_push(s: &mut String, c: char)
    ensures
        final(s)@ == old(s)@.push(c),
{
    s.push(c);
}

/// Appends the characters of `chars` to `s`.
pub fn push_chars(s: &mut String, chars: &Vec<char>)
    ensures
        final(s)@ == old(s)@ + chars@,
{
    let n = chars.len();
    let mut i: usize = 0;
    while i < n
        invariant
            n == chars@.len(),
            i <= n,
            s@ == old(s)@ + chars@.take(i as int),
        decreases n - i,
    {
        string_push(s, chars[i]);
        assert(chars@.take(i + 1) =~= chars@.take(i as int).push(chars@[i as int]));
        i = i + 1;
    }
    assert(chars@.take(n as int) =~= chars@);
}

/// A string made of `chars`.
pub fn string_of(chars: &Vec<char>) -> (s: String)
    ensures
        s@ == chars@,
{
    let mut s = String::new();
    push_chars(&mut s, chars);
    assert(Seq::<char>::empty() + chars@ =~= chars@);
    s
}

/// The character of a decimal digit.
pub open spec fn digit_char(d: int) -> char {
    (48 + d) as char
}

/// The decimal notation of `n`, without sign or leading zeros.
pub open spec fn decimal_text(n: nat) -> Seq<char>
    decreases n,
{
    if n < 10 {
        seq![digit_char(n as int)]
    } else {
        decimal_text(n / 10) + seq![digit_char(n as int % 10)]
    }
}

/// Appends the decimal notation of `n` to `s`.
pub fn push_decimal(s: &mut String, n: u32)
    ensures
        final(s)@ == old(s)@ + decimal_text(n as nat),
    decreases n,
{
    if n >= 10 {
        push_decimal(s, n / 10);
    }
    let d: u8 = (n % 10) as u8;
    string_push(s, (48u8 + d) as char);
    assert(s@ =~= old(s)@ + decimal_text(n as nat));
}


/// The number that a sequence of decimal digit characters denotes.
pub open spec fn digits_value(s: Seq<char>) -> int
    decreases s.len(),
{
    if s.len() == 0 {
        0
    } else {
        digits_value(s.drop_last()) * 10 + (s.last() as int - 48)
    }
}

proof fn lemma_digit_char(d: int)
    requires
        0 <= d < 10,
    ensures
        digit_char(d) as int == 48 + d,
{
}

/// `decimal_text(n)` is the decimal notation of `n`: a non-empty run of the
/// characters '0' to '9' whose value is `n`, starting with '0' only for 0.
pub proof fn lemma_decimal_text_denotes(n: nat)
    ensures
        decimal_text(n).len() > 0,
        forall|i: int|
            0 <= i < decimal_text(n).len() ==> 48 <= #[trigger] (decimal_text(n)[i] as int) <= 57,
        digits_value(decimal_text(n)) == n,
        n > 0 ==> decimal_text(n)[0] != '0',
        n == 0 ==> decimal_text(n) == seq!['0'],
    decreases n,
{
    if n < 10 {
        lemma_digit_char(n as int);
        assert(decimal_text(n).drop_last() =~= Seq::<char>::empty());
        assert(digits_value(Seq::<char>::empty()) == 0);
        assert(decimal_text(n).last() == digit_char(n as int));
    } else {
        lemma_decimal_text_denotes(n / 10);
        lemma_digit_char(n as int % 10);
        let t = decimal_text(n);
        let h = decimal_text(n / 10);
        assert(t.drop_last() =~= h);
        assert(t[0] == h[0]);
        assert(t.last() == digit_char(n as int % 10));
        assert((n / 10) * 10 + n % 10 == n) by (nonlinear_arith);
        assert(digits_value(t) == digits_value(h) * 10 + (n % 10));
        assert forall|i: int| 0 <= i < t.len() implies 48 <= #[trigger] (t[i] as int) <= 57 by {
            if i < h.len() {
                assert(t[i] == h[i]);
            }
        }
    }
}


/// Lossy decoding: a unit outside the surrogate range is the character of
/// that number; a high surrogate followed by a low one is one supplementary
/// character; a surrogate that is not part of such a pair becomes U+FFFD;
/// and the rest is decoded in the same way.
pub proof fn lemma_decode_units(u: u16, w: u16, rest: Seq<u16>)
    ensures
        !(0xD800 <= u <= 0xDFFF) ==> decode_utf16_lossy(seq![u] + rest) == seq![u as char]
            + decode_utf16_lossy(rest),
        (0xD800 <= u <= 0xDBFF && 0xDC00 <= w <= 0xDFFF) ==> decode_utf16_lossy(seq![u, w] + rest)
            == seq![(0x10000 + (u - 0xD800) * 0x400 + (w - 0xDC00)) as char] + decode_utf16_lossy(rest),
        (0xDC00 <= u <= 0xDFFF) ==> decode_utf16_lossy(seq![u] + rest) == seq!['\u{FFFD}']
            + decode_utf16_lossy(rest),
        (0xD800 <= u <= 0xDBFF && !(0xDC00 <= w <= 0xDFFF)) ==> decode_utf16_lossy(
            seq![u, w] + rest,
        ) == seq!['\u{FFFD}'] + decode_utf16_lossy(seq![w] + rest),
        (0xD800 <= u <= 0xDBFF) ==> decode_utf16_lossy(seq![u]) == seq!['\u{FFFD}'],
        decode_utf16_lossy(Seq::empty()) == Seq::<char>::empty(),
{
    assert((seq![u] + rest).drop_first() =~= rest);
    assert((seq![u, w] + rest).subrange(2, (seq![u, w] + rest).len() as int) =~= rest);
    assert((seq![u, w] + rest).drop_first() =~= seq![w] + rest);
    assert(seq![u].drop_first() =~= Seq::<u16>::empty());
    assert(decode_utf16_lossy(Seq::<u16>::empty()) =~= Seq::<char>::empty());
    assert(seq!['\u{FFFD}'] + Seq::<char>::empty() =~= seq!['\u{FFFD}']);
}

/// The characters that count as whitespace include the ASCII spaces, tabs
/// and line breaks, NEL, no-break space and the ideographic space, and not
/// NUL, letters, digits, the byte-order mark or the zero-width space.
pub proof fn lemma_whitespace_members()
    ensures
        is_unicode_whitespace(' ') && is_unicode_whitespace('\t') && is_unicode_whitespace('\n')
            && is_unicode_whitespace('\r') && is_unicode_whitespace('\u{0B}')
            && is_unicode_whitespace('\u{0C}') && is_unicode_whitespace('\u{85}')
            && is_unicode_whitespace('\u{A0}') && is_unicode_whitespace('\u{1680}')
            && is_unicode_whitespace('\u{2000}') && is_unicode_whitespace('\u{200A}')
            && is_unicode_whitespace('\u{2028}') && is_unicode_whitespace('\u{2029}')
            && is_unicode_whitespace('\u{202F}') && is_unicode_whitespace('\u{205F}')
            && is_unicode_whitespace('\u{3000}'),
        !is_unicode_whitespace('\0') && !is_unicode_whitespace('a') && !is_unicode_whitespace('0')
            && !is_unicode_whitespace('.') && !is_unicode_whitespace('\u{FEFF}')
            && !is_unicode_whitespace('\u{200B}') && !is_unicode_whitespace('\u{1F}')
            && !is_unicode_whitespace('\u{21}') && !is_unicode_whitespace('\u{FFFD}'),
{
}

/// Trimming trailing whitespace keeps a prefix, removes only whitespace,
/// and leaves no whitespace at the end.
pub proof fn lemma_trim_whitespace(s: Seq<char>)
    ensures
        trim_trailing_whitespace(s).len() <= s.len(),
        trim_trailing_whitespace(s) == s.take(trim_trailing_whitespace(s).len() as int),
        forall|i: int|
            trim_trailing_whitespace(s).len() <= i < s.len() ==> is_unicode_whitespace(#[trigger] s[i]),
        trim_trailing_whitespace(s).len() == 0 || !is_unicode_whitespace(
            trim_trailing_whitespace(s).last(),
        ),
    decreases s.len(),
{
    if s.len() > 0 && is_unicode_whitespace(s.last()) {
        lemma_trim_whitespace(s.drop_last());
        let t = trim_trailing_whitespace(s);
        assert(s.drop_last().take(t.len() as int) =~= s.take(t.len() as int));
        assert forall|i: int| t.len() <= i < s.len() implies is_unicode_whitespace(#[trigger] s[i]) by {
            if i < s.len() - 1 {
                assert(s[i] == s.drop_last()[i]);
            }
        }
    } else {
        assert(s.take(s.len() as int) =~= s);
    }
}

/// Folding ASCII case maps each upper-case ASCII letter to its lower-case
/// letter and leaves every other character as it is, so two characters
/// fold alike exactly when they are equal or are the two cases of one letter.
pub proof fn lemma_ascii_fold(c: char, d: char)
    ensures
        ascii_fold(c) == ascii_fold(d) <==> (c == d || (65 <= c as int <= 90 && d as int == c as int + 32)
            || (65 <= d as int <= 90 && c as int == d as int + 32)),
        !(65 <= ascii_fold(c) <= 90),
        ascii_fold('V') == 'v' as int && ascii_fold('v') == 'v' as int && ascii_fold('.') == '.' as int,
{
}

} // verus!
