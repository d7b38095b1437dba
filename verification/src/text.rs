//! Text building blocks: decimal and hexadecimal digits, trimming, comparison, case, and
//! the decoding of UTF-16 and UTF-8.
use vstd::prelude::*;
use vstd::slice::slice_subrange;
use vstd::string::*;
use vstd::utf8::*;

verus! {

/// `String::push`: appends one character at the end of the string.
pub assume_specification[ String::push ](s: &mut String, ch: char)
    ensures
        final(s)@ == old(s)@.push(ch),
;

/// `char::from_u32`: the character with that code, unless the code is a surrogate or
/// lies above `0x10FFFF`.
pub assume_specification[ char::from_u32 ](i: u32) -> (r: Option<char>)
    ensures
        (r is Some) == (i < 0xD800 || 0xE000 <= i <= 0x10FFFF),
        r matches Some(c) ==> c as u32 == i,
;

/// The lower-case form of a text, by the Unicode mapping that `str::to_lowercase` uses.
pub uninterp spec fn lower_case(s: Seq<char>) -> Seq<char>;

/// `str::to_lowercase`: the lower-case form of the text, a function of the text alone.
#[verifier::external_body]
pub(crate) fn to_lower_case(s: &str) -> (r: String)
    ensures
        r@ == lower_case(s@),
{
    s.to_lowercase()
}

/// The text that `String::from_utf8_lossy` reads out of bytes, with the replacement
/// character where they are not UTF-8.
pub uninterp spec fn utf8_lossy(bytes: Seq<u8>) -> Seq<char>;

/// `String::from_utf8_lossy`: a function of the bytes alone; bytes that are UTF-8 give
/// the very text that they encode.
#[verifier::external_body]
pub(crate) fn decode_utf8_lossy(bytes: &[u8]) -> (r: String)
    ensures
        r@ == utf8_lossy(bytes@),
        valid_utf8(bytes@) ==> r@ == decode_utf8(bytes@),
{
    String::from_utf8_lossy(bytes).into_owned()
}

/// Whether two texts are the same.
pub fn same_text(a: &str, b: &str) -> (r: bool)
    ensures
        r == (a@ == b@),
{
    let a: String = a.to_owned();
    let b: String = b.to_owned();
    a == b
}

/// Whether a text starts with a character.
pub fn starts_with(s: &str, c: char) -> (r: bool)
    ensures
        r == (s@.len() > 0 && s@[0] == c),
{
    !s.is_empty() && s.get_char(0) == c
}

/// The character of a decimal digit.
pub open spec fn decimal_digit(d: nat) -> char {
    (0x30 + d) as u8 as char
}

/// `n` in decimal, without leading zeros.
pub open spec fn decimal(n: nat) -> Seq<char>
    decreases n,
{
    if n < 10 {
        seq![decimal_digit(n)]
    } else {
        decimal(n / 10).push(decimal_digit(n % 10))
    }
}

/// Appends `n` in decimal.
pub fn push_decimal(out: &mut String, n: u64)
    ensures
        final(out)@ == old(out)@ + decimal(n as nat),
    decreases n,
{
    if n >= 10 {
        push_decimal(out, n / 10);
    }
    let digit: u8 = 0x30 + (n % 10) as u8;
    out.push(digit as char);
}

/// `n` in decimal, with zeros before it up to `width` characters.
pub open spec fn padded(n: nat, width: nat) -> Seq<char> {
    let digits = decimal(n);
    let missing = if digits.len() < width {
        (width - digits.len()) as nat
    } else {
        0
    };
    Seq::new(missing, |i: int| '0') + digits
}

/// Appends `n` in decimal, padded with zeros to `width` characters.
pub fn push_padded(out: &mut String, n: u64, width: usize)
    ensures
        final(out)@ == old(out)@ + padded(n as nat, width as nat),
{
    let mut digits = String::new();
    push_decimal(&mut digits, n);
    assert(digits@ =~= decimal(n as nat));
    let len: usize = digits.as_str().unicode_len();
    let mut i: usize = len;
    let ghost before = out@;
    while i < width
        invariant
            len <= i,
            i <= width || i == len,
            out@ =~= before + Seq::new((i - len) as nat, |k: int| '0'),
        decreases width - i,
    {
        out.push('0');
        i = i + 1;
    }
    out.append(digits.as_str());
    assert(out@ =~= before + padded(n as nat, width as nat));
}

/// The number that digits stand for, read from left to right.
pub open spec fn value_of(digits: Seq<char>) -> int
    decreases digits.len(),
{
    if digits.len() == 0 {
        0
    } else {
        10 * value_of(digits.drop_last()) + (digits.last() as int - '0' as int)
    }
}

/// Decimal stands for its number: it is made of digits, it reads as the number, and it has
/// no zero before other digits.
pub proof fn decimal_reads_as_its_number(n: nat)
    ensures
        value_of(decimal(n)) == n,
        decimal(n).len() > 0,
        forall|i: int| 0 <= i < decimal(n).len() ==> '0' <= #[trigger] decimal(n)[i] <= '9',
        decimal(n)[0] == '0' ==> decimal(n).len() == 1,
    decreases n,
{
    let digits = decimal(n);
    if n < 10 {
        assert(digits.drop_last() =~= seq![]);
        assert(value_of(digits.drop_last()) == 0);
    } else {
        decimal_reads_as_its_number(n / 10);
        assert(digits.drop_last() =~= decimal(n / 10));
        assert(digits[0] == decimal(n / 10)[0]);
        if decimal(n / 10).len() == 1 && decimal(n / 10)[0] == '0' {
            assert(decimal(n / 10).drop_last() =~= seq![]);
            assert(value_of(decimal(n / 10).drop_last()) == 0);
            assert(value_of(decimal(n / 10)) == 0);
        }
    }
}

/// Different numbers have different decimals.
pub proof fn decimals_differ(m: nat, n: nat)
    requires
        decimal(m) == decimal(n),
    ensures
        m == n,
{
    decimal_reads_as_its_number(m);
    decimal_reads_as_its_number(n);
}

/// Padding changes nothing but the width: a padded number is made of digits, reads as the
/// number, and ends with its decimal; it is as wide as asked for, or as wide as the decimal
/// where that is wider.
pub proof fn padding_keeps_the_number(n: nat, width: nat)
    ensures
        value_of(padded(n, width)) == n,
        forall|i: int|
            0 <= i < padded(n, width).len() ==> '0' <= #[trigger] padded(n, width)[i] <= '9',
        padded(n, width).len() == width || (padded(n, width).len() > width && padded(n, width)
            == decimal(n)),
        padded(n, width).skip(padded(n, width).len() - decimal(n).len()) == decimal(n),
{
    decimal_reads_as_its_number(n);
    let digits = decimal(n);
    let all = padded(n, width);
    let zeros = (all.len() - digits.len()) as nat;
    assert(all =~= Seq::new(zeros, |i: int| '0') + digits);
    lemma_leading_zeros(zeros, digits);
    assert(all.skip(zeros as int) =~= digits);
    if zeros == 0 {
        assert(all =~= digits);
    }
    assert forall|i: int| 0 <= i < all.len() implies '0' <= #[trigger] all[i] <= '9' by {
        if i >= zeros {
            assert(all[i] == digits[i - zeros]);
        }
    }
}

proof fn lemma_leading_zeros(zeros: nat, digits: Seq<char>)
    ensures
        value_of(Seq::new(zeros, |i: int| '0') + digits) == value_of(digits),
    decreases digits.len(), zeros,
{
    let all = Seq::new(zeros, |i: int| '0') + digits;
    if digits.len() > 0 {
        assert(all.drop_last() =~= Seq::new(zeros, |i: int| '0') + digits.drop_last());
        lemma_leading_zeros(zeros, digits.drop_last());
    } else if zeros > 0 {
        let fewer = (zeros - 1) as nat;
        assert(all.drop_last() =~= Seq::new(fewer, |i: int| '0') + digits);
        lemma_leading_zeros(fewer, digits);
    } else {
        assert(all =~= digits);
    }
}

/// The character of a hexadecimal digit, in lower case.
pub open spec fn hex_digit(d: nat) -> char {
    if d < 10 {
        (0x30 + d) as u8 as char
    } else {
        (0x57 + d) as u8 as char
    }
}

/// Bytes in lower-case hexadecimal, two digits each.
pub open spec fn hex(bytes: Seq<u8>) -> Seq<char>
    decreases bytes.len(),
{
    if bytes.len() == 0 {
        seq![]
    } else {
        hex(bytes.drop_last()) + seq![
            hex_digit(bytes.last() as nat / 16),
            hex_digit(bytes.last() as nat % 16),
        ]
    }
}

fn hex_char(d: u8) -> (c: char)
    requires
        d < 16,
    ensures
        c == hex_digit(d as nat),
{
    if d < 10 {
        (0x30 + d) as char
    } else {
        (0x57 + d) as char
    }
}

/// Bytes in lower-case hexadecimal.
pub fn to_hex(bytes: &[u8]) -> (r: String)
    ensures
        r@ == hex(bytes@),
{
    let mut out = String::new();
    let mut i: usize = 0;
    while i < bytes.len()
        invariant
            i <= bytes@.len(),
            out@ == hex(bytes@.take(i as int)),
        decreases bytes@.len() - i,
    {
        out.push(hex_char(bytes[i] / 16));
        out.push(hex_char(bytes[i] % 16));
        proof {
            let next = bytes@.take(i + 1);
            assert(next.drop_last() =~= bytes@.take(i as int));
            assert(out@ =~= hex(next));
        }
        i = i + 1;
    }
    assert(bytes@.take(bytes@.len() as int) =~= bytes@);
    out
}

/// Hexadecimal shows each byte by two lower-case digits, the upper four bits first.
pub proof fn hex_shows_each_byte(bytes: Seq<u8>)
    ensures
        hex(bytes).len() == 2 * bytes.len(),
        forall|i: int|
            #![trigger bytes[i]]
            0 <= i < bytes.len() ==> hex(bytes)[2 * i] == "0123456789abcdef"@[bytes[i] as int / 16]
                && hex(bytes)[2 * i + 1] == "0123456789abcdef"@[bytes[i] as int % 16],
    decreases bytes.len(),
{
    reveal_strlit("0123456789abcdef");
    if bytes.len() > 0 {
        let shorter = bytes.drop_last();
        hex_shows_each_byte(shorter);
        assert forall|i: int|
            #![trigger bytes[i]]
            0 <= i < bytes.len() implies hex(bytes)[2 * i] == "0123456789abcdef"@[bytes[i] as int
            / 16] && hex(bytes)[2 * i + 1] == "0123456789abcdef"@[bytes[i] as int % 16] by {
            if i < shorter.len() {
                assert(shorter[i] == bytes[i]);
                assert(hex(bytes)[2 * i] == hex(shorter)[2 * i]);
                assert(hex(bytes)[2 * i + 1] == hex(shorter)[2 * i + 1]);
            } else {
                lemma_hex_digit(bytes[i] as nat / 16);
                lemma_hex_digit(bytes[i] as nat % 16);
            }
        }
    }
}

proof fn lemma_hex_digit(d: nat)
    requires
        d < 16,
    ensures
        hex_digit(d) == "0123456789abcdef"@[d as int],
{
    reveal_strlit("0123456789abcdef");
}

/// Different bytes have different hexadecimals.
pub proof fn hexadecimals_differ(a: Seq<u8>, b: Seq<u8>)
    requires
        hex(a) == hex(b),
    ensures
        a == b,
{
    hex_shows_each_byte(a);
    hex_shows_each_byte(b);
    assert forall|i: int| 0 <= i < a.len() implies a[i] == b[i] by {
        assert(hex(a)[2 * i] == hex(b)[2 * i]);
        assert(hex(a)[2 * i + 1] == hex(b)[2 * i + 1]);
        lemma_hex_digits_differ(a[i] as int / 16, b[i] as int / 16);
        lemma_hex_digits_differ(a[i] as int % 16, b[i] as int % 16);
    }
    assert(a =~= b);
}

proof fn lemma_hex_digits_differ(c: int, d: int)
    requires
        0 <= c < 16,
        0 <= d < 16,
        "0123456789abcdef"@[c] == "0123456789abcdef"@[d],
    ensures
        c == d,
{
    reveal_strlit("0123456789abcdef");
}

/// The characters with the Unicode property White_Space.
pub open spec fn is_white_space(c: char) -> bool {
    let code = c as u32;
    ||| 0x09 <= code <= 0x0D
    ||| code == 0x20
    ||| code == 0x85
    ||| code == 0xA0
    ||| code == 0x1680
    ||| 0x2000 <= code <= 0x200A
    ||| code == 0x2028
    ||| code == 0x2029
    ||| code == 0x202F
    ||| code == 0x205F
    ||| code == 0x3000
}

fn white_space(c: char) -> (r: bool)
    ensures
        r == is_white_space(c),
{
    let code: u32 = c as u32;
    (0x09 <= code && code <= 0x0D) || code == 0x20 || code == 0x85 || code == 0xA0 || code == 0x1680
        || (0x2000 <= code && code <= 0x200A) || code == 0x2028 || code == 0x2029 || code == 0x202F
        || code == 0x205F || code == 0x3000
}

/// The text without the white space that it starts with.
pub open spec fn trimmed_start(s: Seq<char>) -> Seq<char>
    decreases s.len(),
{
    if s.len() > 0 && is_white_space(s.first()) {
        trimmed_start(s.drop_first())
    } else {
        s
    }
}

/// The text without the white space that it ends with.
pub open spec fn trimmed_end(s: Seq<char>) -> Seq<char>
    decreases s.len(),
{
    if s.len() > 0 && is_white_space(s.last()) {
        trimmed_end(s.drop_last())
    } else {
        s
    }
}

/// The text without the white space at its two ends.
pub open spec fn trimmed(s: Seq<char>) -> Seq<char> {
    trimmed_end(trimmed_start(s))
}

/// The text without the white space at its two ends.
pub fn trim(s: &str) -> (r: &str)
    ensures
        r@ == trimmed(s@),
{
    let len: usize = s.unicode_len();
    let mut from: usize = 0;
    assert(s@.skip(0) =~= s@);
    while from < len && white_space(s.get_char(from))
        invariant
            from <= len,
            len == s@.len(),
            trimmed_start(s@.skip(from as int)) == trimmed_start(s@),
        decreases len - from,
    {
        assert(s@.skip(from as int).drop_first() =~= s@.skip(from + 1));
        from = from + 1;
    }
    let mut to: usize = len;
    let ghost start = s@.skip(from as int);
    assert(start == trimmed_start(s@));
    assert(s@.subrange(from as int, len as int) =~= start);
    while from < to && white_space(s.get_char(to - 1))
        invariant
            from <= to <= len,
            len == s@.len(),
            trimmed_end(s@.subrange(from as int, to as int)) == trimmed_end(start),
        decreases to,
    {
        assert(s@.subrange(from as int, to as int).drop_last() =~= s@.subrange(
            from as int,
            to - 1,
        ));
        to = to - 1;
    }
    s.substring_char(from, to)
}

/// White space is the twenty-five characters of the Unicode property White_Space, and nothing
/// else.
pub proof fn white_space_is_listed(c: char)
    ensures
        is_white_space(c) <==> seq![
            '\t',
            '\n',
            '\u{B}',
            '\u{C}',
            '\r',
            ' ',
            '\u{85}',
            '\u{A0}',
            '\u{1680}',
            '\u{2000}',
            '\u{2001}',
            '\u{2002}',
            '\u{2003}',
            '\u{2004}',
            '\u{2005}',
            '\u{2006}',
            '\u{2007}',
            '\u{2008}',
            '\u{2009}',
            '\u{200A}',
            '\u{2028}',
            '\u{2029}',
            '\u{202F}',
            '\u{205F}',
            '\u{3000}',
        ].contains(c),
{
    let listed = seq![
        '\t',
        '\n',
        '\u{B}',
        '\u{C}',
        '\r',
        ' ',
        '\u{85}',
        '\u{A0}',
        '\u{1680}',
        '\u{2000}',
        '\u{2001}',
        '\u{2002}',
        '\u{2003}',
        '\u{2004}',
        '\u{2005}',
        '\u{2006}',
        '\u{2007}',
        '\u{2008}',
        '\u{2009}',
        '\u{200A}',
        '\u{2028}',
        '\u{2029}',
        '\u{202F}',
        '\u{205F}',
        '\u{3000}',
    ];
    if is_white_space(c) {
        let code = c as int;
        let i: int = if code <= 0x0D {
            code - 0x09
        } else if code == 0x20 {
            5
        } else if code == 0x85 {
            6
        } else if code == 0xA0 {
            7
        } else if code == 0x1680 {
            8
        } else if code <= 0x200A {
            9 + code - 0x2000
        } else if code == 0x2028 {
            20
        } else if code == 0x2029 {
            21
        } else if code == 0x202F {
            22
        } else if code == 0x205F {
            23
        } else {
            24
        };
        assert(listed[i] == c);
    }
}

/// Trimming takes white space from the two ends and nothing else: what is left stands in the
/// text as it is, with nothing but white space before and behind it, and neither starts nor
/// ends with white space.
pub proof fn trimming_takes_only_white_space(s: Seq<char>)
    ensures
        trimmed(s).len() > 0 ==> !is_white_space(trimmed(s).first()) && !is_white_space(
            trimmed(s).last(),
        ),
        exists|from: int, to: int|
            0 <= from <= to <= s.len() && trimmed(s) == #[trigger] s.subrange(from, to) && (forall|
                i: int,
            |
                0 <= i < from || to <= i < s.len() ==> is_white_space(#[trigger] s[i])),
{
    let start = trimmed_start(s);
    lemma_trimmed_start(s);
    lemma_trimmed_end(start);
    lemma_trimmed_start_is_suffix(s);
    lemma_trimmed_end_is_prefix(start);
    let from = s.len() - start.len();
    let to = from + trimmed(s).len();
    assert(s.subrange(from, to) =~= trimmed(s));
    assert forall|i: int| 0 <= i < from || to <= i < s.len() implies is_white_space(
        #[trigger] s[i],
    ) by {
        if i >= to {
            assert(start[i - from] == s[i]);
        }
    }
}

proof fn lemma_trimmed_start_is_suffix(s: Seq<char>)
    ensures
        trimmed_start(s).len() <= s.len(),
        trimmed_start(s) == s.skip(s.len() - trimmed_start(s).len()),
        forall|i: int|
            0 <= i < s.len() - trimmed_start(s).len() ==> is_white_space(#[trigger] s[i]),
    decreases s.len(),
{
    if s.len() > 0 && is_white_space(s.first()) {
        let rest = s.drop_first();
        lemma_trimmed_start_is_suffix(rest);
        assert(trimmed_start(s) =~= s.skip(s.len() - trimmed_start(s).len()));
        assert forall|i: int| 0 <= i < s.len() - trimmed_start(s).len() implies is_white_space(
            #[trigger] s[i],
        ) by {
            if i > 0 {
                assert(rest[i - 1] == s[i]);
            }
        }
    } else {
        assert(s.skip(0) =~= s);
    }
}

proof fn lemma_trimmed_end_is_prefix(s: Seq<char>)
    ensures
        trimmed_end(s).len() <= s.len(),
        trimmed_end(s) == s.take(trimmed_end(s).len() as int),
        forall|i: int| trimmed_end(s).len() <= i < s.len() ==> is_white_space(#[trigger] s[i]),
    decreases s.len(),
{
    if s.len() > 0 && is_white_space(s.last()) {
        let rest = s.drop_last();
        lemma_trimmed_end_is_prefix(rest);
        assert(trimmed_end(s) =~= s.take(trimmed_end(s).len() as int));
        assert forall|i: int| trimmed_end(s).len() <= i < s.len() implies is_white_space(
            #[trigger] s[i],
        ) by {
            if i < rest.len() {
                assert(rest[i] == s[i]);
            }
        }
    } else {
        assert(s.take(s.len() as int) =~= s);
    }
}

/// Trimming a trimmed text changes nothing.
pub proof fn trimmed_is_stable(s: Seq<char>)
    ensures
        trimmed(trimmed(s)) == trimmed(s),
{
    lemma_trimmed_start(s);
    lemma_trimmed_end(trimmed_start(s));
}

proof fn lemma_trimmed_start(s: Seq<char>)
    ensures
        trimmed_start(s).len() == 0 || !is_white_space(trimmed_start(s).first()),
    decreases s.len(),
{
    if s.len() > 0 && is_white_space(s.first()) {
        lemma_trimmed_start(s.drop_first());
    }
}

proof fn lemma_trimmed_end(s: Seq<char>)
    ensures
        trimmed_end(s).len() == 0 || !is_white_space(trimmed_end(s).last()),
        trimmed_end(s).len() > 0 ==> trimmed_end(s).first() == s.first() && s.len() > 0,
    decreases s.len(),
{
    if s.len() > 0 && is_white_space(s.last()) {
        lemma_trimmed_end(s.drop_last());
    }
}

/// Whether a UTF-16 unit is the first or the second half of a pair.
pub open spec fn is_surrogate(unit: u16) -> bool {
    0xD800 <= unit <= 0xDFFF
}

/// Whether two UTF-16 units encode one character together.
pub open spec fn is_pair(first: u16, second: u16) -> bool {
    0xD800 <= first <= 0xDBFF && 0xDC00 <= second <= 0xDFFF
}

/// The code of the character that a pair encodes.
pub open spec fn pair_code(first: u16, second: u16) -> u32 {
    (0x10000 + (first - 0xD800) * 0x400 + (second - 0xDC00)) as u32
}

/// The text that UTF-16 units encode, with U+FFFD in place of each half without its
/// other half.
pub open spec fn utf16_lossy(units: Seq<u16>) -> Seq<char>
    decreases units.len(),
{
    if units.len() == 0 {
        seq![]
    } else if !is_surrogate(units[0]) {
        seq![units[0] as u32 as char] + utf16_lossy(units.skip(1))
    } else if units.len() >= 2 && is_pair(units[0], units[1]) {
        seq![pair_code(units[0], units[1]) as char] + utf16_lossy(units.skip(2))
    } else {
        seq!['\u{FFFD}'] + utf16_lossy(units.skip(1))
    }
}

/// The text that UTF-16 units encode, with U+FFFD in place of what encodes nothing.
pub fn decode_utf16_lossy(units: &[u16]) -> (r: String)
    ensures
        r@ == utf16_lossy(units@),
{
    let mut out = String::new();
    let mut i: usize = 0;
    assert(units@.skip(0) =~= units@);
    assert(out@ + utf16_lossy(units@) =~= utf16_lossy(units@));
    while i < units.len()
        invariant
            i <= units@.len(),
            out@ + utf16_lossy(units@.skip(i as int)) == utf16_lossy(units@),
        decreases units@.len() - i,
    {
        let unit: u16 = units[i];
        let ghost rest = units@.skip(i as int);
        let ghost before = out@;
        let mut code: u32 = 0xFFFD;
        let mut used: usize = 1;
        if !(0xD800 <= unit && unit <= 0xDFFF) {
            code = unit as u32;
        } else if unit <= 0xDBFF && units.len() - i >= 2 && 0xDC00 <= units[i + 1] && units[i + 1]
            <= 0xDFFF {
            code = 0x10000 + (unit as u32 - 0xD800) * 0x400 + (units[i + 1] as u32 - 0xDC00);
            used = 2;
        }
        if let Some(c) = char::from_u32(code) {
            out.push(c);
            proof {
                char_u32_cast(c, code);
                assert(rest.skip(used as int) =~= units@.skip(i + used));
                assert(rest[0] == unit);
                assert(used == 2 ==> rest[1] == units@[i + 1]);
                assert(code == 0xFFFD ==> c == '\u{FFFD}');
                assert(utf16_lossy(rest) =~= seq![c] + utf16_lossy(rest.skip(used as int)));
                assert(before.push(c) + utf16_lossy(rest.skip(used as int)) =~= before + (seq![c]
                    + utf16_lossy(rest.skip(used as int))));
            }
        }
        i = i + used;
    }
    assert(units@.skip(units@.len() as int) =~= seq![]);
    assert(out@ + seq![] =~= out@);
    out
}

/// A unit that is no half of a pair stands for the character of its number.
pub proof fn single_units_stand_for_themselves(unit: u16)
    requires
        !(0xD800 <= unit <= 0xDFFF),
    ensures
        utf16_lossy(seq![unit]).len() == 1,
        utf16_lossy(seq![unit])[0] as u32 == unit,
{
    reveal_with_fuel(utf16_lossy, 2);
    assert(seq![unit].skip(1) =~= seq![]);
    char_u32_cast(unit as u32 as char, unit as u32);
}

/// A pair stands for one character: ten bits of its number above 0xFFFF come from each half,
/// the upper ten from the first.
pub proof fn pairs_stand_for_one_character(first: u16, second: u16)
    requires
        0xD800 <= first <= 0xDBFF,
        0xDC00 <= second <= 0xDFFF,
    ensures
        utf16_lossy(seq![first, second]).len() == 1,
        utf16_lossy(seq![first, second])[0] as u32 == 0x10000 + (first - 0xD800) * 0x400 + (second
            - 0xDC00),
{
    reveal_with_fuel(utf16_lossy, 2);
    assert(seq![first, second].skip(2) =~= seq![]);
    let code = pair_code(first, second);
    char_u32_cast(code as char, code);
}

/// A half without its other half stands for the replacement character.
pub proof fn lonely_halves_are_replaced(unit: u16)
    requires
        0xD800 <= unit <= 0xDFFF,
    ensures
        utf16_lossy(seq![unit]) == seq!['\u{FFFD}'],
{
    reveal_with_fuel(utf16_lossy, 2);
    assert(seq![unit].skip(1) =~= seq![]);
    assert(utf16_lossy(seq![unit]) =~= seq!['\u{FFFD}']);
}

/// Units that are cut anywhere but inside a pair stand for the characters of the one part and
/// then those of the other.
pub proof fn units_are_decoded_one_after_the_other(a: Seq<u16>, b: Seq<u16>)
    requires
        a.len() == 0 || b.len() == 0 || !(0xD800 <= a.last() <= 0xDBFF && 0xDC00 <= b[0] <= 0xDFFF),
    ensures
        utf16_lossy(a + b) == utf16_lossy(a) + utf16_lossy(b),
    decreases a.len(),
{
    if a.len() == 0 {
        assert(a + b =~= b);
        assert(utf16_lossy(a) + utf16_lossy(b) =~= utf16_lossy(b));
    } else if b.len() == 0 {
        assert(a + b =~= a);
        assert(utf16_lossy(a) + utf16_lossy(b) =~= utf16_lossy(a));
    } else {
        let all = a + b;
        let used: int = if a.len() >= 2 && is_pair(a[0], a[1]) {
            2
        } else {
            1
        };
        assert(all.skip(used) =~= a.skip(used) + b);
        if a.len() == 1 {
            assert(all[1] == b[0]);
            assert(!is_pair(all[0], all[1]));
        } else {
            assert(all[1] == a[1]);
            if used < a.len() {
                assert(a.skip(used).last() == a.last());
            }
        }
        units_are_decoded_one_after_the_other(a.skip(used), b);
        let head = utf16_lossy(all).take(1);
        assert(utf16_lossy(all) =~= head + utf16_lossy(all.skip(used)));
        assert(utf16_lossy(a) =~= head + utf16_lossy(a.skip(used)));
        assert(utf16_lossy(all) =~= utf16_lossy(a) + utf16_lossy(b));
    }
}

/// The units before the terminator are the longest start of the units without a zero.
pub proof fn the_first_zero_terminates(units: Seq<u16>)
    ensures
        unterminated(units).len() <= units.len(),
        unterminated(units) == units.take(unterminated(units).len() as int),
        forall|i: int| 0 <= i < unterminated(units).len() ==> #[trigger] units[i] != 0,
        unterminated(units).len() < units.len() ==> units[unterminated(units).len() as int] == 0,
{
    lemma_zero_at(units);
}

proof fn lemma_zero_at(units: Seq<u16>)
    ensures
        0 <= zero_at(units) <= units.len(),
        forall|i: int| 0 <= i < zero_at(units) ==> #[trigger] units[i] != 0,
        zero_at(units) < units.len() ==> units[zero_at(units)] == 0,
    decreases units.len(),
{
    if units.len() > 0 && units[0] != 0 {
        let rest = units.skip(1);
        lemma_zero_at(rest);
        assert forall|i: int| 0 <= i < zero_at(units) implies #[trigger] units[i] != 0 by {
            if i > 0 {
                assert(rest[i - 1] == units[i]);
            }
        }
    }
}

/// How many units stand before the first zero, or in all if there is none.
pub open spec fn zero_at(units: Seq<u16>) -> int
    decreases units.len(),
{
    if units.len() == 0 || units[0] == 0 {
        0
    } else {
        1 + zero_at(units.skip(1))
    }
}

/// The units before the first zero.
pub open spec fn unterminated(units: Seq<u16>) -> Seq<u16> {
    units.take(zero_at(units))
}

/// The units before the first zero.
pub fn strip_terminator(units: &[u16]) -> (r: &[u16])
    ensures
        r@ == unterminated(units@),
{
    let mut i: usize = 0;
    assert(units@.skip(0) =~= units@);
    while i < units.len() && units[i] != 0
        invariant
            i <= units@.len(),
            zero_at(units@) == i + zero_at(units@.skip(i as int)),
        decreases units@.len() - i,
    {
        assert(units@.skip(i as int).skip(1) =~= units@.skip(i + 1));
        i = i + 1;
    }
    let r: &[u16] = slice_subrange(units, 0, i);
    assert(r@ =~= unterminated(units@));
    r
}

/// The UTF-16 units of a text.
pub open spec fn utf16(s: Seq<char>) -> Seq<u16>
    decreases s.len(),
{
    if s.len() == 0 {
        seq![]
    } else {
        let code = s[0] as u32;
        (if code < 0x10000 {
            seq![code as u16]
        } else {
            seq![
                (0xD800 + (code - 0x10000) / 0x400) as u16,
                (0xDC00 + (code - 0x10000) % 0x400) as u16,
            ]
        }) + utf16(s.skip(1))
    }
}

/// Decoding the UTF-16 units of a text gives the text back.
pub proof fn utf16_round_trip(s: Seq<char>)
    ensures
        utf16_lossy(utf16(s)) == s,
    decreases s.len(),
{
    if s.len() > 0 {
        utf16_round_trip(s.skip(1));
        let code = s[0] as u32;
        let units = utf16(s);
        char_is_scalar(s[0]);
        char_u32_cast(s[0], code);
        if code < 0x10000 {
            assert(units.skip(1) =~= utf16(s.skip(1)));
        } else {
            assert(units.skip(2) =~= utf16(s.skip(1)));
            assert(pair_code(units[0], units[1]) == code);
        }
        assert(seq![s[0]] + s.skip(1) =~= s);
    } else {
        assert(s =~= seq![]);
    }
}

} // verus!
