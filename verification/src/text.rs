//! Character-level text primitives.
//!
//! Strings are modelled by their sequence of characters. The functions here
//! are what the rest of the crate builds its messages from.

use vstd::prelude::*;

verus! {

broadcast use vstd::string::group_string_axioms;

/// `String::push`: appends one character.
pub assume_specification[ String::push ](s: &mut String, c: char)
    ensures
        final(s)@ == old(s)@.push(c),
;

/// `str == str`: two string slices are equal when they hold the same
/// characters in the same order.
pub assume_specification[ <str as PartialEq<str>>::eq ](a: &str, b: &str) -> (r: bool)
    ensures
        r == (a@ == b@),
;

// ── Decimal numerals ────────────────────────────────────────

/// The character of one decimal digit.
pub open spec fn digit_char(d: nat) -> char {
    (48 + d) as char
}

/// The decimal numeral of `n`, without leading zeros.
pub open spec fn decimal(n: nat) -> Seq<char>
    decreases n,
{
    if n < 10 {
        seq![digit_char(n)]
    } else {
        decimal(n / 10).push(digit_char(n % 10))
    }
}

/// Appends the decimal numeral of `n` to `out`.
pub fn append_decimal(out: &mut String, n: u64)
    ensures
        final(out)@ == old(out)@ + decimal(n as nat),
    decreases n,
{
    if n >= 10 {
        append_decimal(out, n / 10);
    }
    let c: char = (48u8 + (n % 10) as u8) as char;
    out.push(c);
    assert(out@ =~= old(out)@ + decimal(n as nat));
}

/// Different numbers have different numerals.
pub proof fn law_numerals_are_distinct(m: nat, n: nat)
    requires
        decimal(m) == decimal(n),
    ensures
        m == n,
    decreases m,
{
    lemma_numeral_len(m);
    lemma_numeral_len(n);
    assert(decimal(m).last() == digit_char(m % 10));
    assert(decimal(n).last() == digit_char(n % 10));
    if m >= 10 && n >= 10 {
        assert(decimal(m).drop_last() =~= decimal(m / 10));
        assert(decimal(n).drop_last() =~= decimal(n / 10));
        law_numerals_are_distinct(m / 10, n / 10);
    }
}

proof fn lemma_numeral_len(n: nat)
    ensures
        n < 10 ==> decimal(n).len() == 1,
        n >= 10 ==> decimal(n).len() >= 2,
{
    if n >= 10 {
        assert(decimal(n / 10).len() >= 1);
    }
}

// ── Comparison ──────────────────────────────────────────────

/// Whether `a` and `b` hold the same characters.
pub fn same_text(a: &str, b: &str) -> (r: bool)
    ensures
        r == (a@ == b@),
{
    a.eq(b)
}

/// Whether `a` and `b` agree on their first `n` characters.
pub open spec fn agree_below(a: Seq<char>, b: Seq<char>, n: int) -> bool {
    forall|k: int| 0 <= k < n ==> a[k] == #[trigger] b[k]
}

/// Position `i` decides that `a` comes before `b`.
pub open spec fn decides_before(a: Seq<char>, b: Seq<char>, i: int) -> bool {
    &&& 0 <= i <= a.len()
    &&& i < b.len()
    &&& agree_below(a, b, i)
    &&& (i == a.len() || a[i] < b[i])
}

/// Lexicographic order by character: `a` comes strictly before `b`.
pub open spec fn text_before(a: Seq<char>, b: Seq<char>) -> bool {
    exists|i: int| #[trigger] decides_before(a, b, i)
}

/// Of two texts, one comes first unless they are the same.
pub proof fn lemma_text_before_total(a: Seq<char>, b: Seq<char>)
    ensures
        text_before(a, b) || text_before(b, a) || a == b,
{
    lemma_text_before_total_from(a, b, 0);
}

proof fn lemma_text_before_total_from(a: Seq<char>, b: Seq<char>, i: int)
    requires
        0 <= i <= a.len(),
        i <= b.len(),
        agree_below(a, b, i),
    ensures
        text_before(a, b) || text_before(b, a) || a == b,
    decreases a.len() - i,
{
    if i == a.len() || i == b.len() {
        if a.len() < b.len() {
            assert(decides_before(a, b, i));
        } else if b.len() < a.len() {
            assert(agree_below(b, a, i)) by {
                assert(agree_below(a, b, i));
                assert forall|k: int| 0 <= k < i implies b[k] == #[trigger] a[k] by {
                    assert(a[k] == b[k]);
                }
            }
            assert(decides_before(b, a, i));
        } else {
            assert(a =~= b);
        }
    } else if a[i] == b[i] {
        assert(agree_below(a, b, i + 1));
        lemma_text_before_total_from(a, b, i + 1);
    } else if a[i] < b[i] {
        assert(decides_before(a, b, i));
    } else {
        assert(agree_below(b, a, i)) by {
            assert forall|k: int| 0 <= k < i implies b[k] == #[trigger] a[k] by {
                assert(a[k] == b[k]);
            }
        }
        assert(decides_before(b, a, i));
    }
}

/// No text comes before itself, and never both ways round.
pub proof fn lemma_text_before_strict(a: Seq<char>, b: Seq<char>)
    requires
        text_before(a, b),
    ensures
        !text_before(b, a),
        a != b,
{
    let i = choose|i: int| #[trigger] decides_before(a, b, i);
    if a == b {
        assert(i < a.len());
        assert(a[i] < b[i]);
    }
    if text_before(b, a) {
        let j = choose|j: int| #[trigger] decides_before(b, a, j);
        if i < j {
            assert(b[i] == a[i]);
        } else if j < i {
            assert(a[j] == b[j]);
        }
    }
}

/// The order is transitive.
pub proof fn lemma_text_before_transitive(a: Seq<char>, b: Seq<char>, c: Seq<char>)
    requires
        text_before(a, b),
        text_before(b, c),
    ensures
        text_before(a, c),
{
    let i = choose|i: int| #[trigger] decides_before(a, b, i);
    let j = choose|j: int| #[trigger] decides_before(b, c, j);
    let k = if i <= j {
        i
    } else {
        j
    };
    assert forall|x: int| 0 <= x < k implies a[x] == #[trigger] c[x] by {
        assert(a[x] == b[x]);
        assert(b[x] == c[x]);
    }
    if i < j {
        assert(b[i] == c[i]);
    } else if j < i {
        assert(a[j] == b[j]);
    }
    assert(decides_before(a, c, k));
}

/// Whether `a` comes strictly before `b`.
pub fn comes_before(a: &str, b: &str) -> (r: bool)
    ensures
        r == text_before(a@, b@),
{
    let x: Vec<char> = chars_of(a);
    let y: Vec<char> = chars_of(b);
    let mut i: usize = 0;
    while i < x.len() && i < y.len()
        invariant
            x@ == a@,
            y@ == b@,
            i <= x.len(),
            i <= y.len(),
            agree_below(a@, b@, i as int),
        decreases x.len() - i,
    {
        if x[i] < y[i] {
            assert(decides_before(a@, b@, i as int));
            return true;
        }
        if y[i] < x[i] {
            proof {
                assert forall|k: int| 0 <= k < i implies b@[k] == #[trigger] a@[k] by {
                    assert(a@[k] == b@[k]);
                }
                assert(decides_before(b@, a@, i as int));
                lemma_text_before_strict(b@, a@);
            }
            return false;
        }
        i += 1;
    }
    let r = i < y.len();
    proof {
        if r {
            assert(decides_before(a@, b@, i as int));
        } else if i < x.len() {
            assert forall|k: int| 0 <= k < i implies b@[k] == #[trigger] a@[k] by {
                assert(a@[k] == b@[k]);
            }
            assert(decides_before(b@, a@, i as int));
            lemma_text_before_strict(b@, a@);
        } else {
            assert(a@ =~= b@);
            if text_before(a@, b@) {
                lemma_text_before_strict(a@, b@);
            }
        }
    }
    r
}

// ── Characters, bytes and prefixes ──────────────────────────

/// The characters of `s`.
pub fn chars_of(s: &str) -> (r: Vec<char>)
    ensures
        r@ == s@,
{
    let mut out: Vec<char> = Vec::new();
    for c in it: s.chars()
        invariant
            out@ == it.seq().take(it.index()),
            it.seq() == s@,
    {
        out.push(c);
    }
    out
}

/// How many characters `s` has.
pub fn char_count(s: &str) -> (r: usize)
    ensures
        r == s@.len(),
{
    s.unicode_len()
}

/// The number of bytes of the UTF-8 form of `s`.
pub open spec fn utf8_len(s: Seq<char>) -> nat {
    vstd::utf8::encode_utf8(s).len()
}

/// How many bytes the UTF-8 form of `s` has.
pub fn byte_len(s: &str) -> (r: usize)
    ensures
        r == utf8_len(s@),
{
    s.as_bytes().len()
}

/// The first `n` characters of `s`, or all of them where there are fewer.
pub open spec fn prefix(s: Seq<char>, n: nat) -> Seq<char> {
    if s.len() <= n {
        s
    } else {
        s.take(n as int)
    }
}

/// Keeps the first `n` characters of `s`.
pub fn take_chars(s: &str, n: usize) -> (r: String)
    ensures
        r@ == prefix(s@, n as nat),
{
    if char_count(s) <= n {
        s.to_string()
    } else {
        let head = s.substring_char(0, n).to_string();
        assert(head@ =~= s@.take(n as int));
        head
    }
}

// ── Searching ───────────────────────────────────────────────

/// `needle` stands in `hay` at position `i`.
pub open spec fn occurs_at(hay: Seq<char>, needle: Seq<char>, i: int) -> bool {
    &&& 0 <= i
    &&& i + needle.len() <= hay.len()
    &&& hay.subrange(i, i + needle.len()) == needle
}

/// `needle` stands somewhere in `hay`.
pub open spec fn has_text(hay: Seq<char>, needle: Seq<char>) -> bool {
    exists|i: int| #[trigger] occurs_at(hay, needle, i)
}

/// `hay` begins with `needle`.
pub open spec fn begins_with(hay: Seq<char>, needle: Seq<char>) -> bool {
    occurs_at(hay, needle, 0)
}

/// `hay` ends with `needle`.
pub open spec fn finishes_with(hay: Seq<char>, needle: Seq<char>) -> bool {
    occurs_at(hay, needle, hay.len() - needle.len())
}

fn occurs_here(hay: &Vec<char>, needle: &Vec<char>, at: usize) -> (r: bool)
    requires
        at + needle.len() <= hay.len(),
    ensures
        r == occurs_at(hay@, needle@, at as int),
{
    let mut k: usize = 0;
    while k < needle.len()
        invariant
            k <= needle.len(),
            at + needle.len() <= hay.len(),
            forall|j: int| 0 <= j < k ==> hay@[at + j] == #[trigger] needle@[j],
        decreases needle.len() - k,
    {
        if hay[at + k] != needle[k] {
            assert(hay@.subrange(at as int, at + needle.len())[k as int] != needle@[k as int]);
            return false;
        }
        k += 1;
    }
    assert(hay@.subrange(at as int, at + needle.len()) =~= needle@);
    true
}

/// Whether `needle` stands somewhere in `hay`.
pub fn contains_text(hay: &str, needle: &str) -> (r: bool)
    ensures
        r == has_text(hay@, needle@),
{
    let h: Vec<char> = chars_of(hay);
    let n: Vec<char> = chars_of(needle);
    if n.len() > h.len() {
        return false;
    }
    let last: usize = h.len() - n.len();
    let mut i: usize = 0;
    while i <= last
        invariant
            h@ == hay@,
            n@ == needle@,
            n.len() <= h.len(),
            last == h.len() - n.len(),
            i <= last + 1,
            forall|j: int| 0 <= j < i ==> !#[trigger] occurs_at(hay@, needle@, j),
        decreases last + 1 - i,
    {
        if occurs_here(&h, &n, i) {
            return true;
        }
        if i == last {
            return false;
        }
        i += 1;
    }
    false
}

/// Whether `hay` begins with `needle`.
pub fn starts_with_text(hay: &str, needle: &str) -> (r: bool)
    ensures
        r == begins_with(hay@, needle@),
{
    let h: Vec<char> = chars_of(hay);
    let n: Vec<char> = chars_of(needle);
    if n.len() > h.len() {
        false
    } else {
        occurs_here(&h, &n, 0)
    }
}

/// Whether `hay` ends with `needle`.
pub fn ends_with_text(hay: &str, needle: &str) -> (r: bool)
    ensures
        r == finishes_with(hay@, needle@),
{
    let h: Vec<char> = chars_of(hay);
    let n: Vec<char> = chars_of(needle);
    if n.len() > h.len() {
        false
    } else {
        occurs_here(&h, &n, h.len() - n.len())
    }
}

// ── Building ────────────────────────────────────────────────

/// `s` with every `from` replaced by `to`.
pub open spec fn swap_char(s: Seq<char>, from: char, to: char) -> Seq<char> {
    s.map_values(
        |c: char|
            if c == from {
                to
            } else {
                c
            },
    )
}

/// Replaces every `from` in `s` by `to`.
pub fn replace_char(s: &str, from: char, to: char) -> (r: String)
    ensures
        r@ == swap_char(s@, from, to),
{
    let chars: Vec<char> = chars_of(s);
    let mut out = String::new();
    let mut i: usize = 0;
    while i < chars.len()
        invariant
            i <= chars.len(),
            chars@ == s@,
            out@ == swap_char(s@.take(i as int), from, to),
        decreases chars.len() - i,
    {
        if chars[i] == from {
            out.push(to);
        } else {
            out.push(chars[i]);
        }
        i += 1;
        assert(out@ =~= swap_char(s@.take(i as int), from, to));
    }
    assert(s@.take(i as int) =~= s@);
    out
}

/// `n` times the character `c`.
pub open spec fn repeated(c: char, n: nat) -> Seq<char> {
    Seq::new(n, |i: int| c)
}

/// Writes `c` `n` times.
pub fn repeat_char(c: char, n: usize) -> (r: String)
    ensures
        r@ == repeated(c, n as nat),
{
    let mut out = String::new();
    let mut i: usize = 0;
    while i < n
        invariant
            i <= n,
            out@ == repeated(c, i as nat),
        decreases n - i,
    {
        out.push(c);
        i += 1;
        assert(out@ =~= repeated(c, i as nat));
    }
    out
}

/// `s` followed by as many spaces as bring it to `width` characters.
pub open spec fn padded(s: Seq<char>, width: nat) -> Seq<char> {
    if s.len() >= width {
        s
    } else {
        s + repeated(' ', (width - s.len()) as nat)
    }
}

/// Pads `s` with spaces on the right to `width` characters.
pub fn pad_right(s: &str, width: usize) -> (r: String)
    ensures
        r@ == padded(s@, width as nat),
{
    let n: usize = char_count(s);
    let mut out = s.to_string();
    if n < width {
        out.append(repeat_char(' ', width - n).as_str());
    }
    out
}

/// The parts one after the other, with `sep` between neighbours.
pub open spec fn joined(parts: Seq<Seq<char>>, sep: Seq<char>) -> Seq<char>
    decreases parts.len(),
{
    if parts.len() == 0 {
        seq![]
    } else if parts.len() == 1 {
        parts[0]
    } else {
        joined(parts.drop_last(), sep) + sep + parts.last()
    }
}

/// The texts that a list of strings holds.
pub open spec fn texts(list: Seq<String>) -> Seq<Seq<char>> {
    list.map_values(|s: String| s@)
}

/// Joins `parts` with `sep` between neighbours.
pub fn join_texts(parts: &Vec<String>, sep: &str) -> (r: String)
    ensures
        r@ == joined(texts(parts@), sep@),
{
    let mut out = String::new();
    let mut i: usize = 0;
    while i < parts.len()
        invariant
            i <= parts.len(),
            out@ == joined(texts(parts@.take(i as int)), sep@),
        decreases parts.len() - i,
    {
        if i > 0 {
            out.append(sep);
        }
        out.append(parts[i].as_str());
        proof {
            let before = texts(parts@.take(i as int));
            let after = texts(parts@.take(i + 1));
            assert(after.drop_last() =~= before);
            assert(after.last() == parts@[i as int]@);
            if i == 0 {
                assert(out@ =~= after[0]);
            }
        }
        i += 1;
    }
    assert(parts@.take(i as int) =~= parts@);
    out
}

/// The lower-case hexadecimal digit of `d`.
pub open spec fn hex_char(d: nat) -> char {
    if d < 10 {
        (48 + d) as char
    } else {
        (87 + d) as char
    }
}

/// Every byte as two lower-case hexadecimal digits.
pub open spec fn hex_of(bytes: Seq<u8>) -> Seq<char> {
    Seq::new(
        2 * bytes.len(),
        |i: int|
            if i % 2 == 0 {
                hex_char((bytes[i / 2] / 16) as nat)
            } else {
                hex_char((bytes[i / 2] % 16) as nat)
            },
    )
}

fn hex_digit(d: u8) -> (c: char)
    requires
        d < 16,
    ensures
        c == hex_char(d as nat),
{
    if d < 10 {
        (48u8 + d) as char
    } else {
        (87u8 + d) as char
    }
}

/// Writes `bytes` in lower-case hexadecimal.
pub fn hex_text(bytes: &Vec<u8>) -> (r: String)
    ensures
        r@ == hex_of(bytes@),
{
    let mut out = String::new();
    let mut i: usize = 0;
    while i < bytes.len()
        invariant
            i <= bytes.len(),
            out@ == hex_of(bytes@.take(i as int)),
        decreases bytes.len() - i,
    {
        let b: u8 = bytes[i];
        out.push(hex_digit(b / 16));
        out.push(hex_digit(b % 16));
        i += 1;
        assert(out@ =~= hex_of(bytes@.take(i as int)));
    }
    assert(bytes@.take(i as int) =~= bytes@);
    out
}

// ── Case ────────────────────────────────────────────────────

/// The lower-case form of a text, as `str::to_lowercase` gives it.
pub uninterp spec fn lowercase_of(s: Seq<char>) -> Seq<char>;

/// `str::to_lowercase`: the Unicode lower-case form of `s`, which depends on
/// the characters of `s` alone.
#[verifier::external_body]
pub(crate) fn lowercase(s: &str) -> (r: String)
    ensures
        r@ == lowercase_of(s@),
{
    s.to_lowercase()
}

// ── Laws ────────────────────────────────────────────────────

/// The number that a row of decimal digits stands for.
pub open spec fn digits_value(s: Seq<char>) -> int
    decreases s.len(),
{
    if s.len() == 0 {
        0
    } else {
        10 * digits_value(s.drop_last()) + (s.last() as int - '0' as int)
    }
}

pub proof fn lemma_numeral(n: nat)
    ensures
        digits_value(decimal(n)) == n,
        decimal(n).len() >= 1,
        forall|i: int| 0 <= i < decimal(n).len() ==> '0' <= #[trigger] decimal(n)[i] <= '9',
        n > 0 ==> decimal(n)[0] != '0',
    decreases n,
{
    let d = decimal(n);
    if n < 10 {
        assert(d.drop_last() =~= seq![]);
        assert(digits_value(d.drop_last()) == 0);
        assert(d.last() == digit_char(n));
    } else {
        lemma_numeral(n / 10);
        assert(d.drop_last() =~= decimal(n / 10));
        assert(d.last() == digit_char(n % 10));
        assert(d[0] == decimal(n / 10)[0]);
        assert forall|i: int| 0 <= i < d.len() implies '0' <= #[trigger] d[i] <= '9' by {
            if i < d.len() - 1 {
                assert(d[i] == decimal(n / 10)[i]);
            }
        }
    }
}

/// A number is written behind the text in decimal digits that read back as it,
/// without a leading zero.
pub proof fn law_numbers_read_back(out: &mut String, n: u64, r: ())
    requires
        call_ensures(append_decimal, (out, n), r),
    ensures
        exists|d: Seq<char>|
            #![trigger digits_value(d)]
            final(out)@ == old(out)@ + d && digits_value(d) == n && d.len() >= 1 && (n > 0 ==> d[0]
                != '0') && (n == 0 ==> d.len() == 1) && (forall|i: int|
                0 <= i < d.len() ==> '0' <= #[trigger] d[i] <= '9'),
{
    lemma_numeral(n as nat);
    assert(digits_value(decimal(n as nat)) == n);
}

/// A text stands in another exactly where the other is made of something, the
/// text, and something more; at its beginning or its end where nothing comes
/// before or behind it.
pub proof fn law_searching(hay: &str, needle: &str, anywhere: bool, first: bool, last: bool)
    requires
        call_ensures(contains_text, (hay, needle), anywhere),
        call_ensures(starts_with_text, (hay, needle), first),
        call_ensures(ends_with_text, (hay, needle), last),
    ensures
        anywhere <==> exists|a: Seq<char>, b: Seq<char>| hay@ == #[trigger] (a + needle@ + b),
        first <==> exists|b: Seq<char>| hay@ == #[trigger] (needle@ + b),
        last <==> exists|a: Seq<char>| hay@ == #[trigger] (a + needle@),
        first || last ==> anywhere,
{
    let h = hay@;
    let n = needle@;
    if anywhere {
        let i = choose|i: int| #[trigger] occurs_at(h, n, i);
        assert(h =~= h.take(i) + n + h.skip(i + n.len()));
    }
    if exists|a: Seq<char>, b: Seq<char>| h == #[trigger] (a + n + b) {
        let (a, b) = choose|a: Seq<char>, b: Seq<char>| h == #[trigger] (a + n + b);
        assert(h.subrange(a.len() as int, (a.len() + n.len()) as int) =~= n);
        assert(occurs_at(h, n, a.len() as int));
    }
    if first {
        assert(h =~= n + h.skip(n.len() as int));
    }
    if exists|b: Seq<char>| h == #[trigger] (n + b) {
        let b = choose|b: Seq<char>| h == #[trigger] (n + b);
        assert(h.subrange(0, n.len() as int) =~= n);
    }
    if last {
        assert(h =~= h.take(h.len() - n.len()) + n);
    }
    if exists|a: Seq<char>| h == #[trigger] (a + n) {
        let a = choose|a: Seq<char>| h == #[trigger] (a + n);
        assert(h.subrange(h.len() - n.len(), h.len() as int) =~= n);
        assert(occurs_at(h, n, h.len() - n.len()));
    }
    if first {
        assert(occurs_at(h, n, 0));
    }
    if last {
        assert(occurs_at(h, n, h.len() - n.len()));
    }
}

/// What is kept of a text stands at its beginning, and is as long as asked for
/// or the whole.
pub proof fn law_kept_characters(s: &str, n: usize, r: String)
    requires
        call_ensures(take_chars, (s, n), r),
    ensures
        r@.len() == (if s@.len() < n {
            s@.len() as int
        } else {
            n as int
        }),
        forall|i: int| 0 <= i < r@.len() ==> #[trigger] r@[i] == s@[i],
{
}

/// Replacing a character touches every place where it stands and no other.
pub proof fn law_replaced_characters(s: &str, from: char, to: char, r: String)
    requires
        call_ensures(replace_char, (s, from, to), r),
    ensures
        r@.len() == s@.len(),
        forall|i: int| 0 <= i < s@.len() && s@[i] == from ==> #[trigger] r@[i] == to,
        forall|i: int| 0 <= i < s@.len() && s@[i] != from ==> #[trigger] r@[i] == s@[i],
{
}

/// A repeated character fills as many places as asked for.
pub proof fn law_repeated_character(c: char, n: usize, r: String)
    requires
        call_ensures(repeat_char, (c, n), r),
    ensures
        r@.len() == n,
        forall|i: int| 0 <= i < n ==> #[trigger] r@[i] == c,
{
}

/// Padding keeps the text, adds only spaces behind it, and stops at the width.
pub proof fn law_padding(s: &str, width: usize, r: String)
    requires
        call_ensures(pad_right, (s, width), r),
    ensures
        r@.len() == (if s@.len() < width {
            width as int
        } else {
            s@.len() as int
        }),
        forall|i: int| 0 <= i < s@.len() ==> #[trigger] r@[i] == s@[i],
        forall|i: int| s@.len() <= i < r@.len() ==> #[trigger] r@[i] == ' ',
{
}

pub proof fn lemma_joined_more(a: Seq<Seq<char>>, b: Seq<Seq<char>>, sep: Seq<char>)
    requires
        a.len() > 0,
        b.len() > 0,
    ensures
        joined(a + b, sep) == joined(a, sep) + sep + joined(b, sep),
    decreases b.len(),
{
    let all = a + b;
    assert(all.drop_last() =~= a + b.drop_last());
    if b.len() == 1 {
        assert(a + b.drop_last() =~= a);
        assert(joined(all, sep) =~= joined(a, sep) + sep + joined(b, sep));
    } else {
        lemma_joined_more(a, b.drop_last(), sep);
        assert(joined(all, sep) =~= joined(a, sep) + sep + joined(b, sep));
    }
}

/// Joining two lists one behind the other is joining each and putting the
/// separator between them; a list of one text joins to that text, and an empty
/// one to nothing.
pub proof fn law_joining(
    a: Vec<String>,
    b: Vec<String>,
    both: Vec<String>,
    sep: &str,
    x: String,
    y: String,
    r: String,
)
    requires
        call_ensures(join_texts, (&a, sep), x),
        call_ensures(join_texts, (&b, sep), y),
        call_ensures(join_texts, (&both, sep), r),
        both@ == a@ + b@,
    ensures
        a@.len() > 0 && b@.len() > 0 ==> r@ == x@ + sep@ + y@,
        b@.len() == 0 ==> r@ == x@,
        a@.len() == 1 ==> x@ == a@[0]@,
        a@.len() == 0 ==> x@ == Seq::<char>::empty(),
{
    assert(texts(both@) =~= texts(a@) + texts(b@));
    if a@.len() > 0 && b@.len() > 0 {
        lemma_joined_more(texts(a@), texts(b@), sep@);
    }
    if b@.len() == 0 {
        assert(texts(both@) =~= texts(a@));
    }
}

/// The number that a lower-case hexadecimal digit stands for.
pub open spec fn hex_value(c: char) -> int {
    if '0' <= c <= '9' {
        c as int - '0' as int
    } else if 'a' <= c <= 'f' {
        c as int - 'a' as int + 10
    } else {
        -1
    }
}

/// Bytes in hexadecimal read back byte by byte, two digits for each.
pub proof fn law_hexadecimal_reads_back(bytes: Vec<u8>, r: String)
    requires
        call_ensures(hex_text, (&bytes,), r),
    ensures
        r@.len() == 2 * bytes@.len(),
        forall|k: int|
            0 <= k < bytes@.len() ==> hex_value(r@[2 * k]) >= 0 && hex_value(r@[2 * k + 1]) >= 0
                && 16 * hex_value(r@[2 * k]) + hex_value(r@[2 * k + 1]) == #[trigger] bytes@[k],
{
    assert forall|k: int| 0 <= k < bytes@.len() implies hex_value(r@[2 * k]) >= 0 && hex_value(
        r@[2 * k + 1],
    ) >= 0 && 16 * hex_value(r@[2 * k]) + hex_value(r@[2 * k + 1]) == #[trigger] bytes@[k] by {
        lemma_two_digits(bytes@, k);
    }
}

/// The two digits of byte `k` stand for it.
proof fn lemma_two_digits(bytes: Seq<u8>, k: int)
    requires
        0 <= k < bytes.len(),
    ensures
        ({
            let high = hex_value(hex_of(bytes)[2 * k]);
            let low = hex_value(hex_of(bytes)[2 * k + 1]);
            high >= 0 && low >= 0 && 16 * high + low == bytes[k]
        }),
{
    let b = bytes[k];
    assert((2 * k) % 2 == 0 && (2 * k) / 2 == k);
    assert((2 * k + 1) % 2 == 1 && (2 * k + 1) / 2 == k);
    assert(hex_of(bytes)[2 * k] == hex_char((b / 16) as nat));
    assert(hex_of(bytes)[2 * k + 1] == hex_char((b % 16) as nat));
    assert(b / 16 < 16);
}

/// Texts compare by their first difference, and a text comes before every
/// longer one that begins with it.
pub proof fn law_first_difference_decides(a: &str, b: &str, i: int, r: bool)
    requires
        call_ensures(comes_before, (a, b), r),
        0 <= i <= a@.len(),
        i <= b@.len(),
        forall|k: int| 0 <= k < i ==> a@[k] == #[trigger] b@[k],
    ensures
        i < a@.len() && i < b@.len() && a@[i] < b@[i] ==> r,
        i < a@.len() && i < b@.len() && a@[i] > b@[i] ==> !r,
        i == a@.len() && i < b@.len() ==> r,
        i == b@.len() ==> !r,
{
    if i < b@.len() && (i == a@.len() || a@[i] < b@[i]) {
        assert(decides_before(a@, b@, i));
    } else if i < a@.len() && (i == b@.len() || b@[i] < a@[i]) {
        assert forall|k: int| 0 <= k < i implies b@[k] == #[trigger] a@[k] by {
            assert(a@[k] == b@[k]);
        }
        assert(decides_before(b@, a@, i));
        lemma_text_before_strict(b@, a@);
    } else if i == a@.len() && i == b@.len() {
        assert(a@ =~= b@);
        if text_before(a@, b@) {
            lemma_text_before_strict(a@, b@);
        }
    }
}

} // verus!
