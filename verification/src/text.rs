//! Character-level string helpers shared by the model, the profile store and
//! the human-readable output: hexadecimal and decimal rendering, Unicode
//! whitespace trimming, exact equality and the code-point order that sorted
//! profile names follow.

use vstd::prelude::*;

verus! {

// ---------------------------------------------------------------------------
// Digits
// ---------------------------------------------------------------------------

/// The sixteen lower-case hexadecimal digits, in value order.
pub open spec fn hex_digits() -> Seq<char> {
    seq!['0', '1', '2', '3', '4', '5', '6', '7', '8', '9', 'a', 'b', 'c', 'd', 'e', 'f']
}

/// The ten decimal digits, in value order.
pub open spec fn dec_digits() -> Seq<char> {
    seq!['0', '1', '2', '3', '4', '5', '6', '7', '8', '9']
}

/// Lower-case two-digit hexadecimal rendering of a byte (`{:02x}`).
pub open spec fn hex2(b: u8) -> Seq<char> {
    seq![hex_digits()[(b / 16) as int], hex_digits()[(b % 16) as int]]
}

/// Lower-case four-digit hexadecimal rendering of a `u16` (`{:04x}`).
pub open spec fn hex4(v: u16) -> Seq<char> {
    seq![
        hex_digits()[((v / 4096) % 16) as int],
        hex_digits()[((v / 256) % 16) as int],
        hex_digits()[((v / 16) % 16) as int],
        hex_digits()[(v % 16) as int],
    ]
}

/// Decimal rendering of a natural number without leading zeros (`{}`).
pub open spec fn decimal(n: nat) -> Seq<char>
    decreases n,
{
    if n < 10 {
        seq![dec_digits()[n as int]]
    } else {
        decimal(n / 10).push(dec_digits()[(n % 10) as int])
    }
}

/// Appends one hexadecimal digit.
pub fn push_hex_digit(s: &mut String, n: u8)
    requires
        n < 16,
    ensures
        final(s)@ == old(s)@.push(hex_digits()[n as int]),
{
    let digits = "0123456789abcdef";
    proof {
        reveal_strlit("0123456789abcdef");
    }
    let d = digits.substring_char(n as usize, n as usize + 1);
    assert(d@ =~= seq![hex_digits()[n as int]]);
    s.append(d);
}

/// Appends one decimal digit.
pub fn push_dec_digit(s: &mut String, n: u64)
    requires
        n < 10,
    ensures
        final(s)@ == old(s)@.push(dec_digits()[n as int]),
{
    let digits = "0123456789";
    proof {
        reveal_strlit("0123456789");
    }
    let d = digits.substring_char(n as usize, n as usize + 1);
    assert(d@ =~= seq![dec_digits()[n as int]]);
    s.append(d);
}

/// Appends the two-digit lower-case hexadecimal form of a byte.
pub fn push_hex2(s: &mut String, b: u8)
    ensures
        final(s)@ == old(s)@ + hex2(b),
{
    push_hex_digit(s, b / 16);
    push_hex_digit(s, b % 16);
    assert(s@ =~= old(s)@ + hex2(b));
}

/// Appends the four-digit lower-case hexadecimal form of a `u16`.
pub fn push_hex4(s: &mut String, v: u16)
    ensures
        final(s)@ == old(s)@ + hex4(v),
{
    push_hex_digit(s, ((v / 4096) % 16) as u8);
    push_hex_digit(s, ((v / 256) % 16) as u8);
    push_hex_digit(s, ((v / 16) % 16) as u8);
    push_hex_digit(s, (v % 16) as u8);
    assert(s@ =~= old(s)@ + hex4(v));
}

/// Appends the decimal form of a number.
pub fn push_decimal(s: &mut String, n: u64)
    ensures
        final(s)@ == old(s)@ + decimal(n as nat),
    decreases n,
{
    if n >= 10 {
        push_decimal(s, n / 10);
    }
    push_dec_digit(s, n % 10);
    assert(s@ =~= old(s)@ + decimal(n as nat));
}

/// Appends a string slice.
pub fn push_str(s: &mut String, t: &str)
    ensures
        final(s)@ == old(s)@ + t@,
{
    s.append(t);
}

/// A fresh `String` holding the characters of `t`.
pub fn owned(t: &str) -> (r: String)
    ensures
        r@ == t@,
{
    String::from_str(t)
}

// ---------------------------------------------------------------------------
// Whitespace and trimming
// ---------------------------------------------------------------------------

/// Unicode `White_Space` (the property `char::is_whitespace` reports).
pub open spec fn is_ws(c: char) -> bool {
    let u = c as u32;
    (0x09 <= u <= 0x0d) || u == 0x20 || u == 0x85 || u == 0xa0 || u == 0x1680 || (0x2000 <= u
        <= 0x200a) || u == 0x2028 || u == 0x2029 || u == 0x202f || u == 0x205f || u == 0x3000
}

/// Executable form of [`is_ws`].
pub fn is_whitespace_char(c: char) -> (r: bool)
    ensures
        r == is_ws(c),
{
    let u = c as u32;
    (0x09 <= u && u <= 0x0d) || u == 0x20 || u == 0x85 || u == 0xa0 || u == 0x1680 || (0x2000
        <= u && u <= 0x200a) || u == 0x2028 || u == 0x2029 || u == 0x202f || u == 0x205f || u
        == 0x3000
}

/// Leading whitespace removed.
pub open spec fn trim_start(s: Seq<char>) -> Seq<char>
    decreases s.len(),
{
    if s.len() > 0 && is_ws(s[0]) {
        trim_start(s.drop_first())
    } else {
        s
    }
}

/// Trailing whitespace removed.
pub open spec fn trim_end(s: Seq<char>) -> Seq<char>
    decreases s.len(),
{
    if s.len() > 0 && is_ws(s.last()) {
        trim_end(s.drop_last())
    } else {
        s
    }
}

/// Leading and trailing whitespace removed (`str::trim`).
pub open spec fn trim(s: Seq<char>) -> Seq<char> {
    trim_end(trim_start(s))
}

proof fn lemma_trim_start_skip(s: Seq<char>, i: int)
    requires
        0 <= i <= s.len(),
        forall|k: int| 0 <= k < i ==> is_ws(#[trigger] s[k]),
    ensures
        trim_start(s) == trim_start(s.skip(i)),
    decreases i,
{
    if i > 0 {
        assert(s.drop_first().skip(i - 1) =~= s.skip(i));
        lemma_trim_start_skip(s.drop_first(), i - 1);
    } else {
        assert(s.skip(0) =~= s);
    }
}

proof fn lemma_trim_end_take(s: Seq<char>, j: int)
    requires
        0 <= j <= s.len(),
        forall|k: int| j <= k < s.len() ==> is_ws(#[trigger] s[k]),
    ensures
        trim_end(s) == trim_end(s.take(j)),
    decreases s.len() - j,
{
    if j < s.len() {
        assert(s.drop_last().take(j) =~= s.take(j));
        lemma_trim_end_take(s.drop_last(), j);
    } else {
        assert(s.take(j) =~= s);
    }
}

proof fn lemma_trim_start_head(s: Seq<char>)
    ensures
        trim_start(s).len() == 0 || !is_ws(trim_start(s)[0]),
    decreases s.len(),
{
    if s.len() > 0 && is_ws(s[0]) {
        lemma_trim_start_head(s.drop_first());
    }
}

proof fn lemma_trim_end_prefix(s: Seq<char>)
    ensures
        trim_end(s).len() <= s.len(),
        trim_end(s) == s.take(trim_end(s).len() as int),
        trim_end(s).len() == 0 || !is_ws(trim_end(s).last()),
    decreases s.len(),
{
    if s.len() > 0 && is_ws(s.last()) {
        lemma_trim_end_prefix(s.drop_last());
        let t = trim_end(s.drop_last());
        assert(s.drop_last().take(t.len() as int) =~= s.take(t.len() as int));
    } else {
        assert(s.take(s.len() as int) =~= s);
    }
}

/// Trimming twice is trimming once.
pub proof fn lemma_trim_idempotent(s: Seq<char>)
    ensures
        trim(trim(s)) == trim(s),
{
    let w = trim_start(s);
    lemma_trim_start_head(s);
    lemma_trim_end_prefix(w);
    let u = trim_end(w);
    if u.len() > 0 {
        assert(u[0] == w[0]);
    }
    assert(trim_start(u) == u);
    assert(trim_end(u) == u);
}

/// `s` with leading and trailing Unicode whitespace removed.
pub fn trimmed(s: &str) -> (r: String)
    ensures
        r@ == trim(s@),
{
    let n = s.unicode_len();
    let mut i: usize = 0;
    while i < n && is_whitespace_char(s.get_char(i))
        invariant
            n == s@.len(),
            i <= n,
            forall|k: int| 0 <= k < i ==> is_ws(#[trigger] s@[k]),
        decreases n - i,
    {
        i = i + 1;
    }
    proof {
        lemma_trim_start_skip(s@, i as int);
    }
    let mut j: usize = n;
    while j > i && is_whitespace_char(s.get_char(j - 1))
        invariant
            n == s@.len(),
            i <= j <= n,
            forall|k: int| j <= k < n ==> is_ws(#[trigger] s@[k]),
        decreases j,
    {
        j = j - 1;
    }
    let t = s.substring_char(i, j);
    proof {
        let rest = s@.skip(i as int);
        assert(i == n || !is_ws(s@[i as int]));
        assert(trim_start(rest) == rest) by {
            if rest.len() > 0 {
                assert(rest[0] == s@[i as int]);
            }
        }
        assert forall|k: int| j - i <= k < rest.len() implies is_ws(#[trigger] rest[k]) by {
            assert(rest[k] == s@[i + k]);
        }
        lemma_trim_end_take(rest, j - i);
        let core = rest.take(j - i);
        assert(core =~= s@.subrange(i as int, j as int));
        assert(trim_end(core) == core) by {
            if core.len() > 0 {
                assert(core.last() == s@[j - 1]);
            }
        }
    }
    String::from_str(t)
}

/// Does `s` consist of whitespace only (so that trimming leaves nothing)?
pub fn is_blank(s: &str) -> (r: bool)
    ensures
        r == (trim(s@).len() == 0),
{
    let t = trimmed(s);
    t.as_str().unicode_len() == 0
}

// ---------------------------------------------------------------------------
// Equality and order
// ---------------------------------------------------------------------------

/// Character-wise equality of two string slices.
pub fn str_eq(a: &str, b: &str) -> (r: bool)
    ensures
        r == (a@ == b@),
{
    let n = a.unicode_len();
    let m = b.unicode_len();
    if n != m {
        return false;
    }
    let mut i: usize = 0;
    while i < n
        invariant
            n == a@.len(),
            n == b@.len(),
            i <= n,
            forall|k: int| 0 <= k < i ==> a@[k] == b@[k],
        decreases n - i,
    {
        if a.get_char(i) != b.get_char(i) {
            return false;
        }
        i = i + 1;
    }
    assert(a@ =~= b@);
    true
}

/// `needle` occurs somewhere in `hay`.
pub open spec fn has_infix(hay: Seq<char>, needle: Seq<char>) -> bool {
    exists|i: int| 0 <= i && i + needle.len() <= hay.len() && #[trigger] hay.subrange(i, i + needle.len()) == needle
}

/// Does `needle` occur in `hay`?
pub fn contains_str(hay: &str, needle: &str) -> (b: bool)
    ensures
        b == has_infix(hay@, needle@),
{
    let n = hay.unicode_len();
    let m = needle.unicode_len();
    if m > n {
        proof {
            assert forall|i: int| 0 <= i && i + m <= n implies #[trigger] hay@.subrange(i, i + m) != needle@ by {}
        }
        return false;
    }
    let mut i: usize = 0;
    loop
        invariant
            n == hay@.len(),
            m == needle@.len(),
            m <= n,
            i <= n - m,
            forall|k: int| 0 <= k < i ==> #[trigger] hay@.subrange(k, k + m) != needle@,
        decreases n - m - i,
    {
        let piece = hay.substring_char(i, i + m);
        if str_eq(piece, needle) {
            return true;
        }
        if i == n - m {
            return false;
        }
        i = i + 1;
    }
}

/// Code-point lexicographic order: `a` sorts strictly before `b`. This is
/// the order of `str`'s `Ord`, since UTF-8 preserves code-point order.
pub open spec fn seq_less(a: Seq<char>, b: Seq<char>) -> bool
    decreases a.len(),
{
    if a.len() == 0 {
        b.len() > 0
    } else if b.len() == 0 {
        false
    } else if a[0] != b[0] {
        (a[0] as u32) < (b[0] as u32)
    } else {
        seq_less(a.drop_first(), b.drop_first())
    }
}

/// Nothing sorts before itself.
pub proof fn lemma_seq_less_irreflexive(a: Seq<char>)
    ensures
        !seq_less(a, a),
    decreases a.len(),
{
    if a.len() > 0 {
        lemma_seq_less_irreflexive(a.drop_first());
    }
}

/// Two different sequences are ordered one way or the other, never both.
pub proof fn lemma_seq_less_total(a: Seq<char>, b: Seq<char>)
    ensures
        a != b ==> (seq_less(a, b) || seq_less(b, a)),
        !(seq_less(a, b) && seq_less(b, a)),
    decreases a.len(),
{
    if a.len() > 0 && b.len() > 0 {
        if a[0] == b[0] {
            lemma_seq_less_total(a.drop_first(), b.drop_first());
            if a != b {
                if a.drop_first() == b.drop_first() {
                    assert(a =~= seq![a[0]] + a.drop_first());
                    assert(b =~= seq![b[0]] + b.drop_first());
                }
            }
        } else {
            let x = a[0] as u32;
            let y = b[0] as u32;
            assert(x != y) by {
                vstd::utf8::char_u32_cast(a[0], x);
                vstd::utf8::char_u32_cast(b[0], y);
            }
        }
    } else if a.len() == 0 && b.len() == 0 {
        assert(a =~= b);
    }
}

/// The order is transitive.
pub proof fn lemma_seq_less_transitive(a: Seq<char>, b: Seq<char>, c: Seq<char>)
    requires
        seq_less(a, b),
        seq_less(b, c),
    ensures
        seq_less(a, c),
    decreases a.len(),
{
    if a.len() > 0 && b.len() > 0 && c.len() > 0 {
        if a[0] == b[0] && b[0] == c[0] {
            lemma_seq_less_transitive(a.drop_first(), b.drop_first(), c.drop_first());
        }
    }
}

/// Result of comparing two names.
#[derive(Clone, Copy, Debug, PartialEq, Eq, Structural)]
pub enum NameOrder {
    Before,
    Same,
    After,
}

/// Compare two string slices in code-point lexicographic order.
pub fn compare_str(a: &str, b: &str) -> (r: NameOrder)
    ensures
        (r == NameOrder::Before) == seq_less(a@, b@),
        (r == NameOrder::Same) == (a@ == b@),
        (r == NameOrder::After) == seq_less(b@, a@),
{
    proof {
        lemma_seq_less_total(a@, b@);
        lemma_seq_less_irreflexive(a@);
    }
    let n = a.unicode_len();
    let m = b.unicode_len();
    let mut i: usize = 0;
    assert(a@.skip(0) =~= a@);
    assert(b@.skip(0) =~= b@);
    while i < n && i < m
        invariant
            n == a@.len(),
            m == b@.len(),
            i <= n,
            i <= m,
            forall|k: int| 0 <= k < i ==> a@[k] == b@[k],
            seq_less(a@, b@) == seq_less(a@.skip(i as int), b@.skip(i as int)),
            seq_less(b@, a@) == seq_less(b@.skip(i as int), a@.skip(i as int)),
        decreases n - i,
    {
        let x = a.get_char(i);
        let y = b.get_char(i);
        if x != y {
            proof {
                assert(a@.skip(i as int)[0] == x);
                assert(b@.skip(i as int)[0] == y);
            }
            if (x as u32) < (y as u32) {
                return NameOrder::Before;
            } else {
                return NameOrder::After;
            }
        }
        proof {
            assert(a@.skip(i as int).drop_first() =~= a@.skip(i + 1));
            assert(b@.skip(i as int).drop_first() =~= b@.skip(i + 1));
        }
        i = i + 1;
    }
    if n == m {
        assert(a@ =~= b@);
        NameOrder::Same
    } else if i == n {
        assert(a@.skip(i as int).len() == 0);
        NameOrder::Before
    } else {
        assert(b@.skip(i as int).len() == 0);
        NameOrder::After
    }
}

// ---------------------------------------------------------------------------
// Unsigned integer parsing
// ---------------------------------------------------------------------------

/// Value of a digit in base 10 or 16 (either case), or `None`.
pub open spec fn digit_value(c: char, radix: u32) -> Option<nat> {
    let u = c as u32;
    if 48 <= u <= 57 {
        Some((u - 48) as nat)
    } else if radix == 16 && 97 <= u <= 102 {
        Some((u - 87) as nat)
    } else if radix == 16 && 65 <= u <= 70 {
        Some((u - 55) as nat)
    } else {
        None
    }
}

/// Every character is a digit of the radix.
pub open spec fn all_digits(t: Seq<char>, radix: u32) -> bool {
    forall|i: int| 0 <= i < t.len() ==> (#[trigger] digit_value(t[i], radix)) is Some
}

/// The number a digit string spells.
pub open spec fn digits_value(t: Seq<char>, radix: u32) -> nat
    decreases t.len(),
{
    if t.len() == 0 {
        0
    } else {
        digits_value(t.drop_last(), radix) * (radix as nat) + digit_value(t.last(), radix).unwrap()
    }
}

/// What `from_str_radix` on an unsigned type with maximum `max` accepts:
/// an optional `+`, then one or more digits, with a value of at most `max`.
pub open spec fn parse_unsigned_spec(s: Seq<char>, radix: u32, max: nat) -> Option<nat> {
    let d = if s.len() > 0 && s[0] == '+' {
        s.drop_first()
    } else {
        s
    };
    if d.len() > 0 && all_digits(d, radix) && digits_value(d, radix) <= max {
        Some(digits_value(d, radix))
    } else {
        None
    }
}

proof fn lemma_digits_prefix(t: Seq<char>, radix: u32, i: int)
    requires
        radix == 10 || radix == 16,
        0 <= i <= t.len(),
        all_digits(t, radix),
    ensures
        digits_value(t.take(i), radix) <= digits_value(t, radix),
    decreases t.len() - i,
{
    if i < t.len() {
        let d = t.drop_last();
        assert(all_digits(d, radix)) by {
            assert forall|k: int| 0 <= k < d.len() implies (#[trigger] digit_value(d[k], radix)) is Some by {
                assert(d[k] == t[k]);
            }
        }
        assert(d.take(i) =~= t.take(i));
        lemma_digits_prefix(d, radix, i);
        assert(digits_value(d, radix) <= digits_value(d, radix) * (radix as nat)) by (nonlinear_arith)
            requires radix >= 1;
    } else {
        assert(t.take(i) =~= t);
    }
}

/// Parse an unsigned number in base 10 or 16 the way `from_str_radix`
/// does: optional `+`, at least one digit, no overflow past `max`.
pub fn parse_unsigned(s: &str, radix: u32, max: u64) -> (r: Option<u64>)
    requires
        radix == 10 || radix == 16,
        max <= u32::MAX,
    ensures
        r matches Some(v) ==> parse_unsigned_spec(s@, radix, max as nat) == Some(v as nat),
        r is None ==> parse_unsigned_spec(s@, radix, max as nat) is None,
{
    let n = s.unicode_len();
    let start: usize = if n > 0 && s.get_char(0) == '+' {
        1
    } else {
        0
    };
    let ghost d = if s@.len() > 0 && s@[0] == '+' {
        s@.drop_first()
    } else {
        s@
    };
    assert(d =~= s@.skip(start as int));
    if start == n {
        return None;
    }
    let mut acc: u64 = 0;
    let mut i: usize = start;
    while i < n
        invariant
            n == s@.len(),
            start <= i <= n,
            d =~= s@.skip(start as int),
            d == (if s@.len() > 0 && s@[0] == '+' {
                s@.drop_first()
            } else {
                s@
            }),
            radix == 10 || radix == 16,
            max <= u32::MAX,
            all_digits(d.take(i - start), radix),
            acc as nat == digits_value(d.take(i - start), radix),
            acc <= max,
        decreases n - i,
    {
        let c = s.get_char(i);
        let u = c as u32;
        let dv: u64 = if 48 <= u && u <= 57 {
            (u - 48) as u64
        } else if radix == 16 && 97 <= u && u <= 102 {
            (u - 87) as u64
        } else if radix == 16 && 65 <= u && u <= 70 {
            (u - 55) as u64
        } else {
            proof {
                assert(d[i - start] == c);
                assert(digit_value(c, radix) is None);
                assert(digit_value(d[i - start], radix) is None);
                assert(!all_digits(d, radix));
            }
            return None;
        };
        let ghost prefix = d.take(i - start);
        let ghost next = d.take(i - start + 1);
        proof {
            assert(d[i - start] == c);
            assert(next.drop_last() =~= prefix);
            assert(next.last() == c);
            assert(digit_value(c, radix) == Some(dv as nat));
            assert(all_digits(next, radix)) by {
                assert forall|k: int| 0 <= k < next.len() implies (#[trigger] digit_value(next[k], radix)) is Some by {
                    if k < prefix.len() {
                        assert(next[k] == prefix[k]);
                    }
                }
            }
        }
        assert(acc * (radix as u64) <= u32::MAX * 16) by (nonlinear_arith)
            requires acc <= u32::MAX, radix <= 16;
        let next_acc = acc * (radix as u64) + dv;
        if next_acc > max {
            proof {
                if all_digits(d, radix) {
                    lemma_digits_prefix(d, radix, i - start + 1);
                }
            }
            return None;
        }
        acc = next_acc;
        i = i + 1;
    }
    assert(d.take(n - start) =~= d);
    Some(acc)
}

// ---------------------------------------------------------------------------
// Debug quoting
// ---------------------------------------------------------------------------

/// What std's `Debug` for `str` renders: the string in double quotes with
/// quotes, backslashes and unprintable characters escaped. The escaping
/// rules are std's and are named here, not restated.
pub uninterp spec fn debug_quoted(s: Seq<char>) -> Seq<char>;

/// Renders `s` with std's `Debug` for `str` (`format!("{:?}", s)`). The
/// contract claims only that the result depends on the string alone: it is
/// `debug_quoted` of it. Nothing about the escaping itself is stated.
#[verifier::external_body]
pub(crate) fn quoted(s: &str) -> (r: String)
    ensures
        r@ == debug_quoted(s@),
{
    format!("{:?}", s)
}

} // verus!
