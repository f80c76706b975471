//! Small verified text utilities shared by the daemon protocol and the
//! parsing modules: character-level string comparison, prefix tests, and
//! decimal rendering/parsing of `u64` values.

use vstd::prelude::*;

verus! {

/// The ten decimal digit characters, in value order.
pub const DEC_DIGITS: [char; 10] = ['0', '1', '2', '3', '4', '5', '6', '7', '8', '9'];

/// The decimal rendering of `n`, most significant digit first, without
/// leading zeros (`0` renders as `"0"`).
pub open spec fn dec_rep(n: nat) -> Seq<char>
    decreases n,
{
    if n < 10 {
        seq![DEC_DIGITS@[n as int]]
    } else {
        dec_rep(n / 10).push(DEC_DIGITS@[(n % 10) as int])
    }
}

/// Holds when every character of `s` is a decimal digit and `s` is nonempty.
pub open spec fn is_dec_seq(s: Seq<char>) -> bool {
    s.len() > 0 && forall|i: int| 0 <= i < s.len() ==> '0' <= #[trigger] s[i] <= '9'
}

/// The numeric value of a digit sequence (most significant first).
pub open spec fn dec_val(s: Seq<char>) -> nat
    decreases s.len(),
{
    if s.len() == 0 {
        0
    } else {
        dec_val(s.drop_last()) * 10 + (s.last() as int - '0' as int) as nat
    }
}

/// Compares two string slices character by character.
pub fn str_eq(a: &str, b: &str) -> (r: bool)
    ensures
        r == (a@ == b@),
{
    let alen = a.unicode_len();
    let blen = b.unicode_len();
    if alen != blen {
        return false;
    }
    let mut i: usize = 0;
    while i < alen
        invariant
            i <= alen,
            alen == a@.len(),
            alen == b@.len(),
            forall|j: int| 0 <= j < i ==> a@[j] == b@[j],
        decreases alen - i,
    {
        if a.get_char(i) != b.get_char(i) {
            return false;
        }
        i += 1;
    }
    proof {
        assert(a@ =~= b@);
    }
    true
}

/// Whether `s` begins with the characters of `p`.
pub open spec fn spec_starts_with(s: Seq<char>, p: Seq<char>) -> bool {
    s.len() >= p.len() && s.subrange(0, p.len() as int) == p
}

/// Tests whether `s` starts with the prefix `p`, character-wise.
pub fn starts_with_str(s: &str, p: &str) -> (r: bool)
    ensures
        r == spec_starts_with(s@, p@),
{
    let slen = s.unicode_len();
    let plen = p.unicode_len();
    if slen < plen {
        return false;
    }
    let mut i: usize = 0;
    while i < plen
        invariant
            i <= plen,
            plen == p@.len(),
            slen == s@.len(),
            slen >= plen,
            forall|j: int| 0 <= j < i ==> s@[j] == p@[j],
        decreases plen - i,
    {
        if s.get_char(i) != p.get_char(i) {
            proof {
                assert(s@.subrange(0, p@.len() as int)[i as int] == s@[i as int]);
            }
            return false;
        }
        i += 1;
    }
    proof {
        assert(s@.subrange(0, p@.len() as int) =~= p@);
    }
    true
}

/// Relies on `String::push`: appends exactly one character to the string.
#[verifier::external_body]
pub fn push_char(s: &mut String, c: char)
    ensures
        final(s)@ == old(s)@.push(c),
{
    s.push(c);
}

/// Renders `n` in decimal, without leading zeros.
pub fn u64_to_dec(n: u64) -> (r: String)
    ensures
        r@ == dec_rep(n as nat),
{
    let mut digits: Vec<char> = Vec::new();
    let mut m: u64 = n;
    loop
        invariant_except_break
            (digits@.len() == 0 && m == n) || (m != 0 && dec_rep(n as nat) =~= dec_rep(m as nat)
                + digits@.reverse()),
        ensures
            dec_rep(n as nat) =~= digits@.reverse(),
        decreases m,
    {
        proof {
            assert(dec_rep(n as nat) =~= dec_rep(m as nat) + digits@.reverse());
        }
        let d = (m % 10) as usize;
        let ghost old_digits = digits@;
        let ghost old_m = m;
        digits.push(DEC_DIGITS[d]);
        m = m / 10;
        proof {
            assert(digits@.reverse() =~= seq![DEC_DIGITS@[d as int]] + old_digits.reverse());
            if old_m >= 10 {
                assert(dec_rep(old_m as nat) == dec_rep(old_m as nat / 10).push(
                    DEC_DIGITS@[(old_m as nat % 10) as int],
                ));
                assert(dec_rep(m as nat) + digits@.reverse() =~= dec_rep(old_m as nat)
                    + old_digits.reverse());
            } else {
                assert(dec_rep(old_m as nat) =~= seq![DEC_DIGITS@[d as int]]);
                assert(dec_rep(old_m as nat) + old_digits.reverse() =~= digits@.reverse());
            }
        }
        if m == 0 {
            break;
        }
    }
    let mut r = String::new();
    let mut i: usize = digits.len();
    while i > 0
        invariant
            i <= digits@.len(),
            r@ =~= digits@.subrange(i as int, digits@.len() as int).reverse(),
        decreases i,
    {
        i -= 1;
        let ghost old_r = r@;
        push_char(&mut r, digits[i]);
        proof {
            assert(digits@.subrange(i as int, digits@.len() as int).reverse() =~= old_r.push(
                digits@[i as int],
            ));
        }
    }
    proof {
        assert(digits@.subrange(0, digits@.len() as int) =~= digits@);
        assert(r@ =~= dec_rep(n as nat));
    }
    r
}

/// Every prefix of a digit sequence has a value no larger than the whole.
proof fn lemma_dec_val_take_monotone(s: Seq<char>, i: int, j: int)
    requires
        0 <= i <= j <= s.len(),
        forall|k: int| 0 <= k < s.len() ==> '0' <= #[trigger] s[k] <= '9',
    ensures
        dec_val(s.take(i)) <= dec_val(s.take(j)),
    decreases j - i,
{
    if i < j {
        lemma_dec_val_take_monotone(s, i, j - 1);
        assert(s.take(j).drop_last() =~= s.take(j - 1));
        assert(dec_val(s.take(j)) == dec_val(s.take(j - 1)) * 10 + (s.take(j).last() as int
            - '0' as int) as nat);
        assert(dec_val(s.take(j - 1)) * 10 >= dec_val(s.take(j - 1)));
    }
}

/// Parses a decimal `u64`. Returns the numeric value exactly when the whole
/// string is made of digits and the value fits in a `u64`.
pub fn parse_u64(s: &str) -> (r: Option<u64>)
    ensures
        match r {
            Some(v) => is_dec_seq(s@) && dec_val(s@) == v as nat,
            None => !is_dec_seq(s@) || dec_val(s@) > u64::MAX,
        },
{
    let len = s.unicode_len();
    if len == 0 {
        return None;
    }
    let mut acc: u64 = 0;
    let mut i: usize = 0;
    while i < len
        invariant
            i <= len,
            len == s@.len(),
            forall|k: int| 0 <= k < i ==> '0' <= #[trigger] s@[k] <= '9',
            acc as nat == dec_val(s@.take(i as int)),
        decreases len - i,
    {
        let c = s.get_char(i);
        if c < '0' || c > '9' {
            return None;
        }
        let d = (c as u32) as u64 - 48;
        proof {
            assert(s@.take(i + 1).drop_last() =~= s@.take(i as int));
            assert(s@.take(i + 1).last() == s@[i as int]);
        }
        if acc > (u64::MAX - d) / 10 {
            proof {
                assert(dec_val(s@.take(i + 1)) == acc as nat * 10 + d as nat);
                assert(acc as nat * 10 + d as nat > u64::MAX as nat) by (nonlinear_arith)
                    requires
                        acc > (u64::MAX - d) / 10,
                        d <= 9,
                ;
                if is_dec_seq(s@) {
                    lemma_dec_val_take_monotone(s@, i + 1, s@.len() as int);
                    assert(s@.take(s@.len() as int) =~= s@);
                }
            }
            return None;
        }
        acc = acc * 10 + d;
        i += 1;
    }
    proof {
        assert(s@.take(len as int) =~= s@);
    }
    Some(acc)
}

/// Rendering a value and parsing it back is the identity: the decimal form
/// of any `u64` is all digits and evaluates to the same number.
pub proof fn lemma_dec_round_trip(n: nat)
    ensures
        is_dec_seq(dec_rep(n)),
        dec_val(dec_rep(n)) == n,
    decreases n,
{
    if n < 10 {
        let s = dec_rep(n);
        assert(s == seq![DEC_DIGITS@[n as int]]);
        assert(s.len() == 1);
        assert(s.drop_last() =~= Seq::<char>::empty());
        assert(dec_val(s.drop_last()) == 0);
        assert(s.last() == DEC_DIGITS@[n as int]);
        assert('0' <= DEC_DIGITS@[n as int] <= '9');
        assert(DEC_DIGITS@[n as int] as int - '0' as int == n);
        assert(dec_val(s) == (s.last() as int - '0' as int) as nat);
    } else {
        lemma_dec_round_trip(n / 10);
        let s = dec_rep(n);
        assert(s == dec_rep(n / 10).push(DEC_DIGITS@[(n % 10) as int]));
        assert(s.drop_last() =~= dec_rep(n / 10));
        assert('0' <= DEC_DIGITS@[(n % 10) as int] <= '9');
        assert(forall|i: int|
            0 <= i < s.len() ==> '0' <= #[trigger] s[i] <= '9') by {
            assert(forall|i: int|
                0 <= i < s.len() - 1 ==> s[i] == #[trigger] dec_rep(n / 10)[i]);
        }
        assert((s.last() as int - '0' as int) as nat == n % 10);
        assert(dec_val(s) == (n / 10) * 10 + n % 10);
        assert((n / 10) * 10 + n % 10 == n) by (nonlinear_arith);
    }
}

} // verus!

verus! {

/// ASCII lowercasing of one character: `A`–`Z` map to `a`–`z`, everything
/// else is unchanged.
pub open spec fn lower_char(c: char) -> char {
    if 'A' <= c && c <= 'Z' {
        (((c as u8) + 32) as u8) as char
    } else {
        c
    }
}

/// ASCII lowercasing of a character sequence, pointwise.
pub open spec fn ascii_lower_of(s: Seq<char>) -> Seq<char> {
    s.map_values(|c: char| lower_char(c))
}

/// Lowercases the ASCII letters of a string.
pub fn ascii_lower(s: &str) -> (r: String)
    ensures
        r@ == ascii_lower_of(s@),
{
    let len = s.unicode_len();
    let mut r = String::new();
    let mut i: usize = 0;
    while i < len
        invariant
            i <= len,
            len == s@.len(),
            r@ =~= ascii_lower_of(s@.take(i as int)),
        decreases len - i,
    {
        let c = s.get_char(i);
        let lc = if 'A' <= c && c <= 'Z' {
            ((c as u8) + 32) as char
        } else {
            c
        };
        push_char(&mut r, lc);
        proof {
            assert(ascii_lower_of(s@.take(i + 1)) =~= ascii_lower_of(s@.take(i as int)).push(
                lower_char(s@[i as int]),
            ));
        }
        i += 1;
    }
    proof {
        assert(s@.take(len as int) =~= s@);
    }
    r
}

/// An ASCII whitespace character.
pub open spec fn is_space(c: char) -> bool {
    c == ' ' || c == '\t' || c == '\r' || c == '\n'
}

/// `s` without leading whitespace.
pub open spec fn spec_trim_start(s: Seq<char>) -> Seq<char>
    decreases s.len(),
{
    if s.len() > 0 && is_space(s.first()) {
        spec_trim_start(s.drop_first())
    } else {
        s
    }
}

/// `s` without trailing whitespace.
pub open spec fn spec_trim_end(s: Seq<char>) -> Seq<char>
    decreases s.len(),
{
    if s.len() > 0 && is_space(s.last()) {
        spec_trim_end(s.drop_last())
    } else {
        s
    }
}

/// `s` without leading and trailing whitespace.
pub open spec fn spec_trim(s: Seq<char>) -> Seq<char> {
    spec_trim_end(spec_trim_start(s))
}

/// Trimming the start keeps everything from the first non-space on.
proof fn lemma_trim_start_at(s: Seq<char>, a: int)
    requires
        0 <= a <= s.len(),
        forall|i: int| 0 <= i < a ==> is_space(#[trigger] s[i]),
        a == s.len() || !is_space(s[a]),
    ensures
        spec_trim_start(s) == s.skip(a),
    decreases a,
{
    if a == 0 {
        assert(s.skip(0) =~= s);
    } else {
        lemma_trim_start_at(s.drop_first(), a - 1);
        assert(s.drop_first().skip(a - 1) =~= s.skip(a));
    }
}

/// Trimming the end keeps everything up to the last non-space.
proof fn lemma_trim_end_at(s: Seq<char>, b: int)
    requires
        0 <= b <= s.len(),
        forall|i: int| b <= i < s.len() ==> is_space(#[trigger] s[i]),
        b == 0 || !is_space(s[b - 1]),
    ensures
        spec_trim_end(s) == s.take(b),
    decreases s.len() - b,
{
    if b == s.len() {
        assert(s.take(b) =~= s);
    } else {
        lemma_trim_end_at(s.drop_last(), b);
        assert(s.drop_last().take(b) =~= s.take(b));
    }
}

/// Tests for ASCII whitespace.
fn is_space_char(c: char) -> (r: bool)
    ensures
        r == is_space(c),
{
    c == ' ' || c == '\t' || c == '\r' || c == '\n'
}

/// Removes leading and trailing ASCII whitespace.
pub fn trim(s: &str) -> (r: &str)
    ensures
        r@ == spec_trim(s@),
{
    let len = s.unicode_len();
    let mut a: usize = 0;
    loop
        invariant
            a <= len,
            len == s@.len(),
            forall|i: int| 0 <= i < a ==> is_space(#[trigger] s@[i]),
        ensures
            a <= len,
            forall|i: int| 0 <= i < a ==> is_space(#[trigger] s@[i]),
            a == len || !is_space(s@[a as int]),
        decreases len - a,
    {
        if a == len {
            break;
        }
        if !is_space_char(s.get_char(a)) {
            break;
        }
        a += 1;
    }
    proof {
        lemma_trim_start_at(s@, a as int);
    }
    if a == len {
        let r = s.substring_char(len, len);
        proof {
            assert(r@ =~= spec_trim(s@));
        }
        return r;
    }
    let mut b: usize = len;
    loop
        invariant
            a <= b <= len,
            len == s@.len(),
            forall|i: int| b <= i < len ==> is_space(#[trigger] s@[i]),
        ensures
            a <= b <= len,
            forall|i: int| b <= i < len ==> is_space(#[trigger] s@[i]),
            b == a || !is_space(s@[b - 1]),
        decreases b,
    {
        if b == a {
            break;
        }
        if !is_space_char(s.get_char(b - 1)) {
            break;
        }
        b -= 1;
    }
    proof {
        assert(!is_space(s@[a as int]));
        assert(b > a);
        let t = s@.skip(a as int);
        lemma_trim_end_at(t, b - a);
        assert(t.take(b - a) =~= s@.subrange(a as int, b as int));
    }
    s.substring_char(a, b)
}

/// Splitting on `sep`, carrying the segment under construction: the shape
/// of a left-to-right scan.
pub open spec fn split_acc(s: Seq<char>, sep: char, cur: Seq<char>) -> Seq<Seq<char>>
    decreases s.len(),
{
    if s.len() == 0 {
        seq![cur]
    } else if s.first() == sep {
        seq![cur] + split_acc(s.drop_first(), sep, Seq::empty())
    } else {
        split_acc(s.drop_first(), sep, cur.push(s.first()))
    }
}

/// The segments of `s` between occurrences of `sep`: always one more
/// segment than separators, so the empty string has one empty segment.
pub open spec fn spec_split_char(s: Seq<char>, sep: char) -> Seq<Seq<char>> {
    split_acc(s, sep, Seq::empty())
}

/// Splits a string on a separator character.
pub fn split_char(s: &str, sep: char) -> (r: Vec<String>)
    ensures
        r.deep_view() == spec_split_char(s@, sep),
{
    let len = s.unicode_len();
    let mut out: Vec<String> = Vec::new();
    let mut cur = String::new();
    let mut i: usize = 0;
    proof {
        assert(s@.skip(0) =~= s@);
        assert(out.deep_view() =~= Seq::<Seq<char>>::empty());
        assert(out.deep_view() + split_acc(s@, sep, cur@) =~= split_acc(s@, sep, cur@));
    }
    while i < len
        invariant
            i <= len,
            len == s@.len(),
            spec_split_char(s@, sep) =~= out.deep_view() + split_acc(s@.skip(i as int), sep, cur@),
        decreases len - i,
    {
        let c = s.get_char(i);
        let ghost pre_out = out.deep_view();
        let ghost pre_cur = cur@;
        proof {
            assert(s@.skip(i as int).drop_first() =~= s@.skip(i + 1));
            assert(s@.skip(i as int).first() == s@[i as int]);
        }
        if c == sep {
            out.push(cur);
            cur = String::new();
            proof {
                assert(out.deep_view() =~= pre_out.push(pre_cur));
                assert(out.deep_view() + split_acc(s@.skip(i + 1), sep, cur@) =~= pre_out + (seq![
                    pre_cur,
                ] + split_acc(s@.skip(i + 1), sep, Seq::empty())));
            }
        } else {
            push_char(&mut cur, c);
        }
        i += 1;
    }
    proof {
        assert(s@.skip(len as int) =~= Seq::<char>::empty());
    }
    let ghost pre_out = out.deep_view();
    let ghost pre_cur = cur@;
    out.push(cur);
    proof {
        assert(out.deep_view() =~= pre_out.push(pre_cur));
        assert(pre_out.push(pre_cur) =~= pre_out + seq![pre_cur]);
    }
    out
}

} // verus!

verus! {

/// `s` without trailing occurrences of `c`.
pub open spec fn spec_trim_end_char(s: Seq<char>, c: char) -> Seq<char>
    decreases s.len(),
{
    if s.len() > 0 && s.last() == c {
        spec_trim_end_char(s.drop_last(), c)
    } else {
        s
    }
}

/// Trimming `c` from the end keeps everything up to its last other
/// character.
proof fn lemma_trim_end_char_at(s: Seq<char>, c: char, b: int)
    requires
        0 <= b <= s.len(),
        forall|i: int| b <= i < s.len() ==> #[trigger] s[i] == c,
        b == 0 || s[b - 1] != c,
    ensures
        spec_trim_end_char(s, c) == s.take(b),
    decreases s.len() - b,
{
    if b == s.len() {
        assert(s.take(b) =~= s);
    } else {
        lemma_trim_end_char_at(s.drop_last(), c, b);
        assert(s.drop_last().take(b) =~= s.take(b));
    }
}

/// Removes every trailing occurrence of `c`.
pub fn trim_end_char<'a>(s: &'a str, c: char) -> (r: &'a str)
    ensures
        r@ == spec_trim_end_char(s@, c),
{
    let len = s.unicode_len();
    let mut b: usize = len;
    loop
        invariant
            b <= len,
            len == s@.len(),
            forall|i: int| b <= i < len ==> #[trigger] s@[i] == c,
        ensures
            b <= len,
            forall|i: int| b <= i < len ==> #[trigger] s@[i] == c,
            b == 0 || s@[b - 1] != c,
        decreases b,
    {
        if b == 0 {
            break;
        }
        if s.get_char(b - 1) != c {
            break;
        }
        b -= 1;
    }
    proof {
        lemma_trim_end_char_at(s@, c, b as int);
        assert(s@.take(b as int) =~= s@.subrange(0, b as int));
    }
    s.substring_char(0, b)
}

} // verus!
