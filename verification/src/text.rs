//! Building and comparing text.
use vstd::prelude::*;
use vstd::string::*;

verus! {

broadcast use vstd::string::group_string_axioms;

/// The texts that a list of strings holds.
pub open spec fn texts(v: Seq<String>) -> Seq<Seq<char>> {
    v.map_values(|s: String| s@)
}

/// `p` opens `s`.
pub open spec fn opens(p: Seq<char>, s: Seq<char>) -> bool {
    p.len() <= s.len() && s.subrange(0, p.len() as int) == p
}

/// `p` stands in `s` from position `i` on.
pub open spec fn stands_at(p: Seq<char>, s: Seq<char>, i: int) -> bool {
    0 <= i && i + p.len() <= s.len() && s.subrange(i, i + p.len()) == p
}

/// `p` stands somewhere in `s`.
pub open spec fn occurs_in(p: Seq<char>, s: Seq<char>) -> bool {
    exists|i: int| stands_at(p, s, i)
}

/// Whether two texts are the same.
pub fn same_text(a: &str, b: &str) -> (r: bool)
    ensures
        r == (a@ == b@),
{
    let x: String = a.to_owned();
    let y: String = b.to_owned();
    x == y
}

/// Whether `s` starts with `p`.
pub fn starts_with(s: &str, p: &str) -> (r: bool)
    ensures
        r == opens(p@, s@),
{
    let n: usize = p.unicode_len();
    if n > s.unicode_len() {
        return false;
    }
    same_text(s.substring_char(0, n), p)
}

/// Whether `p` stands anywhere in `s`.
pub fn contains(s: &str, p: &str) -> (r: bool)
    ensures
        r == occurs_in(p@, s@),
{
    let n: usize = p.unicode_len();
    let m: usize = s.unicode_len();
    if n > m {
        return false;
    }
    let mut i: usize = 0;
    loop
        invariant
            n == p@.len(),
            m == s@.len(),
            n <= m,
            i <= m - n,
            forall|j: int| 0 <= j < i ==> !stands_at(p@, s@, j),
        decreases m - n - i,
    {
        if same_text(s.substring_char(i, i + n), p) {
            assert(stands_at(p@, s@, i as int));
            return true;
        }
        assert(!stands_at(p@, s@, i as int));
        if i == m - n {
            assert forall|j: int| !stands_at(p@, s@, j) by {
                if stands_at(p@, s@, j) {
                    assert(j < i);
                }
            }
            return false;
        }
        i = i + 1;
    }
}

/// `s` followed by `t`.
pub fn joined(s: &str, t: &str) -> (r: String)
    ensures
        r@ == s@ + t@,
{
    let mut out: String = s.to_owned();
    out.append(t);
    out
}

/// A character with ASCII letters made upper case.
pub open spec fn ascii_upper(c: char) -> char {
    if 'a' <= c && c <= 'z' { ((c as u8) - 32) as u8 as char } else { c }
}

/// A text with ASCII letters made upper case.
pub open spec fn ascii_uppered(s: Seq<char>) -> Seq<char> {
    s.map_values(|c: char| ascii_upper(c))
}

/// The upper-case form of a text, as `str::to_uppercase` gives it.
pub uninterp spec fn uppercased(s: Seq<char>) -> Seq<char>;

/// `str::to_uppercase`: the upper-case form of the text. Case is changed character by character,
/// and of ASCII characters the letters from `a` to `z` alone change; so ASCII characters at the
/// front of the text give as many at the front of the result.
#[verifier::external_body]
pub(crate) fn to_uppercase(s: &str) -> (r: String)
    ensures
        r@ == uppercased(s@),
        vstd::utf8::is_ascii_chars(s@) ==> r@ == ascii_uppered(s@),
        forall|k: int|
            #![trigger s@.take(k)]
            0 <= k <= s@.len() && vstd::utf8::is_ascii_chars(s@.take(k)) ==> opens(ascii_uppered(s@.take(k)), r@),
{
    s.to_uppercase()
}

/// A text as it stands between quotation marks in debugging output, escapes and marks with it.
pub uninterp spec fn quoted(s: Seq<char>) -> Seq<char>;

/// `Debug` of `str`: the text between quotation marks, with escapes.
#[verifier::external_body]
pub(crate) fn quote(s: &str) -> (r: String)
    ensures
        r@ == quoted(s@),
{
    format!("{:?}", s)
}

/// The character of a digit below sixteen.
pub open spec fn digit_char(d: int) -> char {
    if d == 0 { '0' } else if d == 1 { '1' } else if d == 2 { '2' } else if d == 3 { '3' }
    else if d == 4 { '4' } else if d == 5 { '5' } else if d == 6 { '6' } else if d == 7 { '7' }
    else if d == 8 { '8' } else if d == 9 { '9' } else if d == 10 { 'a' } else if d == 11 { 'b' }
    else if d == 12 { 'c' } else if d == 13 { 'd' } else if d == 14 { 'e' } else { 'f' }
}

/// `n` written in `base`, most significant digit first, without leading zeros.
pub open spec fn numeral(n: nat, base: nat) -> Seq<char>
    decreases n,
{
    if base < 2 || n < base {
        seq![digit_char(n as int)]
    } else {
        proof {
            vstd::arithmetic::div_mod::lemma_div_decreases(n as int, base as int);
        }
        numeral(n / base, base).push(digit_char((n % base) as int))
    }
}

/// `n` in decimal.
pub open spec fn decimal(n: int) -> Seq<char> {
    if n < 0 { seq!['-'] + numeral((-n) as nat, 10) } else { numeral(n as nat, 10) }
}

/// `k` copies of the digit zero.
pub open spec fn zeros(k: nat) -> Seq<char> {
    Seq::new(k, |i: int| '0')
}

/// `n` in lower-case hexadecimal, padded on the left with zeros to `width`.
pub open spec fn padded_hex(n: nat, width: nat) -> Seq<char> {
    let h = numeral(n, 16);
    if h.len() < width { zeros((width - h.len()) as nat) + h } else { h }
}

fn digit_text(d: u64) -> (r: &'static str)
    requires
        d < 16,
    ensures
        r@ == seq![digit_char(d as int)],
{
    proof {
        reveal_strlit("0"); reveal_strlit("1"); reveal_strlit("2"); reveal_strlit("3");
        reveal_strlit("4"); reveal_strlit("5"); reveal_strlit("6"); reveal_strlit("7");
        reveal_strlit("8"); reveal_strlit("9"); reveal_strlit("a"); reveal_strlit("b");
        reveal_strlit("c"); reveal_strlit("d"); reveal_strlit("e"); reveal_strlit("f");
    }
    let r: &'static str = if d == 0 { "0" } else if d == 1 { "1" } else if d == 2 { "2" }
        else if d == 3 { "3" } else if d == 4 { "4" } else if d == 5 { "5" }
        else if d == 6 { "6" } else if d == 7 { "7" } else if d == 8 { "8" }
        else if d == 9 { "9" } else if d == 10 { "a" } else if d == 11 { "b" }
        else if d == 12 { "c" } else if d == 13 { "d" } else if d == 14 { "e" } else { "f" };
    assert(r@ =~= seq![digit_char(d as int)]);
    r
}

fn numeral_text(n: u64, base: u64) -> (r: String)
    requires
        2 <= base <= 16,
    ensures
        r@ == numeral(n as nat, base as nat),
    decreases n,
{
    if n < base {
        let mut out: String = String::new();
        out.append(digit_text(n));
        assert(out@ =~= numeral(n as nat, base as nat));
        out
    } else {
        proof {
            vstd::arithmetic::div_mod::lemma_div_decreases(n as int, base as int);
        }
        let mut out: String = numeral_text(n / base, base);
        out.append(digit_text(n % base));
        assert(out@ =~= numeral(n as nat, base as nat));
        out
    }
}

/// `n` in decimal.
pub fn u64_text(n: u64) -> (r: String)
    ensures
        r@ == decimal(n as int),
{
    numeral_text(n, 10)
}

/// `n` in decimal.
pub fn usize_text(n: usize) -> (r: String)
    ensures
        r@ == decimal(n as int),
{
    numeral_text(n as u64, 10)
}

/// `n` in decimal, with a minus sign where it is negative.
pub fn i64_text(n: i64) -> (r: String)
    ensures
        r@ == decimal(n as int),
{
    if n < 0 {
        let m: u64 = (-(n as i128)) as u64;
        let mut out: String = "-".to_owned();
        let digits: String = numeral_text(m, 10);
        out.append(digits.as_str());
        proof {
            reveal_strlit("-");
        }
        assert(out@ =~= decimal(n as int));
        out
    } else {
        numeral_text(n as u64, 10)
    }
}

/// `n` in lower-case hexadecimal, at least `width` digits.
pub fn hex_text(n: u64, width: usize) -> (r: String)
    ensures
        r@ == padded_hex(n as nat, width as nat),
{
    let h: String = numeral_text(n, 16);
    let len: usize = h.as_str().unicode_len();
    if len >= width {
        return h;
    }
    let mut out: String = String::new();
    let mut k: usize = 0;
    proof {
        reveal_strlit("0");
    }
    while k < width - len
        invariant
            len < width,
            k <= width - len,
            out@ == zeros(k as nat),
        decreases width - len - k,
    {
        proof {
            reveal_strlit("0");
        }
        out.append("0");
        k = k + 1;
        assert(out@ =~= zeros(k as nat));
    }
    out.append(h.as_str());
    out
}

/// A decimal digit.
pub open spec fn is_digit(c: char) -> bool {
    '0' <= c && c <= '9'
}

/// A decimal numeral is made of digits, and at least one.
pub proof fn numerals_are_digits(n: nat)
    ensures
        numeral(n, 10).len() > 0,
        forall|i: int| 0 <= i < numeral(n, 10).len() ==> is_digit(#[trigger] numeral(n, 10)[i]),
    decreases n,
{
    if n >= 10 {
        numerals_are_digits(n / 10);
    }
}

/// Two numbers with the same decimal numeral are the same.
pub proof fn numerals_tell_numbers_apart(a: nat, b: nat)
    requires
        numeral(a, 10) == numeral(b, 10),
    ensures
        a == b,
    decreases a,
{
    numerals_are_digits(a / 10);
    numerals_are_digits(b / 10);
    let x = numeral(a, 10);
    let y = numeral(b, 10);
    assert(x.last() == digit_char((a % 10) as int));
    assert(y.last() == digit_char((b % 10) as int));
    if a < 10 {
        assert(x.len() == 1);
        if b >= 10 {
            assert(y.len() == numeral(b / 10, 10).len() + 1);
        }
    } else {
        assert(x.drop_last() =~= numeral(a / 10, 10));
        assert(x.len() > 1);
        assert(b >= 10);
        assert(y.drop_last() =~= numeral(b / 10, 10));
        numerals_tell_numbers_apart(a / 10, b / 10);
    }
}

/// A hexadecimal digit.
pub open spec fn is_hex_digit(c: char) -> bool {
    is_digit(c) || ('a' <= c && c <= 'f')
}

/// A hexadecimal numeral is made of hexadecimal digits, and a number below `16^k` needs at most
/// `k` of them.
pub proof fn hex_numerals_fit(n: nat, k: nat)
    requires
        k > 0,
        n < vstd::arithmetic::power::pow(16, k),
    ensures
        0 < numeral(n, 16).len() <= k,
        forall|i: int| 0 <= i < numeral(n, 16).len() ==> is_hex_digit(#[trigger] numeral(n, 16)[i]),
    decreases k,
{
    reveal(vstd::arithmetic::power::pow);
    if n >= 16 {
        let p = vstd::arithmetic::power::pow(16, (k - 1) as nat);
        if k == 1 {
            assert(vstd::arithmetic::power::pow(16, 0) == 1);
        }
        assert(n < 16 * p);
        hex_numerals_fit(n / 16, (k - 1) as nat);
    }
}

/// Padding to `width` gives exactly `width` hexadecimal digits where the number has no more.
pub proof fn padded_hex_has_width(n: nat, width: nat)
    requires
        width > 0,
        n < vstd::arithmetic::power::pow(16, width),
    ensures
        padded_hex(n, width).len() == width,
        forall|i: int| 0 <= i < width ==> is_hex_digit(#[trigger] padded_hex(n, width)[i]),
{
    hex_numerals_fit(n, width);
}

/// The first place at which `p` stands in `s`.
pub open spec fn first_place(p: Seq<char>, s: Seq<char>) -> int {
    choose|i: int| stands_at(p, s, i) && forall|j: int| 0 <= j < i ==> !stands_at(p, s, j)
}

/// What comes before the first `p`, all of `s` where there is none.
pub open spec fn before_first(s: Seq<char>, p: Seq<char>) -> Seq<char> {
    if occurs_in(p, s) { s.take(first_place(p, s)) } else { s }
}

/// The text without the marks `c` at its end.
pub open spec fn without_trailing(s: Seq<char>, c: char) -> Seq<char>
    decreases s.len(),
{
    if s.len() > 0 && s.last() == c { without_trailing(s.drop_last(), c) } else { s }
}

/// What comes before the first `p`.
pub fn cut_at<'a>(s: &'a str, p: &str) -> (r: &'a str)
    ensures
        r@ == before_first(s@, p@),
{
    let n: usize = p.unicode_len();
    let m: usize = s.unicode_len();
    if n > m {
        assert forall|j: int| !stands_at(p@, s@, j) by {}
        return s;
    }
    let mut i: usize = 0;
    loop
        invariant
            n == p@.len(),
            m == s@.len(),
            n <= m,
            i <= m - n,
            forall|j: int| 0 <= j < i ==> !stands_at(p@, s@, j),
        decreases m - n - i,
    {
        if same_text(s.substring_char(i, i + n), p) {
            proof {
                assert(stands_at(p@, s@, i as int));
                let k = first_place(p@, s@);
                assert(stands_at(p@, s@, i as int) && forall|j: int| 0 <= j < i ==> !stands_at(p@, s@, j));
                assert(k == i) by {
                    if k < i {
                        assert(!stands_at(p@, s@, k));
                    }
                    if i < k {
                        assert(!stands_at(p@, s@, i as int));
                    }
                }
                assert(s@.subrange(0, i as int) =~= s@.take(i as int));
            }
            return s.substring_char(0, i);
        }
        assert(!stands_at(p@, s@, i as int));
        if i == m - n {
            assert forall|j: int| !stands_at(p@, s@, j) by {
                if stands_at(p@, s@, j) {
                    assert(j < i);
                }
            }
            return s;
        }
        i = i + 1;
    }
}

/// The text without the marks `c` at its end.
pub fn trim_end<'a>(s: &'a str, c: char) -> (r: &'a str)
    ensures
        r@ == without_trailing(s@, c),
{
    let m: usize = s.unicode_len();
    let mut k: usize = m;
    assert(s@.take(m as int) =~= s@);
    while k > 0 && s.get_char(k - 1) == c
        invariant
            k <= m,
            m == s@.len(),
            without_trailing(s@.take(k as int), c) == without_trailing(s@, c),
        decreases k,
    {
        assert(s@.take(k as int).drop_last() =~= s@.take(k - 1));
        k = k - 1;
    }
    proof {
        if k > 0 {
            assert(s@.take(k as int).last() == s@[k - 1]);
        }
        assert(s@.subrange(0, k as int) =~= s@.take(k as int));
    }
    s.substring_char(0, k)
}

/// The number that decimal digits spell.
pub open spec fn spelled(s: Seq<char>) -> int
    decreases s.len(),
{
    if s.len() == 0 { 0 } else { 10 * spelled(s.drop_last()) + (s.last() as int - '0' as int) }
}

/// A decimal numeral spells its number, without a zero before it, and a negative one after a sign.
pub proof fn numerals_spell_their_number(n: nat)
    ensures
        spelled(numeral(n, 10)) == n,
        n > 0 ==> numeral(n, 10)[0] != '0',
        decimal(n as int) == numeral(n, 10),
        n > 0 ==> decimal(-(n as int)) == seq!['-'] + numeral(n, 10),
    decreases n,
{
    reveal_with_fuel(spelled, 2);
    let s = numeral(n, 10);
    if n >= 10 {
        numerals_spell_their_number(n / 10);
        numerals_are_digits(n / 10);
        assert(s.drop_last() =~= numeral(n / 10, 10));
    } else {
        assert(s.drop_last() =~= Seq::<char>::empty());
    }
}

/// A text begins with another exactly if the other is its front, and holds it exactly if it stands
/// between a front and an end.
pub proof fn texts_hold_their_parts(a: Seq<char>, p: Seq<char>, b: Seq<char>)
    ensures
        opens(p, p + b),
        opens(p, p) && occurs_in(p, a + p + b),
        opens(p, a) ==> occurs_in(p, a) && a == p + a.skip(p.len() as int),
{
    assert((p + b).subrange(0, p.len() as int) =~= p);
    assert(p.subrange(0, p.len() as int) =~= p);
    let s = a + p + b;
    assert(s.subrange(a.len() as int, (a.len() + p.len()) as int) =~= p);
    assert(stands_at(p, s, a.len() as int));
    if opens(p, a) {
        assert(stands_at(p, a, 0));
        assert(a =~= p + a.skip(p.len() as int));
    }
}

/// Without trailing marks a text ends with something else or is empty, and only such marks are gone.
pub proof fn trailing_marks_are_cut(s: Seq<char>, c: char)
    ensures
        ({
            let t = without_trailing(s, c);
            &&& t.len() <= s.len()
            &&& t == s.take(t.len() as int)
            &&& t.len() > 0 ==> t.last() != c
            &&& forall|i: int| t.len() <= i < s.len() ==> #[trigger] s[i] == c
        }),
    decreases s.len(),
{
    if s.len() > 0 && s.last() == c {
        trailing_marks_are_cut(s.drop_last(), c);
        let t = without_trailing(s, c);
        assert(t =~= s.take(t.len() as int));
        assert forall|i: int| t.len() <= i < s.len() implies #[trigger] s[i] == c by {
            if i < s.len() - 1 {
                assert(s.drop_last()[i] == s[i]);
            }
        }
    } else {
        assert(s =~= s.take(s.len() as int));
    }
}

/// Upper case changes the letters from a to z, each to its own, and nothing else.
pub proof fn upper_case_changes_small_letters(c: char)
    ensures
        'a' <= c && c <= 'z' ==> 'A' <= ascii_upper(c) && ascii_upper(c) <= 'Z' && c as int - ascii_upper(c) as int == 32,
        !('a' <= c && c <= 'z') ==> ascii_upper(c) == c,
        ascii_upper(ascii_upper(c)) == ascii_upper(c),
{
}

} // verus!
