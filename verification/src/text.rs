//! Small text helpers shared by the protocol modules: extracting the
//! characters of a string slice, building a string from characters,
//! whitespace and trimming, decimal numbers, and case folding.

use vstd::prelude::*;
use vstd::string::StrSliceExecFns;
use vstd::string::StringExecFns;

verus! {

/// The whitespace the line protocol tokenizes and trims on; protocol
/// lines are ASCII text.
pub open spec fn is_space_char(c: char) -> bool {
    c == ' ' || c == '\t' || c == '\r' || c == '\n'
}

/// The exec form of [`is_space_char`].
pub fn is_space(c: char) -> (b: bool)
    ensures
        b == is_space_char(c),
{
    c == ' ' || c == '\t' || c == '\r' || c == '\n'
}

/// The length a sequence keeps once trailing whitespace is dropped.
pub open spec fn trimmed_len(s: Seq<char>) -> int
    decreases s.len(),
{
    if s.len() == 0 {
        0
    } else if is_space_char(s.last()) {
        trimmed_len(s.drop_last())
    } else {
        s.len() as int
    }
}

/// The sequence with its trailing whitespace dropped.
pub open spec fn spec_trim_end(s: Seq<char>) -> Seq<char> {
    s.subrange(0, trimmed_len(s))
}

/// The trimmed length never exceeds the length.
proof fn lemma_trimmed_len_le(s: Seq<char>)
    ensures
        0 <= trimmed_len(s) <= s.len(),
    decreases s.len(),
{
    if s.len() > 0 && is_space_char(s.last()) {
        lemma_trimmed_len_le(s.drop_last());
    }
}

/// Drops trailing whitespace from a string slice.
pub fn trim_end_str(s: &str) -> (r: &str)
    ensures
        r@ == spec_trim_end(s@),
{
    let n = s.unicode_len();
    let mut j: usize = n;
    proof {
        assert(s@.subrange(0, n as int) =~= s@);
    }
    while j > 0 && is_space(s.get_char(j - 1))
        invariant
            j <= n,
            n == s@.len(),
            trimmed_len(s@) == trimmed_len(s@.subrange(0, j as int)),
        decreases j,
    {
        proof {
            let pre = s@.subrange(0, j as int);
            assert(pre.last() == s@[j - 1]);
            assert(pre.drop_last() =~= s@.subrange(0, j - 1));
        }
        j -= 1;
    }
    proof {
        let pre = s@.subrange(0, j as int);
        if j == 0 {
            assert(pre.len() == 0);
        } else {
            assert(pre.last() == s@[j - 1]);
            assert(!is_space_char(pre.last()));
        }
        assert(trimmed_len(s@) == j);
        lemma_trimmed_len_le(s@);
    }
    s.substring_char(0, j)
}

/// The numeric value of a decimal digit character (9 on other input,
/// unused there).
pub open spec fn digit_val(c: char) -> int {
    if c == '0' { 0 }
    else if c == '1' { 1 }
    else if c == '2' { 2 }
    else if c == '3' { 3 }
    else if c == '4' { 4 }
    else if c == '5' { 5 }
    else if c == '6' { 6 }
    else if c == '7' { 7 }
    else if c == '8' { 8 }
    else { 9 }
}

/// The digit character for a value in `0..=9` (`'9'` on other input,
/// unused there).
pub open spec fn digit_char(d: int) -> char {
    if d == 0 { '0' }
    else if d == 1 { '1' }
    else if d == 2 { '2' }
    else if d == 3 { '3' }
    else if d == 4 { '4' }
    else if d == 5 { '5' }
    else if d == 6 { '6' }
    else if d == 7 { '7' }
    else if d == 8 { '8' }
    else { '9' }
}

/// A decimal digit.
pub open spec fn is_dec_digit(c: char) -> bool {
    '0' <= c && c <= '9'
}

/// Every character is a decimal digit.
pub open spec fn all_dec_digits(s: Seq<char>) -> bool {
    forall|i: int| 0 <= i < s.len() ==> is_dec_digit(#[trigger] s[i])
}

/// The numeric value of a digit run, most significant first.
pub open spec fn digits_value(s: Seq<char>) -> int
    decreases s.len(),
{
    if s.len() == 0 {
        0
    } else {
        digits_value(s.drop_last()) * 10 + digit_val(s.last())
    }
}

/// The value of a digit run is never negative.
proof fn lemma_digits_value_nonneg(s: Seq<char>)
    ensures
        digits_value(s) >= 0,
    decreases s.len(),
{
    if s.len() > 0 {
        lemma_digits_value_nonneg(s.drop_last());
    }
}

/// The value of a prefix never exceeds the value of the whole run.
proof fn lemma_digits_value_prefix(s: Seq<char>, k: int)
    requires
        0 <= k <= s.len(),
    ensures
        digits_value(s.subrange(0, k)) <= digits_value(s),
    decreases s.len(),
{
    if k == s.len() {
        assert(s.subrange(0, k) =~= s);
    } else {
        assert(s.drop_last() =~= s.subrange(0, s.len() - 1));
        assert(s.subrange(0, s.len() - 1).subrange(0, k) =~= s.subrange(0, k));
        lemma_digits_value_prefix(s.subrange(0, s.len() - 1), k);
        lemma_digits_value_nonneg(s.drop_last());
    }
}

/// The decimal rendering of a non-negative value, without leading zeros
/// (except for zero itself).
pub open spec fn spec_dec_string(n: int) -> Seq<char>
    decreases n,
{
    if n <= 0 {
        seq![digit_char(n)]
    } else if n < 10 {
        seq![digit_char(n)]
    } else {
        spec_dec_string(n / 10).push(digit_char(n % 10))
    }
}

/// Appends one decimal digit to a string.
fn append_digit(s: &mut String, d: u64)
    requires
        d < 10,
    ensures
        final(s)@ == old(s)@.push(digit_char(d as int)),
{
    let ghost prior = s@;
    match d {
        0 => {
            proof { reveal_strlit("0"); }
            s.append("0");
        },
        1 => {
            proof { reveal_strlit("1"); }
            s.append("1");
        },
        2 => {
            proof { reveal_strlit("2"); }
            s.append("2");
        },
        3 => {
            proof { reveal_strlit("3"); }
            s.append("3");
        },
        4 => {
            proof { reveal_strlit("4"); }
            s.append("4");
        },
        5 => {
            proof { reveal_strlit("5"); }
            s.append("5");
        },
        6 => {
            proof { reveal_strlit("6"); }
            s.append("6");
        },
        7 => {
            proof { reveal_strlit("7"); }
            s.append("7");
        },
        8 => {
            proof { reveal_strlit("8"); }
            s.append("8");
        },
        _ => {
            proof { reveal_strlit("9"); }
            s.append("9");
        },
    }
    proof {
        assert(s@ =~= prior.push(digit_char(d as int)));
    }
}

/// Renders a value in decimal.
pub fn dec_string(n: u64) -> (s: String)
    ensures
        s@ == spec_dec_string(n as int),
    decreases n,
{
    if n < 10 {
        let mut s = String::new();
        append_digit(&mut s, n);
        proof {
            assert(s@ =~= seq![digit_char(n as int)]);
        }
        s
    } else {
        let mut s = dec_string(n / 10);
        append_digit(&mut s, n % 10);
        s
    }
}

/// Parses a decimal number: succeeds exactly on non-empty all-digit
/// strings whose value fits, and then returns that value.
pub fn parse_dec(s: &str) -> (r: Option<u64>)
    ensures
        r is Some <==> s@.len() > 0 && all_dec_digits(s@) && digits_value(s@) <= u64::MAX,
        r is Some ==> r->Some_0 as int == digits_value(s@),
{
    let n = s.unicode_len();
    if n == 0 {
        return Option::None;
    }
    let mut acc: u64 = 0;
    let mut i: usize = 0;
    while i < n
        invariant
            i <= n,
            n == s@.len(),
            n > 0,
            all_dec_digits(s@.subrange(0, i as int)),
            acc as int == digits_value(s@.subrange(0, i as int)),
        decreases n - i,
    {
        let c = s.get_char(i);
        let d: u64 = match c {
            '0' => 0,
            '1' => 1,
            '2' => 2,
            '3' => 3,
            '4' => 4,
            '5' => 5,
            '6' => 6,
            '7' => 7,
            '8' => 8,
            '9' => 9,
            _ => {
                proof {
                    assert(!is_dec_digit(s@[i as int]));
                    assert(!all_dec_digits(s@));
                }
                return Option::None;
            },
        };
        proof {
            assert(is_dec_digit(s@[i as int]));
            assert(digit_val(s@[i as int]) == d as int);
        }
        if acc > (u64::MAX - d) / 10 {
            proof {
                let pre = s@.subrange(0, i as int);
                let ext = s@.subrange(0, i + 1 as int);
                assert(ext.drop_last() =~= pre);
                assert(ext.last() == s@[i as int]);
                assert(acc as int * 10 + d as int > u64::MAX as int) by {
                    assert(acc as int >= (u64::MAX - d) as int / 10 + 1);
                    assert(((u64::MAX - d) as int / 10 + 1) * 10 > (u64::MAX - d) as int);
                }
                assert(digits_value(ext) > u64::MAX as int);
                lemma_digits_value_prefix(s@, i + 1 as int);
            }
            return Option::None;
        }
        proof {
            assert(acc as int * 10 + d as int <= u64::MAX as int) by {
                assert(acc as int <= (u64::MAX - d) as int / 10);
                assert(((u64::MAX - d) as int / 10) * 10 <= (u64::MAX - d) as int);
            }
        }
        acc = acc * 10 + d;
        proof {
            let pre = s@.subrange(0, i as int);
            let ext = s@.subrange(0, i + 1 as int);
            assert(ext.drop_last() =~= pre);
            assert(ext.last() == s@[i as int]);
            assert(all_dec_digits(ext));
        }
        i += 1;
    }
    proof {
        assert(s@.subrange(0, n as int) =~= s@);
    }
    Option::Some(acc)
}

/// Whether two string slices hold the same characters.
pub fn str_eq(a: &str, b: &str) -> (r: bool)
    ensures
        r == (a@ == b@),
{
    let n = a.unicode_len();
    if n != b.unicode_len() {
        return false;
    }
    let mut i: usize = 0;
    while i < n
        invariant
            i <= n,
            n == a@.len(),
            n == b@.len(),
            forall|k: int| 0 <= k < i ==> a@[k] == b@[k],
        decreases n - i,
    {
        if a.get_char(i) != b.get_char(i) {
            return false;
        }
        i += 1;
    }
    proof {
        assert(a@ =~= b@);
    }
    true
}

/// The length of the leading run of non-whitespace characters.
pub open spec fn first_token_len(s: Seq<char>) -> nat
    decreases s.len(),
{
    if s.len() == 0 || is_space_char(s[0]) {
        0
    } else {
        1 + first_token_len(s.subrange(1, s.len() as int))
    }
}

/// The leading token is non-empty on a non-space start and never runs
/// past the end.
pub proof fn lemma_first_token_len_bounds(s: Seq<char>)
    ensures
        first_token_len(s) <= s.len(),
        s.len() > 0 && !is_space_char(s[0]) ==> first_token_len(s) >= 1,
    decreases s.len(),
{
    if s.len() > 0 && !is_space_char(s[0]) {
        lemma_first_token_len_bounds(s.subrange(1, s.len() as int));
    }
}

/// The whitespace-separated tokens of a line, in order.
pub open spec fn tokens_of(s: Seq<char>) -> Seq<Seq<char>>
    decreases s.len(),
    via tokens_of_decreases
{
    if s.len() == 0 {
        Seq::empty()
    } else if is_space_char(s[0]) {
        tokens_of(s.subrange(1, s.len() as int))
    } else {
        let t = first_token_len(s) as int;
        seq![s.subrange(0, t)] + tokens_of(s.subrange(t, s.len() as int))
    }
}

#[via_fn]
proof fn tokens_of_decreases(s: Seq<char>) {
    lemma_first_token_len_bounds(s);
}

/// The leading non-whitespace run is found exactly where the scan stops.
proof fn lemma_first_token_len(s: Seq<char>, t: int)
    requires
        0 <= t <= s.len(),
        forall|k: int| 0 <= k < t ==> !is_space_char(#[trigger] s[k]),
        t == s.len() || is_space_char(s[t]),
    ensures
        first_token_len(s) == t,
    decreases t,
{
    if t == 0 {
    } else {
        assert(!is_space_char(s[0]));
        let tail = s.subrange(1, s.len() as int);
        lemma_first_token_len(tail, t - 1);
    }
}

/// Splits a line into its whitespace-separated tokens.
pub fn tokenize(s: &str) -> (tokens: Vec<String>)
    ensures
        tokens@.len() == tokens_of(s@).len(),
        forall|k: int| 0 <= k < tokens@.len() ==> #[trigger] tokens@[k]@ == tokens_of(s@)[k],
    decreases s@.len(),
{
    let n = s.unicode_len();
    if n == 0 {
        return Vec::new();
    }
    if is_space(s.get_char(0)) {
        let rest = s.substring_char(1, n);
        return tokenize(rest);
    }
    let mut t: usize = 1;
    while t < n && !is_space(s.get_char(t))
        invariant
            1 <= t <= n,
            n == s@.len(),
            forall|k: int| 0 <= k < t ==> !is_space_char(#[trigger] s@[k]),
        decreases n - t,
    {
        t += 1;
    }
    proof {
        lemma_first_token_len(s@, t as int);
    }
    let token = String::from_str(s.substring_char(0, t));
    let rest = s.substring_char(t, n);
    let mut tokens = tokenize(rest);
    tokens.insert(0, token);
    proof {
        assert(forall|k: int|
            0 <= k < tokens@.len() ==> #[trigger] tokens@[k]@ == tokens_of(s@)[k]);
    }
    tokens
}

/// The length of the leading run of non-comma characters.
pub open spec fn comma_free_len(s: Seq<char>) -> nat
    decreases s.len(),
{
    if s.len() == 0 || s[0] == ',' {
        0
    } else {
        1 + comma_free_len(s.subrange(1, s.len() as int))
    }
}

/// The comma-free run never runs past the end.
pub proof fn lemma_comma_free_len_bounds(s: Seq<char>)
    ensures
        comma_free_len(s) <= s.len(),
    decreases s.len(),
{
    if s.len() > 0 && s[0] != ',' {
        lemma_comma_free_len_bounds(s.subrange(1, s.len() as int));
    }
}

/// The comma-separated pieces of a string, in order; the empty string is
/// one empty piece, and consecutive commas yield empty pieces.
pub open spec fn split_commas(s: Seq<char>) -> Seq<Seq<char>>
    decreases s.len(),
    via split_commas_decreases
{
    let c = comma_free_len(s) as int;
    if c == s.len() {
        seq![s]
    } else {
        seq![s.subrange(0, c)] + split_commas(s.subrange(c + 1, s.len() as int))
    }
}

#[via_fn]
proof fn split_commas_decreases(s: Seq<char>) {
    lemma_comma_free_len_bounds(s);
}

/// The leading comma-free run is found exactly where the scan stops.
proof fn lemma_comma_free_len(s: Seq<char>, c: int)
    requires
        0 <= c <= s.len(),
        forall|k: int| 0 <= k < c ==> #[trigger] s[k] != ',',
        c == s.len() || s[c] == ',',
    ensures
        comma_free_len(s) == c,
    decreases c,
{
    if c == 0 {
    } else {
        assert(s[0] != ',');
        lemma_comma_free_len(s.subrange(1, s.len() as int), c - 1);
    }
}

/// Splits a string on commas.
pub fn split_commas_str(s: &str) -> (pieces: Vec<String>)
    ensures
        pieces@.len() == split_commas(s@).len(),
        forall|k: int| 0 <= k < pieces@.len() ==> #[trigger] pieces@[k]@ == split_commas(s@)[k],
    decreases s@.len(),
{
    let n = s.unicode_len();
    let mut c: usize = 0;
    while c < n && s.get_char(c) != ','
        invariant
            c <= n,
            n == s@.len(),
            forall|k: int| 0 <= k < c ==> #[trigger] s@[k] != ',',
        decreases n - c,
    {
        c += 1;
    }
    proof {
        lemma_comma_free_len(s@, c as int);
    }
    let piece = String::from_str(s.substring_char(0, c));
    if c == n {
        let mut pieces: Vec<String> = Vec::new();
        pieces.push(piece);
        proof {
            assert(s@.subrange(0, n as int) =~= s@);
        }
        pieces
    } else {
        let rest = s.substring_char(c + 1, n);
        let mut pieces = split_commas_str(rest);
        pieces.insert(0, piece);
        proof {
            assert(forall|k: int|
                0 <= k < pieces@.len() ==> #[trigger] pieces@[k]@ == split_commas(s@)[k]);
        }
        pieces
    }
}

/// Strict lexicographic order on character sequences, by code point: a
/// proper prefix comes first, and otherwise the first differing
/// position decides.
pub open spec fn spec_str_lt(a: Seq<char>, b: Seq<char>) -> bool
    decreases a.len() + b.len(),
{
    if b.len() == 0 {
        false
    } else if a.len() == 0 {
        true
    } else if (a[0] as u32) < (b[0] as u32) {
        true
    } else if a[0] == b[0] {
        spec_str_lt(a.subrange(1, a.len() as int), b.subrange(1, b.len() as int))
    } else {
        false
    }
}

/// Characters casting to the same code point are the same character.
proof fn lemma_char_eq_of_u32(c1: char, c2: char)
    requires
        c1 as u32 == c2 as u32,
    ensures
        c1 == c2,
{
    vstd::utf8::char_u32_cast(c1, c1 as u32);
    vstd::utf8::char_u32_cast(c2, c2 as u32);
}

/// The order is total: of two sequences, one is smaller or they are
/// equal.
pub proof fn lemma_str_lt_total(a: Seq<char>, b: Seq<char>)
    ensures
        spec_str_lt(a, b) || spec_str_lt(b, a) || a == b,
    decreases a.len(),
{
    if b.len() == 0 {
        if a.len() == 0 {
            assert(a =~= b);
        }
    } else if a.len() == 0 {
    } else if (a[0] as u32) < (b[0] as u32) {
    } else if (b[0] as u32) < (a[0] as u32) {
    } else {
        lemma_char_eq_of_u32(a[0], b[0]);
        let ta = a.subrange(1, a.len() as int);
        let tb = b.subrange(1, b.len() as int);
        lemma_str_lt_total(ta, tb);
        if !spec_str_lt(a, b) && !spec_str_lt(b, a) {
            assert(ta == tb);
            assert(a =~= b) by {
                assert(forall|i: int| 1 <= i < a.len() ==> #[trigger] a[i] == ta[i - 1]);
                assert(forall|i: int| 1 <= i < b.len() ==> #[trigger] b[i] == tb[i - 1]);
            }
        }
    }
}

/// The order is transitive.
pub proof fn lemma_str_lt_trans(a: Seq<char>, b: Seq<char>, c: Seq<char>)
    requires
        spec_str_lt(a, b),
        spec_str_lt(b, c),
    ensures
        spec_str_lt(a, c),
    decreases a.len(),
{
    if a.len() == 0 {
    } else {
        // a, b and c are all non-empty here
        if (a[0] as u32) < (b[0] as u32) {
            if (b[0] as u32) < (c[0] as u32) {
            } else {
                assert(b[0] == c[0]);
            }
        } else {
            assert(a[0] == b[0]);
            if (b[0] as u32) < (c[0] as u32) {
            } else {
                assert(b[0] == c[0]);
                lemma_str_lt_trans(
                    a.subrange(1, a.len() as int),
                    b.subrange(1, b.len() as int),
                    c.subrange(1, c.len() as int),
                );
            }
        }
    }
}

/// Dropping an equal head from both sides leaves the order unchanged.
proof fn lemma_str_lt_peel(a: Seq<char>, b: Seq<char>)
    requires
        a.len() > 0,
        b.len() > 0,
        a[0] == b[0],
    ensures
        spec_str_lt(a, b) == spec_str_lt(
            a.subrange(1, a.len() as int),
            b.subrange(1, b.len() as int),
        ),
{
}

/// Compares two strings in the code-point order.
pub fn str_lt(a: &String, b: &String) -> (r: bool)
    ensures
        r == spec_str_lt(a@, b@),
{
    let an = a.as_str().unicode_len();
    let bn = b.as_str().unicode_len();
    proof {
        assert(a@.subrange(0, an as int) =~= a@);
        assert(b@.subrange(0, bn as int) =~= b@);
    }
    let mut i: usize = 0;
    while i < an && i < bn
        invariant
            i <= an,
            i <= bn,
            an == a@.len(),
            bn == b@.len(),
            spec_str_lt(a@, b@) == spec_str_lt(
                a@.subrange(i as int, an as int),
                b@.subrange(i as int, bn as int),
            ),
        decreases an - i,
    {
        let ca = a.as_str().get_char(i);
        let cb = b.as_str().get_char(i);
        let ghost sa = a@.subrange(i as int, an as int);
        let ghost sb = b@.subrange(i as int, bn as int);
        proof {
            assert(sa[0] == a@[i as int]);
            assert(sb[0] == b@[i as int]);
        }
        if (ca as u32) < (cb as u32) {
            proof {
                assert(spec_str_lt(sa, sb));
            }
            return true;
        }
        if ca != cb {
            proof {
                if ca as u32 == cb as u32 {
                    lemma_char_eq_of_u32(ca, cb);
                }
                assert(!spec_str_lt(sa, sb));
            }
            return false;
        }
        proof {
            lemma_str_lt_peel(sa, sb);
            assert(sa.subrange(1, sa.len() as int) =~= a@.subrange(i + 1 as int, an as int));
            assert(sb.subrange(1, sb.len() as int) =~= b@.subrange(i + 1 as int, bn as int));
        }
        i += 1;
    }
    proof {
        let sa = a@.subrange(i as int, an as int);
        let sb = b@.subrange(i as int, bn as int);
        if i == an {
            assert(sa.len() == 0);
            assert(spec_str_lt(sa, sb) == (bn > an));
        } else {
            assert(sb.len() == 0);
            assert(!spec_str_lt(sa, sb));
        }
    }
    an < bn
}

/// A strictly sorted run of names: no duplicates, code-point order.
pub open spec fn strictly_sorted(ns: Seq<Seq<char>>) -> bool {
    forall|i: int, j: int| 0 <= i < j < ns.len() ==> spec_str_lt(#[trigger] ns[i], #[trigger] ns[j])
}

/// Whether a name occurs in the run.
pub open spec fn name_present(ns: Seq<Seq<char>>, x: Seq<char>) -> bool {
    exists|j: int| 0 <= j < ns.len() && #[trigger] ns[j] == x
}

/// The views of a sequence of strings.
pub open spec fn names_view(v: Seq<String>) -> Seq<Seq<char>> {
    Seq::new(v.len(), |i: int| v[i]@)
}

/// Inserts a name into a strictly sorted list, keeping it sorted and
/// duplicate-free; a name already present changes nothing.  The held
/// set of names afterwards is the old set plus this name.
#[verifier::rlimit(60)]
pub fn insert_sorted_unique(names: &mut Vec<String>, name: String)
    requires
        strictly_sorted(names_view(old(names)@)),
    ensures
        strictly_sorted(names_view(final(names)@)),
        name_present(names_view(final(names)@), name@),
        forall|x: Seq<char>|
            #[trigger] name_present(names_view(old(names)@), x) ==> name_present(
                names_view(final(names)@),
                x,
            ),
        forall|x: Seq<char>|
            #[trigger] name_present(names_view(final(names)@), x) ==> x == name@ || name_present(
                names_view(old(names)@),
                x,
            ),
{
    proof {
        assert forall|a: int, b: int| 0 <= a < b < names@.len() implies spec_str_lt(
            #[trigger] names@[a]@,
            #[trigger] names@[b]@,
        ) by {
            let nv = names_view(names@);
            assert(nv[a] == names@[a]@);
            assert(nv[b] == names@[b]@);
        }
    }
    let mut i: usize = 0;
    while i < names.len() && str_lt(&names[i], &name)
        invariant
            i <= names@.len(),
            *names == *old(names),
            forall|k: int| 0 <= k < i ==> spec_str_lt(#[trigger] names@[k]@, name@),
            forall|a: int, b: int|
                0 <= a < b < names@.len() ==> spec_str_lt(
                    #[trigger] names@[a]@,
                    #[trigger] names@[b]@,
                ),
        decreases names@.len() - i,
    {
        i += 1;
    }
    if i < names.len() && names[i].eq(&name) {
        proof {
            let tv = names_view(names@);
            assert(tv[i as int] == names@[i as int]@);
            assert(tv[i as int] == name@);
            assert(name_present(tv, name@));
        }
        return ;
    }
    proof {
        if i < names@.len() {
            // not smaller and not equal: the name sorts strictly before
            lemma_str_lt_total(names@[i as int]@, name@);
            assert(spec_str_lt(name@, names@[i as int]@));
        }
    }
    // rebuild with the name slotted in at its position
    let mut out: Vec<String> = Vec::new();
    let mut k: usize = 0;
    while k < i
        invariant
            k <= i,
            i <= names@.len(),
            *names == *old(names),
            out@.len() == k,
            forall|m: int| 0 <= m < k ==> #[trigger] out@[m] == names@[m],
        decreases i - k,
    {
        out.push(names[k].clone());
        k += 1;
    }
    let ghost name_model = name@;
    out.push(name);
    let mut k: usize = i;
    while k < names.len()
        invariant
            i <= k <= names@.len(),
            *names == *old(names),
            out@.len() == k + 1,
            forall|m: int| 0 <= m < i ==> #[trigger] out@[m] == names@[m],
            out@[i as int]@ == name_model,
            forall|m: int| i < m < k + 1 ==> #[trigger] out@[m] == names@[m - 1],
        decreases names@.len() - k,
    {
        out.push(names[k].clone());
        k += 1;
    }
    *names = out;
    proof {
        let t = names@;
        let s = old(names)@;
        let tv = names_view(t);
        let sv0 = names_view(s);
        assert(t.len() == s.len() + 1);
        assert forall|a: int, b: int| 0 <= a < b < tv.len() implies spec_str_lt(
            #[trigger] tv[a],
            #[trigger] tv[b],
        ) by {
            assert(tv[a] == t[a]@);
            assert(tv[b] == t[b]@);
            if a == i {
                if b == i + 1 {
                    assert(t[b] == s[b - 1]);
                    assert(spec_str_lt(name_model, s[i as int]@));
                } else {
                    assert(t[b] == s[b - 1]);
                    assert(spec_str_lt(s[i as int]@, s[b - 1]@));
                    lemma_str_lt_trans(name_model, s[i as int]@, s[b - 1]@);
                }
            } else if b == i {
                assert(t[a] == s[a]);
                assert(spec_str_lt(s[a]@, name_model));
            } else {
                let a0 = if a < i { a } else { a - 1 };
                let b0 = if b < i { b } else { b - 1 };
                assert(t[a] == s[a0]);
                assert(t[b] == s[b0]);
                assert(spec_str_lt(s[a0]@, s[b0]@));
            }
        }
        assert(strictly_sorted(tv));
        assert(tv[i as int] == name_model);
        assert(name_present(tv, name_model));
        assert forall|x: Seq<char>| #[trigger] name_present(sv0, x) implies name_present(
            tv,
            x,
        ) by {
            let k2 = choose|j: int| 0 <= j < sv0.len() && #[trigger] sv0[j] == x;
            assert(sv0[k2] == s[k2]@);
            if k2 < i {
                assert(tv[k2] == t[k2]@);
                assert(t[k2] == s[k2]);
                assert(tv[k2] == x);
            } else {
                assert(tv[k2 + 1] == t[k2 + 1]@);
                assert(t[k2 + 1] == s[k2]);
                assert(tv[k2 + 1] == x);
            }
        }
        assert forall|x: Seq<char>| #[trigger] name_present(tv, x) implies x == name_model
            || name_present(sv0, x) by {
            let j = choose|j: int| 0 <= j < tv.len() && #[trigger] tv[j] == x;
            assert(tv[j] == t[j]@);
            if j == i {
            } else if j < i {
                assert(t[j] == s[j]);
                assert(sv0[j] == s[j]@);
                assert(name_present(sv0, x));
            } else {
                assert(t[j] == s[j - 1]);
                assert(sv0[j - 1] == s[j - 1]@);
                assert(name_present(sv0, x));
            }
        }
    }
}

/// The sequence with every `':'` dropped.
pub open spec fn spec_remove_colons(s: Seq<char>) -> Seq<char> {
    s.filter(|c: char| c != ':')
}

/// Drops every `':'` from a string.
pub fn remove_colons(s: &str) -> (r: String)
    ensures
        r@ == spec_remove_colons(s@),
{
    let n = s.unicode_len();
    let mut kept: Vec<char> = Vec::new();
    let mut i: usize = 0;
    while i < n
        invariant
            i <= n,
            n == s@.len(),
            kept@ == spec_remove_colons(s@.subrange(0, i as int)),
        decreases n - i,
    {
        let c = s.get_char(i);
        if c != ':' {
            kept.push(c);
        }
        proof {
            let pre = s@.subrange(0, i as int);
            let ext = s@.subrange(0, i + 1 as int);
            assert(ext.drop_last() =~= pre);
            assert(ext.last() == s@[i as int]);
            reveal_with_fuel(Seq::filter, 2);
            assert(kept@ =~= spec_remove_colons(ext));
        }
        i += 1;
    }
    proof {
        assert(s@.subrange(0, n as int) =~= s@);
    }
    chars_to_string(&kept)
}

/// What `str::to_uppercase` returns: a function of the characters alone.
pub uninterp spec fn upper_of(s: Seq<char>) -> Seq<char>;

/// Relies on `str::to_uppercase`: Unicode case folding, a pure function
/// of the characters.
#[verifier::external_body]
pub fn uppercase(s: &str) -> (r: String)
    ensures
        r@ == upper_of(s@),
{
    s.to_uppercase()
}

/// What `str::to_lowercase` returns: a function of the characters alone.
pub uninterp spec fn lower_of(s: Seq<char>) -> Seq<char>;

/// Relies on `str::to_lowercase`: Unicode case folding, a pure function
/// of the characters.
#[verifier::external_body]
pub fn lowercase(s: &str) -> (r: String)
    ensures
        r@ == lower_of(s@),
{
    s.to_lowercase()
}

/// Collects the characters of a string slice into a vector.
pub fn str_to_chars(s: &str) -> (v: Vec<char>)
    ensures
        v@ == s@,
{
    let n = s.unicode_len();
    let mut v: Vec<char> = Vec::new();
    let mut i: usize = 0;
    while i < n
        invariant
            i <= n,
            n == s@.len(),
            v@ == s@.subrange(0, i as int),
        decreases n - i,
    {
        let c = s.get_char(i);
        v.push(c);
        proof {
            assert(v@ =~= s@.subrange(0, i + 1 as int));
        }
        i += 1;
    }
    proof {
        assert(s@.subrange(0, n as int) =~= s@);
    }
    v
}

/// Copies a character vector.
pub fn copy_chars(v: &Vec<char>) -> (r: Vec<char>)
    ensures
        r@ == v@,
{
    let mut r: Vec<char> = Vec::new();
    let mut i: usize = 0;
    while i < v.len()
        invariant
            i <= v@.len(),
            r@ == v@.subrange(0, i as int),
        decreases v@.len() - i,
    {
        r.push(v[i]);
        proof {
            assert(r@ =~= v@.subrange(0, i + 1 as int));
        }
        i += 1;
    }
    proof {
        assert(v@.subrange(0, v@.len() as int) =~= v@);
    }
    r
}

/// Relies on `String`'s `FromIterator` over `char`: collecting the
/// characters of a vector yields exactly the string of those characters.
#[verifier::external_body]
pub(crate) fn chars_to_string(v: &Vec<char>) -> (s: String)
    ensures
        s@ == v@,
{
    v.iter().collect()
}

} // verus!
