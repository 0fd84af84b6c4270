//! The user-identifier allocator: a process-wide monotonic 6-character
//! suffix generator with two phases.
//!
//! In the letter phase the suffix is a base-26 counter over `'A'..='Z'`,
//! starting at `"AAAAAA"`, incrementing the rightmost position and carrying
//! left on `'Z'` overflow.  Once the letter phase overflows past `"ZZZZZZ"`
//! the numeral phase begins: position 0 stays a letter and positions 1..=5
//! become a base-10 counter.  On entry the counter is seeded and one
//! increment is applied before the first value is returned, so the first
//! numeral-phase value is `"A00001"`, never `"A00000"`; likewise a digit
//! overflow that bumps the letter skips the all-zero suffix.  Once position
//! 0 reaches `'Z'` with all digits `'9'` the allocator is exhausted and
//! every further call fails; it never wraps.

use vstd::prelude::*;
use crate::ids::is_digit_char;
use crate::ids::is_upper_char;
use crate::text::copy_chars;

verus! {

/// Allocation failure: every suffix has been handed out.
#[derive(Clone, Copy, Debug, PartialEq, Eq, Structural)]
pub enum UidIncreaseError {
    UserCapReached,
}

/// The two counting modes of the allocator.
#[derive(Clone, Copy, Debug, PartialEq, Eq, Structural)]
pub enum UidPhase {
    Letters,
    Numerals,
}

/// The upper-case letter after `c`, for `'A'..='Y'` (unused on `'Z'`).
pub open spec fn letter_next(c: char) -> char {
    if c == 'A' { 'B' }
    else if c == 'B' { 'C' }
    else if c == 'C' { 'D' }
    else if c == 'D' { 'E' }
    else if c == 'E' { 'F' }
    else if c == 'F' { 'G' }
    else if c == 'G' { 'H' }
    else if c == 'H' { 'I' }
    else if c == 'I' { 'J' }
    else if c == 'J' { 'K' }
    else if c == 'K' { 'L' }
    else if c == 'L' { 'M' }
    else if c == 'M' { 'N' }
    else if c == 'N' { 'O' }
    else if c == 'O' { 'P' }
    else if c == 'P' { 'Q' }
    else if c == 'Q' { 'R' }
    else if c == 'R' { 'S' }
    else if c == 'S' { 'T' }
    else if c == 'T' { 'U' }
    else if c == 'U' { 'V' }
    else if c == 'V' { 'W' }
    else if c == 'W' { 'X' }
    else if c == 'X' { 'Y' }
    else if c == 'Y' { 'Z' }
    else { 'A' }
}

/// The decimal digit after `c`, for `'0'..='8'` (unused on `'9'`).
pub open spec fn digit_next(c: char) -> char {
    if c == '0' { '1' }
    else if c == '1' { '2' }
    else if c == '2' { '3' }
    else if c == '3' { '4' }
    else if c == '4' { '5' }
    else if c == '5' { '6' }
    else if c == '6' { '7' }
    else if c == '7' { '8' }
    else if c == '8' { '9' }
    else { '0' }
}

/// Every character is an upper-case letter.
pub open spec fn all_letters(s: Seq<char>) -> bool {
    forall|i: int| 0 <= i < s.len() ==> is_upper_char(#[trigger] s[i])
}

/// Every character is `'Z'`.
pub open spec fn all_z(s: Seq<char>) -> bool {
    forall|i: int| 0 <= i < s.len() ==> #[trigger] s[i] == 'Z'
}

/// Every character is `'9'`.
pub open spec fn all_nines(s: Seq<char>) -> bool {
    forall|i: int| 0 <= i < s.len() ==> #[trigger] s[i] == '9'
}

/// A well-formed numeral-phase suffix: a letter then five digits.
pub open spec fn numeral_form(s: Seq<char>) -> bool {
    &&& s.len() == 6
    &&& is_upper_char(s[0])
    &&& forall|i: int| 1 <= i < 6 ==> is_digit_char(#[trigger] s[i])
}

/// The base-26 successor: increments the last position, carrying left on
/// `'Z'` overflow (the all-`'Z'` input carries off the end and is never
/// used).
pub open spec fn letter_succ(s: Seq<char>) -> Seq<char>
    decreases s.len(),
{
    if s.len() == 0 {
        s
    } else if s.last() != 'Z' {
        s.update(s.len() - 1, letter_next(s.last()))
    } else {
        letter_succ(s.drop_last()).push('A')
    }
}

/// The base-10 successor of a digit run, carrying left on `'9'` overflow
/// (the all-`'9'` input carries off the end and is never used).
pub open spec fn digits_succ(s: Seq<char>) -> Seq<char>
    decreases s.len(),
{
    if s.len() == 0 {
        s
    } else if s.last() != '9' {
        s.update(s.len() - 1, digit_next(s.last()))
    } else {
        digits_succ(s.drop_last()).push('0')
    }
}

/// The numeral-phase successor: counts the digit run up, and on digit
/// overflow bumps the letter and restarts the digits at `"00001"`.
pub open spec fn numeral_succ(s: Seq<char>) -> Seq<char> {
    if !all_nines(s.subrange(1, 6)) {
        seq![s[0]] + digits_succ(s.subrange(1, 6))
    } else {
        seq![letter_next(s[0]), '0', '0', '0', '0', '1']
    }
}

/// The exec form of [`letter_next`].
fn letter_next_exec(c: char) -> (r: char)
    ensures
        r == letter_next(c),
{
    match c {
        'A' => 'B',
        'B' => 'C',
        'C' => 'D',
        'D' => 'E',
        'E' => 'F',
        'F' => 'G',
        'G' => 'H',
        'H' => 'I',
        'I' => 'J',
        'J' => 'K',
        'K' => 'L',
        'L' => 'M',
        'M' => 'N',
        'N' => 'O',
        'O' => 'P',
        'P' => 'Q',
        'Q' => 'R',
        'R' => 'S',
        'S' => 'T',
        'T' => 'U',
        'U' => 'V',
        'V' => 'W',
        'W' => 'X',
        'X' => 'Y',
        'Y' => 'Z',
        _ => 'A',
    }
}

/// The exec form of [`digit_next`].
fn digit_next_exec(c: char) -> (r: char)
    ensures
        r == digit_next(c),
{
    match c {
        '0' => '1',
        '1' => '2',
        '2' => '3',
        '3' => '4',
        '4' => '5',
        '5' => '6',
        '6' => '7',
        '7' => '8',
        '8' => '9',
        _ => '0',
    }
}

/// The closed form of [`letter_succ`] when position `j` is the rightmost
/// one short of `'Z'`: position `j` is bumped and everything to its right
/// becomes `'A'`.
proof fn lemma_letter_succ_closed(s: Seq<char>, j: int)
    requires
        0 <= j < s.len(),
        s[j] != 'Z',
        forall|k: int| j < k < s.len() ==> #[trigger] s[k] == 'Z',
    ensures
        letter_succ(s) =~= Seq::new(
            s.len(),
            |i: int| if i < j { s[i] } else if i == j { letter_next(s[j]) } else { 'A' },
        ),
    decreases s.len(),
{
    if j == s.len() - 1 {
    } else {
        assert(s.last() == 'Z');
        lemma_letter_succ_closed(s.drop_last(), j);
    }
}

/// The closed form of [`digits_succ`] when position `j` is the rightmost
/// one short of `'9'`: position `j` is bumped and everything to its right
/// becomes `'0'`.
proof fn lemma_digits_succ_closed(s: Seq<char>, j: int)
    requires
        0 <= j < s.len(),
        s[j] != '9',
        forall|k: int| j < k < s.len() ==> #[trigger] s[k] == '9',
    ensures
        digits_succ(s) =~= Seq::new(
            s.len(),
            |i: int| if i < j { s[i] } else if i == j { digit_next(s[j]) } else { '0' },
        ),
    decreases s.len(),
{
    if j == s.len() - 1 {
    } else {
        assert(s.last() == '9');
        lemma_digits_succ_closed(s.drop_last(), j);
    }
}

/// The position of an upper-case letter in the alphabet (25 on other
/// input, unused there).
pub open spec fn letter_index(c: char) -> int {
    if c == 'A' { 0 }
    else if c == 'B' { 1 }
    else if c == 'C' { 2 }
    else if c == 'D' { 3 }
    else if c == 'E' { 4 }
    else if c == 'F' { 5 }
    else if c == 'G' { 6 }
    else if c == 'H' { 7 }
    else if c == 'I' { 8 }
    else if c == 'J' { 9 }
    else if c == 'K' { 10 }
    else if c == 'L' { 11 }
    else if c == 'M' { 12 }
    else if c == 'N' { 13 }
    else if c == 'O' { 14 }
    else if c == 'P' { 15 }
    else if c == 'Q' { 16 }
    else if c == 'R' { 17 }
    else if c == 'S' { 18 }
    else if c == 'T' { 19 }
    else if c == 'U' { 20 }
    else if c == 'V' { 21 }
    else if c == 'W' { 22 }
    else if c == 'X' { 23 }
    else if c == 'Y' { 24 }
    else { 25 }
}

/// The value of a decimal digit (9 on other input, unused there).
pub open spec fn numeral_index(c: char) -> int {
    if c == '0' { 0 }
    else if c == '1' { 1 }
    else if c == '2' { 2 }
    else if c == '3' { 3 }
    else if c == '4' { 4 }
    else if c == '5' { 5 }
    else if c == '6' { 6 }
    else if c == '7' { 7 }
    else if c == '8' { 8 }
    else { 9 }
}

/// The base-26 value of a letter run.
pub open spec fn letters_rank(s: Seq<char>) -> int
    decreases s.len(),
{
    if s.len() == 0 {
        0
    } else {
        letters_rank(s.drop_last()) * 26 + letter_index(s.last())
    }
}

/// The base-10 value of a digit run.
pub open spec fn digits_rank(s: Seq<char>) -> int
    decreases s.len(),
{
    if s.len() == 0 {
        0
    } else {
        digits_rank(s.drop_last()) * 10 + numeral_index(s.last())
    }
}

/// 26 to the given power.
pub open spec fn pow26(n: nat) -> int
    decreases n,
{
    if n == 0 {
        1
    } else {
        pow26((n - 1) as nat) * 26
    }
}

/// How far along its whole output sequence an allocator state is: the
/// letter phase counts in base 26, and every numeral-phase state ranks
/// above every letter-phase one.
pub open spec fn state_rank(g: UserIdGenerator) -> int {
    match g.phase() {
        UidPhase::Letters => letters_rank(g.suffix()),
        UidPhase::Numerals => pow26(6) + letter_index(g.suffix()[0]) * 100000 + digits_rank(
            g.suffix().subrange(1, 6),
        ),
    }
}

/// A letter run's rank is bounded by the base-26 power of its length.
proof fn lemma_letters_rank_bound(s: Seq<char>)
    requires
        all_letters(s),
    ensures
        0 <= letters_rank(s) < pow26(s.len()),
    decreases s.len(),
{
    if s.len() > 0 {
        assert(all_letters(s.drop_last())) by {
            assert(forall|i: int| 0 <= i < s.len() - 1 ==> s.drop_last()[i] == #[trigger] s[i]);
        }
        lemma_letters_rank_bound(s.drop_last());
        assert(is_upper_char(s.last()));
        assert(0 <= letter_index(s.last()) <= 25);
    }
}

/// The base-26 successor strictly increases the rank.
proof fn lemma_letter_succ_increases(s: Seq<char>)
    requires
        all_letters(s),
        s.len() > 0,
        !all_z(s),
    ensures
        letters_rank(letter_succ(s)) > letters_rank(s),
        letter_succ(s).len() == s.len(),
    decreases s.len(),
{
    if s.last() != 'Z' {
        let t = letter_succ(s);
        assert(t == s.update(s.len() - 1, letter_next(s.last())));
        assert(t.drop_last() =~= s.drop_last());
        assert(t.last() == letter_next(s.last()));
        assert(is_upper_char(s.last()));
        assert(letter_index(letter_next(s.last())) == letter_index(s.last()) + 1);
    } else {
        let dl = s.drop_last();
        assert(all_letters(dl)) by {
            assert(forall|i: int| 0 <= i < s.len() - 1 ==> dl[i] == #[trigger] s[i]);
        }
        assert(!all_z(dl)) by {
            let k = choose|k: int| 0 <= k < s.len() && #[trigger] s[k] != 'Z';
            assert(k < s.len() - 1);
            assert(dl[k] != 'Z');
        }
        lemma_letter_succ_increases(dl);
        let t = letter_succ(s);
        assert(t == letter_succ(dl).push('A'));
        assert(t.drop_last() =~= letter_succ(dl));
        assert(t.last() == 'A');
        assert(letters_rank(t) == letters_rank(letter_succ(dl)) * 26);
        assert(letters_rank(s) == letters_rank(dl) * 26 + 25);
        assert(letters_rank(letter_succ(dl)) >= letters_rank(dl) + 1);
        assert(letters_rank(letter_succ(dl)) * 26 >= (letters_rank(dl) + 1) * 26);
    }
}

/// The digit-run successor strictly increases the rank.
proof fn lemma_digits_succ_increases(s: Seq<char>)
    requires
        forall|i: int| 0 <= i < s.len() ==> is_digit_char(#[trigger] s[i]),
        s.len() > 0,
        !all_nines(s),
    ensures
        digits_rank(digits_succ(s)) > digits_rank(s),
        digits_succ(s).len() == s.len(),
    decreases s.len(),
{
    if s.last() != '9' {
        let t = digits_succ(s);
        assert(t == s.update(s.len() - 1, digit_next(s.last())));
        assert(t.drop_last() =~= s.drop_last());
        assert(t.last() == digit_next(s.last()));
        assert(is_digit_char(s.last()));
        assert(numeral_index(digit_next(s.last())) == numeral_index(s.last()) + 1);
    } else {
        let dl = s.drop_last();
        assert(forall|i: int| 0 <= i < dl.len() ==> is_digit_char(#[trigger] dl[i])) by {
            assert(forall|i: int| 0 <= i < s.len() - 1 ==> dl[i] == #[trigger] s[i]);
        }
        assert(!all_nines(dl)) by {
            let k = choose|k: int| 0 <= k < s.len() && #[trigger] s[k] != '9';
            assert(k < s.len() - 1);
            assert(dl[k] != '9');
        }
        lemma_digits_succ_increases(dl);
        let t = digits_succ(s);
        assert(t == digits_succ(dl).push('0'));
        assert(t.drop_last() =~= digits_succ(dl));
        assert(t.last() == '0');
        assert(digits_rank(t) == digits_rank(digits_succ(dl)) * 10);
        assert(digits_rank(s) == digits_rank(dl) * 10 + 9);
        assert(digits_rank(digits_succ(dl)) >= digits_rank(dl) + 1);
        assert(digits_rank(digits_succ(dl)) * 10 >= (digits_rank(dl) + 1) * 10);
    }
}

/// A digit run's rank is non-negative and bounded by the power of ten
/// of its length (stated here for runs of five).
proof fn lemma_digits_rank_bound5(s: Seq<char>)
    requires
        forall|i: int| 0 <= i < s.len() ==> is_digit_char(#[trigger] s[i]),
        s.len() <= 5,
    ensures
        0 <= digits_rank(s) <= 99999,
    decreases s.len(),
{
    if s.len() > 0 {
        let dl = s.drop_last();
        assert(forall|i: int| 0 <= i < dl.len() ==> is_digit_char(#[trigger] dl[i])) by {
            assert(forall|i: int| 0 <= i < s.len() - 1 ==> dl[i] == #[trigger] s[i]);
        }
        lemma_digits_rank_bound5(dl);
        assert(is_digit_char(s.last()));
        assert(0 <= numeral_index(s.last()) <= 9);
        if s.len() == 5 {
            assert(digits_rank(dl) <= 9999) by {
                lemma_digits_rank_bound_len(dl);
            }
        } else {
            assert(digits_rank(dl) <= 999) by {
                lemma_digits_rank_bound_len(dl);
            }
        }
    }
}

/// The sharper per-length bound behind [`lemma_digits_rank_bound5`].
proof fn lemma_digits_rank_bound_len(s: Seq<char>)
    requires
        forall|i: int| 0 <= i < s.len() ==> is_digit_char(#[trigger] s[i]),
    ensures
        0 <= digits_rank(s),
        s.len() <= 1 ==> digits_rank(s) <= 9,
        s.len() <= 2 ==> digits_rank(s) <= 99,
        s.len() <= 3 ==> digits_rank(s) <= 999,
        s.len() <= 4 ==> digits_rank(s) <= 9999,
        s.len() <= 5 ==> digits_rank(s) <= 99999,
    decreases s.len(),
{
    if s.len() > 0 {
        let dl = s.drop_last();
        assert(forall|i: int| 0 <= i < dl.len() ==> is_digit_char(#[trigger] dl[i])) by {
            assert(forall|i: int| 0 <= i < s.len() - 1 ==> dl[i] == #[trigger] s[i]);
        }
        lemma_digits_rank_bound_len(dl);
        assert(is_digit_char(s.last()));
        assert(0 <= numeral_index(s.last()) <= 9);
    }
}

/// Law: allocation is monotonic — every successful call moves the
/// allocator strictly forward in its output order, so a state, and with
/// it a suffix, never comes back and no caller ever receives a
/// duplicate.  (Under well-formedness the suffix's shape — all letters,
/// or a letter and five digits — determines the phase, so a repeated
/// suffix would mean a repeated rank.)
pub proof fn lemma_allocation_monotonic(g0: UserIdGenerator, g1: UserIdGenerator)
    requires
        g0.wf(),
        g0.started(),
        !g0.exhausted(),
        spec_advance(g0, g1),
    ensures
        state_rank(g1) > state_rank(g0),
{
    if g0.phase() is Letters && !all_z(g0.suffix()) {
        lemma_letter_succ_increases(g0.suffix());
    } else if g0.phase() is Letters && all_z(g0.suffix()) {
        lemma_letters_rank_bound(g0.suffix());
        assert(pow26(6) == 308915776) by {
            reveal_with_fuel(pow26, 8);
        }
        let t = g1.suffix();
        assert(t =~= seq!['A', '0', '0', '0', '0', '1']);
        let ds = t.subrange(1, 6);
        assert(digits_rank(ds) == 1) by {
            reveal_with_fuel(digits_rank, 7);
            assert(ds =~= seq!['0', '0', '0', '0', '1']);
            assert(ds.drop_last() =~= seq!['0', '0', '0', '0']);
            assert(ds.drop_last().drop_last() =~= seq!['0', '0', '0']);
            assert(ds.drop_last().drop_last().drop_last() =~= seq!['0', '0']);
            assert(ds.drop_last().drop_last().drop_last().drop_last() =~= seq!['0']);
            assert(ds.drop_last().drop_last().drop_last().drop_last().drop_last() =~= Seq::<
                char,
            >::empty());
        }
        assert(letter_index(t[0]) == 0);
    } else {
        let s = g0.suffix();
        let ds = s.subrange(1, 6);
        assert(forall|i: int| 0 <= i < ds.len() ==> is_digit_char(#[trigger] ds[i])) by {
            assert(forall|i: int| 0 <= i < 5 ==> ds[i] == #[trigger] s[i + 1]);
        }
        if !all_nines(ds) {
            let t = g1.suffix();
            assert(t == seq![s[0]] + digits_succ(ds));
            lemma_digits_succ_increases(ds);
            assert(t[0] == s[0]);
            assert(t.subrange(1, 6) =~= digits_succ(ds));
        } else {
            // the digits roll over: the letter steps up and the digits
            // restart at one
            assert(!(s[0] == 'Z')) by {
                if s[0] == 'Z' {
                    assert(g0.exhausted());
                }
            }
            let t = g1.suffix();
            assert(t =~= seq![letter_next(s[0]), '0', '0', '0', '0', '1']);
            assert(digits_rank(ds) <= 99999) by {
                lemma_digits_rank_bound5(ds);
            }
            let ds1 = t.subrange(1, 6);
            assert(digits_rank(ds1) == 1) by {
                reveal_with_fuel(digits_rank, 7);
                assert(ds1 =~= seq!['0', '0', '0', '0', '1']);
                assert(ds1.drop_last() =~= seq!['0', '0', '0', '0']);
                assert(ds1.drop_last().drop_last() =~= seq!['0', '0', '0']);
                assert(ds1.drop_last().drop_last().drop_last() =~= seq!['0', '0']);
                assert(ds1.drop_last().drop_last().drop_last().drop_last() =~= seq!['0']);
                assert(ds1.drop_last().drop_last().drop_last().drop_last().drop_last() =~= Seq::<
                    char,
                >::empty());
            }
            assert(is_upper_char(s[0]));
            assert(letter_index(letter_next(s[0])) == letter_index(s[0]) + 1);
            assert(t[0] == letter_next(s[0]));
        }
    }
}

/// One successful step of the allocator, relating the state before to
/// the state after: the first call hands the starting suffix out
/// unchanged; afterwards the letter phase counts in base 26, rolls over
/// into the numeral phase at `"A00001"`, and the numeral phase takes its
/// own successor.
pub open spec fn spec_advance(g0: UserIdGenerator, g1: UserIdGenerator) -> bool {
    &&& g1.started()
    &&& if !g0.started() {
        g1.suffix() == g0.suffix() && g1.phase() == g0.phase()
    } else if g0.phase() is Letters && !all_z(g0.suffix()) {
        g1.phase() is Letters && g1.suffix() == letter_succ(g0.suffix())
    } else if g0.phase() is Letters && all_z(g0.suffix()) {
        g1.phase() is Numerals && g1.suffix() =~= seq!['A', '0', '0', '0', '0', '1']
    } else {
        g1.phase() is Numerals && g1.suffix() == numeral_succ(g0.suffix())
    }
}

/// The process-wide suffix allocator.  Calls return the 6-character suffix;
/// combined with this server's identifier it forms a user identifier.
pub struct UserIdGenerator {
    phase: UidPhase,
    counter: Vec<char>,
    started: bool,
}

impl UserIdGenerator {
    /// The current counting phase.
    pub closed spec fn phase(self) -> UidPhase {
        self.phase
    }

    /// The counter's characters: the suffix most recently returned (or the
    /// starting suffix before the first call).
    pub closed spec fn suffix(self) -> Seq<char> {
        self.counter@
    }

    /// Whether a suffix has been handed out (or the counter set by hand)
    /// since construction.
    pub closed spec fn started(self) -> bool {
        self.started
    }

    /// Well-formedness: six characters fitting the current phase.
    pub open spec fn wf(self) -> bool {
        match self.phase() {
            UidPhase::Letters => self.suffix().len() == 6 && all_letters(self.suffix()),
            UidPhase::Numerals => numeral_form(self.suffix()),
        }
    }

    /// No suffix is left: the letter is `'Z'` and every digit is `'9'`.
    pub open spec fn exhausted(self) -> bool {
        &&& self.phase() is Numerals
        &&& self.suffix().len() == 6
        &&& self.suffix()[0] == 'Z'
        &&& all_nines(self.suffix().subrange(1, 6))
    }

    /// A fresh allocator: the first call returns `"AAAAAA"`.
    pub fn new() -> (g: UserIdGenerator)
        ensures
            g.wf(),
            g.phase() is Letters,
            !g.started(),
            g.suffix() =~= seq!['A', 'A', 'A', 'A', 'A', 'A'],
    {
        let mut counter: Vec<char> = Vec::new();
        counter.push('A');
        counter.push('A');
        counter.push('A');
        counter.push('A');
        counter.push('A');
        counter.push('A');
        UserIdGenerator { phase: UidPhase::Letters, counter, started: false }
    }

    /// Returns the next free 6-character suffix, or fails once the space is
    /// exhausted.  The counter advances monotonically and never wraps; the
    /// letter phase rolls over into the numeral phase at `"A00001"`.
    pub fn increase_user_id(&mut self) -> (r: Result<Vec<char>, UidIncreaseError>)
        requires
            old(self).wf(),
        ensures
            final(self).wf(),
            final(self).started(),
            final(self).phase() == old(self).phase() || (old(self).phase() is Letters
                && final(self).phase() is Numerals),
            // one successful step, with the new suffix handed out
            !(old(self).started() && old(self).exhausted()) ==> spec_advance(
                *old(self),
                *final(self),
            ) && r is Ok && r->Ok_0@ == final(self).suffix(),
            // before the first call, the starting suffix itself comes back
            !old(self).started() ==> r is Ok
                && r->Ok_0@ == old(self).suffix()
                && final(self).suffix() == old(self).suffix()
                && final(self).phase() == old(self).phase(),
            // letter phase short of "ZZZZZZ": the base-26 successor
            old(self).started() && old(self).phase() is Letters && !all_z(old(self).suffix())
                ==> final(self).phase() is Letters
                && final(self).suffix() == letter_succ(old(self).suffix())
                && r is Ok
                && r->Ok_0@ == final(self).suffix(),
            // letter phase at "ZZZZZZ": the numeral phase begins at "A00001"
            old(self).started() && old(self).phase() is Letters && all_z(old(self).suffix())
                ==> final(self).phase() is Numerals
                && final(self).suffix() =~= seq!['A', '0', '0', '0', '0', '1']
                && r is Ok
                && r->Ok_0@ == final(self).suffix(),
            // numeral phase, suffixes left: the numeral successor
            old(self).started() && old(self).phase() is Numerals && !old(self).exhausted()
                ==> final(self).phase() is Numerals
                && final(self).suffix() == numeral_succ(old(self).suffix())
                && r is Ok
                && r->Ok_0@ == final(self).suffix(),
            // exhausted: fails and leaves the counter where it is
            old(self).started() && old(self).exhausted() ==> r is Err
                && r->Err_0 == UidIncreaseError::UserCapReached
                && final(self).suffix() == old(self).suffix()
                && final(self).phase() == old(self).phase(),
    {
        if !self.started {
            self.started = true;
            return Ok(copy_chars(&self.counter));
        }
        match self.phase {
            UidPhase::Letters => {
                // scan for the rightmost position short of 'Z'
                let mut idx: usize = 6;
                while idx > 0 && self.counter[idx - 1] == 'Z'
                    invariant
                        idx <= 6,
                        *self == *old(self),
                        self.counter@.len() == 6,
                        forall|k: int| idx <= k < 6 ==> #[trigger] self.counter@[k] == 'Z',
                    decreases idx,
                {
                    idx -= 1;
                }
                if idx == 0 {
                    // every position is 'Z': enter the numeral phase, seeded
                    // and incremented once
                    self.phase = UidPhase::Numerals;
                    let mut seeded: Vec<char> = Vec::new();
                    seeded.push('A');
                    seeded.push('0');
                    seeded.push('0');
                    seeded.push('0');
                    seeded.push('0');
                    seeded.push('1');
                    self.counter = seeded;
                    proof {
                        assert(self.counter@ =~= seq!['A', '0', '0', '0', '0', '1']);
                        assert(all_z(old(self).counter@));
                    }
                    Ok(copy_chars(&self.counter))
                } else {
                    let j = idx - 1;
                    let bumped = letter_next_exec(self.counter[j]);
                    self.counter.set(j, bumped);
                    let mut k: usize = j + 1;
                    while k < 6
                        invariant
                            j < k <= 6,
                            j < 6,
                            self.phase == old(self).phase,
                            self.started == old(self).started,
                            self.counter@.len() == 6,
                            forall|i: int|
                                0 <= i < 6 ==> #[trigger] self.counter@[i] == (if i < j {
                                    old(self).counter@[i]
                                } else if i == j {
                                    letter_next(old(self).counter@[j as int])
                                } else if i < k {
                                    'A'
                                } else {
                                    old(self).counter@[i]
                                }),
                        decreases 6 - k,
                    {
                        self.counter.set(k, 'A');
                        k += 1;
                    }
                    proof {
                        lemma_letter_succ_closed(old(self).counter@, j as int);
                        assert(self.counter@ =~= letter_succ(old(self).counter@));
                    }
                    Ok(copy_chars(&self.counter))
                }
            },
            UidPhase::Numerals => {
                // scan for the rightmost digit short of '9'
                let mut idx: usize = 6;
                while idx > 1 && self.counter[idx - 1] == '9'
                    invariant
                        1 <= idx <= 6,
                        *self == *old(self),
                        self.counter@.len() == 6,
                        forall|k: int| idx <= k < 6 ==> #[trigger] self.counter@[k] == '9',
                    decreases idx,
                {
                    idx -= 1;
                }
                if idx == 1 {
                    // every digit is '9'
                    proof {
                        assert(all_nines(self.counter@.subrange(1, 6)));
                    }
                    if self.counter[0] == 'Z' {
                        return Err(UidIncreaseError::UserCapReached);
                    }
                    // bump the letter and restart the digits at "00001"
                    let bumped = letter_next_exec(self.counter[0]);
                    self.counter.set(0, bumped);
                    self.counter.set(1, '0');
                    self.counter.set(2, '0');
                    self.counter.set(3, '0');
                    self.counter.set(4, '0');
                    self.counter.set(5, '1');
                    proof {
                        assert(self.counter@ =~= numeral_succ(old(self).counter@));
                    }
                    Ok(copy_chars(&self.counter))
                } else {
                    let j = idx - 1;
                    let bumped = digit_next_exec(self.counter[j]);
                    self.counter.set(j, bumped);
                    let mut k: usize = j + 1;
                    while k < 6
                        invariant
                            1 <= j < k <= 6,
                            self.phase == old(self).phase,
                            self.started == old(self).started,
                            self.counter@.len() == 6,
                            forall|i: int|
                                0 <= i < 6 ==> #[trigger] self.counter@[i] == (if i < j {
                                    old(self).counter@[i]
                                } else if i == j {
                                    digit_next(old(self).counter@[j as int])
                                } else if i < k {
                                    '0'
                                } else {
                                    old(self).counter@[i]
                                }),
                        decreases 6 - k,
                    {
                        self.counter.set(k, '0');
                        k += 1;
                    }
                    proof {
                        let ds = old(self).counter@.subrange(1, 6);
                        assert(ds[j - 1] == old(self).counter@[j as int]);
                        lemma_digits_succ_closed(ds, j - 1);
                        assert(!all_nines(ds));
                        assert(self.counter@ =~= seq![old(self).counter@[0]] + digits_succ(ds));
                        assert(self.counter@ =~= numeral_succ(old(self).counter@));
                    }
                    Ok(copy_chars(&self.counter))
                }
            },
        }
    }

    /// Sets the counter by hand, as a test hook; the next call counts on
    /// from here.  The value must fit the current phase.
    pub fn manually_set_user_id(&mut self, user_id: Vec<char>)
        requires
            old(self).wf(),
            user_id@.len() == 6,
            old(self).phase() is Letters ==> all_letters(user_id@),
            old(self).phase() is Numerals ==> numeral_form(user_id@),
        ensures
            final(self).wf(),
            final(self).phase() == old(self).phase(),
            final(self).started(),
            final(self).suffix() == user_id@,
    {
        self.counter = user_id;
        self.started = true;
    }
}

} // verus!
