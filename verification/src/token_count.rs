//! The tokens that a session has used, and how the count is written.

use crate::input::TranscriptEntry;
use crate::text::{decimal, decimal_string, digit, digit_str};
use vstd::prelude::*;

verus! {

/// A count of tokens.
pub struct TokenCount(u64);

impl View for TokenCount {
    type V = nat;

    closed spec fn view(&self) -> nat {
        self.0 as nat
    }
}

impl std::ops::Deref for TokenCount {
    type Target = u64;

    fn deref(&self) -> (r: &u64)
        ensures
            *r == self@,
    {
        &self.0
    }
}

impl Default for TokenCount {
    fn default() -> (r: Self)
        ensures
            r@ == 0,
    {
        TokenCount(0)
    }
}

/// The integer nearest to `num / den`; a value halfway between two integers
/// goes to the even one.
pub open spec fn round_half_even(num: nat, den: nat) -> nat
    recommends
        den > 0,
{
    let q = num / den;
    let r = num % den;
    if 2 * r < den || (2 * r == den && q % 2 == 0) {
        q
    } else {
        q + 1
    }
}

/// No integer is nearer to `num / den` than [`round_half_even`]: the two
/// are at most a half apart.
pub proof fn lemma_round_half_even_is_nearest(num: nat, den: nat)
    requires
        den > 0,
    ensures
        2 * num - den <= 2 * (round_half_even(num, den) * den) <= 2 * num + den,
{
    let q = num / den;
    let r = num % den;
    assert(num == q * den + r && 0 <= r < den) by {
        vstd::arithmetic::div_mod::lemma_fundamental_div_mod(num as int, den as int);
        vstd::arithmetic::div_mod::lemma_mod_bound(num as int, den as int);
        vstd::arithmetic::mul::lemma_mul_is_commutative(q as int, den as int);
    }
    assert((q + 1) * den == q * den + den) by (nonlinear_arith);
}

/// A number of tenths, written with one digit after the point.
pub open spec fn one_decimal(tenths: nat) -> Seq<char> {
    decimal(tenths / 10) + seq!['.', digit(tenths % 10)]
}

/// How a count is written: in millions with an `M` from a million on, in
/// thousands with a `K` from a thousand on, in full below that. Millions
/// and thousands are rounded to the nearest tenth, in exact arithmetic.
pub open spec fn token_text(n: nat) -> Seq<char> {
    if n >= 1_000_000 {
        one_decimal(round_half_even(n, 100_000)).push('M')
    } else if n >= 1_000 {
        one_decimal(round_half_even(n, 100)).push('K')
    } else {
        decimal(n)
    }
}

/// What one line of a transcript counts for: the total usage of the entry
/// decoded from it, if that is an assistant entry with usage. A line that
/// gave no entry counts for nothing.
pub open spec fn line_usage(line: Option<TranscriptEntry>) -> Option<nat> {
    match line {
        Some(entry) => entry.counted_usage(),
        None => None,
    }
}

/// The usage that the lines of a transcript end on: that of the last line
/// that counts, and 0 where none does. Later entries report running
/// totals, so nothing is added up.
pub open spec fn last_usage(lines: Seq<Option<TranscriptEntry>>) -> nat
    decreases lines.len(),
{
    if lines.len() == 0 {
        0
    } else {
        match line_usage(lines.last()) {
            Some(total) => total,
            None => last_usage(lines.drop_last()),
        }
    }
}

/// What a transcript comes to: the usage that its lines end on, and 0 for a
/// transcript that could not be read.
pub open spec fn transcript_usage(transcript: Option<Vec<Option<TranscriptEntry>>>) -> nat {
    match transcript {
        Some(lines) => last_usage(lines@),
        None => 0,
    }
}

/// The usage that a transcript ends on is that of the line after which no
/// line counts.
pub proof fn lemma_last_usage_found(lines: Seq<Option<TranscriptEntry>>, i: int)
    requires
        0 <= i < lines.len(),
        line_usage(lines[i]) is Some,
        forall|j: int| i < j < lines.len() ==> line_usage(#[trigger] lines[j]) is None,
    ensures
        line_usage(lines[i]) == Some(last_usage(lines)),
    decreases lines.len(),
{
    if i < lines.len() - 1 {
        lemma_last_usage_found(lines.drop_last(), i);
    }
}

/// A transcript in which no line counts ends on 0.
pub proof fn lemma_last_usage_none(lines: Seq<Option<TranscriptEntry>>)
    requires
        forall|j: int| 0 <= j < lines.len() ==> line_usage(#[trigger] lines[j]) is None,
    ensures
        last_usage(lines) == 0,
    decreases lines.len(),
{
    if lines.len() > 0 {
        lemma_last_usage_none(lines.drop_last());
    }
}

/// A line that does not count changes nothing, wherever it stands: so a
/// line that could not be decoded, an entry of another kind than the
/// assistant's, and an entry without usage.
pub proof fn lemma_uncounted_line_ignored(
    lines: Seq<Option<TranscriptEntry>>,
    i: int,
    other: Option<TranscriptEntry>,
)
    requires
        0 <= i <= lines.len(),
        line_usage(other) is None,
    ensures
        last_usage(lines.insert(i, other)) == last_usage(lines),
    decreases lines.len(),
{
    let with = lines.insert(i, other);
    if i == lines.len() {
        assert(with.drop_last() =~= lines);
    } else {
        assert(with.drop_last() =~= lines.drop_last().insert(i, other));
        lemma_uncounted_line_ignored(lines.drop_last(), i, other);
    }
}

fn nearest(num: u64, den: u64) -> (r: u64)
    requires
        2 <= den <= 1_000_000,
    ensures
        r == round_half_even(num as nat, den as nat),
{
    let q = num / den;
    let r = num % den;
    assert(q < u64::MAX) by (nonlinear_arith)
        requires
            q == num as int / den as int,
            den >= 2,
            num <= u64::MAX,
    ;
    if 2 * r < den || (2 * r == den && q % 2 == 0) {
        q
    } else {
        q + 1
    }
}

fn one_decimal_string(tenths: u64) -> (r: String)
    ensures
        r@ == one_decimal(tenths as nat),
{
    proof {
        reveal_strlit(".");
    }
    let mut out = decimal_string(tenths / 10);
    out.append(".");
    out.append(digit_str(tenths % 10));
    assert(out@ =~= one_decimal(tenths as nat));
    out
}

impl TokenCount {
    pub fn new(count: u64) -> (r: Self)
        ensures
            r@ == count,
    {
        TokenCount(count)
    }

    /// The lines whose usage can be held: the usage of every assistant
    /// entry among them comes to no more than a `u64` holds.
    pub open spec fn lines_summable(lines: Seq<Option<TranscriptEntry>>) -> bool {
        forall|i: int|
            0 <= i < lines.len() ==> ((#[trigger] lines[i]) matches Some(entry)
                ==> entry.assistant() ==> entry.usage_in_range())
    }

    /// The transcripts whose usage can be held: see [`Self::lines_summable`].
    pub open spec fn summable(transcript: Option<Vec<Option<TranscriptEntry>>>) -> bool {
        transcript matches Some(lines) ==> Self::lines_summable(lines@)
    }

    /// Tests [`Self::summable`].
    pub fn is_summable(transcript: &Option<Vec<Option<TranscriptEntry>>>) -> (r: bool)
        ensures
            r == Self::summable(*transcript),
    {
        let lines = match transcript {
            Some(lines) => lines,
            None => {
                return true;
            },
        };
        let mut i: usize = 0;
        while i < lines.len()
            invariant
                *transcript == Some(*lines),
                i <= lines@.len(),
                Self::lines_summable(lines@.take(i as int)),
            decreases lines@.len() - i,
        {
            if let Some(entry) = &lines[i] {
                if entry.is_assistant() && !entry.usage_fits() {
                    return false;
                }
            }
            assert(Self::lines_summable(lines@.take(i + 1))) by {
                assert(forall|j: int| 0 <= j < i ==> lines@.take(i + 1)[j] == lines@.take(i as int)[j]);
            }
            i = i + 1;
        }
        assert(lines@.take(i as int) =~= lines@);
        true
    }

    /// Reduces what was read of a transcript to the count it ends on.
    ///
    /// `transcript` is `None` where the file could not be read. Else it
    /// holds one item for each line, in file order: the entry decoded from
    /// the line, or `None` for a line that could not be decoded.
    pub fn aggregate(transcript: Option<Vec<Option<TranscriptEntry>>>) -> (r: Self)
        requires
            Self::summable(transcript),
        ensures
            r@ == transcript_usage(transcript),
            transcript is None ==> r@ == 0,
    {
        let mut rest = match transcript {
            Some(lines) => lines,
            None => {
                return TokenCount(0);
            },
        };
        let ghost lines = rest@;
        loop
            invariant
                transcript_usage(transcript) == last_usage(lines),
                last_usage(rest@) == last_usage(lines),
                Self::lines_summable(rest@),
            decreases rest@.len(),
        {
            match rest.pop() {
                None => {
                    return TokenCount(0);
                },
                Some(line) => {
                    if let Some(entry) = line {
                        if entry.is_assistant() {
                            if let Some(total) = entry.usage() {
                                return TokenCount(total);
                            }
                        }
                    }
                },
            }
        }
    }

    /// The count as the status line shows it.
    pub fn to_string(&self) -> (r: String)
        ensures
            r@ == token_text(self@),
    {
        let n = self.0;
        if n >= 1_000_000 {
            proof {
                reveal_strlit("M");
            }
            let mut out = one_decimal_string(nearest(n, 100_000));
            out.append("M");
            assert(out@ =~= token_text(n as nat));
            out
        } else if n >= 1_000 {
            proof {
                reveal_strlit("K");
            }
            let mut out = one_decimal_string(nearest(n, 100));
            out.append("K");
            assert(out@ =~= token_text(n as nat));
            out
        } else {
            decimal_string(n)
        }
    }
}

} // verus!
