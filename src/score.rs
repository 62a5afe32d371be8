use vstd::prelude::*;

use crate::geometry::MAX_EXTENT;

verus! {

/// Decimal digits of `n`, most significant first, with no leading zero
/// (zero itself is the single digit 0).
pub open spec fn decimal_digits(n: nat) -> Seq<u8>
    decreases n,
{
    if n < 10 {
        seq![n as u8]
    } else {
        decimal_digits(n / 10).push((n % 10) as u8)
    }
}

/// Where the digit at `idx` of a `count`-digit number is drawn on a screen
/// `screen_width` wide: the row of digits is centered, and each digit is
/// offset by whole digit widths and by `gap` for each digit before the
/// previous one.
pub open spec fn digit_x(screen_width: int, digit_width: int, gap: int, count: int, idx: int) -> int {
    let total = count * digit_width + gap * (count - 1);
    screen_width / 2 - total / 2 + digit_width * idx + gap * (idx - 1)
}

/// Most digits that a `usize` has in decimal.
pub const MAX_DIGITS: usize = 20;

/// The player's score and where its digits are drawn.
#[derive(Clone, Copy, Debug, PartialEq, Eq, Structural)]
pub struct Score {
    pub score: usize,
    pub digit_width: i64,
    pub pos_y: i64,
    pub gap: i64,
    pub height: i64,
    pub width: i64,
}

impl Score {
    /// Layout sizes lie within the range of the screen.
    pub open spec fn wf(self) -> bool {
        &&& 0 <= self.digit_width <= MAX_EXTENT
        &&& 0 <= self.gap <= MAX_EXTENT
        &&& 0 <= self.height <= MAX_EXTENT
        &&& 0 <= self.width <= MAX_EXTENT
        &&& -MAX_EXTENT <= self.pos_y <= MAX_EXTENT
    }

    /// A score of zero drawn at height `starting_y_pos`, each digit `width`
    /// by `height` and advancing by `digit_width`.
    pub fn new(starting_y_pos: i64, gap: i64, height: i64, width: i64, digit_width: i64) -> (r: Score)
        ensures
            r.score == 0,
            r.pos_y == starting_y_pos,
            r.gap == gap,
            r.height == height,
            r.width == width,
            r.digit_width == digit_width,
    {
        Score { score: 0, digit_width, pos_y: starting_y_pos, gap, height, width }
    }

    /// The score one point higher.
    pub open spec fn incremented(self) -> Score {
        Score { score: (self.score + 1) as usize, ..self }
    }

    /// The score one point lower.
    pub open spec fn decremented(self) -> Score {
        Score { score: (self.score - 1) as usize, ..self }
    }

    /// The score after `n` increments.
    pub open spec fn incremented_times(self, n: nat) -> Score
        decreases n,
    {
        if n == 0 {
            self
        } else {
            self.incremented_times((n - 1) as nat).incremented()
        }
    }

    pub fn increment_score(&mut self)
        requires
            old(self).score < usize::MAX,
        ensures
            final(self).score == old(self).score + 1,
            *final(self) == old(self).incremented(),
    {
        self.score = self.score + 1;
    }

    pub fn decrement_score(&mut self)
        requires
            old(self).score > 0,
        ensures
            final(self).score == old(self).score - 1,
            *final(self) == old(self).decremented(),
    {
        self.score = self.score - 1;
    }

    pub fn set_score(&mut self, new_score: usize)
        ensures
            final(self).score == new_score,
            *final(self) == (Score { score: new_score, ..*old(self) }),
    {
        self.score = new_score;
    }

    pub fn get_score(&self) -> (r: usize)
        ensures
            r == self.score,
    {
        self.score
    }

    /// The decimal digits of the score, most significant first.
    pub fn digits(&self) -> (r: Vec<u8>)
        ensures
            r@ == decimal_digits(self.score as nat),
            r@.len() <= MAX_DIGITS,
    {
        let n = self.score;
        let mut v: Vec<u8> = vec![(n % 10) as u8];
        let mut m: usize = n / 10;
        proof {
            lemma_digits_len(n as nat);
            if m == 0 {
                assert(v@ =~= decimal_digits(n as nat));
            } else {
                assert(v@ =~= seq![(n % 10) as u8]);
            }
        }
        while m > 0
            invariant
                m > 0 ==> decimal_digits(n as nat) == decimal_digits(m as nat) + v@,
                m == 0 ==> decimal_digits(n as nat) == v@,
                decimal_digits(n as nat).len() <= MAX_DIGITS,
            decreases m,
        {
            let ghost old_v = v@;
            v.insert(0, (m % 10) as u8);
            proof {
                if m >= 10 {
                    assert(decimal_digits(m as nat) == decimal_digits((m / 10) as nat).push(
                        (m % 10) as u8,
                    ));
                    assert(decimal_digits((m / 10) as nat) + v@ =~= decimal_digits(m as nat)
                        + old_v);
                } else {
                    assert(v@ =~= decimal_digits(m as nat) + old_v);
                }
            }
            m = m / 10;
        }
        v
    }

    /// The left edge of each digit of the score when drawn on a screen
    /// `screen_width` wide, in the order of `digits`.
    pub fn digit_positions(&self, screen_width: i64) -> (r: Vec<i64>)
        requires
            self.wf(),
            0 <= screen_width <= MAX_EXTENT,
        ensures
            r@.len() == decimal_digits(self.score as nat).len(),
            forall|i: int|
                0 <= i < r@.len() ==> r@[i] == digit_x(
                    screen_width as int,
                    self.digit_width as int,
                    self.gap as int,
                    r@.len() as int,
                    i,
                ),
    {
        let count: usize = self.digits().len();
        let n: i64 = count as i64;
        assert(0 <= n * self.digit_width <= MAX_DIGITS * MAX_EXTENT) by (nonlinear_arith)
            requires 0 <= n <= MAX_DIGITS, 0 <= self.digit_width <= MAX_EXTENT;
        assert(0 <= self.gap * (n - 1) <= MAX_DIGITS * MAX_EXTENT) by (nonlinear_arith)
            requires 1 <= n <= MAX_DIGITS, 0 <= self.gap <= MAX_EXTENT;
        let total: i64 = n * self.digit_width + self.gap * (n - 1);
        let start: i64 = screen_width / 2 - total / 2;
        let mut r: Vec<i64> = Vec::new();
        let mut i: usize = 0;
        while i < count
            invariant
                0 <= i <= count <= MAX_DIGITS,
                count >= 1,
                n == count,
                self.wf(),
                0 <= screen_width <= MAX_EXTENT,
                total == n * self.digit_width + self.gap * (n - 1),
                start == screen_width / 2 - total / 2,
                -MAX_DIGITS * MAX_EXTENT <= start <= MAX_EXTENT,
                r@.len() == i,
                forall|j: int|
                    0 <= j < i ==> r@[j] == digit_x(
                        screen_width as int,
                        self.digit_width as int,
                        self.gap as int,
                        count as int,
                        j,
                    ),
            decreases count - i,
        {
            let k: i64 = i as i64;
            assert(0 <= self.digit_width * k <= MAX_DIGITS * MAX_EXTENT) by (nonlinear_arith)
                requires 0 <= k <= MAX_DIGITS, 0 <= self.digit_width <= MAX_EXTENT;
            assert(-MAX_EXTENT <= self.gap * (k - 1) <= MAX_DIGITS * MAX_EXTENT) by (nonlinear_arith)
                requires 0 <= k <= MAX_DIGITS, 0 <= self.gap <= MAX_EXTENT;
            r.push(start + self.digit_width * k + self.gap * (k - 1));
            i = i + 1;
        }
        r
    }
}

/// Counting up from zero: after `n` increments the score is `n`.
pub proof fn lemma_increments_count(s: Score, n: nat)
    requires
        s.score == 0,
        n <= usize::MAX,
    ensures
        s.incremented_times(n).score == n,
    decreases n,
{
    if n > 0 {
        lemma_increments_count(s, (n - 1) as nat);
    }
}

/// An increment followed by a decrement gives back the score it started from.
pub proof fn lemma_increment_then_decrement(s: Score)
    requires
        s.score < usize::MAX,
    ensures
        s.incremented().decremented() == s,
{
}

/// The decimal digits of a `usize` are at most twenty.
proof fn lemma_digits_len(n: nat)
    requires
        n <= usize::MAX,
    ensures
        decimal_digits(n).len() <= MAX_DIGITS,
{
    reveal_with_fuel(pow10, 21);
    assert(pow10(20) == 100_000_000_000_000_000_000nat);
    lemma_digits_len_bound(n, 20);
}

proof fn lemma_digits_len_bound(n: nat, k: nat)
    requires
        k >= 1,
        n < pow10(k),
    ensures
        decimal_digits(n).len() <= k,
    decreases n,
{
    if n >= 10 {
        let p = pow10((k - 1) as nat);
        assert(k >= 2) by {
            if k == 1 {
                assert(pow10(0) == 1);
            }
        }
        assert(n / 10 < p) by (nonlinear_arith)
            requires n < 10 * p;
        lemma_digits_len_bound(n / 10, (k - 1) as nat);
    }
}

spec fn pow10(k: nat) -> nat
    decreases k,
{
    if k == 0 {
        1
    } else {
        10 * pow10((k - 1) as nat)
    }
}

} // verus!
