//! The guessing game itself: secrets, guess validation and scoring.

use rand::seq::SliceRandom;
use vstd::prelude::*;

verus! {

/// A secret is three digits, each below ten, pairwise distinct.
pub open spec fn valid_secret(s: Seq<u32>) -> bool {
    &&& s.len() == 3
    &&& forall|i: int| 0 <= i < 3 ==> s[i] < 10
    &&& s[0] != s[1]
    &&& s[0] != s[2]
    &&& s[1] != s[2]
}

/// Strikes among the first `n` positions: the guess holds the secret's digit
/// at that very position.
pub open spec fn strikes_upto(guess: Seq<u32>, secret: Seq<u32>, n: int) -> int
    decreases n,
{
    if n <= 0 {
        0
    } else {
        strikes_upto(guess, secret, n - 1) + if guess[n - 1] == secret[n - 1] {
            1int
        } else {
            0int
        }
    }
}

/// Balls among the first `n` positions: the secret's digit at a position is
/// not matched there, yet occurs somewhere in the guess. Membership is
/// tested against the whole guess, strike positions included, rather than by
/// cross-matching leftover digit pairs.
pub open spec fn balls_upto(guess: Seq<u32>, secret: Seq<u32>, n: int) -> int
    decreases n,
{
    if n <= 0 {
        0
    } else {
        balls_upto(guess, secret, n - 1) + if guess[n - 1] != secret[n - 1] && guess.contains(
            secret[n - 1],
        ) {
            1int
        } else {
            0int
        }
    }
}

/// The strike count of a whole three-digit guess.
pub open spec fn spec_strikes(guess: Seq<u32>, secret: Seq<u32>) -> int {
    strikes_upto(guess, secret, 3)
}

/// The ball count of a whole three-digit guess.
pub open spec fn spec_balls(guess: Seq<u32>, secret: Seq<u32>) -> int {
    balls_upto(guess, secret, 3)
}

/// Whether the three-element array `a` holds `d` anywhere.
fn contains_digit(a: &[u32; 3], d: u32) -> (r: bool)
    ensures
        r == a@.contains(d),
{
    let r = a[0] == d || a[1] == d || a[2] == d;
    proof {
        if a@[0] == d || a@[1] == d || a@[2] == d {
            assert(a@.contains(d));
        }
    }
    r
}

/// Scores a guess against a secret position by position: a strike where the
/// digits agree, a ball where the secret's digit occurs elsewhere in the
/// guess.
pub fn evaluate(guess: [u32; 3], secret: [u32; 3]) -> (r: (u32, u32))
    ensures
        r.0 == spec_strikes(guess@, secret@),
        r.1 == spec_balls(guess@, secret@),
        r.0 + r.1 <= 3,
{
    let mut strikes: u32 = 0;
    let mut balls: u32 = 0;
    let mut i: usize = 0;
    while i < 3
        invariant
            i <= 3,
            strikes == strikes_upto(guess@, secret@, i as int),
            balls == balls_upto(guess@, secret@, i as int),
            strikes + balls <= i,
        decreases 3 - i,
    {
        if guess[i] == secret[i] {
            strikes = strikes + 1;
        } else if contains_digit(&guess, secret[i]) {
            balls = balls + 1;
        }
        i = i + 1;
    }
    (strikes, balls)
}

/// Relies on rand's `SliceRandom::choose_multiple` (backed by
/// `rand::seq::index::sample`), which picks `amount` elements of the slice at
/// random "without repetition", that is at pairwise-distinct indices: over a
/// pool of pairwise-distinct values the three drawn values are pairwise
/// distinct, and each is an element of the pool.
#[verifier::external_body]
fn draw_three(pool: &Vec<u32>) -> (r: [u32; 3])
    requires
        pool@.len() >= 3,
        forall|i: int, j: int| 0 <= i < j < pool@.len() ==> pool@[i] != pool@[j],
    ensures
        pool@.contains(r@[0]),
        pool@.contains(r@[1]),
        pool@.contains(r@[2]),
        r@[0] != r@[1] && r@[0] != r@[2] && r@[1] != r@[2],
{
    let mut rng = rand::thread_rng();
    let drawn: Vec<u32> = pool.choose_multiple(&mut rng, 3).cloned().collect();
    [drawn[0], drawn[1], drawn[2]]
}

/// Draws a fresh secret uniformly at random: three distinct digits below
/// ten, in the order drawn.
pub fn generate() -> (r: [u32; 3])
    ensures
        valid_secret(r@),
{
    let mut pool: Vec<u32> = Vec::new();
    let mut d: u32 = 0;
    while d < 10
        invariant
            d <= 10,
            pool@.len() == d,
            forall|i: int| 0 <= i < pool@.len() ==> #[trigger] pool@[i] == i,
        decreases 10 - d,
    {
        pool.push(d);
        d = d + 1;
    }
    draw_three(&pool)
}

/// Whether `c` is an ASCII decimal digit.
pub open spec fn is_digit_char(c: char) -> bool {
    '0' as u32 <= c as u32 && c as u32 <= '9' as u32
}

/// The numeric value of an ASCII decimal digit.
pub open spec fn digit_of(c: char) -> u32
    recommends
        is_digit_char(c),
{
    (c as u32 - '0' as u32) as u32
}

/// A well-formed guess text: exactly three characters, all decimal digits.
pub open spec fn valid_guess_text(s: Seq<char>) -> bool {
    s.len() == 3 && forall|i: int| 0 <= i < s.len() ==> is_digit_char(#[trigger] s[i])
}

/// The digits a guess text denotes, position by position.
pub open spec fn digits_of(s: Seq<char>) -> Seq<u32> {
    s.map_values(|c: char| digit_of(c))
}

/// Why a guess text was rejected.
#[derive(Clone, Copy, PartialEq, Eq, Structural, Debug)]
pub enum ValidationError {
    /// The text is not exactly three decimal digits.
    MalformedGuess,
}

/// The outcome of scoring one validated guess.
#[derive(Clone, Copy, PartialEq, Eq, Structural, Debug)]
pub enum GuessResult {
    /// The guess equals the secret digit for digit.
    Correct,
    /// The guess misses: the strike/ball report to show the player.
    Incorrect { strikes: u32, balls: u32 },
}

/// One play-through: owns the secret until the player guesses it.
#[derive(Clone, Copy)]
pub struct GameSession {
    pub secret: [u32; 3],
}

impl GameSession {
    /// Opens a session around a freshly drawn secret.
    pub fn new() -> (s: Self)
        ensures
            valid_secret(s.secret@),
    {
        GameSession { secret: generate() }
    }

    /// Accepts exactly the three-character all-digit texts; anything else is
    /// a malformed guess, to be re-prompted without consuming a turn.
    pub fn validate<'a>(&self, input: &'a str) -> (r: Result<&'a str, ValidationError>)
        ensures
            r is Ok <==> valid_guess_text(input@),
            r matches Ok(v) ==> v@ == input@,
            r is Err ==> r == Err::<&'a str, ValidationError>(ValidationError::MalformedGuess),
    {
        let n = input.unicode_len();
        if n != 3 {
            return Err(ValidationError::MalformedGuess);
        }
        let mut i: usize = 0;
        while i < 3
            invariant
                input@.len() == 3,
                i <= 3,
                forall|j: int| 0 <= j < i ==> is_digit_char(#[trigger] input@[j]),
            decreases 3 - i,
        {
            let c = input.get_char(i);
            if !(c as u32 >= '0' as u32 && c as u32 <= '9' as u32) {
                return Err(ValidationError::MalformedGuess);
            }
            i = i + 1;
        }
        Ok(input)
    }

    /// Reads a validated guess text into its three digits.
    pub fn parse_guess(input: &str) -> (r: [u32; 3])
        requires
            valid_guess_text(input@),
        ensures
            r@ == digits_of(input@),
    {
        let mut r: [u32; 3] = [0; 3];
        let mut i: usize = 0;
        while i < 3
            invariant
                valid_guess_text(input@),
                i <= 3,
                r@.len() == 3,
                forall|j: int| 0 <= j < i ==> r@[j] == digit_of(input@[j]),
            decreases 3 - i,
        {
            let c = input.get_char(i);
            r[i] = c as u32 - '0' as u32;
            i = i + 1;
        }
        proof {
            assert(r@ =~= digits_of(input@));
        }
        r
    }

    /// Scores a validated guess: `Correct` exactly when the guess equals the
    /// secret digit for digit, else the evaluator's strike/ball report.
    pub fn check_answer(&self, input: &str) -> (r: GuessResult)
        requires
            valid_guess_text(input@),
        ensures
            (r is Correct) <==> digits_of(input@) =~= self.secret@,
            r matches GuessResult::Incorrect { strikes, balls } ==> strikes == spec_strikes(
                digits_of(input@),
                self.secret@,
            ) && balls == spec_balls(digits_of(input@), self.secret@),
    {
        let arr = Self::parse_guess(input);
        if arr[0] == self.secret[0] && arr[1] == self.secret[1] && arr[2] == self.secret[2] {
            proof {
                assert(arr@ =~= self.secret@);
            }
            GuessResult::Correct
        } else {
            let (strikes, balls) = evaluate(arr, self.secret);
            proof {
                assert(!(arr@ =~= self.secret@));
            }
            GuessResult::Incorrect { strikes, balls }
        }
    }
}

/// A guess identical to the secret scores three strikes and no balls.
pub proof fn lemma_exact_guess(secret: Seq<u32>)
    requires
        valid_secret(secret),
    ensures
        spec_strikes(secret, secret) == 3,
        spec_balls(secret, secret) == 0,
{
    reveal_with_fuel(strikes_upto, 4);
    reveal_with_fuel(balls_upto, 4);
}

/// A guess that rearranges the secret's digits with none left in its
/// original position scores no strikes and three balls.
pub proof fn lemma_derangement(guess: Seq<u32>, secret: Seq<u32>)
    requires
        valid_secret(secret),
        guess.len() == 3,
        guess.to_multiset() == secret.to_multiset(),
        forall|i: int| 0 <= i < 3 ==> guess[i] != secret[i],
    ensures
        spec_strikes(guess, secret) == 0,
        spec_balls(guess, secret) == 3,
{
    broadcast use vstd::seq_lib::group_to_multiset_ensures;

    assert(secret.contains(secret[0]));
    assert(secret.contains(secret[1]));
    assert(secret.contains(secret[2]));
    assert(guess.to_multiset().count(secret[0]) > 0);
    assert(guess.to_multiset().count(secret[1]) > 0);
    assert(guess.to_multiset().count(secret[2]) > 0);
    assert(guess.contains(secret[0]));
    assert(guess.contains(secret[1]));
    assert(guess.contains(secret[2]));
    reveal_with_fuel(strikes_upto, 4);
    reveal_with_fuel(balls_upto, 4);
}

} // verus!
