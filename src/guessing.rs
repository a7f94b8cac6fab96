use rand::Rng;
use vstd::prelude::*;

verus! {

/// The smallest number the game may pick.
pub const LOWEST: u32 = 1;

/// The largest number the game may pick.
pub const HIGHEST: u32 = 100;

/// An ASCII decimal digit.
pub open spec fn is_digit(c: char) -> bool {
    '0' <= c <= '9'
}

/// The number written by the decimal digits `d`, most significant first.
pub open spec fn digits_value(d: Seq<char>) -> int
    decreases d.len(),
{
    if d.len() == 0 {
        0
    } else {
        10 * digits_value(d.drop_last()) + (d.last() as int - '0' as int)
    }
}

/// `s` without the one leading `+` that it may carry.
pub open spec fn unsigned_digits(s: Seq<char>) -> Seq<char> {
    if s.len() > 0 && s[0] == '+' {
        s.drop_first()
    } else {
        s
    }
}

/// The `u32` that `s` spells in decimal: an optional `+`, then one or more
/// digits, with a value that fits. Anything else spells none.
pub open spec fn decimal_u32(s: Seq<char>) -> Option<u32> {
    let d = unsigned_digits(s);
    if d.len() > 0 && (forall|i: int| 0 <= i < d.len() ==> is_digit(#[trigger] d[i]))
        && digits_value(d) <= u32::MAX {
        Some(digits_value(d) as u32)
    } else {
        None
    }
}

proof fn lemma_digits_value_nonneg(d: Seq<char>)
    requires
        forall|i: int| 0 <= i < d.len() ==> is_digit(#[trigger] d[i]),
    ensures
        digits_value(d) >= 0,
    decreases d.len(),
{
    if d.len() > 0 {
        lemma_digits_value_nonneg(d.drop_last());
    }
}

/// A prefix of a run of digits is worth no more than the whole run.
proof fn lemma_digits_prefix_le(d: Seq<char>, k: int)
    requires
        forall|i: int| 0 <= i < d.len() ==> is_digit(#[trigger] d[i]),
        0 <= k <= d.len(),
    ensures
        digits_value(d.subrange(0, k)) <= digits_value(d),
    decreases d.len(),
{
    if k == d.len() {
        assert(d.subrange(0, k) =~= d);
    } else {
        let p = d.drop_last();
        lemma_digits_value_nonneg(p);
        lemma_digits_prefix_le(p, k);
        assert(p.subrange(0, k) =~= d.subrange(0, k));
    }
}

/// Reads `s` as a decimal `u32` the way `str::parse` does: an optional `+`
/// followed by digits only, with no room for surrounding whitespace.
pub fn parse_decimal(s: &str) -> (r: Option<u32>)
    ensures
        r == decimal_u32(s@),
{
    let n = s.unicode_len();
    let start: usize = if n > 0 && s.get_char(0) == '+' {
        1
    } else {
        0
    };
    let ghost d = unsigned_digits(s@);
    assert(d =~= s@.subrange(start as int, n as int));
    if start == n {
        return None;
    }
    let mut i: usize = start;
    let mut acc: u32 = 0;
    while i < n
        invariant
            n == s@.len(),
            start <= i <= n,
            d == unsigned_digits(s@),
            d == s@.subrange(start as int, n as int),
            forall|j: int| 0 <= j < i - start ==> is_digit(#[trigger] d[j]),
            acc == digits_value(d.subrange(0, i - start)),
        decreases n - i,
    {
        let c = s.get_char(i);
        if !('0' <= c && c <= '9') {
            assert(!is_digit(d[i - start]));
            return None;
        }
        let ghost prefix = d.subrange(0, i - start + 1);
        assert(prefix.drop_last() =~= d.subrange(0, i - start));
        let next: u64 = acc as u64 * 10 + (c as u32 - '0' as u32) as u64;
        if next > u32::MAX as u64 {
            proof {
                if forall|j: int| 0 <= j < d.len() ==> is_digit(#[trigger] d[j]) {
                    lemma_digits_prefix_le(d, i - start + 1);
                }
            }
            return None;
        }
        acc = next as u32;
        i = i + 1;
    }
    assert(d.subrange(0, n - start) =~= d);
    Some(acc)
}

/// How a guess compares with the secret number.
#[derive(Debug, Clone, Copy, PartialEq, Eq, Structural)]
pub enum Verdict {
    TooSmall,
    TooBig,
    Win,
}

/// How `guess` compares with `secret`.
pub open spec fn verdict_of(guess: u32, secret: u32) -> Verdict {
    if guess < secret {
        Verdict::TooSmall
    } else if guess > secret {
        Verdict::TooBig
    } else {
        Verdict::Win
    }
}

/// Compares `guess` with `secret`.
pub fn judge(guess: u32, secret: u32) -> (r: Verdict)
    ensures
        r == verdict_of(guess, secret),
{
    if guess < secret {
        Verdict::TooSmall
    } else if guess > secret {
        Verdict::TooBig
    } else {
        Verdict::Win
    }
}

/// The answer to a line of input: nothing when the line holds no number,
/// else the number read and how it compares with the secret.
pub open spec fn outcome_of(parsed: Option<u32>, secret: u32) -> Option<(u32, Verdict)> {
    match parsed {
        Some(g) => Some((g, verdict_of(g, secret))),
        None => None,
    }
}

/// A character of the Unicode White_Space property.
pub open spec fn is_white_space(c: char) -> bool {
    let u = c as u32;
    ||| 0x09 <= u <= 0x0d
    ||| u == 0x20
    ||| u == 0x85
    ||| u == 0xa0
    ||| u == 0x1680
    ||| 0x2000 <= u <= 0x200a
    ||| u == 0x2028
    ||| u == 0x2029
    ||| u == 0x202f
    ||| u == 0x205f
    ||| u == 0x3000
}

/// `s` without its leading White_Space characters.
pub open spec fn trim_start_chars(s: Seq<char>) -> Seq<char>
    decreases s.len(),
{
    if s.len() > 0 && is_white_space(s[0]) {
        trim_start_chars(s.drop_first())
    } else {
        s
    }
}

/// `s` without its trailing White_Space characters.
pub open spec fn trim_end_chars(s: Seq<char>) -> Seq<char>
    decreases s.len(),
{
    if s.len() > 0 && is_white_space(s.last()) {
        trim_end_chars(s.drop_last())
    } else {
        s
    }
}

/// `s` without its leading and trailing White_Space characters.
pub open spec fn trimmed(s: Seq<char>) -> Seq<char> {
    trim_end_chars(trim_start_chars(s))
}

/// Relies on `str::trim`: the text without its leading and trailing
/// whitespace, as the Unicode White_Space property defines it.
#[verifier::external_body]
fn trim_whitespace<'a>(s: &'a str) -> (r: &'a str)
    ensures
        r@ == trimmed(s@),
{
    s.trim()
}

/// Relies on rand's `Rng::gen_range` over the thread-local generator: a value
/// drawn from `low..=high`. It panics on an empty range, which `requires`
/// rules out, and when the system's entropy source fails, which no argument
/// can rule out.
#[verifier::external_body]
fn draw_between(low: u32, high: u32) -> (r: u32)
    requires
        low <= high,
    ensures
        low <= r <= high,
{
    rand::thread_rng().gen_range(low..=high)
}

/// One round of guessing a secret number between `LOWEST` and `HIGHEST`.
pub struct Game {
    secret: u32,
}

impl Game {
    /// The number to be guessed.
    pub closed spec fn secret_number(&self) -> u32 {
        self.secret
    }

    /// The secret lies between `LOWEST` and `HIGHEST`.
    pub open spec fn wf(&self) -> bool {
        LOWEST <= self.secret_number() <= HIGHEST
    }

    /// A game whose secret is drawn at random.
    pub fn new() -> (g: Game)
        ensures
            g.wf(),
    {
        Game { secret: draw_between(LOWEST, HIGHEST) }
    }

    /// A game with a chosen secret.
    pub fn with_secret(secret: u32) -> (g: Game)
        requires
            LOWEST <= secret <= HIGHEST,
        ensures
            g.secret_number() == secret,
            g.wf(),
    {
        Game { secret }
    }

    /// The number to be guessed.
    pub fn secret(&self) -> (r: u32)
        ensures
            r == self.secret_number(),
    {
        self.secret
    }

    /// The answer to `input`, taken as it stands (no whitespace is removed).
    pub fn answer(&self, input: &str) -> (r: Option<(u32, Verdict)>)
        ensures
            r == outcome_of(decimal_u32(input@), self.secret_number()),
    {
        match parse_decimal(input) {
            Some(g) => Some((g, judge(g, self.secret))),
            None => None,
        }
    }

    /// The answer to a raw input line, read once its surrounding whitespace is removed.
    pub fn respond(&self, line: &str) -> (r: Option<(u32, Verdict)>)
        ensures
            r == outcome_of(decimal_u32(trimmed(line@)), self.secret_number()),
    {
        self.answer(trim_whitespace(line))
    }
}

} // verus!
