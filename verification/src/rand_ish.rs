//! Random text for names that have to be unlikely to collide.
//!
//! [`SimpleRng`] is a linear congruential generator for reproducible streams. [`UrandomStr`]
//! turns bytes of some other source of randomness into text of the same kind.
use vstd::prelude::*;

verus! {

/// The factor by which each draw of [`SimpleRng`] multiplies its state.
pub const MULTIPLIER: u64 = 6364136223846793005;

/// What each draw of [`SimpleRng`] adds to the product.
pub const INCREMENT: u64 = 1442695040888963407;

/// The characters that random text is made of, in the order in which samples index them.
pub open spec fn alphabet() -> Seq<char> {
    "ABCDEFGHIJKLMNOPQRSTUVWXYZabcdefghijklmnopqrstuvwxyz0123456789"@
}

/// Whether `c` is an ASCII letter or digit.
pub open spec fn is_ascii_alphanumeric(c: char) -> bool {
    'A' <= c <= 'Z' || 'a' <= c <= 'z' || '0' <= c <= '9'
}

/// The character that the byte `b` samples. Bytes from four times the alphabet's size on are
/// thrown away: they would favour the first characters.
pub open spec fn sample(b: u8) -> Option<char> {
    if b < 4 * 62 {
        Some(alphabet()[b as int % 62])
    } else {
        None
    }
}

/// The characters that the bytes of `bytes` sample, in order.
pub open spec fn samples(bytes: Seq<u8>) -> Seq<char>
    decreases bytes.len(),
{
    if bytes.len() == 0 {
        Seq::empty()
    } else {
        match sample(bytes.last()) {
            Some(c) => samples(bytes.drop_last()).push(c),
            None => samples(bytes.drop_last()),
        }
    }
}

/// Uniformly samples the ASCII alphanumeric characters given a random byte. If the byte can not
/// be used to uniformly sample, `None` is returned.
pub fn uniform_sample_ascii_alphanumeric(b: u8) -> (r: Option<char>)
    ensures
        r == sample(b),
        b >= 248 ==> r is None,
        b < 248 ==> r is Some && is_ascii_alphanumeric(r->0),
{
    proof {
        lemma_alphabet();
        reveal_strlit("ABCDEFGHIJKLMNOPQRSTUVWXYZabcdefghijklmnopqrstuvwxyz0123456789");
    }
    let ascii_chars: &str = "ABCDEFGHIJKLMNOPQRSTUVWXYZabcdefghijklmnopqrstuvwxyz0123456789";
    let char_index: usize = b as usize;
    if char_index >= 62 * 4 {
        None
    } else {
        Some(ascii_chars.get_char(char_index % 62))
    }
}

/// The state that follows `seed`.
pub open spec fn lcg(seed: u64) -> u64 {
    ((MULTIPLIER * seed + INCREMENT) % 0x1_0000_0000_0000_0000) as u64
}

/// The low byte of a draw, from which a character is sampled.
pub open spec fn low_byte(v: u64) -> u8 {
    (v % 256) as u8
}

/// The text of length `len` that a generator in state `seed` produces, and the state that this
/// leaves it in.
pub open spec fn random_text(seed: u64, len: nat) -> (Seq<char>, u64)
    decreases 2 * len + (if sample(low_byte(lcg(seed))) is Some { 0int } else { 1int }),
{
    proof {
        lemma_rejected_draw_is_followed_by_accepted(lcg(seed));
    }
    if len == 0 {
        (Seq::empty(), seed)
    } else {
        match sample(low_byte(lcg(seed))) {
            Some(c) => {
                let rest = random_text(lcg(seed), (len - 1) as nat);
                (seq![c] + rest.0, rest.1)
            },
            None => random_text(lcg(seed), len),
        }
    }
}

proof fn lemma_low_byte_of_lcg(s: u64)
    ensures
        low_byte(lcg(s)) == (45 * low_byte(s) + 79) % 256,
{
    let a: int = MULTIPLIER as int;
    let p: int = a * s + INCREMENT;
    let q: int = p / 0x1_0000_0000_0000_0000;
    let k: int = s as int / 256;
    let low: int = s as int % 256;
    // The product without the multiples of 256 that it holds.
    let high: int = a * k + 24859907124401535 * low + 5635527503472513;
    assert(a * s == 256 * (a * k) + a * low) by (nonlinear_arith)
        requires
            s == 256 * k + low,
    ;
    assert(p == 256 * high + (45 * low + 79)) by {
        assert(a == 256 * 24859907124401535 + 45);
        assert(a * low == 256 * (24859907124401535 * low) + 45 * low) by (nonlinear_arith)
            requires
                a == 256 * 24859907124401535 + 45,
        ;
    }
    assert(lcg(s) == 256 * (high - 0x100_0000_0000_0000 * q) + (45 * low + 79));
    vstd::arithmetic::div_mod::lemma_mod_multiples_vanish(
        high - 0x100_0000_0000_0000 * q,
        45 * low + 79,
        256,
    );
}

/// A draw that samples no character is always followed by one that does, so each character of
/// random text takes at most two draws.
pub proof fn lemma_rejected_draw_is_followed_by_accepted(s: u64)
    ensures
        sample(low_byte(s)) is None ==> sample(low_byte(lcg(s))) is Some,
{
    lemma_low_byte_of_lcg(s);
}

/// A simple prng based on a linear congruential generator.
pub struct SimpleRng {
    seed: u64,
}

impl View for SimpleRng {
    type V = u64;

    /// The generator's state.
    closed spec fn view(&self) -> u64 {
        self.seed
    }
}

/// `String::push` appends one character at the end of a string.
pub assume_specification[ String::push ](s: &mut String, c: char)
    ensures
        final(s)@ == old(s)@.push(c),
;

impl SimpleRng {
    /// Create a new SimpleRng.
    pub fn new(seed: u64) -> (r: SimpleRng)
        ensures
            r@ == seed,
    {
        SimpleRng { seed }
    }

    /// Generate random u64.
    pub fn rng(&mut self) -> (r: u64)
        ensures
            r == lcg(old(self)@),
            final(self)@ == r,
            (r - (MULTIPLIER * old(self)@ + INCREMENT)) % 0x1_0000_0000_0000_0000 == 0,
    {
        let a: u64 = MULTIPLIER;
        let c: u64 = INCREMENT;
        self.seed = a.wrapping_mul(self.seed).wrapping_add(c);
        proof {
            lemma_wrapping_lcg(old(self).seed);
            lemma_lcg_is_congruent(old(self).seed);
        }
        self.seed
    }

    /// The next draw. There always is one.
    pub fn next(&mut self) -> (r: Option<u64>)
        ensures
            r == Some(lcg(old(self)@)),
            final(self)@ == lcg(old(self)@),
    {
        Some(self.rng())
    }

    /// Generate a random alphanumeric string.
    pub fn str(&mut self, len: usize) -> (r: String)
        ensures
            (r@, final(self)@) == random_text(old(self)@, len as nat),
            r@.len() == len,
            forall|i: int| 0 <= i < len ==> is_ascii_alphanumeric(#[trigger] r@[i]),
    {
        let mut text: String = String::new();
        let mut missing: usize = len;
        while missing > 0
            invariant
                random_text(old(self)@, len as nat).0 == text@ + random_text(self@, missing as nat).0,
                random_text(old(self)@, len as nat).1 == random_text(self@, missing as nat).1,
            decreases
                2 * missing + (if sample(low_byte(lcg(self@))) is Some { 0int } else { 1int }),
        {
            proof {
                lemma_rejected_draw_is_followed_by_accepted(lcg(self@));
            }
            let v: u64 = self.rng();
            assert(v as u8 == v % 256) by (bit_vector);
            if let Some(c) = uniform_sample_ascii_alphanumeric(v as u8) {
                text.push(c);
                missing = missing - 1;
            }
        }
        assert(text@ + Seq::<char>::empty() == text@);
        proof {
            law_text_is_alphanumeric(old(self)@, len as nat);
        }
        text
    }
}

/// Text in the making out of the bytes of some source of randomness, for as many characters as
/// were asked for.
pub struct UrandomStr {
    missing: usize,
    text: String,
}

impl UrandomStr {
    /// The characters sampled so far.
    pub closed spec fn text(&self) -> Seq<char> {
        self.text@
    }

    /// How many characters are still to be sampled.
    pub closed spec fn missing(&self) -> nat {
        self.missing as nat
    }

    /// Starts a text of `len` characters.
    pub fn start(len: usize) -> (r: UrandomStr)
        ensures
            r.text() == Seq::<char>::empty(),
            r.missing() == len,
    {
        UrandomStr { missing: len, text: String::new() }
    }

    /// Whether the text is complete, so that no further byte needs to be read.
    pub fn is_complete(&self) -> (r: bool)
        ensures
            r == (self.missing() == 0),
    {
        self.missing == 0
    }

    /// Takes in one random byte. A complete text stays as it is.
    pub fn read(&mut self, b: u8)
        ensures
            match sample(b) {
                Some(c) if old(self).missing() > 0 => {
                    &&& final(self).text() == old(self).text().push(c)
                    &&& final(self).missing() == old(self).missing() - 1
                },
                _ => {
                    &&& final(self).text() == old(self).text()
                    &&& final(self).missing() == old(self).missing()
                },
            },
    {
        if self.missing > 0 {
            if let Some(c) = uniform_sample_ascii_alphanumeric(b) {
                self.text.push(c);
                self.missing = self.missing - 1;
            }
        }
    }

    /// The text sampled so far.
    pub fn into_string(self) -> (r: String)
        ensures
            r@ == self.text(),
    {
        self.text
    }
}

/// The first `len` elements of `s`, or all of them if there are fewer.
pub open spec fn at_most<T>(s: Seq<T>, len: nat) -> Seq<T> {
    if s.len() <= len {
        s
    } else {
        s.take(len as int)
    }
}

/// The text of length `len` that what was read samples, one byte or error after the other. The
/// first error that is read before the text is complete is returned in its place. The text is
/// shorter only if there is nothing more to read.
pub open spec fn sampled_text<E>(reads: Seq<Result<u8, E>>, len: nat) -> Result<Seq<char>, E>
    decreases reads.len(),
{
    if len == 0 || reads.len() == 0 {
        Ok(Seq::empty())
    } else {
        match reads[0] {
            Err(e) => Err(e),
            Ok(b) => match sample(b) {
                Some(c) => match sampled_text(reads.skip(1), (len - 1) as nat) {
                    Ok(rest) => Ok(seq![c] + rest),
                    Err(e) => Err(e),
                },
                None => sampled_text(reads.skip(1), len),
            },
        }
    }
}

/// `text`, followed by `rest` unless that is an error.
pub open spec fn followed_by<E>(text: Seq<char>, rest: Result<Seq<char>, E>) -> Result<Seq<char>, E> {
    match rest {
        Ok(rest) => Ok(text + rest),
        Err(e) => Err(e),
    }
}

/// Samples what was read of a source of randomness, byte by byte, and generates a random ASCII
/// string of length `len`.
pub fn urandom_str<E>(len: usize, reads: Vec<Result<u8, E>>) -> (r: Result<String, E>)
    ensures
        match r {
            Ok(text) => sampled_text(reads@, len as nat) == Ok::<Seq<char>, E>(text@),
            Err(e) => sampled_text(reads@, len as nat) == Err::<Seq<char>, E>(e),
        },
{
    let mut s: UrandomStr = UrandomStr::start(len);
    let ghost all = reads@;
    assert(all.skip(0) == all);
    proof {
        if let Ok(text) = sampled_text(all, len as nat) {
            assert(Seq::<char>::empty() + text == text);
        }
    }
    for read in it: reads
        invariant
            it.seq() == all,
            sampled_text(all, len as nat) == followed_by(
                s.text(),
                sampled_text(all.skip(it.index() as int), s.missing()),
            ),
    {
        let ghost left = all.skip(it.index() as int);
        assert(left.skip(1) == all.skip(it.index() + 1));
        if s.is_complete() {
            assert(s.text() + Seq::<char>::empty() == s.text());
            return Ok(s.into_string());
        }
        let ghost before = s.text();
        match read {
            Ok(b) => {
                s.read(b);
                proof {
                    if let Some(c) = sample(b) {
                        if let Ok(rest) = sampled_text(left.skip(1), s.missing()) {
                            assert(before + (seq![c] + rest) == before.push(c) + rest);
                        }
                    }
                }
            },
            Err(e) => return Err(e),
        }
    }
    assert(s.text() + Seq::<char>::empty() == s.text());
    Ok(s.into_string())
}

/// If every byte could be read, the text is the first `len` characters that the bytes sample.
pub proof fn law_text_of_bytes<E>(bytes: Seq<u8>, len: nat)
    ensures
        sampled_text(bytes.map_values(|b: u8| Ok::<u8, E>(b)), len) == Ok::<Seq<char>, E>(
            at_most(samples(bytes), len),
        ),
    decreases bytes.len(),
{
    let reads = bytes.map_values(|b: u8| Ok::<u8, E>(b));
    if bytes.len() == 0 || len == 0 {
        assert(at_most(samples(bytes), len) == Seq::<char>::empty());
    } else {
        let rest = bytes.skip(1);
        assert(reads.skip(1) == rest.map_values(|b: u8| Ok::<u8, E>(b)));
        assert(bytes == seq![bytes[0]] + rest);
        lemma_samples_of_first(bytes[0], rest);
        match sample(bytes[0]) {
            Some(c) => {
                law_text_of_bytes::<E>(rest, (len - 1) as nat);
                assert(at_most(seq![c] + samples(rest), len) == seq![c] + at_most(
                    samples(rest),
                    (len - 1) as nat,
                ));
            },
            None => {
                law_text_of_bytes::<E>(rest, len);
            },
        }
    }
}

proof fn lemma_wrapping_lcg(s: u64)
    ensures
        MULTIPLIER.wrapping_mul(s).wrapping_add(INCREMENT) == lcg(s),
{
    let p: int = MULTIPLIER * s;
    let m: int = 0x1_0000_0000_0000_0000;
    vstd::arithmetic::div_mod::lemma_add_mod_noop(p, INCREMENT as int, m);
}

proof fn lemma_alphabet()
    ensures
        alphabet().len() == 62,
        forall|i: int| 0 <= i < 26 ==> #[trigger] alphabet()[i] as int == 'A' as int + i,
        forall|i: int| 26 <= i < 52 ==> #[trigger] alphabet()[i] as int == 'a' as int + i - 26,
        forall|i: int| 52 <= i < 62 ==> #[trigger] alphabet()[i] as int == '0' as int + i - 52,
{
    reveal_strlit("ABCDEFGHIJKLMNOPQRSTUVWXYZabcdefghijklmnopqrstuvwxyz0123456789");
}

/// The alphabet holds each ASCII letter and digit once, and nothing else.
pub proof fn law_alphabet(c: char)
    ensures
        alphabet().no_duplicates(),
        alphabet().contains(c) <==> is_ascii_alphanumeric(c),
{
    lemma_alphabet();
    if is_ascii_alphanumeric(c) {
        let i = if c <= '9' {
            c as int - '0' as int + 52
        } else if c <= 'Z' {
            c as int - 'A' as int
        } else {
            c as int - 'a' as int + 26
        };
        assert(alphabet()[i] == c);
    }
}

/// Sampling is uniform: every character of the alphabet is sampled by exactly four of the 256
/// bytes.
pub proof fn law_sampling_is_uniform(c: char)
    requires
        is_ascii_alphanumeric(c),
    ensures
        Set::new(|b: u8| sample(b) == Some(c)).len() == 4,
{
    lemma_alphabet();
    law_alphabet(c);
    let i = alphabet().index_of(c);
    let all = Set::new(|b: u8| sample(b) == Some(c));
    let four = set![i as u8, (i + 62) as u8, (i + 124) as u8, (i + 186) as u8];
    assert forall|b: u8| all.contains(b) <==> four.contains(b) by {
        assert(alphabet()[i] == c);
        if b < 248 && alphabet()[b as int % 62] == c {
            assert(b as int % 62 == i);
        }
    }
    assert(all == four);
}

/// Random text has the length asked for and is made of ASCII letters and digits.
pub proof fn law_text_is_alphanumeric(seed: u64, len: nat)
    ensures
        random_text(seed, len).0.len() == len,
        forall|i: int| 0 <= i < len ==> is_ascii_alphanumeric(#[trigger] random_text(seed, len).0[i]),
    decreases 2 * len + (if sample(low_byte(lcg(seed))) is Some { 0int } else { 1int }),
{
    lemma_rejected_draw_is_followed_by_accepted(lcg(seed));
    if len > 0 {
        match sample(low_byte(lcg(seed))) {
            Some(c) => {
                lemma_alphabet();
                law_alphabet(c);
                law_text_is_alphanumeric(lcg(seed), (len - 1) as nat);
            },
            None => {
                law_text_is_alphanumeric(lcg(seed), len);
            },
        }
    }
}

/// Text sampled from what was read is no longer than asked for and made of ASCII letters and
/// digits.
pub proof fn law_sampled_text_is_alphanumeric<E>(reads: Seq<Result<u8, E>>, len: nat)
    ensures
        sampled_text(reads, len) matches Ok(text) ==> {
            &&& text.len() <= len
            &&& forall|i: int| 0 <= i < text.len() ==> is_ascii_alphanumeric(#[trigger] text[i])
        },
    decreases reads.len(),
{
    if len > 0 && reads.len() > 0 {
        if let Ok(b) = reads[0] {
            match sample(b) {
                Some(c) => {
                    lemma_alphabet();
                    law_alphabet(c);
                    law_sampled_text_is_alphanumeric(reads.skip(1), (len - 1) as nat);
                },
                None => {
                    law_sampled_text_is_alphanumeric(reads.skip(1), len);
                },
            }
        }
    }
}

/// As long as every byte can be read, and enough of them can be used, the text has the length asked
/// for, whatever is read after them.
pub proof fn law_sampled_text_is_complete<E>(
    bytes: Seq<u8>,
    after: Seq<Result<u8, E>>,
    len: nat,
)
    requires
        samples(bytes).len() >= len,
    ensures
        sampled_text(bytes.map_values(|b: u8| Ok::<u8, E>(b)) + after, len) == Ok::<Seq<char>, E>(
            samples(bytes).take(len as int),
        ),
    decreases bytes.len(),
{
    let reads = bytes.map_values(|b: u8| Ok::<u8, E>(b)) + after;
    if len == 0 {
        assert(samples(bytes).take(0) == Seq::<char>::empty());
    } else {
        let rest = bytes.skip(1);
        assert(reads.skip(1) == rest.map_values(|b: u8| Ok::<u8, E>(b)) + after);
        assert(bytes == seq![bytes[0]] + rest);
        lemma_samples_of_first(bytes[0], rest);
        match sample(bytes[0]) {
            Some(c) => {
                law_sampled_text_is_complete(rest, after, (len - 1) as nat);
                assert((seq![c] + samples(rest)).take(len as int) == seq![c] + samples(rest).take(
                    len - 1,
                ));
            },
            None => {
                law_sampled_text_is_complete(rest, after, len);
            },
        }
    }
}

/// Different states of a generator are followed by different states: no draw loses anything of
/// the state.
pub proof fn law_draws_are_reversible(s: u64, t: u64)
    requires
        lcg(s) == lcg(t),
    ensures
        s == t,
{
    let a: int = MULTIPLIER as int;
    let m: int = 0x1_0000_0000_0000_0000;
    // The product of the multiplier and its inverse is one more than a multiple of 2^64.
    let inverse: int = 13877824140714322085;
    let k: int = 4787856489426250814;
    let d: int = s - t;
    let p: int = a * s + INCREMENT;
    let q: int = a * t + INCREMENT;
    let n: int = p / m - q / m;
    assert(a * d == m * n) by {
        vstd::arithmetic::div_mod::lemma_fundamental_div_mod(p, m);
        vstd::arithmetic::div_mod::lemma_fundamental_div_mod(q, m);
        assert(a * d == a * s - a * t) by (nonlinear_arith)
            requires
                d == s - t,
        ;
    }
    assert(d == m * (inverse * n - k * d)) by (nonlinear_arith)
        requires
            a * d == m * n,
            inverse * a == 1 + m * k,
    ;
    let z: int = inverse * n - k * d;
    assert(d == m * z);
    assert(z == 0);
}

/// Two texts drawn one after the other are the text of their joint length, cut in two.
pub proof fn law_text_splits(seed: u64, m: nat, n: nat)
    ensures
        ({
            let first = random_text(seed, m);
            let second = random_text(first.1, n);
            random_text(seed, m + n) == (first.0 + second.0, second.1)
        }),
    decreases 2 * m + (if sample(low_byte(lcg(seed))) is Some { 0int } else { 1int }),
{
    lemma_rejected_draw_is_followed_by_accepted(lcg(seed));
    let second = random_text(random_text(seed, m).1, n);
    if m == 0 {
        assert(Seq::<char>::empty() + second.0 == second.0);
    } else {
        match sample(low_byte(lcg(seed))) {
            Some(c) => {
                law_text_splits(lcg(seed), (m - 1) as nat, n);
                let rest = random_text(lcg(seed), (m - 1) as nat).0;
                assert((seq![c] + rest) + second.0 == seq![c] + (rest + second.0));
            },
            None => {
                law_text_splits(lcg(seed), m, n);
            },
        }
    }
}

/// The low bytes of the first `n` draws of a generator in state `seed`.
pub open spec fn drawn_bytes(seed: u64, n: nat) -> Seq<u8>
    decreases n,
{
    if n == 0 {
        Seq::empty()
    } else {
        seq![low_byte(lcg(seed))] + drawn_bytes(lcg(seed), (n - 1) as nat)
    }
}

/// The state of a generator in state `seed` after `n` draws.
pub open spec fn state_after(seed: u64, n: nat) -> u64
    decreases n,
{
    if n == 0 {
        seed
    } else {
        state_after(lcg(seed), (n - 1) as nat)
    }
}

/// Random text is what the draws sample, up to the draw that completes it, and takes at most two
/// draws for each character.
pub proof fn law_text_is_sampled_from_draws(seed: u64, len: nat) -> (n: nat)
    ensures
        len <= n <= 2 * len,
        random_text(seed, len).0 == samples(drawn_bytes(seed, n)),
        random_text(seed, len).1 == state_after(seed, n),
        n > 0 ==> sample(drawn_bytes(seed, n).last()) is Some,
{
    lemma_text_is_sampled_from_draws(seed, len)
}

proof fn lemma_text_is_sampled_from_draws(seed: u64, len: nat) -> (n: nat)
    ensures
        len <= n <= 2 * len,
        sample(low_byte(lcg(seed))) is Some && len > 0 ==> n < 2 * len,
        drawn_bytes(seed, n).len() == n,
        random_text(seed, len).0 == samples(drawn_bytes(seed, n)),
        random_text(seed, len).1 == state_after(seed, n),
        n > 0 ==> sample(drawn_bytes(seed, n).last()) is Some,
    decreases 2 * len + (if sample(low_byte(lcg(seed))) is Some { 0int } else { 1int }),
{
    lemma_rejected_draw_is_followed_by_accepted(lcg(seed));
    if len == 0 {
        0
    } else {
        let b = low_byte(lcg(seed));
        let left = if sample(b) is Some { (len - 1) as nat } else { len };
        let n = lemma_text_is_sampled_from_draws(lcg(seed), left);
        let rest = drawn_bytes(lcg(seed), n);
        lemma_samples_of_first(b, rest);
        assert(drawn_bytes(seed, n + 1) == seq![b] + rest);
        assert(n > 0 ==> drawn_bytes(seed, n + 1).last() == rest.last());
        assert(state_after(seed, n + 1) == state_after(lcg(seed), n));
        n + 1
    }
}

proof fn lemma_samples_of_first(b: u8, rest: Seq<u8>)
    ensures
        samples(seq![b] + rest) == (match sample(b) {
            Some(c) => seq![c] + samples(rest),
            None => samples(rest),
        }),
    decreases rest.len(),
{
    let all = seq![b] + rest;
    if rest.len() == 0 {
        assert(all.drop_last() == Seq::<u8>::empty());
        reveal_with_fuel(samples, 2);
    } else {
        lemma_samples_of_first(b, rest.drop_last());
        assert(all.drop_last() == seq![b] + rest.drop_last());
    }
}

proof fn lemma_lcg_is_congruent(s: u64)
    ensures
        (lcg(s) - (MULTIPLIER * s + INCREMENT)) % 0x1_0000_0000_0000_0000 == 0,
{
    let m: int = 0x1_0000_0000_0000_0000;
    let p: int = MULTIPLIER * s + INCREMENT;
    vstd::arithmetic::div_mod::lemma_fundamental_div_mod(p, m);
    vstd::arithmetic::div_mod::lemma_mod_multiples_basic(-(p / m), m);
    assert(lcg(s) - p == -(p / m) * m);
}

/// The bytes count through the capital letters, the small letters and the digits, four times over.
/// The bytes that are left sample nothing.
pub proof fn law_bytes_count_through_the_alphabet(b: u8)
    ensures
        b >= 248 ==> sample(b) is None,
        b < 248 ==> (sample(b) matches Some(c) && {
            let k = b as int % 62;
            &&& k < 26 ==> c as int == 65 + k
            &&& 26 <= k < 52 ==> c as int == 97 + (k - 26)
            &&& k >= 52 ==> c as int == 48 + (k - 52)
        }),
{
    lemma_alphabet();
}

/// A generator in the state zero is followed by the increment, and where a state is higher by one,
/// the state that follows is higher by the multiplier, modulo 2^64.
pub proof fn law_draws_step_by_the_multiplier(s: u64)
    requires
        s < u64::MAX,
    ensures
        lcg(0) == 1442695040888963407,
        (lcg((s + 1) as u64) - lcg(s) - 6364136223846793005) % 0x1_0000_0000_0000_0000 == 0,
{
    let m: int = 0x1_0000_0000_0000_0000;
    let p: int = MULTIPLIER * s + INCREMENT;
    let q: int = MULTIPLIER * (s + 1) + INCREMENT;
    vstd::arithmetic::div_mod::lemma_fundamental_div_mod(p, m);
    vstd::arithmetic::div_mod::lemma_fundamental_div_mod(q, m);
    vstd::arithmetic::div_mod::lemma_mod_multiples_basic(p / m - q / m, m);
    assert(lcg((s + 1) as u64) - lcg(s) - MULTIPLIER == (p / m - q / m) * m);
}

/// A character is sampled from the lowest eight bits of a draw: what lies above them is a multiple
/// of 256.
pub proof fn law_low_byte(v: u64)
    ensures
        (v - low_byte(v)) % 256 == 0,
{
}

/// One byte samples one character at most, and what bytes sample together is what they sample one
/// part after the other.
pub proof fn law_samples_join(a: Seq<u8>, b: Seq<u8>, byte: u8)
    ensures
        samples(Seq::<u8>::empty()) == Seq::<char>::empty(),
        byte >= 248 ==> samples(seq![byte]) == Seq::<char>::empty(),
        byte < 248 ==> samples(seq![byte]).len() == 1 && sample(byte) == Some(
            samples(seq![byte])[0],
        ),
        samples(a + b) == samples(a) + samples(b),
    decreases b.len(),
{
    let one = seq![byte];
    assert(one.drop_last() == Seq::<u8>::empty());
    reveal_with_fuel(samples, 2);
    if b.len() == 0 {
        assert(a + b == a);
        assert(samples(a) + Seq::<char>::empty() == samples(a));
    } else {
        law_samples_join(a, b.drop_last(), byte);
        assert((a + b).drop_last() == a + b.drop_last());
        assert((a + b).last() == b.last());
    }
}

proof fn lemma_state_steps(seed: u64, n: nat)
    ensures
        state_after(seed, n + 1) == lcg(state_after(seed, n)),
    decreases n,
{
    assert(state_after(seed, n + 1) == state_after(lcg(seed), n));
    if n > 0 {
        lemma_state_steps(lcg(seed), (n - 1) as nat);
    } else {
        assert(state_after(lcg(seed), 0) == lcg(seed));
    }
}

proof fn lemma_drawn_bytes_len(seed: u64, n: nat)
    ensures
        drawn_bytes(seed, n).len() == n,
    decreases n,
{
    if n > 0 {
        lemma_drawn_bytes_len(lcg(seed), (n - 1) as nat);
    }
}

proof fn lemma_drawn_byte(seed: u64, n: nat, i: nat)
    requires
        i < n,
    ensures
        drawn_bytes(seed, n)[i as int] == low_byte(state_after(seed, i + 1)),
    decreases n,
{
    let next = lcg(seed);
    let rest = drawn_bytes(next, (n - 1) as nat);
    lemma_drawn_bytes_len(next, (n - 1) as nat);
    assert(drawn_bytes(seed, n) == seq![low_byte(next)] + rest);
    assert(state_after(seed, i + 1) == state_after(next, i));
    if i > 0 {
        lemma_drawn_byte(next, (n - 1) as nat, (i - 1) as nat);
        assert((seq![low_byte(next)] + rest)[i as int] == rest[i - 1]);
    } else {
        assert(state_after(next, 0) == next);
    }
}

/// Each draw takes the state one step further and yields one byte, the lowest of the new state.
pub proof fn law_draws_follow_each_other(seed: u64, n: nat, i: nat)
    requires
        i < n,
    ensures
        state_after(seed, 0) == seed,
        state_after(seed, i + 1) == lcg(state_after(seed, i)),
        drawn_bytes(seed, n).len() == n,
        (state_after(seed, i + 1) - drawn_bytes(seed, n)[i as int]) % 256 == 0,
{
    lemma_state_steps(seed, i);
    lemma_drawn_bytes_len(seed, n);
    lemma_drawn_byte(seed, n, i);
    law_low_byte(state_after(seed, i + 1));
}

/// An error that is read while characters are still missing is returned, whatever is read after
/// it.
pub proof fn law_early_error_is_returned<E>(
    bytes: Seq<u8>,
    e: E,
    after: Seq<Result<u8, E>>,
    len: nat,
)
    requires
        samples(bytes).len() < len,
    ensures
        sampled_text(
            bytes.map_values(|b: u8| Ok::<u8, E>(b)) + seq![Err::<u8, E>(e)] + after,
            len,
        ) == Err::<Seq<char>, E>(e),
    decreases bytes.len(),
{
    let reads = bytes.map_values(|b: u8| Ok::<u8, E>(b)) + seq![Err::<u8, E>(e)] + after;
    if bytes.len() == 0 {
        assert(reads[0] == Err::<u8, E>(e));
    } else {
        let rest = bytes.skip(1);
        assert(reads.skip(1) == rest.map_values(|b: u8| Ok::<u8, E>(b)) + seq![Err::<u8, E>(e)]
            + after);
        assert(reads[0] == Ok::<u8, E>(bytes[0]));
        assert(bytes == seq![bytes[0]] + rest);
        lemma_samples_of_first(bytes[0], rest);
        match sample(bytes[0]) {
            Some(_) => {
                law_early_error_is_returned(rest, e, after, (len - 1) as nat);
            },
            None => {
                law_early_error_is_returned(rest, e, after, len);
            },
        }
    }
}

/// At most `len` elements are the first elements, `len` of them where there are as many.
pub proof fn law_at_most<T>(s: Seq<T>, len: nat)
    ensures
        at_most(s, len).len() == (if s.len() < len {
            s.len()
        } else {
            len
        }),
        forall|i: int| 0 <= i < at_most(s, len).len() ==> #[trigger] at_most(s, len)[i] == s[i],
{
}

/// Two generators that started from one seed draw the same, and what they draw next is determined
/// by the last draw alone.
pub proof fn law_generators_repeat(
    seed: u64,
    first: &mut SimpleRng,
    second: &mut SimpleRng,
    a: u64,
    b: Option<u64>,
)
    requires
        call_ensures(SimpleRng::new, (seed,), *old(first)),
        call_ensures(SimpleRng::new, (seed,), *old(second)),
        call_ensures(SimpleRng::rng, (first,), a),
        call_ensures(SimpleRng::next, (second,), b),
    ensures
        b == Some(a),
        final(first)@ == a,
        final(second)@ == a,
        (a - (6364136223846793005 * seed + 1442695040888963407)) % 0x1_0000_0000_0000_0000 == 0,
{
}

/// Text that is complete takes in no more. Text that is not takes in one character of a byte that
/// can be used, at its end, and nothing of another.
pub proof fn law_text_grows_by_one(text: &mut UrandomStr, b: u8, r: String)
    requires
        call_ensures(UrandomStr::read, (text, b), ()),
        call_ensures(UrandomStr::into_string, (*final(text),), r),
    ensures
        old(text).missing() == 0 || b >= 248 ==> r@ == old(text).text() && final(text).missing()
            == old(text).missing(),
        old(text).missing() > 0 && b < 248 ==> r@.len() == old(text).text().len() + 1
            && r@.drop_last() == old(text).text() && sample(b) == Some(r@.last())
            && final(text).missing() + 1 == old(text).missing(),
{
    law_bytes_count_through_the_alphabet(b);
}

} // verus!
