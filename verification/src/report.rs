//! The price that a report carries: the median of its observation words.
//!
//! A report is a run of 32-byte words. The first four are a header; each
//! word after them is one participant's observation, a big-endian unsigned
//! integer. The participants' network sorts the observations, so the median
//! is read by position.

use crate::primitives::{limbs_value, pow2_128, U256};
use vstd::prelude::*;
use vstd::slice::slice_subrange;

verus! {

/// The number of bytes in a word of a report.
pub const WORD_SIZE: usize = 32;

/// The number of words at the head of a report that hold no observation.
pub const HEADER_WORDS: usize = 4;

/// The unsigned integer that `bytes` spell, most significant byte first.
pub open spec fn big_endian_value(bytes: Seq<u8>) -> int
    decreases bytes.len(),
{
    if bytes.len() == 0 {
        0
    } else {
        256 * big_endian_value(bytes.drop_last()) + bytes.last()
    }
}

/// The `index`-th word of `report`.
pub open spec fn word_at(report: Seq<u8>, index: int) -> Seq<u8> {
    report.subrange(WORD_SIZE * index, WORD_SIZE * index + WORD_SIZE)
}

/// The number of whole words in `report`.
pub open spec fn word_count(report: Seq<u8>) -> int {
    (report.len() as int) / (WORD_SIZE as int)
}

/// Whether `report` is made of whole words.
pub open spec fn is_whole_words(report: Seq<u8>) -> bool {
    (report.len() as int) % (WORD_SIZE as int) == 0
}

/// The observations of `report`: the value of each word after the header,
/// in the order of the report.
pub open spec fn observations_of(report: Seq<u8>) -> Seq<int> {
    if word_count(report) <= HEADER_WORDS {
        Seq::empty()
    } else {
        Seq::new(
            (word_count(report) - HEADER_WORDS) as nat,
            |i: int| big_endian_value(word_at(report, HEADER_WORDS + i)),
        )
    }
}

/// The median of observations that are already in ascending order: the one
/// at half their number, rounded down. Of an even number this is the upper
/// of the two in the middle.
pub open spec fn median_of(observations: Seq<int>) -> Option<int> {
    if observations.len() == 0 {
        None
    } else {
        Some(observations[observations.len() as int / 2])
    }
}

/// The price that `report` predicts, if it predicts one: none where the
/// report is not made of whole words or holds no observation.
pub open spec fn predicted_value(report: Seq<u8>) -> Option<int> {
    if is_whole_words(report) {
        median_of(observations_of(report))
    } else {
        None
    }
}

/// `predicted_value` as a 256-bit integer.
pub open spec fn predicted_price(report: Seq<u8>) -> Option<U256> {
    match predicted_value(report) {
        Some(value) => Some(U256::from_int(value)),
        None => None,
    }
}

/// The values of a list of 256-bit integers.
pub open spec fn values_of(numbers: Seq<U256>) -> Seq<int> {
    Seq::new(numbers.len(), |i: int| numbers[i]@)
}

/// Calls `U256::from(&[u8])` of `ethers::types` and hands back the limbs
/// of what it made. That function reads at most 32 bytes as a big-endian
/// integer, and stops the program on a longer slice.
#[verifier::external_body]
fn big_endian_limbs(word: &[u8]) -> (limbs: [u64; 4])
    requires
        word@.len() <= 32,
    ensures
        limbs_value(limbs@) == big_endian_value(word@),
{
    ethers::types::U256::from(word).0
}

/// The integer that a word of at most 32 bytes spells, most significant
/// byte first.
pub fn word_value(word: &[u8]) -> (value: U256)
    requires
        word@.len() <= 32,
    ensures
        value@ == big_endian_value(word@),
        value == U256::from_int(big_endian_value(word@)),
{
    U256::from_limbs(big_endian_limbs(word))
}

/// Reads the observations of a report: `None` where the report is not made
/// of whole words, else the value of each word after the header, in order.
pub fn parse_observations(report: &[u8]) -> (parsed: Option<Vec<U256>>)
    ensures
        parsed is Some <==> is_whole_words(report@),
        parsed matches Some(observations) ==> values_of(observations@) == observations_of(
            report@,
        ),
{
    let len = report.len();
    if len % WORD_SIZE != 0 {
        return None;
    }
    let words = len / WORD_SIZE;
    let mut observations: Vec<U256> = Vec::new();
    if words <= HEADER_WORDS {
        assert(values_of(observations@) =~= observations_of(report@));
        return Some(observations);
    }
    let mut index: usize = HEADER_WORDS;
    while index < words
        invariant
            len == report@.len(),
            words == word_count(report@),
            HEADER_WORDS <= index <= words,
            observations@.len() == index - HEADER_WORDS,
            forall|k: int|
                0 <= k < observations@.len() ==> (#[trigger] observations@[k])@
                    == big_endian_value(word_at(report@, HEADER_WORDS + k)),
        decreases words - index,
    {
        let word = slice_subrange(report, index * WORD_SIZE, index * WORD_SIZE + WORD_SIZE);
        let value = word_value(word);
        observations.push(value);
        index += 1;
    }
    assert(values_of(observations@) =~= observations_of(report@));
    Some(observations)
}

/// The median of observations in ascending order, read by position.
pub fn median(observations: &Vec<U256>) -> (middle: Option<U256>)
    ensures
        observations@.len() == 0 ==> middle is None,
        observations@.len() > 0 ==> middle == Some(observations@[observations@.len() as int / 2]),
        match middle {
            Some(price) => median_of(values_of(observations@)) == Some(price@),
            None => median_of(values_of(observations@)) is None,
        },
{
    let count = observations.len();
    if count == 0 {
        None
    } else {
        Some(observations[count / 2])
    }
}

/// The price that a report predicts: the median of its observations, or
/// `None` where the report is not made of whole words or holds none.
pub fn predict_price(report: &[u8]) -> (price: Option<U256>)
    ensures
        price == predicted_price(report@),
        match price {
            Some(p) => predicted_value(report@) == Some(p@),
            None => predicted_value(report@) is None,
        },
{
    match parse_observations(report) {
        Some(observations) => median(&observations),
        None => None,
    }
}

/// A report of whole words with `k >= 1` observations predicts the value of
/// the word at `4 + k / 2`; one with none, or with a ragged end, predicts
/// nothing.
pub proof fn lemma_prediction_by_position(report: Seq<u8>)
    ensures
        !is_whole_words(report) ==> predicted_value(report) is None,
        is_whole_words(report) && word_count(report) <= HEADER_WORDS ==> predicted_value(report)
            is None,
        is_whole_words(report) && word_count(report) > HEADER_WORDS ==> predicted_value(report)
            == Some(
            big_endian_value(
                word_at(report, HEADER_WORDS + (word_count(report) - HEADER_WORDS) / 2),
            ),
        ),
{
}

/// A report that is only a header predicts nothing.
pub proof fn lemma_header_alone_predicts_nothing(report: Seq<u8>)
    requires
        report.len() == HEADER_WORDS * WORD_SIZE,
    ensures
        predicted_value(report) is None,
        predicted_price(report) is None,
{
}

/// The one observation of a report is its median.
pub proof fn lemma_single_observation_is_median(report: Seq<u8>)
    requires
        report.len() == HEADER_WORDS * WORD_SIZE + WORD_SIZE,
    ensures
        predicted_value(report) == Some(big_endian_value(report.subrange(128, 160))),
{
    assert(word_count(report) == 5);
    assert(word_at(report, 4) == report.subrange(128, 160));
}

/// The predicted price is the predicted value as a 256-bit integer, and
/// loses nothing of it.
pub proof fn lemma_predicted_price_has_predicted_value(report: Seq<u8>)
    ensures
        predicted_price(report) is Some <==> predicted_value(report) is Some,
        predicted_price(report) matches Some(price) ==> predicted_value(report) == Some(price@),
{
    if predicted_value(report) is Some {
        let middle = HEADER_WORDS + (word_count(report) - HEADER_WORDS) / 2;
        assert(predicted_value(report) == Some(big_endian_value(word_at(report, middle))));
        lemma_big_endian_value_bounds(word_at(report, middle));
    }
}

/// Of observations in ascending order, none before the median is greater
/// than it and none after it is smaller: at most half of them lie strictly
/// below it.
pub proof fn lemma_median_splits_ascending(observations: Seq<int>)
    requires
        observations.len() > 0,
        forall|i: int, j: int|
            0 <= i <= j < observations.len() ==> observations[i] <= observations[j],
    ensures
        median_of(observations) is Some,
        forall|i: int|
            0 <= i <= observations.len() as int / 2 ==> observations[i] <= median_of(
                observations,
            )->0,
        forall|i: int|
            observations.len() as int / 2 <= i < observations.len() ==> median_of(
                observations,
            )->0 <= observations[i],
{
}

/// A word of at most 32 bytes spells an integer below `2^256`.
pub proof fn lemma_big_endian_value_bounds(bytes: Seq<u8>)
    requires
        bytes.len() <= 32,
    ensures
        0 <= big_endian_value(bytes) < pow2_128() * pow2_128(),
        U256::from_int(big_endian_value(bytes))@ == big_endian_value(bytes),
{
    lemma_big_endian_value_below_power(bytes);
    lemma_pow256_monotonic(bytes.len(), 32);
    assert(pow256(32) == pow2_128() * pow2_128()) by {
        reveal_with_fuel(pow256, 33);
    }
}

/// `256^n`.
pub open spec fn pow256(n: nat) -> int
    decreases n,
{
    if n == 0 {
        1
    } else {
        256 * pow256((n - 1) as nat)
    }
}

proof fn lemma_pow256_monotonic(m: nat, n: nat)
    requires
        m <= n,
    ensures
        0 < pow256(m) <= pow256(n),
    decreases n,
{
    if n == 0 {
    } else if m == n {
        lemma_pow256_monotonic((m - 1) as nat, (n - 1) as nat);
    } else {
        lemma_pow256_monotonic(m, (n - 1) as nat);
    }
}

/// `n` bytes spell an integer below `256^n`.
pub proof fn lemma_big_endian_value_below_power(bytes: Seq<u8>)
    ensures
        0 <= big_endian_value(bytes) < pow256(bytes.len()),
    decreases bytes.len(),
{
    if bytes.len() > 0 {
        lemma_big_endian_value_below_power(bytes.drop_last());
    }
}

} // verus!
