//! Decoding of the one call that the pipeline looks for:
//! `transmit(bytes report, bytes32[] rs, bytes32[] ss, bytes32 rawVs)`.
//!
//! Calldata is four bytes that select the function, then the arguments in
//! the contract ABI's encoding. Calldata of any other shape is common and is
//! no error: it is simply not matched.

use vstd::prelude::*;
use vstd::slice::slice_subrange;

verus! {

/// The arguments of a `transmit` call.
#[derive(Clone, Debug, PartialEq, Eq)]
pub struct DecodedReport {
    /// The report: header words, then observation words.
    pub report: Vec<u8>,
    /// The first halves of the participants' signatures.
    pub rs: Vec<[u8; 32]>,
    /// The second halves of the participants' signatures.
    pub ss: Vec<[u8; 32]>,
    /// The recovery bytes of the signatures, packed into one word.
    pub raw_vs: [u8; 32],
}

/// The arguments of a `transmit` call as sequences of bytes: the report,
/// the two signature arrays and the packed recovery bytes.
pub type TransmitArguments = (Seq<u8>, Seq<Seq<u8>>, Seq<Seq<u8>>, Seq<u8>);

/// A list of 32-byte words as sequences of bytes.
pub open spec fn words_view(words: Seq<[u8; 32]>) -> Seq<Seq<u8>> {
    Seq::new(words.len(), |i: int| words[i]@)
}

impl View for DecodedReport {
    type V = TransmitArguments;

    open spec fn view(&self) -> TransmitArguments {
        (self.report@, words_view(self.rs@), words_view(self.ss@), self.raw_vs@)
    }
}

/// The first four bytes of the Keccak-256 hash of
/// `transmit(bytes,bytes32[],bytes32[],bytes32)`.
pub open spec fn transmit_selector() -> Seq<u8> {
    seq![0xc9u8, 0x80u8, 0x75u8, 0x39u8]
}

/// What the ABI decoder of `ethers` makes of `data` when it is asked for the
/// argument types `(bytes, bytes32[], bytes32[], bytes32)`: the decoded
/// arguments, or `None` where it reports an error.
pub uninterp spec fn abi_transmit_arguments(data: Seq<u8>) -> Option<TransmitArguments>;

/// What `input` holds when read as calldata of a `transmit` call: `None`
/// where it is shorter than a selector, starts with another selector, or
/// the ABI decoder rejects what follows the selector.
pub open spec fn transmit_call(input: Seq<u8>) -> Option<TransmitArguments> {
    if input.len() < 4 || input.subrange(0, 4) != transmit_selector() {
        None
    } else {
        abi_transmit_arguments(input.subrange(4, input.len() as int))
    }
}

/// Calls `AbiDecode::decode` of `ethers::abi` for the tuple
/// `(Bytes, Vec<[u8; 32]>, Vec<[u8; 32]>, [u8; 32])`, which runs the ABI
/// decoder on `data` with the argument types of `transmit` and turns the
/// tokens into these values. What is claimed: the result depends on `data`
/// alone, and an error of the decoder becomes `None`. The decoder adds
/// offsets and lengths of up to 32 bits that it reads from `data`; with a
/// `usize` of 64 bits these sums cannot overflow, and it rejects what lies
/// outside `data` without stopping the program.
#[verifier::external_body]
fn decode_transmit_arguments(data: &[u8]) -> (decoded: Option<DecodedReport>)
    ensures
        match decoded {
            Some(arguments) => abi_transmit_arguments(data@) == Some(arguments@),
            None => abi_transmit_arguments(data@) is None,
        },
{
    match <(ethers::types::Bytes, Vec<[u8; 32]>, Vec<[u8; 32]>, [u8; 32]) as ethers::abi::AbiDecode>::decode(data) {
        Ok((report, rs, ss, raw_vs)) => Some(DecodedReport { report: report.to_vec(), rs, ss, raw_vs }),
        Err(_) => None,
    }
}

/// Whether `input` starts with the selector of `transmit`.
pub fn has_transmit_selector(input: &[u8]) -> (matched: bool)
    ensures
        matched == (input@.len() >= 4 && input@.subrange(0, 4) == transmit_selector()),
{
    if input.len() < 4 {
        return false;
    }
    let matched = input[0] == 0xc9 && input[1] == 0x80 && input[2] == 0x75 && input[3] == 0x39;
    proof {
        let head = input@.subrange(0, 4);
        if matched {
            assert(head =~= transmit_selector());
        } else {
            assert(head[0] == input@[0] && head[1] == input@[1] && head[2] == input@[2] && head[3]
                == input@[3]);
            assert(transmit_selector()[0] == 0xc9u8 && transmit_selector()[1] == 0x80u8
                && transmit_selector()[2] == 0x75u8 && transmit_selector()[3] == 0x39u8);
        }
    }
    matched
}

/// Reads `input` as calldata of a `transmit` call. Input of any other shape
/// gives `None`; no input is an error.
pub fn decode_transmit(input: &[u8]) -> (decoded: Option<DecodedReport>)
    ensures
        match decoded {
            Some(arguments) => transmit_call(input@) == Some(arguments@),
            None => transmit_call(input@) is None,
        },
        !(input@.len() >= 4 && input@.subrange(0, 4) == transmit_selector()) ==> decoded is None,
{
    if !has_transmit_selector(input) {
        return None;
    }
    let arguments = slice_subrange(input, 4, input.len());
    decode_transmit_arguments(arguments)
}

/// Calldata that does not start with the selector of `transmit` is not
/// matched, whatever follows.
pub proof fn lemma_other_selector_is_not_matched(input: Seq<u8>)
    requires
        input.len() < 4 || input.subrange(0, 4) != transmit_selector(),
    ensures
        transmit_call(input) is None,
{
}

} // verus!
