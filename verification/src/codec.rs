//! The text codec: a thin adapter over the black-box tokenizer.
//!
//! Encoding and decoding are deterministic in the loaded vocabulary and the
//! input, so their results are named and every caller's contract is stated
//! over those names; a failure of the underlying codec surfaces as
//! `CodecError` and nothing else.

use vstd::prelude::*;

use crate::errors::ModelError;

verus! {

#[verifier::external_type_specification]
#[verifier::external_body]
pub struct ExTokenizer(tokenizers::Tokenizer);

/// Whether the loaded tokenizer encodes deterministically: true of
/// word-level models and of byte-pair models without merge dropout. A
/// byte-pair model with merge dropout set draws from a process-wide random
/// source on every merge, and nothing can then tie two encodings of one
/// text together.
pub uninterp spec fn deterministic_vocab(t: tokenizers::Tokenizer) -> bool;

/// The token ids a deterministic loaded vocabulary assigns to a text, or
/// `None` when the underlying codec rejects it. For such a vocabulary this
/// is a function of the tokenizer, the text, and the special-token flag
/// alone.
pub uninterp spec fn encoding_of(
    t: tokenizers::Tokenizer,
    text: Seq<char>,
    add_special: bool,
) -> Option<Seq<u32>>;

/// The text the loaded vocabulary assigns to a sequence of token ids, or
/// `None` when the underlying codec rejects it. A function of the tokenizer,
/// the ids, and the special-token flag alone.
pub uninterp spec fn decoding_of(
    t: tokenizers::Tokenizer,
    ids: Seq<u32>,
    skip_special: bool,
) -> Option<Seq<char>>;

/// The cardinality of the loaded vocabulary.
pub uninterp spec fn vocab_count_of(t: tokenizers::Tokenizer, with_added: bool) -> usize;

/// Relies on tokenizers::Tokenizer::encode (with Encoding::get_ids for the
/// plain id array): deterministic for a fixed tokenizer, text, and flag,
/// provided the loaded model itself encodes deterministically — a byte-pair
/// model with merge dropout does not, so nothing is promised of one.
#[verifier::external_body]
fn tok_encode(t: &tokenizers::Tokenizer, text: &str, add_special: bool) -> (r: Option<Vec<u32>>)
    ensures
        deterministic_vocab(*t) ==> (r is Some <==> encoding_of(*t, text@, add_special) is Some),
        deterministic_vocab(*t) ==> (r matches Some(v) ==> encoding_of(*t, text@, add_special)
            == Some(v@)),
{
    match t.encode(text, add_special) {
        Ok(enc) => Some(enc.get_ids().to_vec()),
        Err(_) => None,
    }
}

/// Relies on tokenizers::Tokenizer::decode: deterministic for a fixed
/// tokenizer, id sequence, and flag.
#[verifier::external_body]
fn tok_decode(t: &tokenizers::Tokenizer, ids: &Vec<u32>, skip_special: bool) -> (r: Option<String>)
    ensures
        r is Some <==> decoding_of(*t, ids@, skip_special) is Some,
        r matches Some(s) ==> decoding_of(*t, ids@, skip_special) == Some(s@),
{
    match t.decode(ids.as_slice(), skip_special) {
        Ok(s) => Some(s),
        Err(_) => None,
    }
}

/// Relies on tokenizers::Tokenizer::get_vocab_size: the vocabulary
/// cardinality, with or without the added tokens.
#[verifier::external_body]
fn tok_vocab_size(t: &tokenizers::Tokenizer, with_added: bool) -> (r: usize)
    ensures
        r == vocab_count_of(*t, with_added),
{
    t.get_vocab_size(with_added)
}

/// The text ↔ token-id codec over one loaded vocabulary.
pub struct TextCodec {
    pub tokenizer: tokenizers::Tokenizer,
}

impl TextCodec {
    /// Wraps an already loaded tokenizer.
    pub fn new(tokenizer: tokenizers::Tokenizer) -> (c: Self)
        ensures
            c.tokenizer == tokenizer,
    {
        TextCodec { tokenizer }
    }

    /// Encodes a text to its token ids, with `CodecError` exactly when the
    /// underlying codec rejects the text. For a deterministic vocabulary
    /// the result is exactly the ids that vocabulary assigns.
    pub fn encode(&self, text: &str, add_special: bool) -> (r: Result<Vec<u32>, ModelError>)
        ensures
            deterministic_vocab(self.tokenizer) ==> (r is Ok <==> encoding_of(
                self.tokenizer,
                text@,
                add_special,
            ) is Some),
            deterministic_vocab(self.tokenizer) ==> (r matches Ok(v) ==> encoding_of(
                self.tokenizer,
                text@,
                add_special,
            ) == Some(v@)),
            r is Err ==> r == Err::<Vec<u32>, ModelError>(ModelError::CodecError),
    {
        match tok_encode(&self.tokenizer, text, add_special) {
            Some(v) => Ok(v),
            None => Err(ModelError::CodecError),
        }
    }

    /// Decodes token ids back to text: exactly the text the loaded
    /// vocabulary assigns, with `CodecError` exactly when the underlying
    /// codec rejects the ids.
    pub fn decode(&self, ids: &Vec<u32>, skip_special: bool) -> (r: Result<String, ModelError>)
        ensures
            r is Ok <==> decoding_of(self.tokenizer, ids@, skip_special) is Some,
            r matches Ok(s) ==> decoding_of(self.tokenizer, ids@, skip_special) == Some(s@),
            r is Err ==> r == Err::<String, ModelError>(ModelError::CodecError),
    {
        match tok_decode(&self.tokenizer, ids, skip_special) {
            Some(s) => Ok(s),
            None => Err(ModelError::CodecError),
        }
    }

    /// The vocabulary cardinality, which sizes the embedding and projection
    /// tables.
    pub fn vocab_size(&self, with_added: bool) -> (n: usize)
        ensures
            n == vocab_count_of(self.tokenizer, with_added),
    {
        tok_vocab_size(&self.tokenizer, with_added)
    }
}

} // verus!
