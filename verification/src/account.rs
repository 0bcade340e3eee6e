//! Account identifiers and their text form.

use vstd::prelude::*;
use crate::entity::text_views;

verus! {

/// The identifier of an account: a public key of 32 bytes.
#[derive(Clone, Copy, PartialEq, Eq, Debug)]
pub struct Pubkey {
    pub bytes: [u8; 32],
}

impl View for Pubkey {
    type V = Seq<u8>;

    open spec fn view(&self) -> Seq<u8> {
        self.bytes@
    }
}

/// The text that `solana_program::pubkey::Pubkey` displays for the key with
/// the bytes `bytes`: its base58 encoding.
pub uninterp spec fn pubkey_text(bytes: Seq<u8>) -> Seq<char>;

/// Calls `Display` of `solana_program::pubkey::Pubkey` on the key made of
/// `bytes` by `Pubkey::new_from_array`. The contract claims only that the text
/// is a function of the 32 bytes, and names it `pubkey_text`.
#[verifier::external_body]
fn display_pubkey(bytes: &[u8; 32]) -> (text: String)
    ensures
        text@ == pubkey_text(bytes@),
{
    solana_program::pubkey::Pubkey::new_from_array(*bytes).to_string()
}

impl Pubkey {
    /// The key with the bytes `bytes`.
    pub fn new_from_array(bytes: [u8; 32]) -> (key: Pubkey)
        ensures
            key.bytes == bytes,
    {
        Pubkey { bytes }
    }

    /// The bytes of the key.
    pub fn to_bytes(&self) -> (bytes: [u8; 32])
        ensures
            bytes == self.bytes,
    {
        self.bytes
    }

    /// The key as text.
    pub fn to_text(&self) -> (text: String)
        ensures
            text@ == pubkey_text(self@),
    {
        display_pubkey(&self.bytes)
    }
}

/// The texts of `keys`, in their order.
pub open spec fn texts_of_keys(keys: Seq<Pubkey>) -> Seq<Seq<char>> {
    keys.map_values(|key: Pubkey| pubkey_text(key@))
}

/// The text of each account of `accounts`, in their order.
pub fn account_texts(accounts: &Vec<Pubkey>) -> (texts: Vec<String>)
    ensures
        text_views(texts@) == texts_of_keys(accounts@),
{
    let mut texts: Vec<String> = Vec::new();
    let mut i: usize = 0;
    while i < accounts.len()
        invariant
            i <= accounts@.len(),
            texts@.len() == i,
            forall|j: int| 0 <= j < i ==> texts@[j]@ == pubkey_text(accounts@[j]@),
        decreases accounts@.len() - i,
    {
        texts.push(accounts[i].to_text());
        i = i + 1;
    }
    assert(text_views(texts@) =~= texts_of_keys(accounts@));
    texts
}

} // verus!
