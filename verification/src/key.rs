use vstd::prelude::*;

verus! {

/// The identity key of an open file: the serial number of the storage volume
/// holding the file, and the file's index within that volume.
///
/// Two keys are equal exactly when both fields match.  Key equality is meant
/// to approximate "same file", with a documented caveat: the OS identifiers
/// behind a key can be reused after a file's last handle is closed, and some
/// filesystems do not guarantee unique file indices.  Callers therefore keep
/// both handles open for as long as their keys are compared; a key is read
/// once, while its handle is open, and never recomputed.
#[derive(Clone, Copy, Debug, PartialEq, Eq, Hash, Structural)]
pub struct Key {
    /// Identifier of the storage volume containing the file.
    pub volume: u64,
    /// Identifier of the file within its volume, with the OS's high half in
    /// the upper 32 bits and its low half in the lower 32 bits.
    pub index: u64,
}

impl Key {
    /// The 64-bit file index obtained from the two 32-bit halves that the
    /// OS's metadata query reports.
    pub open spec fn combined_index(high: u32, low: u32) -> u64 {
        ((high as u64) << 32) | (low as u64)
    }

    /// Packs a metadata query's raw answer - the volume serial number and the
    /// high and low halves of the file index - into a key.
    pub fn from_file_information(volume: u32, index_high: u32, index_low: u32) -> (k: Key)
        ensures
            k.volume == volume as u64,
            k.index == Key::combined_index(index_high, index_low),
    {
        Key {
            volume: volume as u64,
            index: ((index_high as u64) << 32) | (index_low as u64),
        }
    }

    /// A key from an already combined volume and index pair, for callers on
    /// platforms whose metadata query reports 64-bit identifiers directly.
    pub fn new(volume: u64, index: u64) -> (k: Key)
        ensures
            k.volume == volume,
            k.index == index,
    {
        Key { volume, index }
    }
}

/// Law: keys compare equal exactly when both fields match.
pub proof fn lemma_key_equality(a: Key, b: Key)
    ensures
        (a == b) <==> (a.volume == b.volume && a.index == b.index),
{
}

/// Law: packing the index halves loses nothing - two combined indices agree
/// exactly when both halves agree, so distinct files reported with distinct
/// index halves always receive distinct keys.
pub proof fn lemma_combined_index_injective(h1: u32, l1: u32, h2: u32, l2: u32)
    ensures
        (Key::combined_index(h1, l1) == Key::combined_index(h2, l2)) <==> (h1 == h2 && l1 == l2),
{
    assert((((h1 as u64) << 32) | (l1 as u64)) == (((h2 as u64) << 32) | (l2 as u64)) <==> (h1
        == h2 && l1 == l2)) by (bit_vector);
}

} // verus!
