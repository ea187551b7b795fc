//! Mel filter banks of the Whisper front end.
//!
//! Whisper models use a bank of 80 or of 128 mel filters. The banks are
//! stored as little-endian 32-bit words, one per filter coefficient; the
//! words are the bit patterns of the coefficients.

use byteorder::{ByteOrder, LittleEndian};
use vstd::prelude::*;

verus! {

/// Coefficients per mel filter: the frequency bins of a 400-point FFT.
pub const MEL_FILTER_WIDTH: usize = 201;

/// Bytes in a bank of `num_mel_bins` filters of 32-bit coefficients.
pub open spec fn bank_bytes(num_mel_bins: int) -> int {
    num_mel_bins * MEL_FILTER_WIDTH * 4
}

/// Errors in storing or selecting a mel filter bank.
#[derive(Clone, Copy, Debug, PartialEq, Eq, Structural)]
pub enum MelError {
    /// No bank is stored for this number of mel bins.
    UnexpectedNumMelBins(usize),
    /// The bank for `num_mel_bins` filters has `len` bytes, not
    /// `num_mel_bins * 201 * 4`.
    BankSize { num_mel_bins: usize, len: usize },
}

/// The stored mel filter banks: 80 and 128 filters of 201 coefficients.
pub struct MelFilterAssets {
    mel_80: Vec<u8>,
    mel_128: Vec<u8>,
}

impl MelFilterAssets {
    #[verifier::type_invariant]
    spec fn banks_have_their_size(self) -> bool {
        &&& self.mel_80@.len() == bank_bytes(80)
        &&& self.mel_128@.len() == bank_bytes(128)
    }

    /// The bank with 80 filters.
    pub closed spec fn bank_80(&self) -> Seq<u8> {
        self.mel_80@
    }

    /// The bank with 128 filters.
    pub closed spec fn bank_128(&self) -> Seq<u8> {
        self.mel_128@
    }

    /// The two banks, when each has 201 four-byte coefficients per filter;
    /// else an error naming the first bank of the wrong size.
    pub fn new(mel_80: Vec<u8>, mel_128: Vec<u8>) -> (r: Result<MelFilterAssets, MelError>)
        ensures
            mel_80@.len() != bank_bytes(80) ==> r == Err::<MelFilterAssets, MelError>(
                MelError::BankSize { num_mel_bins: 80, len: mel_80@.len() as usize },
            ),
            mel_80@.len() == bank_bytes(80) && mel_128@.len() != bank_bytes(128) ==> r == Err::<
                MelFilterAssets,
                MelError,
            >(MelError::BankSize { num_mel_bins: 128, len: mel_128@.len() as usize }),
            mel_80@.len() == bank_bytes(80) && mel_128@.len() == bank_bytes(128) ==> (r matches Ok(
                a,
            ) && a.bank_80() == mel_80@ && a.bank_128() == mel_128@),
    {
        if mel_80.len() != 80 * MEL_FILTER_WIDTH * 4 {
            Err(MelError::BankSize { num_mel_bins: 80, len: mel_80.len() })
        } else if mel_128.len() != 128 * MEL_FILTER_WIDTH * 4 {
            Err(MelError::BankSize { num_mel_bins: 128, len: mel_128.len() })
        } else {
            Ok(MelFilterAssets { mel_80, mel_128 })
        }
    }
}

/// The stored bank for `num_mel_bins` filters, if there is one.
pub open spec fn mel_bank(assets: MelFilterAssets, num_mel_bins: usize) -> Option<Seq<u8>> {
    if num_mel_bins == 80 {
        Some(assets.bank_80())
    } else if num_mel_bins == 128 {
        Some(assets.bank_128())
    } else {
        None
    }
}

/// The bytes of the filter bank for a model with `num_mel_bins` mel bins:
/// the 80-filter bank for 80, the 128-filter bank for 128 (201 four-byte
/// coefficients per filter), and an error for any other number.
pub fn get_mel_bytes(num_mel_bins: usize, assets: &MelFilterAssets) -> (r: Result<Vec<u8>, MelError>)
    ensures
        num_mel_bins == 80 ==> (r matches Ok(v) && v@ == assets.bank_80()),
        num_mel_bins == 128 ==> (r matches Ok(v) && v@ == assets.bank_128()),
        match mel_bank(*assets, num_mel_bins) {
            Some(bank) => r matches Ok(v) && v@ == bank && v@.len() == bank_bytes(
                num_mel_bins as int,
            ),
            None => r == Err::<Vec<u8>, MelError>(MelError::UnexpectedNumMelBins(num_mel_bins)),
        },
{
    proof {
        use_type_invariant(assets);
    }
    if num_mel_bins == 80 {
        Ok(vstd::slice::slice_to_vec(assets.mel_80.as_slice()))
    } else if num_mel_bins == 128 {
        Ok(vstd::slice::slice_to_vec(assets.mel_128.as_slice()))
    } else {
        Err(MelError::UnexpectedNumMelBins(num_mel_bins))
    }
}

/// The bank selected for 80 mel bins is the stored 80-filter bank byte for
/// byte, the one for 128 the stored 128-filter bank, and no other number
/// selects a bank; a bank built from bytes holds exactly those bytes.
pub proof fn law_mel_bank_is_stored_bank(assets: MelFilterAssets, num_mel_bins: usize)
    ensures
        mel_bank(assets, 80) == Some(assets.bank_80()),
        mel_bank(assets, 128) == Some(assets.bank_128()),
        num_mel_bins != 80 && num_mel_bins != 128 ==> mel_bank(assets, num_mel_bins) is None,
{
}

/// The little-endian 32-bit word that starts at byte `4 * i` of `bytes`.
pub open spec fn le_word(bytes: Seq<u8>, i: int) -> u32 {
    (bytes[4 * i] + bytes[4 * i + 1] * 256 + bytes[4 * i + 2] * 65536 + bytes[4 * i + 3]
        * 16777216) as u32
}

/// A word is little-endian: its lowest byte comes first. A bank has 201
/// coefficients per filter.
pub proof fn law_le_word_byte_order(bytes: Seq<u8>, i: int)
    requires
        0 <= i,
        4 * i + 3 < bytes.len(),
    ensures
        le_word(bytes, i) % 256 == bytes[4 * i],
        (le_word(bytes, i) / 256) % 256 == bytes[4 * i + 1],
        (le_word(bytes, i) / 65536) % 256 == bytes[4 * i + 2],
        le_word(bytes, i) / 16777216 == bytes[4 * i + 3],
        MEL_FILTER_WIDTH == 201,
{
    let b0 = bytes[4 * i];
    let b1 = bytes[4 * i + 1];
    let b2 = bytes[4 * i + 2];
    let b3 = bytes[4 * i + 3];
    let w: int = b0 + b1 * 256 + b2 * 65536 + b3 * 16777216;
    assert(0 <= w < 0x1_0000_0000) by (nonlinear_arith)
        requires
            0 <= b0 < 256,
            0 <= b1 < 256,
            0 <= b2 < 256,
            0 <= b3 < 256,
            w == b0 + b1 * 256 + b2 * 65536 + b3 * 16777216,
    ;
    assert(le_word(bytes, i) == w);
    assert(w % 256 == b0 && (w / 256) % 256 == b1 && (w / 65536) % 256 == b2 && w / 16777216
        == b3) by (nonlinear_arith)
        requires
            0 <= b0 < 256,
            0 <= b1 < 256,
            0 <= b2 < 256,
            0 <= b3 < 256,
            w == b0 + b1 * 256 + b2 * 65536 + b3 * 16777216,
    ;
}

/// `byteorder`'s `LittleEndian::read_u32_into`: fills `dst` with the
/// little-endian words of `src`, word `i` from bytes `4 * i .. 4 * i + 4`.
/// It panics unless `src` has exactly four bytes per word of `dst`, which
/// the precondition rules out.
#[verifier::external_body]
fn read_u32_le_into(src: &[u8], dst: &mut Vec<u32>)
    requires
        src@.len() == 4 * old(dst)@.len(),
    ensures
        final(dst)@.len() == old(dst)@.len(),
        forall|i: int| 0 <= i < final(dst)@.len() ==> #[trigger] final(dst)@[i] == le_word(src@, i),
{
    LittleEndian::read_u32_into(src, dst.as_mut_slice());
}

/// The words of a stored filter bank, one per filter coefficient. The
/// bank must hold a whole number of words.
pub fn mel_filter_bits(mel_bytes: &[u8]) -> (r: Vec<u32>)
    requires
        mel_bytes@.len() % 4 == 0,
    ensures
        r@.len() == mel_bytes@.len() / 4,
        forall|i: int| 0 <= i < r@.len() ==> #[trigger] r@[i] == le_word(mel_bytes@, i),
{
    let n = mel_bytes.len() / 4;
    let mut words: Vec<u32> = vec![0u32; n];
    read_u32_le_into(mel_bytes, &mut words);
    words
}

} // verus!
