//! General laws of the transport, stated over the same vocabulary as the
//! operations' contracts and proved once and for all.

use vstd::prelude::*;

use crate::regs::{hi32, lo32, word64};

verus! {

/// The device status after a sequence of negotiation steps, each of which
/// adds one bit mask by a bitwise OR.  [`crate::com_cfg::ComCfg::ack_dev`],
/// [`crate::com_cfg::ComCfg::set_drv`] and
/// [`crate::com_cfg::ComCfg::drv_ok`] each ensure exactly such a step, as
/// does [`crate::com_cfg::ComCfg::features_ok`] on a device that accepts
/// the subset (on a rejecting one it leaves the status unchanged, which
/// preserves bits trivially).
pub open spec fn status_after(s0: u32, masks: Seq<u32>) -> u32
    decreases masks.len(),
{
    if masks.len() == 0 {
        s0
    } else {
        status_after(s0 | masks[0], masks.drop_first())
    }
}

/// Device-status bits are monotonic: after any sequence of negotiation
/// steps, each adding a mask by OR and none resetting or failing the
/// device, every bit set before the sequence is still set after it.
pub proof fn lemma_status_bits_monotonic(s0: u32, masks: Seq<u32>, b: u32)
    requires
        s0 & b == b,
    ensures
        status_after(s0, masks) & b == b,
    decreases masks.len(),
{
    if masks.len() > 0 {
        let m = masks[0];
        assert((s0 | m) & b == b) by (bit_vector)
            requires
                s0 & b == b,
        ;
        lemma_status_bits_monotonic(s0 | m, masks.drop_first(), b);
    }
}

/// Splitting a 64-bit feature word into its two selector-gated halves and
/// reassembling them yields the original word: the two-half protocol of
/// [`crate::com_cfg::ComCfg::set_drv_features`] and
/// [`crate::com_cfg::ComCfg::dev_features`] is self-consistent, so a
/// written subset reads back identically.
pub proof fn lemma_feature_word_roundtrip(feats: u64)
    ensures
        word64(hi32(feats), lo32(feats)) == feats,
{
    assert(((((feats >> 32) as u32) as u64) << 32) | ((feats as u32) as u64) == feats)
        by (bit_vector);
}

/// The converse direction: a word assembled from two halves hands exactly
/// those halves back, so what the driver wrote half-by-half is what the
/// device reads as a word.
pub proof fn lemma_feature_word_halves(hi: u32, lo: u32)
    ensures
        hi32(word64(hi, lo)) == hi,
        lo32(word64(hi, lo)) == lo,
{
    assert(((((hi as u64) << 32) | (lo as u64)) >> 32) as u32 == hi) by (bit_vector);
    assert((((hi as u64) << 32) | (lo as u64)) as u32 == lo) by (bit_vector);
}

} // verus!
