//! LRC checksum (base `0x7F`, XOR-folded) and the framing-mode selector.
use vstd::prelude::*;

verus! {

/// LRC base value.
pub const BASE: u8 = 0x7F;

/// Which framing bytes are folded into the LRC besides the payload.
#[derive(Debug, Clone, Copy, PartialEq, Eq, Hash, Structural, Default)]
pub enum LrcMode {
    /// `STX + payload + ETX`.
    Stx,
    /// payload only.
    #[default]
    Std,
    /// `payload + ETX`.
    Noext,
    /// `STX + payload`.
    StxNoext,
}

/// XOR of all bytes of `s`, folded onto `acc` from the left.
pub open spec fn xor_fold(acc: u8, s: Seq<u8>) -> u8
    decreases s.len(),
{
    if s.len() == 0 {
        acc
    } else {
        xor_fold(acc, s.drop_last()) ^ s.last()
    }
}

impl LrcMode {
    /// Whether `STX` is folded in under this mode.
    pub open spec fn folds_stx(self) -> bool {
        self is Stx || self is StxNoext
    }

    /// Whether `ETX` is folded in under this mode.
    pub open spec fn folds_etx(self) -> bool {
        self is Stx || self is Noext
    }

    /// The LRC of `payload` under this mode.
    pub open spec fn spec_compute(self, payload: Seq<u8>) -> u8 {
        let start: u8 = if self.folds_stx() { BASE ^ 0x02u8 } else { BASE };
        let folded = xor_fold(start, payload);
        if self.folds_etx() { folded ^ 0x03u8 } else { folded }
    }

    /// Computes the LRC of `payload` under this mode.
    pub fn compute(self, payload: &[u8]) -> (lrc: u8)
        ensures
            lrc == self.spec_compute(payload@),
    {
        let mut lrc: u8 = BASE;
        if matches!(self, LrcMode::Stx | LrcMode::StxNoext) {
            lrc = lrc ^ 0x02u8;
        }
        let ghost start = lrc;
        let mut i: usize = 0;
        while i < payload.len()
            invariant
                0 <= i <= payload@.len(),
                lrc == xor_fold(start, payload@.subrange(0, i as int)),
                start == (if self.folds_stx() { BASE ^ 0x02u8 } else { BASE }),
            decreases payload@.len() - i,
        {
            proof {
                assert(payload@.subrange(0, i as int + 1).drop_last() =~= payload@.subrange(0, i as int));
            }
            lrc = lrc ^ payload[i];
            i = i + 1;
        }
        proof {
            assert(payload@.subrange(0, payload@.len() as int) =~= payload@);
        }
        if matches!(self, LrcMode::Stx | LrcMode::Noext) {
            lrc = lrc ^ 0x03u8;
        }
        lrc
    }
}

} // verus!
