//! The extended I/O interrupt controller.

use vstd::prelude::*;
use vstd::std_specs::bits::u64_leading_zeros;
use crate::bits::{
    bit64, lemma_and_bit64, lemma_clear_bit64, lemma_set_bit64, lemma_top_bit64,
    lemma_zero_bit64, top_bit64,
};

verus! {

/// The registers of the extended I/O interrupt controller, which serves 256
/// interrupt lines in four words of 64 lines each.
///
/// The status that the calling core sees of a line is its status bit where
/// the line is enabled: a line that is not enabled is never delivered.
#[derive(Clone, Copy, Debug)]
pub struct Eiointc {
    /// The miscellaneous-function register, which switches the controller on.
    pub misc: u64,
    /// The pin that each group of 32 lines is routed to.
    pub pin_map: [u8; 8],
    /// The cores that each line is routed to, one bit per core.
    pub core_map: [u8; 256],
    /// How the first node-mapping register selects a node.
    pub node_type: u16,
    /// The lines that are enabled.
    pub enable: [u64; 4],
    /// The lines that rotate among their cores.
    pub bounce: [u64; 4],
    /// The lines that are pending.
    pub status: [u64; 4],
}

impl Eiointc {
    /// The address of the enable words.
    pub const EXT_IOI_EN_BASE: usize = 0x1600;

    /// The address of the rotation words.
    pub const EXT_IOI_BOUNCE_BASE: usize = 0x1680;

    /// The address of the status words.
    pub const EXT_IOI_SR_BASE: usize = 0x1700;

    /// The address of the status words of the calling core.
    pub const PERCORE_EXT_IOI_SR_BASE: usize = 0x1800;

    /// The address of the pin routing bytes.
    pub const EXT_IOI_MAP_BASE: usize = 0x14C0;

    /// The address of the core routing bytes.
    pub const EXT_IOI_MAP_CORE_BASE: usize = 0x1C00;

    /// The address of the node-mapping registers.
    pub const EXT_IOI_NODE_TYPE_BASE: usize = 0x14A0;

    /// The address of the miscellaneous-function register.
    pub const MISC_FUNC: usize = 0x420;

    /// The bit of the miscellaneous-function register that switches the
    /// controller on.
    pub const MISC_EXT_IOI_EN: u64 = 0x2_0000_0000_0000;

    /// Whether line `no` is enabled.
    pub open spec fn enabled(self, no: int) -> bool {
        0 <= no < 256 && bit64(self.enable@[no / 64], no % 64)
    }

    /// Whether line `no` is pending.
    pub open spec fn pending(self, no: int) -> bool {
        0 <= no < 256 && bit64(self.status@[no / 64], no % 64)
    }

    /// Whether line `no` rotates among its cores.
    pub open spec fn bouncing(self, no: int) -> bool {
        0 <= no < 256 && bit64(self.bounce@[no / 64], no % 64)
    }

    /// Status word `group` as the calling core sees it.
    pub open spec fn percore_status(self, group: int) -> u64 {
        self.status@[group] & self.enable@[group]
    }

    /// Whether line `no` is pending and enabled, so that a claim may
    /// return it.
    pub open spec fn deliverable(self, no: int) -> bool {
        self.pending(no) && self.enabled(no)
    }

    /// The controller after reset: every register is zero.
    pub fn new() -> (r: Self)
        ensures
            r.misc == 0,
            r.node_type == 0,
            forall|i: int| 0 <= i < 8 ==> r.pin_map@[i] == 0,
            forall|i: int| 0 <= i < 256 ==> r.core_map@[i] == 0,
            forall|g: int| 0 <= g < 4 ==> r.enable@[g] == 0 && r.bounce@[g] == 0
                && r.status@[g] == 0,
            forall|no: int| !r.enabled(no) && !r.pending(no),
    {
        let r = Eiointc {
            misc: 0,
            pin_map: [0u8;8],
            core_map: [0u8;256],
            node_type: 0,
            enable: [0u64;4],
            bounce: [0u64;4],
            status: [0u64;4],
        };
        assert forall|no: int| !r.enabled(no) && !r.pending(no) by {
            if 0 <= no < 256 {
                lemma_zero_bit64((no % 64) as u64);
            }
        }
        r
    }

    /// The line that a claim returns: the highest set bit of the highest
    /// status word of the calling core that is not zero.
    pub open spec fn highest_deliverable(self) -> Option<int> {
        if self.percore_status(3) != 0 {
            Some(192 + top_bit64(self.percore_status(3)))
        } else if self.percore_status(2) != 0 {
            Some(128 + top_bit64(self.percore_status(2)))
        } else if self.percore_status(1) != 0 {
            Some(64 + top_bit64(self.percore_status(1)))
        } else if self.percore_status(0) != 0 {
            Some(top_bit64(self.percore_status(0)))
        } else {
            None
        }
    }

    /// The bits of the core routing byte for `core_num` cores: one bit for
    /// each core.
    pub open spec fn core_mask(core_num: usize) -> u8 {
        ((1u8 << (core_num as u8)) - 1) as u8
    }

    /// Whether the controller is switched on and routes the lines as `init`
    /// sets them up for `core_num` cores.
    pub open spec fn routed(self, core_num: usize) -> bool {
        &&& self.misc & Self::MISC_EXT_IOI_EN == Self::MISC_EXT_IOI_EN
        &&& forall|i: int| 0 <= i < 8 ==> self.pin_map@[i] == i
        &&& forall|i: int| 0 <= i < 256 ==> self.core_map@[i] == Self::core_mask(core_num)
        &&& self.node_type == 1
    }

    /// Switches the controller on and routes the lines: each group of 32
    /// lines to the pin of its number, every line to the first `core_num`
    /// cores of node 0. The enable, rotation and status words stay as they
    /// are, so a second call changes nothing.
    pub fn init(&mut self, core_num: usize)
        requires
            core_num <= 4,
        ensures
            final(self).misc == old(self).misc | Self::MISC_EXT_IOI_EN,
            forall|i: int| 0 <= i < 8 ==> final(self).pin_map@[i] == i,
            forall|i: int| 0 <= i < 256 ==> final(self).core_map@[i] == Self::core_mask(core_num),
            final(self).node_type == 1,
            final(self).enable == old(self).enable,
            final(self).bounce == old(self).bounce,
            final(self).status == old(self).status,
            final(self).routed(core_num),
            old(self).routed(core_num) ==> *final(self) == *old(self),
    {
        let before: u64 = self.misc;
        assert((before | 0x2_0000_0000_0000u64) & 0x2_0000_0000_0000u64 == 0x2_0000_0000_0000u64)
            by (bit_vector);
        assert(before & 0x2_0000_0000_0000u64 == 0x2_0000_0000_0000u64 ==> before
            | 0x2_0000_0000_0000u64 == before) by (bit_vector);
        self.misc = self.misc | Self::MISC_EXT_IOI_EN;
        let mut i: usize = 0;
        while i < 8
            invariant
                i <= 8,
                forall|j: int| 0 <= j < i ==> self.pin_map@[j] == j,
                self.enable == old(self).enable,
                self.bounce == old(self).bounce,
                self.status == old(self).status,
                self.misc == old(self).misc | Self::MISC_EXT_IOI_EN,
            decreases 8 - i,
        {
            self.pin_map[i] = i as u8;
            i += 1;
        }
        let n: u8 = core_num as u8;
        assert(n <= 4 ==> 1u8 <= (1u8 << n) <= 16u8) by (bit_vector);
        let mask: u8 = (1u8 << n) - 1;
        let mut i: usize = 0;
        while i < 256
            invariant
                i <= 256,
                mask == Self::core_mask(core_num),
                forall|j: int| 0 <= j < 8 ==> self.pin_map@[j] == j,
                forall|j: int| 0 <= j < i ==> self.core_map@[j] == mask,
                self.enable == old(self).enable,
                self.bounce == old(self).bounce,
                self.status == old(self).status,
                self.misc == old(self).misc | Self::MISC_EXT_IOI_EN,
            decreases 256 - i,
        {
            self.core_map[i] = mask;
            i += 1;
        }
        self.node_type = 0x01;
        proof {
            if old(self).routed(core_num) {
                assert(self.pin_map@ =~= old(self).pin_map@);
                assert(self.core_map@ =~= old(self).core_map@);
                assert(self.pin_map == old(self).pin_map);
                assert(self.core_map == old(self).core_map);
            }
        }
    }

    /// Enables line `no` and lets it rotate among its cores. No other line
    /// changes, and nothing becomes or stops being pending.
    pub fn enable_irq(&mut self, no: usize)
        requires
            no < 256,
        ensures
            final(self).enable@ == old(self).enable@.update(
                no as int / 64,
                old(self).enable@[no as int / 64] | (1u64 << ((no % 64) as u64)),
            ),
            final(self).bounce@ == old(self).bounce@.update(
                no as int / 64,
                old(self).bounce@[no as int / 64] | (1u64 << ((no % 64) as u64)),
            ),
            final(self).status == old(self).status,
            final(self).misc == old(self).misc,
            final(self).pin_map == old(self).pin_map,
            final(self).core_map == old(self).core_map,
            final(self).node_type == old(self).node_type,
            forall|m: int| #[trigger] final(self).enabled(m) == (old(self).enabled(m) || m == no),
            forall|m: int| #[trigger] final(self).bouncing(m) == (old(self).bouncing(m) || m == no),
            forall|m: int| #[trigger] final(self).pending(m) == old(self).pending(m),
    {
        let gp64: usize = no >> 6;
        let off64: usize = no & 63;
        assert(no >> 6 == no / 64 && no & 63 == no % 64) by (bit_vector);
        let en: u64 = self.enable[gp64] | (1u64 << (off64 as u64));
        self.enable[gp64] = en;
        let bounce: u64 = self.bounce[gp64] | (1u64 << (off64 as u64));
        self.bounce[gp64] = bounce;
        proof {
            assert forall|m: int| #[trigger] self.enabled(m) == (old(self).enabled(m) || m == no)
                by {
                if 0 <= m < 256 {
                    lemma_set_bit64(old(self).enable@[gp64 as int], off64 as u64, (m % 64) as u64);
                }
            }
            assert forall|m: int| #[trigger]
                self.bouncing(m) == (old(self).bouncing(m) || m == no) by {
                if 0 <= m < 256 {
                    lemma_set_bit64(old(self).bounce@[gp64 as int], off64 as u64, (m % 64) as u64);
                }
            }
        }
    }

    /// Disables line `no`. No other line changes, and nothing becomes or
    /// stops being pending.
    pub fn disable_irq(&mut self, no: usize)
        requires
            no < 256,
        ensures
            final(self).enable@ == old(self).enable@.update(
                no as int / 64,
                old(self).enable@[no as int / 64] & !(1u64 << ((no % 64) as u64)),
            ),
            final(self).bounce == old(self).bounce,
            final(self).status == old(self).status,
            final(self).misc == old(self).misc,
            final(self).pin_map == old(self).pin_map,
            final(self).core_map == old(self).core_map,
            final(self).node_type == old(self).node_type,
            forall|m: int| #[trigger] final(self).enabled(m) == (old(self).enabled(m) && m != no),
            forall|m: int| #[trigger] final(self).pending(m) == old(self).pending(m),
    {
        let group: usize = no >> 6;
        let idx: usize = no & 63;
        assert(no >> 6 == no / 64 && no & 63 == no % 64) by (bit_vector);
        let en: u64 = self.enable[group] & !(1u64 << (idx as u64));
        self.enable[group] = en;
        proof {
            assert forall|m: int| #[trigger] self.enabled(m) == (old(self).enabled(m) && m != no)
                by {
                if 0 <= m < 256 {
                    lemma_clear_bit64(old(self).enable@[group as int], idx as u64, (m % 64) as u64);
                }
            }
        }
    }

    /// Marks line `no` pending, as the hardware does when the line fires.
    pub fn raise_irq(&mut self, no: usize)
        requires
            no < 256,
        ensures
            final(self).status@ == old(self).status@.update(
                no as int / 64,
                old(self).status@[no as int / 64] | (1u64 << ((no % 64) as u64)),
            ),
            final(self).enable == old(self).enable,
            final(self).bounce == old(self).bounce,
            final(self).misc == old(self).misc,
            final(self).pin_map == old(self).pin_map,
            final(self).core_map == old(self).core_map,
            final(self).node_type == old(self).node_type,
            forall|m: int| #[trigger] final(self).pending(m) == (old(self).pending(m) || m == no),
            forall|m: int| #[trigger] final(self).enabled(m) == old(self).enabled(m),
    {
        let group: usize = no >> 6;
        let idx: usize = no & 63;
        assert(no >> 6 == no / 64 && no & 63 == no % 64) by (bit_vector);
        let sr: u64 = self.status[group] | (1u64 << (idx as u64));
        self.status[group] = sr;
        proof {
            assert forall|m: int| #[trigger] self.pending(m) == (old(self).pending(m) || m == no)
                by {
                if 0 <= m < 256 {
                    lemma_set_bit64(old(self).status@[group as int], idx as u64, (m % 64) as u64);
                }
            }
        }
    }

    /// Returns the highest line that is pending and enabled, or `None`
    /// where there is none. The status words of the calling core are read
    /// from word 3 down to word 0, and the first word that is not zero
    /// decides alone: its highest set bit is the line returned.
    #[verifier::rlimit(40)]
    pub fn claim_irq(&self) -> (r: Option<usize>)
        ensures
            match r {
                Some(no) => self.highest_deliverable() == Some(no as int),
                None => self.highest_deliverable() is None,
            },
            match r {
                Some(no) => no < 256 && self.deliverable(no as int) && forall|m: int|
                    self.deliverable(m) ==> m <= no,
                None => forall|m: int| !self.deliverable(m),
            },
    {
        proof {
            self.lemma_highest_is_greatest();
        }
        let flags3: u64 = self.status[3] & self.enable[3];
        if flags3 != 0 {
            proof {
                lemma_top_bit64(flags3);
            }
            return Some(255 - flags3.leading_zeros() as usize);
        }
        let flags2: u64 = self.status[2] & self.enable[2];
        if flags2 != 0 {
            proof {
                lemma_top_bit64(flags2);
            }
            return Some(191 - flags2.leading_zeros() as usize);
        }
        let flags1: u64 = self.status[1] & self.enable[1];
        if flags1 != 0 {
            proof {
                lemma_top_bit64(flags1);
            }
            return Some(127 - flags1.leading_zeros() as usize);
        }
        let flags0: u64 = self.status[0] & self.enable[0];
        if flags0 != 0 {
            proof {
                lemma_top_bit64(flags0);
            }
            return Some(63 - flags0.leading_zeros() as usize);
        }
        None
    }

    /// Acknowledges line `no`: it stops being pending, stays enabled as it
    /// was, and can be delivered again when it next fires.
    pub fn complete_irq(&mut self, no: usize)
        requires
            no < 256,
        ensures
            final(self).status@ == old(self).status@.update(
                no as int / 64,
                old(self).status@[no as int / 64] & !(1u64 << ((no % 64) as u64)),
            ),
            final(self).enable == old(self).enable,
            final(self).bounce == old(self).bounce,
            final(self).misc == old(self).misc,
            final(self).pin_map == old(self).pin_map,
            final(self).core_map == old(self).core_map,
            final(self).node_type == old(self).node_type,
            forall|m: int| #[trigger] final(self).pending(m) == (old(self).pending(m) && m != no),
            forall|m: int| #[trigger] final(self).enabled(m) == old(self).enabled(m),
    {
        let group: usize = no >> 6;
        let idx: usize = no & 63;
        assert(no >> 6 == no / 64 && no & 63 == no % 64) by (bit_vector);
        let sr: u64 = self.status[group] & !(1u64 << (idx as u64));
        self.status[group] = sr;
        proof {
            assert forall|m: int| #[trigger] self.pending(m) == (old(self).pending(m) && m != no)
                by {
                if 0 <= m < 256 {
                    lemma_clear_bit64(old(self).status@[group as int], idx as u64, (m % 64) as u64);
                }
            }
        }
    }

    /// The line that a claim returns is pending and enabled, and no higher
    /// line is; where a claim returns none, no line is pending and enabled.
    #[verifier::rlimit(40)]
    pub proof fn lemma_highest_is_greatest(self)
        ensures
            match self.highest_deliverable() {
                Some(no) => 0 <= no < 256 && self.deliverable(no) && forall|m: int|
                    self.deliverable(m) ==> m <= no,
                None => forall|m: int| !self.deliverable(m),
            },
    {
        assert forall|m: int| self.deliverable(m) implies bit64(
            self.percore_status(m / 64),
            m % 64,
        ) by {
            lemma_and_bit64(self.status@[m / 64], self.enable@[m / 64], (m % 64) as u64);
        }
        assert forall|g: int, k: int| 0 <= g < 4 && 0 <= k < 64 && bit64(
            self.percore_status(g),
            k,
        ) implies self.deliverable(64 * g + k) by {
            lemma_and_bit64(self.status@[g], self.enable@[g], k as u64);
        }
        assert forall|g: int, m: int|
            0 <= g < 4 && self.percore_status(g) == 0 && m / 64 == g implies !self.deliverable(
            m,
        ) by {
            if 0 <= m < 256 {
                lemma_zero_bit64((m % 64) as u64);
            }
        }
        if self.percore_status(3) != 0 {
            lemma_top_bit64(self.percore_status(3));
        } else if self.percore_status(2) != 0 {
            lemma_top_bit64(self.percore_status(2));
        } else if self.percore_status(1) != 0 {
            lemma_top_bit64(self.percore_status(1));
        } else if self.percore_status(0) != 0 {
            lemma_top_bit64(self.percore_status(0));
        }
    }

    /// Where status word 3 of the calling core is not zero, a claim returns
    /// 192 plus the position of its highest set bit, whatever the other
    /// words hold.
    pub proof fn lemma_word_three_wins(self)
        requires
            self.percore_status(3) != 0,
        ensures
            self.highest_deliverable() == Some(192 + top_bit64(self.percore_status(3))),
            192 <= 192 + top_bit64(self.percore_status(3)) < 256,
    {
        lemma_top_bit64(self.percore_status(3));
    }
}

} // verus!
