//! Input collected between two runs of the console: up to sixteen presses
//! and sixteen releases, applied at once, presses first.
use vstd::prelude::*;
use crate::Gb;
use crate::joypad::{Button, Joypad};
use crate::interrupts::Interrupts;

verus! {

/// The bits of the buttons in `bs`.
pub open spec fn buttons_mask(bs: Seq<Button>) -> u8
    decreases bs.len(),
{
    if bs.len() == 0 {
        0
    } else {
        buttons_mask(bs.drop_last()) | bs.last().spec_bit()
    }
}

/// The joypad interrupt bit when one of the presses `bs` requests it with
/// the rows `dirs` and `acts` selected, else 0.
pub open spec fn press_irq_mask(bs: Seq<Button>, dirs: bool, acts: bool) -> u8
    decreases bs.len(),
{
    if bs.len() == 0 {
        0
    } else {
        press_irq_mask(bs.drop_last(), dirs, acts) | (if crate::joypad::press_requests(bs.last().spec_bit(), dirs, acts) {
            crate::interrupts::P1
        } else {
            0
        })
    }
}

/// Pending presses and releases.
pub struct InputBuffer {
    pub press_vec: [Button; 16],
    pub press_idx: u8,
    pub rel_vec: [Button; 16],
    pub rel_idx: u8,
}

impl InputBuffer {
    /// At most sixteen of each are pending.
    pub open spec fn wf(&self) -> bool {
        self.press_idx <= 16 && self.rel_idx <= 16
    }

    /// The pending presses, oldest first.
    pub open spec fn presses(&self) -> Seq<Button> {
        self.press_vec@.subrange(0, self.press_idx as int)
    }

    /// The pending releases, oldest first.
    pub open spec fn releases(&self) -> Seq<Button> {
        self.rel_vec@.subrange(0, self.rel_idx as int)
    }

    /// Nothing pending.
    pub fn new() -> (r: Self)
        ensures
            r.wf(),
            r.presses() == Seq::<Button>::empty(),
            r.releases() == Seq::<Button>::empty(),
    {
        let r = InputBuffer { press_vec: [Button::A; 16], press_idx: 0, rel_vec: [Button::A; 16], rel_idx: 0 };
        assert(r.presses() =~= Seq::<Button>::empty());
        assert(r.releases() =~= Seq::<Button>::empty());
        r
    }

    /// Records a press; dropped when sixteen are already pending.
    pub fn press(&mut self, button: Button)
        requires
            old(self).wf(),
        ensures
            final(self).wf(),
            final(self).releases() == old(self).releases(),
            final(self).presses() == (if old(self).press_idx < 16 {
                old(self).presses().push(button)
            } else {
                old(self).presses()
            }),
    {
        if self.press_idx >= 16 {
            return;
        }
        let i = self.press_idx;
        self.press_vec[i as usize] = button;
        self.press_idx = i + 1;
        assert(self.presses() =~= old(self).presses().push(button));
        assert(self.releases() =~= old(self).releases());
    }

    /// Records a release; dropped when sixteen are already pending.
    pub fn release(&mut self, button: Button)
        requires
            old(self).wf(),
        ensures
            final(self).wf(),
            final(self).presses() == old(self).presses(),
            final(self).releases() == (if old(self).rel_idx < 16 {
                old(self).releases().push(button)
            } else {
                old(self).releases()
            }),
    {
        if self.rel_idx >= 16 {
            return;
        }
        let i = self.rel_idx;
        self.rel_vec[i as usize] = button;
        self.rel_idx = i + 1;
        assert(self.releases() =~= old(self).releases().push(button));
        assert(self.presses() =~= old(self).presses());
    }

    /// Applies the pending presses, then the pending releases, to the
    /// console, and empties the buffer.
    pub fn flush(&mut self, gb: &mut Gb)
        requires
            old(self).wf(),
            old(gb).wf(),
        ensures
            final(self).wf(),
            final(self).presses() == Seq::<Button>::empty(),
            final(self).releases() == Seq::<Button>::empty(),
            final(gb).wf(),
            final(gb).joy.btn == (old(gb).joy.btn | buttons_mask(old(self).presses())) & !buttons_mask(
                old(self).releases(),
            ),
            final(gb).ints.ifr == old(gb).ints.ifr | press_irq_mask(old(self).presses(), old(gb).joy.dirs, old(gb).joy.acts),
            *final(gb) == (Gb {
                joy: Joypad { btn: final(gb).joy.btn, ..old(gb).joy },
                ints: Interrupts { ifr: final(gb).ints.ifr, ..old(gb).ints },
                ..*old(gb)
            }),
    {
        let n = self.press_idx;
        let mut i: u8 = 0;
        proof {
            assert(self.presses().subrange(0, 0) =~= Seq::<Button>::empty());
            crate::bits::lemma_mask_steps(gb.joy.btn, 0, 0, 0);
            crate::bits::lemma_mask_steps(gb.ints.ifr, 0, 0, 0);
        }
        while i < n
            invariant
                self == old(self),
                n == self.press_idx,
                n <= 16,
                i <= n,
                gb.wf(),
                gb.joy.btn == old(gb).joy.btn | buttons_mask(self.presses().subrange(0, i as int)),
                gb.ints.ifr == old(gb).ints.ifr | press_irq_mask(self.presses().subrange(0, i as int), old(gb).joy.dirs, old(gb).joy.acts),
                *gb == (Gb {
                    joy: Joypad { btn: gb.joy.btn, ..old(gb).joy },
                    ints: Interrupts { ifr: gb.ints.ifr, ..old(gb).ints },
                    ..*old(gb)
                }),
            decreases n - i,
        {
            let b = self.press_vec[i as usize];
            gb.press(b);
            proof {
                let s = self.presses();
                assert(s.subrange(0, i + 1).drop_last() =~= s.subrange(0, i as int));
                let x = old(gb).joy.btn;
                let m = buttons_mask(s.subrange(0, i as int));
                let k = b.spec_bit();
                crate::bits::lemma_mask_steps(x, m, k, 0);
                let y = old(gb).ints.ifr;
                let q = press_irq_mask(s.subrange(0, i as int), old(gb).joy.dirs, old(gb).joy.acts);
                crate::bits::lemma_mask_steps(y, q, crate::interrupts::P1, 0);
                crate::bits::lemma_mask_steps(y | q, 0, 0, 0);
                crate::bits::lemma_mask_steps(q, 0, 0, 0);
            }
            i = i + 1;
        }
        assert(self.presses().subrange(0, n as int) =~= self.presses());
        let m = self.rel_idx;
        let mut j: u8 = 0;
        let ghost pressed = gb.joy.btn;
        proof {
            assert(self.releases().subrange(0, 0) =~= Seq::<Button>::empty());
            crate::bits::lemma_mask_steps(pressed, 0, 0, 0);
        }
        while j < m
            invariant
                self == old(self),
                m == self.rel_idx,
                m <= 16,
                j <= m,
                gb.wf(),
                gb.joy.btn == pressed & !buttons_mask(self.releases().subrange(0, j as int)),
                gb.ints.ifr == old(gb).ints.ifr | press_irq_mask(self.presses(), old(gb).joy.dirs, old(gb).joy.acts),
                *gb == (Gb {
                    joy: Joypad { btn: gb.joy.btn, ..old(gb).joy },
                    ints: Interrupts { ifr: gb.ints.ifr, ..old(gb).ints },
                    ..*old(gb)
                }),
            decreases m - j,
        {
            let b = self.rel_vec[j as usize];
            gb.release(b);
            proof {
                let s = self.releases();
                assert(s.subrange(0, j + 1).drop_last() =~= s.subrange(0, j as int));
                let mk = buttons_mask(s.subrange(0, j as int));
                let k = b.spec_bit();
                crate::bits::lemma_mask_steps(pressed, mk, k, 0);
            }
            j = j + 1;
        }
        assert(self.releases().subrange(0, m as int) =~= self.releases());
        self.press_idx = 0;
        self.rel_idx = 0;
        assert(self.presses() =~= Seq::<Button>::empty());
        assert(self.releases() =~= Seq::<Button>::empty());
    }
}

} // verus!
