//! The effects that are shown on the hexes of the board.

use vstd::prelude::*;

verus! {

/// An effect that a hex can be shown with.
#[derive(Clone, Copy, Debug, PartialEq, Eq, Structural)]
pub enum Effect {
    /// The hex is lit: it is selected, or the selected piece can move to
    /// it.
    Light,
    /// The king on the hex is in check.
    Check,
}

impl Effect {
    /// The bit that stands for the effect.
    pub open spec fn spec_mask(self) -> u8 {
        match self {
            Effect::Light => 1,
            Effect::Check => 2,
        }
    }

    /// The bit that stands for the effect.
    #[verifier::when_used_as_spec(spec_mask)]
    pub fn mask(self) -> (mask: u8)
        ensures
            mask == self.spec_mask(),
    {
        match self {
            Effect::Light => 1,
            Effect::Check => 2,
        }
    }
}

/// The width of the square that holds the board.
pub const WIDTH: usize = 11;

/// The number that tells with which effects a hex is shown.
pub open spec fn hex_packet(effects: u8, q: int, r: int) -> u16 {
    (effects * 256 + q * 16 + r) as u16
}

/// The numbers for the first `n` hexes, row by row, of those that are shown
/// with an effect.
pub open spec fn packets(cells: Seq<u8>, n: int) -> Seq<u16>
    decreases n,
{
    if n <= 0 {
        Seq::empty()
    } else if cells[n - 1] == 0 {
        packets(cells, n - 1)
    } else {
        packets(cells, n - 1).push(hex_packet(cells[n - 1], (n - 1) / 11, (n - 1) % 11))
    }
}

/// The effects of all hexes after the hexes of a list were given one more
/// effect.
pub open spec fn with_effect(cells: Seq<u8>, mask: u8, hexes: Seq<(u8, u8)>) -> Seq<u8> {
    Seq::new(
        121,
        |i: int|
            if hexes.contains(((i / 11) as u8, (i % 11) as u8)) {
                cells[i] | mask
            } else {
                cells[i]
            },
    )
}

/// The effects of all hexes after an effect was taken from all of them.
pub open spec fn without_effect(cells: Seq<u8>, mask: u8) -> Seq<u8> {
    Seq::new(121, |i: int| cells[i] & !mask)
}

/// The effects of all hexes where none is shown with any.
pub open spec fn no_effects() -> Seq<u8> {
    Seq::new(121, |i: int| 0u8)
}

/// Whether all hexes of a list lie in the square that holds the board.
pub open spec fn all_in_square(hexes: Seq<(u8, u8)>) -> bool {
    forall|i: int| 0 <= i < hexes.len() ==> (#[trigger] hexes[i]).0 < 11 && hexes[i].1 < 11
}

/// Keeps the effects of each hex.
pub struct HighlightController {
    cells: [u8; 121],
}

impl Default for HighlightController {
    fn default() -> (controller: Self)
        ensures
            forall|q: int, r: int| 0 <= q < 11 && 0 <= r < 11 ==> controller.effects(q, r) == 0,
    {
        HighlightController::new()
    }
}

impl HighlightController {
    /// The effects of all hexes, row by row.
    pub closed spec fn cells(&self) -> Seq<u8> {
        self.cells@
    }

    /// The effects of the hex `(q, r)`: a bit for each.
    pub open spec fn effects(&self, q: int, r: int) -> u8 {
        self.cells()[q * 11 + r]
    }

    /// No hex is shown with an effect.
    pub fn new() -> (controller: Self)
        ensures
            forall|q: int, r: int| 0 <= q < 11 && 0 <= r < 11 ==> controller.effects(q, r) == 0,
            controller.cells() == no_effects(),
    {
        let controller = HighlightController { cells: [0u8; 121] };
        assert(controller.cells() =~= no_effects());
        controller
    }

    /// The numbers that tell which hexes are shown with which effects, row
    /// by row.
    pub fn send(&self) -> (packet: Vec<u16>)
        ensures
            packet@ == packets(self.cells(), 121),
    {
        let mut packet: Vec<u16> = Vec::new();
        let mut i: usize = 0;
        while i < 121
            invariant
                0 <= i <= 121,
                packet@ == packets(self.cells(), i as int),
            decreases 121 - i,
        {
            let effects = self.cells[i] as u16;
            if effects != 0 {
                let q = (i / WIDTH) as u16;
                let r = (i % WIDTH) as u16;
                assert(effects << 8 | q << 4 | r == effects * 256 + q * 16 + r) by (bit_vector)
                    requires
                        effects < 256,
                        q < 16,
                        r < 16,
                ;
                packet.push(effects << 8 | q << 4 | r);
            }
            i = i + 1;
        }
        packet
    }

    /// Takes all effects from all hexes.
    pub fn reset(&mut self)
        ensures
            forall|q: int, r: int| 0 <= q < 11 && 0 <= r < 11 ==> final(self).effects(q, r) == 0,
            final(self).cells() == no_effects(),
    {
        self.cells = [0u8; 121];
        assert(self.cells() =~= no_effects());
    }

    /// Shows each of the hexes with an effect, beside those that it is
    /// shown with.
    pub fn add(&mut self, effect: Effect, hexes: &Vec<(u8, u8)>)
        requires
            all_in_square(hexes@),
        ensures
            final(self).cells() == with_effect(old(self).cells(), effect.spec_mask(), hexes@),
            forall|q: int, r: int|
                0 <= q < 11 && 0 <= r < 11 ==> #[trigger] final(self).effects(q, r) == if hexes@.contains(
                    (q as u8, r as u8),
                ) {
                    old(self).effects(q, r) | effect.spec_mask()
                } else {
                    old(self).effects(q, r)
                },
    {
        let mask = effect.mask();
        let mut i: usize = 0;
        while i < hexes.len()
            invariant
                0 <= i <= hexes.len(),
                mask == effect.spec_mask(),
                all_in_square(hexes@),
                forall|q: int, r: int|
                    0 <= q < 11 && 0 <= r < 11 ==> #[trigger] self.effects(q, r) == if hexes@.take(
                        i as int,
                    ).contains((q as u8, r as u8)) {
                        old(self).effects(q, r) | mask
                    } else {
                        old(self).effects(q, r)
                    },
            decreases hexes.len() - i,
        {
            let (q, r) = hexes[i];
            let at = q as usize * WIDTH + r as usize;
            let ghost before = *self;
            let ghost seen = hexes@.take(i as int);
            let cell = self.cells[at];
            self.cells[at] = cell | mask;
            i = i + 1;
            proof {
                let now = hexes@.take(i as int);
                assert(now =~= seen.push((q, r)));
                let first = old(self).effects(q as int, r as int);
                assert((first | mask) | mask == first | mask) by (bit_vector);
                assert(cell == before.effects(q as int, r as int));
                assert forall|a: int, b: int| 0 <= a < 11 && 0 <= b < 11 implies #[trigger] self.effects(
                    a,
                    b,
                ) == if now.contains((a as u8, b as u8)) {
                    old(self).effects(a, b) | mask
                } else {
                    old(self).effects(a, b)
                } by {
                    if a == q && b == r {
                        assert(now[i - 1] == (q, r));
                        assert(self.effects(a, b) == before.effects(a, b) | mask);
                    } else {
                        assert(a * 11 + b != q * 11 + r);
                        assert(self.effects(a, b) == before.effects(a, b));
                        if now.contains((a as u8, b as u8)) {
                            let j = choose|j: int| 0 <= j < now.len() && now[j] == (a as u8, b as u8);
                            assert(seen[j] == (a as u8, b as u8));
                        }
                        if seen.contains((a as u8, b as u8)) {
                            let j = choose|j: int| 0 <= j < seen.len() && seen[j] == (a as u8, b as u8);
                            assert(now[j] == (a as u8, b as u8));
                        }
                    }
                }
            }
        }
        assert(hexes@.take(hexes@.len() as int) =~= hexes@);
        assert forall|i: int| 0 <= i < 121 implies self.cells()[i] == with_effect(
            old(self).cells(),
            effect.spec_mask(),
            hexes@,
        )[i] by {
            let q = i / 11;
            let r = i % 11;
            assert(self.effects(q, r) == self.cells()[i]);
        }
        assert(self.cells() =~= with_effect(old(self).cells(), effect.spec_mask(), hexes@));
    }

    /// Takes an effect from all hexes.
    pub fn remove(&mut self, effect: Effect)
        ensures
            final(self).cells() == without_effect(old(self).cells(), effect.spec_mask()),
            forall|q: int, r: int|
                0 <= q < 11 && 0 <= r < 11 ==> #[trigger] final(self).effects(q, r) == old(
                    self,
                ).effects(q, r) & !effect.spec_mask(),
    {
        let mask: u8 = !effect.mask();
        let mut i: usize = 0;
        while i < 121
            invariant
                0 <= i <= 121,
                mask == !effect.spec_mask(),
                forall|k: int| 0 <= k < i ==> self.cells()[k] == old(self).cells()[k] & mask,
                forall|k: int| i <= k < 121 ==> self.cells()[k] == old(self).cells()[k],
            decreases 121 - i,
        {
            let ghost before = self.cells();
            let cell = self.cells[i];
            self.cells[i] = cell & mask;
            assert(self.cells() == before.update(i as int, cell & mask));
            i = i + 1;
        }
        assert(self.cells() =~= without_effect(old(self).cells(), effect.spec_mask()));
    }
}

} // verus!
