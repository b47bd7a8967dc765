//! `RND`: the one instruction whose effect is not decided by the state.

use rand::Rng;
use vstd::prelude::*;
use crate::decode::{operand_nn, operand_x};
use crate::machine::Chip8Hardware;

verus! {

/// Draws a number from the thread-local generator of the `rand` crate:
/// `rand::thread_rng().gen_range(0, 256)`.
///
/// Trusted: `gen_range(low, high)` is documented to return a value in the
/// half-open range from `low` to `high`, so the number is below 256. Which
/// number it is depends on the generator, and nothing is claimed of that.
/// The generator seeds itself from the operating system on first use in a
/// thread; should that fail, `rand` panics.
#[verifier::external_body]
fn random_number() -> (number: u16)
    ensures
        number < 256,
{
    rand::thread_rng().gen_range(0, 256)
}

impl Chip8Hardware {
    /// `RND Vx,NN` with a freshly drawn random byte: Vx becomes that byte
    /// ANDed with `NN`. Whatever byte was drawn, the outcome is the one that
    /// [`opcode_CXNN_with`](Self::opcode_CXNN_with) gives for it.
    #[allow(non_snake_case)]
    pub fn opcode_CXNN(&mut self, opcode: u16)
        requires
            old(self).wf(),
        ensures
            final(self).wf(),
            exists|random: u8|
                final(self)@ == #[trigger] old(self)@.rnd(
                    operand_x(opcode) as int,
                    operand_nn(opcode),
                    random,
                ),
    {
        let random_number: u16 = random_number();
        self.opcode_CXNN_with(opcode, random_number as u8);
    }

    /// `RND Vx,NN` with the random byte supplied by the caller: Vx becomes
    /// `random & NN`. This is the entry for a driver that brings its own,
    /// possibly seeded, generator.
    #[allow(non_snake_case)]
    pub fn opcode_CXNN_with(&mut self, opcode: u16, random: u8)
        requires
            old(self).wf(),
        ensures
            final(self).wf(),
            final(self)@ == old(self)@.rnd(operand_x(opcode) as int, operand_nn(opcode), random),
    {
        let index_x: u16 = Chip8Hardware::get_first_arg(opcode);
        let nn: u16 = Chip8Hardware::get_nn(opcode);
        let drawn: u16 = random as u16;
        assert((nn & drawn) % 256 == (drawn as u8) & ((nn % 256) as u8)) by (bit_vector);
        self.set_register_value(index_x, nn & drawn);
    }
}

} // verus!
