//! The display: clearing it, drawing sprites onto it, and what the renderer
//! asks of it.

use vstd::prelude::*;
use crate::decode::{operand_n, operand_x, operand_y};
use crate::fault::Fault;
use crate::machine::Chip8Hardware;
use crate::state::{settles, sprite_bit, MachineState, MEMORY_SIZE};

verus! {

/// Whether the sprite flips the pixel at (`r`, `c`) and does so before the
/// drawing loop reaches pixel `x` of sprite row `y`.
spec fn covers_before(
    s: MachineState,
    vx: u8,
    vy: u8,
    n: int,
    r: int,
    c: int,
    y: int,
    x: int,
) -> bool {
    let dy: int = (r - vy) % 32;
    let dx: int = (c - vx) % 64;
    s.sprite_covers(vx, vy, n, r, c) && (dy < y || (dy == y && dx < x))
}

/// Whether a pixel that was on has been flipped before the drawing loop
/// reaches pixel `x` of sprite row `y`.
spec fn collides_before(s: MachineState, vx: u8, vy: u8, n: int, y: int, x: int) -> bool {
    exists|r: int, c: int|
        0 <= r < 32 && 0 <= c < 64 && s.screen[r][c] && #[trigger] covers_before(
            s,
            vx,
            vy,
            n,
            r,
            c,
            y,
            x,
        )
}

/// The flag value for "a collision happened".
spec fn flag(b: bool) -> u8 {
    if b {
        1
    } else {
        0
    }
}

/// Everything the drawing loop leaves alone is as in `s`.
spec fn drawing_from(m: Chip8Hardware, s: MachineState) -> bool {
    &&& m.wf()
    &&& m@.memory == s.memory
    &&& m@.index == s.index
    &&& m@.pc == s.pc
    &&& m@.stack == s.stack
    &&& m@.keys == s.keys
    &&& m@.delay_timer == s.delay_timer
    &&& m@.sound_timer == s.sound_timer
    &&& m@.countdown == s.countdown
    &&& m@.policy == s.policy
    &&& m@.dirty
}

/// Handling pixel `x` of sprite row `y` adds exactly the screen position
/// that this pixel lands on, and only if the pixel is set.
proof fn lemma_covers_step(s: MachineState, vx: u8, vy: u8, n: int, y: int, x: int)
    requires
        0 <= y < n <= 15,
        0 <= x < 8,
    ensures
        forall|r: int, c: int|
            0 <= r < 32 && 0 <= c < 64 ==> (#[trigger] covers_before(s, vx, vy, n, r, c, y, x + 1)
                == (covers_before(s, vx, vy, n, r, c, y, x) || (r == (vy + y) % 32 && c == (vx + x)
                % 64 && sprite_bit(s.memory[s.index + y], x as u8)))),
        !covers_before(s, vx, vy, n, (vy + y) % 32, (vx + x) % 64, y, x),
{
}

/// After the eighth pixel of a row the loop stands at the start of the next.
proof fn lemma_covers_next_row(s: MachineState, vx: u8, vy: u8, n: int, y: int)
    ensures
        forall|r: int, c: int|
            #![trigger covers_before(s, vx, vy, n, r, c, y + 1, 0)]
            #![trigger covers_before(s, vx, vy, n, r, c, y, 8)]
            covers_before(s, vx, vy, n, r, c, y + 1, 0) == covers_before(s, vx, vy, n, r, c, y, 8),
        collides_before(s, vx, vy, n, y + 1, 0) == collides_before(s, vx, vy, n, y, 8),
{
    assert forall|r: int, c: int|
        covers_before(s, vx, vy, n, r, c, y + 1, 0) == covers_before(
            s,
            vx,
            vy,
            n,
            r,
            c,
            y,
            8,
        ) by {}
    if collides_before(s, vx, vy, n, y + 1, 0) {
        let (r, c) = choose|r: int, c: int|
            0 <= r < 32 && 0 <= c < 64 && s.screen[r][c] && #[trigger] covers_before(
                s,
                vx,
                vy,
                n,
                r,
                c,
                y + 1,
                0,
            );
        assert(covers_before(s, vx, vy, n, r, c, y, 8));
    }
    if collides_before(s, vx, vy, n, y, 8) {
        let (r, c) = choose|r: int, c: int|
            0 <= r < 32 && 0 <= c < 64 && s.screen[r][c] && #[trigger] covers_before(
                s,
                vx,
                vy,
                n,
                r,
                c,
                y,
                8,
            );
        assert(covers_before(s, vx, vy, n, r, c, y + 1, 0));
    }
}

/// Before the first row nothing is drawn; after the last the whole sprite
/// is.
proof fn lemma_covers_ends(s: MachineState, vx: u8, vy: u8, n: int)
    requires
        0 <= n,
    ensures
        forall|r: int, c: int| !#[trigger] covers_before(s, vx, vy, n, r, c, 0, 0),
        !collides_before(s, vx, vy, n, 0, 0),
        forall|r: int, c: int| #[trigger]
            covers_before(s, vx, vy, n, r, c, n, 0) == s.sprite_covers(vx, vy, n, r, c),
        collides_before(s, vx, vy, n, n, 0) == s.sprite_collides(vx, vy, n),
{
    assert forall|r: int, c: int| #[trigger]
        covers_before(s, vx, vy, n, r, c, n, 0) == s.sprite_covers(vx, vy, n, r, c) by {}
    if collides_before(s, vx, vy, n, n, 0) {
        let (r, c) = choose|r: int, c: int|
            0 <= r < 32 && 0 <= c < 64 && s.screen[r][c] && #[trigger] covers_before(
                s,
                vx,
                vy,
                n,
                r,
                c,
                n,
                0,
            );
        assert(s.sprite_covers(vx, vy, n, r, c));
    }
    if s.sprite_collides(vx, vy, n) {
        let (r, c) = choose|r: int, c: int|
            0 <= r < 32 && 0 <= c < 64 && s.screen[r][c] && #[trigger] s.sprite_covers(
                vx,
                vy,
                n,
                r,
                c,
            );
        assert(covers_before(s, vx, vy, n, r, c, n, 0));
    }
}

/// How the collision flag moves when pixel `x` of sprite row `y` is handled.
proof fn lemma_collides_step(s: MachineState, vx: u8, vy: u8, n: int, y: int, x: int)
    requires
        0 <= y < n <= 15,
        0 <= x < 8,
    ensures
        collides_before(s, vx, vy, n, y, x + 1) == (collides_before(s, vx, vy, n, y, x) || (
        sprite_bit(s.memory[s.index + y], x as u8) && s.screen[(vy + y) % 32][(vx + x) % 64])),
{
    lemma_covers_step(s, vx, vy, n, y, x);
    let row: int = (vy + y) % 32;
    let col: int = (vx + x) % 64;
    if collides_before(s, vx, vy, n, y, x) {
        let (r, c) = choose|r: int, c: int|
            0 <= r < 32 && 0 <= c < 64 && s.screen[r][c] && #[trigger] covers_before(
                s,
                vx,
                vy,
                n,
                r,
                c,
                y,
                x,
            );
        assert(covers_before(s, vx, vy, n, r, c, y, x + 1));
    }
    if sprite_bit(s.memory[s.index + y], x as u8) && s.screen[row][col] {
        assert(covers_before(s, vx, vy, n, row, col, y, x + 1));
    }
    if collides_before(s, vx, vy, n, y, x + 1) {
        let (r, c) = choose|r: int, c: int|
            0 <= r < 32 && 0 <= c < 64 && s.screen[r][c] && #[trigger] covers_before(
                s,
                vx,
                vy,
                n,
                r,
                c,
                y,
                x + 1,
            );
        if !covers_before(s, vx, vy, n, r, c, y, x) {
            assert(r == row && c == col);
        }
    }
}

impl Chip8Hardware {
    /// `CLS`: turns every one of the 2048 pixels off and marks the display
    /// dirty.
    #[allow(non_snake_case)]
    pub fn opcode_00E0(&mut self)
        requires
            old(self).wf(),
        ensures
            final(self).wf(),
            final(self)@ == old(self)@.cls(),
            final(self)@.dirty,
            forall|r: int, c: int| 0 <= r < 32 && 0 <= c < 64 ==> !final(self)@.screen[r][c],
    {
        self.draw_enabled = true;
        self.screen_data = [[false; 64]; 32];
        assert(self@ =~~= old(self)@.cls());
    }

    /// `DRW Vx,Vy,N`: XORs the `N` sprite rows at I onto the display with
    /// the top left corner at column Vx, row Vy, wrapping round both edges,
    /// and marks the display dirty. VF becomes 1 when a pixel that was on
    /// went off, else 0. A sprite that reaches past the end of memory is a
    /// fault and nothing changes.
    #[allow(non_snake_case)]
    pub fn opcode_DXYN(&mut self, opcode: u16) -> (result: Result<(), Fault>)
        requires
            old(self).wf(),
        ensures
            final(self).wf(),
            settles(
                old(self)@,
                old(self)@.draw(
                    operand_x(opcode) as int,
                    operand_y(opcode) as int,
                    operand_n(opcode) as int,
                ),
                final(self)@,
                result,
            ),
            result is Ok <==> (operand_n(opcode) == 0 || old(self)@.index + operand_n(opcode)
                <= 4096),
    {
        let index_x: u16 = Chip8Hardware::get_first_arg(opcode);
        let value_x: u16 = self.get_register_value(index_x);
        let index_y: u16 = Chip8Hardware::get_second_arg(opcode);
        let value_y: u16 = self.get_register_value(index_y);
        let height: u16 = Chip8Hardware::get_n(opcode);
        if height > 0 && self.address_i as usize + height as usize > MEMORY_SIZE {
            return Err(
                Fault::MemoryOutOfBounds {
                    address: self.address_i,
                    pc: self.program_counter.wrapping_sub(2),
                },
            );
        }
        let ghost pre = self@;
        let ghost vx: u8 = value_x as u8;
        let ghost vy: u8 = value_y as u8;
        let ghost n: int = height as int;
        self.draw_enabled = true;
        self.set_register_value(0xF, 0);
        proof {
            lemma_covers_ends(pre, vx, vy, n);
        }
        let mut y: u16 = 0;
        while y < height
            invariant
                y <= height <= 15,
                n == height,
                vx == value_x,
                vy == value_y,
                n > 0 ==> pre.index + n <= 4096,
                pre.valid(),
                drawing_from(*self, pre),
                forall|r: int, c: int|
                    0 <= r < 32 && 0 <= c < 64 ==> self@.screen[r][c] == (pre.screen[r][c]
                        != #[trigger] covers_before(pre, vx, vy, n, r, c, y as int, 0)),
                self@.registers == pre.registers.update(
                    15,
                    flag(collides_before(pre, vx, vy, n, y as int, 0)),
                ),
            decreases height - y,
        {
            let pixel: u8 = self.memory[(self.address_i + y) as usize];
            let mut x: u8 = 0;
            while x < 8
                invariant
                    y < height <= 15,
                    x <= 8,
                    n == height,
                    vx == value_x,
                    vy == value_y,
                    pre.index + n <= 4096,
                    pre.valid(),
                    pixel == pre.memory[pre.index + y],
                    drawing_from(*self, pre),
                    forall|r: int, c: int|
                        0 <= r < 32 && 0 <= c < 64 ==> self@.screen[r][c] == (pre.screen[r][c]
                            != #[trigger] covers_before(pre, vx, vy, n, r, c, y as int, x as int)),
                    self@.registers == pre.registers.update(
                        15,
                        flag(collides_before(pre, vx, vy, n, y as int, x as int)),
                    ),
                decreases 8 - x,
            {
                proof {
                    lemma_covers_step(pre, vx, vy, n, y as int, x as int);
                    lemma_collides_step(pre, vx, vy, n, y as int, x as int);
                }
                if (pixel & (0x80u8 >> x)) != 0 {
                    let row: usize = ((value_y + y) % 32) as usize;
                    let col: usize = ((value_x + x as u16) % 64) as usize;
                    let lit: bool = self.screen_data[row][col];
                    if lit {
                        self.set_register_value(0xF, 1);
                    }
                    self.screen_data[row][col] = !lit;
                }
                x += 1;
            }
            proof {
                lemma_covers_next_row(pre, vx, vy, n, y as int);
            }
            y += 1;
        }
        proof {
            let post = old(self)@.draw(index_x as int, index_y as int, n)->Ok_0;
            assert forall|r: int, c: int| 0 <= r < 32 && 0 <= c < 64 implies self@.screen[r][c]
                == post.screen[r][c] by {
                assert(covers_before(pre, vx, vy, n, r, c, n, 0) == pre.sprite_covers(
                    vx,
                    vy,
                    n,
                    r,
                    c,
                ));
            }
            assert(self@ =~~= post);
        }
        Ok(())
    }

    /// Whether the pixel in row `x`, column `y` is on. (The first argument
    /// counts rows from the top, the second columns from the left.)
    pub fn get_pixel_value_x_y(&self, x: u16, y: u16) -> (lit: bool)
        requires
            x < 32,
            y < 64,
        ensures
            lit == self@.screen[x as int][y as int],
    {
        self.screen_data[x as usize][y as usize]
    }

    /// Whether the display changed since it was last presented.
    pub fn get_draw_enabled(&self) -> (dirty: bool)
        ensures
            dirty == self@.dirty,
    {
        self.draw_enabled
    }

    /// Tells the machine that the display has been presented.
    pub fn disable_draw_enabled(&mut self)
        requires
            old(self).wf(),
        ensures
            final(self).wf(),
            final(self)@ == (MachineState { dirty: false, ..old(self)@ }),
    {
        self.draw_enabled = false;
    }
}

} // verus!
