use vstd::prelude::*;

use crate::cpu::{MachineView, FLAG, REGISTER_COUNT, STACK_CAPACITY};
use crate::display::{blank, collides, drawn, is_grid, sprite_covers, HEIGHT, WIDTH};

verus! {

/// Add-with-carry leaves `(a + b) mod 256` in the target register (unless
/// that register is the flag register itself) and sets the flag register to
/// 1 exactly when `a + b > 255`; no other register changes.
pub proof fn lemma_add_with_carry(v: MachineView, x: int, y: int)
    requires
        v.registers.len() == REGISTER_COUNT,
        0 <= x < REGISTER_COUNT,
        0 <= y < REGISTER_COUNT,
    ensures
        ({
            let a = v.reg(x) as int;
            let b = v.reg(y) as int;
            let w = v.add_with_carry(x, y);
            &&& x != FLAG ==> w.reg(x) == (a + b) % 256
            &&& (w.reg(FLAG as int) == 1) == (a + b > 255)
            &&& (w.reg(FLAG as int) == 0) == (a + b <= 255)
            &&& forall|r: int| 0 <= r < REGISTER_COUNT && r != x && r != FLAG ==> w.reg(r) == v.reg(r)
            &&& w.pc == v.pc && w.memory == v.memory && w.stack == v.stack
        }),
{
}

/// Subtract-with-borrow leaves `(a - b) mod 256` in the target register
/// (unless that register is the flag register itself) and sets the flag
/// register to 1 exactly when `a >= b`; no other register changes.
pub proof fn lemma_sub_with_borrow(v: MachineView, x: int, y: int)
    requires
        v.registers.len() == REGISTER_COUNT,
        0 <= x < REGISTER_COUNT,
        0 <= y < REGISTER_COUNT,
    ensures
        ({
            let a = v.reg(x) as int;
            let b = v.reg(y) as int;
            let w = v.sub_with_borrow(x, y);
            &&& x != FLAG ==> w.reg(x) == (a - b) % 256
            &&& (w.reg(FLAG as int) == 1) == (a >= b)
            &&& (w.reg(FLAG as int) == 0) == (a < b)
            &&& forall|r: int| 0 <= r < REGISTER_COUNT && r != x && r != FLAG ==> w.reg(r) == v.reg(r)
        }),
{
}

/// Shift-right puts the low bit of the register, as it was before the
/// shift, into the flag register, and halves the register (unless it is the
/// flag register itself).
pub proof fn lemma_shift_right(v: MachineView, x: int)
    requires
        v.registers.len() == REGISTER_COUNT,
        0 <= x < REGISTER_COUNT,
    ensures
        ({
            let a = v.reg(x);
            let w = v.shift_right(x);
            &&& w.reg(FLAG as int) == a % 2
            &&& x != FLAG ==> w.reg(x) == a / 2
        }),
{
    let a = v.reg(x);
    assert(a & 1u8 == a % 2) by (bit_vector);
    assert(a >> 1u8 == a / 2) by (bit_vector);
}

/// Shift-left puts the high bit of the register, as it was before the
/// shift, into the flag register, and shifts the register (unless it is the
/// flag register itself).
pub proof fn lemma_shift_left(v: MachineView, x: int)
    requires
        v.registers.len() == REGISTER_COUNT,
        0 <= x < REGISTER_COUNT,
    ensures
        ({
            let a = v.reg(x);
            let w = v.shift_left(x);
            &&& w.reg(FLAG as int) == a / 128
            &&& x != FLAG ==> w.reg(x) == a << 1u8
        }),
{
    let a = v.reg(x);
    assert(a >> 7u8 == a / 128) by (bit_vector);
}

/// After a clear, every pixel on the grid reads as off.
pub proof fn lemma_cleared_pixel_off(x: int, y: int)
    requires
        0 <= x < WIDTH,
        0 <= y < HEIGHT,
    ensures
        !blank()[y][x],
{
}

/// Drawing a sprite twice at the same place gives back the grid it started
/// from, and the second drawing collides exactly when the first one turned
/// some pixel on.
pub proof fn lemma_draw_twice(g: Seq<Seq<bool>>, rows: Seq<u8>, sx: int, sy: int)
    requires
        is_grid(g),
    ensures
        drawn(drawn(g, rows, sx, sy), rows, sx, sy) == g,
        collides(drawn(g, rows, sx, sy), rows, sx, sy) == exists|x: int, y: int|
            0 <= x < WIDTH && 0 <= y < HEIGHT && #[trigger] sprite_covers(rows, sx, sy, x, y)
                && !g[y][x] && drawn(g, rows, sx, sy)[y][x],
{
    assert(drawn(drawn(g, rows, sx, sy), rows, sx, sy) =~~= g);
    let once = drawn(g, rows, sx, sy);
    if collides(once, rows, sx, sy) {
        let (x, y) = choose|x: int, y: int|
            0 <= x < WIDTH && 0 <= y < HEIGHT && #[trigger] sprite_covers(rows, sx, sy, x, y)
                && once[y][x];
        assert(!g[y][x] && once[y][x]);
    }
}

/// The same law for the draw instruction: with neither position register
/// being the flag register, drawing twice restores the display, and the
/// second draw's flag is 1 exactly when the first draw turned a pixel on.
pub proof fn lemma_draw_instruction_twice(v: MachineView, x: int, y: int, n: int)
    requires
        v.registers.len() == REGISTER_COUNT,
        is_grid(v.display),
        0 <= x < FLAG,
        0 <= y < FLAG,
        0 <= n,
        v.index + n <= crate::cpu::MEMORY_SIZE,
        v.memory.len() == crate::cpu::MEMORY_SIZE,
    ensures
        v.draw(x, y, n) is Ok,
        v.draw(x, y, n).unwrap().draw(x, y, n) is Ok,
        ({
            let once = v.draw(x, y, n).unwrap();
            let twice = once.draw(x, y, n).unwrap();
            let rows = v.memory.subrange(v.index as int, v.index + n);
            &&& twice.display == v.display
            &&& (twice.reg(FLAG as int) == 1) == exists|px: int, py: int|
                0 <= px < WIDTH && 0 <= py < HEIGHT && #[trigger] sprite_covers(
                    rows,
                    (v.reg(x) % 64) as int,
                    (v.reg(y) % 32) as int,
                    px,
                    py,
                ) && !v.display[py][px] && once.display[py][px]
        }),
{
    let once = v.draw(x, y, n).unwrap();
    let rows = v.memory.subrange(v.index as int, v.index + n);
    assert(once.reg(x) == v.reg(x));
    assert(once.reg(y) == v.reg(y));
    lemma_draw_twice(v.display, rows, (v.reg(x) % 64) as int, (v.reg(y) % 32) as int);
}

/// A call followed at once by a return gives back the state from before the
/// call, program counter included.
pub proof fn lemma_call_then_return(v: MachineView, addr: u16)
    requires
        v.stack.len() < STACK_CAPACITY,
    ensures
        v.call(addr) is Ok,
        v.call(addr).unwrap().ret() == Ok::<MachineView, crate::cpu::Fault>(v),
{
    let w = v.call(addr).unwrap();
    assert(w.stack.drop_last() =~= v.stack);
}

} // verus!
