//! Sprites and how they merge into the framebuffer.
//!
//! A sprite is a column of bytes, one per row, the most significant bit
//! leftmost. Drawing flips every pixel under a lit sprite bit. A sprite that
//! reaches past the right or the bottom edge is clipped there: the part that
//! falls outside is not drawn, and nothing wraps round.

use vstd::prelude::*;

verus! {

/// Whether bit `col` of a sprite row is lit, column 0 being the leftmost.
pub open spec fn sprite_bit(byte: u8, col: int) -> bool {
    0 <= col < 8 && byte & (0x80u8 >> (col as u8)) != 0
}

/// The `n` sprite rows that start at address `i`.
pub open spec fn sprite_at(memory: Seq<u8>, i: u16, n: int) -> Seq<u8> {
    Seq::new(n as nat, |r: int| memory[(i + r) % 4096])
}

/// Whether `sprite`, placed with its top left corner at column `x0` of row
/// `y0`, has a lit bit over pixel `p`.
pub open spec fn covers(sprite: Seq<u8>, x0: int, y0: int, p: int) -> bool {
    let row = p / 64 - y0;
    0 <= row < sprite.len() && sprite_bit(sprite[row], p % 64 - x0)
}

/// The framebuffer after `sprite` is drawn at (`x0`, `y0`).
pub open spec fn xor_sprite(screen: Seq<bool>, sprite: Seq<u8>, x0: int, y0: int) -> Seq<bool> {
    Seq::new(screen.len(), |p: int| screen[p] != covers(sprite, x0, y0, p))
}

/// Whether drawing `sprite` at (`x0`, `y0`) turns a lit pixel off.
pub open spec fn collides(screen: Seq<bool>, sprite: Seq<u8>, x0: int, y0: int) -> bool {
    exists|p: int| 0 <= p < screen.len() && screen[p] && #[trigger] covers(sprite, x0, y0, p)
}

/// Whether drawing `sprite` at (`x0`, `y0`) turns a dark pixel on.
pub open spec fn lights(screen: Seq<bool>, sprite: Seq<u8>, x0: int, y0: int) -> bool {
    exists|p: int| 0 <= p < screen.len() && !screen[p] && #[trigger] covers(sprite, x0, y0, p)
}

/// Drawing a sprite twice at one place restores the framebuffer, and the
/// second drawing collides exactly if the first lit a dark pixel.
pub proof fn lemma_draw_twice(screen: Seq<bool>, sprite: Seq<u8>, x0: int, y0: int)
    ensures
        xor_sprite(xor_sprite(screen, sprite, x0, y0), sprite, x0, y0) == screen,
        collides(xor_sprite(screen, sprite, x0, y0), sprite, x0, y0) == lights(
            screen,
            sprite,
            x0,
            y0,
        ),
{
    let once = xor_sprite(screen, sprite, x0, y0);
    assert(xor_sprite(once, sprite, x0, y0) =~= screen);
    if lights(screen, sprite, x0, y0) {
        let p = choose|p: int|
            0 <= p < screen.len() && !screen[p] && #[trigger] covers(sprite, x0, y0, p);
        assert(once[p] && covers(sprite, x0, y0, p));
    }
    if collides(once, sprite, x0, y0) {
        let p = choose|p: int|
            0 <= p < once.len() && once[p] && #[trigger] covers(sprite, x0, y0, p);
        assert(!screen[p] && covers(sprite, x0, y0, p));
    }
}

/// Whether one sprite row `byte`, placed in screen row `py` from column `x0`
/// on, has a lit bit over pixel `p` within its first `cols` columns.
pub open spec fn row_covers(byte: u8, x0: int, py: int, cols: int, p: int) -> bool {
    p / 64 == py && p % 64 - x0 < cols && sprite_bit(byte, p % 64 - x0)
}

/// Draws one sprite row onto screen row `py` from column `x0` on, and says
/// whether a lit pixel went dark.
fn draw_row(screen: &mut [bool; 2048], byte: u8, x0: u8, py: u8) -> (hit: bool)
    requires
        x0 < 64,
        py < 32,
    ensures
        forall|p: int|
            0 <= p < 2048 ==> final(screen)[p] == (old(screen)[p] != row_covers(
                byte,
                x0 as int,
                py as int,
                8,
                p,
            )),
        hit == exists|p: int|
            0 <= p < 2048 && old(screen)[p] && #[trigger] row_covers(
                byte,
                x0 as int,
                py as int,
                8,
                p,
            ),
    no_unwind
{
    let mut hit: bool = false;
    let mut col: u8 = 0;
    while col < 8
        invariant
            x0 < 64,
            py < 32,
            col <= 8,
            forall|p: int|
                0 <= p < 2048 ==> screen[p] == (old(screen)[p] != row_covers(
                    byte,
                    x0 as int,
                    py as int,
                    col as int,
                    p,
                )),
            hit == exists|p: int|
                0 <= p < 2048 && old(screen)[p] && #[trigger] row_covers(
                    byte,
                    x0 as int,
                    py as int,
                    col as int,
                    p,
                ),
        decreases 8 - col,
    {
        let px: u8 = x0 + col;
        let lit: bool = byte & (0x80u8 >> col) != 0;
        let ghost before = screen@;
        let ghost idx: int = py * 64 + px;
        assert(lit == sprite_bit(byte, col as int));
        assert forall|p: int| 0 <= p < 2048 implies #[trigger] row_covers(
            byte,
            x0 as int,
            py as int,
            col + 1,
            p,
        ) == (row_covers(byte, x0 as int, py as int, col as int, p) || (lit && px < 64 && p
            == idx)) by {
            if p / 64 == py && p % 64 - x0 == col {
                assert(p == idx);
            }
            if px < 64 {
                assert(idx / 64 == py && idx % 64 == px);
            }
        }
        if lit && px < 64 {
            let at: usize = (py as usize) * 64 + (px as usize);
            assert(!row_covers(byte, x0 as int, py as int, col as int, idx));
            if screen[at] {
                hit = true;
            }
            screen[at] = !screen[at];
        }
        col = col + 1;
        proof {
            let now = exists|p: int|
                0 <= p < 2048 && old(screen)[p] && #[trigger] row_covers(
                    byte,
                    x0 as int,
                    py as int,
                    col as int,
                    p,
                );
            if hit {
                if lit && px < 64 && before[idx] {
                    assert(old(screen)[idx] && row_covers(
                        byte,
                        x0 as int,
                        py as int,
                        col as int,
                        idx,
                    ));
                } else {
                    let p = choose|p: int|
                        0 <= p < 2048 && old(screen)[p] && #[trigger] row_covers(
                            byte,
                            x0 as int,
                            py as int,
                            col - 1,
                            p,
                        );
                    assert(row_covers(byte, x0 as int, py as int, col as int, p));
                }
                assert(now);
            }
            if now {
                let p = choose|p: int|
                    0 <= p < 2048 && old(screen)[p] && #[trigger] row_covers(
                        byte,
                        x0 as int,
                        py as int,
                        col as int,
                        p,
                    );
                if row_covers(byte, x0 as int, py as int, col - 1, p) {
                } else {
                    assert(p == idx);
                }
                assert(hit);
            }
        }
    }
    hit
}

/// Draws the `n` sprite rows at address `i` of `ram` onto `screen` at
/// (`x0`, `y0`), and says whether a lit pixel went dark.
pub fn draw_sprite(
    screen: &mut [bool; 2048],
    ram: &[u8; 4096],
    i: u16,
    n: u8,
    x0: u8,
    y0: u8,
) -> (hit: bool)
    requires
        n < 16,
        x0 < 64,
        y0 < 32,
    ensures
        final(screen)@ == xor_sprite(
            old(screen)@,
            sprite_at(ram@, i, n as int),
            x0 as int,
            y0 as int,
        ),
        hit == collides(old(screen)@, sprite_at(ram@, i, n as int), x0 as int, y0 as int),
    no_unwind
{
    let mut hit: bool = false;
    let mut row: u8 = 0;
    while row < n
        invariant
            n < 16,
            x0 < 64,
            y0 < 32,
            row <= n,
            screen@ == xor_sprite(
                old(screen)@,
                sprite_at(ram@, i, row as int),
                x0 as int,
                y0 as int,
            ),
            hit == collides(old(screen)@, sprite_at(ram@, i, row as int), x0 as int, y0 as int),
        decreases n - row,
    {
        let byte: u8 = ram[((i as usize) + (row as usize)) % 4096];
        let py: u8 = y0 + row;
        let ghost before = screen@;
        let ghost shorter = sprite_at(ram@, i, row as int);
        let ghost longer = sprite_at(ram@, i, row + 1);
        let mut row_hit: bool = false;
        if py < 32 {
            row_hit = draw_row(screen, byte, x0, py);
        }
        assert forall|p: int| 0 <= p < 2048 implies #[trigger] covers(
            longer,
            x0 as int,
            y0 as int,
            p,
        ) == (covers(shorter, x0 as int, y0 as int, p) || (py < 32 && row_covers(
            byte,
            x0 as int,
            py as int,
            8,
            p,
        ))) by {
            assert(longer[row as int] == byte);
            if 0 <= p / 64 - y0 < row {
                assert(longer[p / 64 - y0] == shorter[p / 64 - y0]);
            }
        }
        assert forall|p: int| 0 <= p < 2048 && py < 32 && row_covers(
            byte,
            x0 as int,
            py as int,
            8,
            p,
        ) implies before[p] == old(screen)[p] by {
            assert(!covers(shorter, x0 as int, y0 as int, p));
        }
        assert(screen@ =~= xor_sprite(old(screen)@, longer, x0 as int, y0 as int));
        proof {
            let was = hit;
            let now = collides(old(screen)@, longer, x0 as int, y0 as int);
            if was {
                let p = choose|p: int|
                    0 <= p < 2048 && old(screen)[p] && #[trigger] covers(
                        shorter,
                        x0 as int,
                        y0 as int,
                        p,
                    );
                assert(covers(longer, x0 as int, y0 as int, p));
            }
            if row_hit {
                let p = choose|p: int|
                    0 <= p < 2048 && before[p] && #[trigger] row_covers(
                        byte,
                        x0 as int,
                        py as int,
                        8,
                        p,
                    );
                assert(old(screen)[p] && covers(longer, x0 as int, y0 as int, p));
            }
            if now {
                let p = choose|p: int|
                    0 <= p < 2048 && old(screen)[p] && #[trigger] covers(
                        longer,
                        x0 as int,
                        y0 as int,
                        p,
                    );
                if covers(shorter, x0 as int, y0 as int, p) {
                    assert(was);
                } else {
                    assert(before[p] && row_covers(byte, x0 as int, py as int, 8, p));
                    assert(row_hit);
                }
            }
            assert((was || row_hit) == now);
        }
        hit = hit || row_hit;
        row = row + 1;
    }
    hit
}

} // verus!
