use vstd::prelude::*;
use crate::machine::{sprite_bit, Machine};

verus! {

/// Whether pixel `p` of a sprite row, put on screen row `row` in state
/// `s`, meets a lit pixel and has its own bit set.
pub open spec fn pixel_hits(s: Machine, x: int, row: int, sprite: u8, p: int) -> bool {
    sprite_bit(sprite, p) && s.screen[row][(s.v[x] + p) % 64]
}

/// Whether one of the first `count` pixels of a sprite row hits.
pub open spec fn row_hits(s: Machine, x: int, row: int, sprite: u8, count: nat) -> bool {
    exists|p: int| 0 <= p < count && #[trigger] pixel_hits(s, x, row, sprite, p)
}

/// Whether the sprite that `draw(x, y, n)` reads in state `s` has a set
/// bit for the screen position `(row, col)`.
pub open spec fn sprite_covers(s: Machine, x: int, y: int, n: nat, row: int, col: int) -> bool {
    let r = (row - s.v[y]) % 32;
    let p = (col - s.v[x]) % 64;
    r < n && p < 8 && sprite_bit(s.memory[s.i + r], p)
}

/// Whether bit `p` of sprite row `r` is set and lands on a lit pixel of
/// the screen of `s`.
pub open spec fn sprite_hits(s: Machine, x: int, y: int, r: int, p: int) -> bool {
    sprite_bit(s.memory[s.i + r], p) && s.screen[(s.v[y] + r) % 32][(s.v[x] + p) % 64]
}

/// Whether the first `rows` rows of the sprite put out a lit pixel of the
/// screen of `s`.
pub open spec fn collides(s: Machine, x: int, y: int, rows: nat) -> bool {
    exists|r: int, p: int|
        0 <= r < rows && 0 <= p < 8 && #[trigger] sprite_hits(s, x, y, r, p)
}

/// What a row of a sprite does to a state when `x` is not the flag
/// register: only the flag register and the screen change, a pixel flips
/// exactly where it lies in screen row `row`, at most `count` columns right
/// of `V[x]` (wrapping), under a set bit, and the flag register becomes 1
/// if a pixel hits and else keeps its value.
pub proof fn lemma_blit_row(s: Machine, x: int, row: int, sprite: u8, count: nat)
    requires
        s.wf(),
        0 <= x < 15,
        0 <= row < 32,
        count <= 8,
    ensures
        ({
            let t = s.blit_row(x, row, sprite, count);
            &&& t.wf()
            &&& t == (Machine { v: s.v.update(0xF, t.v[0xF]), screen: t.screen, ..s })
            &&& t.v[0xF] == if row_hits(s, x, row, sprite, count) {
                1u8
            } else {
                s.v[0xF]
            }
            &&& forall|rr: int, cc: int|
                0 <= rr < 32 && 0 <= cc < 64 ==> #[trigger] t.screen[rr][cc] == (s.screen[rr][cc]
                    != (rr == row && (cc - s.v[x]) % 64 < count && sprite_bit(
                    sprite,
                    (cc - s.v[x]) % 64,
                )))
        }),
    decreases count,
{
    if count > 0 {
        let p = count - 1;
        let before = s.blit_row(x, row, sprite, p as nat);
        lemma_blit_row(s, x, row, sprite, p as nat);
        let t = before.blit_pixel(x, row, sprite, p);
        let col = (s.v[x] + p) % 64;
        // The pixel under bit `p` has not been touched by the bits before.
        assert(pixel_hits(s, x, row, sprite, p) == (sprite_bit(sprite, p)
            && before.screen[row][col]));
        assert forall|rr: int, cc: int| 0 <= rr < 32 && 0 <= cc < 64 implies
            #[trigger] t.screen[rr][cc] == (s.screen[rr][cc] != (rr == row
                && (cc - s.v[x]) % 64 < count && sprite_bit(sprite, (cc - s.v[x]) % 64))) by {
            assert(((cc - s.v[x]) % 64 == p) <==> cc == col);
        }
    }
}

/// What the rows of a sprite do to a state when neither `x` nor `y` is the
/// flag register.
pub proof fn lemma_blit_sprite(s: Machine, x: int, y: int, rows: nat)
    requires
        s.wf(),
        0 <= x < 15,
        0 <= y < 15,
        rows <= 32,
    ensures
        ({
            let t = s.blit_sprite(x, y, rows);
            &&& t.wf()
            &&& t == (Machine { v: s.v.update(0xF, t.v[0xF]), screen: t.screen, ..s })
            &&& t.v[0xF] == if collides(s, x, y, rows) {
                1u8
            } else {
                s.v[0xF]
            }
            &&& forall|rr: int, cc: int|
                0 <= rr < 32 && 0 <= cc < 64 ==> #[trigger] t.screen[rr][cc] == (s.screen[rr][cc]
                    != sprite_covers(s, x, y, rows, rr, cc))
        }),
    decreases rows,
{
    if rows > 0 {
        let r = rows - 1;
        let before = s.blit_sprite(x, y, r as nat);
        lemma_blit_sprite(s, x, y, r as nat);
        let row = (s.v[y] + r) % 32;
        let sprite = s.memory[s.i + r];
        lemma_blit_row(before, x, row, sprite, 8);
        let t = before.blit_row(x, row, sprite, 8);
        // No earlier row of the sprite lies in this screen row.
        assert forall|cc: int| 0 <= cc < 64 implies before.screen[row][cc] == s.screen[row][cc] by {
            assert(!sprite_covers(s, x, y, r as nat, row, cc));
        }
        assert forall|p: int| 0 <= p < 8 implies pixel_hits(before, x, row, sprite, p)
            == sprite_hits(s, x, y, r, p) by {
            assert(before.screen[row][(s.v[x] + p) % 64] == s.screen[row][(s.v[x] + p) % 64]);
        }
        // A hit among the first `rows` rows is one among the rows before
        // or one in this row, and the other way round.
        if collides(s, x, y, rows) {
            let (hit_row, hit_bit) = choose|hit_row: int, hit_bit: int|
                0 <= hit_row < rows && 0 <= hit_bit < 8 && #[trigger] sprite_hits(
                    s,
                    x,
                    y,
                    hit_row,
                    hit_bit,
                );
            if hit_row < r {
                assert(collides(s, x, y, r as nat));
            } else {
                assert(pixel_hits(before, x, row, sprite, hit_bit));
            }
        }
        if collides(s, x, y, r as nat) {
            let (hit_row, hit_bit) = choose|hit_row: int, hit_bit: int|
                0 <= hit_row < r && 0 <= hit_bit < 8 && #[trigger] sprite_hits(
                    s,
                    x,
                    y,
                    hit_row,
                    hit_bit,
                );
            assert(sprite_hits(s, x, y, hit_row, hit_bit));
        }
        if row_hits(before, x, row, sprite, 8) {
            let hit_bit = choose|hit_bit: int|
                0 <= hit_bit < 8 && #[trigger] pixel_hits(before, x, row, sprite, hit_bit);
            assert(sprite_hits(s, x, y, r, hit_bit));
        }
        assert forall|rr: int, cc: int| 0 <= rr < 32 && 0 <= cc < 64 implies
            #[trigger] t.screen[rr][cc] == (s.screen[rr][cc] != sprite_covers(
                s,
                x,
                y,
                rows,
                rr,
                cc,
            )) by {
            assert(((rr - s.v[y]) % 32 == r) <==> rr == row);
        }
    }
}

/// The sprite draw in closed form, for register operands other than the
/// flag register and a sprite of at most 32 rows: nothing changes but the
/// screen, the flag register, the changed mark and the counter; a pixel
/// flips exactly where the sprite, laid out from column `V[x]` and row
/// `V[y]` with wrap-around at both edges, has a set bit; and the flag
/// register is 1 if a set bit landed on a lit pixel, else 0.
pub proof fn lemma_draw(s: Machine, x: int, y: int, n: nat)
    requires
        s.wf(),
        0 <= x < 15,
        0 <= y < 15,
        n <= 32,
    ensures
        ({
            let t = s.draw(x, y, n);
            &&& t.wf()
            &&& t == (Machine {
                v: s.v.update(0xF, t.v[0xF]),
                screen: t.screen,
                display_changed: true,
                pc: (s.pc + 2) as u16,
                ..s
            })
            &&& t.v[0xF] == if collides(s, x, y, n) {
                1u8
            } else {
                0u8
            }
            &&& forall|rr: int, cc: int|
                0 <= rr < 32 && 0 <= cc < 64 ==> #[trigger] t.screen[rr][cc] == (s.screen[rr][cc]
                    != sprite_covers(s, x, y, n, rr, cc))
        }),
{
    let cleared = s.with_register(0xF, 0);
    lemma_blit_sprite(cleared, x, y, n);
    assert forall|r: int, p: int|
        sprite_hits(cleared, x, y, r, p) == sprite_hits(s, x, y, r, p) by {
    }
}

/// Whether an odd number of the first `rows` rows of the sprite that
/// `draw(x, y, n)` reads in state `s` has a set bit for the screen
/// position `(row, col)`. With more than 32 rows a position may lie
/// under several.
pub open spec fn sprite_flips(s: Machine, x: int, y: int, rows: nat, row: int, col: int) -> bool
    decreases rows,
{
    if rows == 0 {
        false
    } else {
        let r = rows - 1;
        let p = (col - s.v[x]) % 64;
        sprite_flips(s, x, y, r as nat, row, col) != ((s.v[y] + r) % 32 == row && p < 8
            && sprite_bit(s.memory[s.i + r], p))
    }
}

/// `sprite_flips` looks at nothing but the two registers, the index
/// register and memory.
pub proof fn lemma_sprite_flips_reads(
    s: Machine,
    t: Machine,
    x: int,
    y: int,
    rows: nat,
    row: int,
    col: int,
)
    requires
        t.v[x] == s.v[x],
        t.v[y] == s.v[y],
        t.i == s.i,
        t.memory == s.memory,
    ensures
        sprite_flips(t, x, y, rows, row, col) == sprite_flips(s, x, y, rows, row, col),
    decreases rows,
{
    if rows > 0 {
        lemma_sprite_flips_reads(s, t, x, y, (rows - 1) as nat, row, col);
    }
}

/// What the rows of a sprite do to the screen when neither `x` nor `y` is
/// the flag register, for a sprite of any height: a pixel flips where an
/// odd number of rows has a set bit for it.
pub proof fn lemma_blit_sprite_flips(s: Machine, x: int, y: int, rows: nat)
    requires
        s.wf(),
        0 <= x < 15,
        0 <= y < 15,
    ensures
        ({
            let t = s.blit_sprite(x, y, rows);
            &&& t.wf()
            &&& t == (Machine { v: s.v.update(0xF, t.v[0xF]), screen: t.screen, ..s })
            &&& forall|rr: int, cc: int|
                0 <= rr < 32 && 0 <= cc < 64 ==> #[trigger] t.screen[rr][cc] == (s.screen[rr][cc]
                    != sprite_flips(s, x, y, rows, rr, cc))
        }),
    decreases rows,
{
    if rows > 0 {
        let r = rows - 1;
        let before = s.blit_sprite(x, y, r as nat);
        lemma_blit_sprite_flips(s, x, y, r as nat);
        lemma_blit_row(before, x, (s.v[y] + r) % 32, s.memory[s.i + r], 8);
    }
}

/// Drawing the same sprite twice at the same place puts every pixel back:
/// the second draw flips exactly the pixels that the first one flipped.
/// The register operands must not be the flag register, which the draw
/// itself writes.
pub proof fn lemma_draw_twice_restores_screen(s: Machine, x: int, y: int, n: nat)
    requires
        s.wf(),
        0 <= x < 15,
        0 <= y < 15,
    ensures
        s.draw(x, y, n).draw(x, y, n).screen == s.screen,
{
    let cleared = s.with_register(0xF, 0);
    let once = s.draw(x, y, n);
    let again = once.with_register(0xF, 0);
    let twice = once.draw(x, y, n);
    lemma_blit_sprite_flips(cleared, x, y, n);
    lemma_blit_sprite_flips(again, x, y, n);
    assert forall|rr: int, cc: int| 0 <= rr < 32 && 0 <= cc < 64 implies twice.screen[rr][cc]
        == s.screen[rr][cc] by {
        lemma_sprite_flips_reads(cleared, again, x, y, n, rr, cc);
    }
    assert(twice.screen =~~= s.screen);
}

} // verus!
