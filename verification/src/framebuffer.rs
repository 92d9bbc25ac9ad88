//! The framebuffer model: the sprite-blit algorithm as a mathematical
//! function on the row words, with XOR drawing and collision detection.

use vstd::prelude::*;
use crate::bits::sprite_mask;

verus! {

/// Draw a sprite onto a 32-row framebuffer, one byte per row, starting at
/// row `y mod 32` with the byte's most-significant bit at column `col`; the
/// 8-pixel span wraps circularly past the right edge.  Each byte is XOR-ed
/// into its row; the collision flag reports whether any byte overlapped an
/// already-lit pixel, read before its XOR.
pub open spec fn spec_draw(fb: Seq<u64>, sprite: Seq<u8>, col: u64, y: int) -> (Seq<u64>, bool)
    recommends
        fb.len() == 32,
        col < 64,
        0 <= y,
    decreases sprite.len(),
{
    if sprite.len() == 0 {
        (fb, false)
    } else {
        let row = y % 32;
        let m = sprite_mask(sprite[0], col);
        let hit = fb[row] & m != 0;
        let rest = spec_draw(fb.update(row, fb[row] ^ m), sprite.skip(1), col, y + 1);
        (rest.0, hit || rest.1)
    }
}

/// The framebuffer row that sprite byte `b` of a draw starting at row
/// coordinate `y` lands on.
pub open spec fn row_of(y: int, b: int) -> int {
    (y + b) % 32
}

/// XOR facts behind the draw laws: XOR-ing the same mask twice restores a
/// row, and XOR-ing a mask into a row it does not intersect makes the whole
/// mask visible.
proof fn lemma_xor_facts(a: u64, m: u64)
    by (bit_vector)
    ensures
        (a ^ m) ^ m == a,
        a & m == 0 ==> (a ^ m) & m == m,
{
}

/// A sprite byte contributes an empty mask exactly when it is zero.
proof fn lemma_mask_nonzero(b: u8, col: u64)
    by (bit_vector)
    requires
        col < 64,
    ensures
        (sprite_mask(b, col) == 0) <==> (b == 0),
{
}

/// Two distinct byte indices of a sprite of at most 32 bytes land on
/// distinct rows.
proof fn lemma_row_distinct(y: int, k: int)
    requires
        0 <= y,
        0 < k < 32,
    ensures
        (y + k) % 32 != y % 32,
{
    vstd::arithmetic::div_mod::lemma_add_mod_noop(y, k, 32);
    vstd::arithmetic::div_mod::lemma_small_mod(k as nat, 32);
}

/// Rows that no sprite byte targets are untouched by a draw.
proof fn lemma_draw_frame(fb: Seq<u64>, sprite: Seq<u8>, col: u64, y: int, r: int)
    requires
        fb.len() == 32,
        0 <= y,
        0 <= r < 32,
        forall|b: int| 0 <= b < sprite.len() ==> #[trigger] row_of(y, b) != r,
    ensures
        spec_draw(fb, sprite, col, y).0[r] == fb[r],
    decreases sprite.len(),
{
    if sprite.len() > 0 {
        let row = y % 32;
        let m = sprite_mask(sprite[0], col);
        assert(row_of(y, 0) != r);
        assert forall|b: int| 0 <= b < sprite.skip(1).len() implies #[trigger] row_of(y + 1, b)
            != r by {
            assert(row_of(y + 1, b) == row_of(y, b + 1));
        }
        lemma_draw_frame(fb.update(row, fb[row] ^ m), sprite.skip(1), col, y + 1, r);
    }
}

/// Changing a row that no sprite byte targets commutes with the draw, and
/// does not change the collision flag.
proof fn lemma_draw_update_commute(fb: Seq<u64>, sprite: Seq<u8>, col: u64, y: int, r: int, w: u64)
    requires
        fb.len() == 32,
        0 <= y,
        0 <= r < 32,
        forall|b: int| 0 <= b < sprite.len() ==> #[trigger] row_of(y, b) != r,
    ensures
        spec_draw(fb.update(r, w), sprite, col, y).0 == spec_draw(fb, sprite, col, y).0.update(
            r,
            w,
        ),
        spec_draw(fb.update(r, w), sprite, col, y).1 == spec_draw(fb, sprite, col, y).1,
    decreases sprite.len(),
{
    if sprite.len() == 0 {
    } else {
        let row = y % 32;
        let m = sprite_mask(sprite[0], col);
        assert(row_of(y, 0) != r);
        assert forall|b: int| 0 <= b < sprite.skip(1).len() implies #[trigger] row_of(y + 1, b)
            != r by {
            assert(row_of(y + 1, b) == row_of(y, b + 1));
        }
        assert(fb.update(r, w)[row] == fb[row]);
        assert(fb.update(r, w).update(row, fb[row] ^ m) =~= fb.update(row, fb[row] ^ m).update(
            r,
            w,
        ));
        lemma_draw_update_commute(
            fb.update(row, fb[row] ^ m),
            sprite.skip(1),
            col,
            y + 1,
            r,
            w,
        );
    }
}

/// Drawing the same sprite twice at the same location: if the first draw
/// reported no collision, the second draw XORs every byte away again,
/// restoring the framebuffer exactly; and if the sprite has any nonzero
/// byte, the second draw reports a collision, since every pixel it touches
/// was set by the first.  Holds for any sprite of at most 32 rows.
pub proof fn law_draw_twice(fb: Seq<u64>, sprite: Seq<u8>, col: u64, y: int)
    requires
        fb.len() == 32,
        col < 64,
        0 <= y,
        sprite.len() <= 32,
        !spec_draw(fb, sprite, col, y).1,
    ensures
        spec_draw(spec_draw(fb, sprite, col, y).0, sprite, col, y).0 == fb,
        (exists|b: int| 0 <= b < sprite.len() && sprite[b] != 0) ==> spec_draw(
            spec_draw(fb, sprite, col, y).0,
            sprite,
            col,
            y,
        ).1,
    decreases sprite.len(),
{
    if sprite.len() == 0 {
        assert(spec_draw(spec_draw(fb, sprite, col, y).0, sprite, col, y).0 =~= fb);
    } else {
        let row = y % 32;
        let m = sprite_mask(sprite[0], col);
        let fbp = fb.update(row, fb[row] ^ m);
        let first = spec_draw(fb, sprite, col, y);
        let rest1 = spec_draw(fbp, sprite.skip(1), col, y + 1);
        assert(fb[row] & m == 0);
        assert(!rest1.1);
        assert forall|b: int| 0 <= b < sprite.skip(1).len() implies #[trigger] row_of(
            y + 1,
            b,
        ) != row by {
            lemma_row_distinct(y, 1 + b);
            assert(row_of(y + 1, b) == (y + (1 + b)) % 32);
        }
        lemma_draw_frame(fbp, sprite.skip(1), col, y + 1, row);
        assert(first.0[row] == fb[row] ^ m);
        lemma_xor_facts(fb[row], m);
        // the second pass over the first byte restores the row
        let fb2p = first.0.update(row, first.0[row] ^ m);
        assert(first.0[row] ^ m == fb[row]);
        let second = spec_draw(first.0, sprite, col, y);
        // the inductive hypothesis on the remaining bytes
        law_draw_twice(fbp, sprite.skip(1), col, y + 1);
        // and the second pass's changed first row commutes past them
        lemma_draw_len(fbp, sprite.skip(1), col, y + 1);
        lemma_draw_update_commute(rest1.0, sprite.skip(1), col, y + 1, row, fb[row]);
        assert(first.0 == rest1.0);
        assert(fb2p =~= rest1.0.update(row, fb[row]));
        assert(spec_draw(fb2p, sprite.skip(1), col, y + 1).0 == spec_draw(
            rest1.0,
            sprite.skip(1),
            col,
            y + 1,
        ).0.update(row, fb[row]));
        assert(spec_draw(rest1.0, sprite.skip(1), col, y + 1).0 == fbp);
        assert(second.0 =~= fb);
        // collision on the second pass
        if exists|b: int| 0 <= b < sprite.len() && sprite[b] != 0 {
            let bw = choose|b: int| 0 <= b < sprite.len() && sprite[b] != 0;
            if sprite[0] != 0 {
                lemma_mask_nonzero(sprite[0], col);
                assert(first.0[row] & m == m);
                assert(second.1);
            } else {
                assert(0 <= bw - 1 < sprite.skip(1).len() && sprite.skip(1)[bw - 1] != 0);
                assert(spec_draw(rest1.0, sprite.skip(1), col, y + 1).1);
                assert(spec_draw(fb2p, sprite.skip(1), col, y + 1).1);
                assert(second.1);
            }
        }
    }
}

/// Horizontal wraparound: one sprite byte drawn on a clear row makes the
/// row exactly its mask, so the byte's bits appear left to right starting
/// at its column and the part past the right edge reappears at column 0.
pub proof fn law_draw_wraparound(fb: Seq<u64>, b: u8, col: u64, y: int, c: u64)
    requires
        fb.len() == 32,
        col < 64,
        0 <= y,
        fb[y % 32] == 0,
        c < 64,
    ensures
        spec_draw(fb, seq![b], col, y).0[y % 32] == sprite_mask(b, col),
        crate::bits::row_pixel(spec_draw(fb, seq![b], col, y).0[y % 32], c)
            == crate::bits::mask_bit_at(b, col, c),
{
    let m = sprite_mask(b, col);
    let row = y % 32;
    let fbp = fb.update(row, fb[row] ^ m);
    assert(seq![b].skip(1) =~= Seq::<u8>::empty());
    assert(seq![b][0] == b);
    assert(spec_draw(fbp, seq![b].skip(1), col, y + 1).0 == fbp);
    assert(spec_draw(fb, seq![b], col, y).0 == fbp);
    assert(0u64 ^ m == m) by (bit_vector);
    assert(fbp[row] == m);
    crate::bits::law_mask_pixels(b, col, c);
}

/// Drawing never changes the number of rows.
pub proof fn lemma_draw_len(fb: Seq<u64>, sprite: Seq<u8>, col: u64, y: int)
    requires
        fb.len() == 32,
    ensures
        spec_draw(fb, sprite, col, y).0.len() == fb.len(),
    decreases sprite.len(),
{
    if sprite.len() > 0 {
        let row = y % 32;
        let m = sprite_mask(sprite[0], col);
        lemma_draw_len(fb.update(row, fb[row] ^ m), sprite.skip(1), col, y + 1);
    }
}

} // verus!
