//! Machine-level laws, proved about the transition functions of
//! `crate::semantics`: the discipline of the call stack, the symmetry of
//! call and return, and the involution and collision behaviour of the XOR
//! sprite blit.

use vstd::prelude::*;
use vstd::arithmetic::div_mod::{lemma_fundamental_div_mod, lemma_mod_bound};
use crate::memory::{addr_open, spec_read_byte};
use crate::com::AbstractCom;
use crate::semantics::{
    pix_idx, sp_blit_cells, sp_blit_rows, sp_call, sp_drw, sp_pop, sp_push, sp_ret, sprite_bit,
    AbstractCpu,
};

verus! {

/// Pushing any address onto a non-full stack succeeds, and an immediate
/// pop returns exactly that address and restores the stack pointer and
/// every register, the counter and the memory to their prior values.
pub proof fn lemma_push_pop(s: AbstractCpu, addr: u16)
    requires
        s.wf(),
        s.sp < 16,
    ensures
        ({
            let (s1, r1) = sp_push(s, addr);
            let (s2, r2) = sp_pop(s1);
            &&& r1 is Ok
            &&& r2 == Ok::<u16, crate::cpu::CPUError>(addr)
            &&& s2.sp == s.sp
            &&& s2.v == s.v
            &&& s2.i == s.i
            &&& s2.pc == s.pc
            &&& s2.mem == s.mem
            &&& s2.running == s.running
        }),
{
}

/// Popping an empty stack fails and changes nothing; pushing a full stack
/// fails and changes nothing.
pub proof fn lemma_stack_bounds(s: AbstractCpu, addr: u16)
    requires
        s.wf(),
    ensures
        s.sp == 0 ==> sp_pop(s) == (s, Err::<u16, crate::cpu::CPUError>(
            crate::cpu::CPUError::StackUnderflow,
        )),
        s.sp == 16 ==> sp_push(s, addr) == (s, Err::<(), crate::cpu::CPUError>(
            crate::cpu::CPUError::StackOverflow,
        )),
{
}

/// A call followed by a return lands on the instruction after the call,
/// with the stack pointer back where it was.
pub proof fn lemma_call_ret(s: AbstractCpu, addr: u16)
    requires
        s.wf(),
        s.sp < 16,
    ensures
        ({
            let (s1, r1) = sp_call(s, addr);
            let (s2, r2) = sp_ret(s1);
            &&& r1 is Ok
            &&& s1.pc == addr
            &&& s1.sp == s.sp + 1
            &&& r2 is Ok
            &&& s2.pc == (s.pc + 2) as u16
            &&& s2.sp == s.sp
            &&& s2.v == s.v
            &&& s2.mem == s.mem
        }),
{
}

/// Drawing a non-empty sprite twice at the same coordinates on a blank
/// display leaves the display blank again: no collision and a cleared flag
/// after the first draw, a collision and a raised flag after the second.
/// The coordinate registers must not be the flag register, which the draw
/// itself writes.
pub proof fn lemma_drw_twice(s: AbstractCpu, c: AbstractCom, x_reg: u8, y_reg: u8, size: u8)
    requires
        s.wf(),
        c.wf(),
        x_reg < 15,
        y_reg < 15,
        size <= 32,
        forall|a: int| s.i <= a < s.i + size ==> #[trigger] addr_open(a),
        forall|p: int| 0 <= p < c.video.display.len() ==> !c.video.display[p],
        exists|a: int, cl: int|
            s.i <= a < s.i + size && 0 <= cl < 8 && #[trigger] sprite_bit(read_ok(s.mem, a), cl),
    ensures
        ({
            let (s1, c1, r1) = sp_drw(s, c, x_reg, y_reg, size);
            let (s2, c2, r2) = sp_drw(s1, c1, x_reg, y_reg, size);
            &&& r1 is Ok
            &&& r2 is Ok
            &&& s1.v[15] == 0
            &&& s2.v[15] == 1
            &&& c2.video.display == c.video.display
            &&& c2.video.signal == crate::video::VideoSignal::Refresh
        }),
{
    let x = s.v[x_reg as int] as int;
    let y = s.v[y_reg as int] as int;
    let w = c.video.width as int;
    let h = c.video.height as int;
    let d = c.video.display;
    lemma_blit_rows(d, w, h, x, y, s.mem, s.i as int, 0, size as int, false);
    lemma_draw_twice_collision(d, w, h, x, y, s.mem, s.i as int, size as int);
    lemma_draw_involution(d, w, h, x, y, s.mem, s.i as int, size as int);
    let (s1, c1, r1) = sp_drw(s, c, x_reg, y_reg, size);
    // the first draw does not move the sprite: the coordinate registers
    // and the index register are untouched, only the flag register and
    // the counter change
    assert(s1.v[x_reg as int] == s.v[x_reg as int]);
    assert(s1.v[y_reg as int] == s.v[y_reg as int]);
    assert(s1.mem == s.mem);
    assert(s1.i == s.i);
    let (d1, c1flag, e1) = sp_blit_rows(d, w, h, x, y, s.mem, s.i as int, 0, size as int, false);
    lemma_blit_rows(d1, w, h, x, y, s.mem, s.i as int, 0, size as int, false);
    let (s2, c2, r2) = sp_drw(s1, c1, x_reg, y_reg, size);
    assert(c2.video.display =~= c.video.display);
}

/// Two integers that wrap to the same residue and lie within one modulus
/// of each other are equal.
proof fn lemma_wrap_inj(a: int, b: int, m: int)
    requires
        m > 0,
        a % m == b % m,
        -m < a - b < m,
    ensures
        a == b,
{
    lemma_fundamental_div_mod(a, m);
    lemma_fundamental_div_mod(b, m);
    let k = a / m - b / m;
    assert(a - b == m * k) by (nonlinear_arith)
        requires
            a == m * (a / m) + a % m,
            b == m * (b / m) + b % m,
            a % m == b % m,
            k == a / m - b / m,
    ;
    if k >= 1 {
        assert(m * k >= m) by (nonlinear_arith)
            requires
                m > 0,
                k >= 1,
        ;
    }
    if k <= -1 {
        assert(m * k <= -m) by (nonlinear_arith)
            requires
                m > 0,
                k <= -1,
        ;
    }
}

/// Every sprite cell lands inside the default grid.
proof fn lemma_pix_idx_bound(w: int, h: int, x: int, y: int, col: int, row: int)
    requires
        w == 64,
        h == 32,
        x >= 0,
        y >= 0,
        col >= 0,
        row >= 0,
    ensures
        0 <= pix_idx(w, h, x, y, col, row) < 2048,
{
    lemma_mod_bound(x + col, 64);
    lemma_mod_bound(y + row, 32);
}

/// Within one sprite row, distinct columns land on distinct pixels.
proof fn lemma_col_distinct(w: int, h: int, x: int, y: int, row: int, c1: int, c2: int)
    requires
        w == 64,
        h == 32,
        x >= 0,
        y >= 0,
        row >= 0,
        0 <= c1 < 8,
        0 <= c2 < 8,
        c1 != c2,
    ensures
        pix_idx(w, h, x, y, c1, row) != pix_idx(w, h, x, y, c2, row),
{
    lemma_mod_bound(x + c1, 64);
    lemma_mod_bound(x + c2, 64);
    if (x + c1) % 64 == (x + c2) % 64 {
        lemma_wrap_inj(x + c1, x + c2, 64);
    }
}

/// Cells of two sprite rows that are fewer than a grid height apart land
/// on distinct pixels.
proof fn lemma_row_distinct(
    w: int,
    h: int,
    x: int,
    y: int,
    c1: int,
    row1: int,
    c2: int,
    row2: int,
)
    requires
        w == 64,
        h == 32,
        x >= 0,
        y >= 0,
        row1 >= 0,
        row2 >= 0,
        0 <= c1 < 8,
        0 <= c2 < 8,
        row1 != row2,
        -32 < row1 - row2 < 32,
    ensures
        pix_idx(w, h, x, y, c1, row1) != pix_idx(w, h, x, y, c2, row2),
{
    lemma_mod_bound(y + row1, 32);
    lemma_mod_bound(y + row2, 32);
    lemma_mod_bound(x + c1, 64);
    lemma_mod_bound(x + c2, 64);
    if (y + row1) % 32 == (y + row2) % 32 {
        lemma_wrap_inj(y + row1, y + row2, 32);
    }
}

/// Whether some cell of sprite row `b`, in columns `col` and up, covers
/// pixel `p`.
pub open spec fn row_covers(
    w: int,
    h: int,
    x: int,
    y: int,
    b: u8,
    row: int,
    col: int,
    p: int,
) -> bool {
    exists|c: int| col <= c < 8 && sprite_bit(b, c) && p == pix_idx(w, h, x, y, c, row)
}

/// What one row's blit does, stated pixel by pixel: each covered pixel is
/// flipped and no other changes, and the collision flag picks up exactly
/// the covered pixels that were already lit.
proof fn lemma_blit_cells(
    d: Seq<bool>,
    w: int,
    h: int,
    x: int,
    y: int,
    b: u8,
    row: int,
    col: int,
    coll: bool,
)
    requires
        w == 64,
        h == 32,
        d.len() == 2048,
        0 <= col <= 8,
        x >= 0,
        y >= 0,
        row >= 0,
    ensures
        ({
            let (d2, c2) = sp_blit_cells(d, w, h, x, y, b, row, col, coll);
            &&& d2.len() == 2048
            &&& forall|p: int|
                0 <= p < 2048 ==> d2[p] == (d[p] ^ row_covers(w, h, x, y, b, row, col, p))
            &&& c2 == (coll || exists|c: int|
                col <= c < 8 && sprite_bit(b, c) && d[pix_idx(w, h, x, y, c, row)])
        }),
    decreases 8 - col,
{
    let (d2, c2) = sp_blit_cells(d, w, h, x, y, b, row, col, coll);
    if col >= 8 {
        assert forall|p: int| 0 <= p < 2048 implies d2[p] == (d[p] ^ row_covers(
            w,
            h,
            x,
            y,
            b,
            row,
            col,
            p,
        )) by {
            assert(!row_covers(w, h, x, y, b, row, col, p));
        }
        assert(c2 == (coll || exists|c: int|
            col <= c < 8 && sprite_bit(b, c) && d[pix_idx(w, h, x, y, c, row)]));
    } else {
        let idx0 = pix_idx(w, h, x, y, col, row);
        let bit = sprite_bit(b, col);
        let d1 = d.update(idx0, d[idx0] ^ bit);
        let coll1 = coll || (d[idx0] && bit);
        lemma_pix_idx_bound(w, h, x, y, col, row);
        lemma_blit_cells(d1, w, h, x, y, b, row, col + 1, coll1);
        assert(sp_blit_cells(d, w, h, x, y, b, row, col, coll) == sp_blit_cells(
            d1,
            w,
            h,
            x,
            y,
            b,
            row,
            col + 1,
            coll1,
        ));
        // No column after this one lands on this cell's pixel.
        assert(!row_covers(w, h, x, y, b, row, col + 1, idx0)) by {
            if row_covers(w, h, x, y, b, row, col + 1, idx0) {
                let c = choose|c: int|
                    col + 1 <= c < 8 && sprite_bit(b, c) && idx0 == pix_idx(w, h, x, y, c, row);
                lemma_col_distinct(w, h, x, y, row, col, c);
            }
        }
        assert forall|p: int| 0 <= p < 2048 implies d2[p] == (d[p] ^ row_covers(
            w,
            h,
            x,
            y,
            b,
            row,
            col,
            p,
        )) by {
            if p == idx0 {
                if bit {
                    assert(row_covers(w, h, x, y, b, row, col, idx0));
                } else {
                    assert(!row_covers(w, h, x, y, b, row, col, idx0)) by {
                        if row_covers(w, h, x, y, b, row, col, idx0) {
                            let c = choose|c: int|
                                col <= c < 8 && sprite_bit(b, c) && idx0 == pix_idx(
                                    w,
                                    h,
                                    x,
                                    y,
                                    c,
                                    row,
                                );
                            if c != col {
                                lemma_col_distinct(w, h, x, y, row, col, c);
                            }
                        }
                    }
                }
            } else {
                assert(d1[p] == d[p]);
                if row_covers(w, h, x, y, b, row, col, p) {
                    let c = choose|c: int|
                        col <= c < 8 && sprite_bit(b, c) && p == pix_idx(w, h, x, y, c, row);
                    if c == col {
                        assert(p == idx0);
                    } else {
                        assert(row_covers(w, h, x, y, b, row, col + 1, p));
                    }
                }
                if row_covers(w, h, x, y, b, row, col + 1, p) {
                    let c = choose|c: int|
                        col + 1 <= c < 8 && sprite_bit(b, c) && p == pix_idx(w, h, x, y, c, row);
                    assert(row_covers(w, h, x, y, b, row, col, p));
                }
            }
        }
        // The collision flag over the tail plus this cell is the flag over
        // the whole range.
        assert(c2 == (coll || exists|c: int|
            col <= c < 8 && sprite_bit(b, c) && d[pix_idx(w, h, x, y, c, row)])) by {
            if c2 {
                if !coll {
                    if d[idx0] && bit {
                        assert(sprite_bit(b, col) && d[pix_idx(w, h, x, y, col, row)]);
                    } else {
                        let c = choose|c: int|
                            col + 1 <= c < 8 && sprite_bit(b, c) && d1[pix_idx(w, h, x, y, c, row)];
                        lemma_col_distinct(w, h, x, y, row, col, c);
                        assert(d[pix_idx(w, h, x, y, c, row)]);
                    }
                }
            } else {
                if exists|c: int|
                    col <= c < 8 && sprite_bit(b, c) && d[pix_idx(w, h, x, y, c, row)] {
                    let c = choose|c: int|
                        col <= c < 8 && sprite_bit(b, c) && d[pix_idx(w, h, x, y, c, row)];
                    if c == col {
                        assert(coll1);
                    } else {
                        lemma_col_distinct(w, h, x, y, row, col, c);
                        assert(d1[pix_idx(w, h, x, y, c, row)]);
                        assert(col + 1 <= c < 8 && sprite_bit(b, c) && d1[pix_idx(
                            w,
                            h,
                            x,
                            y,
                            c,
                            row,
                        )]);
                    }
                }
            }
        }
    }
}

/// The byte a successful region-checked read yields.
pub open spec fn read_ok(mem: Seq<u8>, a: int) -> u8 {
    spec_read_byte(mem, a)->Ok_0
}

/// Whether some cell of the sprite rows `row` and up covers pixel `p`.
pub open spec fn sprite_covers(
    w: int,
    h: int,
    x: int,
    y: int,
    mem: Seq<u8>,
    base: int,
    row: int,
    size: int,
    p: int,
) -> bool {
    exists|r: int, c: int|
        row <= r < size && 0 <= c < 8 && sprite_bit(read_ok(mem, base + r), c) && p == pix_idx(
            w,
            h,
            x,
            y,
            c,
            r,
        )
}

/// What a whole draw does when every sprite row is readable, stated pixel
/// by pixel: each covered pixel is flipped, no other changes, and the
/// collision flag is raised exactly when some covered pixel was lit.
pub proof fn lemma_blit_rows(
    d: Seq<bool>,
    w: int,
    h: int,
    x: int,
    y: int,
    mem: Seq<u8>,
    base: int,
    row: int,
    size: int,
    coll: bool,
)
    requires
        w == 64,
        h == 32,
        d.len() == 2048,
        0 <= row <= size <= 32,
        x >= 0,
        y >= 0,
        forall|a: int| base + row <= a < base + size ==> #[trigger] addr_open(a),
    ensures
        ({
            let (d2, c2, err) = sp_blit_rows(d, w, h, x, y, mem, base, row, size, coll);
            &&& err is None
            &&& d2.len() == 2048
            &&& forall|p: int|
                0 <= p < 2048 ==> d2[p] == (d[p] ^ sprite_covers(w, h, x, y, mem, base, row, size, p))
            &&& c2 == (coll || exists|r: int, c: int|
                row <= r < size && 0 <= c < 8 && sprite_bit(read_ok(mem, base + r), c) && d[pix_idx(
                    w,
                    h,
                    x,
                    y,
                    c,
                    r,
                )])
        }),
    decreases size - row,
{
    let (d2, c2, err) = sp_blit_rows(d, w, h, x, y, mem, base, row, size, coll);
    if row >= size {
        assert forall|p: int| 0 <= p < 2048 implies d2[p] == (d[p] ^ sprite_covers(
            w,
            h,
            x,
            y,
            mem,
            base,
            row,
            size,
            p,
        )) by {
            assert(!sprite_covers(w, h, x, y, mem, base, row, size, p));
        }
    } else {
        assert(addr_open(base + row));
        let b = read_ok(mem, base + row);
        let (d1, c1) = sp_blit_cells(d, w, h, x, y, b, row, 0, coll);
        lemma_blit_cells(d, w, h, x, y, b, row, 0, coll);
        lemma_blit_rows(d1, w, h, x, y, mem, base, row + 1, size, c1);
        // A later row never lands on a pixel this row covers.
        assert forall|p: int| 0 <= p < 2048 implies d2[p] == (d[p] ^ sprite_covers(
            w,
            h,
            x,
            y,
            mem,
            base,
            row,
            size,
            p,
        )) by {
            let here = row_covers(w, h, x, y, b, row, 0, p);
            let later = sprite_covers(w, h, x, y, mem, base, row + 1, size, p);
            assert(d2[p] == (d1[p] ^ later));
            assert(d1[p] == (d[p] ^ here));
            // here and later cannot both hold
            if here && later {
                let c0 = choose|c: int|
                    0 <= c < 8 && sprite_bit(b, c) && p == pix_idx(w, h, x, y, c, row);
                let (r1, c1x) = choose|r: int, c: int|
                    row + 1 <= r < size && 0 <= c < 8 && sprite_bit(read_ok(mem, base + r), c) && p
                        == pix_idx(w, h, x, y, c, r);
                lemma_row_distinct(w, h, x, y, c0, row, c1x, r1);
            }
            if sprite_covers(w, h, x, y, mem, base, row, size, p) {
                let (r1, c1x) = choose|r: int, c: int|
                    row <= r < size && 0 <= c < 8 && sprite_bit(read_ok(mem, base + r), c) && p
                        == pix_idx(w, h, x, y, c, r);
                if r1 == row {
                    assert(here);
                } else {
                    assert(later);
                }
            }
            if here {
                assert(sprite_covers(w, h, x, y, mem, base, row, size, p));
            }
            if later {
                let (r1, c1x) = choose|r: int, c: int|
                    row + 1 <= r < size && 0 <= c < 8 && sprite_bit(read_ok(mem, base + r), c) && p
                        == pix_idx(w, h, x, y, c, r);
                assert(sprite_covers(w, h, x, y, mem, base, row, size, p));
            }
        }
        // The collision flag accumulated over this row plus the later rows
        // is the flag over the whole range.
        assert(c2 == (coll || exists|r: int, c: int|
            row <= r < size && 0 <= c < 8 && sprite_bit(read_ok(mem, base + r), c) && d[pix_idx(
                w,
                h,
                x,
                y,
                c,
                r,
            )])) by {
            if c2 {
                if !coll {
                    if c1 {
                        let c = choose|c: int|
                            0 <= c < 8 && sprite_bit(b, c) && d[pix_idx(w, h, x, y, c, row)];
                        assert(row <= row < size && 0 <= c < 8 && sprite_bit(
                            read_ok(mem, base + row),
                            c,
                        ) && d[pix_idx(w, h, x, y, c, row)]);
                    } else {
                        let (r1, cx) = choose|r: int, c: int|
                            row + 1 <= r < size && 0 <= c < 8 && sprite_bit(read_ok(mem, base + r), c)
                                && d1[pix_idx(w, h, x, y, c, r)];
                        lemma_pix_idx_bound(w, h, x, y, cx, r1);
                        assert(!row_covers(w, h, x, y, b, row, 0, pix_idx(w, h, x, y, cx, r1)))
                            by {
                            if row_covers(w, h, x, y, b, row, 0, pix_idx(w, h, x, y, cx, r1)) {
                                let c0 = choose|c: int|
                                    0 <= c < 8 && sprite_bit(b, c) && pix_idx(w, h, x, y, cx, r1)
                                        == pix_idx(w, h, x, y, c, row);
                                lemma_row_distinct(w, h, x, y, c0, row, cx, r1);
                            }
                        }
                        assert(d[pix_idx(w, h, x, y, cx, r1)]);
                    }
                }
            } else {
                if exists|r: int, c: int|
                    row <= r < size && 0 <= c < 8 && sprite_bit(read_ok(mem, base + r), c) && d[
                        pix_idx(w, h, x, y, c, r)
                    ] {
                    let (r1, cx) = choose|r: int, c: int|
                        row <= r < size && 0 <= c < 8 && sprite_bit(read_ok(mem, base + r), c) && d[
                            pix_idx(w, h, x, y, c, r)
                        ];
                    if r1 == row {
                        assert(c1);
                    } else {
                        lemma_pix_idx_bound(w, h, x, y, cx, r1);
                        assert(!row_covers(w, h, x, y, b, row, 0, pix_idx(w, h, x, y, cx, r1)))
                            by {
                            if row_covers(w, h, x, y, b, row, 0, pix_idx(w, h, x, y, cx, r1)) {
                                let c0 = choose|c: int|
                                    0 <= c < 8 && sprite_bit(b, c) && pix_idx(w, h, x, y, cx, r1)
                                        == pix_idx(w, h, x, y, c, row);
                                lemma_row_distinct(w, h, x, y, c0, row, cx, r1);
                            }
                        }
                        assert(d1[pix_idx(w, h, x, y, cx, r1)]);
                        assert(row + 1 <= r1 < size && 0 <= cx < 8 && sprite_bit(
                            read_ok(mem, base + r1),
                            cx,
                        ) && d1[pix_idx(w, h, x, y, cx, r1)]);
                    }
                }
            }
        }
    }
}

/// Drawing the same sprite twice at the same coordinates restores the
/// display exactly: the XOR blit is an involution.
pub proof fn lemma_draw_involution(
    d: Seq<bool>,
    w: int,
    h: int,
    x: int,
    y: int,
    mem: Seq<u8>,
    base: int,
    size: int,
)
    requires
        w == 64,
        h == 32,
        d.len() == 2048,
        0 <= size <= 32,
        x >= 0,
        y >= 0,
        forall|a: int| base <= a < base + size ==> #[trigger] addr_open(a),
    ensures
        ({
            let (d1, c1, e1) = sp_blit_rows(d, w, h, x, y, mem, base, 0, size, false);
            let (d2, c2, e2) = sp_blit_rows(d1, w, h, x, y, mem, base, 0, size, false);
            d2 == d
        }),
{
    let (d1, c1, e1) = sp_blit_rows(d, w, h, x, y, mem, base, 0, size, false);
    lemma_blit_rows(d, w, h, x, y, mem, base, 0, size, false);
    let (d2, c2, e2) = sp_blit_rows(d1, w, h, x, y, mem, base, 0, size, false);
    lemma_blit_rows(d1, w, h, x, y, mem, base, 0, size, false);
    assert(d2 =~= d);
}

/// Drawing a non-empty sprite twice onto a blank display reports no
/// collision the first time and a collision the second time.
pub proof fn lemma_draw_twice_collision(
    d: Seq<bool>,
    w: int,
    h: int,
    x: int,
    y: int,
    mem: Seq<u8>,
    base: int,
    size: int,
)
    requires
        w == 64,
        h == 32,
        d.len() == 2048,
        0 <= size <= 32,
        x >= 0,
        y >= 0,
        forall|a: int| base <= a < base + size ==> #[trigger] addr_open(a),
        forall|p: int| 0 <= p < 2048 ==> !d[p],
        exists|a: int, c: int|
            base <= a < base + size && 0 <= c < 8 && #[trigger] sprite_bit(read_ok(mem, a), c),
    ensures
        ({
            let (d1, c1, e1) = sp_blit_rows(d, w, h, x, y, mem, base, 0, size, false);
            let (d2, c2, e2) = sp_blit_rows(d1, w, h, x, y, mem, base, 0, size, false);
            &&& !c1
            &&& c2
        }),
{
    let (d1, c1, e1) = sp_blit_rows(d, w, h, x, y, mem, base, 0, size, false);
    lemma_blit_rows(d, w, h, x, y, mem, base, 0, size, false);
    let (d2, c2, e2) = sp_blit_rows(d1, w, h, x, y, mem, base, 0, size, false);
    lemma_blit_rows(d1, w, h, x, y, mem, base, 0, size, false);
    assert(!c1) by {
        if exists|r: int, c: int|
            0 <= r < size && 0 <= c < 8 && sprite_bit(read_ok(mem, base + r), c) && d[pix_idx(
                w,
                h,
                x,
                y,
                c,
                r,
            )] {
            let (r1, cx) = choose|r: int, c: int|
                0 <= r < size && 0 <= c < 8 && sprite_bit(read_ok(mem, base + r), c) && d[pix_idx(
                    w,
                    h,
                    x,
                    y,
                    c,
                    r,
                )];
            lemma_pix_idx_bound(w, h, x, y, cx, r1);
        }
    }
    assert(c2) by {
        let (a1, cx) = choose|a: int, c: int|
            base <= a < base + size && 0 <= c < 8 && #[trigger] sprite_bit(read_ok(mem, a), c);
        let r1 = a1 - base;
        assert(sprite_bit(read_ok(mem, base + r1), cx));
        lemma_pix_idx_bound(w, h, x, y, cx, r1);
        let p = pix_idx(w, h, x, y, cx, r1);
        assert(sprite_covers(w, h, x, y, mem, base, 0, size, p));
        assert(d1[p]);
        assert(0 <= r1 < size && 0 <= cx < 8 && sprite_bit(read_ok(mem, base + r1), cx) && d1[
            pix_idx(w, h, x, y, cx, r1)
        ]);
    }
}

} // verus!
