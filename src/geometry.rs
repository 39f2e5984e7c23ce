use vstd::prelude::*;

verus! {

/// `a / b` rounded to the nearest integer, halves rounded up.
pub open spec fn round_div(a: nat, b: nat) -> nat
    recommends
        b > 0,
{
    a / b + if 2 * (a % b) >= b { 1nat } else { 0nat }
}

/// At least one.
pub open spec fn at_least_one(x: nat) -> nat {
    if x == 0 { 1 } else { x }
}

/// Whether a picture of the first size fits in a box of the second.
pub open spec fn fits(w: nat, h: nat, bw: nat, bh: nat) -> bool {
    w <= bw && h <= bh
}

/// Whether the box's height, rather than its width, limits a fit resize: the
/// height ratio `bh / h` is the smaller one, found by cross-multiplying.
pub open spec fn height_limits(w: nat, h: nat, bw: nat, bh: nat) -> bool {
    w * bh <= h * bw
}

/// The size of a picture of size `w` x `h` scaled by one ratio, the smaller of
/// `bw / w` and `bh / h`, each side rounded and at least one.
pub open spec fn fit_spec(w: nat, h: nat, bw: nat, bh: nat) -> (nat, nat)
    recommends
        w > 0,
        h > 0,
{
    if height_limits(w, h, bw, bh) {
        (at_least_one(round_div(w * bh, h)), at_least_one(bh))
    } else {
        (at_least_one(bw), at_least_one(round_div(h * bw, w)))
    }
}

/// `a / b` rounded half up, computed on 64 bits.
pub fn round_div_u64(a: u64, b: u64) -> (r: u64)
    requires
        b > 0,
        b <= u32::MAX,
    ensures
        r == round_div(a as nat, b as nat),
{
    let q = a / b;
    let m = a % b;
    if 2 * m >= b {
        assert(q < u64::MAX) by (nonlinear_arith)
            requires
                q == a / b,
                b > 0,
                b <= u32::MAX,
                2 * m >= b,
                m == a % b,
        {
            assert(b >= 2 || m >= 1) by (nonlinear_arith) requires 2 * m >= b, b > 0;
        }
        q + 1
    } else {
        q
    }
}

/// The product of two 32-bit values, on 64 bits.
pub fn mul_wide(a: u32, b: u32) -> (r: u64)
    ensures
        r == a * b,
{
    assert((a as nat) * (b as nat) <= u64::MAX) by (nonlinear_arith)
        requires
            a <= u32::MAX,
            b <= u32::MAX,
    ;
    (a as u64) * (b as u64)
}

/// The size a picture takes when scaled to fit a box, keeping its aspect
/// ratio; one side meets the box, the other is rounded.
pub fn fit_within(w: u32, h: u32, bw: u32, bh: u32) -> (r: (u32, u32))
    requires
        w > 0,
        h > 0,
    ensures
        r.0 as nat == fit_spec(w as nat, h as nat, bw as nat, bh as nat).0,
        r.1 as nat == fit_spec(w as nat, h as nat, bw as nat, bh as nat).1,
{
    let wb = mul_wide(w, bh);
    let hb = mul_wide(h, bw);
    if wb <= hb {
        let nw = round_div_u64(wb, h as u64);
        proof {
            lemma_fit_side_bound(w as nat, h as nat, bw as nat, bh as nat);
        }
        let nw = if nw == 0 { 1 } else { nw as u32 };
        let nh = if bh == 0 { 1 } else { bh };
        (nw, nh)
    } else {
        let nh = round_div_u64(hb, w as u64);
        proof {
            lemma_fit_side_bound(h as nat, w as nat, bh as nat, bw as nat);
        }
        let nh = if nh == 0 { 1 } else { nh as u32 };
        let nw = if bw == 0 { 1 } else { bw };
        (nw, nh)
    }
}

/// Where `w * bh <= h * bw`, the rounded `w * bh / h` does not pass `bw`,
/// and times `h` it stays within `h` of `w * bh`.
pub proof fn lemma_fit_side_bound(w: nat, h: nat, bw: nat, bh: nat)
    requires
        h > 0,
        w * bh <= h * bw,
    ensures
        round_div(w * bh, h) <= bw,
        at_least_one(round_div(w * bh, h)) * h <= w * bh + h,
        w * bh <= at_least_one(round_div(w * bh, h)) * h + h,
{
    let a = w * bh;
    let q = a / h;
    let m = a % h;
    vstd::arithmetic::div_mod::lemma_fundamental_div_mod(a as int, h as int);
    assert(a == q * h + m);
    assert(m < h);
    assert(q <= bw) by (nonlinear_arith)
        requires
            a == q * h + m,
            a <= h * bw,
            h > 0,
    ;
    if 2 * m >= h && q == bw {
        assert(m == 0) by (nonlinear_arith)
            requires
                a == q * h + m,
                a <= h * bw,
                q == bw,
        ;
    }
    let n = round_div(a, h);
    assert(n * h <= a + h) by (nonlinear_arith)
        requires
            a == q * h + m,
            n == q || n == q + 1,
            m < h,
    ;
    assert(a <= n * h + h) by (nonlinear_arith)
        requires
            a == q * h + m,
            n == q || n == q + 1,
            m < h,
    ;
    if n == 0 {
        assert(a < h) by (nonlinear_arith)
            requires
                a == q * h + m,
                n == 0,
                n == q || n == q + 1,
                m < h,
        ;
    }
}

/// A fit resize never leaves the box, for a non-empty picture and box, and
/// keeps the picture's aspect ratio within rounding: `nw * h` and `nh * w`
/// differ by at most the larger source side.
pub proof fn lemma_fit_within_box(w: nat, h: nat, bw: nat, bh: nat)
    requires
        w > 0,
        h > 0,
        bw > 0,
        bh > 0,
    ensures
        fit_spec(w, h, bw, bh).0 <= bw,
        fit_spec(w, h, bw, bh).1 <= bh,
        fit_spec(w, h, bw, bh).0 >= 1,
        fit_spec(w, h, bw, bh).1 >= 1,
        fit_spec(w, h, bw, bh).0 * h <= fit_spec(w, h, bw, bh).1 * w + if w >= h { w } else { h },
        fit_spec(w, h, bw, bh).1 * w <= fit_spec(w, h, bw, bh).0 * h + if w >= h { w } else { h },
{
    if height_limits(w, h, bw, bh) {
        lemma_fit_side_bound(w, h, bw, bh);
        assert(w * bh == bh * w) by (nonlinear_arith);
    } else {
        assert(h * bw <= w * bh) by (nonlinear_arith)
            requires
                !(w * bh <= h * bw),
        ;
        lemma_fit_side_bound(h, w, bh, bw);
        assert(h * bw == bw * h) by (nonlinear_arith);
    }
}

/// The size and placement of one frame of an animation.
#[derive(Debug, Clone, Copy, PartialEq, Eq, Structural)]
pub struct FrameGeometry {
    pub width: u32,
    pub height: u32,
    pub left: u32,
    pub top: u32,
}

/// The one ratio, as numerator and denominator, by which every frame of an
/// animation with logical screen `sw` x `sh` is scaled to fit `bw` x `bh`:
/// the smaller of `bw / sw` and `bh / sh`.
pub open spec fn gif_ratio(sw: nat, sh: nat, bw: nat, bh: nat) -> (nat, nat) {
    if bw * sh <= bh * sw {
        (bw, sw)
    } else {
        (bh, sh)
    }
}

/// A frame scaled by `num / den`: each side and offset rounded; `None` where
/// the frame shrinks to nothing.
pub open spec fn scaled_frame(g: FrameGeometry, num: nat, den: nat) -> Option<FrameGeometry> {
    let w = round_div(g.width as nat * num, den);
    let h = round_div(g.height as nat * num, den);
    if w == 0 || h == 0 {
        None
    } else {
        Some(
            FrameGeometry {
                width: w as u32,
                height: h as u32,
                left: round_div(g.left as nat * num, den) as u32,
                top: round_div(g.top as nat * num, den) as u32,
            },
        )
    }
}

/// Scaling by a ratio of one half halves each side and offset, rounding
/// halves up.
pub proof fn lemma_half_ratio(x: nat, num: nat)
    requires
        num > 0,
    ensures
        round_div(x * num, 2 * num) == round_div(x, 2),
{
    let k = x / 2;
    let b = x % 2;
    vstd::arithmetic::div_mod::lemma_fundamental_div_mod(x as int, 2);
    assert(x * num == k * (2 * num) + b * num) by (nonlinear_arith)
        requires
            x == 2 * k + b,
    ;
    assert(b * num < 2 * num) by (nonlinear_arith)
        requires
            b < 2,
            num > 0,
    ;
    vstd::arithmetic::div_mod::lemma_fundamental_div_mod_converse(
        (x * num) as int,
        (2 * num) as int,
        k as int,
        (b * num) as int,
    );
    assert(2 * (b * num) >= 2 * num <==> b >= 1) by (nonlinear_arith)
        requires
            num > 0,
            b < 2,
    ;
}

/// With a ratio of one half, every kept frame's offsets are exactly half the
/// input offsets, rounded; a frame is dropped only where a side rounds to
/// zero, and no kept frame has a zero side.
pub proof fn lemma_half_scaled_frames(g: FrameGeometry, num: nat, den: nat)
    requires
        num > 0,
        den == 2 * num,
    ensures
        scaled_frame(g, num, den) is None <==> round_div(g.width as nat, 2) == 0 || round_div(
            g.height as nat,
            2,
        ) == 0,
        scaled_frame(g, num, den) matches Some(o) ==> o.left == round_div(g.left as nat, 2)
            && o.top == round_div(g.top as nat, 2) && o.width > 0 && o.height > 0,
{
    lemma_half_ratio(g.width as nat, num);
    lemma_half_ratio(g.height as nat, num);
    lemma_half_ratio(g.left as nat, num);
    lemma_half_ratio(g.top as nat, num);
    lemma_half_bounded(g.width as nat);
    lemma_half_bounded(g.height as nat);
    lemma_half_bounded(g.left as nat);
    lemma_half_bounded(g.top as nat);
}

proof fn lemma_half_bounded(x: nat)
    requires
        x <= u32::MAX,
    ensures
        round_div(x, 2) <= u32::MAX,
{
}

/// The ratio by which an animation that does not fit its box is scaled; it
/// is below one.
pub fn gif_scale_ratio(sw: u32, sh: u32, bw: u32, bh: u32) -> (r: (u32, u32))
    requires
        sw > 0,
        sh > 0,
        !fits(sw as nat, sh as nat, bw as nat, bh as nat),
    ensures
        (r.0 as nat, r.1 as nat) == gif_ratio(sw as nat, sh as nat, bw as nat, bh as nat),
        0 < r.1,
        r.0 < r.1,
{
    if mul_wide(bw, sh) <= mul_wide(bh, sw) {
        if sw <= bw {
            assert(bw * sh >= sw * sh) by (nonlinear_arith) requires sw <= bw;
            assert(bh * sw < sh * sw) by (nonlinear_arith) requires sh > bh, sw > 0;
            assert(false) by (nonlinear_arith)
                requires
                    bw * sh <= bh * sw,
                    bw * sh >= sw * sh,
                    bh * sw < sh * sw,
            ;
        }
        (bw, sw)
    } else {
        if sh <= bh {
            assert(bh * sw >= sh * sw) by (nonlinear_arith) requires sh <= bh;
            assert(bw * sh < sw * sh) by (nonlinear_arith) requires sw > bw, sh > 0;
            assert(false) by (nonlinear_arith)
                requires
                    !(bw * sh <= bh * sw),
                    bh * sw >= sh * sw,
                    bw * sh < sw * sh,
            ;
        }
        (bh, sh)
    }
}

/// `x` scaled by `num / den` and rounded, which does not pass `x`.
fn scale_dim(x: u32, num: u32, den: u32) -> (r: u32)
    requires
        0 < den,
        num <= den,
    ensures
        r == round_div(x as nat * num as nat, den as nat),
{
    proof {
        assert(x * num <= den * x) by (nonlinear_arith) requires num <= den;
        lemma_fit_side_bound(x as nat, den as nat, x as nat, num as nat);
    }
    round_div_u64(mul_wide(x, num), den as u64) as u32
}

/// One frame scaled by the animation's ratio; `None` where it shrinks to
/// nothing and is dropped.
pub fn scale_frame_geometry(g: FrameGeometry, num: u32, den: u32) -> (r: Option<FrameGeometry>)
    requires
        0 < den,
        num <= den,
    ensures
        r == scaled_frame(g, num as nat, den as nat),
{
    let w = scale_dim(g.width, num, den);
    let h = scale_dim(g.height, num, den);
    if w == 0 || h == 0 {
        None
    } else {
        Some(
            FrameGeometry {
                width: w,
                height: h,
                left: scale_dim(g.left, num, den),
                top: scale_dim(g.top, num, den),
            },
        )
    }
}

} // verus!
