//! The mip chain built on upload: how many levels, the extent of each, and
//! which texels of one level the box filter averages into a texel of the
//! next.

use vstd::prelude::*;

verus! {

/// The bytes in one texel of every format textures are uploaded in.
pub const BYTES_PER_TEXEL: u32 = 4;

/// `floor(log2(n))`, with 0 for 0 and 1.
pub open spec fn floor_log2(n: nat) -> nat
    decreases n,
{
    if n <= 1 {
        0
    } else {
        1 + floor_log2(n / 2)
    }
}

/// Two to the `k`.
pub open spec fn exp2(k: nat) -> nat
    decreases k,
{
    if k == 0 {
        1
    } else {
        2 * exp2((k - 1) as nat)
    }
}

/// The larger of the two extents of a texture.
pub open spec fn larger_extent(width: u32, height: u32) -> nat {
    if width >= height {
        width as nat
    } else {
        height as nat
    }
}

/// The number of levels in the mip chain of a `width` × `height` texture:
/// one without mipmaps, else one per halving of the larger extent down to a
/// single texel.
pub open spec fn spec_mip_level_count(width: u32, height: u32, generate_mipmaps: bool) -> nat {
    if generate_mipmaps {
        floor_log2(larger_extent(width, height)) + 1
    } else {
        1
    }
}

/// The extent of the next mip level: half, but never below one texel.
pub open spec fn next_extent(e: nat) -> nat {
    if e / 2 == 0 {
        1
    } else {
        e / 2
    }
}

/// The extent of mip level `level` of an extent `e`.
pub open spec fn mip_extent(e: nat, level: nat) -> nat
    decreases level,
{
    if level == 0 {
        e
    } else {
        next_extent(mip_extent(e, (level - 1) as nat))
    }
}

proof fn lemma_floor_log2_below(n: nat, j: nat)
    requires
        n < exp2(j + 1),
    ensures
        floor_log2(n) <= j,
    decreases j,
{
    assert(exp2(j + 1) == 2 * exp2(j));
    if n > 1 {
        if j == 0 {
            assert(exp2(0) == 1);
        } else {
            assert(exp2(j) == 2 * exp2((j - 1) as nat));
            assert(n / 2 < exp2(j));
            lemma_floor_log2_below(n / 2, (j - 1) as nat);
        }
    }
}

proof fn lemma_floor_log2_bounds(n: nat)
    requires
        n >= 1,
    ensures
        exp2(floor_log2(n)) <= n < exp2(floor_log2(n) + 1),
    decreases n,
{
    if n > 1 {
        lemma_floor_log2_bounds(n / 2);
        assert(exp2(floor_log2(n)) == 2 * exp2(floor_log2(n / 2)));
        assert(exp2(floor_log2(n) + 1) == 2 * exp2(floor_log2(n)));
    } else {
        assert(exp2(1) == 2 * exp2(0));
    }
}

/// With a mip chain, the number of levels is the number of binary digits
/// of the larger extent: two to the power of one less than it is at most
/// that extent, and two to its power exceeds it; an empty texture has one
/// level, and so has any texture without a mip chain.
pub proof fn mip_level_count_is_the_bit_length_of_the_larger_extent(width: u32, height: u32)
    ensures
        ({
            let m = if width >= height {
                width as nat
            } else {
                height as nat
            };
            let n = spec_mip_level_count(width, height, true);
            &&& m >= 1 ==> exp2((n - 1) as nat) <= m < exp2(n)
            &&& m == 0 ==> n == 1
            &&& spec_mip_level_count(width, height, false) == 1
        }),
{
    let m = larger_extent(width, height);
    if m >= 1 {
        lemma_floor_log2_bounds(m);
    }
}

proof fn lemma_floor_log2_of_u32(n: u32)
    ensures
        floor_log2(n as nat) <= 31,
{
    reveal_with_fuel(exp2, 33);
    assert(exp2(32) == 0x1_0000_0000);
    lemma_floor_log2_below(n as nat, 31);
}

proof fn lemma_floor_log2_monotone(a: nat, b: nat)
    requires
        a <= b,
    ensures
        floor_log2(a) <= floor_log2(b),
    decreases b,
{
    if a > 1 {
        lemma_floor_log2_monotone(a / 2, b / 2);
    }
}

proof fn lemma_floor_log2_positive(n: nat)
    requires
        floor_log2(n) >= 1,
    ensures
        n >= 2,
{
}

/// Down to level `floor_log2(e)` each halving of an extent `e` of at least
/// one texel takes one off its `floor_log2`.
proof fn lemma_mip_extent_log(e: nat, i: nat)
    requires
        e >= 1,
        i <= floor_log2(e),
    ensures
        mip_extent(e, i) >= 1,
        floor_log2(mip_extent(e, i)) == floor_log2(e) - i,
    decreases i,
{
    if i > 0 {
        lemma_mip_extent_log(e, (i - 1) as nat);
        let x = mip_extent(e, (i - 1) as nat);
        lemma_floor_log2_positive(x);
    }
}

/// From level `floor_log2(e)` on, an extent of at least one texel is one
/// texel.
proof fn lemma_mip_extent_bottom(e: nat, i: nat)
    requires
        e >= 1,
        i >= floor_log2(e),
    ensures
        mip_extent(e, i) == 1,
    decreases i,
{
    if i == floor_log2(e) {
        lemma_mip_extent_log(e, i);
    } else {
        lemma_mip_extent_bottom(e, (i - 1) as nat);
    }
}

proof fn lemma_mip_extent_bounded(e: nat, i: nat)
    ensures
        mip_extent(e, i) <= if e >= 1 { e } else { 1 },
    decreases i,
{
    if i > 0 {
        lemma_mip_extent_bounded(e, (i - 1) as nat);
    }
}

/// The mip chain of a texture of at least one texel each way, when one is
/// built, ends at a single texel, and no earlier level is a single texel:
/// the chain is complete and has no level to spare.
pub proof fn mip_chain_ends_at_one_texel(width: u32, height: u32)
    requires
        width >= 1,
        height >= 1,
    ensures
        ({
            let n = spec_mip_level_count(width, height, true);
            &&& mip_extent(width as nat, (n - 1) as nat) == 1
            &&& mip_extent(height as nat, (n - 1) as nat) == 1
            &&& forall|i: nat|
                i < n - 1 ==> !(#[trigger] mip_extent(width as nat, i) == 1 && mip_extent(
                    height as nat,
                    i,
                ) == 1)
        }),
{
    let m = larger_extent(width, height);
    let k = floor_log2(m);
    lemma_floor_log2_monotone(width as nat, m);
    lemma_floor_log2_monotone(height as nat, m);
    lemma_mip_extent_bottom(width as nat, k);
    lemma_mip_extent_bottom(height as nat, k);
    assert forall|i: nat| i < k implies !(#[trigger] mip_extent(width as nat, i) == 1
        && mip_extent(height as nat, i) == 1) by {
        lemma_mip_extent_log(m, i);
        lemma_floor_log2_positive(mip_extent(m, i));
    }
}

/// The number of levels in the mip chain of a `width` × `height` texture.
pub fn mip_level_count(width: u32, height: u32, generate_mipmaps: bool) -> (r: u32)
    ensures
        r == spec_mip_level_count(width, height, generate_mipmaps),
        1 <= r <= 32,
        !generate_mipmaps ==> r == 1,
        generate_mipmaps && larger_extent(width, height) >= 1 ==> exp2((r - 1) as nat) <= larger_extent(
            width,
            height,
        ) < exp2(r as nat),
        generate_mipmaps && larger_extent(width, height) == 0 ==> r == 1,
{
    proof {
        if generate_mipmaps && larger_extent(width, height) >= 1 {
            lemma_floor_log2_bounds(larger_extent(width, height));
        }
    }
    if !generate_mipmaps {
        return 1;
    }
    let larger: u32 = if width >= height {
        width
    } else {
        height
    };
    let mut n: u32 = larger;
    let mut k: u32 = 0;
    proof {
        lemma_floor_log2_of_u32(larger);
    }
    while n > 1
        invariant
            k + floor_log2(n as nat) == floor_log2(larger as nat),
            floor_log2(larger as nat) <= 31,
            larger as nat == larger_extent(width, height),
        decreases n,
    {
        n = n / 2;
        k = k + 1;
    }
    k + 1
}

/// The extent of the next mip level: half, but never below one texel.
pub fn next_mip_extent(e: u32) -> (r: u32)
    ensures
        r == next_extent(e as nat),
        e >= 2 ==> r == e / 2,
        e < 2 ==> r == 1,
{
    let half = e / 2;
    if half == 0 {
        1
    } else {
        half
    }
}

/// One level of a mip chain: its extent and the bytes in one of its rows.
#[derive(Clone, Copy, Debug, PartialEq, Eq, Structural)]
pub struct MipLevel {
    pub width: u32,
    pub height: u32,
    pub bytes_per_row: u32,
}

/// Every level of the mip chain of a `width` × `height` texture, level 0
/// first: each level half the one before, never below one texel, with rows
/// of four bytes per texel.
pub fn mip_chain(width: u32, height: u32, generate_mipmaps: bool) -> (r: Vec<MipLevel>)
    requires
        width * BYTES_PER_TEXEL <= u32::MAX,
    ensures
        r.len() == spec_mip_level_count(width, height, generate_mipmaps),
        forall|i: int|
            0 <= i < r.len() ==> {
                &&& #[trigger] r[i].width == mip_extent(width as nat, i as nat)
                &&& r[i].height == mip_extent(height as nat, i as nat)
                &&& r[i].bytes_per_row == BYTES_PER_TEXEL * r[i].width
            },
        r[0].width == width && r[0].height == height,
        forall|i: int|
            0 <= i < r.len() - 1 ==> {
                &&& (#[trigger] r[i].width >= 2 ==> r[i + 1].width == r[i].width / 2)
                &&& (r[i].width < 2 ==> r[i + 1].width == 1)
                &&& (r[i].height >= 2 ==> r[i + 1].height == r[i].height / 2)
                &&& (r[i].height < 2 ==> r[i + 1].height == 1)
            },
{
    let count = mip_level_count(width, height, generate_mipmaps);
    let mut levels: Vec<MipLevel> = Vec::new();
    let mut w: u32 = width;
    let mut h: u32 = height;
    let mut i: u32 = 0;
    while i < count
        invariant
            i <= count,
            count == spec_mip_level_count(width, height, generate_mipmaps),
            width * BYTES_PER_TEXEL <= u32::MAX,
            levels.len() == i,
            w == mip_extent(width as nat, i as nat),
            h == mip_extent(height as nat, i as nat),
            forall|j: int|
                0 <= j < i ==> {
                    &&& #[trigger] levels[j].width == mip_extent(width as nat, j as nat)
                    &&& levels[j].height == mip_extent(height as nat, j as nat)
                    &&& levels[j].bytes_per_row == BYTES_PER_TEXEL * levels[j].width
                },
        decreases count - i,
    {
        proof {
            lemma_mip_extent_bounded(width as nat, i as nat);
        }
        let ghost before = levels@;
        levels.push(MipLevel { width: w, height: h, bytes_per_row: w * BYTES_PER_TEXEL });
        assert forall|j: int| 0 <= j < i + 1 implies {
            &&& #[trigger] levels[j].width == mip_extent(width as nat, j as nat)
            &&& levels[j].height == mip_extent(height as nat, j as nat)
            &&& levels[j].bytes_per_row == BYTES_PER_TEXEL * levels[j].width
        } by {
            if j < i {
                assert(levels[j] == before[j]);
            }
        }
        w = next_mip_extent(w);
        h = next_mip_extent(h);
        i = i + 1;
    }
    levels
}

/// The byte offset of texel (`sx`, `sy`) of a `width` × `height` RGBA8
/// level when the texel lies inside it, and nothing when it does not.
pub open spec fn texel_if_inside(width: nat, height: nat, sx: nat, sy: nat) -> Seq<nat> {
    if sx < width && sy < height {
        seq![(sy * width + sx) * 4]
    } else {
        seq![]
    }
}

/// The byte offsets of the texels of a `width` × `height` level that the
/// box filter averages into texel (`x`, `y`) of the next level: the 2×2
/// block at (2x, 2y), row by row, less those that fall outside.
pub open spec fn box_footprint(width: nat, height: nat, x: nat, y: nat) -> Seq<nat> {
    texel_if_inside(width, height, 2 * x, 2 * y) + texel_if_inside(width, height, 2 * x + 1, 2 * y)
        + texel_if_inside(width, height, 2 * x, 2 * y + 1) + texel_if_inside(
        width,
        height,
        2 * x + 1,
        2 * y + 1,
    )
}

proof fn lemma_texel_offset_inside(width: nat, height: nat, sx: nat, sy: nat)
    requires
        sx < width,
        sy < height,
    ensures
        (sy * width + sx) * 4 + 4 <= 4 * width * height,
        4 * width * height == width * height * 4,
{
    assert(sy * width + sx < height * width) by (nonlinear_arith)
        requires
            sx < width,
            sy < height,
    ;
    assert((sy * width + sx) * 4 + 4 <= 4 * (height * width)) by (nonlinear_arith)
        requires
            sy * width + sx < height * width,
    ;
    assert(4 * (height * width) == 4 * width * height) by (nonlinear_arith);
    assert(4 * width * height == width * height * 4) by (nonlinear_arith);
}

fn push_if_inside(out: &mut Vec<usize>, width: u32, height: u32, sx: usize, sy: usize)
    requires
        width as nat * height as nat * 4 <= usize::MAX,
    ensures
        final(out)@.map_values(|o: usize| o as nat) == old(out)@.map_values(|o: usize| o as nat)
            + texel_if_inside(width as nat, height as nat, sx as nat, sy as nat),
        final(out)@.len() == old(out)@.len() + texel_if_inside(
            width as nat,
            height as nat,
            sx as nat,
            sy as nat,
        ).len(),
        forall|i: int| 0 <= i < old(out)@.len() ==> #[trigger] final(out)@[i] == old(out)@[i],
        sx < width && sy < height ==> final(out)@[old(out)@.len() as int] + 4 <= 4 * width as nat
            * height as nat,
{
    if sx < width as usize && sy < height as usize {
        proof {
            lemma_texel_offset_inside(width as nat, height as nat, sx as nat, sy as nat);
            assert(sy * (width as nat) + sx <= usize::MAX);
        }
        let offset: usize = (sy * (width as usize) + sx) * 4;
        out.push(offset);
        assert(final(out)@.map_values(|o: usize| o as nat) =~= old(out)@.map_values(|o: usize| o as nat)
            + texel_if_inside(width as nat, height as nat, sx as nat, sy as nat));
    } else {
        assert(final(out)@.map_values(|o: usize| o as nat) =~= old(out)@.map_values(|o: usize| o as nat)
            + texel_if_inside(width as nat, height as nat, sx as nat, sy as nat));
    }
}

/// The texel a byte offset of a `width`-wide RGBA8 level falls in lies in
/// the 2×2 block read for texel (`x`, `y`) of the next level.
pub open spec fn offset_in_block(width: nat, offset: nat, x: nat, y: nat) -> bool {
    &&& (offset / 4) % width / 2 == x
    &&& (offset / 4) / width / 2 == y
}

proof fn lemma_texel_if_inside_in_block(width: nat, height: nat, x: nat, y: nat, dx: nat, dy: nat)
    requires
        dx < 2,
        dy < 2,
    ensures
        forall|i: int|
            0 <= i < texel_if_inside(width, height, 2 * x + dx, 2 * y + dy).len() ==> offset_in_block(
                width,
                #[trigger] texel_if_inside(width, height, 2 * x + dx, 2 * y + dy)[i],
                x,
                y,
            ),
{
    let sx = 2 * x + dx;
    let sy = 2 * y + dy;
    if sx < width && sy < height {
        let o = (sy * width + sx) * 4;
        assert(o / 4 == sy * width + sx);
        vstd::arithmetic::div_mod::lemma_fundamental_div_mod_converse(
            (sy * width + sx) as int,
            width as int,
            sy as int,
            sx as int,
        );
        assert(texel_if_inside(width, height, sx, sy)[0] == o);
    }
}

/// The box filter reads each texel of a level into at most one texel of the
/// next: the blocks read for two different texels share no byte offset.
pub proof fn box_footprints_are_disjoint(width: nat, height: nat, x1: nat, y1: nat, x2: nat, y2: nat)
    requires
        x1 != x2 || y1 != y2,
    ensures
        forall|i: int, j: int|
            0 <= i < box_footprint(width, height, x1, y1).len() && 0 <= j < box_footprint(
                width,
                height,
                x2,
                y2,
            ).len() ==> #[trigger] box_footprint(width, height, x1, y1)[i] != #[trigger] box_footprint(
                width,
                height,
                x2,
                y2,
            )[j],
{
    lemma_box_footprint_in_block(width, height, x1, y1);
    lemma_box_footprint_in_block(width, height, x2, y2);
}

proof fn lemma_box_footprint_in_block(width: nat, height: nat, x: nat, y: nat)
    ensures
        forall|i: int|
            0 <= i < box_footprint(width, height, x, y).len() ==> offset_in_block(
                width,
                #[trigger] box_footprint(width, height, x, y)[i],
                x,
                y,
            ),
{
    lemma_texel_if_inside_in_block(width, height, x, y, 0, 0);
    lemma_texel_if_inside_in_block(width, height, x, y, 1, 0);
    lemma_texel_if_inside_in_block(width, height, x, y, 0, 1);
    lemma_texel_if_inside_in_block(width, height, x, y, 1, 1);
    let a = texel_if_inside(width, height, 2 * x, 2 * y);
    let b = texel_if_inside(width, height, 2 * x + 1, 2 * y);
    let c = texel_if_inside(width, height, 2 * x, 2 * y + 1);
    let d = texel_if_inside(width, height, 2 * x + 1, 2 * y + 1);
    assert(2 * x + 0 == 2 * x && 2 * y + 0 == 2 * y);
    let fp = box_footprint(width, height, x, y);
    assert forall|i: int| 0 <= i < fp.len() implies offset_in_block(width, #[trigger] fp[i], x, y) by {
        if i < a.len() {
            assert(fp[i] == a[i]);
        } else if i < a.len() + b.len() {
            assert(fp[i] == b[i - a.len()]);
        } else if i < a.len() + b.len() + c.len() {
            assert(fp[i] == c[i - a.len() - b.len()]);
        } else {
            assert(fp[i] == d[i - a.len() - b.len() - c.len()]);
        }
    }
}

/// The box filter averages into texel (`x`, `y`) of the next level exactly
/// the texels (2x + dx, 2y + dy), dx and dy each 0 or 1, that lie inside the
/// `width` × `height` level, whatever its extents (a level one texel high or
/// wide included): each is read at byte offset 4 (sy · width + sx), each
/// once, in row order, and nothing else is read.
pub proof fn box_footprint_is_the_block_inside_the_level(width: nat, height: nat, x: nat, y: nat)
    ensures
        ({
            let fp = box_footprint(width, height, x, y);
            let x0 = 2 * x;
            let x1 = 2 * x + 1;
            let y0 = 2 * y;
            let y1 = 2 * y + 1;
            &&& x0 < width && y0 < height ==> fp.contains(4 * (y0 * width + x0))
            &&& x1 < width && y0 < height ==> fp.contains(4 * (y0 * width + x1))
            &&& x0 < width && y1 < height ==> fp.contains(4 * (y1 * width + x0))
            &&& x1 < width && y1 < height ==> fp.contains(4 * (y1 * width + x1))
            &&& forall|i: int|
                0 <= i < fp.len() ==> {
                    ||| x0 < width && y0 < height && #[trigger] fp[i] == 4 * (y0 * width + x0)
                    ||| x1 < width && y0 < height && fp[i] == 4 * (y0 * width + x1)
                    ||| x0 < width && y1 < height && fp[i] == 4 * (y1 * width + x0)
                    ||| x1 < width && y1 < height && fp[i] == 4 * (y1 * width + x1)
                }
            &&& forall|i: int, j: int| 0 <= i < j < fp.len() ==> #[trigger] fp[i] < #[trigger] fp[j]
        }),
{
    let x0 = 2 * x;
    let x1 = 2 * x + 1;
    let y0 = 2 * y;
    let y1 = 2 * y + 1;
    let a = texel_if_inside(width, height, x0, y0);
    let b = texel_if_inside(width, height, x1, y0);
    let c = texel_if_inside(width, height, x0, y1);
    let d = texel_if_inside(width, height, x1, y1);
    let fp = box_footprint(width, height, x, y);
    assert(fp == a + b + c + d);
    let va = 4 * (y0 * width + x0);
    let vb = 4 * (y0 * width + x1);
    let vc = 4 * (y1 * width + x0);
    let vd = 4 * (y1 * width + x1);
    assert(a.len() > 0 ==> a[0] == va);
    assert(b.len() > 0 ==> b[0] == vb);
    assert(c.len() > 0 ==> c[0] == vc);
    assert(d.len() > 0 ==> d[0] == vd);
    assert(y1 * width == y0 * width + width) by (nonlinear_arith)
        requires
            y1 == y0 + 1,
    ;
    let la = a.len() as int;
    let lb = b.len() as int;
    let lc = c.len() as int;
    assert forall|i: int| 0 <= i < fp.len() implies #[trigger] fp[i] == (if i < la {
        va
    } else if i < la + lb {
        vb
    } else if i < la + lb + lc {
        vc
    } else {
        vd
    }) && (i < la ==> a.len() > 0) && (la <= i < la + lb ==> b.len() > 0) && (la + lb <= i < la + lb
        + lc ==> c.len() > 0) && (la + lb + lc <= i ==> d.len() > 0) by {
        if i < la {
            assert(fp[i] == a[i]);
        } else if i < la + lb {
            assert(fp[i] == b[i - la]);
        } else if i < la + lb + lc {
            assert(fp[i] == c[i - la - lb]);
        } else {
            assert(fp[i] == d[i - la - lb - lc]);
        }
    }
    if a.len() > 0 {
        assert(fp[0] == va);
    }
    if b.len() > 0 {
        assert(fp[la] == vb);
    }
    if c.len() > 0 {
        assert(fp[la + lb] == vc);
    }
    if d.len() > 0 {
        assert(fp[la + lb + lc] == vd);
    }
}

/// The byte offsets of the texels of a `width` × `height` RGBA8 level that
/// the box filter averages into texel (`x`, `y`) of the next level, row by
/// row. Each lies inside the level; a level of at least one texel each way
/// gives every texel of the next at least one, and a level of at least two
/// texels each way gives it all four.
pub fn box_footprint_offsets(width: u32, height: u32, x: u32, y: u32) -> (r: Vec<usize>)
    requires
        x < next_extent(width as nat),
        y < next_extent(height as nat),
        width as nat * height as nat * 4 <= usize::MAX,
    ensures
        r@.map_values(|o: usize| o as nat) == box_footprint(width as nat, height as nat, x as nat, y as nat),
        forall|i: int| 0 <= i < r.len() ==> #[trigger] r[i] + 4 <= 4 * width as nat * height as nat,
        width >= 1 && height >= 1 ==> r.len() >= 1,
        width >= 2 && height >= 2 ==> r.len() == 4,
        width >= 2 && height >= 1 ==> r.len() >= 2,
        2 * x < width && 2 * y < height ==> exists|i: int|
            0 <= i < r.len() && #[trigger] r[i] == 4 * ((2 * y) * width + 2 * x),
        2 * x + 1 < width && 2 * y < height ==> exists|i: int|
            0 <= i < r.len() && #[trigger] r[i] == 4 * ((2 * y) * width + 2 * x + 1),
        2 * x < width && 2 * y + 1 < height ==> exists|i: int|
            0 <= i < r.len() && #[trigger] r[i] == 4 * ((2 * y + 1) * width + 2 * x),
        2 * x + 1 < width && 2 * y + 1 < height ==> exists|i: int|
            0 <= i < r.len() && #[trigger] r[i] == 4 * ((2 * y + 1) * width + 2 * x + 1),
        forall|i: int|
            0 <= i < r.len() ==> {
                ||| 2 * x < width && 2 * y < height && #[trigger] r[i] == 4 * ((2 * y) * width + 2 * x)
                ||| 2 * x + 1 < width && 2 * y < height && r[i] == 4 * ((2 * y) * width + 2 * x + 1)
                ||| 2 * x < width && 2 * y + 1 < height && r[i] == 4 * ((2 * y + 1) * width + 2 * x)
                ||| 2 * x + 1 < width && 2 * y + 1 < height && r[i] == 4 * ((2 * y + 1) * width + 2 * x
                    + 1)
            },
        forall|i: int, j: int| 0 <= i < j < r.len() ==> #[trigger] r[i] < #[trigger] r[j],
{
    let mut out: Vec<usize> = Vec::new();
    let sx = 2 * (x as usize);
    let sy = 2 * (y as usize);
    push_if_inside(&mut out, width, height, sx, sy);
    push_if_inside(&mut out, width, height, sx + 1, sy);
    push_if_inside(&mut out, width, height, sx, sy + 1);
    push_if_inside(&mut out, width, height, sx + 1, sy + 1);
    assert(out@.map_values(|o: usize| o as nat) =~= box_footprint(
        width as nat,
        height as nat,
        x as nat,
        y as nat,
    ));
    proof {
        let fp = box_footprint(width as nat, height as nat, x as nat, y as nat);
        box_footprint_is_the_block_inside_the_level(width as nat, height as nat, x as nat, y as nat);
        assert forall|i: int| 0 <= i < out.len() implies out[i] as nat == #[trigger] fp[i] by {
            assert(out@.map_values(|o: usize| o as nat)[i] == out@[i] as nat);
        }
        let w = width as nat;
        let x0 = 2 * (x as nat);
        let x1 = 2 * (x as nat) + 1;
        let y0 = 2 * (y as nat);
        let y1 = 2 * (y as nat) + 1;
        if x0 < w && y0 < height {
            let k = choose|k: int| 0 <= k < fp.len() && fp[k] == 4 * (y0 * w + x0);
            assert(out[k] as nat == fp[k]);
        }
        if x1 < w && y0 < height {
            let k = choose|k: int| 0 <= k < fp.len() && fp[k] == 4 * (y0 * w + x1);
            assert(out[k] as nat == fp[k]);
        }
        if x0 < w && y1 < height {
            let k = choose|k: int| 0 <= k < fp.len() && fp[k] == 4 * (y1 * w + x0);
            assert(out[k] as nat == fp[k]);
        }
        if x1 < w && y1 < height {
            let k = choose|k: int| 0 <= k < fp.len() && fp[k] == 4 * (y1 * w + x1);
            assert(out[k] as nat == fp[k]);
        }
        assert forall|i: int| 0 <= i < out.len() implies {
            ||| 2 * x < width && 2 * y < height && #[trigger] out[i] == 4 * ((2 * y) * width + 2 * x)
            ||| 2 * x + 1 < width && 2 * y < height && out[i] == 4 * ((2 * y) * width + 2 * x + 1)
            ||| 2 * x < width && 2 * y + 1 < height && out[i] == 4 * ((2 * y + 1) * width + 2 * x)
            ||| 2 * x + 1 < width && 2 * y + 1 < height && out[i] == 4 * ((2 * y + 1) * width + 2 * x
                + 1)
        } by {
            assert(out[i] as nat == fp[i]);
        }
        assert forall|i: int, j: int| 0 <= i < j < out.len() implies #[trigger] out[i] < #[trigger] out[j] by {
            assert(out[i] as nat == fp[i]);
            assert(out[j] as nat == fp[j]);
        }
        if width >= 2 && height >= 1 {
            assert(fp.contains((4 * ((2 * y) * width + 2 * x)) as nat));
            assert(fp.contains((4 * ((2 * y) * width + 2 * x + 1)) as nat));
            let k0 = choose|k: int| 0 <= k < fp.len() && fp[k] == 4 * ((2 * y) * width + 2 * x);
            let k1 = choose|k: int| 0 <= k < fp.len() && fp[k] == 4 * ((2 * y) * width + 2 * x + 1);
            assert(k0 != k1);
        }
    }
    out
}

} // verus!
