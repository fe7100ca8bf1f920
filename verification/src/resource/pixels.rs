//! Premultiplied alpha for data textures, whose bytes are linear.

use vstd::prelude::*;

verus! {

/// A linear channel byte scaled by an alpha byte, rounded to the nearest
/// byte: `round(channel * alpha / 255)`. The halfway case never arises.
pub open spec fn premultiplied_channel(channel: u8, alpha: u8) -> u8 {
    ((2 * channel * alpha + 255) / 510) as u8
}

/// The channel bytes of RGBA8 `data` scaled by their texel's alpha; alpha
/// itself, and any bytes after the last whole texel, kept as they are.
pub open spec fn premultiplied(data: Seq<u8>) -> Seq<u8> {
    Seq::new(
        data.len(),
        |i: int|
            if i < 4 * (data.len() / 4) && i % 4 != 3 {
                premultiplied_channel(data[i], data[i - i % 4 + 3])
            } else {
                data[i]
            },
    )
}

proof fn lemma_premultiplied_channel_bounds(channel: u8, alpha: u8)
    ensures
        2 * channel * alpha + 255 <= 2 * 255 * 255 + 255,
        (2 * channel * alpha + 255) / 510 <= channel,
{
    assert(2 * channel * alpha <= 2 * channel * 255) by (nonlinear_arith)
        requires
            alpha <= 255,
    ;
    assert(2 * channel * 255 <= 2 * 255 * 255) by (nonlinear_arith)
        requires
            channel <= 255,
    ;
    assert((2 * channel * alpha + 255) / 510 <= (2 * channel * 255 + 255) / 510) by (nonlinear_arith)
        requires
            2 * channel * alpha <= 2 * channel * 255,
    ;
    assert((2 * channel * 255 + 255) / 510 == channel) by (nonlinear_arith);
}

/// A linear channel byte scaled by an alpha byte, to the nearest byte.
pub fn premultiply_channel(channel: u8, alpha: u8) -> (r: u8)
    ensures
        r == premultiplied_channel(channel, alpha),
        r <= channel,
        510 * r <= 2 * channel * alpha + 255 < 510 * r + 510,
{
    proof {
        lemma_premultiplied_channel_bounds(channel, alpha);
        premultiplied_channel_is_the_nearest_byte(channel, alpha);
    }
    let scaled: u32 = 2 * (channel as u32) * (alpha as u32) + 255;
    (scaled / 510) as u8
}

/// A channel scaled by alpha is the byte nearest to `channel * alpha / 255`,
/// a halfway value rounded up: `r <= channel * alpha / 255 + 1/2 < r + 1`.
pub proof fn premultiplied_channel_is_the_nearest_byte(channel: u8, alpha: u8)
    ensures
        510 * premultiplied_channel(channel, alpha) <= 2 * channel * alpha + 255 < 510
            * premultiplied_channel(channel, alpha) + 510,
{
    lemma_premultiplied_channel_bounds(channel, alpha);
    let v = 2 * channel * alpha + 255;
    assert(510 * (v / 510) <= v < 510 * (v / 510) + 510) by (nonlinear_arith)
        requires
            v >= 0,
    ;
}

/// Each colour channel of each whole texel is scaled by that texel's own
/// alpha, to the nearest byte; alpha, and the bytes after the last whole
/// texel, are kept; nothing is added or dropped.
pub proof fn each_channel_is_scaled_by_its_own_alpha(data: Seq<u8>)
    ensures
        premultiplied(data).len() == data.len(),
        forall|t: int, c: int|
            0 <= t < data.len() / 4 && 0 <= c < 3 ==> {
                let r = #[trigger] premultiplied(data)[4 * t + c];
                510 * r <= 2 * data[4 * t + c] * data[4 * t + 3] + 255 < 510 * r + 510
            },
        forall|t: int| 0 <= t < data.len() / 4 ==> #[trigger] premultiplied(data)[4 * t + 3] == data[4 * t + 3],
        forall|i: int| 4 * (data.len() / 4) <= i < data.len() ==> #[trigger] premultiplied(data)[i] == data[i],
{
    assert forall|t: int, c: int| 0 <= t < data.len() / 4 && 0 <= c < 3 implies {
        let r = #[trigger] premultiplied(data)[4 * t + c];
        510 * r <= 2 * data[4 * t + c] * data[4 * t + 3] + 255 < 510 * r + 510
    } by {
        let i = 4 * t + c;
        assert(i % 4 == c);
        assert(i - i % 4 + 3 == 4 * t + 3);
        assert(i < 4 * (data.len() / 4));
        premultiplied_channel_is_the_nearest_byte(data[i], data[4 * t + 3]);
    }
    assert forall|t: int| 0 <= t < data.len() / 4 implies #[trigger] premultiplied(data)[4 * t + 3]
        == data[4 * t + 3] by {
        assert((4 * t + 3) % 4 == 3);
    }
}

/// RGB scaled by alpha in linear data, which is what a premultiplied blend
/// expects; alpha, and any bytes after the last whole texel, are kept.
pub fn premultiply_rgba_linear(data: &[u8]) -> (r: Vec<u8>)
    ensures
        r@ == premultiplied(data@),
        r.len() == data.len(),
        forall|t: int, c: int|
            0 <= t < data.len() / 4 && 0 <= c < 3 ==> 510 * #[trigger] r[4 * t + c] <= 2 * data[4 * t + c]
                * data[4 * t + 3] + 255 < 510 * r[4 * t + c] + 510,
        forall|t: int| 0 <= t < data.len() / 4 ==> #[trigger] r[4 * t + 3] == data[4 * t + 3],
        forall|i: int| 4 * (data.len() / 4) <= i < data.len() ==> #[trigger] r[i] == data[i],
{
    let len = data.len();
    let whole = len / 4 * 4;
    let mut out: Vec<u8> = Vec::new();
    let mut i: usize = 0;
    while i < len
        invariant
            len == data@.len(),
            whole == 4 * (len / 4),
            i <= len,
            out@.len() == i,
            forall|j: int| 0 <= j < i ==> #[trigger] out@[j] == premultiplied(data@)[j],
        decreases len - i,
    {
        if i < whole && i % 4 != 3 {
            let alpha = data[i - i % 4 + 3];
            out.push(premultiply_channel(data[i], alpha));
        } else {
            out.push(data[i]);
        }
        i = i + 1;
    }
    assert(out@ =~= premultiplied(data@));
    proof {
        each_channel_is_scaled_by_its_own_alpha(data@);
        assert forall|t: int, c: int| 0 <= t < data.len() / 4 && 0 <= c < 3 implies 510
            * #[trigger] out[4 * t + c] <= 2 * data[4 * t + c] * data[4 * t + 3] + 255 < 510 * out[4 * t
            + c] + 510 by {
            assert(out[4 * t + c] == premultiplied(data@)[4 * t + c]);
        }
    }
    out
}

/// A transparent texel keeps no colour to bleed into its neighbours, an
/// opaque one is left exactly as it was authored, no channel grows, and
/// alpha is never itself scaled.
pub proof fn premultiplying_scales_colour_by_alpha(data: Seq<u8>, texel: int)
    requires
        0 <= texel < data.len() / 4,
    ensures
        ({
            let out = premultiplied(data);
            let base = 4 * texel;
            &&& out.len() == data.len()
            &&& out[base + 3] == data[base + 3]
            &&& data[base + 3] == 0 ==> out[base] == 0 && out[base + 1] == 0 && out[base + 2] == 0
            &&& data[base + 3] == 255 ==> out[base] == data[base] && out[base + 1] == data[base + 1]
                && out[base + 2] == data[base + 2]
            &&& forall|c: int| 0 <= c < 3 ==> #[trigger] out[base + c] <= data[base + c]
        }),
{
    let base = 4 * texel;
    assert(base + 3 < 4 * (data.len() / 4));
    assert forall|c: int| 0 <= c < 3 implies #[trigger] premultiplied(data)[base + c]
        == premultiplied_channel(data[base + c], data[base + 3]) by {
        assert((base + c) % 4 == c);
        assert(base + c - (base + c) % 4 + 3 == base + 3);
    }
    assert((base + 3) % 4 == 3);
    assert forall|c: int| 0 <= c < 3 implies #[trigger] premultiplied(data)[base + c] <= data[base
        + c] by {
        lemma_premultiplied_channel_bounds(data[base + c], data[base + 3]);
    }
    assert forall|c: u8| premultiplied_channel(c, 0) == 0 by {}
    assert forall|c: u8| premultiplied_channel(c, 255) == c by {
        assert((2 * c * 255 + 255) / 510 == c) by (nonlinear_arith);
    }
}

} // verus!
