//! The smudge transform: the arithmetic on one channel, and the walk over
//! an image that applies it.

use crate::canvas::{
    buffer_height, buffer_read, buffer_write, buffer_width, canvas_buffer, canvas_height,
    canvas_width, covered, lemma_sample_index_bounds, sample_index, Canvas, CHANNELS,
};
use crate::random::draw_below;
use vstd::prelude::*;

verus! {

/// Sign of the perturbation: darkening is negative, lightening positive.
pub open spec fn direction(shade: bool) -> int {
    if shade {
        -1
    } else {
        1
    }
}

/// Signed size of one step of the perturbation.
pub open spec fn magnitude(weight: u8, shade: bool) -> int {
    direction(shade) * weight
}

/// Saturation of an integer into the range of a colour channel.
pub open spec fn clamp_channel(value: int) -> int {
    if value <= 0 {
        0
    } else if value >= 255 {
        255
    } else {
        value
    }
}

/// The value a channel takes when it is smudged with the given draw: the
/// draw is scaled by the signed weight, added, and the sum saturated.
pub open spec fn smudged(colour: u8, weight: u8, shade: bool, draw: int) -> int {
    clamp_channel(colour + magnitude(weight, shade) * draw)
}

/// Smudges one channel value with a draw that the caller supplies.
pub fn smudge_channel(colour: u8, weight: u8, shade: bool, draw: u8) -> (result: u8)
    ensures
        result == smudged(colour, weight, shade, draw as int),
{
    let smudge: i32 = if shade {
        -(weight as i32)
    } else {
        weight as i32
    };
    let scale: i32 = draw as i32;
    assert(smudge == magnitude(weight, shade));
    assert(-65025 <= smudge * scale <= 65025) by (nonlinear_arith)
        requires
            -255 <= smudge <= 255,
            0 <= scale <= 255,
    ;
    let moved: i32 = colour as i32 + smudge * scale;
    if moved <= 0 {
        0
    } else if moved >= 255 {
        255
    } else {
        moved as u8
    }
}

/// Number of leading channels of a pixel that the smudger perturbs: red and
/// green. Blue and alpha are left alone.
pub const SMUDGED_CHANNELS: usize = 2;

/// Whether some draw below the weight takes the channel value `before` to
/// `after`.
pub open spec fn may_become(before: u8, after: u8, weight: u8, shade: bool) -> bool {
    exists|draw: int| 0 <= draw < weight && after == #[trigger] smudged(before, weight, shade, draw)
}

/// Whether the sample at position `i` of a buffer belongs to a channel that
/// the smudger perturbs.
pub open spec fn is_smudged_channel(i: int) -> bool {
    i % (CHANNELS as int) < SMUDGED_CHANNELS
}

/// The relation between a buffer and what the smudger has made of it once
/// it has worked through the samples before `frontier`: each perturbed
/// channel before the frontier holds a smudge of its old value, and every
/// other sample is as it was.
pub open spec fn smudged_up_to(
    before: Seq<u8>,
    after: Seq<u8>,
    frontier: int,
    weight: u8,
    shade: bool,
) -> bool {
    &&& after.len() == before.len()
    &&& forall|i: int|
        0 <= i < before.len() ==> if i < frontier && is_smudged_channel(i) {
            may_become(before[i], #[trigger] after[i], weight, shade)
        } else {
            after[i] == before[i]
        }
}

/// The relation between the buffer of an image before and after a smudge
/// whose grid covers the first `grid` samples. With a weight of zero there
/// is nothing to draw from, and the buffer is unchanged.
pub open spec fn is_smudge_of(
    before: Seq<u8>,
    after: Seq<u8>,
    grid: nat,
    weight: u8,
    shade: bool,
) -> bool {
    if weight == 0 {
        after == before
    } else {
        smudged_up_to(before, after, grid as int, weight, shade)
    }
}

/// Smudges the red and green channels of every pixel of the image, each
/// with a draw of its own below the weight. Blue, alpha, the dimensions and
/// whatever the buffer holds beyond the grid are untouched. A weight of
/// zero leaves the image as it is.
pub fn smudge_image(image: &mut Canvas, weight: &u8, shade: &bool)
    ensures
        canvas_width(*final(image)) == canvas_width(*old(image)),
        canvas_height(*final(image)) == canvas_height(*old(image)),
        is_smudge_of(
            canvas_buffer(*old(image)),
            canvas_buffer(*final(image)),
            covered(canvas_width(*old(image)), canvas_height(*old(image))),
            *weight,
            *shade,
        ),
{
    let width: u32 = buffer_width(image);
    let height: u32 = buffer_height(image);
    if *weight == 0 {
        return ;
    }
    let ghost before = canvas_buffer(*image);
    let mut y: u32 = 0;
    while y < height
        invariant
            *weight > 0,
            y <= height,
            width == canvas_width(*image),
            height == canvas_height(*image),
            width == canvas_width(*old(image)),
            height == canvas_height(*old(image)),
            before == canvas_buffer(*old(image)),
            covered(width as nat, height as nat) <= before.len(),
            smudged_up_to(
                before,
                canvas_buffer(*image),
                sample_index(width as nat, 0, y as int, 0),
                *weight,
                *shade,
            ),
        decreases height - y,
    {
        let mut x: u32 = 0;
        while x < width
            invariant
                *weight > 0,
                y < height,
                x <= width,
                width == canvas_width(*image),
                height == canvas_height(*image),
                covered(width as nat, height as nat) <= before.len(),
                smudged_up_to(
                    before,
                    canvas_buffer(*image),
                    sample_index(width as nat, x as int, y as int, 0),
                    *weight,
                    *shade,
                ),
            decreases width - x,
        {
            let mut channel: usize = 0;
            while channel < SMUDGED_CHANNELS
                invariant
                    *weight > 0,
                    y < height,
                    x < width,
                    channel <= SMUDGED_CHANNELS,
                    width == canvas_width(*image),
                    height == canvas_height(*image),
                    covered(width as nat, height as nat) <= before.len(),
                    smudged_up_to(
                        before,
                        canvas_buffer(*image),
                        sample_index(width as nat, x as int, y as int, channel as int),
                        *weight,
                        *shade,
                    ),
                decreases SMUDGED_CHANNELS - channel,
            {
                let ghost frontier = sample_index(
                    width as nat,
                    x as int,
                    y as int,
                    channel as int,
                );
                let ghost current = canvas_buffer(*image);
                proof {
                    lemma_sample_index_bounds(
                        width as nat,
                        height as nat,
                        x as int,
                        y as int,
                        channel as int,
                    );
                }
                let colour: u8 = buffer_read(image, x, y, channel);
                let draw: u8 = draw_below(*weight);
                let fresh: u8 = smudge_channel(colour, *weight, *shade, draw);
                buffer_write(image, x, y, channel, fresh);
                proof {
                    assert(fresh == smudged(before[frontier], *weight, *shade, draw as int));
                    lemma_frontier_advances(before, current, frontier, fresh, *weight, *shade);
                }
                channel += 1;
            }
            proof {
                lemma_frontier_skips(
                    before,
                    canvas_buffer(*image),
                    sample_index(width as nat, x as int, y as int, SMUDGED_CHANNELS as int),
                    *weight,
                    *shade,
                );
                assert(sample_index(width as nat, x as int, y as int, SMUDGED_CHANNELS as int) + 2
                    == sample_index(width as nat, x as int + 1, y as int, 0))
                    by (nonlinear_arith);
            }
            x += 1;
        }
        proof {
            assert(sample_index(width as nat, width as int, y as int, 0) == sample_index(
                width as nat,
                0,
                y as int + 1,
                0,
            )) by (nonlinear_arith);
        }
        y += 1;
    }
    proof {
        assert(sample_index(width as nat, 0, height as int, 0) == covered(
            width as nat,
            height as nat,
        )) by (nonlinear_arith);
    }
}

/// Writing a smudge of the sample at the frontier moves the frontier on by
/// one.
proof fn lemma_frontier_advances(
    before: Seq<u8>,
    current: Seq<u8>,
    frontier: int,
    fresh: u8,
    weight: u8,
    shade: bool,
)
    requires
        smudged_up_to(before, current, frontier, weight, shade),
        0 <= frontier < before.len(),
        is_smudged_channel(frontier),
        may_become(before[frontier], fresh, weight, shade),
    ensures
        smudged_up_to(before, current.update(frontier, fresh), frontier + 1, weight, shade),
{
    let next = current.update(frontier, fresh);
    assert forall|i: int| 0 <= i < before.len() implies if i < frontier + 1
        && is_smudged_channel(i) {
        may_become(before[i], #[trigger] next[i], weight, shade)
    } else {
        next[i] == before[i]
    } by {
        if i != frontier {
            assert(next[i] == current[i]);
        }
    }
}

/// Behind the two perturbed channels of a pixel lie two that are left
/// alone, so the frontier may pass over them.
proof fn lemma_frontier_skips(
    before: Seq<u8>,
    current: Seq<u8>,
    frontier: int,
    weight: u8,
    shade: bool,
)
    requires
        smudged_up_to(before, current, frontier, weight, shade),
        frontier % (CHANNELS as int) == SMUDGED_CHANNELS,
    ensures
        smudged_up_to(before, current, frontier + 2, weight, shade),
{
    assert forall|i: int| 0 <= i < before.len() implies if i < frontier + 2
        && is_smudged_channel(i) {
        may_become(before[i], #[trigger] current[i], weight, shade)
    } else {
        current[i] == before[i]
    } by {
        if frontier <= i < frontier + 2 {
            assert(!is_smudged_channel(i));
        }
    }
}

/// A smudged value is a colour channel value, whatever the weight, the
/// direction and the draw.
pub proof fn lemma_smudged_in_range(colour: u8, weight: u8, shade: bool, draw: int)
    ensures
        0 <= smudged(colour, weight, shade, draw) <= 255,
{
}

/// The direction of a smudge follows the shade flag exactly: lightening
/// never lowers a channel and darkening never raises it.
pub proof fn lemma_smudged_follows_shade(colour: u8, weight: u8, shade: bool, draw: int)
    requires
        0 <= draw,
    ensures
        !shade ==> smudged(colour, weight, shade, draw) >= colour,
        shade ==> smudged(colour, weight, shade, draw) <= colour,
{
    assert(0 <= weight * draw) by (nonlinear_arith)
        requires
            0 <= weight,
            0 <= draw,
    ;
    assert(magnitude(weight, shade) * draw == if shade {
        -(weight * draw)
    } else {
        weight * draw
    }) by (nonlinear_arith)
        requires
            magnitude(weight, shade) == if shade {
                -(weight as int)
            } else {
                weight as int
            },
    ;
}

/// A draw below the weight moves a channel by at most the weight times
/// the largest draw, and a draw of zero or a weight of one leaves it where
/// it was.
pub proof fn lemma_smudged_reach(colour: u8, weight: u8, shade: bool, draw: int)
    requires
        0 <= draw < weight,
    ensures
        colour - weight * (weight - 1) <= smudged(colour, weight, shade, draw) <= colour + weight
            * (weight - 1),
        draw == 0 ==> smudged(colour, weight, shade, draw) == colour,
{
    assert(0 <= weight * draw <= weight * (weight - 1)) by (nonlinear_arith)
        requires
            0 <= draw < weight,
    ;
    assert(magnitude(weight, shade) * draw == if shade {
        -(weight * draw)
    } else {
        weight * draw
    }) by (nonlinear_arith)
        requires
            magnitude(weight, shade) == if shade {
                -(weight as int)
            } else {
                weight as int
            },
    ;
}

/// A smudge of a whole image keeps every sample a channel value, moves
/// each in the direction of the shade flag and no further than the weight
/// allows, and leaves blue, alpha and everything behind the grid alone.
pub proof fn lemma_smudge_of_is_bounded(
    before: Seq<u8>,
    after: Seq<u8>,
    grid: nat,
    weight: u8,
    shade: bool,
)
    requires
        is_smudge_of(before, after, grid, weight, shade),
    ensures
        after.len() == before.len(),
        forall|i: int|
            0 <= i < before.len() ==> {
                &&& 0 <= #[trigger] after[i] <= 255
                &&& !shade ==> before[i] <= after[i] <= before[i] + weight * (weight - 1)
                &&& shade ==> before[i] - weight * (weight - 1) <= after[i] <= before[i]
                &&& (!is_smudged_channel(i) || i >= grid) ==> after[i] == before[i]
            },
{
    assert(0 <= weight * (weight - 1)) by (nonlinear_arith)
        requires
            0 <= weight,
    ;
    assert forall|i: int| 0 <= i < before.len() implies {
        &&& 0 <= #[trigger] after[i] <= 255
        &&& !shade ==> before[i] <= after[i] <= before[i] + weight * (weight - 1)
        &&& shade ==> before[i] - weight * (weight - 1) <= after[i] <= before[i]
        &&& (!is_smudged_channel(i) || i >= grid) ==> after[i] == before[i]
    } by {
        if weight > 0 && i < grid && is_smudged_channel(i) {
            let draw = choose|draw: int|
                0 <= draw < weight && after[i] == #[trigger] smudged(
                    before[i],
                    weight,
                    shade,
                    draw,
                );
            lemma_smudged_follows_shade(before[i], weight, shade, draw);
            lemma_smudged_reach(before[i], weight, shade, draw);
        }
    }
}

/// Whether each buffer of a series is a smudge of the one before it, all
/// with one weight and one shade.
pub open spec fn is_smudge_series(series: Seq<Seq<u8>>, grid: nat, weight: u8, shade: bool) -> bool {
    forall|run: int|
        0 <= run < series.len() - 1 ==> is_smudge_of(
            #[trigger] series[run],
            series[run + 1],
            grid,
            weight,
            shade,
        )
}

/// Smudging again and again in one direction never takes a sample back
/// across where it started: however many lightening smudges follow one
/// another, each sample is at least what it was at first, and after
/// darkening ones at most.
pub proof fn lemma_repeated_smudges_keep_direction(
    series: Seq<Seq<u8>>,
    grid: nat,
    weight: u8,
    shade: bool,
    run: int,
)
    requires
        is_smudge_series(series, grid, weight, shade),
        0 <= run < series.len(),
    ensures
        series[run].len() == series[0].len(),
        forall|i: int|
            0 <= i < series[0].len() ==> {
                &&& !shade ==> series[0][i] <= #[trigger] series[run][i]
                &&& shade ==> series[run][i] <= series[0][i]
            },
    decreases run,
{
    if run > 0 {
        lemma_repeated_smudges_keep_direction(series, grid, weight, shade, run - 1);
        assert(is_smudge_of(series[run - 1], series[run - 1 + 1], grid, weight, shade));
        lemma_smudge_of_is_bounded(series[run - 1], series[run], grid, weight, shade);
        assert forall|i: int| 0 <= i < series[0].len() implies {
            &&& !shade ==> series[0][i] <= #[trigger] series[run][i]
            &&& shade ==> series[run][i] <= series[0][i]
        } by {
            assert(!shade ==> series[0][i] <= series[run - 1][i]);
            assert(shade ==> series[run - 1][i] <= series[0][i]);
        }
    }
}

} // verus!
