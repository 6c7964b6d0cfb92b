//! The tray icon as a picture: a disc in the colour of the temperature's
//! band, lit from the middle, on a transparent square.

use vstd::prelude::*;
use crate::canvas::{canvas_pixels, canvas_size, Canvas};
use crate::binary32::{
    lemma_nearest_keeps_side, lemma_nearest_monotone, lemma_nearest_of_representable, lemma_root_keeps_side, lemma_root_monotone,
    lemma_whole_representable,
    nearest, nearest_of, representable, root, root_of, round_half_even, spacing, LIMIT, UNIT,
};

verus! {

/// The side of the icon, in pixels.
pub const SIZE: u32 = 32;

/// The width of the transparent rim between the disc and the icon's edge.
pub const MARGIN: u32 = 2;

/// The coordinate of the disc's centre: half the side.
pub const CENTER: u32 = 16;

/// The radius of the disc: half the side less the margin.
pub const RADIUS: u32 = 14;

/// Three tenths as single precision has it, in units.
pub const THREE_TENTHS: u64 = 161061280;

/// The colour of the band that `temperature` (in kelvin) falls in. The
/// bands are closed at their upper end.
pub open spec fn band_color(temperature: u16) -> (u8, u8, u8) {
    if temperature <= 3000 {
        (255, 100, 50)
    } else if temperature <= 3500 {
        (255, 140, 70)
    } else if temperature <= 4000 {
        (255, 180, 90)
    } else if temperature <= 4500 {
        (255, 210, 120)
    } else if temperature <= 5000 {
        (255, 230, 150)
    } else if temperature <= 5500 {
        (255, 250, 180)
    } else if temperature <= 6000 {
        (240, 240, 200)
    } else if temperature <= 6500 {
        (200, 220, 255)
    } else {
        (150, 200, 255)
    }
}

/// Picks the colour for a temperature.
pub fn color_for(temperature: u16) -> (rgb: (u8, u8, u8))
    ensures
        rgb == band_color(temperature),
{
    if temperature <= 3000 {
        (255, 100, 50)
    } else if temperature <= 3500 {
        (255, 140, 70)
    } else if temperature <= 4000 {
        (255, 180, 90)
    } else if temperature <= 4500 {
        (255, 210, 120)
    } else if temperature <= 5000 {
        (255, 230, 150)
    } else if temperature <= 5500 {
        (255, 250, 180)
    } else if temperature <= 6000 {
        (240, 240, 200)
    } else if temperature <= 6500 {
        (200, 220, 255)
    } else {
        (150, 200, 255)
    }
}

/// The square of the distance of the pixel `(x, y)` from the centre.
pub open spec fn distance_squared(x: int, y: int) -> int {
    (x - CENTER) * (x - CENTER) + (y - CENTER) * (y - CENTER)
}

/// Whether the pixel `(x, y)` belongs to the disc: its distance from the
/// centre is at most the radius.
pub open spec fn in_disc(x: int, y: int) -> bool {
    distance_squared(x, y) <= RADIUS * RADIUS
}

/// Computes the square of a pixel's distance from the centre.
pub fn distance_squared_of(x: u32, y: u32) -> (d2: u32)
    requires
        x < SIZE,
        y < SIZE,
    ensures
        d2 == distance_squared(x as int, y as int),
        d2 <= 512,
{
    let dx: u32 = if x >= CENTER {
        x - CENTER
    } else {
        CENTER - x
    };
    let dy: u32 = if y >= CENTER {
        y - CENTER
    } else {
        CENTER - y
    };
    assert(dx * dx == (x - CENTER) * (x - CENTER) && dx * dx <= 256) by (nonlinear_arith)
        requires
            dx == x - CENTER || dx == CENTER - x,
            dx <= 16,
    ;
    assert(dy * dy == (y - CENTER) * (y - CENTER) && dy * dy <= 256) by (nonlinear_arith)
        requires
            dy == y - CENTER || dy == CENTER - y,
            dy <= 16,
    ;
    dx * dx + dy * dy
}

/// How bright the disc is where the squared distance from the centre is
/// `d2`, in units: one, less three tenths of the distance's share of the
/// radius. Distance, share, product and difference are each rounded as
/// single precision rounds them.
pub open spec fn intensity(d2: nat) -> nat {
    let distance = root(d2);
    let share = nearest(distance, RADIUS as nat);
    let drop = nearest((share * THREE_TENTHS) as nat, UNIT as nat);
    nearest((UNIT - drop) as nat, 1)
}

/// A colour channel under the light at squared distance `d2`: the channel
/// times the intensity, rounded as single precision rounds it, and cut down
/// to a whole number.
pub open spec fn shade(channel: u8, d2: nat) -> nat {
    nearest((channel * intensity(d2)) as nat, 1) / (UNIT as nat)
}

/// The constant `THREE_TENTHS` is the representable number nearest to three
/// tenths.
pub proof fn lemma_three_tenths()
    ensures
        THREE_TENTHS == nearest((3 * UNIT) as nat, 10),
        representable(THREE_TENTHS as nat),
        representable(UNIT as nat),
{
    let num: nat = 1610612736;
    assert(num == 3 * UNIT);
    assert(num / 10 == 161061273);
    assert(spacing(num / 10) == 16);
    assert(num / 160 == 10066329 && num % 160 == 96);
    assert(round_half_even(num, 160) == 10066330);
}

/// On the disc every intermediate quantity of the light stays between zero
/// and one.
pub proof fn lemma_intensity_bounds(d2: nat)
    requires
        d2 <= RADIUS * RADIUS,
    ensures
        root(d2) <= RADIUS * UNIT,
        nearest(root(d2), RADIUS as nat) <= UNIT,
        nearest((nearest(root(d2), RADIUS as nat) * THREE_TENTHS) as nat, UNIT as nat) <= THREE_TENTHS,
        intensity(d2) <= UNIT,
{
    lemma_three_tenths();
    lemma_root_keeps_side(d2, RADIUS as nat);
    assert(RADIUS * RADIUS == 196 && RADIUS * UNIT == 14 * UNIT);
    let distance = root(d2);
    assert(distance / 14 < LIMIT);
    lemma_nearest_keeps_side(distance, RADIUS as nat, UNIT as nat);
    let share = nearest(distance, RADIUS as nat);
    assert(share * THREE_TENTHS <= THREE_TENTHS * UNIT) by (nonlinear_arith)
        requires
            share <= UNIT,
    ;
    assert(((share * THREE_TENTHS) as nat) / (UNIT as nat) < LIMIT);
    lemma_nearest_keeps_side((share * THREE_TENTHS) as nat, UNIT as nat, THREE_TENTHS as nat);
    let drop = nearest((share * THREE_TENTHS) as nat, UNIT as nat);
    lemma_nearest_keeps_side((UNIT - drop) as nat, 1, UNIT as nat);
}

/// At the centre the light is full: the intensity is one, and a channel
/// keeps its value.
pub proof fn lemma_full_light_at_the_centre(channel: u8)
    ensures
        intensity(0) == UNIT,
        shade(channel, 0) == channel,
{
    lemma_three_tenths();
    assert(representable(0));
    lemma_nearest_of_representable(0, RADIUS as nat);
    assert(nearest(root(0), RADIUS as nat) == 0);
    lemma_nearest_of_representable(0, UNIT as nat);
    assert(nearest((0 * THREE_TENTHS) as nat, UNIT as nat) == 0);
    lemma_nearest_of_representable(UNIT as nat, 1);
    assert(intensity(0) == UNIT);
    lemma_whole_representable(channel as nat);
    lemma_nearest_of_representable((channel * UNIT) as nat, 1);
    assert(nearest((channel * intensity(0)) as nat, 1) == channel * UNIT);
    assert((channel * UNIT) as nat / (UNIT as nat) == channel);
}

/// The light does not grow with the distance from the centre.
pub proof fn lemma_intensity_falls(near: nat, far: nat)
    requires
        near <= far <= RADIUS * RADIUS,
    ensures
        intensity(near) >= intensity(far),
{
    lemma_intensity_bounds(near);
    lemma_intensity_bounds(far);
    lemma_root_monotone(near, far);
    let s1 = nearest(root(near), RADIUS as nat);
    let s2 = nearest(root(far), RADIUS as nat);
    assert(root(far) / 14 < LIMIT);
    lemma_nearest_monotone(root(near), root(far), RADIUS as nat);
    assert(s1 * THREE_TENTHS <= s2 * THREE_TENTHS) by (nonlinear_arith)
        requires
            s1 <= s2,
    ;
    assert(s2 * THREE_TENTHS <= THREE_TENTHS * UNIT) by (nonlinear_arith)
        requires
            s2 <= UNIT,
    ;
    assert(((s2 * THREE_TENTHS) as nat) / (UNIT as nat) < LIMIT);
    lemma_nearest_monotone((s1 * THREE_TENTHS) as nat, (s2 * THREE_TENTHS) as nat, UNIT as nat);
    let d1 = nearest((s1 * THREE_TENTHS) as nat, UNIT as nat);
    let d2 = nearest((s2 * THREE_TENTHS) as nat, UNIT as nat);
    lemma_nearest_monotone((UNIT - d2) as nat, (UNIT - d1) as nat, 1);
}

/// A shaded channel is never brighter than the channel itself.
pub proof fn lemma_shade_bound(channel: u8, d2: nat)
    requires
        d2 <= RADIUS * RADIUS,
    ensures
        shade(channel, d2) <= channel,
        nearest((channel * intensity(d2)) as nat, 1) <= channel * UNIT,
{
    lemma_intensity_bounds(d2);
    let i = intensity(d2);
    assert(channel * i <= channel * UNIT) by (nonlinear_arith)
        requires
            i <= UNIT,
    ;
    let g: nat = (channel * UNIT) as nat;
    lemma_whole_representable(channel as nat);
    lemma_nearest_keeps_side((channel * i) as nat, 1, g);
}

/// Farther from the centre a channel is as bright or darker: for one
/// channel value, the shade does not grow with the squared distance.
pub proof fn lemma_shade_falls(channel: u8, near: nat, far: nat)
    requires
        near <= far <= RADIUS * RADIUS,
    ensures
        shade(channel, near) >= shade(channel, far),
{
    lemma_intensity_falls(near, far);
    lemma_intensity_bounds(near);
    let i1 = intensity(near);
    let i2 = intensity(far);
    assert(channel * i2 <= channel * i1 <= channel * UNIT) by (nonlinear_arith)
        requires
            i2 <= i1 <= UNIT,
    ;
    lemma_nearest_monotone((channel * i2) as nat, (channel * i1) as nat, 1);
}

/// Computes the light at squared distance `d2` from the centre.
pub fn intensity_at(d2: u32) -> (i: u64)
    requires
        d2 <= RADIUS * RADIUS,
    ensures
        i == intensity(d2 as nat),
        i <= UNIT,
{
    proof {
        lemma_intensity_bounds(d2 as nat);
    }
    let distance: u64 = root_of(d2 as u64);
    let share: u64 = nearest_of(distance, RADIUS as u64);
    assert(share * THREE_TENTHS <= THREE_TENTHS * UNIT) by (nonlinear_arith)
        requires
            share <= UNIT,
    ;
    let drop: u64 = nearest_of(share * THREE_TENTHS, UNIT);
    nearest_of(UNIT - drop, 1)
}

/// Shades one colour channel for a pixel at squared distance `d2` from the
/// centre.
pub fn shade_channel(channel: u8, d2: u32) -> (shaded: u8)
    requires
        d2 <= RADIUS * RADIUS,
    ensures
        shaded == shade(channel, d2 as nat),
        shaded <= channel,
{
    proof {
        lemma_shade_bound(channel, d2 as nat);
    }
    let i: u64 = intensity_at(d2);
    assert(channel * i <= 255 * UNIT) by (nonlinear_arith)
        requires
            channel <= 255,
            i <= UNIT,
    ;
    let lit: u64 = nearest_of(channel as u64 * i, 1);
    (lit / UNIT) as u8
}

/// The pixel of the icon at column `x` and row `y`, as red, green, blue and
/// opacity: on the disc the band's colour under the light, fully opaque;
/// off the disc nothing, fully transparent.
pub open spec fn icon_pixel(temperature: u16, x: int, y: int) -> (u8, u8, u8, u8) {
    if in_disc(x, y) {
        let d2 = distance_squared(x, y) as nat;
        let rgb = band_color(temperature);
        (shade(rgb.0, d2) as u8, shade(rgb.1, d2) as u8, shade(rgb.2, d2) as u8, 255u8)
    } else {
        (0u8, 0u8, 0u8, 0u8)
    }
}

/// Computes one pixel of the icon.
pub fn pixel_at(temperature: u16, x: u32, y: u32) -> (pixel: (u8, u8, u8, u8))
    requires
        x < SIZE,
        y < SIZE,
    ensures
        pixel == icon_pixel(temperature, x as int, y as int),
{
    let d2: u32 = distance_squared_of(x, y);
    if d2 <= RADIUS * RADIUS {
        let rgb = color_for(temperature);
        (shade_channel(rgb.0, d2), shade_channel(rgb.1, d2), shade_channel(rgb.2, d2), 255)
    } else {
        (0, 0, 0, 0)
    }
}

/// The opacity of a pixel tells whether it belongs to the disc: fully
/// opaque on it, fully transparent, and without colour, off it.
pub proof fn lemma_opacity_marks_the_disc(temperature: u16, x: int, y: int)
    ensures
        in_disc(x, y) ==> icon_pixel(temperature, x, y).3 == 255,
        !in_disc(x, y) ==> icon_pixel(temperature, x, y) == (0u8, 0u8, 0u8, 0u8),
{
}

/// On the disc, for one temperature, a pixel that is no farther from the
/// centre than another is at least as bright as the other in each of its
/// three colours.
pub proof fn lemma_gradient_falls_off(temperature: u16, x1: int, y1: int, x2: int, y2: int)
    requires
        in_disc(x1, y1),
        in_disc(x2, y2),
        distance_squared(x1, y1) <= distance_squared(x2, y2),
    ensures
        icon_pixel(temperature, x1, y1).0 >= icon_pixel(temperature, x2, y2).0,
        icon_pixel(temperature, x1, y1).1 >= icon_pixel(temperature, x2, y2).1,
        icon_pixel(temperature, x1, y1).2 >= icon_pixel(temperature, x2, y2).2,
{
    assert(distance_squared(x1, y1) >= 0) by (nonlinear_arith);
    let near = distance_squared(x1, y1) as nat;
    let far = distance_squared(x2, y2) as nat;
    let rgb = band_color(temperature);
    lemma_shade_falls(rgb.0, near, far);
    lemma_shade_falls(rgb.1, near, far);
    lemma_shade_falls(rgb.2, near, far);
    lemma_shade_bound(rgb.0, near);
    lemma_shade_bound(rgb.1, near);
    lemma_shade_bound(rgb.2, near);
    lemma_shade_bound(rgb.0, far);
    lemma_shade_bound(rgb.1, far);
    lemma_shade_bound(rgb.2, far);
}

/// The whole icon: the pixel at every column and row of the square.
pub open spec fn icon_image(temperature: u16) -> Map<(int, int), (u8, u8, u8, u8)> {
    Map::new(
        |p: (int, int)| 0 <= p.0 < SIZE && 0 <= p.1 < SIZE,
        |p: (int, int)| icon_pixel(temperature, p.0, p.1),
    )
}

/// Paints the icon for a temperature on a fresh canvas.
pub(crate) fn paint(temperature: u16) -> (canvas: Canvas)
    ensures
        canvas_size(canvas) == (SIZE as nat, SIZE as nat),
        canvas_pixels(canvas) == icon_image(temperature),
{
    let mut canvas = Canvas::blank(SIZE, SIZE);
    let mut y: u32 = 0;
    while y < SIZE
        invariant
            y <= SIZE,
            canvas_size(canvas) == (SIZE as nat, SIZE as nat),
            canvas_pixels(canvas).dom() =~= icon_image(temperature).dom(),
            forall|i: int, j: int|
                0 <= i < SIZE && 0 <= j < y ==> #[trigger] canvas_pixels(canvas)[(i, j)]
                    == icon_pixel(temperature, i, j),
        decreases SIZE - y,
    {
        let mut x: u32 = 0;
        while x < SIZE
            invariant
                x <= SIZE,
                y < SIZE,
                canvas_size(canvas) == (SIZE as nat, SIZE as nat),
                canvas_pixels(canvas).dom() =~= icon_image(temperature).dom(),
                forall|i: int, j: int|
                    0 <= i < SIZE && 0 <= j < y ==> #[trigger] canvas_pixels(canvas)[(i, j)]
                        == icon_pixel(temperature, i, j),
                forall|i: int|
                    0 <= i < x ==> #[trigger] canvas_pixels(canvas)[(i, y as int)] == icon_pixel(
                        temperature,
                        i,
                        y as int,
                    ),
            decreases SIZE - x,
        {
            let pixel = pixel_at(temperature, x, y);
            canvas.put_pixel(x, y, pixel);
            x = x + 1;
        }
        y = y + 1;
    }
    assert(canvas_pixels(canvas) =~= icon_image(temperature));
    canvas
}

} // verus!
