//! Exact rectangle geometry: where an image is sampled and where it is placed
//! for each background mode.
//!
//! Every bound is an exact fraction of integers, so that the rectangles can be
//! reasoned about without rounding; a caller turns them into the number format
//! of its graphics API at the very end.

use vstd::prelude::*;

verus! {

/// How an image is laid out on a display.
#[derive(Clone, Copy, Debug, PartialEq, Eq, Structural)]
pub enum BackgroundMode {
    Stretch,
    Fill,
    Fit,
    Tile,
}

/// The mathematical value of a [`Fraction`]: `num / den`.
pub struct Ratio {
    pub num: int,
    pub den: int,
}

impl Ratio {
    /// The denominator is positive.
    pub open spec fn wf(self) -> bool {
        self.den > 0
    }

    /// The integer `k`, over the denominator 1.
    pub open spec fn whole(k: int) -> Ratio {
        Ratio { num: k, den: 1 }
    }

    /// `self` has the value of the integer `k`.
    pub open spec fn is_int(self, k: int) -> bool {
        self.num == k * self.den
    }

    /// `self <= other`, for positive denominators.
    pub open spec fn le(self, other: Ratio) -> bool {
        self.num * other.den <= other.num * self.den
    }

    /// `self < other`, for positive denominators.
    pub open spec fn lt(self, other: Ratio) -> bool {
        self.num * other.den < other.num * self.den
    }

    /// `self + other`.
    pub open spec fn plus(self, other: Ratio) -> Ratio {
        Ratio { num: self.num * other.den + other.num * self.den, den: self.den * other.den }
    }

    /// `-self`.
    pub open spec fn neg(self) -> Ratio {
        Ratio { num: -self.num, den: self.den }
    }

    /// `0 <= self <= 1`, for a positive denominator.
    pub open spec fn in_unit(self) -> bool {
        0 <= self.num <= self.den
    }

    /// The fraction of this numerator and denominator, where both fit in
    /// 128 bits.
    pub open spec fn as_fraction(self) -> Fraction {
        Fraction { num: self.num as i128, den: self.den as i128 }
    }
}

/// An exact rational number `num / den`.
///
/// Two fractions are `==` when numerator and denominator are the same; `1/2`
/// and `2/4` have the same value but are different fractions.
#[derive(Clone, Copy, Debug, PartialEq, Eq, Structural)]
pub struct Fraction {
    pub num: i128,
    pub den: i128,
}

impl View for Fraction {
    type V = Ratio;

    open spec fn view(&self) -> Ratio {
        Ratio { num: self.num as int, den: self.den as int }
    }
}

impl Fraction {
    /// The denominator is positive.
    pub open spec fn wf(self) -> bool {
        self.den > 0
    }

    /// The integer `k` as a fraction over 1.
    pub fn whole(k: i32) -> (r: Fraction)
        ensures
            r@ == Ratio::whole(k as int),
            r.wf(),
    {
        Fraction { num: k as i128, den: 1 }
    }
}

/// An axis-aligned rectangle, in device space (vertex positions) or in texture
/// space (sampling positions).
#[derive(Clone, Copy, Debug, PartialEq, Eq)]
pub struct Coordinates {
    pub x_left: Fraction,
    pub x_right: Fraction,
    pub y_bottom: Fraction,
    pub y_top: Fraction,
}

/// The mathematical value of [`Coordinates`].
pub struct Rect {
    pub x_left: Ratio,
    pub x_right: Ratio,
    pub y_bottom: Ratio,
    pub y_top: Ratio,
}

impl Rect {
    /// All four denominators are positive.
    pub open spec fn wf(self) -> bool {
        self.x_left.wf() && self.x_right.wf() && self.y_bottom.wf() && self.y_top.wf()
    }

    /// The whole of device space: x from -1 to 1, and y from 1 at the bottom
    /// to -1 at the top, since textures have their origin at the top.
    pub open spec fn full_device() -> Rect {
        Rect {
            x_left: Ratio::whole(-1),
            x_right: Ratio::whole(1),
            y_bottom: Ratio::whole(1),
            y_top: Ratio::whole(-1),
        }
    }

    /// The whole texture: 0 to 1 on both axes.
    pub open spec fn full_texture() -> Rect {
        Rect {
            x_left: Ratio::whole(0),
            x_right: Ratio::whole(1),
            y_bottom: Ratio::whole(0),
            y_top: Ratio::whole(1),
        }
    }

    /// The rectangle lies in the unit square.
    pub open spec fn in_unit_square(self) -> bool {
        self.x_left.in_unit() && self.x_right.in_unit() && self.y_bottom.in_unit()
            && self.y_top.in_unit()
    }

    /// The centre of the rectangle is `(c / 2, c / 2)`: on each axis the two
    /// bounds add up to `c`.
    pub open spec fn bounds_add_up_to(self, c: int) -> bool {
        self.x_left.plus(self.x_right).is_int(c) && self.y_bottom.plus(self.y_top).is_int(c)
    }
}

impl View for Coordinates {
    type V = Rect;

    open spec fn view(&self) -> Rect {
        Rect {
            x_left: self.x_left@,
            x_right: self.x_right@,
            y_bottom: self.y_bottom@,
            y_top: self.y_top@,
        }
    }
}

impl Coordinates {
    /// All four denominators are positive.
    pub open spec fn wf(self) -> bool {
        self@.wf()
    }

    pub fn new(x_left: Fraction, x_right: Fraction, y_bottom: Fraction, y_top: Fraction) -> (r:
        Coordinates)
        ensures
            r.x_left == x_left,
            r.x_right == x_right,
            r.y_bottom == y_bottom,
            r.y_top == y_top,
    {
        Coordinates { x_left, x_right, y_bottom, y_top }
    }

    /// The whole of device space.
    pub fn default_vec_coordinates() -> (r: Coordinates)
        ensures
            r@ == Rect::full_device(),
            r.wf(),
    {
        Coordinates {
            x_left: Fraction::whole(-1),
            x_right: Fraction::whole(1),
            y_bottom: Fraction::whole(1),
            y_top: Fraction::whole(-1),
        }
    }

    /// The whole texture.
    pub fn default_texture_coordinates() -> (r: Coordinates)
        ensures
            r@ == Rect::full_texture(),
            r.wf(),
    {
        Coordinates {
            x_left: Fraction::whole(0),
            x_right: Fraction::whole(1),
            y_bottom: Fraction::whole(0),
            y_top: Fraction::whole(1),
        }
    }
}

/// The part of an image that is sampled when it is shown on a display of
/// `dw` by `dh` in `mode`; the image is `iw` by `ih`.
///
/// With `a = dw * ih` and `b = dh * iw`, the display's aspect ratio divided by
/// the image's is `a / b`.
///
/// - Stretch and Fit sample the whole texture.
/// - Fill samples the whole texture when the ratios are equal. On a wider
///   display it moves the bottom up by `(a / b - 1) / 2` and the top down by as
///   much; on a taller one it moves the left and right bounds inwards by
///   `(1 - a / b) / 2`.
/// - Tile keeps the origin and puts the right bound at `dw / iw` and the top
///   at `dh / ih`, to be used with a texture that repeats.
pub open spec fn texture_rect(dw: int, dh: int, iw: int, ih: int, mode: BackgroundMode) -> Rect {
    let a = dw * ih;
    let b = dh * iw;
    match mode {
        BackgroundMode::Stretch | BackgroundMode::Fit => Rect::full_texture(),
        BackgroundMode::Fill => if a == b {
            Rect::full_texture()
        } else if a > b {
            Rect {
                x_left: Ratio::whole(0),
                x_right: Ratio::whole(1),
                y_bottom: Ratio { num: a - b, den: 2 * b },
                y_top: Ratio { num: 3 * b - a, den: 2 * b },
            }
        } else {
            Rect {
                x_left: Ratio { num: b - a, den: 2 * b },
                x_right: Ratio { num: b + a, den: 2 * b },
                y_bottom: Ratio::whole(0),
                y_top: Ratio::whole(1),
            }
        },
        BackgroundMode::Tile => Rect {
            x_left: Ratio::whole(0),
            x_right: Ratio { num: dw, den: iw },
            y_bottom: Ratio::whole(0),
            y_top: Ratio { num: dh, den: ih },
        },
    }
}

/// Where in device space an image of `iw` by `ih` is placed so that it fits a
/// display of `dw` by `dh` with its aspect ratio kept.
///
/// With `a = dw * ih` and `b = dh * iw`: the whole of device space when the
/// ratios are equal; on a wider display the horizontal extent shrinks to
/// `b / a` on both sides of the origin; on a taller one the vertical extent
/// shrinks to `a / b`.
pub open spec fn fit_vertex_rect(dw: int, dh: int, iw: int, ih: int) -> Rect {
    let a = dw * ih;
    let b = dh * iw;
    if a == b {
        Rect::full_device()
    } else if a > b {
        Rect {
            x_left: Ratio { num: -b, den: a },
            x_right: Ratio { num: b, den: a },
            y_bottom: Ratio::whole(1),
            y_top: Ratio::whole(-1),
        }
    } else {
        Rect {
            x_left: Ratio::whole(-1),
            x_right: Ratio::whole(1),
            y_bottom: Ratio { num: a, den: b },
            y_top: Ratio { num: -a, den: b },
        }
    }
}

/// `x * y`, which cannot overflow in 128 bits.
pub(crate) fn product(x: u32, y: u32) -> (p: i128)
    ensures
        p == x * y,
        0 <= p <= 0xffff_fffe_0000_0001,
        x > 0 && y > 0 ==> p > 0,
{
    assert(0 <= x * y <= 0xffff_ffff * 0xffff_ffff && (x > 0 && y > 0 ==> x * y > 0))
        by (nonlinear_arith)
        requires
            0 <= x <= 0xffff_ffff,
            0 <= y <= 0xffff_ffff,
    ;
    (x as i128) * (y as i128)
}

/// Computes [`texture_rect`]. No division is carried out, so every input is
/// accepted; the fractions that come out are well formed when no size is zero.
pub fn texture_coordinates(
    display_width: u32,
    display_height: u32,
    image_width: u32,
    image_height: u32,
    mode: BackgroundMode,
) -> (r: Coordinates)
    ensures
        r@ == texture_rect(
            display_width as int,
            display_height as int,
            image_width as int,
            image_height as int,
            mode,
        ),
        display_width > 0 && display_height > 0 && image_width > 0 && image_height > 0 ==> r.wf(),
{
    match mode {
        BackgroundMode::Stretch | BackgroundMode::Fit => Coordinates::default_texture_coordinates(),
        BackgroundMode::Fill => {
            let a: i128 = product(display_width, image_height);
            let b: i128 = product(display_height, image_width);
            if a == b {
                Coordinates::default_texture_coordinates()
            } else if a > b {
                Coordinates::new(
                    Fraction::whole(0),
                    Fraction::whole(1),
                    Fraction { num: a - b, den: 2 * b },
                    Fraction { num: 3 * b - a, den: 2 * b },
                )
            } else {
                Coordinates::new(
                    Fraction { num: b - a, den: 2 * b },
                    Fraction { num: b + a, den: 2 * b },
                    Fraction::whole(0),
                    Fraction::whole(1),
                )
            }
        },
        BackgroundMode::Tile => Coordinates::new(
            Fraction::whole(0),
            Fraction { num: display_width as i128, den: image_width as i128 },
            Fraction::whole(0),
            Fraction { num: display_height as i128, den: image_height as i128 },
        ),
    }
}

/// Computes [`fit_vertex_rect`]. No division is carried out, so every input
/// is accepted; the fractions that come out are well formed when no size is
/// zero.
pub fn vertex_coordinates_for_fit(
    display_width: u32,
    display_height: u32,
    image_width: u32,
    image_height: u32,
) -> (r: Coordinates)
    ensures
        r@ == fit_vertex_rect(
            display_width as int,
            display_height as int,
            image_width as int,
            image_height as int,
        ),
        display_width > 0 && display_height > 0 && image_width > 0 && image_height > 0 ==> r.wf(),
{
    let a: i128 = product(display_width, image_height);
    let b: i128 = product(display_height, image_width);
    if a == b {
        Coordinates::default_vec_coordinates()
    } else if a > b {
        Coordinates::new(
            Fraction { num: -b, den: a },
            Fraction { num: b, den: a },
            Fraction::whole(1),
            Fraction::whole(-1),
        )
    } else {
        Coordinates::new(
            Fraction::whole(-1),
            Fraction::whole(1),
            Fraction { num: a, den: b },
            Fraction { num: -a, den: b },
        )
    }
}

/// Two positive factors have a positive product.
proof fn lemma_positive_product(x: int, y: int)
    requires
        x > 0,
        y > 0,
    ensures
        x * y > 0,
{
    assert(x * y > 0) by (nonlinear_arith)
        requires
            x > 0,
            y > 0,
    ;
}

/// Two fractions over one denominator `d` add up to `k` when their
/// numerators add up to `k * d`.
proof fn lemma_sum_over_one_denominator(n: int, m: int, d: int, k: int)
    requires
        n + m == k * d,
    ensures
        (Ratio { num: n, den: d }).plus(Ratio { num: m, den: d }).is_int(k),
{
    assert(n * d + m * d == k * (d * d)) by (nonlinear_arith)
        requires
            n + m == k * d,
    ;
}

/// In Fill mode the sampled rectangle is centred on the middle of the
/// texture, whatever the sizes of display and image: on each axis its two
/// bounds add up to 1.
pub proof fn lemma_fill_is_centred(dw: int, dh: int, iw: int, ih: int)
    requires
        dw > 0,
        dh > 0,
        iw > 0,
        ih > 0,
    ensures
        texture_rect(dw, dh, iw, ih, BackgroundMode::Fill).wf(),
        texture_rect(dw, dh, iw, ih, BackgroundMode::Fill).bounds_add_up_to(1),
{
    let a = dw * ih;
    let b = dh * iw;
    lemma_positive_product(dw, ih);
    lemma_positive_product(dh, iw);
    lemma_sum_over_one_denominator(a - b, 3 * b - a, 2 * b, 1);
    lemma_sum_over_one_denominator(b - a, b + a, 2 * b, 1);
}

/// In Fill mode the sampled rectangle lies within the texture exactly when
/// the display's aspect ratio is at most three times the image's. (On a
/// display that is wider still, the inset passes the opposite edge.)
pub proof fn lemma_fill_stays_in_texture(dw: int, dh: int, iw: int, ih: int)
    requires
        dw > 0,
        dh > 0,
        iw > 0,
        ih > 0,
    ensures
        texture_rect(dw, dh, iw, ih, BackgroundMode::Fill).in_unit_square() <==> dw * ih <= 3 * (dh
            * iw),
{
    lemma_positive_product(dw, ih);
    lemma_positive_product(dh, iw);
}

/// When display and image have the same aspect ratio, Stretch, Fill and Fit
/// all sample the whole texture.
pub proof fn lemma_equal_ratios_sample_whole_texture(
    dw: int,
    dh: int,
    iw: int,
    ih: int,
    mode: BackgroundMode,
)
    requires
        dw * ih == dh * iw,
        mode != BackgroundMode::Tile,
    ensures
        texture_rect(dw, dh, iw, ih, mode) == Rect::full_texture(),
{
}

/// The rectangle that Fit places an image in is centred on the origin: on
/// each axis its two bounds add up to 0. On a display wider than the image it
/// spans the full height and its horizontal half-extent is positive and less
/// than 1; on a taller display it spans the full width and its vertical
/// half-extent is positive and less than 1, the top being the bottom
/// mirrored.
pub proof fn lemma_fit_is_centred_and_shrinks(dw: int, dh: int, iw: int, ih: int)
    requires
        dw > 0,
        dh > 0,
        iw > 0,
        ih > 0,
    ensures
        ({
            let r = fit_vertex_rect(dw, dh, iw, ih);
            &&& r.wf()
            &&& r.bounds_add_up_to(0)
            &&& r.x_left == r.x_right.neg()
            &&& r.y_top == r.y_bottom.neg()
            &&& dw * ih == dh * iw ==> r == Rect::full_device()
            &&& dw * ih > dh * iw ==> {
                &&& Ratio::whole(0).lt(r.x_right)
                &&& r.x_right.lt(Ratio::whole(1))
                &&& r.y_bottom == Ratio::whole(1)
            }
            &&& dw * ih < dh * iw ==> {
                &&& Ratio::whole(0).lt(r.y_bottom)
                &&& r.y_bottom.lt(Ratio::whole(1))
                &&& r.x_right == Ratio::whole(1)
            }
        }),
{
    let a = dw * ih;
    let b = dh * iw;
    lemma_positive_product(dw, ih);
    lemma_positive_product(dh, iw);
    lemma_sum_over_one_denominator(-b, b, a, 0);
    lemma_sum_over_one_denominator(a, -a, b, 0);
}

/// Fit keeps the image's aspect ratio: the part of the display that the
/// rectangle covers is as wide for its height as the image is. With `x` the
/// horizontal and `y` the vertical half-extent, `x * dw / (y * dh)` equals
/// `iw / ih`.
pub proof fn lemma_fit_keeps_aspect_ratio(dw: int, dh: int, iw: int, ih: int)
    requires
        dw > 0,
        dh > 0,
        iw > 0,
        ih > 0,
    ensures
        ({
            let r = fit_vertex_rect(dw, dh, iw, ih);
            (r.x_right.num * r.y_bottom.den) * (dw * ih) == (r.y_bottom.num * r.x_right.den) * (dh
                * iw)
        }),
{
    let a = dw * ih;
    let b = dh * iw;
    assert((b * 1) * a == (1 * a) * b) by (nonlinear_arith);
    assert((1 * b) * a == (a * 1) * b) by (nonlinear_arith);
}

/// A fraction is known by its value: two fractions with the same numerator
/// and denominator are the same in every bit. So two calls of
/// [`texture_coordinates`] or of [`vertex_coordinates_for_fit`] with the same
/// arguments, whose results have the same value by their contracts, return
/// identical rectangles.
pub proof fn lemma_same_value_same_coordinates(first: Coordinates, second: Coordinates)
    requires
        first@ == second@,
    ensures
        first == second,
{
    assert(first.x_left@ == second.x_left@);
    assert(first.x_right@ == second.x_right@);
    assert(first.y_bottom@ == second.y_bottom@);
    assert(first.y_top@ == second.y_top@);
}

/// For a display and an image that are not empty, every bound of the two
/// rectangles is a proper fraction: no denominator is zero or negative.
pub proof fn lemma_rectangles_are_well_formed(dw: int, dh: int, iw: int, ih: int, mode: BackgroundMode)
    requires
        dw > 0,
        dh > 0,
        iw > 0,
        ih > 0,
    ensures
        texture_rect(dw, dh, iw, ih, mode).wf(),
        fit_vertex_rect(dw, dh, iw, ih).wf(),
{
    lemma_positive_product(dw, ih);
    lemma_positive_product(dh, iw);
}

} // verus!
