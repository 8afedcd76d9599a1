//! The transparency images behind the text at the top and the bottom of a
//! card: a band of constant alpha that fades out over a gradient.
use vstd::prelude::*;

use crate::{alpha_gradient_pixel_height, card_pixel_width, gradient_buffer_pixels, max_alpha};

verus! {

/// The alpha of the `row`-th row of the gradient, counted from the band: the
/// band's alpha for the buffer rows, then one step less per row down to zero.
pub open spec fn gradient_alpha(row: int) -> u8 {
    if row < gradient_buffer_pixels {
        max_alpha
    } else if row - gradient_buffer_pixels > max_alpha {
        0
    } else {
        (max_alpha - (row - gradient_buffer_pixels)) as u8
    }
}

/// The gradient fades: a row further from the band is never more opaque.
pub proof fn lemma_gradient_fades(r1: int, r2: int)
    requires
        r1 <= r2,
    ensures
        gradient_alpha(r1) >= gradient_alpha(r2),
        gradient_alpha(r1) <= max_alpha,
{
}

/// The alpha of the `row`-th row of the gradient.
pub fn get_gradient_alpha(row: usize) -> (a: u8)
    ensures
        a == gradient_alpha(row as int),
{
    if row < gradient_buffer_pixels {
        return max_alpha;
    }
    let reduction = row - gradient_buffer_pixels / crate::pixels_per_alpha_step;
    let reduction: u8 = if reduction > max_alpha as usize {
        max_alpha
    } else {
        reduction as u8
    };
    max_alpha - reduction
}

/// A row of `width` RGBA pixels, black with the given alpha.
pub open spec fn pixel_row(width: nat, alpha: u8) -> Seq<u8>
    decreases width,
{
    if width == 0 {
        Seq::empty()
    } else {
        pixel_row((width - 1) as nat, alpha) + seq![0u8, 0u8, 0u8, alpha]
    }
}

/// An image of black RGBA pixels, `width` wide, with one alpha per row, rows
/// from top to bottom.
pub open spec fn alpha_image(width: nat, alphas: Seq<u8>) -> Seq<u8>
    decreases alphas.len(),
{
    if alphas.len() == 0 {
        Seq::empty()
    } else {
        alpha_image(width, alphas.drop_last()) + pixel_row(width, alphas.last())
    }
}

/// The rows' alphas of the image under the bottom text: the gradient,
/// fading upwards, above a band of `pixel_height` rows.
pub open spec fn lower_alphas(pixel_height: nat) -> Seq<u8> {
    Seq::new(
        pixel_height + alpha_gradient_pixel_height as nat,
        |y: int|
            if y < alpha_gradient_pixel_height {
                gradient_alpha(alpha_gradient_pixel_height - 1 - y)
            } else {
                max_alpha
            },
    )
}

/// The rows' alphas of the image under the top text: a band of
/// `pixel_height` rows above the gradient, fading downwards.
pub open spec fn upper_alphas(pixel_height: nat) -> Seq<u8> {
    Seq::new(
        pixel_height + alpha_gradient_pixel_height as nat,
        |y: int|
            if y < pixel_height {
                max_alpha
            } else {
                gradient_alpha(y - pixel_height)
            },
    )
}

/// The pixels of an image, a card wide, whose rows have the alphas of the
/// image under the bottom text where `lower` holds, else of the image under
/// the top text.
fn image_data(height: usize, pixel_height: usize, lower: bool) -> (data: Vec<u8>)
    requires
        height == pixel_height + alpha_gradient_pixel_height,
        card_pixel_width * height * 4 <= usize::MAX,
    ensures
        data@ == alpha_image(
            card_pixel_width as nat,
            if lower {
                lower_alphas(pixel_height as nat)
            } else {
                upper_alphas(pixel_height as nat)
            },
        ),
        data.len() == card_pixel_width * height * 4,
{
    let ghost alphas = if lower {
        lower_alphas(pixel_height as nat)
    } else {
        upper_alphas(pixel_height as nat)
    };
    let mut data: Vec<u8> = Vec::new();
    let mut y: usize = 0;
    while y < height
        invariant
            height == pixel_height + alpha_gradient_pixel_height,
            card_pixel_width * height * 4 <= usize::MAX,
            alphas == (if lower {
                lower_alphas(pixel_height as nat)
            } else {
                upper_alphas(pixel_height as nat)
            }),
            y <= height,
            data@ == alpha_image(card_pixel_width as nat, alphas.take(y as int)),
            data.len() == card_pixel_width * y * 4,
        decreases height - y,
    {
        let a = if lower {
            if y < alpha_gradient_pixel_height {
                get_gradient_alpha(alpha_gradient_pixel_height - 1 - y)
            } else {
                max_alpha
            }
        } else {
            if y < pixel_height {
                max_alpha
            } else {
                get_gradient_alpha(y - pixel_height)
            }
        };
        assert(a == alphas[y as int]);
        let ghost start = data@;
        assert(card_pixel_width * (y + 1) * 4 <= card_pixel_width * height * 4) by (nonlinear_arith)
            requires
                y + 1 <= height,
        ;
        assert(card_pixel_width * (y + 1) * 4 == card_pixel_width * y * 4 + card_pixel_width * 4)
            by (nonlinear_arith);
        let mut c: usize = 0;
        while c < card_pixel_width
            invariant
                c <= card_pixel_width,
                data@ == start + pixel_row(c as nat, a),
                data.len() == start.len() + c * 4,
                start.len() + card_pixel_width * 4 <= usize::MAX,
            decreases card_pixel_width - c,
        {
            data.push(0);
            data.push(0);
            data.push(0);
            data.push(a);
            c += 1;
            assert(data@ =~= start + pixel_row(c as nat, a));
        }
        assert(alphas.take(y + 1).drop_last() =~= alphas.take(y as int));
        y += 1;
    }
    assert(alphas.take(height as int) =~= alphas);
    data
}

/// The pixels of the image under the bottom text, whose band is
/// `pixel_height` rows high.
pub fn lower_alpha_data(pixel_height: usize) -> (data: Vec<u8>)
    requires
        card_pixel_width * (pixel_height + alpha_gradient_pixel_height) * 4 <= usize::MAX,
    ensures
        data@ == alpha_image(card_pixel_width as nat, lower_alphas(pixel_height as nat)),
        data.len() == card_pixel_width * (pixel_height + alpha_gradient_pixel_height) * 4,
{
    image_data(pixel_height + alpha_gradient_pixel_height, pixel_height, true)
}

/// The pixels of the image under the top text, whose band is `pixel_height`
/// rows high.
pub fn upper_alpha_data(pixel_height: usize) -> (data: Vec<u8>)
    requires
        card_pixel_width * (pixel_height + alpha_gradient_pixel_height) * 4 <= usize::MAX,
    ensures
        data@ == alpha_image(card_pixel_width as nat, upper_alphas(pixel_height as nat)),
        data.len() == card_pixel_width * (pixel_height + alpha_gradient_pixel_height) * 4,
{
    image_data(pixel_height + alpha_gradient_pixel_height, pixel_height, false)
}

} // verus!
