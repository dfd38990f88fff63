use vstd::prelude::*;

mod background_image;
mod coords;
mod raw_image;
mod world_map;

pub use background_image::ImagePipe;
pub use background_image::lemma_last_deposit_wins;
pub use background_image::lemma_one_deposit_one_take;
pub use background_image::lemma_take_before_deposit;
pub use coords::Frac;
pub use raw_image::RawImage;
pub use world_map::AnchorList;
pub use world_map::AnchorPoint;
pub use world_map::ImageProgress;
pub use world_map::RenderedRaster;
pub use world_map::WorldMapCalculating;
pub use world_map::WorldSampler;
pub use world_map::constant_source;
pub use world_map::lemma_constant_source_sample;
pub use world_map::lemma_identity_sample;
pub use world_map::lemma_sample_in_unit;
pub use world_map::lemma_sample_out_of_range;
pub use world_map::world_map;
pub use world_map::world_map_identity;

verus! {

/// Evaluate `pixel_for` over every cell of a `width x height` grid, row by
/// row, and collect the results in row-major order: entry `row * width + col`
/// comes from `pixel_for(col, row)`.
pub fn rect_map<T, F: Fn(usize, usize) -> T>(width: usize, height: usize, pixel_for: F) -> (r:
    Vec<T>)
    requires
        width * height <= usize::MAX,
        forall|col: usize, row: usize|
            col < width && row < height ==> call_requires(pixel_for, (col, row)),
    ensures
        r.len() == width * height,
        forall|col: usize, row: usize|
            col < width && row < height ==> call_ensures(
                pixel_for,
                (col, row),
                #[trigger] r@[row as int * width as int + col as int],
            ),
{
    let mut r: Vec<T> = Vec::new();
    let mut row: usize = 0;
    while row < height
        invariant
            row <= height,
            width * height <= usize::MAX,
            r.len() == row * width,
            forall|col: usize, row: usize|
                col < width && row < height ==> call_requires(pixel_for, (col, row)),
            forall|idx: int|
                0 <= idx < r.len() ==> call_ensures(
                    pixel_for,
                    ((idx % (width as int)) as usize, (idx / (width as int)) as usize),
                    #[trigger] r@[idx],
                ),
        decreases height - row,
    {
        proof {
            assert(row * width + width <= height * width) by (nonlinear_arith)
                requires
                    row < height,
            ;
            assert(height * width == width * height) by (nonlinear_arith);
        }
        let mut col: usize = 0;
        while col < width
            invariant
                col <= width,
                row < height,
                row * width + width <= width * height <= usize::MAX,
                r.len() == row * width + col,
                forall|col: usize, row: usize|
                    col < width && row < height ==> call_requires(pixel_for, (col, row)),
                forall|idx: int|
                    0 <= idx < r.len() ==> call_ensures(
                        pixel_for,
                        ((idx % (width as int)) as usize, (idx / (width as int)) as usize),
                        #[trigger] r@[idx],
                    ),
            decreases width - col,
        {
            let t = pixel_for(col, row);
            proof {
                let idx: int = row as int * width as int + col as int;
                vstd::arithmetic::div_mod::lemma_fundamental_div_mod_converse(
                    idx,
                    width as int,
                    row as int,
                    col as int,
                );
            }
            r.push(t);
            col = col + 1;
        }
        proof {
            assert(((row + 1) as int) * (width as int) == (row as int) * (width as int) + (
            width as int)) by (nonlinear_arith);
        }
        row = row + 1;
    }
    proof {
        assert(height * width == width * height) by (nonlinear_arith);
        assert forall|col: usize, row: usize| col < width && row < height implies call_ensures(
            pixel_for,
            (col, row),
            #[trigger] r@[row as int * width as int + col as int],
        ) by {
            let idx: int = row as int * width as int + col as int;
            assert((row as int + 1) * (width as int) == row as int * width as int + width as int)
                by (nonlinear_arith);
            vstd::arithmetic::mul::lemma_mul_inequality(
                row as int + 1,
                height as int,
                width as int,
            );
            assert(idx < height as int * width as int);
            assert(height as int * width as int == width as int * height as int)
                by (nonlinear_arith);
            vstd::arithmetic::div_mod::lemma_fundamental_div_mod_converse(
                idx,
                width as int,
                row as int,
                col as int,
            );
            assert(call_ensures(
                pixel_for,
                ((idx % (width as int)) as usize, (idx / (width as int)) as usize),
                r@[idx],
            ));
        }
    }
    r
}

} // verus!
