use vstd::prelude::*;

use crate::coords::Frac;
use crate::raw_image::RawImage;
use crate::rect_map;

verus! {

/// Wraps the immutable source raster and answers nearest-neighbor lookups
/// for normalized coordinates, with the magenta sentinel for anything that
/// falls outside the raster.
pub struct WorldSampler {
    pub raw_image: RawImage,
}

impl WorldSampler {
    pub open spec fn wf(self) -> bool {
        self.raw_image.wf()
    }

    /// The RGBA quad sampled at normalized coordinates `(u, v)`: scale by the
    /// raster dimensions, truncate to a pixel index, and look the pixel up;
    /// coordinates at or beyond one yield the sentinel.
    pub open spec fn spec_get(self, u: Frac, v: Frac) -> Seq<u8> {
        if u.is_unit() && v.is_unit() {
            self.raw_image.spec_rgba_at(
                u.spec_scaled(self.raw_image.width as int) as usize,
                v.spec_scaled(self.raw_image.height as int) as usize,
            )
        } else {
            seq![0xffu8, 0u8, 0xffu8, 0xffu8]
        }
    }

    pub fn new(raw_image: RawImage) -> (r: WorldSampler)
        requires
            raw_image.wf(),
        ensures
            r.wf(),
            r.raw_image == raw_image,
    {
        Self { raw_image }
    }

    /// Nearest-neighbor sample at `(u, v)`.
    pub fn get(&self, u: Frac, v: Frac) -> (r: [u8; 4])
        requires
            self.wf(),
            u.wf(),
            v.wf(),
        ensures
            r@ == self.spec_get(u, v),
    {
        if u.in_unit() && v.in_unit() {
            let x = u.scale_trunc(self.raw_image.width);
            let y = v.scale_trunc(self.raw_image.height);
            self.raw_image.rgba_at(x, y)
        } else {
            [0xff, 0, 0xff, 0xff]
        }
    }
}

/// A `width x height` RGBA buffer: the output of one recompute pass. Each
/// pass produces a new, independently owned instance; a superseded instance
/// is discarded, never mutated in place.
pub struct RenderedRaster {
    pub width: usize,
    pub height: usize,
    pub rgba: Vec<u8>,
}

impl RenderedRaster {
    /// Four bytes for every output pixel.
    pub open spec fn wf(self) -> bool {
        self.rgba.len() == 4 * ((self.width as int) * (self.height as int))
    }

    /// The RGBA quad of output pixel `(col, row)`.
    pub open spec fn spec_quad(self, col: int, row: int) -> Seq<u8> {
        self.rgba@.subrange(
            4 * (row * self.width as int + col),
            4 * (row * self.width as int + col) + 4,
        )
    }
}

/// One full recompute pass: for every output pixel `(col, row)`, look up the
/// source coordinate that the caller derived for it (entry `row * width +
/// col` of `source_coords`), sample the source raster there, and write the
/// sampled RGBA quad at `(col, row)` of the output.
pub fn world_map(
    width: usize,
    height: usize,
    world_sampler: &WorldSampler,
    source_coords: &Vec<(Frac, Frac)>,
) -> (r: RenderedRaster)
    requires
        world_sampler.wf(),
        source_coords.len() == width * height,
        4 * (width * height) <= usize::MAX,
        forall|col: usize, row: usize|
            col < width && row < height ==> ((#[trigger] source_coords@[row as int * width as int
                + col as int]).0.wf() && source_coords@[row as int * width as int
                + col as int].1.wf()),
    ensures
        r.wf(),
        r.width == width,
        r.height == height,
        forall|col: usize, row: usize|
            col < width && row < height ==> #[trigger] r.spec_quad(col as int, row as int)
                == world_sampler.spec_get(
                source_coords@[row as int * width as int + col as int].0,
                source_coords@[row as int * width as int + col as int].1,
            ),
{
    let quads: Vec<[u8; 4]> = rect_map(
        width,
        height,
        (|col: usize, row: usize| -> (q: [u8; 4])
            requires
                col < width && row < height,
            ensures
                q@ == world_sampler.spec_get(
                    source_coords@[row as int * width as int + col as int].0,
                    source_coords@[row as int * width as int + col as int].1,
                ),
            {
                proof {
                    assert((row as int + 1) * (width as int) == row as int * width as int
                        + width as int) by (nonlinear_arith);
                    vstd::arithmetic::mul::lemma_mul_inequality(
                        row as int + 1,
                        height as int,
                        width as int,
                    );
                    assert(height as int * width as int == width as int * height as int)
                        by (nonlinear_arith);
                }
                let idx: usize = row * width + col;
                let (u, v) = source_coords[idx];
                world_sampler.get(u, v)
            }),
    );
    let mut rgba: Vec<u8> = Vec::new();
    let mut i: usize = 0;
    while i < quads.len()
        invariant
            quads.len() == width * height,
            4 * (width * height) <= usize::MAX,
            i <= quads.len(),
            rgba.len() == 4 * i,
            forall|j: int| 0 <= j < i ==> #[trigger] rgba@.subrange(4 * j, 4 * j + 4) == quads@[j]@,
        decreases quads.len() - i,
    {
        let ghost prev = rgba@;
        let q = quads[i];
        rgba.push(q[0]);
        rgba.push(q[1]);
        rgba.push(q[2]);
        rgba.push(q[3]);
        proof {
            assert forall|j: int| 0 <= j < i + 1 implies #[trigger] rgba@.subrange(
                4 * j,
                4 * j + 4,
            ) == quads@[j]@ by {
                if j < i {
                    assert(rgba@.subrange(4 * j, 4 * j + 4) =~= prev.subrange(4 * j, 4 * j + 4));
                } else {
                    assert(rgba@.subrange(4 * j, 4 * j + 4) =~= quads@[j]@);
                }
            }
        }
        i = i + 1;
    }
    let r = RenderedRaster { width, height, rgba };
    proof {
        assert forall|col: usize, row: usize| col < width && row < height implies #[trigger] r
            .spec_quad(col as int, row as int) == world_sampler.spec_get(
            source_coords@[row as int * width as int + col as int].0,
            source_coords@[row as int * width as int + col as int].1,
        ) by {
            let j: int = row as int * width as int + col as int;
            assert((row as int + 1) * (width as int) == row as int * width as int + width as int)
                by (nonlinear_arith);
            vstd::arithmetic::mul::lemma_mul_inequality(row as int + 1, height as int, width as int);
            assert(height as int * width as int == width as int * height as int)
                by (nonlinear_arith);
            assert(0 <= j < width * height);
            assert(r.spec_quad(col as int, row as int) == rgba@.subrange(4 * j, 4 * j + 4));
            assert(quads@[j]@ == world_sampler.spec_get(
                source_coords@[j].0,
                source_coords@[j].1,
            ));
        }
    }
    r
}

/// The zero-anchor render pass: the remap is the identity, so output pixel
/// `(col, row)` samples the source at exactly `(col / width, row / height)`.
pub fn world_map_identity(width: usize, height: usize, world_sampler: &WorldSampler) -> (r:
    RenderedRaster)
    requires
        world_sampler.wf(),
        width > 0,
        height > 0,
        4 * (width * height) <= usize::MAX,
    ensures
        r.wf(),
        r.width == width,
        r.height == height,
        forall|col: usize, row: usize|
            col < width && row < height ==> #[trigger] r.spec_quad(col as int, row as int)
                == world_sampler.spec_get(
                (Frac { num: col as u64, den: width as u64 }),
                (Frac { num: row as u64, den: height as u64 }),
            ),
{
    let coords: Vec<(Frac, Frac)> = rect_map(
        width,
        height,
        (|col: usize, row: usize| -> (p: (Frac, Frac))
            requires
                col < width && row < height,
            ensures
                p == ((Frac { num: col as u64, den: width as u64 }), (Frac {
                    num: row as u64,
                    den: height as u64,
                })),
            {
                (Frac::new(col as u64, width as u64), Frac::new(row as u64, height as u64))
            }),
    );
    world_map(width, height, world_sampler, &coords)
}

/// Sampling a non-empty raster at coordinates inside the unit square always
/// lands inside the source buffer: the answer is a stored RGB triple with
/// full opacity, never the sentinel.
pub proof fn lemma_sample_in_unit(s: WorldSampler, u: Frac, v: Frac)
    requires
        s.wf(),
        u.wf(),
        v.wf(),
        u.is_unit(),
        v.is_unit(),
        s.raw_image.width > 0,
        s.raw_image.height > 0,
    ensures
        ({
            let x = u.spec_scaled(s.raw_image.width as int);
            let y = v.spec_scaled(s.raw_image.height as int);
            let base = 3 * (x + s.raw_image.width as int * y);
            &&& 0 <= x < s.raw_image.width
            &&& 0 <= y < s.raw_image.height
            &&& s.spec_get(u, v) == seq![
                s.raw_image.rgb_pixels@[base],
                s.raw_image.rgb_pixels@[base + 1],
                s.raw_image.rgb_pixels@[base + 2],
                0xffu8,
            ]
            &&& s.spec_get(u, v)[3] == 0xffu8
        }),
{
    let w: int = s.raw_image.width as int;
    let h: int = s.raw_image.height as int;
    let x = u.spec_scaled(w);
    let y = v.spec_scaled(h);
    assert(0 <= x < w) by (nonlinear_arith)
        requires
            x == (u.num * w) / (u.den as int),
            0 <= u.num < u.den,
            0 < w,
    ;
    assert(0 <= y < h) by (nonlinear_arith)
        requires
            y == (v.num * h) / (v.den as int),
            0 <= v.num < v.den,
            0 < h,
    ;
    assert(s.spec_get(u, v) == s.raw_image.spec_rgba_at(x as usize, y as usize));
}

/// Sampling at a coordinate outside the unit square yields exactly the
/// opaque magenta sentinel.
pub proof fn lemma_sample_out_of_range(s: WorldSampler, u: Frac, v: Frac)
    requires
        !u.is_unit() || !v.is_unit(),
    ensures
        s.spec_get(u, v) == seq![0xffu8, 0u8, 0xffu8, 0xffu8],
{
}

/// The identity coordinate map is pixel-aligned: when the output grid has
/// the raster's own dimensions, coordinate `(col / width, row / height)`
/// selects exactly source pixel `(col, row)`.
pub proof fn lemma_identity_sample(s: WorldSampler, col: usize, row: usize)
    requires
        s.wf(),
        col < s.raw_image.width,
        row < s.raw_image.height,
    ensures
        s.spec_get(
            (Frac { num: col as u64, den: s.raw_image.width as u64 }),
            (Frac { num: row as u64, den: s.raw_image.height as u64 }),
        ) == s.raw_image.spec_rgba_at(col, row),
{
    let w: int = s.raw_image.width as int;
    let h: int = s.raw_image.height as int;
    assert((col as int * w) / w == col as int) by (nonlinear_arith)
        requires
            0 < w,
            0 <= col,
    ;
    assert((row as int * h) / h == row as int) by (nonlinear_arith)
        requires
            0 < h,
            0 <= row,
    ;
}

/// A raster whose pixels all hold the one RGB triple `(red, green, blue)`.
pub open spec fn constant_source(img: RawImage, red: u8, green: u8, blue: u8) -> bool {
    forall|p: int|
        0 <= p < (img.width as int) * (img.height as int) ==> #[trigger] img.rgb_pixels@[3 * p]
            == red && img.rgb_pixels@[3 * p + 1] == green && img.rgb_pixels@[3 * p + 2] == blue
}

/// No remap can change the color of a constant source: every in-unit sample
/// of a constant raster returns that color, fully opaque.
pub proof fn lemma_constant_source_sample(
    s: WorldSampler,
    u: Frac,
    v: Frac,
    red: u8,
    green: u8,
    blue: u8,
)
    requires
        s.wf(),
        u.wf(),
        v.wf(),
        u.is_unit(),
        v.is_unit(),
        s.raw_image.width > 0,
        s.raw_image.height > 0,
        constant_source(s.raw_image, red, green, blue),
    ensures
        s.spec_get(u, v) == seq![red, green, blue, 0xffu8],
{
    lemma_sample_in_unit(s, u, v);
    let w: int = s.raw_image.width as int;
    let h: int = s.raw_image.height as int;
    let x = u.spec_scaled(w);
    let y = v.spec_scaled(h);
    let p = x + w * y;
    assert(0 <= p < w * h) by (nonlinear_arith)
        requires
            p == x + w * y,
            0 <= x < w,
            0 <= y < h,
    ;
    assert(s.spec_get(u, v) =~= seq![red, green, blue, 0xffu8]);
}

/// A user-picked anchor: a normalized coordinate on the source map.
#[derive(Clone, Copy)]
pub struct AnchorPoint {
    pub u: Frac,
    pub v: Frac,
}

/// The retained anchors: a FIFO of length at most two, oldest evicted
/// first. The first anchor defines the primary axis of the derived rotation,
/// the second refines its orientation, so insertion order matters.
pub struct AnchorList {
    pub anchors: Vec<AnchorPoint>,
}

impl AnchorList {
    /// At most two anchors are ever retained.
    pub open spec fn wf(self) -> bool {
        self.anchors.len() <= 2
    }

    pub fn new() -> (r: AnchorList)
        ensures
            r.wf(),
            r.anchors@ == Seq::<AnchorPoint>::empty(),
    {
        AnchorList { anchors: Vec::new() }
    }

    /// Retain a new anchor, evicting the oldest once two are already held.
    pub fn set_anchor(&mut self, anchor: AnchorPoint)
        requires
            old(self).wf(),
        ensures
            final(self).wf(),
            old(self).anchors.len() < 2 ==> final(self).anchors@ == old(self).anchors@.push(
                anchor,
            ),
            old(self).anchors.len() == 2 ==> final(self).anchors@ == old(
                self,
            ).anchors@.drop_first().push(anchor),
    {
        self.anchors.push(anchor);
        if self.anchors.len() > 2 {
            self.anchors.remove(0);
            proof {
                assert(self.anchors@ =~= old(self).anchors@.drop_first().push(anchor));
            }
        }
    }
}

/// What one poll of the background worker's pipe reported: nothing yet, a
/// previously displayed image while the worker still runs, or a freshly
/// finished image.
pub enum ImageProgress<T> {
    Nothing,
    Working(T),
    Finished(T),
}

/// Per display surface, the readiness of the displayed image: no image and
/// no worker yet, a first image being computed with nothing to show, a stale
/// image shown while its replacement is computed, or a stable up-to-date
/// image with no worker in flight.
pub enum WorldMapCalculating<T> {
    Nothing,
    CalculatingNoTexture,
    Recalculating(T),
    Stable(T),
}

impl<T> WorldMapCalculating<T> {
    /// The state after one poll that reported `progress`. From `Nothing` the
    /// poll starts the first worker; a finished image always settles the
    /// machine in `Stable`; an in-flight worker keeps whatever image was
    /// last shown on display.
    pub open spec fn spec_after_poll(self, progress: ImageProgress<T>) -> WorldMapCalculating<T> {
        match self {
            WorldMapCalculating::Nothing => WorldMapCalculating::CalculatingNoTexture,
            WorldMapCalculating::CalculatingNoTexture => match progress {
                ImageProgress::Nothing => WorldMapCalculating::CalculatingNoTexture,
                ImageProgress::Working(t) => WorldMapCalculating::Recalculating(t),
                ImageProgress::Finished(t) => WorldMapCalculating::Stable(t),
            },
            WorldMapCalculating::Recalculating(old_t) => match progress {
                ImageProgress::Nothing => WorldMapCalculating::Recalculating(old_t),
                ImageProgress::Working(t) => WorldMapCalculating::Recalculating(t),
                ImageProgress::Finished(t) => WorldMapCalculating::Stable(t),
            },
            WorldMapCalculating::Stable(t) => WorldMapCalculating::Stable(t),
        }
    }

    /// A poll spawns a worker only from the initial state.
    pub open spec fn spec_poll_spawns(self) -> bool {
        self is Nothing
    }

    /// The state after a new recompute request, the caller having already
    /// spawned the replacement worker: a shown image stays shown, and the
    /// machine is computing.
    pub open spec fn spec_after_request(self) -> WorldMapCalculating<T> {
        match self {
            WorldMapCalculating::Nothing => WorldMapCalculating::CalculatingNoTexture,
            WorldMapCalculating::CalculatingNoTexture => WorldMapCalculating::CalculatingNoTexture,
            WorldMapCalculating::Recalculating(t) => WorldMapCalculating::Recalculating(t),
            WorldMapCalculating::Stable(t) => WorldMapCalculating::Recalculating(t),
        }
    }

    /// A request supersedes an in-flight worker, which must be cancelled.
    pub open spec fn spec_request_cancels(self) -> bool {
        self is CalculatingNoTexture || self is Recalculating
    }

    /// The image the current state puts on display, if any.
    pub open spec fn spec_texture(self) -> Option<T> {
        match self {
            WorldMapCalculating::Nothing => Option::None,
            WorldMapCalculating::CalculatingNoTexture => Option::None,
            WorldMapCalculating::Recalculating(t) => Option::Some(t),
            WorldMapCalculating::Stable(t) => Option::Some(t),
        }
    }

    /// One poll step. Returns whether the caller must spawn the first
    /// worker; afterwards, `texture` is what the surface should display.
    pub fn maybe_get_texture(&mut self, progress: ImageProgress<T>) -> (spawn: bool)
        ensures
            *final(self) == old(self).spec_after_poll(progress),
            spawn == old(self).spec_poll_spawns(),
    {
        let mut cur = WorldMapCalculating::Nothing;
        core::mem::swap(self, &mut cur);
        let (next, spawn) = match cur {
            WorldMapCalculating::Nothing => (WorldMapCalculating::CalculatingNoTexture, true),
            WorldMapCalculating::CalculatingNoTexture => (
                match progress {
                    ImageProgress::Nothing => WorldMapCalculating::CalculatingNoTexture,
                    ImageProgress::Working(t) => WorldMapCalculating::Recalculating(t),
                    ImageProgress::Finished(t) => WorldMapCalculating::Stable(t),
                },
                false,
            ),
            WorldMapCalculating::Recalculating(old_t) => (
                match progress {
                    ImageProgress::Nothing => WorldMapCalculating::Recalculating(old_t),
                    ImageProgress::Working(t) => WorldMapCalculating::Recalculating(t),
                    ImageProgress::Finished(t) => WorldMapCalculating::Stable(t),
                },
                false,
            ),
            WorldMapCalculating::Stable(t) => (WorldMapCalculating::Stable(t), false),
        };
        *self = next;
        spawn
    }

    /// Record a new recompute request. Returns whether a superseded
    /// in-flight worker must be cancelled (best effort).
    pub fn start_recalculating(&mut self) -> (cancel_old: bool)
        ensures
            *final(self) == old(self).spec_after_request(),
            cancel_old == old(self).spec_request_cancels(),
    {
        let mut cur = WorldMapCalculating::Nothing;
        core::mem::swap(self, &mut cur);
        let (next, cancel_old) = match cur {
            WorldMapCalculating::Nothing => (WorldMapCalculating::CalculatingNoTexture, false),
            WorldMapCalculating::CalculatingNoTexture => (
                WorldMapCalculating::CalculatingNoTexture,
                true,
            ),
            WorldMapCalculating::Recalculating(t) => (WorldMapCalculating::Recalculating(t), true),
            WorldMapCalculating::Stable(t) => (WorldMapCalculating::Recalculating(t), false),
        };
        *self = next;
        cancel_old
    }

    /// The image to display in the current state.
    pub fn texture(&self) -> (r: Option<&T>)
        ensures
            ({
                let shown = self.spec_texture();
                match (r, shown) {
                    (Option::Some(have), Option::Some(want)) => *have == want,
                    (Option::None, Option::None) => true,
                    _ => false,
                }
            }),
    {
        match self {
            WorldMapCalculating::Nothing => Option::None,
            WorldMapCalculating::CalculatingNoTexture => Option::None,
            WorldMapCalculating::Recalculating(t) => Option::Some(t),
            WorldMapCalculating::Stable(t) => Option::Some(t),
        }
    }
}

} // verus!
