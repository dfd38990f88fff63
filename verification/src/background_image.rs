use vstd::prelude::*;

use crate::world_map::RenderedRaster;

verus! {

/// A single-slot, cursor-versioned handoff from one background worker to one
/// polling consumer. A deposit stores the image and advances the write
/// cursor, overwriting any undeposited-but-unread prior image: the last
/// writer wins. A take returns the stored image only while the write cursor
/// is ahead of the read cursor, then catches the read cursor up. The
/// cancellation flag is advisory only: depositing and taking ignore it.
pub struct ImagePipe {
    pub read_cursor: u64,
    pub write_cursor: u64,
    pub cancelled: bool,
    pub img: Option<RenderedRaster>,
}

impl ImagePipe {
    /// The read cursor never passes the write cursor, and an image is stored
    /// exactly while the write cursor is ahead.
    pub open spec fn wf(self) -> bool {
        &&& self.read_cursor <= self.write_cursor
        &&& (self.img is Some <==> self.read_cursor < self.write_cursor)
    }

    /// The freshly built pipe: cursors level, nothing stored.
    pub open spec fn spec_new() -> ImagePipe {
        ImagePipe { read_cursor: 0, write_cursor: 0, cancelled: false, img: None }
    }

    /// What a deposit does: store the image and advance the write cursor
    /// past the read cursor. At the numeric limit of the counter the pair is
    /// rebased instead, which leaves every observable behavior unchanged.
    pub open spec fn spec_accept(self, img: RenderedRaster) -> ImagePipe {
        if self.write_cursor < u64::MAX {
            ImagePipe { write_cursor: (self.write_cursor + 1) as u64, img: Some(img), ..self }
        } else {
            ImagePipe { read_cursor: 0, write_cursor: 1, img: Some(img), ..self }
        }
    }

    /// What a take does: while the write cursor is ahead, hand the stored
    /// image out and catch the read cursor up; otherwise change nothing and
    /// return nothing.
    pub open spec fn spec_maybe_get(self) -> (ImagePipe, Option<RenderedRaster>) {
        if self.read_cursor < self.write_cursor {
            (ImagePipe { read_cursor: self.write_cursor, img: None, ..self }, self.img)
        } else {
            (self, None)
        }
    }

    pub fn new() -> (r: ImagePipe)
        ensures
            r == ImagePipe::spec_new(),
            r.wf(),
    {
        ImagePipe { read_cursor: 0, write_cursor: 0, cancelled: false, img: None }
    }

    /// Deposit a finished raster: last writer wins.
    pub fn accept(&mut self, img: RenderedRaster)
        requires
            old(self).wf(),
        ensures
            *final(self) == old(self).spec_accept(img),
            final(self).wf(),
    {
        self.img = Some(img);
        if self.write_cursor < u64::MAX {
            self.write_cursor = self.write_cursor + 1;
        } else {
            self.read_cursor = 0;
            self.write_cursor = 1;
        }
    }

    /// Poll for a deposited raster without blocking.
    pub fn maybe_get(&mut self) -> (r: Option<RenderedRaster>)
        requires
            old(self).wf(),
        ensures
            *final(self) == old(self).spec_maybe_get().0,
            r == old(self).spec_maybe_get().1,
            final(self).wf(),
    {
        if self.read_cursor < self.write_cursor {
            let mut taken: Option<RenderedRaster> = None;
            core::mem::swap(&mut self.img, &mut taken);
            self.read_cursor = self.write_cursor;
            taken
        } else {
            None
        }
    }

    /// Request best-effort cancellation of the producing worker. Advisory
    /// only: it interrupts nothing and is ignored by deposits and takes.
    pub fn cancel(&mut self)
        ensures
            *final(self) == (ImagePipe { cancelled: true, ..*old(self) }),
    {
        self.cancelled = true;
    }
}

impl Default for ImagePipe {
    fn default() -> (r: ImagePipe)
        ensures
            r == ImagePipe::spec_new(),
    {
        ImagePipe::new()
    }
}

/// Before any deposit, a take returns nothing.
pub proof fn lemma_take_before_deposit()
    ensures
        ImagePipe::spec_new().spec_maybe_get().1 is None,
{
}

/// After exactly one deposit into a quiescent pipe, one take returns that
/// image, and an immediate second take returns nothing.
pub proof fn lemma_one_deposit_one_take(p: ImagePipe, img: RenderedRaster)
    requires
        p.wf(),
        p.read_cursor == p.write_cursor,
    ensures
        ({
            let deposited = p.spec_accept(img);
            let first = deposited.spec_maybe_get();
            let second = first.0.spec_maybe_get();
            first.1 == Some(img) && second.1 is None
        }),
{
}

/// Two deposits with no take between them: a subsequent take returns only
/// the second image.
pub proof fn lemma_last_deposit_wins(p: ImagePipe, a: RenderedRaster, b: RenderedRaster)
    requires
        p.wf(),
    ensures
        p.spec_accept(a).spec_accept(b).spec_maybe_get().1 == Some(b),
{
}

} // verus!
