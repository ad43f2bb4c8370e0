//! Display framebuffer: a page-addressed column-byte pixel grid, serialized
//! wholesale into the device's display output report.

use vstd::prelude::*;
use vstd::pervasive::VecAdditionalExecFns;

verus! {

/// Number of 8-row pixel pages of the display.
pub const SCREEN_PAGES: usize = 4;

/// Number of pixel columns of the display.
pub const SCREEN_WIDTH: usize = 128;

/// Number of column bytes the framebuffer holds.
pub const SCREEN_BYTES: usize = 512;

/// Length in bytes of the display output report.
pub const SCREEN_REPORT_LEN: usize = 513;

/// The display framebuffer. Byte `page * SCREEN_WIDTH + x` carries the eight
/// pixels of column `x` in page `page`, least significant bit on top.
pub struct Screen {
    pub pixels: Vec<u8>,
}

/// The display output report: a report id followed by the raw framebuffer.
/// The byte layout is the device's fixed external contract.
pub open spec fn spec_screen_report(pixels: Seq<u8>) -> Seq<u8> {
    Seq::new(SCREEN_REPORT_LEN as nat, |i: int| if i == 0 { 0xe0u8 } else { pixels[i - 1] })
}

/// The pixel bytes of a blank framebuffer.
pub open spec fn spec_blank_pixels() -> Seq<u8> {
    Seq::new(SCREEN_BYTES as nat, |i: int| 0u8)
}

impl Screen {
    pub open spec fn wf(&self) -> bool {
        self.pixels@.len() == SCREEN_BYTES
    }

    pub open spec fn spec_blank(&self) -> bool {
        self.pixels@ == spec_blank_pixels()
    }

    /// A fresh framebuffer is blank.
    pub fn new() -> (r: Screen)
        ensures
            r.wf(),
            r.spec_blank(),
    {
        Screen { pixels: Self::blank_pixels() }
    }

    fn blank_pixels() -> (r: Vec<u8>)
        ensures
            r@ =~= spec_blank_pixels(),
    {
        let mut v: Vec<u8> = Vec::new();
        let mut i: usize = 0;
        while i < SCREEN_BYTES
            invariant
                i <= SCREEN_BYTES,
                v@ =~= Seq::<u8>::new(i as nat, |j: int| 0u8),
            decreases SCREEN_BYTES - i,
        {
            v.push(0);
            i += 1;
        }
        v
    }

    /// Clear every pixel.
    pub fn reset(&mut self)
        requires
            old(self).wf(),
        ensures
            final(self).wf(),
            final(self).spec_blank(),
    {
        self.pixels = Self::blank_pixels();
    }

    /// Overwrite the column byte at `(page, x)`; every other byte stays.
    pub fn set_column(&mut self, page: usize, x: usize, bits: u8)
        requires
            old(self).wf(),
            page < SCREEN_PAGES,
            x < SCREEN_WIDTH,
        ensures
            final(self).wf(),
            final(self).pixels@ == old(self).pixels@.update(
                page * SCREEN_WIDTH + x,
                bits,
            ),
    {
        proof {
            assert(page * SCREEN_WIDTH + x < SCREEN_BYTES) by (nonlinear_arith)
                requires
                    page < SCREEN_PAGES,
                    x < SCREEN_WIDTH,
                    SCREEN_PAGES == 4,
                    SCREEN_WIDTH == 128,
                    SCREEN_BYTES == 512,
            ;
        }
        self.pixels.set(page * SCREEN_WIDTH + x, bits);
    }

    /// The column byte at `(page, x)`.
    pub fn get_column(&self, page: usize, x: usize) -> (r: u8)
        requires
            self.wf(),
            page < SCREEN_PAGES,
            x < SCREEN_WIDTH,
        ensures
            r == self.pixels@[page * SCREEN_WIDTH + x],
    {
        proof {
            assert(page * SCREEN_WIDTH + x < SCREEN_BYTES) by (nonlinear_arith)
                requires
                    page < SCREEN_PAGES,
                    x < SCREEN_WIDTH,
                    SCREEN_PAGES == 4,
                    SCREEN_WIDTH == 128,
                    SCREEN_BYTES == 512,
            ;
        }
        self.pixels[page * SCREEN_WIDTH + x]
    }

    /// Pack the framebuffer into the display output report.
    pub fn serialize(&self) -> (r: Vec<u8>)
        requires
            self.wf(),
        ensures
            r@ == spec_screen_report(self.pixels@),
    {
        let mut out: Vec<u8> = Vec::new();
        out.push(0xe0);
        let mut i: usize = 0;
        while i < SCREEN_BYTES
            invariant
                self.wf(),
                i <= SCREEN_BYTES,
                out@.len() == 1 + i,
                out@[0] == 0xe0u8,
                forall|j: int| 0 <= j < i ==> out@[1 + j] == self.pixels@[j],
            decreases SCREEN_BYTES - i,
        {
            out.push(self.pixels[i]);
            i += 1;
        }
        proof {
            assert(out@ =~= spec_screen_report(self.pixels@));
        }
        out
    }
}

} // verus!
