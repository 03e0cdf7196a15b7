//! The render-to-display bridge.
//!
//! A retained-mode renderer produces pixel content as "render this
//! horizontal span of this row" callbacks; the physical display
//! transport accepts one rectangular pixel write at a time. The bridge
//! owns a single row-sized pixel buffer, reused across every row of
//! every frame: the renderer's pixels for a span are copied into the
//! span's portion of that buffer, and exactly that portion is read
//! back out into one transport write covering the 1-row-tall,
//! span-wide rectangle. A frame in which the renderer reports no dirty
//! region performs no transport operation at all.

use vstd::prelude::*;

verus! {

/// One write against the display transport: the rectangle it covers
/// and the pixel values, in column order, that fill it.
pub struct TransportWrite {
    pub x: usize,
    pub y: usize,
    pub width: usize,
    pub height: usize,
    pub pixels: Vec<u16>,
}

/// One dirty span reported by the renderer: a row index, the starting
/// column, and the display-native pixel values for the columns
/// `start .. start + pixels.len()`.
pub struct LineSpan {
    pub row: usize,
    pub start: usize,
    pub pixels: Vec<u16>,
}

impl LineSpan {
    /// The span lies within a display of the given width.
    pub open spec fn fits(&self, width: nat) -> bool {
        self.start + self.pixels@.len() <= width
    }
}

/// The transport write a span must turn into: the 1-row-tall rectangle
/// at `(start, row)` that is exactly as wide as the span, filled with
/// exactly the span's pixels and no others.
pub open spec fn write_matches_span(w: TransportWrite, s: LineSpan) -> bool {
    &&& w.x == s.start
    &&& w.y == s.row
    &&& w.width == s.pixels@.len()
    &&& w.height == 1
    &&& w.pixels@ == s.pixels@
}

/// Every span in the sequence lies within the given width.
pub open spec fn spans_fit(spans: Seq<LineSpan>, width: nat) -> bool {
    forall|i: int| 0 <= i < spans.len() ==> #[trigger] spans[i].fits(width)
}

/// Every span of a reported frame lies within the given width; a frame
/// with no dirty region reports nothing.
pub open spec fn frame_fits(frame: Option<Vec<LineSpan>>, width: nat) -> bool {
    match frame {
        Some(spans) => spans_fit(spans@, width),
        None => true,
    }
}

/// The bridge between per-row render callbacks and rectangular
/// transport writes, owning the one reused row buffer.
pub struct RenderBridge {
    row_buffer: Vec<u16>,
}

impl RenderBridge {
    /// The display width in pixels; the row buffer is exactly this
    /// wide.
    pub closed spec fn width(&self) -> nat {
        self.row_buffer@.len()
    }

    /// The current contents of the reused row buffer.
    pub closed spec fn buffer(&self) -> Seq<u16> {
        self.row_buffer@
    }

    /// A bridge for a display of the given width, with the row buffer
    /// allocated once and cleared.
    pub fn new(width: usize) -> (bridge: Self)
        ensures
            bridge.width() == width,
            bridge.buffer() == Seq::new(width as nat, |i: int| 0u16),
    {
        let mut row_buffer: Vec<u16> = Vec::new();
        let mut i: usize = 0;
        while i < width
            invariant
                i <= width,
                row_buffer@.len() == i,
                forall|j: int| 0 <= j < i ==> row_buffer@[j] == 0u16,
            decreases width - i,
        {
            row_buffer.push(0u16);
            i = i + 1;
        }
        let bridge = RenderBridge { row_buffer };
        proof {
            assert(bridge.buffer() =~= Seq::new(width as nat, |j: int| 0u16));
        }
        bridge
    }

    /// One row callback round: the renderer's pixels for the span are
    /// copied into the span's portion of the reused row buffer, and
    /// the transport write handed back covers exactly the 1-row-tall
    /// rectangle of that span, its data read back from exactly that
    /// portion of the buffer. The buffer outside the span is left
    /// untouched.
    pub fn process_line(&mut self, row: usize, start: usize, pixels: &Vec<u16>) -> (w:
        TransportWrite)
        requires
            start + pixels@.len() <= old(self).width(),
        ensures
            final(self).width() == old(self).width(),
            forall|j: int|
                start <= j < start + pixels@.len() ==> #[trigger] final(self).buffer()[j]
                    == pixels@[j - start],
            forall|j: int|
                0 <= j < start ==> #[trigger] final(self).buffer()[j] == old(self).buffer()[j],
            forall|j: int|
                start + pixels@.len() <= j < old(self).width()
                    ==> #[trigger] final(self).buffer()[j] == old(self).buffer()[j],
            write_matches_span(w, (LineSpan { row, start, pixels: *pixels })),
            w.pixels@ == final(self).buffer().subrange(
                start as int,
                start + pixels@.len(),
            ),
    {
        let count = pixels.len();
        let buf_len = self.row_buffer.len();
        let mut i: usize = 0;
        while i < count
            invariant
                i <= count,
                count == pixels@.len(),
                start + count <= buf_len,
                buf_len == self.row_buffer@.len(),
                self.row_buffer@.len() == old(self).width(),
                forall|j: int| 0 <= j < i ==> self.row_buffer@[start + j] == pixels@[j],
                forall|j: int| 0 <= j < start ==> self.row_buffer@[j] == old(self).buffer()[j],
                forall|j: int|
                    start + count <= j < self.row_buffer@.len() ==> self.row_buffer@[j] == old(
                        self,
                    ).buffer()[j],
            decreases count - i,
        {
            self.row_buffer[start + i] = pixels[i];
            i = i + 1;
        }
        let mut data: Vec<u16> = Vec::new();
        let mut k: usize = 0;
        while k < count
            invariant
                k <= count,
                count == pixels@.len(),
                start + count <= buf_len,
                buf_len == self.row_buffer@.len(),
                data@.len() == k,
                forall|j: int| 0 <= j < k ==> data@[j] == self.row_buffer@[start + j],
                forall|j: int| 0 <= j < count ==> self.row_buffer@[start + j] == pixels@[j],
            decreases count - k,
        {
            data.push(self.row_buffer[start + k]);
            k = k + 1;
        }
        proof {
            assert(data@ =~= pixels@);
            assert(data@ =~= self.row_buffer@.subrange(start as int, start + pixels@.len()));
            assert forall|j: int|
                start <= j < start + pixels@.len() implies #[trigger] self.row_buffer@[j]
                == pixels@[j - start] by {
                assert(self.row_buffer@[start + (j - start)] == pixels@[j - start]);
            };
        }
        TransportWrite { x: start, y: row, width: count, height: 1, pixels: data }
    }

    /// One frame against the transport. A frame with no dirty region
    /// (`None`) is a strict no-op: zero transport writes. Otherwise
    /// every reported span becomes exactly one transport write, in
    /// report order, each covering exactly its span's rectangle with
    /// exactly its span's pixels.
    pub fn render_frame(&mut self, frame: &Option<Vec<LineSpan>>) -> (writes: Vec<
        TransportWrite,
    >)
        requires
            frame_fits(*frame, old(self).width()),
        ensures
            final(self).width() == old(self).width(),
            *frame is None ==> writes@.len() == 0 && final(self).buffer() == old(self).buffer(),
            *frame matches Some(spans) ==> writes@.len() == spans@.len() && forall|i: int|
                0 <= i < spans@.len() ==> write_matches_span(
                    #[trigger] writes@[i],
                    spans@[i],
                ),
    {
        match frame {
            None => Vec::new(),
            Some(spans) => {
                let mut writes: Vec<TransportWrite> = Vec::new();
                let mut i: usize = 0;
                let total = spans.len();
                while i < total
                    invariant
                        i <= total,
                        total == spans@.len(),
                        self.width() == old(self).width(),
                        spans_fit(spans@, old(self).width()),
                        writes@.len() == i,
                        forall|j: int|
                            0 <= j < i ==> write_matches_span(
                                #[trigger] writes@[j],
                                spans@[j],
                            ),
                    decreases total - i,
                {
                    let span = &spans[i];
                    proof {
                        assert(spans@[i as int].fits(old(self).width()));
                    }
                    let w = self.process_line(span.row, span.start, &span.pixels);
                    writes.push(w);
                    i = i + 1;
                }
                writes
            },
        }
    }
}

/// The color conversion applied at the bridge boundary: the value a
/// generic 8-bit-per-channel pixel takes in the display-native 16-bit
/// format, the red channel's top 5 bits, the green channel's top 6 and
/// the blue channel's top 5 packed side by side.
pub open spec fn spec_rgb565(r: u8, g: u8, b: u8) -> u16 {
    ((((r >> 3) as u16) << 11) | (((g >> 2) as u16) << 5) | ((b >> 3) as u16)) as u16
}

/// Converts one generic 8-bit-per-channel pixel into the
/// display-native 16-bit color format.
pub fn rgb888_to_rgb565(r: u8, g: u8, b: u8) -> (c: u16)
    ensures
        c == spec_rgb565(r, g, b),
{
    (((r >> 3) as u16) << 11) | (((g >> 2) as u16) << 5) | ((b >> 3) as u16)
}

} // verus!
