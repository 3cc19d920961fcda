//! The pixel buffer and its plain-text portable-pixmap serialization.

use vstd::prelude::*;
use vstd::string::StringExecFns;

use crate::color::RGB;
use crate::color::clamp;
use crate::color::push_dec_string;
use crate::color::spec_clamp;
use crate::color::spec_dec_string;

verus! {

/// A rectangular pixel buffer, rows stored one after another.
#[derive(Debug)]
pub struct Canvas {
    /// Width of the canvas in pixels.
    pub width: usize,
    /// Height of the canvas in pixels.
    pub height: usize,
    /// The pixels, row by row: the pixel at `(x, y)` sits at
    /// `x + y * width`.
    pub pixels: Vec<RGB>,
}

/// A canvas holds exactly one pixel per cell.
pub open spec fn spec_canvas_wf(c: Canvas) -> bool {
    c.pixels.len() == c.width * c.height
}

/// Serialized pixel lines never run past this many characters.
pub const MAXIMUM_PPM_LINE_LENGTH: usize = 70;

/// One wrapping step of the serializer: the text a component contributes
/// at a given column, and the column after it.  A component that would
/// run past the line limit starts a fresh line; later components on a
/// line are separated by single spaces.
pub open spec fn spec_wrap_step(col: int, item: Seq<char>) -> (Seq<char>, int) {
    if col + item.len() + 1 > MAXIMUM_PPM_LINE_LENGTH as int {
        (seq!['\n'] + item, item.len() as int + 1)
    } else if col > 0 {
        (seq![' '] + item, col + item.len() + 1)
    } else {
        (item, col + item.len() + 1)
    }
}

/// The decimal text of one clamped color component.
pub open spec fn spec_component_text(c: int) -> Seq<char> {
    spec_dec_string(spec_clamp(c))
}

/// The serialized text of one row of pixels from position `x` on,
/// starting at the given column: three wrapped components per pixel.
pub open spec fn spec_wrap_row(row: Seq<RGB>, x: int, col: int) -> Seq<char>
    decreases row.len() - x,
{
    if x < 0 || x >= row.len() {
        Seq::empty()
    } else {
        let p = row[x];
        let s1 = spec_wrap_step(col, spec_component_text(p.red as int));
        let s2 = spec_wrap_step(s1.1, spec_component_text(p.green as int));
        let s3 = spec_wrap_step(s2.1, spec_component_text(p.blue as int));
        s1.0 + s2.0 + s3.0 + spec_wrap_row(row, x + 1, s3.1)
    }
}

/// The pixels of row `y`.
pub open spec fn spec_row(c: Canvas, y: int) -> Seq<RGB> {
    c.pixels@.subrange(y * c.width, y * c.width + c.width)
}

/// The serialized rows from `y` down: each row's wrapped components and a
/// closing newline, with the column starting fresh on every row.
pub open spec fn spec_ppm_rows(c: Canvas, y: int) -> Seq<char>
    decreases c.height - y,
{
    if y < 0 || y >= c.height {
        Seq::empty()
    } else {
        spec_wrap_row(spec_row(c, y), 0, 0) + seq!['\n'] + spec_ppm_rows(c, y + 1)
    }
}

/// The whole portable-pixmap text: the `P3` header with the dimensions
/// and the component ceiling, the serialized rows, and a final blank
/// line.
pub open spec fn spec_to_ppm(c: Canvas) -> Seq<char> {
    seq!['P', '3', '\n'] + spec_dec_string(c.width as int) + seq![' '] + spec_dec_string(
        c.height as int,
    ) + seq!['\n'] + spec_dec_string(255) + seq!['\n'] + spec_ppm_rows(c, 0) + seq!['\n']
}

/// Append one wrapped component to the buffer and report the column
/// after it.
fn push_wrapped(buffer: &mut String, col: usize, value: u8) -> (r: usize)
    requires
        col <= 100,
    ensures
        final(buffer)@ == old(buffer)@ + spec_wrap_step(
            col as int,
            spec_dec_string(value as int),
        ).0,
        r == spec_wrap_step(col as int, spec_dec_string(value as int)).1,
        r <= 100,
{
    proof {
        reveal_strlit("\n");
        reveal_strlit(" ");
        lemma_dec_len(value as int);
    }
    let len: usize = if value >= 100 {
        3
    } else if value >= 10 {
        2
    } else {
        1
    };
    if col + len + 1 > MAXIMUM_PPM_LINE_LENGTH {
        buffer.append("\n");
        push_dec_string(buffer, value as u64);
        proof {
            assert(buffer@ =~= old(buffer)@ + spec_wrap_step(
                col as int,
                spec_dec_string(value as int),
            ).0);
        }
        len + 1
    } else {
        if col > 0 {
            buffer.append(" ");
        }
        push_dec_string(buffer, value as u64);
        proof {
            assert(buffer@ =~= old(buffer)@ + spec_wrap_step(
                col as int,
                spec_dec_string(value as int),
            ).0);
        }
        col + len + 1
    }
}

/// A byte's decimal text has one, two or three digits.
proof fn lemma_dec_len(v: int)
    requires
        0 <= v <= 255,
    ensures
        v < 10 ==> spec_dec_string(v).len() == 1,
        10 <= v < 100 ==> spec_dec_string(v).len() == 2,
        100 <= v ==> spec_dec_string(v).len() == 3,
{
    if v >= 10 {
        assert(spec_dec_string(v / 10).len() == if v / 10 < 10 {
            1int
        } else {
            2int
        }) by {
            if v / 10 >= 10 {
                assert(spec_dec_string(v / 100).len() == 1);
            }
        }
    }
}

impl Canvas {
    /// A canvas of the given size with every pixel black.
    pub fn new(width: usize, height: usize) -> (r: Self)
        requires
            width * height <= usize::MAX,
        ensures
            r.width == width,
            r.height == height,
            r.pixels.len() == width * height,
            forall|i: int|
                0 <= i < r.pixels.len() ==> r.pixels[i] == (RGB { red: 0, green: 0, blue: 0 }),
            spec_canvas_wf(r),
    {
        let n: usize = width * height;
        let mut pixels: Vec<RGB> = Vec::new();
        let mut i: usize = 0;
        while i < n
            invariant
                i <= n,
                pixels.len() == i,
                forall|q: int|
                    0 <= q < i ==> pixels[q] == (RGB { red: 0, green: 0, blue: 0 }),
            decreases n - i,
        {
            pixels.push(RGB::black());
            i = i + 1;
        }
        Self { width, height, pixels }
    }

    /// Replace the pixel at `(x, y)`.
    pub fn write_pixel(&mut self, x: usize, y: usize, color: RGB)
        requires
            spec_canvas_wf(*old(self)),
            x < old(self).width,
            y < old(self).height,
        ensures
            final(self).width == old(self).width,
            final(self).height == old(self).height,
            final(self).pixels@ == old(self).pixels@.update(
                x + y * old(self).width,
                color,
            ),
            spec_canvas_wf(*final(self)),
    {
        proof {
            lemma_pixel_index(x as int, y as int, self.width as int, self.height as int);
        }
        let i: usize = x + y * self.width;
        self.pixels.remove(i);
        self.pixels.insert(i, color);
        proof {
            assert(final(self).pixels@ =~= old(self).pixels@.update(
                x as int + y as int * old(self).width,
                color,
            ));
        }
    }

    /// The pixel at `(x, y)`.
    pub fn pixel_at(&self, x: usize, y: usize) -> (r: RGB)
        requires
            spec_canvas_wf(*self),
            x < self.width,
            y < self.height,
        ensures
            r == self.pixels[x + y * self.width],
    {
        proof {
            lemma_pixel_index(x as int, y as int, self.width as int, self.height as int);
        }
        self.pixels[x + y * self.width]
    }

    /// Serialize the canvas as plain portable-pixmap text: a `P3` header,
    /// the clamped pixel components row by row with lines wrapped at the
    /// line limit, and a final blank line.
    pub fn to_ppm(&self) -> (r: String)
        requires
            spec_canvas_wf(*self),
            self.width <= 100_000,
            self.height <= 100_000,
        ensures
            r@ == spec_to_ppm(*self),
    {
        proof {
            reveal_strlit("P3\n");
            reveal_strlit(" ");
            reveal_strlit("\n");
        }
        let mut buffer = String::new();
        buffer.append("P3\n");
        push_dec_string(&mut buffer, self.width as u64);
        buffer.append(" ");
        push_dec_string(&mut buffer, self.height as u64);
        buffer.append("\n");
        push_dec_string(&mut buffer, 255);
        buffer.append("\n");
        let ghost header: Seq<char> = buffer@;
        proof {
            reveal_strlit("P3\n");
            reveal_strlit(" ");
            reveal_strlit("\n");
            assert(header =~= seq!['P', '3', '\n'] + spec_dec_string(self.width as int)
                + seq![' '] + spec_dec_string(self.height as int) + seq!['\n'] + spec_dec_string(
                255,
            ) + seq!['\n']);
            assert(buffer@.skip(header.len() as int) =~= Seq::<char>::empty());
        }
        let mut y: usize = 0;
        while y < self.height
            invariant
                spec_canvas_wf(*self),
                self.width <= 100_000,
                self.height <= 100_000,
                y <= self.height,
                buffer@.len() >= header.len(),
                buffer@.subrange(0, header.len() as int) == header,
                spec_ppm_rows(*self, 0) == buffer@.skip(header.len() as int) + spec_ppm_rows(
                    *self,
                    y as int,
                ),
            decreases self.height - y,
        {
            let ghost row: Seq<RGB> = spec_row(*self, y as int);
            proof {
                lemma_row_bounds(y as int, self.width as int, self.height as int);
                assert(row.len() == self.width);
            }
            let mut col: usize = 0;
            let mut x: usize = 0;
            let ghost row_start: Seq<char> = buffer@;
            proof {
                assert(buffer@.skip(row_start.len() as int) =~= Seq::<char>::empty());
            }
            while x < self.width
                invariant
                    spec_canvas_wf(*self),
                    self.width <= 100_000,
                    self.height <= 100_000,
                    y < self.height,
                    x <= self.width,
                    col <= 100,
                    row == spec_row(*self, y as int),
                    row.len() == self.width,
                    spec_wrap_row(row, 0, 0) == buffer@.skip(row_start.len() as int)
                        + spec_wrap_row(row, x as int, col as int),
                    buffer@.len() >= row_start.len(),
                    buffer@.subrange(0, row_start.len() as int) == row_start,
                decreases self.width - x,
            {
                proof {
                    lemma_pixel_index(x as int, y as int, self.width as int, self.height as int);
                    assert(row[x as int] == self.pixels@[y as int * self.width + x as int]);
                    assert(row[x as int] == self.pixels[x as int + y as int * self.width]);
                }
                let p: RGB = self.pixels[x + y * self.width];
                let c1: usize = push_wrapped(&mut buffer, col, clamp(p.red));
                let c2: usize = push_wrapped(&mut buffer, c1, clamp(p.green));
                let c3: usize = push_wrapped(&mut buffer, c2, clamp(p.blue));
                col = c3;
                proof {
                    assert(buffer@.skip(row_start.len() as int) + spec_wrap_row(
                        row,
                        x as int + 1,
                        col as int,
                    ) =~= spec_wrap_row(row, 0, 0));
                    assert(buffer@.subrange(0, row_start.len() as int) =~= row_start);
                }
                x = x + 1;
            }
            let ghost wrap_text: Seq<char> = buffer@.skip(row_start.len() as int);
            proof {
                assert(spec_wrap_row(row, self.width as int, col as int) =~= Seq::<
                    char,
                >::empty());
                assert(wrap_text =~= spec_wrap_row(row, 0, 0));
                assert(buffer@ =~= row_start + wrap_text);
            }
            buffer.append("\n");
            proof {
                reveal_strlit("\n");
                assert(buffer@ =~= row_start + spec_wrap_row(row, 0, 0) + seq!['\n']);
                assert(spec_ppm_rows(*self, y as int) == spec_wrap_row(row, 0, 0) + seq!['\n']
                    + spec_ppm_rows(*self, y as int + 1));
                assert(buffer@.skip(header.len() as int) =~= row_start.skip(header.len() as int)
                    + spec_wrap_row(row, 0, 0) + seq!['\n']);
                assert(buffer@.subrange(0, header.len() as int) =~= header);
                assert(buffer@.skip(header.len() as int) + spec_ppm_rows(*self, y as int + 1)
                    =~= spec_ppm_rows(*self, 0));
            }
            y = y + 1;
        }
        proof {
            assert(spec_ppm_rows(*self, self.height as int) =~= Seq::<char>::empty());
            assert(buffer@ =~= header + spec_ppm_rows(*self, 0));
        }
        buffer.append("\n");
        proof {
            reveal_strlit("\n");
            assert(buffer@ =~= spec_to_ppm(*self));
        }
        buffer
    }
}

/// A whole pixel row lies inside the buffer.
proof fn lemma_row_bounds(y: int, width: int, height: int)
    requires
        0 <= y < height,
        width >= 0,
    ensures
        0 <= y * width,
        y * width + width <= width * height,
{
    assert(y * width >= 0 && y * width + width <= width * height) by (nonlinear_arith)
        requires
            0 <= y < height,
            width >= 0,
    ;
}

/// A pixel's cell index lies inside the buffer, and its whole row does.
proof fn lemma_pixel_index(x: int, y: int, width: int, height: int)
    requires
        0 <= x < width,
        0 <= y < height,
    ensures
        0 <= x + y * width < width * height,
        0 <= y * width,
        y * width + width <= width * height,
{
    assert(x + y * width < width * height && y * width >= 0 && y * width + width <= width
        * height) by (nonlinear_arith)
        requires
            0 <= x < width,
            0 <= y < height,
    ;
}

} // verus!
