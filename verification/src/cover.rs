//! Album covers: decoding a picture, choosing the cover among a file's
//! embedded pictures, and laying a picture out as half-block cells, two
//! pixel rows per text row.
use vstd::prelude::*;

verus! {

/// A picture as rows of red, green and blue bytes, left to right and top to
/// bottom.
pub struct RgbPicture {
    pub width: u32,
    pub height: u32,
    pub pixels: Vec<u8>,
}

impl RgbPicture {
    /// At least one pixel, and three bytes for each.
    pub open spec fn wf(&self) -> bool {
        &&& self.width > 0
        &&& self.height > 0
        &&& self.pixels@.len() == self.width * self.height * 3
    }

    pub open spec fn as_triple(&self) -> (u32, u32, Seq<u8>) {
        (self.width, self.height, self.pixels@)
    }
}

/// Why no cover could be had.
#[derive(Debug, Clone, Copy, PartialEq, Eq, Structural)]
pub enum CoverError {
    /// The file holds no front cover and no picture of type "other".
    NoArtwork,
    /// The bytes are no picture that can be decoded, or an empty one.
    Undecodable,
}

/// What `image::load_from_memory` decodes from the bytes, as width, height
/// and RGB bytes; `None` where it fails.
pub uninterp spec fn decoded_rgb(bytes: Seq<u8>) -> Option<(u32, u32, Seq<u8>)>;

/// Decodes a picture of any format that `image` reads, in RGB.
///
/// Trusted: calls `image::load_from_memory` and converts the result with
/// `DynamicImage::to_rgb8`. The result is named by `decoded_rgb`; the RGB
/// buffer that `to_rgb8` makes holds exactly three bytes per pixel.
#[verifier::external_body]
fn decode_rgb(bytes: &[u8]) -> (r: Option<RgbPicture>)
    ensures
        match r {
            Some(p) => decoded_rgb(bytes@) == Some(p.as_triple()) && p.pixels@.len() == p.width
                * p.height * 3,
            None => decoded_rgb(bytes@) is None,
        },
{
    match image::load_from_memory(bytes) {
        Ok(img) => {
            let rgb = img.to_rgb8();
            Some(RgbPicture { width: rgb.width(), height: rgb.height(), pixels: rgb.into_raw() })
        },
        Err(_) => None,
    }
}

/// What `DynamicImage::resize` with the triangle filter makes of the
/// picture: scaled, keeping its proportions, to fit a box of the given width
/// and height.
pub uninterp spec fn resized_rgb(width: u32, height: u32, pixels: Seq<u8>, box_w: u32, box_h: u32) -> (
    u32,
    u32,
    Seq<u8>,
);

/// Scales the picture to fit the box, keeping its proportions.
///
/// Trusted: calls `DynamicImage::resize` with `FilterType::Triangle` on the
/// picture and converts back with `to_rgb8`. The result is named by
/// `resized_rgb`; `resize` gives each side at least one pixel, and the
/// buffer holds three bytes per pixel. The box stays within what a terminal
/// gives, so that the buffer can be allocated.
#[verifier::external_body]
fn resize_rgb(p: &RgbPicture, box_w: u32, box_h: u32) -> (r: RgbPicture)
    requires
        p.wf(),
        box_w <= 0xffff,
        box_h <= 0x1fffe,
    ensures
        r.as_triple() == resized_rgb(p.width, p.height, p.pixels@, box_w, box_h),
        r.wf(),
{
    let buf = image::RgbImage::from_raw(p.width, p.height, p.pixels.clone()).unwrap_or_default();
    let img = image::DynamicImage::ImageRgb8(buf);
    let out = img.resize(box_w, box_h, image::imageops::FilterType::Triangle).to_rgb8();
    RgbPicture { width: out.width(), height: out.height(), pixels: out.into_raw() }
}

/// The decoded picture, where there is one with at least one pixel.
pub open spec fn decoded_picture(bytes: Seq<u8>) -> Option<(u32, u32, Seq<u8>)> {
    match decoded_rgb(bytes) {
        Some((w, h, px)) => if w > 0 && h > 0 {
            Some((w, h, px))
        } else {
            None
        },
        None => None,
    }
}

/// Decodes downloaded or embedded picture bytes.
pub fn decode_picture(bytes: &[u8]) -> (r: Result<RgbPicture, CoverError>)
    ensures
        match r {
            Ok(p) => decoded_picture(bytes@) == Some(p.as_triple()) && p.wf(),
            Err(e) => decoded_picture(bytes@) is None && e == CoverError::Undecodable,
        },
{
    match decode_rgb(bytes) {
        Some(p) => {
            if p.width > 0 && p.height > 0 {
                Ok(p)
            } else {
                Err(CoverError::Undecodable)
            }
        },
        None => Err(CoverError::Undecodable),
    }
}

/// The index of the first picture marked as a front cover or "other".
pub open spec fn first_cover(marks: Seq<bool>) -> Option<int>
    decreases marks.len(),
{
    if marks.len() == 0 {
        None
    } else {
        match first_cover(marks.drop_last()) {
            Some(i) => Some(i),
            None => if marks.last() {
                Some(marks.len() - 1)
            } else {
                None
            },
        }
    }
}

proof fn lemma_first_cover(marks: Seq<bool>, i: int)
    requires
        0 <= i < marks.len(),
        forall|j: int| 0 <= j < i ==> !marks[j],
    ensures
        first_cover(marks.take(i)) is None,
        marks[i] ==> first_cover(marks.take(i + 1)) == Some(i),
        !marks[i] ==> first_cover(marks.take(i + 1)) is None,
    decreases i,
{
    if i > 0 {
        lemma_first_cover(marks, i - 1);
        assert(marks.take(i).drop_last() =~= marks.take(i - 1));
    } else {
        assert(marks.take(0) =~= Seq::<bool>::empty());
    }
    assert(marks.take(i + 1).drop_last() =~= marks.take(i));
}

/// The marks of the pictures: front cover or "other".
pub open spec fn cover_marks(pictures: Seq<(bool, Vec<u8>)>) -> Seq<bool> {
    Seq::new(pictures.len(), |i: int| pictures[i].0)
}

/// The cover among a file's embedded pictures, each given with whether it
/// is a front cover or of type "other" and its bytes: the first such
/// picture, decoded. `NoArtwork` where there is none; `Undecodable` where it
/// cannot be decoded.
pub fn embedded_cover(pictures: &Vec<(bool, Vec<u8>)>) -> (r: Result<RgbPicture, CoverError>)
    ensures
        match first_cover(cover_marks(pictures@)) {
            None => r == Err::<RgbPicture, CoverError>(CoverError::NoArtwork),
            Some(i) => match r {
                Ok(p) => decoded_picture(pictures@[i].1@) == Some(p.as_triple()) && p.wf(),
                Err(e) => decoded_picture(pictures@[i].1@) is None && e == CoverError::Undecodable,
            },
        },
{
    let ghost marks = cover_marks(pictures@);
    let mut i: usize = 0;
    while i < pictures.len()
        invariant
            i <= pictures.len(),
            marks == cover_marks(pictures@),
            forall|j: int| 0 <= j < i ==> !marks[j],
        decreases pictures.len() - i,
    {
        proof {
            lemma_first_cover(marks, i as int);
        }
        if pictures[i].0 {
            proof {
                lemma_first_cover_prefix(marks, i as int + 1);
            }
            return decode_picture(pictures[i].1.as_slice());
        }
        i = i + 1;
    }
    proof {
        if marks.len() > 0 {
            lemma_first_cover(marks, marks.len() - 1);
        }
        assert(marks.take(marks.len() as int) =~= marks);
    }
    Err(CoverError::NoArtwork)
}

/// Once a prefix has a first cover, every longer prefix has the same.
proof fn lemma_first_cover_prefix(marks: Seq<bool>, k: int)
    requires
        0 <= k <= marks.len(),
        first_cover(marks.take(k)) is Some,
    ensures
        first_cover(marks) == first_cover(marks.take(k)),
    decreases marks.len() - k,
{
    if k < marks.len() {
        assert(marks.take(k + 1).drop_last() =~= marks.take(k));
        lemma_first_cover_prefix(marks, k + 1);
    } else {
        assert(marks.take(k) =~= marks);
    }
}

/// One text cell of drawn art: the colour of its upper and of its lower
/// half.
pub type ArtCell = ((u8, u8, u8), (u8, u8, u8));

/// The pixel at column `x` and row `y`.
pub open spec fn pixel(pic: (u32, u32, Seq<u8>), x: int, y: int) -> (u8, u8, u8) {
    let i = (y * pic.0 + x) * 3;
    (pic.2[i], pic.2[i + 1], pic.2[i + 2])
}

/// The cell at column `x` of text row `row`: pixel rows `2·row` and
/// `2·row + 1`, the upper one again where the picture ends on an odd row.
pub open spec fn art_cell(pic: (u32, u32, Seq<u8>), x: int, row: int) -> ArtCell {
    let top = pixel(pic, x, 2 * row);
    (top, if 2 * row + 1 < pic.1 {
        pixel(pic, x, 2 * row + 1)
    } else {
        top
    })
}

/// The text rows that the picture takes: half its pixel rows, rounded up.
pub open spec fn text_rows(pic_height: u32) -> int {
    (pic_height as int + 1) / 2
}

/// The empty rows above the picture that centre it in `h` rows.
pub open spec fn top_padding(pic_height: u32, h: int) -> int {
    if h > text_rows(pic_height) {
        (h - text_rows(pic_height)) / 2
    } else {
        0
    }
}

/// The drawn picture: empty rows that centre it vertically in `h` rows,
/// then one row of cells per two pixel rows.
pub open spec fn art_lines(pic: (u32, u32, Seq<u8>), h: int) -> Seq<Seq<ArtCell>> {
    let pad = top_padding(pic.1, h);
    Seq::new(
        (pad + text_rows(pic.1)) as nat,
        |i: int|
            if i < pad {
                Seq::empty()
            } else {
                Seq::new(pic.0 as nat, |x: int| art_cell(pic, x, i - pad))
            },
    )
}

/// The album art for a box of `w` columns and `h` rows: the picture scaled
/// to fit `w` by `2·h` pixels keeping its proportions, centred vertically;
/// nothing for an empty box.
pub open spec fn art_of(pic: (u32, u32, Seq<u8>), w: u16, h: u16) -> Seq<Seq<ArtCell>> {
    if w == 0 || h == 0 {
        Seq::empty()
    } else {
        art_lines(resized_rgb(pic.0, pic.1, pic.2, w as u32, (2 * h) as u32), h as int)
    }
}

pub open spec fn lines_view(v: Seq<Vec<ArtCell>>) -> Seq<Seq<ArtCell>> {
    Seq::new(v.len(), |i: int| v[i]@)
}

proof fn lemma_index_in_range(w: int, h: int, x: int, y: int)
    requires
        0 <= x < w,
        0 <= y < h,
    ensures
        0 <= y * w,
        0 <= (y * w + x) * 3,
        (y * w + x) * 3 + 2 < w * h * 3,
{
    assert(y * w + x < (y + 1) * w) by (nonlinear_arith)
        requires
            x < w,
    ;
    assert((y + 1) * w <= h * w) by (nonlinear_arith)
        requires
            y < h,
            0 <= x < w,
    ;
    assert(0 <= y * w) by (nonlinear_arith)
        requires
            0 <= y,
            0 <= x < w,
    ;
}

fn pixel_at(pic: &RgbPicture, x: u32, y: u32) -> (r: (u8, u8, u8))
    requires
        pic.wf(),
        x < pic.width,
        y < pic.height,
    ensures
        r == pixel(pic.as_triple(), x as int, y as int),
{
    proof {
        lemma_index_in_range(pic.width as int, pic.height as int, x as int, y as int);
    }
    let n: usize = pic.pixels.len();
    assert(n as int == pic.pixels@.len());
    let i: usize = ((y as usize) * (pic.width as usize) + (x as usize)) * 3;
    (pic.pixels[i], pic.pixels[i + 1], pic.pixels[i + 2])
}

fn art_line(pic: &RgbPicture, row: u32) -> (r: Vec<ArtCell>)
    requires
        pic.wf(),
        (row as int) < text_rows(pic.height),
    ensures
        r@ == Seq::new(pic.width as nat, |x: int| art_cell(pic.as_triple(), x, row as int)),
{
    let mut cells: Vec<ArtCell> = Vec::new();
    let top_y: u32 = 2 * row;
    let mut x: u32 = 0;
    while x < pic.width
        invariant
            pic.wf(),
            x <= pic.width,
            top_y == 2 * row,
            (top_y as int) < pic.height,
            cells@ == Seq::new(x as nat, |c: int| art_cell(pic.as_triple(), c, row as int)),
        decreases pic.width - x,
    {
        let top = pixel_at(pic, x, top_y);
        let bottom = if top_y + 1 < pic.height {
            pixel_at(pic, x, top_y + 1)
        } else {
            top
        };
        cells.push((top, bottom));
        x = x + 1;
        assert(cells@ =~= Seq::new(x as nat, |c: int| art_cell(pic.as_triple(), c, row as int)));
    }
    cells
}

/// The album art for a box of `w` columns and `h` text rows, as rows of
/// half-block cells (see `art_of`).
pub fn art_rows(p: &RgbPicture, w: u16, h: u16) -> (r: Vec<Vec<ArtCell>>)
    requires
        p.wf(),
    ensures
        lines_view(r@) == art_of(p.as_triple(), w, h),
{
    if w == 0 || h == 0 {
        let r: Vec<Vec<ArtCell>> = Vec::new();
        assert(lines_view(r@) =~= Seq::<Seq<ArtCell>>::empty());
        return r;
    }
    let small = resize_rgb(p, w as u32, 2 * (h as u32));
    let ghost pic = small.as_triple();
    let rows: u32 = small.height / 2 + small.height % 2;
    assert(rows as int == text_rows(small.height));
    let pad: u32 = if (h as u32) > rows {
        ((h as u32) - rows) / 2
    } else {
        0
    };
    assert(pad as int == top_padding(small.height, h as int));
    let mut out: Vec<Vec<ArtCell>> = Vec::new();
    let mut i: u32 = 0;
    while i < pad
        invariant
            i <= pad,
            small.wf(),
            lines_view(out@) == art_lines(pic, h as int).take(i as int),
            pad as int == top_padding(small.height, h as int),
            pic == small.as_triple(),
            rows as int == text_rows(small.height),
        decreases pad - i,
    {
        let ghost before = lines_view(out@);
        let empty: Vec<ArtCell> = Vec::new();
        assert(empty@ =~= Seq::<ArtCell>::empty());
        out.push(empty);
        assert(art_lines(pic, h as int)[i as int] == Seq::<ArtCell>::empty());
        assert(lines_view(out@) =~= before.push(Seq::<ArtCell>::empty()));
        i = i + 1;
        assert(lines_view(out@) =~= art_lines(pic, h as int).take(i as int));
    }
    let mut row: u32 = 0;
    while row < rows
        invariant
            row <= rows,
            small.wf(),
            lines_view(out@) == art_lines(pic, h as int).take(pad + row),
            pad as int == top_padding(small.height, h as int),
            pic == small.as_triple(),
            rows as int == text_rows(small.height),
        decreases rows - row,
    {
        let line = art_line(&small, row);
        let ghost before = lines_view(out@);
        let ghost cells = line@;
        out.push(line);
        assert(art_lines(pic, h as int)[pad + row] == cells);
        assert(lines_view(out@) =~= before.push(cells));
        row = row + 1;
        assert(lines_view(out@) =~= art_lines(pic, h as int).take(pad + row));
    }
    assert(art_lines(pic, h as int).take(pad + rows) =~= art_lines(pic, h as int));
    out
}

/// The picture can be drawn: it has pixels, three bytes each.
pub fn is_drawable(p: &RgbPicture) -> (r: bool)
    ensures
        r == p.wf(),
{
    let w = p.width as u128;
    let h = p.height as u128;
    assert(w * h <= 0xffff_ffff * 0xffff_ffffu128) by (nonlinear_arith)
        requires
            w <= 0xffff_ffff,
            h <= 0xffff_ffff,
    ;
    p.width > 0 && p.height > 0 && (p.pixels.len() as u128) == w * h * 3
}

} // verus!
