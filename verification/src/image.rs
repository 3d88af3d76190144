//! Image elements to be embedded in other controls.

use vstd::prelude::*;
use crate::codec::dec_digits;
use crate::codec::format_u32;
use crate::codec::lemma_dec_digits_injective;
use crate::codec::rgb_text;
use crate::element::Elem;
use crate::element::Element;

verus! {

/// Pixels given row by row, as the `ImageElement::with` constructor takes them.
pub struct InPixels<T>(pub Vec<Vec<T>>);

/// Whether every row has the same length as the first.
pub open spec fn rows_rect<T>(rows: Seq<Vec<T>>) -> bool {
    forall|i: int| 0 <= i < rows.len() ==> (#[trigger] rows[i])@.len() == rows[0]@.len()
}

/// The rows laid out one after another, top row first.
pub open spec fn flat_spec<T>(rows: Seq<Vec<T>>) -> Seq<T>
    decreases rows.len(),
{
    if rows.len() == 0 {
        Seq::<T>::empty()
    } else {
        flat_spec(rows.drop_last()) + rows.last()@
    }
}

pub proof fn lemma_flat_len<T>(rows: Seq<Vec<T>>, w: int)
    requires
        forall|i: int| 0 <= i < rows.len() ==> (#[trigger] rows[i])@.len() == w,
    ensures
        flat_spec(rows).len() == rows.len() * w,
    decreases rows.len(),
{
    if rows.len() == 0 {
    } else {
        lemma_flat_len(rows.drop_last(), w);
        assert(flat_spec(rows) == flat_spec(rows.drop_last()) + rows.last()@);
        assert((rows.len() - 1) * w + w == rows.len() as int * w) by (nonlinear_arith);
    }
}

fn flatten_rows_u8(rows: &Vec<Vec<u8>>) -> (r: Vec<u8>)
    ensures
        r@ == flat_spec(rows@),
{
    let mut out: Vec<u8> = Vec::new();
    let n = rows.len();
    let mut i: usize = 0;
    proof {
        assert(rows@.subrange(0, 0) =~= Seq::<Vec<u8>>::empty());
    }
    while i < n
        invariant
            i <= n,
            n == rows@.len(),
            out@ == flat_spec(rows@.subrange(0, i as int)),
        decreases n - i,
    {
        let row = &rows[i];
        let m = row.len();
        let mut j: usize = 0;
        while j < m
            invariant
                j <= m,
                i < n,
                n == rows@.len(),
                m == rows@[i as int]@.len(),
                out@ == flat_spec(rows@.subrange(0, i as int)) + rows@[i as int]@.subrange(
                    0,
                    j as int,
                ),
            decreases m - j,
        {
            out.push(rows[i][j]);
            proof {
                assert(rows@[i as int]@.subrange(0, j as int + 1) =~= rows@[i as int]@.subrange(
                    0,
                    j as int,
                ).push(rows@[i as int]@[j as int]));
                assert(out@ =~= flat_spec(rows@.subrange(0, i as int)) + rows@[i as int]@.subrange(
                    0,
                    j as int + 1,
                ));
            }
            j = j + 1;
        }
        proof {
            let pre = rows@.subrange(0, i as int + 1);
            assert(pre.drop_last() =~= rows@.subrange(0, i as int));
            assert(pre.last() == rows@[i as int]);
            assert(rows@[i as int]@.subrange(0, m as int) =~= rows@[i as int]@);
            assert(out@ =~= flat_spec(pre));
        }
        i = i + 1;
    }
    proof {
        assert(rows@.subrange(0, n as int) =~= rows@);
    }
    out
}


fn flatten_rows_rgb(rows: &Vec<Vec<(u8, u8, u8)>>) -> (r: Vec<(u8, u8, u8)>)
    ensures
        r@ == flat_spec(rows@),
{
    let mut out: Vec<(u8, u8, u8)> = Vec::new();
    let n = rows.len();
    let mut i: usize = 0;
    proof {
        assert(rows@.subrange(0, 0) =~= Seq::<Vec<(u8, u8, u8)>>::empty());
    }
    while i < n
        invariant
            i <= n,
            n == rows@.len(),
            out@ == flat_spec(rows@.subrange(0, i as int)),
        decreases n - i,
    {
        let row = &rows[i];
        let m = row.len();
        let mut j: usize = 0;
        while j < m
            invariant
                j <= m,
                i < n,
                n == rows@.len(),
                m == rows@[i as int]@.len(),
                out@ == flat_spec(rows@.subrange(0, i as int)) + rows@[i as int]@.subrange(
                    0,
                    j as int,
                ),
            decreases m - j,
        {
            out.push(rows[i][j]);
            proof {
                assert(rows@[i as int]@.subrange(0, j as int + 1) =~= rows@[i as int]@.subrange(
                    0,
                    j as int,
                ).push(rows@[i as int]@[j as int]));
                assert(out@ =~= flat_spec(rows@.subrange(0, i as int)) + rows@[i as int]@.subrange(
                    0,
                    j as int + 1,
                ));
            }
            j = j + 1;
        }
        proof {
            let pre = rows@.subrange(0, i as int + 1);
            assert(pre.drop_last() =~= rows@.subrange(0, i as int));
            assert(pre.last() == rows@[i as int]);
            assert(rows@[i as int]@.subrange(0, m as int) =~= rows@[i as int]@);
            assert(out@ =~= flat_spec(pre));
        }
        i = i + 1;
    }
    proof {
        assert(rows@.subrange(0, n as int) =~= rows@);
    }
    out
}


fn flatten_rows_rgba(rows: &Vec<Vec<(u8, u8, u8, u8)>>) -> (r: Vec<(u8, u8, u8, u8)>)
    ensures
        r@ == flat_spec(rows@),
{
    let mut out: Vec<(u8, u8, u8, u8)> = Vec::new();
    let n = rows.len();
    let mut i: usize = 0;
    proof {
        assert(rows@.subrange(0, 0) =~= Seq::<Vec<(u8, u8, u8, u8)>>::empty());
    }
    while i < n
        invariant
            i <= n,
            n == rows@.len(),
            out@ == flat_spec(rows@.subrange(0, i as int)),
        decreases n - i,
    {
        let row = &rows[i];
        let m = row.len();
        let mut j: usize = 0;
        while j < m
            invariant
                j <= m,
                i < n,
                n == rows@.len(),
                m == rows@[i as int]@.len(),
                out@ == flat_spec(rows@.subrange(0, i as int)) + rows@[i as int]@.subrange(
                    0,
                    j as int,
                ),
            decreases m - j,
        {
            out.push(rows[i][j]);
            proof {
                assert(rows@[i as int]@.subrange(0, j as int + 1) =~= rows@[i as int]@.subrange(
                    0,
                    j as int,
                ).push(rows@[i as int]@[j as int]));
                assert(out@ =~= flat_spec(rows@.subrange(0, i as int)) + rows@[i as int]@.subrange(
                    0,
                    j as int + 1,
                ));
            }
            j = j + 1;
        }
        proof {
            let pre = rows@.subrange(0, i as int + 1);
            assert(pre.drop_last() =~= rows@.subrange(0, i as int));
            assert(pre.last() == rows@[i as int]);
            assert(rows@[i as int]@.subrange(0, m as int) =~= rows@[i as int]@);
            assert(out@ =~= flat_spec(pre));
        }
        i = i + 1;
    }
    proof {
        assert(rows@.subrange(0, n as int) =~= rows@);
    }
    out
}


fn clone_pixels_u8(v: &Vec<u8>) -> (r: Vec<u8>)
    ensures
        r@ == v@,
{
    let mut out: Vec<u8> = Vec::new();
    let n = v.len();
    let mut i: usize = 0;
    while i < n
        invariant
            i <= n,
            n == v@.len(),
            out@.len() == i,
            forall|j: int| 0 <= j < i ==> #[trigger] out@[j] == v@[j],
        decreases n - i,
    {
        out.push(v[i]);
        i = i + 1;
    }
    proof {
        assert(out@ =~= v@);
    }
    out
}


fn clone_pixels_rgb(v: &Vec<(u8, u8, u8)>) -> (r: Vec<(u8, u8, u8)>)
    ensures
        r@ == v@,
{
    let mut out: Vec<(u8, u8, u8)> = Vec::new();
    let n = v.len();
    let mut i: usize = 0;
    while i < n
        invariant
            i <= n,
            n == v@.len(),
            out@.len() == i,
            forall|j: int| 0 <= j < i ==> #[trigger] out@[j] == v@[j],
        decreases n - i,
    {
        out.push(v[i]);
        i = i + 1;
    }
    proof {
        assert(out@ =~= v@);
    }
    out
}


fn clone_pixels_rgba(v: &Vec<(u8, u8, u8, u8)>) -> (r: Vec<(u8, u8, u8, u8)>)
    ensures
        r@ == v@,
{
    let mut out: Vec<(u8, u8, u8, u8)> = Vec::new();
    let n = v.len();
    let mut i: usize = 0;
    while i < n
        invariant
            i <= n,
            n == v@.len(),
            out@.len() == i,
            forall|j: int| 0 <= j < i ==> #[trigger] out@[j] == v@[j],
        decreases n - i,
    {
        out.push(v[i]);
        i = i + 1;
    }
    proof {
        assert(out@ =~= v@);
    }
    out
}
/// An element holding image data of some pixel type.
pub trait ImageElement: Element {
    /// The type of a single pixel of this image.
    type Pixel;

    spec fn spec_width(&self) -> u32;

    spec fn spec_height(&self) -> u32;

    spec fn spec_pixels(&self) -> Seq<Self::Pixel>;

    /// An image of the given dimensions from a flat pixel array.
    fn new(width: u32, height: u32, pixels: Vec<Self::Pixel>) -> (r: Self)
        requires
            width as int * height as int == pixels@.len(),
        ensures
            r.spec_width() == width,
            r.spec_height() == height,
            r.spec_pixels() == pixels@,
            r.spec_elem().wf(),
            r.spec_elem().abs().attrs == Map::<Seq<char>, Seq<char>>::empty(),
            !r.spec_elem().abs().mapped,
    ;

    /// An image from pixels given row by row.  Every row must have the
    /// same length.
    fn with(px: InPixels<Self::Pixel>) -> (r: Self)
        requires
            rows_rect(px.0@),
            px.0@.len() <= u32::MAX,
            px.0@.len() == 0 || px.0@[0]@.len() <= u32::MAX,
        ensures
            r.spec_height() == px.0@.len(),
            r.spec_width() as int == (if px.0@.len() == 0 { 0int } else { px.0@[0]@.len() as int }),
            r.spec_pixels() == flat_spec(px.0@),
            r.spec_elem().wf(),
            r.spec_elem().abs().attrs == Map::<Seq<char>, Seq<char>>::empty(),
            !r.spec_elem().abs().mapped,
    ;
}

/// The palette attributes after assigning the first `n` colors: color `i`
/// is stored under the numeral of `i` as an `R G B` triple.
pub open spec fn apply_colors(
    m: Map<Seq<char>, Seq<char>>,
    colors: Seq<(u8, u8, u8)>,
    n: int,
) -> Map<Seq<char>, Seq<char>>
    decreases n,
{
    if n <= 0 {
        m
    } else {
        apply_colors(m, colors, n - 1).insert(
            dec_digits((n - 1) as nat),
            rgb_text(colors[n - 1].0, colors[n - 1].1, colors[n - 1].2),
        )
    }
}

/// Each assigned color can be read back from the palette attributes.
pub proof fn lemma_apply_colors_at(
    m: Map<Seq<char>, Seq<char>>,
    colors: Seq<(u8, u8, u8)>,
    n: int,
    i: int,
)
    requires
        0 <= i < n <= colors.len(),
    ensures
        apply_colors(m, colors, n).dom().contains(dec_digits(i as nat)),
        apply_colors(m, colors, n)[dec_digits(i as nat)] == rgb_text(
            colors[i].0,
            colors[i].1,
            colors[i].2,
        ),
    decreases n,
{
    if i == n - 1 {
    } else {
        lemma_apply_colors_at(m, colors, n - 1, i);
        if dec_digits((n - 1) as nat) == dec_digits(i as nat) {
            lemma_dec_digits_injective((n - 1) as nat, i as nat);
        }
    }
}

/// A one-channel image: each pixel is an index into a palette of colors.
pub struct Image {
    pub elem: Elem,
    pub width: u32,
    pub height: u32,
    pub pixels: Vec<u8>,
}

impl Image {
    /// Assigns the palette of colors the pixel indices refer to.
    ///
    /// Color `i` goes into the attribute named by the numeral of `i`.
    pub fn set_colors(&mut self, colors: &Vec<(u8, u8, u8)>) -> (r: Image)
        requires
            old(self).elem.wf(),
            colors@.len() < 256,
        ensures
            final(self).elem.wf(),
            final(self).elem.abs().attrs == apply_colors(
                old(self).elem.abs().attrs,
                colors@,
                colors@.len() as int,
            ),
            final(self).elem.abs().mapped == old(self).elem.abs().mapped,
            final(self).width == old(self).width,
            final(self).height == old(self).height,
            final(self).pixels == old(self).pixels,
            r.elem.abs() == final(self).elem.abs(),
    {
        let n = colors.len();
        let mut i: usize = 0;
        while i < n
            invariant
                i <= n,
                n == colors@.len(),
                n < 256,
                self.elem.wf(),
                self.elem.abs().attrs == apply_colors(old(self).elem.abs().attrs, colors@, i as int),
                self.elem.abs().mapped == old(self).elem.abs().mapped,
                self.width == old(self).width,
                self.height == old(self).height,
                self.pixels == old(self).pixels,
            decreases n - i,
        {
            let name = format_u32(i as u32);
            self.elem.set_attrib_rgb(name.as_str(), colors[i]);
            i = i + 1;
        }
        self.dup()
    }
}

impl Element for Image {
    open spec fn spec_elem(&self) -> Elem {
        self.elem
    }

    open spec fn classname_spec() -> Seq<char> {
        "image"@
    }

    fn target_classname() -> (r: &'static str) {
        "image"
    }

    fn elem(&self) -> (r: &Elem) {
        &self.elem
    }

    fn from_elem(e: Elem) -> (r: Image) {
        Image { elem: e, width: 0, height: 0, pixels: Vec::new() }
    }

    fn dup(&self) -> (r: Image)
        ensures
            r.width == self.width,
            r.height == self.height,
            r.pixels@ == self.pixels@,
    {
        let px = clone_pixels_u8(&self.pixels);
        Image { elem: self.elem.clone(), width: self.width, height: self.height, pixels: px }
    }
}

impl ImageElement for Image {
    type Pixel = u8;

    open spec fn spec_width(&self) -> u32 {
        self.width
    }

    open spec fn spec_height(&self) -> u32 {
        self.height
    }

    open spec fn spec_pixels(&self) -> Seq<u8> {
        self.pixels@
    }

    fn new(width: u32, height: u32, pixels: Vec<u8>) -> (r: Image) {
        Image { elem: Elem::new(), width, height, pixels }
    }

    fn with(px: InPixels<u8>) -> (r: Image) {
        let rows = px.0;
        let height = rows.len();
        let width: usize = if height == 0 { 0 } else { rows[0].len() };
        let flat = flatten_rows_u8(&rows);
        proof {
            lemma_flat_len(rows@, width as int);
            assert(width as int * height as int == height as int * width as int)
                by (nonlinear_arith);
        }
        <Image as ImageElement>::new(width as u32, height as u32, flat)
    }
}

/// A three-channel image of RGB pixels.
pub struct ImageRgb {
    pub elem: Elem,
    pub width: u32,
    pub height: u32,
    pub pixels: Vec<(u8, u8, u8)>,
}

impl Element for ImageRgb {
    open spec fn spec_elem(&self) -> Elem {
        self.elem
    }

    open spec fn classname_spec() -> Seq<char> {
        "imagergb"@
    }

    fn target_classname() -> (r: &'static str) {
        "imagergb"
    }

    fn elem(&self) -> (r: &Elem) {
        &self.elem
    }

    fn from_elem(e: Elem) -> (r: ImageRgb) {
        ImageRgb { elem: e, width: 0, height: 0, pixels: Vec::new() }
    }

    fn dup(&self) -> (r: ImageRgb)
        ensures
            r.width == self.width,
            r.height == self.height,
            r.pixels@ == self.pixels@,
    {
        let px = clone_pixels_rgb(&self.pixels);
        ImageRgb { elem: self.elem.clone(), width: self.width, height: self.height, pixels: px }
    }
}

impl ImageElement for ImageRgb {
    type Pixel = (u8, u8, u8);

    open spec fn spec_width(&self) -> u32 {
        self.width
    }

    open spec fn spec_height(&self) -> u32 {
        self.height
    }

    open spec fn spec_pixels(&self) -> Seq<(u8, u8, u8)> {
        self.pixels@
    }

    fn new(width: u32, height: u32, pixels: Vec<(u8, u8, u8)>) -> (r: ImageRgb) {
        ImageRgb { elem: Elem::new(), width, height, pixels }
    }

    fn with(px: InPixels<(u8, u8, u8)>) -> (r: ImageRgb) {
        let rows = px.0;
        let height = rows.len();
        let width: usize = if height == 0 { 0 } else { rows[0].len() };
        let flat = flatten_rows_rgb(&rows);
        proof {
            lemma_flat_len(rows@, width as int);
            assert(width as int * height as int == height as int * width as int)
                by (nonlinear_arith);
        }
        <ImageRgb as ImageElement>::new(width as u32, height as u32, flat)
    }
}

/// A four-channel image of RGBA pixels.
pub struct ImageRgba {
    pub elem: Elem,
    pub width: u32,
    pub height: u32,
    pub pixels: Vec<(u8, u8, u8, u8)>,
}

impl Element for ImageRgba {
    open spec fn spec_elem(&self) -> Elem {
        self.elem
    }

    open spec fn classname_spec() -> Seq<char> {
        "imagergba"@
    }

    fn target_classname() -> (r: &'static str) {
        "imagergba"
    }

    fn elem(&self) -> (r: &Elem) {
        &self.elem
    }

    fn from_elem(e: Elem) -> (r: ImageRgba) {
        ImageRgba { elem: e, width: 0, height: 0, pixels: Vec::new() }
    }

    fn dup(&self) -> (r: ImageRgba)
        ensures
            r.width == self.width,
            r.height == self.height,
            r.pixels@ == self.pixels@,
    {
        let px = clone_pixels_rgba(&self.pixels);
        ImageRgba { elem: self.elem.clone(), width: self.width, height: self.height, pixels: px }
    }
}

impl ImageElement for ImageRgba {
    type Pixel = (u8, u8, u8, u8);

    open spec fn spec_width(&self) -> u32 {
        self.width
    }

    open spec fn spec_height(&self) -> u32 {
        self.height
    }

    open spec fn spec_pixels(&self) -> Seq<(u8, u8, u8, u8)> {
        self.pixels@
    }

    fn new(width: u32, height: u32, pixels: Vec<(u8, u8, u8, u8)>) -> (r: ImageRgba) {
        ImageRgba { elem: Elem::new(), width, height, pixels }
    }

    fn with(px: InPixels<(u8, u8, u8, u8)>) -> (r: ImageRgba) {
        let rows = px.0;
        let height = rows.len();
        let width: usize = if height == 0 { 0 } else { rows[0].len() };
        let flat = flatten_rows_rgba(&rows);
        proof {
            lemma_flat_len(rows@, width as int);
            assert(width as int * height as int == height as int * width as int)
                by (nonlinear_arith);
        }
        <ImageRgba as ImageElement>::new(width as u32, height as u32, flat)
    }
}

} // verus!
