use vstd::prelude::*;

verus! {

/// Row-major RGBA pixel buffer that the scanline renderer fills one row at a
/// time.  Every pixel occupies four consecutive bytes; the byte length of the
/// buffer is always exactly `4 * width * height`.
pub struct Image {
    height: u32,
    width: u32,
    data: Vec<u8>,
}

impl View for Image {
    type V = Seq<u8>;

    closed spec fn view(&self) -> Seq<u8> {
        self.data@
    }
}

impl Image {
    pub closed spec fn spec_width(self) -> u32 {
        self.width
    }

    pub closed spec fn spec_height(self) -> u32 {
        self.height
    }

    /// Shape invariant of the buffer: one RGBA quadruple for each of the
    /// `width * height` pixels, and a total byte count that stays inside
    /// `u32` index arithmetic.
    pub open spec fn wf(self) -> bool {
        &&& self@.len() == 4 * self.spec_width() * self.spec_height()
        &&& 4 * self.spec_width() * self.spec_height() <= u32::MAX
    }

    /// First byte of pixel `(x, y)` in the row-major layout.
    pub open spec fn pixel_start(self, x: u32, y: u32) -> int {
        4 * (y * self.spec_width() + x)
    }

    /// Fresh all-black (and fully transparent) buffer of the given dimensions.
    pub fn new(width: u32, height: u32) -> (image: Image)
        requires
            4 * width * height <= u32::MAX,
        ensures
            image.wf(),
            image.spec_width() == width,
            image.spec_height() == height,
            image@.len() == 4 * width * height,
            forall|k: int| 0 <= k < image@.len() ==> image@[k] == 0u8,
    {
        proof {
            assert(width * height * 4 == 4 * width * height) by (nonlinear_arith);
        }
        let size: u32 = width * height * 4;
        let mut data: Vec<u8> = Vec::new();
        let mut filled: u32 = 0;
        while filled < size
            invariant
                filled <= size,
                data@.len() == filled,
                forall|k: int| 0 <= k < data@.len() ==> data@[k] == 0u8,
            decreases size - filled,
        {
            data.push(0);
            filled = filled + 1;
        }
        Image { height, width, data }
    }

    /// Copies the leading `4 * width` bytes of `line` into row `line_number`,
    /// leaving every other row untouched.
    pub fn set_line(&mut self, line_number: u32, line: Vec<u8>)
        requires
            old(self).wf(),
            line_number < old(self).spec_height(),
            line@.len() >= 4 * old(self).spec_width(),
        ensures
            final(self).wf(),
            final(self).spec_width() == old(self).spec_width(),
            final(self).spec_height() == old(self).spec_height(),
            forall|k: int|
                0 <= k < final(self)@.len() ==> final(self)@[k] == (if old(self).pixel_start(
                    0,
                    line_number,
                ) <= k < old(self).pixel_start(0, line_number) + 4 * old(self).spec_width() {
                    line@[k - old(self).pixel_start(0, line_number)]
                } else {
                    old(self)@[k]
                }),
    {
        proof {
            let w: int = old(self).spec_width() as int;
            let h: int = old(self).spec_height() as int;
            assert(4 * w <= 4 * w * h) by (nonlinear_arith)
                requires
                    w >= 0,
                    h >= 1,
            ;
        }
        let width: u32 = self.width;
        let mut x: u32 = 0;
        while x < width
            invariant
                4 * width <= u32::MAX,
                self.wf(),
                self.spec_width() == old(self).spec_width(),
                self.spec_height() == old(self).spec_height(),
                width == old(self).spec_width(),
                x <= width,
                line_number < old(self).spec_height(),
                line@.len() >= 4 * old(self).spec_width(),
                forall|k: int|
                    0 <= k < self@.len() ==> self@[k] == (if old(self).pixel_start(0, line_number)
                        <= k < old(self).pixel_start(0, line_number) + 4 * x {
                        line@[k - old(self).pixel_start(0, line_number)]
                    } else {
                        old(self)@[k]
                    }),
            decreases width - x,
        {
            let i: usize = x as usize;
            self.set_pixel(
                x,
                line_number,
                (line[4 * i], line[4 * i + 1], line[4 * i + 2], line[4 * i + 3]),
            );
            x = x + 1;
        }
    }

    /// Overwrites the four bytes of pixel `(x, y)` with the given RGBA values.
    pub fn set_pixel(&mut self, x: u32, y: u32, rgba: (u8, u8, u8, u8))
        requires
            old(self).wf(),
            x < old(self).spec_width(),
            y < old(self).spec_height(),
        ensures
            final(self).wf(),
            final(self).spec_width() == old(self).spec_width(),
            final(self).spec_height() == old(self).spec_height(),
            final(self)@[old(self).pixel_start(x, y)] == rgba.0,
            final(self)@[old(self).pixel_start(x, y) + 1] == rgba.1,
            final(self)@[old(self).pixel_start(x, y) + 2] == rgba.2,
            final(self)@[old(self).pixel_start(x, y) + 3] == rgba.3,
            forall|k: int|
                0 <= k < final(self)@.len() && !(old(self).pixel_start(x, y) <= k < old(
                    self,
                ).pixel_start(x, y) + 4) ==> final(self)@[k] == old(self)@[k],
            final(self)@.len() == old(self)@.len(),
    {
        proof {
            assert(y * self.spec_width() + x < self.spec_width() * self.spec_height()
                && 0 <= self.spec_width() * self.spec_height()
                && 4 * (self.spec_width() * self.spec_height()) == 4 * self.spec_width()
                * self.spec_height()) by (nonlinear_arith)
                requires
                    x < self.spec_width(),
                    y < self.spec_height(),
            ;
        }
        let i: usize = (y * self.width + x) as usize;
        self.data.set(4 * i, rgba.0);
        self.data.set(4 * i + 1, rgba.1);
        self.data.set(4 * i + 2, rgba.2);
        self.data.set(4 * i + 3, rgba.3);
    }

    /// Reads the four bytes of pixel `(x, y)`.
    pub fn get_pixel(&self, x: u32, y: u32) -> (rgba: [u8; 4])
        requires
            self.wf(),
            x < self.spec_width(),
            y < self.spec_height(),
        ensures
            rgba@.len() == 4,
            rgba@[0] == self@[self.pixel_start(x, y)],
            rgba@[1] == self@[self.pixel_start(x, y) + 1],
            rgba@[2] == self@[self.pixel_start(x, y) + 2],
            rgba@[3] == self@[self.pixel_start(x, y) + 3],
    {
        proof {
            assert(y * self.spec_width() + x < self.spec_width() * self.spec_height()
                && 0 <= self.spec_width() * self.spec_height()
                && 4 * (self.spec_width() * self.spec_height()) == 4 * self.spec_width()
                * self.spec_height()) by (nonlinear_arith)
                requires
                    x < self.spec_width(),
                    y < self.spec_height(),
            ;
        }
        let i: usize = (y * self.width + x) as usize;
        [self.data[4 * i], self.data[4 * i + 1], self.data[4 * i + 2], self.data[4 * i + 3]]
    }

    pub fn width(&self) -> (w: u32)
        ensures
            w == self.spec_width(),
    {
        self.width
    }

    pub fn height(&self) -> (h: u32)
        ensures
            h == self.spec_height(),
    {
        self.height
    }

    /// Borrow of the raw byte buffer, for consumers such as an image encoder.
    pub fn buf(&self) -> (buffer: &Vec<u8>)
        ensures
            buffer@ == self@,
    {
        &self.data
    }
}

} // verus!
