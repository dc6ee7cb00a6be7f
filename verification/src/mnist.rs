//! The in-memory form of the dataset files: a header, the raw payload, and
//! the labelled images cut out of a pair of them.

use vstd::prelude::*;

verus! {

/// The value a signed 32-bit field takes when it is stored in a `usize`:
/// itself when it is not negative, and its two's complement otherwise.
pub open spec fn widened(v: i32) -> int {
    if v >= 0 {
        v as int
    } else {
        usize::MAX + 1 + v
    }
}

/// Stores a signed 32-bit field in a `usize`.
pub fn widen(v: i32) -> (r: usize)
    ensures
        r as int == widened(v),
{
    if v >= 0 {
        v as usize
    } else {
        usize::MAX - ((-(v + 1)) as usize)
    }
}

/// The fields that follow the magic number of a dataset file. A file of
/// images gives the number of images and the two dimensions of each; a file
/// of labels gives only the number of labels.
#[derive(Debug, Clone, Copy, PartialEq, Eq)]
pub struct Header {
    pub count: usize,
    pub rows_number: Option<i32>,
    pub columns_number: Option<i32>,
}

impl Header {
    /// Both dimensions are present and their product is a 32-bit value.
    pub open spec fn has_size(&self) -> bool {
        &&& self.rows_number is Some
        &&& self.columns_number is Some
        &&& i32::MIN <= self.rows_number->0 * self.columns_number->0 <= i32::MAX
    }

    /// The number of pixels of one image: the product of the two dimensions,
    /// stored in a `usize`.
    pub open spec fn spec_size(&self) -> int
        recommends
            self.has_size(),
    {
        widened((self.rows_number->0 * self.columns_number->0) as i32)
    }

    /// The number of pixels of one image.
    pub fn size(&self) -> (r: usize)
        requires
            self.has_size(),
        ensures
            r as int == self.spec_size(),
    {
        let rows: i32 = self.rows_number.unwrap();
        let columns: i32 = self.columns_number.unwrap();
        widen(rows * columns)
    }

    /// The number of pixels of one image, or `None` where a dimension is
    /// missing or the product of the two is no 32-bit value.
    pub fn checked_size(&self) -> (r: Option<usize>)
        ensures
            match r {
                Some(size) => self.has_size() && size as int == self.spec_size(),
                None => !self.has_size(),
            },
    {
        match (self.rows_number, self.columns_number) {
            (Some(rows), Some(columns)) => {
                match rows.checked_mul(columns) {
                    Some(product) => Some(widen(product)),
                    None => None,
                }
            },
            _ => None,
        }
    }
}

/// A decoded dataset file: its header and the bytes that follow it.
#[derive(Debug, Clone, PartialEq, Eq)]
pub struct Data {
    pub header: Header,
    pub content: Vec<u8>,
}

/// One labelled example: the intensities of its pixels, row by row, each in
/// `0..=255`, and the class it belongs to.
#[derive(Debug, Clone, PartialEq, Eq)]
pub struct Image {
    pub pixels: Vec<u8>,
    pub label: u8,
}

} // verus!
