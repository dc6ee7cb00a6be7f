//! Decoding of the dataset files: a gzip stream that holds a magic number, a
//! header of big-endian 32-bit fields and a payload of raw bytes.

use byteorder::ByteOrder;
use vstd::prelude::*;

use crate::mnist::{widen, widened, Data, Header, Image};

verus! {

/// The magic number of a file of images.
pub const MAGIC_NUMBER_IMAGES_FILE: i32 = 2051;

/// The magic number of a file of labels.
pub const MAGIC_NUMBER_LABELS_FILE: i32 = 2049;

/// Why a pair of dataset files gave no dataset.
#[derive(Debug, Clone, Copy, PartialEq, Eq)]
pub enum DataError {
    /// The gzip decoder failed on the bytes.
    Corrupt,
    /// The bytes end before the last field of the header.
    Truncated,
    /// The file starts with a number that marks neither images nor labels.
    BadMagic(i32),
    /// Images are asked of a header that gives no dimensions.
    MissingDimensions,
    /// The product of the two dimensions is no 32-bit value.
    DimensionOverflow,
    /// The payload is shorter than the images the header announces.
    ContentTooShort,
}

/// The unsigned number that four bytes spell, most significant byte first.
pub open spec fn be_u32(bytes: Seq<u8>) -> int
    recommends
        bytes.len() == 4,
{
    bytes[0] * 0x100_0000 + bytes[1] * 0x1_0000 + bytes[2] * 0x100 + bytes[3]
}

/// The signed number that four bytes spell in two's complement, most
/// significant byte first.
pub open spec fn be_i32(bytes: Seq<u8>) -> i32
    recommends
        bytes.len() == 4,
{
    if be_u32(bytes) >= 0x8000_0000 {
        (be_u32(bytes) - 0x1_0000_0000) as i32
    } else {
        be_u32(bytes) as i32
    }
}

/// The 32-bit field that starts at byte `at` of `buf`.
pub open spec fn field(buf: Seq<u8>, at: int) -> i32
    recommends
        0 <= at,
        at + 4 <= buf.len(),
{
    be_i32(buf.subrange(at, at + 4))
}

/// `byteorder::BigEndian::read_i32`: the first four bytes of `buf` read as a
/// big-endian two's complement number. It panics on fewer than four bytes,
/// which the precondition excludes.
#[verifier::external_body]
fn read_be_i32(buf: &[u8]) -> (r: i32)
    requires
        buf@.len() >= 4,
    ensures
        r == be_i32(buf@.subrange(0, 4)),
{
    byteorder::BigEndian::read_i32(buf)
}

/// Reads the 32-bit field that starts at byte `at` of `buf`, or reports that
/// `buf` ends before the field does.
pub fn read_i32(buf: &[u8], at: usize) -> (r: Result<i32, DataError>)
    ensures
        at + 4 <= buf@.len() ==> r == Ok::<i32, DataError>(field(buf@, at as int)),
        at + 4 > buf@.len() ==> r == Err::<i32, DataError>(DataError::Truncated),
{
    if buf.len() < 4 || at > buf.len() - 4 {
        return Err(DataError::Truncated);
    }
    let tail = vstd::slice::slice_subrange(buf, at, at + 4);
    assert(tail@.subrange(0, 4) =~= buf@.subrange(at as int, at + 4));
    Ok(read_be_i32(tail))
}

/// The header that the fields after the magic number of a file of images
/// spell: the number of images, then the rows and the columns of each.
pub open spec fn images_header(fields: Seq<u8>) -> Result<Header, DataError> {
    if fields.len() < 12 {
        Err(DataError::Truncated)
    } else {
        Ok(
            Header {
                count: widened(field(fields, 0)) as usize,
                rows_number: Some(field(fields, 4)),
                columns_number: Some(field(fields, 8)),
            },
        )
    }
}

/// The header that the field after the magic number of a file of labels
/// spells: the number of labels.
pub open spec fn labels_header(fields: Seq<u8>) -> Result<Header, DataError> {
    if fields.len() < 4 {
        Err(DataError::Truncated)
    } else {
        Ok(
            Header {
                count: widened(field(fields, 0)) as usize,
                rows_number: None,
                columns_number: None,
            },
        )
    }
}

/// Decodes the header of a file of images from the bytes that follow its
/// magic number.
pub fn parse_images_header(fields: &[u8]) -> (r: Result<Header, DataError>)
    ensures
        r == images_header(fields@),
{
    let count: usize = widen(read_i32(fields, 0)?);
    let rows_number: i32 = read_i32(fields, 4)?;
    let columns_number: i32 = read_i32(fields, 8)?;
    Ok(Header { count, rows_number: Some(rows_number), columns_number: Some(columns_number) })
}

/// Decodes the header of a file of labels from the bytes that follow its
/// magic number.
pub fn parse_labels_header(fields: &[u8]) -> (r: Result<Header, DataError>)
    ensures
        r == labels_header(fields@),
{
    let count: usize = widen(read_i32(fields, 0)?);
    Ok(Header { count, rows_number: None, columns_number: None })
}

/// The header and the payload that the bytes of a dataset file spell.
pub open spec fn parsed(buf: Seq<u8>) -> Result<(Header, Seq<u8>), DataError> {
    if buf.len() < 4 {
        Err(DataError::Truncated)
    } else if field(buf, 0) == MAGIC_NUMBER_IMAGES_FILE {
        match images_header(buf.skip(4)) {
            Ok(header) => Ok((header, buf.skip(16))),
            Err(e) => Err(e),
        }
    } else if field(buf, 0) == MAGIC_NUMBER_LABELS_FILE {
        match labels_header(buf.skip(4)) {
            Ok(header) => Ok((header, buf.skip(8))),
            Err(e) => Err(e),
        }
    } else {
        Err(DataError::BadMagic(field(buf, 0)))
    }
}

/// Decodes a dataset file: the magic number decides which header follows,
/// and every byte after the header is payload.
pub fn parse_data(buf: Vec<u8>) -> (r: Result<Data, DataError>)
    ensures
        match r {
            Ok(data) => parsed(buf@) == Ok::<(Header, Seq<u8>), DataError>(
                (data.header, data.content@),
            ),
            Err(e) => parsed(buf@) == Err::<(Header, Seq<u8>), DataError>(e),
        },
{
    let bytes = buf.as_slice();
    let magic_number: i32 = read_i32(bytes, 0)?;
    let fields = vstd::slice::slice_subrange(bytes, 4, bytes.len());
    assert(fields@ =~= buf@.skip(4));
    if magic_number == MAGIC_NUMBER_IMAGES_FILE {
        let header = parse_images_header(fields)?;
        let content = vstd::slice::slice_to_vec(
            vstd::slice::slice_subrange(bytes, 16, bytes.len()),
        );
        assert(content@ =~= buf@.skip(16));
        Ok(Data { header, content })
    } else if magic_number == MAGIC_NUMBER_LABELS_FILE {
        let header = parse_labels_header(fields)?;
        let content = vstd::slice::slice_to_vec(
            vstd::slice::slice_subrange(bytes, 8, bytes.len()),
        );
        assert(content@ =~= buf@.skip(8));
        Ok(Data { header, content })
    } else {
        Err(DataError::BadMagic(magic_number))
    }
}

/// Why no images can be cut out of a payload of `content_len` bytes under
/// `header`, or `None` where they can. A header that announces no image asks
/// nothing of the payload.
pub open spec fn build_failure(header: Header, content_len: int) -> Option<DataError> {
    if header.count == 0 {
        None
    } else if header.rows_number is None || header.columns_number is None {
        Some(DataError::MissingDimensions)
    } else if !header.has_size() {
        Some(DataError::DimensionOverflow)
    } else if header.count * header.spec_size() > content_len {
        Some(DataError::ContentTooShort)
    } else {
        None
    }
}

/// The pixels of image `i` in a payload of images of `size` pixels each.
pub open spec fn image_pixels(content: Seq<u8>, size: int, i: int) -> Seq<u8> {
    content.subrange(i * size, i * size + size)
}

/// A dataset as plain values: the pixels and the label of each example.
pub open spec fn examples(dataset: Seq<Image>) -> Seq<(Seq<u8>, u8)> {
    Seq::new(dataset.len(), |i: int| (dataset[i].pixels@, dataset[i].label))
}

/// The dataset that a file of images and the payload of a file of labels
/// give together. Image `i` is the `i`-th run of pixels of the images'
/// payload and its label is byte `i` of the labels' payload; there is one
/// example for each image that has a label.
pub open spec fn built(images: Header, pixels: Seq<u8>, labels: Seq<u8>) -> Result<
    Seq<(Seq<u8>, u8)>,
    DataError,
> {
    match build_failure(images, pixels.len() as int) {
        Some(e) => Err(e),
        None => Ok(
            Seq::new(
                if images.count <= labels.len() {
                    images.count as nat
                } else {
                    labels.len()
                },
                |i: int| (image_pixels(pixels, images.spec_size(), i), labels[i]),
            ),
        ),
    }
}

/// Tells whether the images that `header` announces can be cut out of a
/// payload of `content_len` bytes.
pub fn check_images(header: &Header, content_len: usize) -> (r: Result<(), DataError>)
    ensures
        match r {
            Ok(_) => build_failure(*header, content_len as int) is None,
            Err(e) => build_failure(*header, content_len as int) == Some(e),
        },
{
    if header.count == 0 {
        return Ok(());
    }
    if header.rows_number.is_none() || header.columns_number.is_none() {
        return Err(DataError::MissingDimensions);
    }
    match header.checked_size() {
        None => Err(DataError::DimensionOverflow),
        Some(size) => {
            match header.count.checked_mul(size) {
                Some(needed) => {
                    if needed > content_len {
                        Err(DataError::ContentTooShort)
                    } else {
                        Ok(())
                    }
                },
                None => Err(DataError::ContentTooShort),
            }
        },
    }
}

/// Joins a file of images and a file of labels into a dataset. Images
/// without a label are left out, and so are payload bytes after the last
/// image; the header of the labels is not consulted.
pub fn build_dataset(images: Data, labels: Data) -> (r: Result<Vec<Image>, DataError>)
    ensures
        match r {
            Ok(dataset) => built(images.header, images.content@, labels.content@) == Ok::<
                Seq<(Seq<u8>, u8)>,
                DataError,
            >(examples(dataset@)),
            Err(e) => built(images.header, images.content@, labels.content@) == Err::<
                Seq<(Seq<u8>, u8)>,
                DataError,
            >(e),
        },
{
    check_images(&images.header, images.content.len())?;
    let size: usize = match images.header.checked_size() {
        Some(size) => size,
        None => 0,
    };
    let count: usize = if images.header.count <= labels.content.len() {
        images.header.count
    } else {
        labels.content.len()
    };
    let content_len: usize = images.content.len();
    assert(images.header.count * size <= content_len) by (nonlinear_arith)
        requires
            images.header.count == 0 || images.header.count * size <= content_len,
    ;
    let mut dataset: Vec<Image> = Vec::new();
    let mut i: usize = 0;
    while i < count
        invariant
            i <= count,
            count <= images.header.count,
            count <= labels.content@.len(),
            content_len == images.content@.len(),
            images.header.count * size <= content_len,
            dataset@.len() == i,
            forall|k: int|
                0 <= k < i ==> {
                    &&& (#[trigger] dataset@[k]).label == labels.content@[k]
                    &&& dataset@[k].pixels@ == image_pixels(images.content@, size as int, k)
                },
        decreases count - i,
    {
        assert(i * size + size <= content_len) by (nonlinear_arith)
            requires
                i < count,
                count <= images.header.count,
                images.header.count * size <= content_len,
        ;
        let start: usize = i * size;
        let end: usize = start + size;
        let pixels: Vec<u8> = vstd::slice::slice_to_vec(
            vstd::slice::slice_subrange(images.content.as_slice(), start, end),
        );
        dataset.push(Image { pixels, label: labels.content[i] });
        i += 1;
    }
    assert(built(images.header, images.content@, labels.content@)->Ok_0 =~= examples(dataset@));
    Ok(dataset)
}

/// `std::io::Error`, which the gzip decoder reports. Nothing is read from it.
#[verifier::external_type_specification]
#[verifier::external_body]
pub struct ExIoError(std::io::Error);

/// What reading a `flate2::read::GzDecoder` over `compressed` to its end
/// gives: `Some` of the bytes read where the read succeeds, `None` where it
/// fails.
pub uninterp spec fn gzip_decoded(compressed: Seq<u8>) -> Option<Seq<u8>>;

/// `flate2::read::GzDecoder::new` on the bytes, read to its end with
/// `std::io::Read::read_to_end`. The decoder works on the bytes alone, so
/// what it yields is a function of them; the contract gives that result its
/// name and claims nothing else of it.
#[verifier::external_body]
fn gzip_decode(compressed: &[u8]) -> (r: Result<Vec<u8>, std::io::Error>)
    ensures
        match r {
            Ok(payload) => gzip_decoded(compressed@) == Some(payload@),
            Err(_) => gzip_decoded(compressed@) is None,
        },
{
    let mut payload: Vec<u8> = Vec::new();
    let mut decoder = flate2::read::GzDecoder::new(compressed);
    match std::io::Read::read_to_end(&mut decoder, &mut payload) {
        Ok(_) => Ok(payload),
        Err(e) => Err(e),
    }
}

/// What `read_content` returns for what the decoder made of the bytes.
pub open spec fn content_of(decoded: Option<Seq<u8>>) -> Result<Seq<u8>, DataError> {
    match decoded {
        Some(payload) => Ok(payload),
        None => Err(DataError::Corrupt),
    }
}

/// Decompresses the bytes of a gzip file.
pub fn read_content(compressed: &[u8]) -> (r: Result<Vec<u8>, DataError>)
    ensures
        match r {
            Ok(payload) => content_of(gzip_decoded(compressed@)) == Ok::<Seq<u8>, DataError>(
                payload@,
            ),
            Err(e) => content_of(gzip_decoded(compressed@)) == Err::<Seq<u8>, DataError>(e),
        },
{
    match gzip_decode(compressed) {
        Ok(payload) => Ok(payload),
        Err(_) => Err(DataError::Corrupt),
    }
}

/// The dataset that two decompressed files give: both are decoded, the
/// images first, and then joined.
pub open spec fn assembled(images: Seq<u8>, labels: Seq<u8>) -> Result<
    Seq<(Seq<u8>, u8)>,
    DataError,
> {
    match parsed(images) {
        Err(e) => Err(e),
        Ok(images_data) => match parsed(labels) {
            Err(e) => Err(e),
            Ok(labels_data) => built(images_data.0, images_data.1, labels_data.1),
        },
    }
}

/// The dataset that a pair of gzip files gives, from what the decoder made
/// of each. A failure of the images' file, in decompressing or in decoding,
/// is reported before any of the labels' file.
pub open spec fn loaded(images: Option<Seq<u8>>, labels: Option<Seq<u8>>) -> Result<
    Seq<(Seq<u8>, u8)>,
    DataError,
> {
    match images {
        None => Err(DataError::Corrupt),
        Some(images_buf) => match parsed(images_buf) {
            Err(e) => Err(e),
            Ok(_) => match labels {
                None => Err(DataError::Corrupt),
                Some(labels_buf) => assembled(images_buf, labels_buf),
            },
        },
    }
}

/// Builds the dataset out of the bytes of its two gzip files, the images'
/// and the labels'.
pub fn get_data(images_file: &[u8], labels_file: &[u8]) -> (r: Result<Vec<Image>, DataError>)
    ensures
        match r {
            Ok(dataset) => loaded(gzip_decoded(images_file@), gzip_decoded(labels_file@)) == Ok::<
                Seq<(Seq<u8>, u8)>,
                DataError,
            >(examples(dataset@)),
            Err(e) => loaded(gzip_decoded(images_file@), gzip_decoded(labels_file@)) == Err::<
                Seq<(Seq<u8>, u8)>,
                DataError,
            >(e),
        },
{
    let images_buffer: Vec<u8> = read_content(images_file)?;
    let images_data: Data = parse_data(images_buffer)?;
    let labels_buffer: Vec<u8> = read_content(labels_file)?;
    let labels_data: Data = parse_data(labels_buffer)?;
    build_dataset(images_data, labels_data)
}

} // verus!
