use vstd::prelude::*;

verus! {

/// Why bytes do not hold an IDX file of the expected kind.
#[derive(Clone, Copy, Debug, PartialEq, Eq, Structural)]
pub enum IdxError {
    /// The bytes end inside the header.
    TruncatedHeader,
    /// The bytes end before the last item that the header announces.
    TruncatedData,
}

/// An IDX image file (such as the MNIST images): `count` images of `rows`
/// times `cols` pixels, one byte per pixel, row by row.
pub struct IdxImages {
    pub count: usize,
    pub rows: usize,
    pub cols: usize,
    pub images: Vec<Vec<u8>>,
}

/// The big-endian 32-bit unsigned integer stored at `at`.
pub open spec fn spec_be_u32(b: Seq<u8>, at: int) -> nat {
    (b[at] as nat) * 16777216 + (b[at + 1] as nat) * 65536 + (b[at + 2] as nat) * 256 + (b[at + 3] as nat)
}

/// The length of an image file's header: magic number, count, rows, columns.
pub open spec fn spec_images_header_len() -> nat {
    16
}

/// The length of a label file's header: magic number, count.
pub open spec fn spec_labels_header_len() -> nat {
    8
}

/// The image count, row count and column count announced by an image file's header.
pub open spec fn spec_image_count(b: Seq<u8>) -> nat {
    spec_be_u32(b, 4)
}

pub open spec fn spec_image_rows(b: Seq<u8>) -> nat {
    spec_be_u32(b, 8)
}

pub open spec fn spec_image_cols(b: Seq<u8>) -> nat {
    spec_be_u32(b, 12)
}

/// The number of pixels of one image of an image file.
pub open spec fn spec_image_size(b: Seq<u8>) -> nat {
    spec_image_rows(b) * spec_image_cols(b)
}

/// The pixels of image `k` of an image file.
pub open spec fn spec_image(b: Seq<u8>, k: int) -> Seq<u8> {
    b.subrange(16 + k * spec_image_size(b), 16 + (k + 1) * spec_image_size(b))
}

/// The error an image file gives, if any.
pub open spec fn spec_images_error(b: Seq<u8>) -> Option<IdxError> {
    if b.len() < 16 {
        Some(IdxError::TruncatedHeader)
    } else if b.len() < 16 + spec_image_count(b) * spec_image_size(b) {
        Some(IdxError::TruncatedData)
    } else {
        None
    }
}

/// The label count announced by a label file's header.
pub open spec fn spec_label_count(b: Seq<u8>) -> nat {
    spec_be_u32(b, 4)
}

/// The error a label file gives, if any.
pub open spec fn spec_labels_error(b: Seq<u8>) -> Option<IdxError> {
    if b.len() < 8 {
        Some(IdxError::TruncatedHeader)
    } else if b.len() < 8 + spec_label_count(b) {
        Some(IdxError::TruncatedData)
    } else {
        None
    }
}

fn read_be_u32(b: &[u8], at: usize) -> (v: u32)
    requires
        at + 4 <= b@.len(),
    ensures
        v as nat == spec_be_u32(b@, at as int),
{
    let b0 = b[at] as u32;
    let b1 = b[at + 1] as u32;
    let b2 = b[at + 2] as u32;
    let b3 = b[at + 3] as u32;
    b0 * 16777216 + b1 * 65536 + b2 * 256 + b3
}

fn copy_range(b: &[u8], from: usize, to: usize) -> (v: Vec<u8>)
    requires
        from <= to <= b@.len(),
    ensures
        v@ == b@.subrange(from as int, to as int),
{
    let mut v: Vec<u8> = Vec::new();
    let mut i = from;
    while i < to
        invariant
            from <= i <= to,
            to <= b@.len(),
            v@ =~= b@.subrange(from as int, i as int),
        decreases to - i,
    {
        v.push(b[i]);
        i = i + 1;
        assert(v@ =~= b@.subrange(from as int, i as int));
    }
    v
}

/// Parses an IDX image file. Its header holds four big-endian 32-bit
/// integers: a magic number, which is not checked, the image count, the row
/// count and the column count. The images follow, each as `rows * cols`
/// bytes; bytes after the last image are ignored.
pub fn parse_mnist_images(bytes: &[u8]) -> (r: Result<IdxImages, IdxError>)
    ensures
        r is Ok <==> spec_images_error(bytes@) is None,
        r is Ok <==> bytes@.len() >= 16 && bytes@.len() >= 16 + spec_be_u32(bytes@, 4) * (spec_be_u32(
            bytes@,
            8,
        ) * spec_be_u32(bytes@, 12)),
        r matches Err(e) ==> Some(e) == spec_images_error(bytes@),
        r matches Ok(img) ==> {
            &&& img.count == spec_image_count(bytes@)
            &&& img.rows == spec_image_rows(bytes@)
            &&& img.cols == spec_image_cols(bytes@)
            &&& img.images@.len() == img.count
            &&& forall|k: int| 0 <= k < img.count ==> (#[trigger] img.images@[k])@ == spec_image(bytes@, k)
        },
{
    if bytes.len() < 16 {
        return Err(IdxError::TruncatedHeader);
    }
    let count32 = read_be_u32(bytes, 4);
    let rows32 = read_be_u32(bytes, 8);
    let cols32 = read_be_u32(bytes, 12);
    let ghost b = bytes@;
    let avail: usize = bytes.len() - 16;
    assert(rows32 as int * cols32 as int <= u64::MAX) by (nonlinear_arith)
        requires
            rows32 <= u32::MAX,
            cols32 <= u32::MAX,
    ;
    let size64: u64 = rows32 as u64 * cols32 as u64;
    assert(size64 == spec_image_size(b));
    if size64 != 0 && (count32 as u64) > (avail as u64) / size64 {
        proof {
            let c = count32 as int;
            let s = size64 as int;
            let a = avail as int;
            assert(c * s > a) by (nonlinear_arith)
                requires
                    s > 0,
                    c > a / s,
                    a >= 0,
            ;
        }
        return Err(IdxError::TruncatedData);
    }
    proof {
        let c = count32 as int;
        let s = size64 as int;
        let a = avail as int;
        if s != 0 {
            assert(c * s <= a) by (nonlinear_arith)
                requires
                    s > 0,
                    c <= a / s,
                    a >= 0,
            ;
        }
    }
    let count = count32 as usize;
    let mut images: Vec<Vec<u8>> = Vec::new();
    if size64 == 0 || count == 0 {
        let mut k: usize = 0;
        while k < count
            invariant
                k <= count,
                size64 == 0 || count == 0,
                b.len() >= 16,
                size64 == spec_image_size(b),
                b == bytes@,
                images@.len() == k,
                forall|j: int| 0 <= j < k ==> (#[trigger] images@[j])@ == spec_image(b, j),
            decreases count - k,
        {
            let empty: Vec<u8> = Vec::new();
            assert(k as int * 0 == 0 && (k + 1) as int * 0 == 0) by (nonlinear_arith);
            assert(empty@ =~= spec_image(b, k as int));
            images.push(empty);
            k = k + 1;
        }
    } else {
        assert(size64 <= count * size64) by (nonlinear_arith)
            requires
                count >= 1,
        ;
        let size: usize = size64 as usize;
        let blen: usize = bytes.len();
        let mut k: usize = 0;
        let mut offset: usize = 16;
        while k < count
            invariant
                k <= count,
                size == size64,
                size64 == spec_image_size(b),
                b == bytes@,
                count * size <= avail,
                avail == b.len() - 16,
                blen == b.len(),
                offset == 16 + k * size,
                images@.len() == k,
                forall|j: int| 0 <= j < k ==> (#[trigger] images@[j])@ == spec_image(b, j),
            decreases count - k,
        {
            proof {
                assert((k + 1) * size <= count * size) by (nonlinear_arith)
                    requires
                        k + 1 <= count,
                ;
                assert((k + 1) * size == k * size + size) by (nonlinear_arith);
            }
            assert(offset + size <= b.len());
            let image = copy_range(bytes, offset, offset + size);
            assert(image@ == spec_image(b, k as int));
            images.push(image);
            offset = offset + size;
            k = k + 1;
        }
    }
    Ok(IdxImages { count, rows: rows32 as usize, cols: cols32 as usize, images })
}

/// Parses an IDX label file. Its header holds two big-endian 32-bit integers,
/// a magic number, which is not checked, and the label count; one byte per
/// label follows; bytes after the last label are ignored.
pub fn parse_mnist_labels(bytes: &[u8]) -> (r: Result<Vec<u8>, IdxError>)
    ensures
        r is Ok <==> spec_labels_error(bytes@) is None,
        r is Ok <==> bytes@.len() >= 8 && bytes@.len() >= 8 + spec_be_u32(bytes@, 4),
        r matches Err(e) ==> Some(e) == spec_labels_error(bytes@),
        r matches Ok(labels) ==> labels@ == bytes@.subrange(8, 8 + spec_label_count(bytes@) as int),
{
    if bytes.len() < 8 {
        return Err(IdxError::TruncatedHeader);
    }
    let count32 = read_be_u32(bytes, 4);
    if (count32 as u64) > (bytes.len() - 8) as u64 {
        return Err(IdxError::TruncatedData);
    }
    let count = count32 as usize;
    Ok(copy_range(bytes, 8, 8 + count))
}

/// A label file is accepted exactly when it holds its header and at least
/// the labels it announces, so a file of exactly `8 + count` bytes is read in
/// full; it is short of data exactly when it ends before the last label.
pub proof fn lemma_labels_file_accepted(b: Seq<u8>)
    ensures
        spec_labels_error(b) is None <==> (b.len() >= 8 && b.len() >= 8 + spec_be_u32(b, 4)),
        spec_labels_error(b) == Some(IdxError::TruncatedData) <==> (b.len() >= 8 && b.len() < 8
            + spec_be_u32(b, 4)),
{
}

/// An image file is accepted exactly when it holds its header and at least
/// the `count * rows * cols` pixels it announces, so a file of exactly that
/// length is read in full.
pub proof fn lemma_images_file_accepted(b: Seq<u8>)
    ensures
        spec_images_error(b) is None <==> (b.len() >= 16 && b.len() >= 16 + spec_be_u32(b, 4) * (
        spec_be_u32(b, 8) * spec_be_u32(b, 12))),
        spec_images_error(b) == Some(IdxError::TruncatedData) <==> (b.len() >= 16 && b.len() < 16
            + spec_be_u32(b, 4) * (spec_be_u32(b, 8) * spec_be_u32(b, 12))),
{
}

/// Every image of an accepted image file holds `rows * cols` pixels, and
/// image `k` starts where image `k - 1` ends.
pub proof fn lemma_image_extent(b: Seq<u8>, k: int)
    requires
        spec_images_error(b) is None,
        0 <= k < spec_image_count(b),
    ensures
        spec_image(b, k).len() == spec_image_rows(b) * spec_image_cols(b),
        spec_image(b, k) == b.subrange(16 + k * spec_image_size(b), 16 + k * spec_image_size(b) + spec_image_size(b)),
{
    let s = spec_image_size(b) as int;
    let c = spec_image_count(b) as int;
    assert((k + 1) * s == k * s + s) by (nonlinear_arith);
    assert(k * s + s <= c * s) by (nonlinear_arith)
        requires
            0 <= k < c,
            s >= 0,
    ;
    assert(0 <= k * s) by (nonlinear_arith)
        requires
            0 <= k,
            s >= 0,
    ;
}

} // verus!
