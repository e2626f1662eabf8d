use vstd::prelude::*;

verus! {

/// Byte length of the serialized file header record.
pub const FILE_HEADER_SIZE: u32 = 14;

/// Byte length of the serialized info header record.
pub const INFO_HEADER_SIZE: u32 = 40;

/// Magic signature of the bitmap format: "BM" as a little-endian word.
pub const BITMAP_MAGIC: u16 = 0x4D42;

/// Compression tag for raw, uncompressed pixel data.
pub const COMPRESSION_NONE: u32 = 0;

/// Dimensions and color layout of a captured device bitmap, as the
/// graphics subsystem reports them; never invented by this library.
#[derive(Clone, Copy, PartialEq, Eq, Structural, Debug)]
pub struct BitmapMetadata {
    pub width: i32,
    pub height: i32,
    pub planes: u16,
    pub bits_per_pixel: u16,
}

/// Fixed-size leading record of a bitmap file: magic signature, total file
/// size, two reserved words, and the byte offset of the pixel data.
#[derive(Clone, Copy, PartialEq, Eq, Structural, Debug)]
pub struct FileHeader {
    pub magic: u16,
    pub file_size: u32,
    pub reserved1: u16,
    pub reserved2: u16,
    pub pixel_data_offset: u32,
}

/// Fixed-size second record of a bitmap file, describing the pixel grid.
#[derive(Clone, Copy, PartialEq, Eq, Structural, Debug)]
pub struct InfoHeader {
    pub header_size: u32,
    pub width: i32,
    pub height: i32,
    pub planes: u16,
    pub bit_count: u16,
    pub compression: u32,
    pub image_size: u32,
    pub x_pixels_per_meter: i32,
    pub y_pixels_per_meter: i32,
    pub colors_used: u32,
    pub colors_important: u32,
}

/// Metadata the pipeline accepts: non-negative dimensions (the subsystem
/// reports a bottom-up bitmap with positive extents; zero is a degenerate
/// capture).
pub open spec fn valid_metadata(m: BitmapMetadata) -> bool {
    0 <= m.width && 0 <= m.height
}

/// The raw planes-times-bits product rounded up to the nearest standard
/// color depth bucket: 1, 4, 8, 16, 24 or 32 bits per pixel.
pub open spec fn effective_depth(planes: u16, bits_per_pixel: u16) -> u32 {
    let raw = (planes as int) * (bits_per_pixel as int);
    if raw <= 1 {
        1u32
    } else if raw <= 4 {
        4u32
    } else if raw <= 8 {
        8u32
    } else if raw <= 16 {
        16u32
    } else if raw <= 24 {
        24u32
    } else {
        32u32
    }
}

/// Bytes per pixel row, rounded up to 32-bit alignment: the standard
/// device-independent-bitmap row padding rule.
pub open spec fn row_bytes(width: int, depth: int) -> int {
    ((width * depth + 31) / 32) * 4
}

/// Total pixel-data byte count: padded row length times row count.
pub open spec fn image_size_of(m: BitmapMetadata) -> int {
    row_bytes(m.width as int, effective_depth(m.planes, m.bits_per_pixel) as int) * (m.height as int)
}

/// Number of color-table entries: one per representable color for depths
/// below 24 bits, none for true-color depths.
pub open spec fn color_table_entries(depth: u32) -> u32 {
    if depth < 24 {
        1u32 << depth
    } else {
        0u32
    }
}

/// Color-table entry count for the given metadata.
pub open spec fn colors_used_of(m: BitmapMetadata) -> u32 {
    color_table_entries(effective_depth(m.planes, m.bits_per_pixel))
}

/// Byte offset of the pixel data: both headers plus the color table.
pub open spec fn pixel_data_offset_of(m: BitmapMetadata) -> int {
    FILE_HEADER_SIZE + INFO_HEADER_SIZE + (colors_used_of(m) as int) * 4
}

/// Total file size: both headers, the color table, and the pixel data.
pub open spec fn file_size_of(m: BitmapMetadata) -> int {
    FILE_HEADER_SIZE + INFO_HEADER_SIZE + (colors_used_of(m) as int) * 4 + image_size_of(m)
}

/// The file header that `build_headers` derives from the metadata.
pub open spec fn file_header_of(m: BitmapMetadata) -> FileHeader {
    FileHeader {
        magic: BITMAP_MAGIC,
        file_size: file_size_of(m) as u32,
        reserved1: 0,
        reserved2: 0,
        pixel_data_offset: pixel_data_offset_of(m) as u32,
    }
}

/// The info header that `build_headers` derives from the metadata.
pub open spec fn info_header_of(m: BitmapMetadata) -> InfoHeader {
    InfoHeader {
        header_size: INFO_HEADER_SIZE,
        width: m.width,
        height: m.height,
        planes: m.planes,
        bit_count: m.bits_per_pixel,
        compression: COMPRESSION_NONE,
        image_size: image_size_of(m) as u32,
        x_pixels_per_meter: 0,
        y_pixels_per_meter: 0,
        colors_used: colors_used_of(m),
        colors_important: 0,
    }
}

/// Effective color depth of the metadata, as executable code.
pub fn compute_effective_depth(planes: u16, bits_per_pixel: u16) -> (d: u32)
    ensures
        d == effective_depth(planes, bits_per_pixel),
{
    proof {
        assert((planes as int) * (bits_per_pixel as int) <= 0xffff * 0xffff) by (nonlinear_arith)
            requires
                planes as int <= 0xffff,
                bits_per_pixel as int <= 0xffff,
        ;
    }
    let raw: u32 = (planes as u32) * (bits_per_pixel as u32);
    if raw <= 1 {
        1
    } else if raw <= 4 {
        4
    } else if raw <= 8 {
        8
    } else if raw <= 16 {
        16
    } else if raw <= 24 {
        24
    } else {
        32
    }
}

/// The effective depth is always one of the six standard buckets.
pub proof fn lemma_effective_depth_buckets(planes: u16, bits_per_pixel: u16)
    ensures
        effective_depth(planes, bits_per_pixel) == 1 || effective_depth(planes, bits_per_pixel)
            == 4 || effective_depth(planes, bits_per_pixel) == 8 || effective_depth(
            planes,
            bits_per_pixel,
        ) == 16 || effective_depth(planes, bits_per_pixel) == 24 || effective_depth(
            planes,
            bits_per_pixel,
        ) == 32,
{
}

/// The color table never exceeds 65536 entries.
pub proof fn lemma_color_table_bound(planes: u16, bits_per_pixel: u16)
    ensures
        color_table_entries(effective_depth(planes, bits_per_pixel)) <= 65536,
{
    let d = effective_depth(planes, bits_per_pixel);
    lemma_effective_depth_buckets(planes, bits_per_pixel);
    assert(d <= 16 ==> (1u32 << d) <= 65536) by (bit_vector);
}

/// Rows are padded to 4-byte multiples and never truncate pixel bits:
/// `row_bytes` is a multiple of 4 and holds at least `width * depth` bits.
pub proof fn lemma_row_alignment(width: int, depth: int)
    requires
        0 <= width,
        0 < depth,
    ensures
        row_bytes(width, depth) % 4 == 0,
        row_bytes(width, depth) * 8 >= width * depth,
        row_bytes(width, depth) >= 0,
{
    let x = width * depth;
    vstd::arithmetic::mul::lemma_mul_nonnegative(width, depth);
    let q = (x + 31) / 32;
    vstd::arithmetic::div_mod::lemma_fundamental_div_mod(x + 31, 32);
    vstd::arithmetic::div_mod::lemma_mod_bound(x + 31, 32);
    assert(q * 32 == x + 31 - (x + 31) % 32);
    vstd::arithmetic::div_mod::lemma_mod_multiples_basic(q, 4);
    assert((q * 4) % 4 == 0);
    assert(row_bytes(width, depth) * 8 == q * 32) by (nonlinear_arith)
        requires
            row_bytes(width, depth) == q * 4,
    ;
    vstd::arithmetic::mul::lemma_mul_nonnegative(q, 4);
}

/// For every accepted metadata, the row length the headers are built on
/// is a multiple of 4 and its bits hold every pixel of the row.
pub proof fn lemma_row_padding(m: BitmapMetadata)
    requires
        valid_metadata(m),
    ensures
        row_bytes(m.width as int, effective_depth(m.planes, m.bits_per_pixel) as int) % 4 == 0,
        row_bytes(m.width as int, effective_depth(m.planes, m.bits_per_pixel) as int) * 8
            >= (m.width as int) * (effective_depth(m.planes, m.bits_per_pixel) as int),
{
    lemma_row_alignment(m.width as int, effective_depth(m.planes, m.bits_per_pixel) as int);
}

/// The serializer's cross-check: the total file size always decomposes into
/// the pixel-data offset plus the pixel-data byte count.
pub proof fn lemma_file_size_decomposition(m: BitmapMetadata)
    ensures
        file_size_of(m) == pixel_data_offset_of(m) + image_size_of(m),
{
}

/// A degenerate capture (zero width or height) has an empty pixel payload:
/// the file holds exactly the headers and the color table.
pub proof fn lemma_degenerate_region(m: BitmapMetadata)
    requires
        valid_metadata(m),
        m.width == 0 || m.height == 0,
    ensures
        image_size_of(m) == 0,
        file_size_of(m) == pixel_data_offset_of(m),
{
    let d = effective_depth(m.planes, m.bits_per_pixel) as int;
    if m.height == 0 {
        assert(row_bytes(m.width as int, d) * 0 == 0);
    } else {
        assert(row_bytes(0, d) == 0);
    }
}

/// Build the file and info headers for one captured bitmap. All derived
/// fields follow the exact format arithmetic: effective depth bucketing,
/// 4-byte row padding, the color-table rule, and the offset/size sums.
pub fn build_headers(meta: &BitmapMetadata) -> (r: (FileHeader, InfoHeader))
    requires
        valid_metadata(*meta),
        file_size_of(*meta) <= u32::MAX,
    ensures
        r.0 == file_header_of(*meta),
        r.1 == info_header_of(*meta),
        r.0.file_size == r.0.pixel_data_offset + r.1.image_size,
{
    let depth: u32 = compute_effective_depth(meta.planes, meta.bits_per_pixel);
    proof {
        lemma_effective_depth_buckets(meta.planes, meta.bits_per_pixel);
        lemma_color_table_bound(meta.planes, meta.bits_per_pixel);
        lemma_row_alignment(meta.width as int, depth as int);
    }
    let entries: u32 = if depth < 24 {
        1u32 << depth
    } else {
        0u32
    };
    let rb: u64 = ((meta.width as u64) * (depth as u64) + 31) / 32 * 4;
    assert(rb == row_bytes(meta.width as int, depth as int));
    let img: u64 = rb * (meta.height as u64);
    assert(img == image_size_of(*meta));
    let table_bytes: u32 = entries * 4;
    let offset: u32 = FILE_HEADER_SIZE + INFO_HEADER_SIZE + table_bytes;
    let file_size: u32 = offset + (img as u32);
    let fh = FileHeader {
        magic: BITMAP_MAGIC,
        file_size,
        reserved1: 0,
        reserved2: 0,
        pixel_data_offset: offset,
    };
    let ih = InfoHeader {
        header_size: INFO_HEADER_SIZE,
        width: meta.width,
        height: meta.height,
        planes: meta.planes,
        bit_count: meta.bits_per_pixel,
        compression: COMPRESSION_NONE,
        image_size: img as u32,
        x_pixels_per_meter: 0,
        y_pixels_per_meter: 0,
        colors_used: entries,
        colors_important: 0,
    };
    (fh, ih)
}

/// Build the headers after checking the metadata: `None` exactly when the
/// metadata has a negative dimension or its total file size overflows the
/// header's 32-bit size field.
pub fn try_build_headers(meta: &BitmapMetadata) -> (r: Option<(FileHeader, InfoHeader)>)
    ensures
        (r is Some) <==> (valid_metadata(*meta) && file_size_of(*meta) <= u32::MAX),
        r matches Some(p) ==> p.0 == file_header_of(*meta) && p.1 == info_header_of(*meta),
{
    if meta.width < 0 || meta.height < 0 {
        return None;
    }
    let depth: u32 = compute_effective_depth(meta.planes, meta.bits_per_pixel);
    proof {
        lemma_effective_depth_buckets(meta.planes, meta.bits_per_pixel);
        lemma_color_table_bound(meta.planes, meta.bits_per_pixel);
        lemma_row_alignment(meta.width as int, depth as int);
    }
    let entries: u32 = if depth < 24 {
        1u32 << depth
    } else {
        0u32
    };
    let rb: u128 = ((meta.width as u128) * (depth as u128) + 31) / 32 * 4;
    assert(rb == row_bytes(meta.width as int, depth as int));
    proof {
        let w = meta.width as int;
        let d = depth as int;
        assert(w * d <= 0x7fff_ffff * 32) by (nonlinear_arith)
            requires
                0 <= w <= 0x7fff_ffff,
                0 < d <= 32,
        ;
        vstd::arithmetic::div_mod::lemma_div_is_ordered(
            w * d + 31,
            (0x7fff_ffff * 32 + 31) as int,
            32,
        );
        assert(rb as int <= 0x1_ffff_fffc);
        vstd::arithmetic::mul::lemma_mul_upper_bound(
            rb as int,
            0x1_ffff_fffc,
            meta.height as int,
            0x7fff_ffff,
        );
    }
    let file_size: u128 = (FILE_HEADER_SIZE as u128) + (INFO_HEADER_SIZE as u128) + (
    entries as u128) * 4 + rb * (meta.height as u128);
    proof {
        assert(rb * (meta.height as u128) == image_size_of(*meta));
    }
    if file_size > 0xffff_ffffu128 {
        return None;
    }
    Some(build_headers(meta))
}

/// Little-endian byte pair of a 16-bit word.
pub open spec fn u16_le(x: u16) -> Seq<u8> {
    seq![(x & 0xff) as u8, ((x >> 8) & 0xff) as u8]
}

/// Little-endian byte quadruple of a 32-bit word.
pub open spec fn u32_le(x: u32) -> Seq<u8> {
    seq![
        (x & 0xff) as u8,
        ((x >> 8) & 0xff) as u8,
        ((x >> 16) & 0xff) as u8,
        ((x >> 24) & 0xff) as u8,
    ]
}

/// Little-endian bytes of a non-negative 32-bit signed field.
pub open spec fn i32_le(x: i32) -> Seq<u8> {
    u32_le(x as u32)
}

/// The 14 serialized bytes of a file header.
pub open spec fn file_header_bytes_of(h: FileHeader) -> Seq<u8> {
    u16_le(h.magic) + u32_le(h.file_size) + u16_le(h.reserved1) + u16_le(h.reserved2) + u32_le(
        h.pixel_data_offset,
    )
}

/// The 40 serialized bytes of an info header.
pub open spec fn info_header_bytes_of(h: InfoHeader) -> Seq<u8> {
    u32_le(h.header_size) + i32_le(h.width) + i32_le(h.height) + u16_le(h.planes) + u16_le(
        h.bit_count,
    ) + u32_le(h.compression) + u32_le(h.image_size) + i32_le(h.x_pixels_per_meter) + i32_le(
        h.y_pixels_per_meter,
    ) + u32_le(h.colors_used) + u32_le(h.colors_important)
}

/// Append a 16-bit word in little-endian order.
fn push_u16_le(out: &mut Vec<u8>, x: u16)
    ensures
        final(out)@ == old(out)@ + u16_le(x),
{
    out.push((x & 0xff) as u8);
    out.push(((x >> 8) & 0xff) as u8);
    proof {
        assert(out@ =~= old(out)@ + u16_le(x));
    }
}

/// Append a 32-bit word in little-endian order.
fn push_u32_le(out: &mut Vec<u8>, x: u32)
    ensures
        final(out)@ == old(out)@ + u32_le(x),
{
    out.push((x & 0xff) as u8);
    out.push(((x >> 8) & 0xff) as u8);
    out.push(((x >> 16) & 0xff) as u8);
    out.push(((x >> 24) & 0xff) as u8);
    proof {
        assert(out@ =~= old(out)@ + u32_le(x));
    }
}

/// Append a non-negative 32-bit signed field in little-endian order.
fn push_i32_le(out: &mut Vec<u8>, x: i32)
    requires
        0 <= x,
    ensures
        final(out)@ == old(out)@ + i32_le(x),
{
    push_u32_le(out, x as u32);
}

/// Serialize a file header into its exact 14-byte binary form.
pub fn file_header_bytes(h: &FileHeader) -> (b: Vec<u8>)
    ensures
        b@ == file_header_bytes_of(*h),
        b@.len() == FILE_HEADER_SIZE,
{
    let mut b: Vec<u8> = Vec::new();
    push_u16_le(&mut b, h.magic);
    push_u32_le(&mut b, h.file_size);
    push_u16_le(&mut b, h.reserved1);
    push_u16_le(&mut b, h.reserved2);
    push_u32_le(&mut b, h.pixel_data_offset);
    proof {
        assert(b@ =~= file_header_bytes_of(*h));
    }
    b
}

/// Serialize an info header into its exact 40-byte binary form.
pub fn info_header_bytes(h: &InfoHeader) -> (b: Vec<u8>)
    requires
        0 <= h.width,
        0 <= h.height,
        0 <= h.x_pixels_per_meter,
        0 <= h.y_pixels_per_meter,
    ensures
        b@ == info_header_bytes_of(*h),
        b@.len() == INFO_HEADER_SIZE,
{
    let mut b: Vec<u8> = Vec::new();
    push_u32_le(&mut b, h.header_size);
    push_i32_le(&mut b, h.width);
    push_i32_le(&mut b, h.height);
    push_u16_le(&mut b, h.planes);
    push_u16_le(&mut b, h.bit_count);
    push_u32_le(&mut b, h.compression);
    push_u32_le(&mut b, h.image_size);
    push_i32_le(&mut b, h.x_pixels_per_meter);
    push_i32_le(&mut b, h.y_pixels_per_meter);
    push_u32_le(&mut b, h.colors_used);
    push_u32_le(&mut b, h.colors_important);
    proof {
        assert(b@ =~= info_header_bytes_of(*h));
    }
    b
}

/// Header construction is a pure function of the metadata: two builds from
/// identical metadata yield identical headers and byte-identical
/// serializations.
pub proof fn lemma_build_headers_idempotent(
    m: BitmapMetadata,
    first: (FileHeader, InfoHeader),
    second: (FileHeader, InfoHeader),
)
    requires
        first == (file_header_of(m), info_header_of(m)),
        second == (file_header_of(m), info_header_of(m)),
    ensures
        first == second,
        file_header_bytes_of(first.0) == file_header_bytes_of(second.0),
        info_header_bytes_of(first.1) == info_header_bytes_of(second.1),
{
}

} // verus!
