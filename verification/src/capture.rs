use vstd::prelude::*;

use crate::headers::{
    BitmapMetadata, build_headers, colors_used_of, file_header_bytes, file_header_bytes_of,
    file_header_of, file_size_of, image_size_of, info_header_bytes, info_header_bytes_of,
    info_header_of, pixel_data_offset_of, valid_metadata,
};

verus! {

/// One named error per fallible step of the capture pipeline, each naming
/// the external graphics-subsystem call that failed.
#[derive(Clone, Copy, PartialEq, Eq, Structural, Debug)]
pub enum CaptureError {
    /// Creating the in-memory device context failed.
    ContextCreationFailed,
    /// The block pixel copy from the screen returned failure.
    BlockCopyFailed,
    /// Reading the captured bitmap's metadata failed.
    MetadataQueryFailed,
    /// Reading the raw pixel bits into the buffer failed.
    PixelReadFailed,
}

/// The fallible subsystem steps of one capture call, in the order the
/// pipeline performs them.
#[derive(Clone, Copy, PartialEq, Eq, Structural, Debug)]
pub enum CaptureStep {
    CreateContext,
    BlockCopy,
    QueryMetadata,
    ReadPixels,
}

/// The error that a failure of the given pipeline step surfaces as.
pub open spec fn error_of_step(step: CaptureStep) -> CaptureError {
    match step {
        CaptureStep::CreateContext => CaptureError::ContextCreationFailed,
        CaptureStep::BlockCopy => CaptureError::BlockCopyFailed,
        CaptureStep::QueryMetadata => CaptureError::MetadataQueryFailed,
        CaptureStep::ReadPixels => CaptureError::PixelReadFailed,
    }
}

/// The step the pipeline moves to when the given step succeeds, or `None`
/// after the last subsystem step, when only assembly remains.
pub open spec fn next_step(step: CaptureStep) -> Option<CaptureStep> {
    match step {
        CaptureStep::CreateContext => Some(CaptureStep::BlockCopy),
        CaptureStep::BlockCopy => Some(CaptureStep::QueryMetadata),
        CaptureStep::QueryMetadata => Some(CaptureStep::ReadPixels),
        CaptureStep::ReadPixels => None,
    }
}

/// Decide how the pipeline advances past one subsystem step: a zero or
/// null subsystem result aborts the capture with that step's named error,
/// and success moves to the following step, with no retry in either case.
pub fn advance(step: CaptureStep, succeeded: bool) -> (r: Result<Option<CaptureStep>, CaptureError>)
    ensures
        succeeded ==> r == Ok::<Option<CaptureStep>, CaptureError>(next_step(step)),
        !succeeded ==> r == Err::<Option<CaptureStep>, CaptureError>(error_of_step(step)),
{
    if succeeded {
        match step {
            CaptureStep::CreateContext => Ok(Some(CaptureStep::BlockCopy)),
            CaptureStep::BlockCopy => Ok(Some(CaptureStep::QueryMetadata)),
            CaptureStep::QueryMetadata => Ok(Some(CaptureStep::ReadPixels)),
            CaptureStep::ReadPixels => Ok(None),
        }
    } else {
        match step {
            CaptureStep::CreateContext => Err(CaptureError::ContextCreationFailed),
            CaptureStep::BlockCopy => Err(CaptureError::BlockCopyFailed),
            CaptureStep::QueryMetadata => Err(CaptureError::MetadataQueryFailed),
            CaptureStep::ReadPixels => Err(CaptureError::PixelReadFailed),
        }
    }
}

/// The complete assembled bitmap buffer for captured metadata and pixel
/// bytes: file header, info header, zeroed color table, then the raw
/// pixel data, in that order and nothing else.
pub open spec fn assembled_bytes(m: BitmapMetadata, pixels: Seq<u8>) -> Seq<u8> {
    file_header_bytes_of(file_header_of(m)) + info_header_bytes_of(info_header_of(m)) + Seq::new(
        (colors_used_of(m) * 4) as nat,
        |i: int| 0u8,
    ) + pixels
}

/// The assembled buffer is self-describing: any reader of the format
/// finds the magic signature at offset 0 and the captured width and
/// height at the format's fixed byte offsets 18 and 22.
pub proof fn lemma_buffer_self_describing(m: BitmapMetadata, pixels: Seq<u8>)
    ensures
        assembled_bytes(m, pixels).subrange(0, 2) == seq![0x42u8, 0x4Du8],
        assembled_bytes(m, pixels).subrange(18, 22) == crate::headers::i32_le(m.width),
        assembled_bytes(m, pixels).subrange(22, 26) == crate::headers::i32_le(m.height),
{
    let buf = assembled_bytes(m, pixels);
    let fhb = file_header_bytes_of(file_header_of(m));
    let ihb = info_header_bytes_of(info_header_of(m));
    assert(fhb.len() == 14);
    assert(ihb.len() == 40);
    assert(0x4D42u16 & 0xff == 0x42) by (bit_vector);
    assert((0x4D42u16 >> 8) & 0xff == 0x4D) by (bit_vector);
    assert(crate::headers::u16_le(0x4D42u16) =~= seq![0x42u8, 0x4Du8]);
    assert(buf.subrange(0, 2) =~= seq![0x42u8, 0x4Du8]);
    assert(buf.subrange(18, 22) =~= crate::headers::i32_le(m.width));
    assert(buf.subrange(22, 26) =~= crate::headers::i32_le(m.height));
}

/// Assemble the single capture artifact from the bitmap metadata and the
/// raw pixel bytes the subsystem returned (whose row order is preserved
/// byte for byte). The buffer is laid out exactly as `assembled_bytes`
/// says and its total length equals the file header's file size.
pub fn assemble_capture(meta: &BitmapMetadata, pixels: Vec<u8>) -> (buf: Vec<u8>)
    requires
        valid_metadata(*meta),
        file_size_of(*meta) <= u32::MAX,
        pixels@.len() == image_size_of(*meta),
    ensures
        buf@ == assembled_bytes(*meta, pixels@),
        buf@.len() == file_size_of(*meta),
        buf@.subrange(pixel_data_offset_of(*meta), file_size_of(*meta)) == pixels@,
{
    let (fh, ih) = build_headers(meta);
    let mut buf = file_header_bytes(&fh);
    let mut info = info_header_bytes(&ih);
    buf.append(&mut info);
    let table_bytes: usize = (ih.colors_used as usize) * 4;
    let mut k: usize = 0;
    while k < table_bytes
        invariant
            k <= table_bytes,
            table_bytes == colors_used_of(*meta) * 4,
            buf@ == file_header_bytes_of(file_header_of(*meta)) + info_header_bytes_of(
                info_header_of(*meta),
            ) + Seq::new(k as nat, |i: int| 0u8),
        decreases table_bytes - k,
    {
        buf.push(0u8);
        proof {
            assert(Seq::new((k + 1) as nat, |i: int| 0u8) =~= Seq::new(k as nat, |i: int| 0u8)
                + seq![0u8]);
            assert(buf@ =~= file_header_bytes_of(file_header_of(*meta)) + info_header_bytes_of(
                info_header_of(*meta),
            ) + Seq::new((k + 1) as nat, |i: int| 0u8));
        }
        k = k + 1;
    }
    let mut px = pixels;
    buf.append(&mut px);
    proof {
        assert(buf@ =~= assembled_bytes(*meta, pixels@));
        assert(buf@.len() == file_size_of(*meta));
        assert(buf@.subrange(pixel_data_offset_of(*meta), file_size_of(*meta)) =~= pixels@);
    }
    buf
}

} // verus!
