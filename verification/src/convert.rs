//! The verified side of the conversion pipeline.
//!
//! A conversion task reads the input file, decodes it to a normalized RGBA
//! pixel buffer, optionally resizes it, encodes the buffer as WebP, and
//! writes the result.  Decoding and normalization are done here, through the
//! image codec behind a trusted wrapper; reading, resizing by a fractional
//! scale, the WebP encoder and writing are the caller's, with the guard
//! functions here checking the dimensions and buffer layout the encoder
//! requires.

use vstd::prelude::*;
use vstd::string::StringExecFns;
use crate::outcome::FailureRecord;
use crate::outcome::Outcome;

verus! {

/// The fixed encoder quality of a run, on a 0 to 100 scale.
pub const DEFAULT_QUALITY: u8 = 85;

/// The mathematical content of a pixel buffer.
pub struct PixelsView {
    pub width: nat,
    pub height: nat,
    pub rgba: Seq<u8>,
}

/// A decoded image, normalized to a tightly packed RGBA layout: four bytes
/// per pixel, row after row.
#[derive(Debug)]
pub struct PixelBuffer {
    pub width: u32,
    pub height: u32,
    pub rgba: Vec<u8>,
}

impl View for PixelBuffer {
    type V = PixelsView;

    open spec fn view(&self) -> PixelsView {
        PixelsView { width: self.width as nat, height: self.height as nat, rgba: self.rgba@ }
    }
}

/// A well-formed RGBA buffer holds exactly four bytes per pixel.
pub open spec fn pixels_wf(v: PixelsView) -> bool {
    v.rgba.len() == 4 * v.width * v.height
}

impl PixelBuffer {
    /// The buffer holds exactly four bytes per pixel.
    pub open spec fn wf(&self) -> bool {
        pixels_wf(self@)
    }
}

/// The pixel dimensions the image codec parses out of the given bytes:
/// `None` when the bytes are not a supported, intact image.  Only whether
/// the bytes decode, and to which width and height, is named here; the pixel
/// values themselves are not — the codec's SIMD kernels may round them
/// differently from machine to machine.
pub uninterp spec fn decoded_dims_of(bytes: Seq<u8>) -> Option<(nat, nat)>;

/// Relies on `image::load_from_memory` and `DynamicImage::to_rgba8`: whether
/// the bytes decode, and the parsed width and height, depend on the bytes
/// alone, and an `RgbaImage` stores exactly four bytes per pixel.  Nothing
/// is claimed of the pixel values.
#[verifier::external_body]
fn decode_rgba_via_image(bytes: &Vec<u8>) -> (r: Result<PixelBuffer, String>)
    ensures
        (r is Ok) == (decoded_dims_of(bytes@) is Some),
        r is Ok ==> pixels_wf(r->Ok_0@) && r->Ok_0.width as nat == (decoded_dims_of(bytes@)->0).0
            && r->Ok_0.height as nat == (decoded_dims_of(bytes@)->0).1,
{
    match image::load_from_memory(bytes.as_slice()) {
        Ok(img) => {
            let rgba = img.to_rgba8();
            Ok(PixelBuffer { width: rgba.width(), height: rgba.height(), rgba: rgba.into_raw() })
        },
        Err(e) => Err(e.to_string()),
    }
}

/// The message prefix of a decode failure.
pub open spec fn decode_prefix() -> Seq<char> {
    seq!['d', 'e', 'c', 'o', 'd', 'e', ' ', 'e', 'r', 'r', 'o', 'r', ':', ' ']
}

/// Decode the bytes read from `input_path` into a normalized RGBA buffer.
/// Succeeds exactly when the codec can decode the bytes, with the parsed
/// dimensions and four bytes per pixel; unsupported or corrupt input becomes
/// a failure record naming `input_path` and a decode cause, never a panic.
pub fn decode_step(input_path: &str, bytes: &Vec<u8>) -> (r: Result<PixelBuffer, FailureRecord>)
    ensures
        (r is Ok) == (decoded_dims_of(bytes@) is Some),
        r is Ok ==> r->Ok_0.wf() && r->Ok_0.width as nat == (decoded_dims_of(bytes@)->0).0
            && r->Ok_0.height as nat == (decoded_dims_of(bytes@)->0).1,
        r is Err ==> r->Err_0.path@ == input_path@ && r->Err_0.message@.take(14)
            == decode_prefix(),
{
    match decode_rgba_via_image(bytes) {
        Ok(pixels) => Ok(pixels),
        Err(cause) => {
            let message = String::from_str("decode error: ").concat(cause.as_str());
            proof {
                reveal_strlit("decode error: ");
                assert(message@.take(14) =~= decode_prefix());
            }
            Err(FailureRecord { path: input_path.to_owned(), message })
        },
    }
}

/// The failure points of one conversion task, in pipeline order.  Decoding
/// has its own constructor, [`decode_step`], which reports the codec's cause.
pub enum ConversionStage {
    /// Reading the input file's bytes.
    ReadInput,
    /// Scaling the decoded image to the target dimensions.
    Resize,
    /// Bringing the pixels into the packed RGBA layout.
    Normalize,
    /// Encoding the RGBA buffer as WebP.
    Encode,
    /// Writing the encoded bytes to the output path.
    WriteOutput,
}

/// The message prefix that names a failed stage.
pub open spec fn stage_prefix(stage: ConversionStage) -> Seq<char> {
    match stage {
        ConversionStage::ReadInput => seq!['r', 'e', 'a', 'd', ' ', 'e', 'r', 'r', 'o', 'r', ':', ' '],
        ConversionStage::Resize => seq!['r', 'e', 's', 'i', 'z', 'e', ' ', 'e', 'r', 'r', 'o', 'r', ':', ' '],
        ConversionStage::Normalize => seq!['n', 'o', 'r', 'm', 'a', 'l', 'i', 'z', 'e', ' ', 'e', 'r', 'r', 'o', 'r', ':', ' '],
        ConversionStage::Encode => seq!['e', 'n', 'c', 'o', 'd', 'e', ' ', 'e', 'r', 'r', 'o', 'r', ':', ' '],
        ConversionStage::WriteOutput => seq!['w', 'r', 'i', 't', 'e', ' ', 'e', 'r', 'r', 'o', 'r', ':', ' '],
    }
}

/// Build the failure outcome of one task stage: it names the unit's input
/// path and prefixes the cause with the stage that failed.  A failure never
/// escapes a task as anything but such an outcome.
pub fn stage_failure(input_path: &str, stage: ConversionStage, cause: &str) -> (o: Outcome)
    ensures
        o is Failed,
        o->Failed_0.path@ == input_path@,
        o->Failed_0.message@ == stage_prefix(stage) + cause@,
{
    let prefix = match stage {
        ConversionStage::ReadInput => "read error: ",
        ConversionStage::Resize => "resize error: ",
        ConversionStage::Normalize => "normalize error: ",
        ConversionStage::Encode => "encode error: ",
        ConversionStage::WriteOutput => "write error: ",
    };
    proof {
        reveal_strlit("read error: ");
        reveal_strlit("resize error: ");
        reveal_strlit("normalize error: ");
        reveal_strlit("encode error: ");
        reveal_strlit("write error: ");
        assert("read error: "@ =~= stage_prefix(ConversionStage::ReadInput));
        assert("resize error: "@ =~= stage_prefix(ConversionStage::Resize));
        assert("normalize error: "@ =~= stage_prefix(ConversionStage::Normalize));
        assert("encode error: "@ =~= stage_prefix(ConversionStage::Encode));
        assert("write error: "@ =~= stage_prefix(ConversionStage::WriteOutput));
    }
    Outcome::Failed(
        FailureRecord {
            path: input_path.to_owned(),
            message: String::from_str(prefix).concat(cause),
        },
    )
}

/// Resized target dimensions are acceptable only when neither side collapsed
/// to zero.
pub fn resize_dims_valid(width: u32, height: u32) -> (ok: bool)
    ensures
        ok == (width > 0 && height > 0),
{
    width > 0 && height > 0
}

/// Whether `pixels` and `quality` are acceptable to the WebP encoder: a
/// well-formed buffer, no zero dimension, and a quality on the 0 to 100
/// scale.  Callers check this before handing the buffer to the encoder.
pub fn encode_ready(pixels: &PixelBuffer, quality: u8) -> (ok: bool)
    ensures
        ok == (pixels.wf() && pixels.width > 0 && pixels.height > 0 && quality <= 100),
{
    let w: u128 = pixels.width as u128;
    let h: u128 = pixels.height as u128;
    proof {
        assert((4 * w) * h <= (4 * 0xffff_ffffu128) * 0xffff_ffffu128) by (nonlinear_arith)
            requires
                w <= 0xffff_ffffu128,
                h <= 0xffff_ffffu128,
        ;
    }
    let len_ok = (pixels.rgba.len() as u128) == 4 * w * h;
    len_ok && pixels.width > 0 && pixels.height > 0 && quality <= 100
}

/// Judge the encoder's raw output for the unit at `input_path`.  The WebP
/// encoder signals rejection by handing back no bytes, so an empty buffer is
/// the encode-stage failure for that unit; a non-empty buffer passes through
/// unchanged.
pub fn check_encoded(input_path: &str, encoded: Vec<u8>) -> (r: Result<Vec<u8>, FailureRecord>)
    ensures
        (r is Ok) == (encoded@.len() > 0),
        r is Ok ==> r->Ok_0@ == encoded@,
        r is Err ==> r->Err_0.path@ == input_path@
            && r->Err_0.message@ == "encode error: the encoder rejected the pixel buffer"@
            && r->Err_0.message@.take(14) == stage_prefix(ConversionStage::Encode),
{
    if encoded.len() > 0 {
        Ok(encoded)
    } else {
        let message = String::from_str("encode error: the encoder rejected the pixel buffer");
        proof {
            reveal_strlit("encode error: the encoder rejected the pixel buffer");
            assert(message@.take(14) =~= stage_prefix(ConversionStage::Encode));
        }
        Err(FailureRecord { path: input_path.to_owned(), message })
    }
}

} // verus!
