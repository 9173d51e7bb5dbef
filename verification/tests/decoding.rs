use webp_batch::convert::decode_step;
use webp_batch::convert::encode_ready;
use webp_batch::convert::resize_dims_valid;
use webp_batch::convert::PixelBuffer;
use webp_batch::convert::DEFAULT_QUALITY;

fn png_bytes(width: u32, height: u32) -> Vec<u8> {
    let img = image::RgbaImage::from_pixel(width, height, image::Rgba([10, 20, 30, 255]));
    let mut bytes: Vec<u8> = Vec::new();
    img.write_to(&mut std::io::Cursor::new(&mut bytes), image::ImageOutputFormat::Png)
        .expect("encoding a test image must succeed");
    bytes
}

#[test]
fn valid_image_decodes_to_rgba() {
    let bytes = png_bytes(10, 10);
    let decoded = decode_step("/in/a/b.png", &bytes).expect("a valid image must decode");
    assert_eq!(decoded.width, 10);
    assert_eq!(decoded.height, 10);
    assert_eq!(decoded.rgba.len(), 400);
    assert_eq!(&decoded.rgba[0..4], &[10, 20, 30, 255]);
}

#[test]
fn zero_byte_input_fails_with_decode_error() {
    let bytes: Vec<u8> = Vec::new();
    let failure = decode_step("/in/x.png", &bytes).err().expect("empty bytes must not decode");
    assert_eq!(failure.path, "/in/x.png");
    assert!(failure.message.starts_with("decode error: "));
}

#[test]
fn garbage_input_fails_with_decode_error() {
    let bytes = vec![0u8; 64];
    let failure = decode_step("/in/noise.jpg", &bytes).err().expect("garbage must not decode");
    assert_eq!(failure.path, "/in/noise.jpg");
    assert!(failure.message.starts_with("decode error: "));
}

#[test]
fn encoder_guards_check_layout_and_quality() {
    let good = PixelBuffer { width: 2, height: 3, rgba: vec![0u8; 24] };
    assert!(encode_ready(&good, DEFAULT_QUALITY));
    assert!(!encode_ready(&good, 101));
    let short = PixelBuffer { width: 2, height: 3, rgba: vec![0u8; 23] };
    assert!(!encode_ready(&short, DEFAULT_QUALITY));
    let empty = PixelBuffer { width: 0, height: 3, rgba: Vec::new() };
    assert!(!encode_ready(&empty, DEFAULT_QUALITY));
}

#[test]
fn stage_failures_name_the_path_and_the_stage() {
    let o = webp_batch::convert::stage_failure(
        "/in/a.png",
        webp_batch::convert::ConversionStage::WriteOutput,
        "disk full",
    );
    match o {
        webp_batch::outcome::Outcome::Failed(f) => {
            assert_eq!(f.path, "/in/a.png");
            assert_eq!(f.message, "write error: disk full");
        }
        webp_batch::outcome::Outcome::Success => panic!("a stage failure is never a success"),
    }
    let o = webp_batch::convert::stage_failure(
        "/in/b.bmp",
        webp_batch::convert::ConversionStage::ReadInput,
        "permission denied",
    );
    match o {
        webp_batch::outcome::Outcome::Failed(f) => {
            assert_eq!(f.message, "read error: permission denied");
        }
        webp_batch::outcome::Outcome::Success => panic!("a stage failure is never a success"),
    }
}

#[test]
fn empty_encoder_output_is_an_encode_failure() {
    let failure = webp_batch::convert::check_encoded("/in/a.png", Vec::new())
        .err()
        .expect("an empty encoder output must be rejected");
    assert_eq!(failure.path, "/in/a.png");
    assert_eq!(failure.message, "encode error: the encoder rejected the pixel buffer");
    let passed = webp_batch::convert::check_encoded("/in/a.png", vec![1, 2, 3])
        .expect("a non-empty encoder output passes through");
    assert_eq!(passed, vec![1, 2, 3]);
}

#[test]
fn resize_must_not_collapse_a_dimension() {
    assert!(resize_dims_valid(1, 1));
    assert!(resize_dims_valid(10, 10));
    assert!(!resize_dims_valid(0, 10));
    assert!(!resize_dims_valid(10, 0));
}
