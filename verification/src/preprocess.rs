//! Deterministic conversion of uploaded image bytes into the canonical
//! planar pixel tensor.
//!
//! Decoding and resizing are done by the `image` crate behind one trusted
//! wrapper; the reordering of the decoded interleaved RGB bytes into the
//! planar (channel-major) layout is verified here. The tensor holds the
//! raw 8-bit samples; the backend consumes each sample `v` as the
//! normalized value `v / 255`, so the tensor determines the float input
//! exactly.

use vstd::prelude::*;

use crate::config::InferenceConfig;

verus! {

/// Whether the `image` crate can decode this byte buffer at all. Decoding
/// depends on the bytes alone, so success is a function of them.
pub uninterp spec fn decode_ok(bytes: Seq<u8>) -> bool;

/// The interleaved RGB8 samples (R, G, B per pixel, pixels in row-major
/// order) that the `image` crate produces for this byte buffer once it is
/// decoded, resized to `width` x `height` with the triangular filter, and
/// forced to 3-channel 8-bit RGB. The whole chain computes from the bytes
/// and the target dimensions alone.
pub uninterp spec fn decoded_rgb(bytes: Seq<u8>, height: int, width: int) -> Seq<u8>;

/// Relies on the `image` crate: `ImageReader::with_guessed_format` picks
/// the format from the leading magic bytes (infallibly, as the reader is
/// in-memory), `decode` succeeds or fails on the bytes alone,
/// `resize_exact` with `FilterType::Triangle` returns an image of exactly
/// the requested dimensions, and `to_rgb8().into_raw()` hands back one
/// interleaved RGB triple per pixel, so 3 * height * width bytes.
#[verifier::external_body]
fn decode_resize_rgb8(bytes: &[u8], height: u32, width: u32) -> (r: Result<Vec<u8>, String>)
    ensures
        r is Ok <==> decode_ok(bytes@),
        r matches Ok(v) ==> v@ == decoded_rgb(bytes@, height as int, width as int) && v@.len() == 3
            * ((height as int) * (width as int)),
{
    let reader = image::ImageReader::new(std::io::Cursor::new(bytes))
        .with_guessed_format()
        .map_err(|e| format!("Unsupported image format: {}", e))?;
    let img = reader.decode().map_err(|e| format!("Failed to decode image: {}", e))?;
    let resized = img.resize_exact(width, height, image::imageops::FilterType::Triangle);
    Ok(resized.to_rgb8().into_raw())
}

/// One channel plane of an interleaved RGB buffer: the `n` samples of
/// channel `c`, in row-major pixel order.
pub open spec fn channel_plane(rgb: Seq<u8>, c: int, n: int) -> Seq<u8> {
    Seq::new(n as nat, |i: int| rgb[3 * i + c])
}

/// The planar (channel-major) layout of an interleaved RGB buffer with
/// `n` pixels: all red samples contiguous, then all green, then all blue,
/// each in row-major pixel order.
pub open spec fn planar_of(rgb: Seq<u8>, n: int) -> Seq<u8> {
    channel_plane(rgb, 0, n) + channel_plane(rgb, 1, n) + channel_plane(rgb, 2, n)
}

/// The planar layout, pinned down index by index: sample `p` of channel
/// `c` of the planar buffer is sample `c` of pixel `p` of the interleaved
/// buffer. This is the structural statement of the layout; a bug that
/// interleaved the channels would break it.
pub proof fn lemma_planar_layout(rgb: Seq<u8>, n: int, c: int, p: int)
    requires
        rgb.len() == 3 * n,
        0 <= c < 3,
        0 <= p < n,
    ensures
        planar_of(rgb, n).len() == 3 * n,
        planar_of(rgb, n)[c * n + p] == rgb[3 * p + c],
{
    if c == 0 {
        assert(planar_of(rgb, n)[c * n + p] == channel_plane(rgb, 0, n)[p]);
    } else if c == 1 {
        assert(planar_of(rgb, n)[c * n + p] == channel_plane(rgb, 1, n)[p]);
    } else {
        assert(planar_of(rgb, n)[c * n + p] == channel_plane(rgb, 2, n)[p]);
    }
}

/// The canonical model input: a flat buffer of 8-bit samples in planar
/// (channel-major) RGB layout, exactly `3 * height * width` of them. Each
/// sample `v` stands for the normalized pixel value `v / 255`.
pub struct PixelTensor {
    /// The samples, planar: `height * width` red samples, then green,
    /// then blue.
    pub data: Vec<u8>,
    /// Height of the resized image.
    pub height: usize,
    /// Width of the resized image.
    pub width: usize,
}

impl PixelTensor {
    /// The shape invariant every downstream stage relies on: the buffer
    /// holds exactly `3 * height * width` samples.
    pub open spec fn wf(&self) -> bool {
        &&& self.data@.len() == 3 * (self.height * self.width)
        &&& 3 * (self.height * self.width) <= usize::MAX
    }

    /// The samples, as a sequence.
    pub open spec fn view(&self) -> Seq<u8> {
        self.data@
    }

    /// Number of samples held; always `3 * height * width`.
    pub fn len(&self) -> (r: usize)
        ensures
            r == self@.len(),
    {
        self.data.len()
    }

    /// The sample of the given channel at the given pixel, addressed by
    /// the planar layout.
    pub fn sample(&self, c: usize, p: usize) -> (r: u8)
        requires
            self.wf(),
            c < 3,
            p < self.height * self.width,
        ensures
            r == self@[c * (self.height * self.width) + p],
    {
        proof {
            vstd::arithmetic::mul::lemma_mul_inequality(c as int + 1, 3, (self.height
                * self.width) as int);
            vstd::arithmetic::mul::lemma_mul_is_distributive_add_other_way(
                (self.height * self.width) as int,
                c as int,
                1,
            );
        }
        self.data[c * (self.height * self.width) + p]
    }
}

/// Reorders an interleaved RGB buffer of `n` pixels into the planar
/// layout: the red plane, then the green plane, then the blue plane.
fn planarize(rgb: &Vec<u8>, n: usize) -> (r: Vec<u8>)
    requires
        rgb@.len() == 3 * n,
        3 * n <= usize::MAX,
    ensures
        r@ == planar_of(rgb@, n as int),
        r@.len() == 3 * n,
{
    let mut red: Vec<u8> = Vec::new();
    let mut green: Vec<u8> = Vec::new();
    let mut blue: Vec<u8> = Vec::new();
    let mut i: usize = 0;
    while i < n
        invariant
            rgb@.len() == 3 * n,
            3 * n <= usize::MAX,
            i <= n,
            red@ =~= channel_plane(rgb@, 0, i as int),
            green@ =~= channel_plane(rgb@, 1, i as int),
            blue@ =~= channel_plane(rgb@, 2, i as int),
        decreases n - i,
    {
        red.push(rgb[3 * i]);
        green.push(rgb[3 * i + 1]);
        blue.push(rgb[3 * i + 2]);
        i = i + 1;
    }
    let mut out = red;
    out.append(&mut green);
    out.append(&mut blue);
    assert(out@ =~= planar_of(rgb@, n as int));
    out
}

/// Decodes an uploaded byte buffer, resizes it to the configured
/// dimensions with the triangular filter, forces it to 3-channel RGB and
/// reorders it into the planar tensor layout. Fails exactly on buffers
/// the decoder rejects, and on failure returns only the message — never a
/// partially filled tensor.
pub fn preprocess_bytes(bytes: &[u8], cfg: &InferenceConfig) -> (r: Result<PixelTensor, String>)
    requires
        cfg.wf(),
    ensures
        r is Ok <==> decode_ok(bytes@),
        r matches Ok(t) ==> t.wf() && t.height == cfg.image_height && t.width == cfg.image_width
            && t@ == planar_of(
            decoded_rgb(bytes@, cfg.image_height as int, cfg.image_width as int),
            cfg.image_height * cfg.image_width,
        ) && t@.len() == 3 * (cfg.image_height * cfg.image_width),
{
    let height: u32 = cfg.image_height as u32;
    let width: u32 = cfg.image_width as u32;
    let rgb = match decode_resize_rgb8(bytes, height, width) {
        Ok(v) => v,
        Err(e) => {
            return Err(e);
        },
    };
    let n = cfg.image_height * cfg.image_width;
    let data = planarize(&rgb, n);
    Ok(PixelTensor { data, height: cfg.image_height, width: cfg.image_width })
}

/// Preprocessing is deterministic: the tensor is a function of the input
/// bytes and the configured dimensions alone, so identical input bytes
/// yield identical tensors on every invocation.
pub proof fn lemma_preprocess_deterministic(b1: Seq<u8>, b2: Seq<u8>, height: int, width: int)
    requires
        b1 == b2,
    ensures
        decode_ok(b1) == decode_ok(b2),
        planar_of(decoded_rgb(b1, height, width), height * width) == planar_of(
            decoded_rgb(b2, height, width),
            height * width,
        ),
{
}

} // verus!
