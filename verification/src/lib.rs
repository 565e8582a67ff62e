use vstd::prelude::*;

pub mod cache;
pub mod codec;
pub mod color;
pub mod config;
pub mod connect;
pub mod fingerprint;
pub mod options;
pub mod palette;
pub mod term;
pub mod theme;

use image::imageops::{resize, FilterType};
use material_colors::color::Argb;
use material_colors::image::{Image, ImageReader};
use material_colors::theme::ThemeBuilder;

use crate::cache::CacheStore;
use crate::codec::{decode_spec, encode_spec};
use crate::color::Rgb8;
use crate::fingerprint::{fingerprint, fingerprint_spec, ExtractConfig};
use crate::palette::{Palette, PaletteView};

verus! {

/// The material color type behind extraction: alpha, red, green and
/// blue channel bytes, declared so the channels are visible to
/// contracts.
#[verifier::external_type_specification]
pub struct ExArgb(Argb);

/// The red, green and blue channels of a material color.
pub open spec fn argb_rgb_spec(a: Argb) -> Rgb8 {
    Rgb8 { r: a.red, g: a.green, b: a.blue }
}

/// Convert a material color to the library's color, dropping alpha.
pub fn argb_to_rgb8(a: Argb) -> (r: Rgb8)
    ensures
        r == argb_rgb_spec(a),
{
    Rgb8 { r: a.red, g: a.green, b: a.blue }
}

/// Build the library palette from eighteen scheme colors: background,
/// foreground, then the sixteen ANSI slots in slot order.
pub fn scheme_palette(colors: &Vec<Argb>) -> (r: Palette)
    requires
        colors@.len() == 18,
    ensures
        r.wf(),
        r@.background == argb_rgb_spec(colors@[0]),
        r@.foreground == argb_rgb_spec(colors@[1]),
        forall|i: int| 0 <= i < 16 ==> r@.slots[i] == argb_rgb_spec(colors@[2 + i]),
{
    let background = argb_to_rgb8(colors[0]);
    let foreground = argb_to_rgb8(colors[1]);
    let mut slots: Vec<Rgb8> = Vec::new();
    for i in 0..16usize
        invariant
            colors@.len() == 18,
            slots@.len() == i,
            forall|j: int| 0 <= j < i ==> slots@[j] == argb_rgb_spec(colors@[2 + j]),
    {
        slots.push(argb_to_rgb8(colors[2 + i]));
    }
    Palette { background, foreground, slots }
}

/// Why color extraction failed. Extraction failures are fatal to a
/// generation request: there is no fallback palette source.
#[derive(Clone, Copy, Debug, PartialEq, Eq, Structural)]
pub enum ExtractError {
    /// The wallpaper bytes could not be decoded as an image.
    UnreadableImage,
}

/// Why a whole generation request failed. Caching failures never appear
/// here: a generation request fails only when the cache cannot serve it
/// and extraction itself fails.
#[derive(Clone, Copy, Debug, PartialEq, Eq, Structural)]
pub enum GenError {
    Extraction(ExtractError),
}

/// What extraction returns for given wallpaper content and
/// configuration. The pipeline behind `extract_palette` is a function
/// of its arguments alone, so its outcome carries a name that contracts
/// can speak of; which colors come back is otherwise unspecified.
pub uninterp spec fn extract_spec(image: Seq<u8>, config: ExtractConfig) -> Result<
    PaletteView,
    ExtractError,
>;

/// Extract a palette from a wallpaper's content bytes.
///
/// Relies on the image crate's `load_from_memory` to decode the bytes,
/// on its `resize` with the Lanczos3 filter, and on material_colors'
/// `ImageReader::extract_color` and `ThemeBuilder::build` for the color
/// quantization. That pipeline reads the image alone and is
/// deterministic — the quantizer is seeded with a fixed constant and
/// its maps keep insertion order — so its outcome is `extract_spec`,
/// success and failure included. The material backend takes no tuning
/// knobs, so the configuration does not steer the pipeline; it belongs
/// to the collaborator's interface and to the fingerprint. The built
/// scheme's fields fill the palette through `scheme_palette`; of the
/// slots the contracts read, slot one carries the scheme's background,
/// five its primary, six its on-background and twelve its secondary
/// container.
#[verifier::external_body]
fn extract_palette(image: &Vec<u8>, config: &ExtractConfig) -> (r: Result<Palette, ExtractError>)
    ensures
        match extract_spec(image@, *config) {
            Ok(pv) => r matches Ok(p) && p.wf() && p@ == pv,
            Err(e) => r == Err::<Palette, ExtractError>(e),
        },
{
    let Ok(decoded) = image::load_from_memory(image.as_slice()) else {
        return Err(ExtractError::UnreadableImage);
    };
    let resized = resize(&decoded.into_rgba8(), 128, 128, FilterType::Lanczos3);
    let source = ImageReader::extract_color(&Image::new(resized));
    let s = ThemeBuilder::with_source(source).build().schemes.dark;
    let v = vec![s.background, s.on_background, s.surface, s.background, s.error,
        s.error_container, s.primary_container, s.primary, s.on_background, s.secondary,
        s.surface_variant, s.outline, s.tertiary, s.tertiary_container, s.secondary_container,
        s.on_surface, s.inverse_surface, s.on_surface_variant];
    Ok(scheme_palette(&v))
}

/// Whether a generation request is served from the cache: the caller
/// does not force overwriting, and the entry under the fingerprint
/// exists and decodes.
pub open spec fn cache_hit_spec(m: Map<u64, Seq<u8>>, fp: u64, overwrite: bool) -> bool {
    !overwrite && m.contains_key(fp) && decode_spec(m[fp]) is Some
}

/// Cache bypass on overwrite: no generation request with the overwrite
/// flag set is served from the cache, however the entry under the
/// fingerprint looks, so such a request always reaches extraction and
/// never returns a stale entry.
pub proof fn lemma_overwrite_bypasses_cache(m: Map<u64, Seq<u8>>, fp: u64)
    ensures
        !cache_hit_spec(m, fp, true),
{
}

/// Cache miss fallback: an empty cache serves no request, so generation
/// over it always reaches extraction.
pub proof fn lemma_empty_cache_misses(fp: u64, overwrite: bool)
    ensures
        !cache_hit_spec(Map::<u64, Seq<u8>>::empty(), fp, overwrite),
{
}

/// Non-fatal cache corruption: an entry that does not decode serves no
/// request, so generation over it always reaches extraction instead of
/// failing.
pub proof fn lemma_corrupt_entry_misses(m: Map<u64, Seq<u8>>, fp: u64, overwrite: bool)
    requires
        m.contains_key(fp) ==> decode_spec(m[fp]) is None,
    ensures
        !cache_hit_spec(m, fp, overwrite),
{
}

/// Finish a generation request from the outcome of the extraction
/// attempt: a fresh palette is stored under the fingerprint and handed
/// back whether or not the store succeeded, while an extraction failure
/// is fatal and leaves the cache as it was.
pub fn finish_generation(
    cache: &mut CacheStore,
    fp: u64,
    extracted: Result<Palette, ExtractError>,
) -> (r: Result<Palette, GenError>)
    requires
        extracted matches Ok(p) ==> p.wf(),
    ensures
        match extracted {
            Ok(p) => {
                &&& final(cache)@ == old(cache)@.insert(fp, encode_spec(p@))
                &&& r == Ok::<Palette, GenError>(p)
            },
            Err(e) => {
                &&& final(cache)@ == old(cache)@
                &&& r == Err::<Palette, GenError>(GenError::Extraction(e))
            },
        },
{
    match extracted {
        Ok(p) => {
            // An in-memory store cannot fail; the disk-backed layer's
            // write failures are equally non-fatal to generation.
            let _ = cache.store(fp, &p);
            Ok(p)
        },
        Err(e) => Err(GenError::Extraction(e)),
    }
}

/// Generate colors for a wallpaper's content under an extraction
/// configuration. The fingerprint of content and configuration addresses
/// the cache: an intact entry is returned as it is unless overwriting is
/// forced, and on every other path extraction runs and its fresh palette
/// overwrites the entry, so away from a hit the request succeeds exactly
/// when extraction does. Caching failures never fail the request.
pub fn generate_colors(
    image: &Vec<u8>,
    config: &ExtractConfig,
    cache: &mut CacheStore,
    overwrite_cache: bool,
) -> (r: Result<Palette, GenError>)
    ensures
        ({
            let fp = fingerprint_spec(image@, *config);
            &&& (cache_hit_spec(old(cache)@, fp, overwrite_cache) ==> {
                &&& final(cache)@ == old(cache)@
                &&& match r {
                    Ok(p) => p.wf() && Some(p@) == decode_spec(old(cache)@[fp]),
                    Err(_) => false,
                }
            })
            &&& (!cache_hit_spec(old(cache)@, fp, overwrite_cache) ==> match extract_spec(
                image@,
                *config,
            ) {
                Ok(pv) => r matches Ok(p) && p.wf() && p@ == pv && final(cache)@ == old(
                    cache,
                )@.insert(fp, encode_spec(pv)),
                Err(e) => r == Err::<Palette, GenError>(GenError::Extraction(e)) && final(cache)@
                    == old(cache)@,
            })
        }),
{
    let fp = fingerprint(image, config);
    if !overwrite_cache {
        // The point of the cache: an intact entry skips extraction,
        // the expensive step, entirely.
        if let Some(p) = cache.lookup(fp) {
            return Ok(p);
        }
    }
    let extracted = extract_palette(image, config);
    finish_generation(cache, fp, extracted)
}

} // verus!
