use material_cosmic::cache::CacheStore;
use material_cosmic::codec::encode_palette;
use material_cosmic::color::Rgb8;
use material_cosmic::fingerprint::{fingerprint, Backend, ExtractConfig};
use material_cosmic::generate_colors;
use material_cosmic::palette::Palette;
use material_cosmic::{ExtractError, GenError};

/// A two-by-two 24-bit uncompressed bitmap, rows given top to bottom,
/// each pixel as red, green, blue.
fn bmp(pixels: [[u8; 3]; 4]) -> Vec<u8> {
    let mut v = Vec::new();
    v.extend_from_slice(b"BM");
    v.extend_from_slice(&70u32.to_le_bytes());
    v.extend_from_slice(&0u32.to_le_bytes());
    v.extend_from_slice(&54u32.to_le_bytes());
    v.extend_from_slice(&40u32.to_le_bytes());
    v.extend_from_slice(&2i32.to_le_bytes());
    v.extend_from_slice(&2i32.to_le_bytes());
    v.extend_from_slice(&1u16.to_le_bytes());
    v.extend_from_slice(&24u16.to_le_bytes());
    v.extend_from_slice(&0u32.to_le_bytes());
    v.extend_from_slice(&16u32.to_le_bytes());
    v.extend_from_slice(&2835u32.to_le_bytes());
    v.extend_from_slice(&2835u32.to_le_bytes());
    v.extend_from_slice(&0u32.to_le_bytes());
    v.extend_from_slice(&0u32.to_le_bytes());
    for row in [[pixels[2], pixels[3]], [pixels[0], pixels[1]]] {
        for p in row {
            v.push(p[2]);
            v.push(p[1]);
            v.push(p[0]);
        }
        v.push(0);
        v.push(0);
    }
    v
}

fn blue_wallpaper() -> Vec<u8> {
    bmp([[10, 40, 200], [20, 60, 220], [5, 30, 180], [40, 80, 240]])
}

fn config() -> ExtractConfig {
    ExtractConfig { backend: Backend::FastestDominant, threshold: 20 }
}

fn doctored_palette() -> Palette {
    let mut slots = Vec::new();
    for _ in 0..16 {
        slots.push(Rgb8 { r: 1, g: 2, b: 3 });
    }
    Palette {
        background: Rgb8 { r: 4, g: 5, b: 6 },
        foreground: Rgb8 { r: 7, g: 8, b: 9 },
        slots,
    }
}

#[test]
fn generation_populates_an_empty_cache() {
    let image = blue_wallpaper();
    let mut cache = CacheStore::new();
    let fp = fingerprint(&image, &config());
    assert!(!cache.is_present(fp));
    let p = generate_colors(&image, &config(), &mut cache, false).expect("extraction");
    assert_eq!(p.slots.len(), 16);
    assert!(cache.is_present(fp));
    assert_eq!(cache.raw_entry(fp).expect("entry").clone(), encode_palette(&p));
}

#[test]
fn generation_returns_the_cached_palette_without_extracting() {
    let image = blue_wallpaper();
    let mut cache = CacheStore::new();
    let fp = fingerprint(&image, &config());
    let doctored = doctored_palette();
    assert!(cache.store(fp, &doctored).is_ok());
    // The doctored entry comes back as it is: extraction never ran, or
    // the genuine extracted palette would have replaced it.
    let p = generate_colors(&image, &config(), &mut cache, false).expect("cache hit");
    assert_eq!(p, doctored);
    assert_eq!(cache.raw_entry(fp).expect("entry").clone(), encode_palette(&doctored));
}

#[test]
fn overwrite_bypasses_a_present_entry() {
    let image = blue_wallpaper();
    let mut cache = CacheStore::new();
    let fp = fingerprint(&image, &config());
    let doctored = doctored_palette();
    assert!(cache.store(fp, &doctored).is_ok());
    assert!(cache.is_present(fp));
    let p = generate_colors(&image, &config(), &mut cache, true).expect("extraction");
    assert_ne!(p, doctored, "the stale entry must not be returned");
    assert_eq!(cache.raw_entry(fp).expect("entry").clone(), encode_palette(&p));
}

#[test]
fn corrupt_entry_falls_back_to_extraction() {
    let image = blue_wallpaper();
    let mut cache = CacheStore::new();
    let fp = fingerprint(&image, &config());
    cache.store_raw(fp, vec![255u8, 0, 255]);
    let p = generate_colors(&image, &config(), &mut cache, false).expect("extraction");
    assert_eq!(p.slots.len(), 16);
    assert_eq!(cache.raw_entry(fp).expect("entry").clone(), encode_palette(&p));
}

#[test]
fn undecodable_image_is_fatal_and_leaves_the_cache_alone() {
    let image = vec![0u8, 1, 2, 3, 4, 5];
    let mut cache = CacheStore::new();
    let fp = fingerprint(&image, &config());
    let r = generate_colors(&image, &config(), &mut cache, false);
    assert_eq!(r, Err(GenError::Extraction(ExtractError::UnreadableImage)));
    assert!(!cache.is_present(fp));
}

#[test]
fn repeated_generation_round_trips_through_the_cache() {
    let image = blue_wallpaper();
    let mut cache = CacheStore::new();
    let first = generate_colors(&image, &config(), &mut cache, false).expect("extraction");
    let second = generate_colors(&image, &config(), &mut cache, false).expect("cache hit");
    assert_eq!(first, second);
    let third = generate_colors(&image, &config(), &mut cache, true).expect("extraction");
    assert_eq!(third.slots.len(), 16);
    let fp = fingerprint(&image, &config());
    assert_eq!(cache.raw_entry(fp).expect("entry").clone(), encode_palette(&third));
    let other_image = bmp([[200, 10, 10], [220, 30, 20], [180, 5, 5], [240, 40, 40]]);
    let other_fp = fingerprint(&other_image, &config());
    assert_ne!(fp, other_fp);
}
