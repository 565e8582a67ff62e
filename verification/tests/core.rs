use material_cosmic::cache::CacheStore;
use material_cosmic::codec::{decode_palette, encode_palette};
use material_cosmic::color::{darken, Rgb8};
use material_cosmic::connect::{ConnAction, ConnError, ConnectionManager, RetryPolicy};
use material_cosmic::fingerprint::{fingerprint, Backend, ExtractConfig};
use material_cosmic::palette::Palette;
use material_cosmic::term::terminal_sequences;
use material_cosmic::theme::{map_theme_fields, plan_theme, ThemeKind};

fn rgb(r: u8, g: u8, b: u8) -> Rgb8 {
    Rgb8 { r, g, b }
}

fn sample_palette() -> Palette {
    let mut slots = Vec::new();
    for i in 0..16u8 {
        slots.push(rgb(i, 2 * i, 3 * i));
    }
    Palette { background: rgb(10, 20, 30), foreground: rgb(200, 210, 220), slots }
}

fn config(threshold: u16) -> ExtractConfig {
    ExtractConfig { backend: Backend::FastestDominant, threshold }
}

#[test]
fn fingerprint_is_deterministic() {
    let image = vec![1u8, 2, 3, 4, 5, 90, 200];
    let a = fingerprint(&image, &config(20));
    let b = fingerprint(&image, &config(20));
    assert_eq!(a, b);
}

#[test]
fn fingerprint_matches_the_formula() {
    // Folding a byte into the accumulator multiplies it by thirty-one,
    // adds the byte and reduces by the prime modulus; the content bytes
    // come first, then the serialized configuration.
    assert_eq!(fingerprint(&vec![1u8, 2, 3], &config(20)), 2866190313);
    assert_eq!(
        fingerprint(&Vec::new(), &ExtractConfig { backend: Backend::Full, threshold: 0 }),
        3776771467,
    );
}

#[test]
fn fingerprint_changes_with_image() {
    let a = fingerprint(&vec![1u8, 2, 3], &config(20));
    let b = fingerprint(&vec![1u8, 2, 4], &config(20));
    assert_ne!(a, b);
}

#[test]
fn fingerprint_changes_with_config() {
    let image = vec![1u8, 2, 3];
    let a = fingerprint(&image, &config(20));
    let b = fingerprint(&image, &config(17));
    let c = fingerprint(
        &image,
        &ExtractConfig { backend: Backend::Kmeans, threshold: 20 },
    );
    assert_ne!(a, b);
    assert_ne!(a, c);
}

#[test]
fn codec_round_trips() {
    let p = sample_palette();
    let bytes = encode_palette(&p);
    assert_eq!(bytes.len(), 55);
    assert_eq!(bytes[0], 1);
    assert_eq!(&bytes[1..7], &[10, 20, 30, 200, 210, 220]);
    assert_eq!(&bytes[7..13], &[0, 0, 0, 1, 2, 3]);
    let q = decode_palette(&bytes).expect("round trip");
    assert_eq!(p, q);
}

#[test]
fn codec_rejects_bad_length() {
    assert!(decode_palette(&vec![1u8; 54]).is_none());
    assert!(decode_palette(&vec![1u8; 56]).is_none());
    assert!(decode_palette(&Vec::new()).is_none());
}

#[test]
fn codec_rejects_bad_version() {
    let p = sample_palette();
    let mut bytes = encode_palette(&p);
    bytes[0] = 9;
    assert!(decode_palette(&bytes).is_none());
}

#[test]
fn cache_store_then_lookup() {
    let mut cache = CacheStore::new();
    let p = sample_palette();
    assert!(!cache.is_present(42));
    assert!(cache.store(42, &p).is_ok());
    assert!(cache.is_present(42));
    let q = cache.lookup(42).expect("stored entry");
    assert_eq!(p, q);
    assert!(cache.lookup(43).is_none());
}

#[test]
fn cache_corrupt_entry_is_a_miss() {
    let mut cache = CacheStore::new();
    cache.store_raw(7, vec![0u8, 1, 2]);
    assert!(cache.is_present(7));
    assert!(cache.lookup(7).is_none());
}

#[test]
fn cache_overwrites_wholesale() {
    let mut cache = CacheStore::new();
    let p = sample_palette();
    let mut other = sample_palette();
    other.background = rgb(1, 1, 1);
    assert!(cache.store(5, &p).is_ok());
    assert!(cache.store(5, &other).is_ok());
    assert_eq!(cache.lookup(5).expect("entry"), other);
    let raw = cache.raw_entry(5).expect("entry").clone();
    assert_eq!(raw, encode_palette(&other));
}

#[test]
fn retry_stops_after_five_transport_failures() {
    let mut mgr = ConnectionManager::new(RetryPolicy::standard());
    let mut attempts = 0;
    loop {
        match mgr.action() {
            ConnAction::AttemptTransport => {
                attempts += 1;
                mgr.record_outcome(false);
            }
            ConnAction::GiveUp { error } => {
                assert_eq!(error, ConnError::TransportUnavailable);
                break;
            }
            _ => panic!("unexpected action"),
        }
        assert!(attempts <= 5, "more attempts than the bound allows");
    }
    assert_eq!(attempts, 5);
}

#[test]
fn retry_proxy_stage_is_independent() {
    let mut mgr = ConnectionManager::new(RetryPolicy::standard());
    assert!(matches!(mgr.action(), ConnAction::AttemptTransport));
    mgr.record_outcome(true);
    let mut attempts = 0;
    loop {
        match mgr.action() {
            ConnAction::AttemptProxy => {
                attempts += 1;
                mgr.record_outcome(false);
            }
            ConnAction::GiveUp { error } => {
                assert_eq!(error, ConnError::ProxyUnavailable);
                break;
            }
            ConnAction::AttemptTransport => {
                panic!("a proxy failure must not reopen the transport");
            }
            _ => panic!("unexpected action"),
        }
    }
    assert_eq!(attempts, 5);
}

#[test]
fn retry_connects_on_success() {
    let mut mgr = ConnectionManager::new(RetryPolicy::standard());
    mgr.record_outcome(false);
    mgr.record_outcome(true);
    assert!(matches!(mgr.action(), ConnAction::AttemptProxy));
    mgr.record_outcome(false);
    mgr.record_outcome(true);
    assert!(matches!(mgr.action(), ConnAction::Done));
}

#[test]
fn theme_fields_follow_the_slots() {
    let p = sample_palette();
    let fields = map_theme_fields(&p);
    assert_eq!(fields.accent, rgb(5, 10, 15));
    assert_eq!(fields.background, darken(rgb(1, 2, 3)));
    assert_eq!(fields.background, rgb(0, 1, 2));
    assert_eq!(fields.text_tint, rgb(6, 12, 18));
    assert_eq!(fields.neutral_tint, rgb(12, 24, 36));
}

#[test]
fn darken_keeps_seven_tenths() {
    let d = darken(rgb(255, 100, 10));
    assert_eq!(d, rgb(178, 70, 7));
    assert_eq!(darken(rgb(0, 0, 0)), rgb(0, 0, 0));
}

#[test]
fn theme_mapping_is_deterministic() {
    let p = sample_palette();
    let a = plan_theme(&p, true);
    let b = plan_theme(&p, true);
    assert_eq!(a, b);
    assert_eq!(a.base_entry, ThemeKind::Dark);
    let c = plan_theme(&p, false);
    assert_eq!(c.base_entry, ThemeKind::Light);
    assert_eq!(a.fields, c.fields);
}

#[test]
fn terminal_sequences_spell_the_colors() {
    let p = sample_palette();
    let bytes = terminal_sequences(&p);
    let mut expected = Vec::new();
    for (i, c) in [
        rgb(0, 0, 0),
        rgb(1, 2, 3),
        rgb(2, 4, 6),
        rgb(3, 6, 9),
        rgb(4, 8, 12),
        rgb(5, 10, 15),
        rgb(6, 12, 18),
        rgb(7, 14, 21),
        rgb(8, 16, 24),
        rgb(9, 18, 27),
        rgb(10, 20, 30),
        rgb(11, 22, 33),
        rgb(12, 24, 36),
        rgb(13, 26, 39),
        rgb(14, 28, 42),
        rgb(15, 30, 45),
    ]
    .iter()
    .enumerate()
    {
        expected.extend_from_slice(
            format!("\x1b]4;{};rgb:{:02x}/{:02x}/{:02x}\x1b\\", i, c.r, c.g, c.b).as_bytes(),
        );
    }
    expected.extend_from_slice(b"\x1b]10;rgb:c8/d2/dc\x1b\\");
    expected.extend_from_slice(b"\x1b]11;rgb:0a/14/1e\x1b\\");
    assert_eq!(bytes, expected);
}
