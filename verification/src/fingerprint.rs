use vstd::prelude::*;

verus! {

/// Which color extraction backend is asked for. The choice is part of the
/// extraction configuration and therefore of the cache fingerprint.
#[derive(Clone, Copy, Debug, PartialEq, Eq, Structural, Hash)]
pub enum Backend {
    Full,
    Resized,
    Wal,
    Thumb,
    FastResize,
    Kmeans,
    FastestDominant,
}

/// The extraction configuration: backend choice and tunable threshold.
/// Any change to it must change the cache fingerprint.
#[derive(Clone, Copy, Debug, PartialEq, Eq, Structural, Hash)]
pub struct ExtractConfig {
    pub backend: Backend,
    pub threshold: u16,
}

/// One byte standing for each backend choice in the serialized
/// configuration.
pub open spec fn backend_byte_spec(b: Backend) -> u8 {
    match b {
        Backend::Full => 0u8,
        Backend::Resized => 1u8,
        Backend::Wal => 2u8,
        Backend::Thumb => 3u8,
        Backend::FastResize => 4u8,
        Backend::Kmeans => 5u8,
        Backend::FastestDominant => 6u8,
    }
}

/// The serialized extraction configuration: the backend byte followed by
/// the threshold, low byte first.
pub open spec fn config_bytes_spec(c: ExtractConfig) -> Seq<u8> {
    seq![
        backend_byte_spec(c.backend),
        (c.threshold & 0xff) as u8,
        (c.threshold >> 8) as u8,
    ]
}

/// The modulus of the fingerprint accumulator: a prime below 2^32, so that
/// one accumulation step stays far below 2^64.
pub const FP_MODULUS: u64 = 0xffff_fffb;

/// The fingerprint accumulator's start value.
pub const FP_SEED: u64 = 0x811c_9dc5;

/// One accumulation step: fold one byte into the running value.
pub open spec fn fp_step(h: int, b: u8) -> int {
    (h * 31 + b) % (FP_MODULUS as int)
}

/// Fold a whole byte sequence into the running value, left to right.
pub open spec fn fp_fold(h: int, s: Seq<u8>) -> int
    decreases s.len(),
{
    if s.len() == 0 {
        h
    } else {
        fp_fold(fp_step(h, s[0]), s.drop_first())
    }
}

/// The fingerprint of a wallpaper's content together with the extraction
/// configuration: the content bytes are folded in first, the serialized
/// configuration after them. Identical inputs give identical fingerprints.
pub open spec fn fingerprint_spec(image: Seq<u8>, config: ExtractConfig) -> u64 {
    fp_fold(fp_fold(FP_SEED as int, image), config_bytes_spec(config)) as u64
}

fn backend_byte(b: Backend) -> (r: u8)
    ensures
        r == backend_byte_spec(b),
{
    match b {
        Backend::Full => 0u8,
        Backend::Resized => 1u8,
        Backend::Wal => 2u8,
        Backend::Thumb => 3u8,
        Backend::FastResize => 4u8,
        Backend::Kmeans => 5u8,
        Backend::FastestDominant => 6u8,
    }
}

/// The serialized extraction configuration as bytes.
pub fn config_bytes(c: &ExtractConfig) -> (r: Vec<u8>)
    ensures
        r@ == config_bytes_spec(*c),
{
    let mut out: Vec<u8> = Vec::new();
    out.push(backend_byte(c.backend));
    out.push((c.threshold & 0xff) as u8);
    out.push((c.threshold >> 8) as u8);
    proof {
        assert(out@ =~= config_bytes_spec(*c));
    }
    out
}

fn fold_bytes(h0: u64, bytes: &Vec<u8>) -> (r: u64)
    requires
        h0 < FP_MODULUS,
    ensures
        r == fp_fold(h0 as int, bytes@),
        r < FP_MODULUS,
{
    let mut h: u64 = h0;
    let n = bytes.len();
    proof {
        assert(bytes@.skip(0) =~= bytes@);
    }
    for i in 0..n
        invariant
            n == bytes@.len(),
            h < FP_MODULUS,
            fp_fold(h as int, bytes@.skip(i as int)) == fp_fold(h0 as int, bytes@),
    {
        proof {
            assert(bytes@.skip(i as int)[0] == bytes@[i as int]);
            assert(bytes@.skip(i as int).drop_first() =~= bytes@.skip(i + 1));
        }
        h = (h * 31 + (bytes[i] as u64)) % FP_MODULUS;
    }
    proof {
        assert(bytes@.skip(n as int) =~= Seq::<u8>::empty());
    }
    h
}

/// Compute the fingerprint of the wallpaper content `image` under the
/// extraction configuration `config`.
pub fn fingerprint(image: &Vec<u8>, config: &ExtractConfig) -> (r: u64)
    ensures
        r == fingerprint_spec(image@, *config),
{
    let h = fold_bytes(FP_SEED, image);
    let cfg = config_bytes(config);
    fold_bytes(h, &cfg)
}

/// Fingerprint determinism: equal wallpaper content and equal extraction
/// configuration always give equal fingerprints.
pub proof fn lemma_fingerprint_deterministic(
    image1: Seq<u8>,
    config1: ExtractConfig,
    image2: Seq<u8>,
    config2: ExtractConfig,
)
    requires
        image1 == image2,
        config1 == config2,
    ensures
        fingerprint_spec(image1, config1) == fingerprint_spec(image2, config2),
{
}

} // verus!
