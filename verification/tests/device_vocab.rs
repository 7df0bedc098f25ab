//! The PCM vocabulary codes and the status record defaults.

use orb_core::sound::{Access, Format};
use orb_core::status::Battery;

#[test]
fn access_codes_match_the_pcm_abi() {
    assert_eq!(Access::MmapInterleaved.alsa_code(), 0);
    assert_eq!(Access::MmapNoninterleaved.alsa_code(), 1);
    assert_eq!(Access::MmapComplex.alsa_code(), 2);
    assert_eq!(Access::RwInterleaved.alsa_code(), 3);
    assert_eq!(Access::RwNoninterleaved.alsa_code(), 4);
}

#[test]
fn format_codes_match_the_pcm_abi() {
    assert_eq!(Format::Unknown.alsa_code(), -1);
    assert_eq!(Format::S8.alsa_code(), 0);
    assert_eq!(Format::S16Le.alsa_code(), 2);
    assert_eq!(Format::U16Be.alsa_code(), 5);
    assert_eq!(Format::FloatLe.alsa_code(), 14);
    assert_eq!(Format::IeC958SubframeBe.alsa_code(), 19);
    assert_eq!(Format::Gsm.alsa_code(), 24);
    assert_eq!(Format::Special.alsa_code(), 31);
    assert_eq!(Format::S243Le.alsa_code(), 32);
    assert_eq!(Format::U183Be.alsa_code(), 43);
    // CPU-endian formats carry their little-endian codes.
    assert_eq!(Format::S16.alsa_code(), 2);
    assert_eq!(Format::Float.alsa_code(), 14);
    assert_eq!(Format::IeC958Subframe.alsa_code(), 18);
}

#[test]
fn battery_defaults_to_charging() {
    // Suppresses the charging sound cue when the device boots plugged in.
    let battery = Battery::default();
    assert!(battery.is_charging);
    assert_eq!(battery.level_milli, 0);
}
