use volumetric_sky::params::AtmosphereParameters;
use volumetric_sky::params::Vec3Bits;
use volumetric_sky::params::F32_BITS_ONE;
use volumetric_sky::params::F32_BITS_ZERO;
use volumetric_sky::params::PARAM_BYTES;

fn sample_params() -> AtmosphereParameters {
    AtmosphereParameters {
        sun_position: Vec3Bits { x: 1, y: 2, z: 3 },
        eye_position: Vec3Bits { x: 4, y: 5, z: 6 },
        sun_intensity: 7,
        rayleigh_scattering: Vec3Bits { x: 8, y: 9, z: 10 },
        mie_scattering: Vec3Bits { x: 11, y: 12, z: 13 },
        mie_g: 14,
        atmosphere_height: 15,
        cloud_coverage: 16,
        enable_clouds: 17,
        exposure: 18,
        multiple_scattering_factor: 0xDEAD_BEEF,
    }
}

fn words_of(p: &AtmosphereParameters) -> [u32; 19] {
    [
        p.sun_position.x,
        p.sun_position.y,
        p.sun_position.z,
        p.eye_position.x,
        p.eye_position.y,
        p.eye_position.z,
        p.sun_intensity,
        p.rayleigh_scattering.x,
        p.rayleigh_scattering.y,
        p.rayleigh_scattering.z,
        p.mie_scattering.x,
        p.mie_scattering.y,
        p.mie_scattering.z,
        p.mie_g,
        p.atmosphere_height,
        p.cloud_coverage,
        p.enable_clouds,
        p.exposure,
        p.multiple_scattering_factor,
    ]
}

#[test]
fn default_round_trip() {
    let p = AtmosphereParameters::default();
    let bytes = p.encode();
    assert_eq!(bytes.len(), PARAM_BYTES);
    assert_eq!(AtmosphereParameters::decode(&bytes), Some(p));
}

#[test]
fn sample_round_trip() {
    let p = sample_params();
    let bytes = p.encode();
    assert_eq!(AtmosphereParameters::decode(&bytes), Some(p));
}

#[test]
fn encode_is_little_endian_field_order() {
    let p = sample_params();
    let bytes = p.encode();
    let mut expected: Vec<u8> = Vec::new();
    for w in words_of(&p) {
        expected.extend_from_slice(&w.to_le_bytes());
    }
    assert_eq!(bytes, expected);
    // spot checks: first word and the sentinel in the last field
    assert_eq!(&bytes[0..4], &[1, 0, 0, 0]);
    assert_eq!(&bytes[72..76], &[0xEF, 0xBE, 0xAD, 0xDE]);
}

#[test]
fn decode_rejects_wrong_length() {
    assert_eq!(AtmosphereParameters::decode(&Vec::new()), None);
    assert_eq!(AtmosphereParameters::decode(&vec![0u8; PARAM_BYTES - 1]), None);
    assert_eq!(AtmosphereParameters::decode(&vec![0u8; PARAM_BYTES + 1]), None);
}

#[test]
fn decode_then_encode_restores_stream() {
    let bytes: Vec<u8> = (0..PARAM_BYTES as u32).map(|i| i as u8).collect();
    let p = AtmosphereParameters::decode(&bytes).unwrap();
    assert_eq!(p.encode(), bytes);
}

#[test]
fn default_bit_patterns_decode_to_expected_floats() {
    let p = AtmosphereParameters::default();
    assert_eq!(f32::from_bits(p.sun_position.x), 0.0);
    assert_eq!(f32::from_bits(p.sun_position.y), 0.25);
    assert_eq!(f32::from_bits(p.sun_position.z), 0.97);
    assert_eq!(f32::from_bits(p.eye_position.y), 0.2);
    assert_eq!(f32::from_bits(p.sun_intensity), 100000.0);
    assert_eq!(f32::from_bits(p.rayleigh_scattering.x), 5.802);
    assert_eq!(f32::from_bits(p.rayleigh_scattering.y), 13.558);
    assert_eq!(f32::from_bits(p.rayleigh_scattering.z), 33.1);
    assert_eq!(f32::from_bits(p.mie_scattering.x), 3.996);
    assert_eq!(f32::from_bits(p.mie_g), 0.8);
    assert_eq!(f32::from_bits(p.atmosphere_height), 100000.0);
    assert_eq!(f32::from_bits(p.cloud_coverage), 0.5);
    assert_eq!(f32::from_bits(p.enable_clouds), 0.0);
    assert_eq!(f32::from_bits(p.exposure), 1.0);
    assert_eq!(f32::from_bits(p.multiple_scattering_factor), 1.0);
}

#[test]
fn multiple_scattering_toggle_writes_float_bits() {
    let mut p = AtmosphereParameters::default();
    p.set_multiple_scattering(false);
    assert_eq!(p.multiple_scattering_factor, F32_BITS_ZERO);
    assert_eq!(f32::from_bits(p.multiple_scattering_factor), 0.0);
    p.set_multiple_scattering(true);
    assert_eq!(p.multiple_scattering_factor, F32_BITS_ONE);
    assert_eq!(f32::from_bits(p.multiple_scattering_factor), 1.0);
    // the toggle leaves the rest of the snapshot alone
    assert_eq!(p, AtmosphereParameters::default());
}
