use drm::control::encoder::Type;
use drm::ffi;

#[test]
fn kernel_constants_have_their_values() {
    assert_eq!(ffi::DRM_MODE_ENCODER_NONE, 0);
    assert_eq!(ffi::DRM_MODE_ENCODER_DAC, 1);
    assert_eq!(ffi::DRM_MODE_ENCODER_TMDS, 2);
    assert_eq!(ffi::DRM_MODE_ENCODER_LVDS, 3);
    assert_eq!(ffi::DRM_MODE_ENCODER_TVDAC, 4);
    assert_eq!(ffi::DRM_MODE_ENCODER_VIRTUAL, 5);
    assert_eq!(ffi::DRM_MODE_ENCODER_DSI, 6);
    assert_eq!(ffi::DRM_MODE_ENCODER_DPMST, 7);
    assert_eq!(ffi::DRM_MODE_ENCODER_DPI, 8);
}

#[test]
fn each_kernel_constant_decodes_to_its_variant() {
    assert_eq!(Type::from(ffi::DRM_MODE_ENCODER_NONE), Type::NONE);
    assert_eq!(Type::from(ffi::DRM_MODE_ENCODER_DAC), Type::DAC);
    assert_eq!(Type::from(ffi::DRM_MODE_ENCODER_TMDS), Type::TMDS);
    assert_eq!(Type::from(ffi::DRM_MODE_ENCODER_LVDS), Type::LVDS);
    assert_eq!(Type::from(ffi::DRM_MODE_ENCODER_TVDAC), Type::TVDAC);
    assert_eq!(Type::from(ffi::DRM_MODE_ENCODER_VIRTUAL), Type::Virtual);
    assert_eq!(Type::from(ffi::DRM_MODE_ENCODER_DSI), Type::DSI);
    assert_eq!(Type::from(ffi::DRM_MODE_ENCODER_DPMST), Type::DPMST);
    assert_eq!(Type::from(ffi::DRM_MODE_ENCODER_DPI), Type::DPI);
}

#[test]
fn each_number_from_zero_to_eight_decodes_to_its_variant() {
    let expected = [
        Type::NONE,
        Type::DAC,
        Type::TMDS,
        Type::LVDS,
        Type::TVDAC,
        Type::Virtual,
        Type::DSI,
        Type::DPMST,
        Type::DPI,
    ];
    for (n, variant) in expected.iter().enumerate() {
        assert_eq!(Type::from(n as u32), *variant);
    }
}

#[test]
fn unknown_numbers_decode_to_none() {
    assert_eq!(Type::from(9), Type::NONE);
    assert_eq!(Type::from(10), Type::NONE);
    assert_eq!(Type::from(100), Type::NONE);
    assert_eq!(Type::from(0x100), Type::NONE);
    assert_eq!(Type::from(0x8000_0002), Type::NONE);
    assert_eq!(Type::from(u32::MAX), Type::NONE);
}

#[test]
fn decoding_goes_through_into_as_well() {
    let decoded: Type = 6u32.into();
    assert_eq!(decoded, Type::DSI);
    let unknown: Type = 4242u32.into();
    assert_eq!(unknown, Type::NONE);
}

#[test]
fn distinct_constants_decode_to_distinct_variants() {
    for a in 0..9u32 {
        for b in 0..9u32 {
            assert_eq!(Type::from(a) == Type::from(b), a == b);
        }
    }
}
