use drm::control::crtc;
use drm::control::encoder;
use drm::control::{RawHandle, ResourceHandle};

const SAMPLE_IDS: [RawHandle; 8] = [0, 1, 7, 31, 32, 0x1234_5678, 0x8000_0000, u32::MAX];

fn round_trip<H: ResourceHandle>(raw: RawHandle) -> RawHandle {
    H::from_raw(raw).as_raw()
}

#[test]
fn encoder_handle_gives_its_raw_id_back() {
    for raw in SAMPLE_IDS {
        assert_eq!(encoder::Handle::from_raw(raw).as_raw(), raw);
    }
}

#[test]
fn crtc_handle_gives_its_raw_id_back() {
    for raw in SAMPLE_IDS {
        assert_eq!(crtc::Handle::from_raw(raw).as_raw(), raw);
    }
}

#[test]
fn round_trip_holds_through_the_trait() {
    for raw in SAMPLE_IDS {
        assert_eq!(round_trip::<encoder::Handle>(raw), raw);
        assert_eq!(round_trip::<crtc::Handle>(raw), raw);
    }
}

#[test]
fn zero_is_accepted_as_a_raw_id() {
    assert_eq!(encoder::Handle::from_raw(0).as_raw(), 0);
    assert_eq!(crtc::Handle::from_raw(0).as_raw(), 0);
}

#[test]
fn handles_are_equal_where_their_ids_are() {
    assert_eq!(encoder::Handle::from_raw(5), encoder::Handle::from_raw(5));
    assert_ne!(encoder::Handle::from_raw(5), encoder::Handle::from_raw(6));
    assert_eq!(crtc::Handle::from_raw(5), crtc::Handle::from_raw(5));
    assert_ne!(crtc::Handle::from_raw(0), crtc::Handle::from_raw(1));
}

#[test]
fn wrapping_the_id_of_a_handle_gives_that_handle() {
    for raw in SAMPLE_IDS {
        let handle = encoder::Handle::from_raw(raw);
        assert_eq!(encoder::Handle::from_raw(handle.as_raw()), handle);
    }
}

#[test]
fn equal_handles_hash_alike() {
    let mut seen = std::collections::HashSet::new();
    assert!(seen.insert(encoder::Handle::from_raw(3)));
    assert!(!seen.insert(encoder::Handle::from_raw(3)));
    assert!(seen.insert(encoder::Handle::from_raw(4)));
    assert_eq!(seen.len(), 2);
}

#[test]
fn encoder_handle_shows_its_class_and_id() {
    assert_eq!(encoder::Handle::from_raw(7).debug_string(), "encoder::Handle(7)");
    assert_eq!(encoder::Handle::from_raw(0).debug_string(), "encoder::Handle(0)");
    assert_eq!(encoder::Handle::from_raw(10).debug_string(), "encoder::Handle(10)");
    assert_eq!(encoder::Handle::from_raw(1905).debug_string(), "encoder::Handle(1905)");
    assert_eq!(
        encoder::Handle::from_raw(u32::MAX).debug_string(),
        "encoder::Handle(4294967295)"
    );
}

#[test]
fn encoder_handle_shows_its_id_as_the_standard_library_writes_it() {
    for raw in SAMPLE_IDS {
        assert_eq!(
            encoder::Handle::from_raw(raw).debug_string(),
            format!("encoder::Handle({})", raw)
        );
    }
}
