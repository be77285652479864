use cam_inhibit::activity::{
    classify, kind_of_mask, ActivityKind, IN_CLOSE_NOWRITE, IN_CLOSE_WRITE, IN_OPEN,
};
use cam_inhibit::discovery::{capability_of, Capability, Discovery};
use cam_inhibit::text::{
    allowed_notice, inhibited_notice, permitted_notice, same_text, starts_with,
};

#[test]
fn masks_map_to_kinds() {
    assert_eq!(kind_of_mask(IN_OPEN), Some(ActivityKind::Opened));
    assert_eq!(kind_of_mask(0x20), Some(ActivityKind::Opened));
    assert_eq!(kind_of_mask(IN_CLOSE_WRITE), Some(ActivityKind::Closed));
    assert_eq!(kind_of_mask(IN_CLOSE_NOWRITE), Some(ActivityKind::Closed));
    assert_eq!(kind_of_mask(IN_CLOSE_WRITE | IN_CLOSE_NOWRITE), Some(ActivityKind::Closed));
    assert_eq!(kind_of_mask(0x2), None);
    assert_eq!(kind_of_mask(IN_OPEN | 0x4000_0000), None);
    assert_eq!(kind_of_mask(IN_OPEN | IN_CLOSE_WRITE), None);
}

#[test]
fn classify_keeps_cameras_only() {
    let e = classify(Some("video0"), IN_OPEN).unwrap();
    assert_eq!(e.name, "video0");
    assert_eq!(e.kind, ActivityKind::Opened);
    let e = classify(Some("video12"), IN_CLOSE_NOWRITE).unwrap();
    assert_eq!(e.name, "video12");
    assert_eq!(e.kind, ActivityKind::Closed);
    assert!(classify(Some("video"), IN_CLOSE_WRITE).is_some());
    assert!(classify(Some("audio0"), IN_OPEN).is_none());
    assert!(classify(Some("vide"), IN_OPEN).is_none());
    assert!(classify(Some("xvideo0"), IN_OPEN).is_none());
    assert!(classify(None, IN_OPEN).is_none());
    assert!(classify(Some("video0"), 0x2).is_none());
}

#[test]
fn prefix_and_equality() {
    assert!(starts_with("video0", "video"));
    assert!(starts_with("video", "video"));
    assert!(starts_with("anything", ""));
    assert!(!starts_with("vid", "video"));
    assert!(!starts_with("Video0", "video"));
    assert!(same_text("wl_compositor", "wl_compositor"));
    assert!(!same_text("wl_compositor", "wl_compositor2"));
    assert!(!same_text("wl_compositoR", "wl_compositor"));
}

#[test]
fn notices_read_as_expected() {
    assert_eq!(inhibited_notice("video0"), "Idle inhibited by video0");
    assert_eq!(permitted_notice("video3"), "Idle permitted by video3");
    assert_eq!(allowed_notice(), "Idle allowed");
}

#[test]
fn interface_names_map_to_capabilities() {
    assert_eq!(capability_of("wl_compositor"), Some(Capability::Compositor));
    assert_eq!(
        capability_of("zwp_idle_inhibit_manager_v1"),
        Some(Capability::IdleInhibitManager)
    );
    assert_eq!(capability_of("wl_shm"), None);
    assert_eq!(capability_of(""), None);
}

#[test]
fn discovery_finishes_only_when_complete() {
    let mut d: Discovery<u8, u16, u32> = Discovery::new();
    assert!(!d.is_complete());
    d.found_manager(3);
    assert!(!d.is_complete());
    assert!(Discovery::<u8, u16, u32>::new().finish().is_none());
    d.found_compositor(1, 2);
    assert!(d.is_complete());
    let caps = d.finish().unwrap();
    assert_eq!((caps.compositor, caps.surface, caps.manager), (1, 2, 3));
    let mut partial: Discovery<u8, u16, u32> = Discovery::new();
    partial.found_compositor(1, 2);
    assert!(partial.finish().is_none());
}
