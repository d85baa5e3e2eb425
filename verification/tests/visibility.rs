use hsrn::visibility::verdict_from_checks;
use hsrn::VisibilityResult;

#[test]
fn visible_is_visible() {
    assert!(VisibilityResult::Visible.is_visible());
    assert!(!VisibilityResult::Occluded { by: "Earth" }.is_visible());
}

#[test]
fn no_blocking_body_is_visible() {
    let checks = [("Earth", false), ("Sun", false), ("Mars", false)];
    assert_eq!(verdict_from_checks(&checks), VisibilityResult::Visible);
}

#[test]
fn earth_is_reported_first() {
    let checks = [("Earth", true), ("Sun", true), ("Mars", true)];
    assert_eq!(
        verdict_from_checks(&checks),
        VisibilityResult::Occluded { by: "Earth" }
    );
}

#[test]
fn sun_is_reported_before_mars() {
    let checks = [("Earth", false), ("Sun", true), ("Mars", true)];
    assert_eq!(
        verdict_from_checks(&checks),
        VisibilityResult::Occluded { by: "Sun" }
    );
}

#[test]
fn mars_alone_blocks() {
    let checks = [("Earth", false), ("Sun", false), ("Mars", true)];
    assert_eq!(
        verdict_from_checks(&checks),
        VisibilityResult::Occluded { by: "Mars" }
    );
}

#[test]
fn no_checks_is_visible() {
    assert!(verdict_from_checks(&[]).is_visible());
}
