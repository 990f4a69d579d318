use error_registry::Insets;
use error_registry::Orientation;
use error_registry::Outline;
use error_registry::UserAgentMetadata;

#[test]
fn builds_orientation_with_outline() {
    let orientation = Orientation {
        width: 1170,
        height: 2532,
        outline: Some(Outline {
            image: Some(String::from("outline.svg")),
            insets: Some(Insets { left: 10, top: 20, right: 10, bottom: 30 }),
        }),
    };
    let copy = orientation.clone();
    assert_eq!(copy.width, 1170);
    assert_eq!(copy.height, 2532);
    let outline = copy.outline.unwrap();
    assert_eq!(outline.image.as_deref(), Some("outline.svg"));
    let insets = outline.insets.unwrap();
    assert_eq!(insets.left, 10);
    assert_eq!(insets.bottom, 30);
}

#[test]
fn builds_orientation_without_outline() {
    let orientation = Orientation { width: 800, height: 600, outline: None };
    assert!(orientation.outline.is_none());
}

#[test]
fn builds_user_agent_metadata() {
    let metadata = UserAgentMetadata {
        platform: String::from("Android"),
        platform_version: String::from("14"),
        architecture: String::from("arm64"),
        model: String::from("Pixel 8"),
        mobile: true,
    };
    let copy = metadata.clone();
    assert_eq!(copy.platform.as_str(), "Android");
    assert_eq!(copy.platform_version.as_str(), "14");
    assert!(copy.mobile);
}
