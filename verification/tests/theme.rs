use ra_killer::theme::{LoadLevel, Theme, SCIFI_CSS};
use ratatui_style::{OwnedNode, Stylesheet};

#[test]
fn level_classes() {
    assert_eq!(LoadLevel::Normal.class(), "ok");
    assert_eq!(LoadLevel::Warn.class(), "warn");
    assert_eq!(LoadLevel::Alert.class(), "alert");
}

#[test]
fn theme_accessors_ask_for_the_right_elements() {
    let theme = Theme::new().expect("style sheet parses");
    let sheet = Stylesheet::parse(SCIFI_CSS).unwrap();
    let plain = |t: &str| sheet.compute(&OwnedNode::new(t), None);
    let with = |t: &str, c: &str| sheet.compute(&OwnedNode::new(t).with_classes([c]), None);
    assert_eq!(theme.root(), plain("Root"));
    assert_eq!(theme.header(), plain("Header"));
    assert_eq!(theme.status(LoadLevel::Normal), plain("Status"));
    assert_eq!(theme.status(LoadLevel::Warn), with("Status", "warn"));
    assert_eq!(theme.status(LoadLevel::Alert), with("Status", "alert"));
    assert_eq!(theme.panel(true), with("Panel", "main"));
    assert_eq!(theme.panel(false), plain("Panel"));
    assert_eq!(theme.value(LoadLevel::Warn), with("Value", "warn"));
    assert_eq!(theme.bar(LoadLevel::Normal), with("Bar", "ok"));
    assert_eq!(theme.row(true), with("Row", "selected"));
    assert_eq!(theme.msg(), plain("Msg"));
    assert_ne!(theme.status(LoadLevel::Warn), theme.status(LoadLevel::Alert));
    assert_ne!(theme.panel(true), theme.panel(false));
}
