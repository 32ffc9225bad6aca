use pulseeffects::icon_theme::IconTheme;
use pulseeffects::icon_theme::ToolkitContext;
use pulseeffects::registrar::icon_resource_path;
use pulseeffects::registrar::register_icon_path;

const ICON_PATH: &str = "/com/github/wwmm/pulseeffects/icons";

#[test]
fn icon_resource_path_is_the_fixed_constant() {
    assert_eq!(icon_resource_path(), ICON_PATH);
}

#[test]
fn new_theme_has_no_paths() {
    let theme = IconTheme::new();
    assert_eq!(theme.path_count(), 0);
    assert!(!theme.has_resource_path(ICON_PATH));
}

#[test]
fn registering_once_makes_the_path_present() {
    let mut ctx = ToolkitContext { default_theme: Some(IconTheme::new()) };
    let registered = register_icon_path(&mut ctx);
    assert!(registered);
    let theme = ctx.default_theme.expect("default theme stays available");
    assert!(theme.has_resource_path(ICON_PATH));
    assert_eq!(theme.path_count(), 1);
    assert_eq!(theme.resource_paths, vec![ICON_PATH.to_owned()]);
}

#[test]
fn registering_twice_keeps_the_path_present() {
    let mut ctx = ToolkitContext { default_theme: Some(IconTheme::new()) };
    assert!(register_icon_path(&mut ctx));
    assert!(register_icon_path(&mut ctx));
    let theme = ctx.default_theme.expect("default theme stays available");
    assert!(theme.has_resource_path(ICON_PATH));
    assert_eq!(theme.path_count(), 2);
}

#[test]
fn registering_preserves_existing_paths_and_order() {
    let mut theme = IconTheme::new();
    theme.add_resource_path("/usr/share/icons".to_owned());
    let mut ctx = ToolkitContext { default_theme: Some(theme) };
    assert!(register_icon_path(&mut ctx));
    let theme = ctx.default_theme.expect("default theme stays available");
    assert!(theme.has_resource_path("/usr/share/icons"));
    assert!(theme.has_resource_path(ICON_PATH));
    assert_eq!(
        theme.resource_paths,
        vec!["/usr/share/icons".to_owned(), ICON_PATH.to_owned()]
    );
}

#[test]
fn registering_without_default_theme_fails_and_leaves_no_state() {
    let mut ctx = ToolkitContext { default_theme: None };
    let registered = register_icon_path(&mut ctx);
    assert!(!registered);
    assert!(ctx.default_theme.is_none());
}

#[test]
fn has_resource_path_rejects_other_paths() {
    let mut theme = IconTheme::new();
    theme.add_resource_path(ICON_PATH.to_owned());
    assert!(!theme.has_resource_path("/com/github/wwmm/pulseeffects"));
    assert!(!theme.has_resource_path(""));
}
