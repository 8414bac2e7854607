use mdnotes::models::Folder;
use mdnotes::settings::SettingsPanel;
use mdnotes::style::Rgb;
use mdnotes::style::RunStyle;
use mdnotes::style::StyleContext;

#[test]
fn folder_new_starts_empty() {
    let f = Folder::new("Ideas", Rgb::new(10, 20, 30), String::from("/r/Ideas"));
    assert_eq!(f.name, "Ideas");
    assert_eq!(f.color, Rgb { r: 10, g: 20, b: 30 });
    assert_eq!(f.notes.len(), 0);
    assert_eq!(f.path, "/r/Ideas");
}

#[test]
fn settings_panel_holds_and_toggles_dark_mode() {
    let mut p = SettingsPanel::new(true);
    assert!(p.dark_mode);
    p.toggle_dark_mode();
    assert!(!p.dark_mode);
    p.toggle_dark_mode();
    assert!(p.dark_mode);
}

#[test]
fn base_style_comes_from_context() {
    let c = StyleContext {
        body_size: 16,
        heading_size: 30,
        mono_size: 13,
        text_color: Rgb { r: 1, g: 2, b: 3 },
        strong_color: Rgb { r: 4, g: 5, b: 6 },
    };
    assert_eq!(
        c.base_style(),
        RunStyle { size: 16, italic: false, monospace: false, color: Rgb { r: 1, g: 2, b: 3 } }
    );
    assert_eq!(c.heading_px(1), 30);
    assert_eq!(c.heading_px(2), 28);
    assert_eq!(c.heading_px(6), 20);
}
