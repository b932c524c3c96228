use ferrous_focus::icon_fallback::{desktop_entry_icon, fallback_candidates, icon_name_for_process};

#[test]
fn test_icon_name_mapping() {
    assert_eq!(icon_name_for_process(&"firefox-esr".to_string()), "firefox");
    assert_eq!(icon_name_for_process(&"google-chrome-stable".to_string()), "google-chrome");
    assert_eq!(icon_name_for_process(&"chromium-browser".to_string()), "chromium");
    assert_eq!(icon_name_for_process(&"code-oss".to_string()), "code");
    assert_eq!(icon_name_for_process(&"soffice.bin".to_string()), "libreoffice-startcenter");
    // An unknown name passes through unchanged.
    assert_eq!(icon_name_for_process(&"alacritty".to_string()), "alacritty");
}

#[test]
fn test_fallback_candidates_order_without_home() {
    let candidates = fallback_candidates(&"firefox-esr".to_string(), None);
    // One pixmap probe plus two roots of eight size tiers each.
    assert_eq!(candidates.len(), 1 + 2 * 8);
    assert_eq!(candidates[0], "/usr/share/pixmaps/firefox.png");
    assert_eq!(candidates[1], "/usr/share/icons/hicolor/256x256/apps/firefox.png");
    assert_eq!(candidates[8], "/usr/share/icons/hicolor/16x16/apps/firefox.png");
    assert_eq!(candidates[9], "/usr/local/share/icons/hicolor/256x256/apps/firefox.png");
    assert_eq!(candidates[16], "/usr/local/share/icons/hicolor/16x16/apps/firefox.png");
}

#[test]
fn test_fallback_candidates_with_home() {
    let home = "/home/user".to_string();
    let candidates = fallback_candidates(&"alacritty".to_string(), Some(&home));
    assert_eq!(candidates.len(), 1 + 3 * 8);
    assert_eq!(candidates[0], "/usr/share/pixmaps/alacritty.png");
    assert_eq!(
        candidates[17],
        "/home/user/.local/share/icons/hicolor/256x256/apps/alacritty.png"
    );
    assert_eq!(
        candidates[24],
        "/home/user/.local/share/icons/hicolor/16x16/apps/alacritty.png"
    );
}

#[test]
fn test_desktop_entry_icon_first_match() {
    let lines = vec![
        "[Desktop Entry]".to_string(),
        "Name=Some App".to_string(),
        "Icon=someapp".to_string(),
        "Icon=other".to_string(),
    ];
    assert_eq!(desktop_entry_icon(&lines), Some("someapp".to_string()));
}

#[test]
fn test_desktop_entry_icon_absent() {
    let lines = vec!["[Desktop Entry]".to_string(), "Name=Some App".to_string()];
    assert_eq!(desktop_entry_icon(&lines), None);
    assert_eq!(desktop_entry_icon(&Vec::new()), None);
}
