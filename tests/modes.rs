use sdf_scene::{AppMode, AppModeState, SelectionChange, SelectionState};

#[test]
fn default_mode_selects_in_translate_only() {
    let mut m = AppModeState::default();
    assert_eq!(m.current_mode, AppMode::Translate);
    assert_eq!(AppMode::default(), AppMode::Translate);
    assert!(m.is_selection_enabled());
    m.set_mode(AppMode::Brush);
    assert!(m.is_mode(AppMode::Brush));
    assert!(!m.is_mode(AppMode::Translate));
    assert!(!m.is_selection_enabled());
    m.enable_selection_for_mode(AppMode::Brush);
    assert!(m.is_selection_enabled());
    m.disable_selection_for_mode(AppMode::Brush);
    assert!(!m.is_selection_enabled());
}

#[test]
fn clicking_moves_the_selection() {
    let modes = AppModeState::default();
    let mut sel = SelectionState { selected_entity: None };
    assert_eq!(sel.handle_click(&modes, 4), SelectionChange { deselected: None, selected: Some(4) });
    assert_eq!(sel.handle_click(&modes, 4), SelectionChange { deselected: None, selected: None });
    assert_eq!(sel.handle_click(&modes, 9), SelectionChange { deselected: Some(4), selected: Some(9) });
    assert_eq!(sel.selected_entity, Some(9));
}

#[test]
fn no_selection_in_brush_mode() {
    let mut modes = AppModeState::default();
    modes.set_mode(AppMode::Brush);
    let mut sel = SelectionState { selected_entity: Some(2) };
    assert_eq!(sel.handle_click(&modes, 5), SelectionChange { deselected: None, selected: None });
    assert_eq!(sel.selected_entity, Some(2));
    sel.on_change_app_mode(&modes, false);
    assert_eq!(sel.selected_entity, Some(2));
    sel.on_change_app_mode(&modes, true);
    assert_eq!(sel.selected_entity, None);
}
