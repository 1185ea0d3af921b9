use sdf_scene::{
    brush_should_sample, coarse_extent, coarse_texture_update, translation_handles_teardown, AppCommand, AppMode,
    AppModeState, CoarsePassSettings, CommandEffect, EditorState, Extent, Vec3Bits,
};

#[test]
fn commands_spawn_switch_mode_and_toggle_rendering() {
    let mut ed = EditorState::new();
    let pos = Vec3Bits { x: 1.0f32.to_bits(), y: 0, z: 0 };
    assert_eq!(
        ed.apply_command(AppCommand::SpawnSphereCommand { position: pos, scale: 1.0f32.to_bits() }),
        CommandEffect::Spawned(0)
    );
    assert_eq!(ed.entities.entities.len(), 1);
    assert_eq!(ed.entities.entities[0].position, pos);
    assert_eq!(
        ed.apply_command(AppCommand::SetModeCommand { mode: "Brush".to_string() }),
        CommandEffect::ModeSet(AppMode::Brush)
    );
    assert_eq!(ed.modes.current_mode, AppMode::Brush);
    assert_eq!(
        ed.apply_command(AppCommand::SetModeCommand { mode: "Sculpt".to_string() }),
        CommandEffect::UnknownMode
    );
    assert_eq!(ed.modes.current_mode, AppMode::Brush);
    assert_eq!(
        ed.apply_command(AppCommand::SetPostProcessEnabledCommand { enabled: false }),
        CommandEffect::RenderEnabledSet(false)
    );
    assert!(!ed.render.enabled);
}

#[test]
fn mode_names_round_trip() {
    assert_eq!(AppMode::Translate.name(), "Translate");
    assert_eq!(AppMode::Brush.name(), "Brush");
    assert_eq!(AppMode::from_name(&"Translate".to_string()), Some(AppMode::Translate));
    assert_eq!(AppMode::from_name(&"Brush".to_string()), Some(AppMode::Brush));
    assert_eq!(AppMode::from_name(&"brush".to_string()), None);
    assert_eq!(AppMode::from_name(&String::new()), None);
}

#[test]
fn brush_samples_only_in_brush_mode_when_idle_and_pressed() {
    let mut modes = AppModeState::default();
    assert!(!brush_should_sample(&modes, false, true));
    modes.set_mode(AppMode::Brush);
    assert!(brush_should_sample(&modes, false, true));
    assert!(!brush_should_sample(&modes, true, true));
    assert!(!brush_should_sample(&modes, false, false));
}

#[test]
fn translation_handles_go_when_leaving_translate_mode() {
    let mut modes = AppModeState::default();
    assert!(!translation_handles_teardown(&modes, true));
    modes.set_mode(AppMode::Brush);
    assert!(translation_handles_teardown(&modes, true));
    assert!(!translation_handles_teardown(&modes, false));
}

#[test]
fn coarse_texture_is_a_sixteenth_of_the_viewport() {
    let s = CoarsePassSettings::default();
    assert_eq!(s, CoarsePassSettings { resolution_divisor: 16, distance_multiplier: 16, max_steps: 16 });
    let vp = Extent { width: 1920, height: 1080 };
    assert_eq!(coarse_extent(vp, &s), Extent { width: 120, height: 67 });
    assert_eq!(coarse_extent(Extent { width: 10, height: 0 }, &s), Extent { width: 1, height: 1 });
    assert_eq!(coarse_texture_update(None, vp, &s), Some(Extent { width: 120, height: 67 }));
    assert_eq!(coarse_texture_update(Some(Extent { width: 120, height: 67 }), vp, &s), None);
    assert_eq!(
        coarse_texture_update(Some(Extent { width: 120, height: 67 }), Extent { width: 800, height: 600 }, &s),
        Some(Extent { width: 50, height: 37 })
    );
    assert!(CoarsePassSettings::new(0, 16, 16).is_none());
    assert_eq!(CoarsePassSettings::new(4, 2, 8).unwrap().resolution_divisor, 4);
}
