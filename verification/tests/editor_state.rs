use nih_plug_slint::editor_state::{default_height, default_width, window_settings, GlSettings, ScalePolicy, SlintEditorState};

#[test]
fn default_size_is_400_by_300() {
    assert_eq!(default_width(), 400);
    assert_eq!(default_height(), 300);
    assert_eq!(SlintEditorState::default().size(), (400, 300));
}

#[test]
fn new_state_reports_its_size() {
    let state = SlintEditorState::new(800, 600);
    assert_eq!(state.size(), (800, 600));
    assert_eq!(state.size, (800, 600));
}

#[test]
fn zero_and_extreme_sizes_are_kept() {
    assert_eq!(SlintEditorState::new(0, 0).size(), (0, 0));
    assert_eq!(SlintEditorState::new(u32::MAX, 1).size(), (u32::MAX, 1));
}

#[test]
fn window_settings_follow_the_state() {
    let settings = window_settings(&SlintEditorState::new(640, 480));
    assert_eq!(settings.width, 640);
    assert_eq!(settings.height, 480);
    assert_eq!(settings.scale, ScalePolicy::SystemScaleFactor);
    assert_eq!(settings.title, "Plug-in");
    assert_eq!(
        settings.gl,
        GlSettings {
            version: (3, 2),
            red_bits: 8,
            blue_bits: 8,
            green_bits: 8,
            alpha_bits: 8,
            depth_bits: 24,
            stencil_bits: 8,
            samples: None,
            srgb: true,
            double_buffer: true,
            vsync: false,
        }
    );
}

#[test]
fn window_settings_of_default_state() {
    let settings = window_settings(&SlintEditorState::default());
    assert_eq!((settings.width, settings.height), (400, 300));
}
