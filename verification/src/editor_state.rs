use vstd::prelude::*;
use vstd::string::*;

verus! {

/// Width, in logical pixels, of an editor whose size was never set.
pub fn default_width() -> (width: u32)
    ensures
        width == 400,
{
    400
}

/// Height, in logical pixels, of an editor whose size was never set.
pub fn default_height() -> (height: u32)
    ensures
        height == 300,
{
    300
}

/// Window size of the editor, in logical pixels, as the host persists it.
///
/// `size` is the `(width, height)` pair.
#[derive(Debug, Clone, Copy, PartialEq, Eq)]
pub struct SlintEditorState {
    pub size: (u32, u32),
}

impl SlintEditorState {
    /// A state that holds the given size.
    #[verifier::allow_in_spec]
    pub fn new(width: u32, height: u32) -> Self
        returns
            (SlintEditorState { size: (width, height) }),
    {
        SlintEditorState { size: (width, height) }
    }

    /// Returns a `(width, height)` pair for the current size of the GUI in logical pixels.
    #[verifier::allow_in_spec]
    pub fn size(&self) -> (u32, u32)
        returns
            self.size,
    {
        self.size
    }
}

impl Default for SlintEditorState {
    fn default() -> (state: Self)
        ensures
            state.size == (400u32, 300u32),
    {
        SlintEditorState { size: (default_width(), default_height()) }
    }
}

/// OpenGL context that the editor asks the window for.
#[derive(Debug, Clone, Copy, PartialEq, Eq)]
pub struct GlSettings {
    pub version: (u8, u8),
    pub red_bits: u8,
    pub blue_bits: u8,
    pub green_bits: u8,
    pub alpha_bits: u8,
    pub depth_bits: u8,
    pub stencil_bits: u8,
    pub samples: Option<u8>,
    pub srgb: bool,
    pub double_buffer: bool,
    pub vsync: bool,
}

/// How the window's DPI scale factor is chosen.
#[derive(Debug, Clone, Copy, PartialEq, Eq, Structural)]
pub enum ScalePolicy {
    /// Use the scale factor that the system reports.
    SystemScaleFactor,
}

/// How the editor's window is opened: its logical size, scale policy, title
/// and OpenGL context.
#[derive(Debug, Clone, PartialEq, Eq)]
pub struct WindowSettings {
    pub width: u32,
    pub height: u32,
    pub scale: ScalePolicy,
    pub title: String,
    pub gl: GlSettings,
}

/// The window the editor opens for a given state: the persisted size, the
/// system's scale factor, the title "Plug-in", and an OpenGL 3.2 context with 8 bits per color channel
/// and alpha, a 24-bit depth and 8-bit stencil buffer, no multisampling,
/// sRGB, double buffering and no vsync.
pub fn window_settings(state: &SlintEditorState) -> (settings: WindowSettings)
    ensures
        (settings.width, settings.height) == state.size,
        settings.scale == ScalePolicy::SystemScaleFactor,
        settings.title@ == "Plug-in"@,
        settings.gl == (GlSettings {
            version: (3u8, 2u8),
            red_bits: 8u8,
            blue_bits: 8u8,
            green_bits: 8u8,
            alpha_bits: 8u8,
            depth_bits: 24u8,
            stencil_bits: 8u8,
            samples: None,
            srgb: true,
            double_buffer: true,
            vsync: false,
        }),
{
    let (width, height) = state.size();
    let title = String::from_str("Plug-in");
    WindowSettings {
        width,
        height,
        scale: ScalePolicy::SystemScaleFactor,
        title,
        gl: GlSettings {
            version: (3, 2),
            red_bits: 8,
            blue_bits: 8,
            green_bits: 8,
            alpha_bits: 8,
            depth_bits: 24,
            stencil_bits: 8,
            samples: None,
            srgb: true,
            double_buffer: true,
            vsync: false,
        },
    }
}

/// The size that a state reports is the size it was made with.
pub proof fn law_size_is_constructed_size(width: u32, height: u32)
    ensures
        SlintEditorState::new(width, height).size() == (width, height),
{
}

} // verus!
