use vstd::prelude::*;

verus! {

/// What the application was asked to show, and from where.
pub struct AppConfig {
    /// The file of JSON-lines events to follow, if any.
    pub file_path: Option<String>,
    pub demo_mode: bool,
    pub show_heatmap: bool,
    pub show_trails: bool,
    pub show_landmarks: bool,
}

impl Default for AppConfig {
    fn default() -> (r: Self)
        ensures
            r.file_path is None,
            !r.demo_mode,
            r.show_heatmap,
            r.show_trails,
            r.show_landmarks,
    {
        AppConfig {
            file_path: None,
            demo_mode: false,
            show_heatmap: true,
            show_trails: true,
            show_landmarks: true,
        }
    }
}

/// How many colors the terminal can show.
#[derive(Clone, Copy, Debug, PartialEq, Eq, Structural)]
pub enum ColorMode {
    /// 24-bit color.
    TrueColor,
    /// The xterm 256-color palette.
    Color256,
    /// The 16 ANSI colors.
    Basic16,
    /// Shades of gray only.
    Monochrome,
}

impl Default for ColorMode {
    fn default() -> (r: Self)
        ensures
            r == ColorMode::TrueColor,
    {
        ColorMode::TrueColor
    }
}

} // verus!
