use vstd::prelude::*;
use crate::config::ColorMode;
use crate::event::AgentStatus;

verus! {

/// A terminal color: 24-bit, an entry of the 256-color palette, or one of
/// the named ANSI colors.
#[derive(Clone, Copy, Debug, PartialEq, Eq, Structural)]
pub enum Color {
    Rgb(u8, u8, u8),
    Indexed(u8),
    Blue,
    Yellow,
    Green,
    LightYellow,
    Cyan,
    Red,
    Magenta,
    Gray,
}

/// The eight agent colors of each color mode, by index. The 24-bit palette
/// is Okabe-Ito, which stays distinguishable under color-vision deficiency.
pub open spec fn palette(mode: ColorMode) -> Seq<Color> {
    match mode {
        ColorMode::TrueColor => seq![
            Color::Rgb(0, 114, 178),
            Color::Rgb(230, 159, 0),
            Color::Rgb(0, 158, 115),
            Color::Rgb(240, 228, 66),
            Color::Rgb(86, 180, 233),
            Color::Rgb(213, 94, 0),
            Color::Rgb(204, 121, 167),
            Color::Rgb(136, 136, 136),
        ],
        ColorMode::Color256 => seq![
            Color::Indexed(24),
            Color::Indexed(214),
            Color::Indexed(36),
            Color::Indexed(227),
            Color::Indexed(117),
            Color::Indexed(166),
            Color::Indexed(175),
            Color::Indexed(245),
        ],
        ColorMode::Basic16 => seq![
            Color::Blue,
            Color::Yellow,
            Color::Green,
            Color::LightYellow,
            Color::Cyan,
            Color::Red,
            Color::Magenta,
            Color::Gray,
        ],
        ColorMode::Monochrome => seq![
            Color::Rgb(255, 255, 255),
            Color::Rgb(220, 220, 220),
            Color::Rgb(200, 200, 200),
            Color::Rgb(180, 180, 180),
            Color::Rgb(160, 160, 160),
            Color::Rgb(140, 140, 140),
            Color::Rgb(120, 120, 120),
            Color::Rgb(100, 100, 100),
        ],
    }
}

/// The agent colors of `mode`, by index.
pub fn agent_colors(mode: ColorMode) -> (r: [Color; 8])
    ensures
        r@ == palette(mode),
{
    let r = match mode {
        ColorMode::TrueColor => [
            Color::Rgb(0, 114, 178),
            Color::Rgb(230, 159, 0),
            Color::Rgb(0, 158, 115),
            Color::Rgb(240, 228, 66),
            Color::Rgb(86, 180, 233),
            Color::Rgb(213, 94, 0),
            Color::Rgb(204, 121, 167),
            Color::Rgb(136, 136, 136),
        ],
        ColorMode::Color256 => [
            Color::Indexed(24),
            Color::Indexed(214),
            Color::Indexed(36),
            Color::Indexed(227),
            Color::Indexed(117),
            Color::Indexed(166),
            Color::Indexed(175),
            Color::Indexed(245),
        ],
        ColorMode::Basic16 => [
            Color::Blue,
            Color::Yellow,
            Color::Green,
            Color::LightYellow,
            Color::Cyan,
            Color::Red,
            Color::Magenta,
            Color::Gray,
        ],
        ColorMode::Monochrome => [
            Color::Rgb(255, 255, 255),
            Color::Rgb(220, 220, 220),
            Color::Rgb(200, 200, 200),
            Color::Rgb(180, 180, 180),
            Color::Rgb(160, 160, 160),
            Color::Rgb(140, 140, 140),
            Color::Rgb(120, 120, 120),
            Color::Rgb(100, 100, 100),
        ],
    };
    assert(r@ =~= palette(mode));
    r
}

/// The 24-bit color of agent index `index`, wrapping around the palette.
pub fn get_agent_color(index: usize) -> (r: Color)
    ensures
        r == palette(ColorMode::TrueColor)[(index % 8) as int],
{
    let colors = agent_colors(ColorMode::TrueColor);
    colors[index % 8]
}

/// The color of agent index `index` in `mode`, wrapping around the palette.
pub fn get_agent_color_for_mode(index: usize, mode: ColorMode) -> (r: Color)
    ensures
        r == palette(mode)[(index % 8) as int],
{
    let colors = agent_colors(mode);
    colors[index % 8]
}

/// One channel scaled by `factor_milli / 1000`, rounded down and capped at 255.
pub open spec fn dim_channel(c: u8, factor_milli: u32) -> u8 {
    let v = c as int * factor_milli as int / 1000;
    if v > 255 {
        255
    } else {
        v as u8
    }
}

fn dim_channel_exec(c: u8, factor_milli: u32) -> (r: u8)
    ensures
        r == dim_channel(c, factor_milli),
{
    proof {
        assert(c as int * factor_milli as int <= 255 * 0xffff_ffff) by (nonlinear_arith)
            requires c <= 255, factor_milli <= 0xffff_ffff;
        assert(0 <= c as int * factor_milli as int / 1000) by (nonlinear_arith);
    }
    let v = c as u64 * factor_milli as u64 / 1000;
    if v > 255 {
        255
    } else {
        v as u8
    }
}

/// `color` with each 24-bit channel scaled by `factor_milli / 1000`
/// (0 gives black, 1000 leaves it as it is); other colors are unchanged.
pub fn dim_color(color: Color, factor_milli: u32) -> (r: Color)
    ensures
        r == match color {
            Color::Rgb(red, green, blue) => Color::Rgb(
                dim_channel(red, factor_milli),
                dim_channel(green, factor_milli),
                dim_channel(blue, factor_milli),
            ),
            _ => color,
        },
{
    match color {
        Color::Rgb(red, green, blue) => Color::Rgb(
            dim_channel_exec(red, factor_milli),
            dim_channel_exec(green, factor_milli),
            dim_channel_exec(blue, factor_milli),
        ),
        other => other,
    }
}

/// One color per agent status.
#[derive(Clone, Copy, Debug)]
pub struct StatusColors {
    pub active: Color,
    pub thinking: Color,
    pub waiting: Color,
    pub idle: Color,
    pub error: Color,
}

impl StatusColors {
    /// The color for `status`.
    pub fn get(&self, status: AgentStatus) -> (r: Color)
        ensures
            r == match status {
                AgentStatus::Active => self.active,
                AgentStatus::Thinking => self.thinking,
                AgentStatus::Waiting => self.waiting,
                AgentStatus::Idle => self.idle,
                AgentStatus::Error => self.error,
            },
    {
        match status {
            AgentStatus::Active => self.active,
            AgentStatus::Thinking => self.thinking,
            AgentStatus::Waiting => self.waiting,
            AgentStatus::Idle => self.idle,
            AgentStatus::Error => self.error,
        }
    }
}

/// The status colors of `mode`: active, thinking, waiting, idle, error.
pub open spec fn status_palette(mode: ColorMode) -> (Color, Color, Color, Color, Color) {
    match mode {
        ColorMode::TrueColor => (
            Color::Rgb(0, 200, 100),
            Color::Rgb(100, 150, 255),
            Color::Rgb(255, 200, 80),
            Color::Rgb(100, 100, 100),
            Color::Rgb(255, 80, 80),
        ),
        ColorMode::Color256 => (
            Color::Indexed(41),
            Color::Indexed(75),
            Color::Indexed(220),
            Color::Indexed(245),
            Color::Indexed(196),
        ),
        ColorMode::Basic16 => (Color::Green, Color::Blue, Color::Yellow, Color::Gray, Color::Red),
        ColorMode::Monochrome => (
            Color::Rgb(255, 255, 255),
            Color::Rgb(200, 200, 200),
            Color::Rgb(180, 180, 180),
            Color::Rgb(100, 100, 100),
            Color::Rgb(255, 255, 255),
        ),
    }
}

/// The status colors of `mode`.
pub fn get_status_colors_for_mode(mode: ColorMode) -> (r: StatusColors)
    ensures
        (r.active, r.thinking, r.waiting, r.idle, r.error) == status_palette(mode),
{
    match mode {
        ColorMode::TrueColor => StatusColors {
            active: Color::Rgb(0, 200, 100),
            thinking: Color::Rgb(100, 150, 255),
            waiting: Color::Rgb(255, 200, 80),
            idle: Color::Rgb(100, 100, 100),
            error: Color::Rgb(255, 80, 80),
        },
        ColorMode::Color256 => StatusColors {
            active: Color::Indexed(41),
            thinking: Color::Indexed(75),
            waiting: Color::Indexed(220),
            idle: Color::Indexed(245),
            error: Color::Indexed(196),
        },
        ColorMode::Basic16 => StatusColors {
            active: Color::Green,
            thinking: Color::Blue,
            waiting: Color::Yellow,
            idle: Color::Gray,
            error: Color::Red,
        },
        ColorMode::Monochrome => StatusColors {
            active: Color::Rgb(255, 255, 255),
            thinking: Color::Rgb(200, 200, 200),
            waiting: Color::Rgb(180, 180, 180),
            idle: Color::Rgb(100, 100, 100),
            error: Color::Rgb(255, 255, 255),
        },
    }
}

/// The 24-bit status colors.
pub fn status_colors() -> (r: StatusColors)
    ensures
        (r.active, r.thinking, r.waiting, r.idle, r.error) == status_palette(ColorMode::TrueColor),
{
    get_status_colors_for_mode(ColorMode::TrueColor)
}

} // verus!
