use vstd::prelude::*;
use crate::event::AgentStatus;

verus! {

/// A glyph with a plain-ASCII stand-in for terminals without Unicode.
#[derive(Clone, Copy, Debug)]
pub struct Symbol {
    pub unicode: char,
    pub ascii: char,
    pub name: &'static str,
}

impl Symbol {
    pub fn new(unicode: char, ascii: char, name: &'static str) -> (r: Self)
        ensures
            r.unicode == unicode,
            r.ascii == ascii,
            r.name == name,
    {
        Symbol { unicode, ascii, name }
    }

    /// The glyph to draw.
    pub fn render(&self, use_unicode: bool) -> (r: char)
        ensures
            r == if use_unicode { self.unicode } else { self.ascii },
    {
        if use_unicode {
            self.unicode
        } else {
            self.ascii
        }
    }
}

/// Number of agent shapes.
pub const AGENT_SHAPE_COUNT: usize = 8;

/// The agent shapes, in index order: (glyph, ASCII stand-in).
pub open spec fn shape_glyphs(i: int) -> (char, char) {
    if i == 0 {
        ('\u{25C6}', '<')
    } else if i == 1 {
        ('\u{25B2}', '^')
    } else if i == 2 {
        ('\u{25A0}', '#')
    } else if i == 3 {
        ('\u{2B1F}', '*')
    } else if i == 4 {
        ('\u{2B22}', 'H')
    } else if i == 5 {
        ('\u{25CF}', 'O')
    } else if i == 6 {
        ('\u{2605}', '*')
    } else {
        ('\u{25BC}', 'v')
    }
}

/// The names of the agent shapes, in index order.
pub open spec fn shape_name(i: int) -> Seq<char> {
    if i == 0 {
        "diamond"@
    } else if i == 1 {
        "triangle_up"@
    } else if i == 2 {
        "square"@
    } else if i == 3 {
        "pentagon"@
    } else if i == 4 {
        "hexagon"@
    } else if i == 5 {
        "circle"@
    } else if i == 6 {
        "star"@
    } else {
        "triangle_down"@
    }
}

/// The shape of agent index `shape_index`; indices wrap around the eight
/// shapes.
pub fn get_agent_shape(shape_index: usize) -> (r: Symbol)
    ensures
        (r.unicode, r.ascii) == shape_glyphs((shape_index % 8) as int),
        r.name@ == shape_name((shape_index % 8) as int),
{
    match shape_index % 8 {
        0 => Symbol::new('\u{25C6}', '<', "diamond"),
        1 => Symbol::new('\u{25B2}', '^', "triangle_up"),
        2 => Symbol::new('\u{25A0}', '#', "square"),
        3 => Symbol::new('\u{2B1F}', '*', "pentagon"),
        4 => Symbol::new('\u{2B22}', 'H', "hexagon"),
        5 => Symbol::new('\u{25CF}', 'O', "circle"),
        6 => Symbol::new('\u{2605}', '*', "star"),
        _ => Symbol::new('\u{25BC}', 'v', "triangle_down"),
    }
}

/// One symbol per agent status.
pub struct StatusSymbols {
    pub active: Symbol,
    pub thinking: Symbol,
    pub waiting: Symbol,
    pub idle: Symbol,
    pub error: Symbol,
}

impl StatusSymbols {
    /// The symbol for `status`.
    pub fn get(&self, status: &AgentStatus) -> (r: &Symbol)
        ensures
            *r == match *status {
                AgentStatus::Active => self.active,
                AgentStatus::Thinking => self.thinking,
                AgentStatus::Waiting => self.waiting,
                AgentStatus::Idle => self.idle,
                AgentStatus::Error => self.error,
            },
    {
        match status {
            AgentStatus::Active => &self.active,
            AgentStatus::Thinking => &self.thinking,
            AgentStatus::Waiting => &self.waiting,
            AgentStatus::Idle => &self.idle,
            AgentStatus::Error => &self.error,
        }
    }
}

/// The indicator glyph and ASCII stand-in for each status.
pub open spec fn status_glyphs(status: AgentStatus) -> (char, char) {
    match status {
        AgentStatus::Active => ('\u{2022}', '*'),
        AgentStatus::Thinking => ('\u{2026}', '.'),
        AgentStatus::Waiting => ('\u{29D6}', '~'),
        AgentStatus::Idle => ('\u{2013}', '-'),
        AgentStatus::Error => ('\u{2757}', '!'),
    }
}

/// The name of each status indicator.
pub open spec fn status_name(status: AgentStatus) -> Seq<char> {
    match status {
        AgentStatus::Active => "active"@,
        AgentStatus::Thinking => "thinking"@,
        AgentStatus::Waiting => "waiting"@,
        AgentStatus::Idle => "idle"@,
        AgentStatus::Error => "error"@,
    }
}

/// The status indicators, one character wide each.
pub fn status_indicators() -> (r: StatusSymbols)
    ensures
        (r.active.unicode, r.active.ascii) == status_glyphs(AgentStatus::Active),
        (r.thinking.unicode, r.thinking.ascii) == status_glyphs(AgentStatus::Thinking),
        (r.waiting.unicode, r.waiting.ascii) == status_glyphs(AgentStatus::Waiting),
        (r.idle.unicode, r.idle.ascii) == status_glyphs(AgentStatus::Idle),
        (r.error.unicode, r.error.ascii) == status_glyphs(AgentStatus::Error),
        r.active.name@ == status_name(AgentStatus::Active),
        r.thinking.name@ == status_name(AgentStatus::Thinking),
        r.waiting.name@ == status_name(AgentStatus::Waiting),
        r.idle.name@ == status_name(AgentStatus::Idle),
        r.error.name@ == status_name(AgentStatus::Error),
{
    StatusSymbols {
        active: Symbol::new('\u{2022}', '*', "active"),
        thinking: Symbol::new('\u{2026}', '.', "thinking"),
        waiting: Symbol::new('\u{29D6}', '~', "waiting"),
        idle: Symbol::new('\u{2013}', '-', "idle"),
        error: Symbol::new('\u{2757}', '!', "error"),
    }
}

/// The status indicator for `status`.
pub fn get_status_indicator(status: &AgentStatus) -> (r: Symbol)
    ensures
        (r.unicode, r.ascii) == status_glyphs(*status),
        r.name@ == status_name(*status),
{
    let all = status_indicators();
    *all.get(status)
}

/// Trail glyphs by age.
pub struct TrailCharset {
    pub recent: Symbol,
    pub medium: Symbol,
    pub faded: Symbol,
}

impl TrailCharset {
    /// The glyph for a trail point of age `age_milli` thousandths of the
    /// trail's length: recent below 330, medium below 660, faded after.
    pub fn get_by_age(&self, age_milli: u32) -> (r: &Symbol)
        ensures
            *r == if age_milli < 330 {
                self.recent
            } else if age_milli < 660 {
                self.medium
            } else {
                self.faded
            },
    {
        if age_milli < 330 {
            &self.recent
        } else if age_milli < 660 {
            &self.medium
        } else {
            &self.faded
        }
    }
}

/// The trail glyphs.
pub fn trail_symbols() -> (r: TrailCharset)
    ensures
        r.recent.unicode == '\u{2022}' && r.recent.ascii == 'o',
        r.medium.unicode == '\u{00B7}' && r.medium.ascii == '.',
        r.faded.unicode == '\u{2219}' && r.faded.ascii == '.',
{
    TrailCharset {
        recent: Symbol::new('\u{2022}', 'o', "trail_recent"),
        medium: Symbol::new('\u{00B7}', '.', "trail_medium"),
        faded: Symbol::new('\u{2219}', '.', "trail_faded"),
    }
}

/// Glyphs for drawing connections.
pub struct LineCharset {
    pub horizontal: Symbol,
    pub vertical: Symbol,
    pub cross: Symbol,
    pub dot: Symbol,
    pub arrow_right: Symbol,
    pub arrow_left: Symbol,
    pub arrow_up: Symbol,
    pub arrow_down: Symbol,
}

/// The connection glyphs.
pub fn line_chars() -> (r: LineCharset)
    ensures
        r.horizontal.unicode == '\u{2500}' && r.horizontal.ascii == '-',
        r.vertical.unicode == '\u{2502}' && r.vertical.ascii == '|',
        r.cross.unicode == '\u{253C}' && r.cross.ascii == '+',
        r.dot.unicode == '\u{00B7}' && r.dot.ascii == '.',
        r.arrow_right.unicode == '\u{25B6}' && r.arrow_right.ascii == '>',
        r.arrow_left.unicode == '\u{25C0}' && r.arrow_left.ascii == '<',
        r.arrow_up.unicode == '\u{25B2}' && r.arrow_up.ascii == '^',
        r.arrow_down.unicode == '\u{25BC}' && r.arrow_down.ascii == 'v',
{
    LineCharset {
        horizontal: Symbol::new('\u{2500}', '-', "h_line"),
        vertical: Symbol::new('\u{2502}', '|', "v_line"),
        cross: Symbol::new('\u{253C}', '+', "cross"),
        dot: Symbol::new('\u{00B7}', '.', "dot"),
        arrow_right: Symbol::new('\u{25B6}', '>', "arrow_r"),
        arrow_left: Symbol::new('\u{25C0}', '<', "arrow_l"),
        arrow_up: Symbol::new('\u{25B2}', '^', "arrow_u"),
        arrow_down: Symbol::new('\u{25BC}', 'v', "arrow_d"),
    }
}

} // verus!
