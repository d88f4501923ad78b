//! A button with a label, a theme and a state.

use vstd::prelude::*;

use crate::tui::Rect;

verus! {

/// Whether a button is at rest, has the focus, or is being pressed.
#[derive(Debug, Clone, Copy, PartialEq, Eq, Structural)]
pub enum State {
    Normal,
    Selected,
    Active,
}

/// A colour by its red, green and blue parts.
#[derive(Debug, Clone, Copy, PartialEq, Eq, Structural)]
pub struct Rgb {
    pub r: u8,
    pub g: u8,
    pub b: u8,
}

/// The colours of a button.
#[derive(Debug, Clone, Copy, PartialEq, Eq, Structural)]
pub struct Theme {
    pub text: Rgb,
    pub background: Rgb,
    pub highlight: Rgb,
    pub shadow: Rgb,
}

impl Theme {
    /// The white theme.
    pub open spec fn spec_white() -> Theme {
        Theme {
            text: Rgb { r: 0, g: 0, b: 0 },
            background: Rgb { r: 224, g: 224, b: 224 },
            highlight: Rgb { r: 255, g: 255, b: 255 },
            shadow: Rgb { r: 160, g: 160, b: 160 },
        }
    }

    /// The white theme.
    pub fn white() -> (r: Theme)
        ensures
            r == Theme::spec_white(),
    {
        Theme {
            text: Rgb { r: 0, g: 0, b: 0 },
            background: Rgb { r: 224, g: 224, b: 224 },
            highlight: Rgb { r: 255, g: 255, b: 255 },
            shadow: Rgb { r: 160, g: 160, b: 160 },
        }
    }

    /// The black theme.
    pub open spec fn spec_black() -> Theme {
        Theme {
            text: Rgb { r: 255, g: 255, b: 255 },
            background: Rgb { r: 48, g: 48, b: 48 },
            highlight: Rgb { r: 64, g: 64, b: 64 },
            shadow: Rgb { r: 32, g: 32, b: 32 },
        }
    }

    /// The black theme.
    pub fn black() -> (r: Theme)
        ensures
            r == Theme::spec_black(),
    {
        Theme {
            text: Rgb { r: 255, g: 255, b: 255 },
            background: Rgb { r: 48, g: 48, b: 48 },
            highlight: Rgb { r: 64, g: 64, b: 64 },
            shadow: Rgb { r: 32, g: 32, b: 32 },
        }
    }

    /// The gray theme.
    pub open spec fn spec_gray() -> Theme {
        Theme {
            text: Rgb { r: 255, g: 255, b: 255 },
            background: Rgb { r: 96, g: 96, b: 96 },
            highlight: Rgb { r: 144, g: 144, b: 144 },
            shadow: Rgb { r: 48, g: 48, b: 48 },
        }
    }

    /// The gray theme.
    pub fn gray() -> (r: Theme)
        ensures
            r == Theme::spec_gray(),
    {
        Theme {
            text: Rgb { r: 255, g: 255, b: 255 },
            background: Rgb { r: 96, g: 96, b: 96 },
            highlight: Rgb { r: 144, g: 144, b: 144 },
            shadow: Rgb { r: 48, g: 48, b: 48 },
        }
    }

    /// The red theme.
    pub open spec fn spec_red() -> Theme {
        Theme {
            text: Rgb { r: 255, g: 255, b: 255 },
            background: Rgb { r: 144, g: 48, b: 48 },
            highlight: Rgb { r: 192, g: 64, b: 64 },
            shadow: Rgb { r: 96, g: 32, b: 32 },
        }
    }

    /// The red theme.
    pub fn red() -> (r: Theme)
        ensures
            r == Theme::spec_red(),
    {
        Theme {
            text: Rgb { r: 255, g: 255, b: 255 },
            background: Rgb { r: 144, g: 48, b: 48 },
            highlight: Rgb { r: 192, g: 64, b: 64 },
            shadow: Rgb { r: 96, g: 32, b: 32 },
        }
    }

    /// The green theme.
    pub open spec fn spec_green() -> Theme {
        Theme {
            text: Rgb { r: 255, g: 255, b: 255 },
            background: Rgb { r: 48, g: 144, b: 48 },
            highlight: Rgb { r: 64, g: 192, b: 64 },
            shadow: Rgb { r: 32, g: 96, b: 32 },
        }
    }

    /// The green theme.
    pub fn green() -> (r: Theme)
        ensures
            r == Theme::spec_green(),
    {
        Theme {
            text: Rgb { r: 255, g: 255, b: 255 },
            background: Rgb { r: 48, g: 144, b: 48 },
            highlight: Rgb { r: 64, g: 192, b: 64 },
            shadow: Rgb { r: 32, g: 96, b: 32 },
        }
    }

    /// The blue theme.
    pub open spec fn spec_blue() -> Theme {
        Theme {
            text: Rgb { r: 255, g: 255, b: 255 },
            background: Rgb { r: 48, g: 72, b: 144 },
            highlight: Rgb { r: 64, g: 96, b: 192 },
            shadow: Rgb { r: 32, g: 48, b: 96 },
        }
    }

    /// The blue theme.
    pub fn blue() -> (r: Theme)
        ensures
            r == Theme::spec_blue(),
    {
        Theme {
            text: Rgb { r: 255, g: 255, b: 255 },
            background: Rgb { r: 48, g: 72, b: 144 },
            highlight: Rgb { r: 64, g: 96, b: 192 },
            shadow: Rgb { r: 32, g: 48, b: 96 },
        }
    }

    /// The orange theme.
    pub open spec fn spec_orange() -> Theme {
        Theme {
            text: Rgb { r: 255, g: 255, b: 255 },
            background: Rgb { r: 144, g: 96, b: 48 },
            highlight: Rgb { r: 192, g: 128, b: 64 },
            shadow: Rgb { r: 96, g: 64, b: 32 },
        }
    }

    /// The orange theme.
    pub fn orange() -> (r: Theme)
        ensures
            r == Theme::spec_orange(),
    {
        Theme {
            text: Rgb { r: 255, g: 255, b: 255 },
            background: Rgb { r: 144, g: 96, b: 48 },
            highlight: Rgb { r: 192, g: 128, b: 64 },
            shadow: Rgb { r: 96, g: 64, b: 32 },
        }
    }

    /// The yellow theme.
    pub open spec fn spec_yellow() -> Theme {
        Theme {
            text: Rgb { r: 255, g: 255, b: 255 },
            background: Rgb { r: 144, g: 144, b: 48 },
            highlight: Rgb { r: 192, g: 192, b: 64 },
            shadow: Rgb { r: 96, g: 96, b: 32 },
        }
    }

    /// The yellow theme.
    pub fn yellow() -> (r: Theme)
        ensures
            r == Theme::spec_yellow(),
    {
        Theme {
            text: Rgb { r: 255, g: 255, b: 255 },
            background: Rgb { r: 144, g: 144, b: 48 },
            highlight: Rgb { r: 192, g: 192, b: 64 },
            shadow: Rgb { r: 96, g: 96, b: 32 },
        }
    }

    /// The cyan theme.
    pub open spec fn spec_cyan() -> Theme {
        Theme {
            text: Rgb { r: 255, g: 255, b: 255 },
            background: Rgb { r: 48, g: 144, b: 144 },
            highlight: Rgb { r: 64, g: 192, b: 192 },
            shadow: Rgb { r: 32, g: 96, b: 96 },
        }
    }

    /// The cyan theme.
    pub fn cyan() -> (r: Theme)
        ensures
            r == Theme::spec_cyan(),
    {
        Theme {
            text: Rgb { r: 255, g: 255, b: 255 },
            background: Rgb { r: 48, g: 144, b: 144 },
            highlight: Rgb { r: 64, g: 192, b: 192 },
            shadow: Rgb { r: 32, g: 96, b: 96 },
        }
    }

    /// The purple theme.
    pub open spec fn spec_purple() -> Theme {
        Theme {
            text: Rgb { r: 255, g: 255, b: 255 },
            background: Rgb { r: 96, g: 48, b: 144 },
            highlight: Rgb { r: 128, g: 64, b: 192 },
            shadow: Rgb { r: 64, g: 32, b: 96 },
        }
    }

    /// The purple theme.
    pub fn purple() -> (r: Theme)
        ensures
            r == Theme::spec_purple(),
    {
        Theme {
            text: Rgb { r: 255, g: 255, b: 255 },
            background: Rgb { r: 96, g: 48, b: 144 },
            highlight: Rgb { r: 128, g: 64, b: 192 },
            shadow: Rgb { r: 64, g: 32, b: 96 },
        }
    }
}

/// The colours in which a button is drawn.
#[derive(Debug, Clone, Copy, PartialEq, Eq, Structural)]
pub struct ButtonColors {
    pub background: Rgb,
    pub text: Rgb,
    pub shadow: Rgb,
    pub highlight: Rgb,
}

/// Where the parts of a button go.
#[derive(Debug, Clone, Copy, PartialEq, Eq, Structural)]
pub struct ButtonLayout {
    /// Whether there is room for the line along the top.
    pub top_line: bool,
    /// The row of the line along the bottom, where there is room for it.
    pub bottom_line: Option<u16>,
    /// The column at which the label starts.
    pub label_x: u16,
    /// The row of the label.
    pub label_y: u16,
}

/// A button with a label that can be themed.
#[derive(Debug, PartialEq, Eq)]
pub struct Button {
    pub label: String,
    pub theme: Theme,
    pub state: State,
}

impl Button {
    /// A blue button at rest.
    pub fn new(label: String) -> (r: Button)
        ensures
            r.label == label,
            r.theme == Theme::spec_blue(),
            r.state == State::Normal,
    {
        Button { label, theme: Theme::blue(), state: State::Normal }
    }

    /// The button in another theme.
    pub fn theme(self, theme: Theme) -> (r: Button)
        ensures
            r.label == self.label,
            r.theme == theme,
            r.state == self.state,
    {
        let mut b = self;
        b.theme = theme;
        b
    }

    /// The button in another state.
    pub fn state(self, state: State) -> (r: Button)
        ensures
            r.label == self.label,
            r.theme == self.theme,
            r.state == state,
    {
        let mut b = self;
        b.state = state;
        b
    }

    /// The colours for the button's state: a selected button takes the
    /// highlight as its background, an active one swaps shadow and
    /// highlight.
    pub open spec fn spec_colors(&self) -> ButtonColors {
        match self.state {
            State::Normal => ButtonColors {
                background: self.theme.background,
                text: self.theme.text,
                shadow: self.theme.shadow,
                highlight: self.theme.highlight,
            },
            State::Selected => ButtonColors {
                background: self.theme.highlight,
                text: self.theme.text,
                shadow: self.theme.shadow,
                highlight: self.theme.highlight,
            },
            State::Active => ButtonColors {
                background: self.theme.background,
                text: self.theme.text,
                shadow: self.theme.highlight,
                highlight: self.theme.shadow,
            },
        }
    }

    /// The colours for the button's state.
    pub fn colors(&self) -> (r: ButtonColors)
        ensures
            r == self.spec_colors(),
    {
        let theme = self.theme;
        match self.state {
            State::Normal => ButtonColors {
                background: theme.background,
                text: theme.text,
                shadow: theme.shadow,
                highlight: theme.highlight,
            },
            State::Selected => ButtonColors {
                background: theme.highlight,
                text: theme.text,
                shadow: theme.shadow,
                highlight: theme.highlight,
            },
            State::Active => ButtonColors {
                background: theme.background,
                text: theme.text,
                shadow: theme.highlight,
                highlight: theme.shadow,
            },
        }
    }

    /// Whether the label of a selected button is underlined.
    pub fn is_underlined(&self) -> (r: bool)
        ensures
            r == (self.state == State::Selected),
    {
        self.state == State::Selected
    }
}

/// Where the parts of a button go in `area`, for a label `label_width`
/// cells wide: a top line where the area is more than two rows high, a
/// bottom line on the last row where it is more than one row high, and the
/// label centred.
pub fn button_layout(area: Rect, label_width: u16) -> (r: ButtonLayout)
    requires
        area.x + area.width <= u16::MAX,
        area.y + area.height <= u16::MAX,
    ensures
        r.top_line == (area.height > 2),
        r.bottom_line == if area.height > 1 {
            Some((area.y + area.height - 1) as u16)
        } else {
            None
        },
        r.label_x == area.x + (if label_width >= area.width {
            0
        } else {
            area.width - label_width
        }) / 2,
        r.label_y == area.y + (if area.height >= 1 {
            area.height - 1
        } else {
            0
        }) / 2,
{
    let bottom_line = if area.height > 1 {
        Some(area.y + area.height - 1)
    } else {
        None
    };
    ButtonLayout {
        top_line: area.height > 2,
        bottom_line,
        label_x: area.x + area.width.saturating_sub(label_width) / 2,
        label_y: area.y + area.height.saturating_sub(1) / 2,
    }
}

} // verus!
