use vstd::prelude::*;

use crate::color::Color;

verus! {

/// A length, as carried opaquely through builder calls. Fixed amounts are
/// whole pixels; the host converts to its renderer's own units at the
/// edge.
#[derive(Clone, Copy, Debug, PartialEq, Eq, Structural)]
pub enum Length {
    Fill,
    FillPortion(u16),
    Fixed(u32),
    Shrink,
}

/// Horizontal alignment of a column's children.
#[derive(Clone, Copy, Debug, PartialEq, Eq, Structural)]
pub enum Horizontal {
    Left,
    Center,
    Right,
}

/// A finished or in-progress user-interface node, owned by the resource
/// table while under construction and handed to the host as the tree
/// root when a view pass completes.
///
/// Event-wiring fields (`on_press`, `on_toggle`, `style`) hold closure
/// handles, not callbacks: the host raises an event by routing the handle
/// and an optional payload back through the closure dispatcher.
#[derive(Debug, PartialEq)]
pub enum Node {
    Text {
        content: String,
        size: Option<u32>,
        color: Option<Color>,
        style: Option<u32>,
    },
    Column {
        children: Vec<Node>,
        spacing: Option<u32>,
        padding: Option<u32>,
        width: Option<Length>,
        height: Option<Length>,
        max_width: Option<u32>,
        align_x: Option<Horizontal>,
        clip: bool,
    },
    Button {
        content: Box<Node>,
        on_press: Option<u32>,
    },
    Checkbox {
        label: String,
        checked: bool,
        on_toggle: Option<u32>,
    },
}

impl Node {
    pub open spec fn text_content(self) -> Seq<char>
        recommends
            self is Text,
    {
        match self {
            Node::Text { content, .. } => content@,
            _ => arbitrary(),
        }
    }

    pub open spec fn text_size(self) -> Option<u32>
        recommends
            self is Text,
    {
        match self {
            Node::Text { size, .. } => size,
            _ => arbitrary(),
        }
    }

    pub open spec fn text_color(self) -> Option<Color>
        recommends
            self is Text,
    {
        match self {
            Node::Text { color, .. } => color,
            _ => arbitrary(),
        }
    }

    pub open spec fn text_style(self) -> Option<u32>
        recommends
            self is Text,
    {
        match self {
            Node::Text { style, .. } => style,
            _ => arbitrary(),
        }
    }

    pub open spec fn children(self) -> Seq<Node>
        recommends
            self is Column,
    {
        match self {
            Node::Column { children, .. } => children@,
            _ => arbitrary(),
        }
    }

    pub open spec fn spacing(self) -> Option<u32>
        recommends
            self is Column,
    {
        match self {
            Node::Column { spacing, .. } => spacing,
            _ => arbitrary(),
        }
    }

    pub open spec fn padding(self) -> Option<u32>
        recommends
            self is Column,
    {
        match self {
            Node::Column { padding, .. } => padding,
            _ => arbitrary(),
        }
    }

    pub open spec fn width(self) -> Option<Length>
        recommends
            self is Column,
    {
        match self {
            Node::Column { width, .. } => width,
            _ => arbitrary(),
        }
    }

    pub open spec fn height(self) -> Option<Length>
        recommends
            self is Column,
    {
        match self {
            Node::Column { height, .. } => height,
            _ => arbitrary(),
        }
    }

    pub open spec fn max_width(self) -> Option<u32>
        recommends
            self is Column,
    {
        match self {
            Node::Column { max_width, .. } => max_width,
            _ => arbitrary(),
        }
    }

    pub open spec fn align_x(self) -> Option<Horizontal>
        recommends
            self is Column,
    {
        match self {
            Node::Column { align_x, .. } => align_x,
            _ => arbitrary(),
        }
    }

    pub open spec fn clip(self) -> bool
        recommends
            self is Column,
    {
        match self {
            Node::Column { clip, .. } => clip,
            _ => arbitrary(),
        }
    }

    pub open spec fn content(self) -> Node
        recommends
            self is Button,
    {
        match self {
            Node::Button { content, .. } => *content,
            _ => arbitrary(),
        }
    }

    pub open spec fn on_press(self) -> Option<u32>
        recommends
            self is Button,
    {
        match self {
            Node::Button { on_press, .. } => on_press,
            _ => arbitrary(),
        }
    }

    pub open spec fn label(self) -> Seq<char>
        recommends
            self is Checkbox,
    {
        match self {
            Node::Checkbox { label, .. } => label@,
            _ => arbitrary(),
        }
    }

    pub open spec fn checked(self) -> bool
        recommends
            self is Checkbox,
    {
        match self {
            Node::Checkbox { checked, .. } => checked,
            _ => arbitrary(),
        }
    }

    pub open spec fn on_toggle(self) -> Option<u32>
        recommends
            self is Checkbox,
    {
        match self {
            Node::Checkbox { on_toggle, .. } => on_toggle,
            _ => arbitrary(),
        }
    }
}

} // verus!
