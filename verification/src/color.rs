use vstd::prelude::*;

verus! {

/// A color as carried across the component boundary: four 8-bit channels.
///
/// The runtime never interprets colors; it moves them from the guest's
/// builder calls into the finished node tree. The host converts them to
/// its renderer's own representation at the edge.
#[derive(Clone, Copy, Debug, PartialEq, Eq, Structural)]
pub struct Color {
    pub r: u8,
    pub g: u8,
    pub b: u8,
    pub a: u8,
}

/// The result of a stateful text-style closure: an optional text color.
#[derive(Clone, Copy, Debug, PartialEq, Eq, Structural)]
pub struct Style {
    pub color: Option<Color>,
}

/// The value of one hexadecimal digit, or `None` for any other character.
pub open spec fn spec_hex_digit(c: char) -> Option<u8> {
    if '0' <= c && c <= '9' {
        Some((c as u8 - '0' as u8) as u8)
    } else if 'a' <= c && c <= 'f' {
        Some((c as u8 - 'a' as u8 + 10) as u8)
    } else if 'A' <= c && c <= 'F' {
        Some((c as u8 - 'A' as u8 + 10) as u8)
    } else {
        None
    }
}

/// The channel value of a two-digit hex pair.
pub open spec fn spec_channel_pair(hi: char, lo: char) -> Option<u8> {
    match (spec_hex_digit(hi), spec_hex_digit(lo)) {
        (Some(h), Some(l)) => Some((h * 16 + l) as u8),
        _ => None,
    }
}

/// The channel value of a single hex digit, expanded into a full byte
/// (each half-byte is doubled: `a` becomes `aa`).
pub open spec fn spec_channel_single(c: char) -> Option<u8> {
    match spec_hex_digit(c) {
        Some(d) => Some((d * 17) as u8),
        None => None,
    }
}

/// What `Color::parse` returns on a hex string with its optional leading
/// `#` already removed: `rgb`, `rgba`, `rrggbb` and `rrggbbaa` forms are
/// accepted, anything else is `None`.
pub open spec fn spec_parse_hex(s: Seq<char>) -> Option<Color> {
    if s.len() == 3 {
        match (spec_channel_single(s[0]), spec_channel_single(s[1]), spec_channel_single(s[2])) {
            (Some(r), Some(g), Some(b)) => Some(Color { r, g, b, a: 255 }),
            _ => None,
        }
    } else if s.len() == 4 {
        match (
            spec_channel_single(s[0]),
            spec_channel_single(s[1]),
            spec_channel_single(s[2]),
            spec_channel_single(s[3]),
        ) {
            (Some(r), Some(g), Some(b), Some(a)) => Some(Color { r, g, b, a }),
            _ => None,
        }
    } else if s.len() == 6 {
        match (
            spec_channel_pair(s[0], s[1]),
            spec_channel_pair(s[2], s[3]),
            spec_channel_pair(s[4], s[5]),
        ) {
            (Some(r), Some(g), Some(b)) => Some(Color { r, g, b, a: 255 }),
            _ => None,
        }
    } else if s.len() == 8 {
        match (
            spec_channel_pair(s[0], s[1]),
            spec_channel_pair(s[2], s[3]),
            spec_channel_pair(s[4], s[5]),
            spec_channel_pair(s[6], s[7]),
        ) {
            (Some(r), Some(g), Some(b), Some(a)) => Some(Color { r, g, b, a }),
            _ => None,
        }
    } else {
        None
    }
}

/// What `Color::parse` returns: the hex forms above, with an optional
/// leading `#`.
pub open spec fn spec_parse(s: Seq<char>) -> Option<Color> {
    if s.len() > 0 && s[0] == '#' {
        spec_parse_hex(s.skip(1))
    } else {
        spec_parse_hex(s)
    }
}

fn hex_digit(c: char) -> (r: Option<u8>)
    ensures
        r == spec_hex_digit(c),
{
    if '0' <= c && c <= '9' {
        Some(c as u8 - '0' as u8)
    } else if 'a' <= c && c <= 'f' {
        Some(c as u8 - 'a' as u8 + 10)
    } else if 'A' <= c && c <= 'F' {
        Some(c as u8 - 'A' as u8 + 10)
    } else {
        None
    }
}

impl Color {
    /// A color from its three 8-bit components, fully opaque.
    pub fn from_rgb8(r: u8, g: u8, b: u8) -> (c: Color)
        ensures
            c == (Color { r, g, b, a: 255u8 }),
    {
        Color { r, g, b, a: 255 }
    }

    /// A color from its four 8-bit components.
    pub fn from_rgba8(r: u8, g: u8, b: u8, a: u8) -> (c: Color)
        ensures
            c == (Color { r, g, b, a }),
    {
        Color { r, g, b, a }
    }

    /// Parses a color from a hex string.
    ///
    /// Supported formats are `#rrggbb`, `#rrggbbaa`, `#rgb`, and `#rgba`;
    /// the starting `#` is optional, and both cases are accepted. A single
    /// digit stands for a doubled one (`#abc` is `#aabbcc`).
    pub fn parse(s: &str) -> (r: Option<Color>)
        ensures
            r == spec_parse(s@),
    {
        let len = s.unicode_len();
        let off: usize = if len > 0 && s.get_char(0) == '#' {
            1
        } else {
            0
        };
        let n = len - off;
        proof {
            if off == 1 {
                assert(s@.skip(1) =~= Seq::new((s@.len() - 1) as nat, |i: int| s@[i + 1]));
            }
        }
        if n == 3 {
            let r = match hex_digit(s.get_char(off)) {
                Some(d) => d,
                None => { return None; },
            };
            let g = match hex_digit(s.get_char(off + 1)) {
                Some(d) => d,
                None => { return None; },
            };
            let b = match hex_digit(s.get_char(off + 2)) {
                Some(d) => d,
                None => { return None; },
            };
            Some(Color { r: r * 17, g: g * 17, b: b * 17, a: 255 })
        } else if n == 4 {
            let r = match hex_digit(s.get_char(off)) {
                Some(d) => d,
                None => { return None; },
            };
            let g = match hex_digit(s.get_char(off + 1)) {
                Some(d) => d,
                None => { return None; },
            };
            let b = match hex_digit(s.get_char(off + 2)) {
                Some(d) => d,
                None => { return None; },
            };
            let a = match hex_digit(s.get_char(off + 3)) {
                Some(d) => d,
                None => { return None; },
            };
            Some(Color { r: r * 17, g: g * 17, b: b * 17, a: a * 17 })
        } else if n == 6 {
            let r = match Self::channel_pair(s.get_char(off), s.get_char(off + 1)) {
                Some(v) => v,
                None => { return None; },
            };
            let g = match Self::channel_pair(s.get_char(off + 2), s.get_char(off + 3)) {
                Some(v) => v,
                None => { return None; },
            };
            let b = match Self::channel_pair(s.get_char(off + 4), s.get_char(off + 5)) {
                Some(v) => v,
                None => { return None; },
            };
            Some(Color { r, g, b, a: 255 })
        } else if n == 8 {
            let r = match Self::channel_pair(s.get_char(off), s.get_char(off + 1)) {
                Some(v) => v,
                None => { return None; },
            };
            let g = match Self::channel_pair(s.get_char(off + 2), s.get_char(off + 3)) {
                Some(v) => v,
                None => { return None; },
            };
            let b = match Self::channel_pair(s.get_char(off + 4), s.get_char(off + 5)) {
                Some(v) => v,
                None => { return None; },
            };
            let a = match Self::channel_pair(s.get_char(off + 6), s.get_char(off + 7)) {
                Some(v) => v,
                None => { return None; },
            };
            Some(Color { r, g, b, a })
        } else {
            None
        }
    }

    fn channel_pair(hi: char, lo: char) -> (r: Option<u8>)
        ensures
            r == spec_channel_pair(hi, lo),
    {
        let h = match hex_digit(hi) {
            Some(d) => d,
            None => { return None; },
        };
        let l = match hex_digit(lo) {
            Some(d) => d,
            None => { return None; },
        };
        Some(h * 16 + l)
    }

    /// The four components, in order.
    pub fn into_rgba8(self) -> (r: [u8; 4])
        ensures
            r@ =~= seq![self.r, self.g, self.b, self.a],
    {
        [self.r, self.g, self.b, self.a]
    }

    /// Inverts the color in place: all three channels complemented,
    /// alpha kept — the in-place counterpart of `inverse`.
    pub fn invert(&mut self)
        ensures
            *final(self) == old(self).inverse_spec(),
    {
        self.r = 255 - self.r;
        self.g = 255 - self.g;
        self.b = 255 - self.b;
    }

    /// The color with all three channels complemented and alpha kept.
    pub open spec fn inverse_spec(self) -> Color {
        Color {
            r: (255 - self.r) as u8,
            g: (255 - self.g) as u8,
            b: (255 - self.b) as u8,
            a: self.a,
        }
    }

    /// The inverted color: all three channels inverted, alpha kept.
    pub fn inverse(self) -> (c: Color)
        ensures
            c == self.inverse_spec(),
    {
        Color { r: 255 - self.r, g: 255 - self.g, b: 255 - self.b, a: self.a }
    }
}

} // verus!
