//! The Gruvbox Material colours, each with an opacity of the caller's
//! choice.

use vstd::prelude::*;

verus! {

/// A colour by its red, green and blue parts and its opacity, none of them
/// multiplied by another.
#[derive(Debug, Clone, Copy, PartialEq, Eq, Structural)]
pub struct Rgba {
    pub red: u8,
    pub green: u8,
    pub blue: u8,
    pub alpha: u8,
}

/// The Gruvbox Material palette.
#[derive(Debug, Clone, Copy, PartialEq, Eq, Structural)]
pub struct GruvboxMaterial;

impl GruvboxMaterial {
    /// The darkest background.
    #[inline]
    pub fn bg(alpha: u8) -> (c: Rgba)
        ensures
            c == (Rgba { red: 40, green: 40, blue: 40, alpha }),
    {
        Rgba { red: 40, green: 40, blue: 40, alpha }
    }

    /// The first raised background.
    #[inline]
    pub fn bg1(alpha: u8) -> (c: Rgba)
        ensures
            c == (Rgba { red: 60, green: 56, blue: 54, alpha }),
    {
        Rgba { red: 60, green: 56, blue: 54, alpha }
    }

    /// The second raised background.
    #[inline]
    pub fn bg2(alpha: u8) -> (c: Rgba)
        ensures
            c == (Rgba { red: 80, green: 73, blue: 69, alpha }),
    {
        Rgba { red: 80, green: 73, blue: 69, alpha }
    }

    /// The third raised background.
    #[inline]
    pub fn bg3(alpha: u8) -> (c: Rgba)
        ensures
            c == (Rgba { red: 102, green: 92, blue: 84, alpha }),
    {
        Rgba { red: 102, green: 92, blue: 84, alpha }
    }

    /// The lightest background.
    #[inline]
    pub fn bg4(alpha: u8) -> (c: Rgba)
        ensures
            c == (Rgba { red: 124, green: 111, blue: 100, alpha }),
    {
        Rgba { red: 124, green: 111, blue: 100, alpha }
    }

    /// The main foreground.
    #[inline]
    pub fn fg(alpha: u8) -> (c: Rgba)
        ensures
            c == (Rgba { red: 235, green: 219, blue: 178, alpha }),
    {
        Rgba { red: 235, green: 219, blue: 178, alpha }
    }

    /// The first dimmed foreground.
    #[inline]
    pub fn fg1(alpha: u8) -> (c: Rgba)
        ensures
            c == (Rgba { red: 213, green: 196, blue: 161, alpha }),
    {
        Rgba { red: 213, green: 196, blue: 161, alpha }
    }

    /// The second dimmed foreground.
    #[inline]
    pub fn fg2(alpha: u8) -> (c: Rgba)
        ensures
            c == (Rgba { red: 189, green: 174, blue: 147, alpha }),
    {
        Rgba { red: 189, green: 174, blue: 147, alpha }
    }

    /// The third dimmed foreground.
    #[inline]
    pub fn fg3(alpha: u8) -> (c: Rgba)
        ensures
            c == (Rgba { red: 168, green: 153, blue: 132, alpha }),
    {
        Rgba { red: 168, green: 153, blue: 132, alpha }
    }

    /// Red.
    #[inline]
    pub fn red(alpha: u8) -> (c: Rgba)
        ensures
            c == (Rgba { red: 251, green: 73, blue: 52, alpha }),
    {
        Rgba { red: 251, green: 73, blue: 52, alpha }
    }

    /// Orange.
    #[inline]
    pub fn orange(alpha: u8) -> (c: Rgba)
        ensures
            c == (Rgba { red: 254, green: 128, blue: 25, alpha }),
    {
        Rgba { red: 254, green: 128, blue: 25, alpha }
    }

    /// Yellow.
    #[inline]
    pub fn yellow(alpha: u8) -> (c: Rgba)
        ensures
            c == (Rgba { red: 250, green: 189, blue: 47, alpha }),
    {
        Rgba { red: 250, green: 189, blue: 47, alpha }
    }

    /// Green.
    #[inline]
    pub fn green(alpha: u8) -> (c: Rgba)
        ensures
            c == (Rgba { red: 184, green: 187, blue: 38, alpha }),
    {
        Rgba { red: 184, green: 187, blue: 38, alpha }
    }

    /// Aqua.
    #[inline]
    pub fn aqua(alpha: u8) -> (c: Rgba)
        ensures
            c == (Rgba { red: 131, green: 165, blue: 152, alpha }),
    {
        Rgba { red: 131, green: 165, blue: 152, alpha }
    }

    /// Blue.
    #[inline]
    pub fn blue(alpha: u8) -> (c: Rgba)
        ensures
            c == (Rgba { red: 131, green: 155, blue: 255, alpha }),
    {
        Rgba { red: 131, green: 155, blue: 255, alpha }
    }

    /// Purple.
    #[inline]
    pub fn purple(alpha: u8) -> (c: Rgba)
        ensures
            c == (Rgba { red: 211, green: 134, blue: 155, alpha }),
    {
        Rgba { red: 211, green: 134, blue: 155, alpha }
    }

    /// Gray.
    #[inline]
    pub fn gray(alpha: u8) -> (c: Rgba)
        ensures
            c == (Rgba { red: 146, green: 131, blue: 116, alpha }),
    {
        Rgba { red: 146, green: 131, blue: 116, alpha }
    }

    /// The background of an overlay: the darkest background, mostly opaque.
    #[inline]
    pub fn overlay_bg() -> (c: Rgba)
        ensures
            c == (Rgba { red: 40, green: 40, blue: 40, alpha: 200 }),
    {
        Self::bg(200)
    }

    /// The foreground of an overlay: the main foreground, mostly opaque.
    #[inline]
    pub fn overlay_fg() -> (c: Rgba)
        ensures
            c == (Rgba { red: 235, green: 219, blue: 178, alpha: 200 }),
    {
        Self::fg(200)
    }

    /// The opaque colours of the palette: the backgrounds, the
    /// foregrounds, and then the accents from red to aqua and purple.
    #[inline]
    pub fn palette() -> (r: [Rgba; 15])
        ensures
            r@ == seq![
                Rgba { red: 40, green: 40, blue: 40, alpha: 255 },
                Rgba { red: 60, green: 56, blue: 54, alpha: 255 },
                Rgba { red: 80, green: 73, blue: 69, alpha: 255 },
                Rgba { red: 102, green: 92, blue: 84, alpha: 255 },
                Rgba { red: 124, green: 111, blue: 100, alpha: 255 },
                Rgba { red: 235, green: 219, blue: 178, alpha: 255 },
                Rgba { red: 213, green: 196, blue: 161, alpha: 255 },
                Rgba { red: 189, green: 174, blue: 147, alpha: 255 },
                Rgba { red: 168, green: 153, blue: 132, alpha: 255 },
                Rgba { red: 251, green: 73, blue: 52, alpha: 255 },
                Rgba { red: 254, green: 128, blue: 25, alpha: 255 },
                Rgba { red: 250, green: 189, blue: 47, alpha: 255 },
                Rgba { red: 184, green: 187, blue: 38, alpha: 255 },
                Rgba { red: 131, green: 165, blue: 152, alpha: 255 },
                Rgba { red: 211, green: 134, blue: 155, alpha: 255 },
            ],
    {
        [
            Self::bg(255),
            Self::bg1(255),
            Self::bg2(255),
            Self::bg3(255),
            Self::bg4(255),
            Self::fg(255),
            Self::fg1(255),
            Self::fg2(255),
            Self::fg3(255),
            Self::red(255),
            Self::orange(255),
            Self::yellow(255),
            Self::green(255),
            Self::aqua(255),
            Self::purple(255),
        ]
    }
}

} // verus!
