//! The two Material 3 palettes of the client.

use vstd::prelude::*;

verus! {

/// An opaque colour: red, green and blue.
#[derive(Debug, Clone, Copy, PartialEq, Eq, Structural)]
pub struct Rgb {
    pub r: u8,
    pub g: u8,
    pub b: u8,
}

impl Rgb {
    /// The colour with these parts.
    pub fn from_rgb(r: u8, g: u8, b: u8) -> (res: Self)
        ensures
            res == (Rgb { r, g, b }),
    {
        Rgb { r, g, b }
    }

    /// The red part.
    pub fn r(&self) -> (res: u8)
        ensures
            res == self.r,
    {
        self.r
    }

    /// The green part.
    pub fn g(&self) -> (res: u8)
        ensures
            res == self.g,
    {
        self.g
    }

    /// The blue part.
    pub fn b(&self) -> (res: u8)
        ensures
            res == self.b,
    {
        self.b
    }
}

/// A Material 3 palette.
#[derive(Debug, Clone, Copy)]
pub struct Material3Colors {
    pub primary: Rgb,
    pub on_primary: Rgb,
    pub primary_container: Rgb,
    pub on_primary_container: Rgb,
    pub secondary: Rgb,
    pub on_secondary: Rgb,
    pub secondary_container: Rgb,
    pub tertiary: Rgb,
    pub surface: Rgb,
    pub surface_dim: Rgb,
    pub surface_bright: Rgb,
    pub on_surface: Rgb,
    pub surface_variant: Rgb,
    pub on_surface_variant: Rgb,
    pub outline: Rgb,
    pub outline_variant: Rgb,
    pub error: Rgb,
    pub on_error: Rgb,
    pub success: Rgb,
}

impl Default for Material3Colors {
    /// The dark palette.
    fn default() -> (res: Self)
        ensures
            res == Material3Colors::spec_dark(),
    {
        Material3Colors {
            primary: Rgb { r: 208, g: 188, b: 255 },
            on_primary: Rgb { r: 56, g: 30, b: 114 },
            primary_container: Rgb { r: 79, g: 55, b: 139 },
            on_primary_container: Rgb { r: 234, g: 221, b: 255 },
            secondary: Rgb { r: 204, g: 194, b: 220 },
            on_secondary: Rgb { r: 51, g: 45, b: 65 },
            secondary_container: Rgb { r: 74, g: 68, b: 88 },
            tertiary: Rgb { r: 239, g: 184, b: 200 },
            surface: Rgb { r: 20, g: 18, b: 24 },
            surface_dim: Rgb { r: 20, g: 18, b: 24 },
            surface_bright: Rgb { r: 59, g: 56, b: 62 },
            on_surface: Rgb { r: 230, g: 225, b: 230 },
            surface_variant: Rgb { r: 44, g: 40, b: 49 },
            on_surface_variant: Rgb { r: 202, g: 196, b: 208 },
            outline: Rgb { r: 147, g: 143, b: 153 },
            outline_variant: Rgb { r: 68, g: 64, b: 75 },
            error: Rgb { r: 242, g: 184, b: 181 },
            on_error: Rgb { r: 96, g: 20, b: 16 },
            success: Rgb { r: 129, g: 199, b: 132 },
        }
    }
}

impl Material3Colors {
    /// The dark palette, with light purple as its primary colour.
    pub open spec fn spec_dark() -> Material3Colors {
        Material3Colors {
            primary: Rgb { r: 208, g: 188, b: 255 },
            on_primary: Rgb { r: 56, g: 30, b: 114 },
            primary_container: Rgb { r: 79, g: 55, b: 139 },
            on_primary_container: Rgb { r: 234, g: 221, b: 255 },
            secondary: Rgb { r: 204, g: 194, b: 220 },
            on_secondary: Rgb { r: 51, g: 45, b: 65 },
            secondary_container: Rgb { r: 74, g: 68, b: 88 },
            tertiary: Rgb { r: 239, g: 184, b: 200 },
            surface: Rgb { r: 20, g: 18, b: 24 },
            surface_dim: Rgb { r: 20, g: 18, b: 24 },
            surface_bright: Rgb { r: 59, g: 56, b: 62 },
            on_surface: Rgb { r: 230, g: 225, b: 230 },
            surface_variant: Rgb { r: 44, g: 40, b: 49 },
            on_surface_variant: Rgb { r: 202, g: 196, b: 208 },
            outline: Rgb { r: 147, g: 143, b: 153 },
            outline_variant: Rgb { r: 68, g: 64, b: 75 },
            error: Rgb { r: 242, g: 184, b: 181 },
            on_error: Rgb { r: 96, g: 20, b: 16 },
            success: Rgb { r: 129, g: 199, b: 132 },
        }
    }

    /// The light palette, with deep purple as its primary colour.
    pub open spec fn spec_light() -> Material3Colors {
        Material3Colors {
            primary: Rgb { r: 103, g: 80, b: 164 },
            on_primary: Rgb { r: 255, g: 255, b: 255 },
            primary_container: Rgb { r: 234, g: 221, b: 255 },
            on_primary_container: Rgb { r: 33, g: 0, b: 93 },
            secondary: Rgb { r: 98, g: 91, b: 113 },
            on_secondary: Rgb { r: 255, g: 255, b: 255 },
            secondary_container: Rgb { r: 232, g: 222, b: 248 },
            tertiary: Rgb { r: 125, g: 82, b: 96 },
            surface: Rgb { r: 254, g: 247, b: 255 },
            surface_dim: Rgb { r: 222, g: 216, b: 225 },
            surface_bright: Rgb { r: 254, g: 247, b: 255 },
            on_surface: Rgb { r: 28, g: 27, b: 31 },
            surface_variant: Rgb { r: 231, g: 224, b: 236 },
            on_surface_variant: Rgb { r: 73, g: 69, b: 79 },
            outline: Rgb { r: 121, g: 116, b: 126 },
            outline_variant: Rgb { r: 202, g: 196, b: 208 },
            error: Rgb { r: 179, g: 38, b: 30 },
            on_error: Rgb { r: 255, g: 255, b: 255 },
            success: Rgb { r: 56, g: 142, b: 60 },
        }
    }

    /// The palette that goes with a theme.
    pub open spec fn spec_for_theme(dark_mode: bool) -> Material3Colors {
        if dark_mode {
            Material3Colors::spec_dark()
        } else {
            Material3Colors::spec_light()
        }
    }

    /// The light palette.
    pub fn light() -> (res: Self)
        ensures
            res == Material3Colors::spec_light(),
    {
        Material3Colors {
            primary: Rgb { r: 103, g: 80, b: 164 },
            on_primary: Rgb { r: 255, g: 255, b: 255 },
            primary_container: Rgb { r: 234, g: 221, b: 255 },
            on_primary_container: Rgb { r: 33, g: 0, b: 93 },
            secondary: Rgb { r: 98, g: 91, b: 113 },
            on_secondary: Rgb { r: 255, g: 255, b: 255 },
            secondary_container: Rgb { r: 232, g: 222, b: 248 },
            tertiary: Rgb { r: 125, g: 82, b: 96 },
            surface: Rgb { r: 254, g: 247, b: 255 },
            surface_dim: Rgb { r: 222, g: 216, b: 225 },
            surface_bright: Rgb { r: 254, g: 247, b: 255 },
            on_surface: Rgb { r: 28, g: 27, b: 31 },
            surface_variant: Rgb { r: 231, g: 224, b: 236 },
            on_surface_variant: Rgb { r: 73, g: 69, b: 79 },
            outline: Rgb { r: 121, g: 116, b: 126 },
            outline_variant: Rgb { r: 202, g: 196, b: 208 },
            error: Rgb { r: 179, g: 38, b: 30 },
            on_error: Rgb { r: 255, g: 255, b: 255 },
            success: Rgb { r: 56, g: 142, b: 60 },
        }
    }

    /// The dark palette.
    pub fn dark() -> (res: Self)
        ensures
            res == Material3Colors::spec_dark(),
    {
        Material3Colors {
            primary: Rgb { r: 208, g: 188, b: 255 },
            on_primary: Rgb { r: 56, g: 30, b: 114 },
            primary_container: Rgb { r: 79, g: 55, b: 139 },
            on_primary_container: Rgb { r: 234, g: 221, b: 255 },
            secondary: Rgb { r: 204, g: 194, b: 220 },
            on_secondary: Rgb { r: 51, g: 45, b: 65 },
            secondary_container: Rgb { r: 74, g: 68, b: 88 },
            tertiary: Rgb { r: 239, g: 184, b: 200 },
            surface: Rgb { r: 20, g: 18, b: 24 },
            surface_dim: Rgb { r: 20, g: 18, b: 24 },
            surface_bright: Rgb { r: 59, g: 56, b: 62 },
            on_surface: Rgb { r: 230, g: 225, b: 230 },
            surface_variant: Rgb { r: 44, g: 40, b: 49 },
            on_surface_variant: Rgb { r: 202, g: 196, b: 208 },
            outline: Rgb { r: 147, g: 143, b: 153 },
            outline_variant: Rgb { r: 68, g: 64, b: 75 },
            error: Rgb { r: 242, g: 184, b: 181 },
            on_error: Rgb { r: 96, g: 20, b: 16 },
            success: Rgb { r: 129, g: 199, b: 132 },
        }
    }

    /// The palette that goes with a theme.
    pub fn for_theme(dark_mode: bool) -> (res: Self)
        ensures
            res == Material3Colors::spec_for_theme(dark_mode),
    {
        if dark_mode {
            Material3Colors::dark()
        } else {
            Material3Colors::light()
        }
    }

    /// Background and text colour of a button: the primary pair for a
    /// primary button, the surface pair for another.
    pub fn button_colors(&self, primary: bool) -> (res: (Rgb, Rgb))
        ensures
            res == if primary {
                (self.primary, self.on_primary)
            } else {
                (self.surface_variant, self.on_surface)
            },
    {
        if primary {
            (self.primary, self.on_primary)
        } else {
            (self.surface_variant, self.on_surface)
        }
    }
}

} // verus!
