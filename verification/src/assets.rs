//! Handles for loaded assets, and the error of font loading.
//!
//! Loading itself — files, image decoding, GPU textures, font parsing — is
//! I/O and lives with the caller; the library fixes the handle types the
//! caller hands out and the shape of the loading errors.

use vstd::prelude::*;

verus! {

/// A handle to a loaded image.
#[derive(Hash, PartialEq, Eq, Clone, Copy, Debug)]
pub struct ImageId(pub u32);

/// A handle to a texture created from an image.
#[derive(Hash, PartialEq, Eq, Clone, Copy, Debug)]
pub struct TextureId(pub u32);

/// A handle to a loaded font.
#[derive(Hash, PartialEq, Eq, Clone, Copy, Debug)]
pub struct FontId(pub u32);

impl FontId {
    /// The font's index, for renderers that keep fonts in a table.
    pub fn font_id(&self) -> (r: usize)
        ensures
            r == self.0 as usize,
    {
        self.0 as usize
    }
}

/// Why loading a font failed. An I/O failure is carried as its message.
#[derive(Debug)]
pub enum LoadFontError {
    IoError(String),
    InvalidFont,
    IdGenError,
}

/// The fonts of the client, by slot in the renderer's font table;
/// `NumFonts` stands for the table's size.
#[derive(PartialEq, Eq, Structural, Clone, Copy, Debug)]
pub enum Fonts {
    Inter,
    Vga8,
    Moderno,
    NumFonts,
}

/// The table slot of a font.
pub open spec fn spec_font_slot(f: Fonts) -> int {
    match f {
        Fonts::Inter => 0,
        Fonts::Vga8 => 1,
        Fonts::Moderno => 2,
        Fonts::NumFonts => 3,
    }
}

impl Fonts {
    /// The font's slot in the renderer's font table (the size of the table
    /// for `NumFonts`).
    pub fn table_slot(&self) -> (r: usize)
        ensures
            r == spec_font_slot(*self),
    {
        match self {
            Fonts::Inter => 0,
            Fonts::Vga8 => 1,
            Fonts::Moderno => 2,
            Fonts::NumFonts => 3,
        }
    }
}

} // verus!
