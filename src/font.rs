use vstd::prelude::*;

verus! {

/// Number of glyph rows in the font atlas.
pub const N_ROWS: u32 = 8;

/// Number of glyph columns in the font atlas.
pub const N_COLS: u32 = 16;

/// A character that can be rendered with the text pipeline.
#[derive(Clone, Copy, Debug, PartialEq, Eq, Structural)]
pub enum GLChar {
    A,
    B,
    C,
    D,
    E,
    F,
    G,
    H,
    I,
    J,
    K,
    L,
    M,
    N,
    O,
    P,
    Q,
    R,
    S,
    T,
    U,
    V,
    W,
    X,
    Y,
    Z,
    DOT,
    DOUBLEPOINT,
    COMMA,
}

/// The glyph that stands for a character, if the atlas has one.
pub open spec fn glyph_of(c: char) -> Option<GLChar> {
    if c == 'a' { Some(GLChar::A) }
    else if c == 'b' { Some(GLChar::B) }
    else if c == 'c' { Some(GLChar::C) }
    else if c == 'd' { Some(GLChar::D) }
    else if c == 'e' { Some(GLChar::E) }
    else if c == 'f' { Some(GLChar::F) }
    else if c == 'g' { Some(GLChar::G) }
    else if c == 'h' { Some(GLChar::H) }
    else if c == 'i' { Some(GLChar::I) }
    else if c == 'j' { Some(GLChar::J) }
    else if c == 'k' { Some(GLChar::K) }
    else if c == 'l' { Some(GLChar::L) }
    else if c == 'm' { Some(GLChar::M) }
    else if c == 'n' { Some(GLChar::N) }
    else if c == 'o' { Some(GLChar::O) }
    else if c == 'p' { Some(GLChar::P) }
    else if c == 'q' { Some(GLChar::Q) }
    else if c == 'r' { Some(GLChar::R) }
    else if c == 's' { Some(GLChar::S) }
    else if c == 't' { Some(GLChar::T) }
    else if c == 'u' { Some(GLChar::U) }
    else if c == 'v' { Some(GLChar::V) }
    else if c == 'w' { Some(GLChar::W) }
    else if c == 'x' { Some(GLChar::X) }
    else if c == 'y' { Some(GLChar::Y) }
    else if c == 'z' { Some(GLChar::Z) }
    else if c == '.' { Some(GLChar::DOT) }
    else if c == ':' { Some(GLChar::DOUBLEPOINT) }
    else if c == ',' { Some(GLChar::COMMA) }
    else { None }
}

/// The atlas cell `(column, row)` of the bottom-left corner of a glyph.
pub open spec fn cell_of(g: GLChar) -> (u32, u32) {
    match g {
        GLChar::A => (1, 3),
        GLChar::B => (2, 3),
        GLChar::C => (3, 3),
        GLChar::D => (4, 3),
        GLChar::E => (5, 3),
        GLChar::F => (6, 3),
        GLChar::G => (7, 3),
        GLChar::H => (8, 3),
        GLChar::I => (10, 3),
        GLChar::J => (11, 3),
        GLChar::K => (12, 3),
        GLChar::L => (13, 3),
        GLChar::M => (14, 3),
        GLChar::N => (15, 3),
        GLChar::O => (16, 3),
        GLChar::P => (0, 2),
        GLChar::Q => (1, 2),
        GLChar::R => (2, 2),
        GLChar::S => (3, 2),
        GLChar::T => (4, 2),
        GLChar::U => (5, 2),
        GLChar::V => (6, 2),
        GLChar::W => (7, 2),
        GLChar::X => (8, 2),
        GLChar::Y => (9, 2),
        GLChar::Z => (10, 2),
        GLChar::COMMA => (12, 5),
        GLChar::DOT => (14, 5),
        GLChar::DOUBLEPOINT => (10, 4),
    }
}

impl GLChar {
    /// The glyph of a lower-case letter, a dot, a colon or a comma.
    pub fn from_char(c: char) -> (r: GLChar)
        requires
            glyph_of(c).is_some(),
        ensures
            glyph_of(c) == Some(r),
    {
        match c {
            'a' => GLChar::A,
            'b' => GLChar::B,
            'c' => GLChar::C,
            'd' => GLChar::D,
            'e' => GLChar::E,
            'f' => GLChar::F,
            'g' => GLChar::G,
            'h' => GLChar::H,
            'i' => GLChar::I,
            'j' => GLChar::J,
            'k' => GLChar::K,
            'l' => GLChar::L,
            'm' => GLChar::M,
            'n' => GLChar::N,
            'o' => GLChar::O,
            'p' => GLChar::P,
            'q' => GLChar::Q,
            'r' => GLChar::R,
            's' => GLChar::S,
            't' => GLChar::T,
            'u' => GLChar::U,
            'v' => GLChar::V,
            'w' => GLChar::W,
            'x' => GLChar::X,
            'y' => GLChar::Y,
            'z' => GLChar::Z,
            '.' => GLChar::DOT,
            ':' => GLChar::DOUBLEPOINT,
            _ => GLChar::COMMA,
        }
    }

    /// The atlas cell `(column, row)` of the glyph's bottom-left corner.
    /// Dividing the column by `N_COLS` and the row by `N_ROWS` gives the
    /// texture coordinates of that corner.
    pub fn get_index(&self) -> (r: (u32, u32))
        ensures
            r == cell_of(*self),
            r.0 <= N_COLS,
            r.1 < N_ROWS,
    {
        match self {
            GLChar::A => (1, 3),
            GLChar::B => (2, 3),
            GLChar::C => (3, 3),
            GLChar::D => (4, 3),
            GLChar::E => (5, 3),
            GLChar::F => (6, 3),
            GLChar::G => (7, 3),
            GLChar::H => (8, 3),
            GLChar::I => (10, 3),
            GLChar::J => (11, 3),
            GLChar::K => (12, 3),
            GLChar::L => (13, 3),
            GLChar::M => (14, 3),
            GLChar::N => (15, 3),
            GLChar::O => (16, 3),
            GLChar::P => (0, 2),
            GLChar::Q => (1, 2),
            GLChar::R => (2, 2),
            GLChar::S => (3, 2),
            GLChar::T => (4, 2),
            GLChar::U => (5, 2),
            GLChar::V => (6, 2),
            GLChar::W => (7, 2),
            GLChar::X => (8, 2),
            GLChar::Y => (9, 2),
            GLChar::Z => (10, 2),
            GLChar::COMMA => (12, 5),
            GLChar::DOT => (14, 5),
            GLChar::DOUBLEPOINT => (10, 4),
        }
    }
}

} // verus!
