//! Non-localized scalar attributes of a font, obtained directly from the
//! upstream source: the numeric weight, the style and stretch enumerations,
//! and the simulation flags. Each carries a display name; the weight's falls
//! back to its decimal numeral where no conventional name exists.

use vstd::prelude::*;

verus! {

/// The character for one decimal digit.
pub open spec fn digit_char(d: int) -> char {
    if d == 0 {
        '0'
    } else if d == 1 {
        '1'
    } else if d == 2 {
        '2'
    } else if d == 3 {
        '3'
    } else if d == 4 {
        '4'
    } else if d == 5 {
        '5'
    } else if d == 6 {
        '6'
    } else if d == 7 {
        '7'
    } else if d == 8 {
        '8'
    } else {
        '9'
    }
}

/// The decimal numeral of a non-negative integer, most significant digit
/// first, without leading zeros (a lone zero for zero itself).
pub open spec fn decimal_digits(n: int) -> Seq<char>
    decreases n,
{
    if n < 10 {
        seq![digit_char(n)]
    } else {
        decimal_digits(n / 10).push(digit_char(n % 10))
    }
}

/// The decimal numeral of any integer: a leading minus sign where negative.
pub open spec fn signed_decimal(v: int) -> Seq<char> {
    if v < 0 {
        seq!['-'] + decimal_digits(-v)
    } else {
        decimal_digits(v)
    }
}

/// One decimal digit as a string slice.
fn digit_str(d: u64) -> (s: &'static str)
    requires
        d < 10,
    ensures
        s@ == seq![digit_char(d as int)],
{
    proof {
        reveal_strlit("0");
        reveal_strlit("1");
        reveal_strlit("2");
        reveal_strlit("3");
        reveal_strlit("4");
        reveal_strlit("5");
        reveal_strlit("6");
        reveal_strlit("7");
        reveal_strlit("8");
        reveal_strlit("9");
    }
    let s: &'static str = match d {
        0 => "0",
        1 => "1",
        2 => "2",
        3 => "3",
        4 => "4",
        5 => "5",
        6 => "6",
        7 => "7",
        8 => "8",
        _ => "9",
    };
    proof {
        assert(s@ =~= seq![digit_char(d as int)]);
    }
    s
}

/// Renders a non-negative integer as its decimal numeral.
fn decimal_string(n: u64) -> (s: String)
    ensures
        s@ == decimal_digits(n as int),
    decreases n,
{
    if n < 10 {
        digit_str(n).to_owned()
    } else {
        let mut s = decimal_string(n / 10);
        s.append(digit_str(n % 10));
        proof {
            assert(s@ =~= decimal_digits(n as int));
        }
        s
    }
}

/// The display name of a weight value `w`.
pub open spec fn weight_name_spec(w: i32) -> Seq<char> {
    if w == 100 {
        "Thin"@
    } else if w == 200 {
        "ExtraLight"@
    } else if w == 300 {
        "Light"@
    } else if w == 350 {
        "SemiLight"@
    } else if w == 400 {
        "Regular"@
    } else if w == 500 {
        "Medium"@
    } else if w == 600 {
        "SemiBold"@
    } else if w == 700 {
        "Bold"@
    } else if w == 800 {
        "ExtraBold"@
    } else if w == 900 {
        "Black"@
    } else if w == 950 {
        "ExtraBlack"@
    } else {
        signed_decimal(w as int)
    }
}

/// A font's weight: the numeric degree of blackness, conventionally 1 to 999
/// with 400 as regular and 700 as bold.
#[derive(Debug, Clone, Copy, PartialEq, Eq, PartialOrd, Ord, Structural)]
pub struct Weight(pub i32);

impl Weight {
    /// The conventional name of this weight (`"Regular"`, `"Bold"`, ...), or
    /// its decimal numeral where no conventional name exists.
    pub fn name(&self) -> (s: String)
        ensures
            s@ == weight_name_spec(self.0),
    {
        match self.0 {
            100 => "Thin".to_owned(),
            200 => "ExtraLight".to_owned(),
            300 => "Light".to_owned(),
            350 => "SemiLight".to_owned(),
            400 => "Regular".to_owned(),
            500 => "Medium".to_owned(),
            600 => "SemiBold".to_owned(),
            700 => "Bold".to_owned(),
            800 => "ExtraBold".to_owned(),
            900 => "Black".to_owned(),
            950 => "ExtraBlack".to_owned(),
            w => {
                let magnitude: u64 = if w < 0 {
                    (-(w as i64)) as u64
                } else {
                    w as u64
                };
                let digits = decimal_string(magnitude);
                if w < 0 {
                    let mut s = "-".to_owned();
                    s.append(digits.as_str());
                    proof {
                        reveal_strlit("-");
                        assert(s@ =~= signed_decimal(w as int));
                    }
                    s
                } else {
                    digits
                }
            },
        }
    }
}

/// A font's slope style.
#[derive(Debug, Clone, Copy, PartialEq, Eq, Hash, Structural)]
pub enum Style {
    Normal,
    Oblique,
    Italic,
}

/// The style each platform style code denotes, if any.
pub open spec fn style_from_code_spec(code: u32) -> Option<Style> {
    if code == 0 {
        Some(Style::Normal)
    } else if code == 1 {
        Some(Style::Oblique)
    } else if code == 2 {
        Some(Style::Italic)
    } else {
        None
    }
}

/// The platform style code denoting each style.
pub open spec fn style_code_spec(style: Style) -> u32 {
    match style {
        Style::Normal => 0,
        Style::Oblique => 1,
        Style::Italic => 2,
    }
}

impl Style {
    /// The style a platform style code denotes: `0` is upright, `1` an
    /// oblique slant, `2` a true italic. Other codes denote no style.
    pub fn from_code(code: u32) -> (r: Option<Style>)
        ensures
            r == style_from_code_spec(code),
    {
        match code {
            0 => Some(Style::Normal),
            1 => Some(Style::Oblique),
            2 => Some(Style::Italic),
            _ => None,
        }
    }

    /// The platform style code denoting this style.
    pub fn code(&self) -> (c: u32)
        ensures
            c == style_code_spec(*self),
            style_from_code_spec(c) == Some(*self),
    {
        match self {
            Style::Normal => 0,
            Style::Oblique => 1,
            Style::Italic => 2,
        }
    }

    /// The display name of this style.
    pub fn name(&self) -> (s: String)
        ensures
            *self == Style::Normal ==> s@ == "Normal"@,
            *self == Style::Oblique ==> s@ == "Oblique"@,
            *self == Style::Italic ==> s@ == "Italic"@,
    {
        match self {
            Style::Normal => "Normal".to_owned(),
            Style::Oblique => "Oblique".to_owned(),
            Style::Italic => "Italic".to_owned(),
        }
    }
}

/// A font's stretch: how condensed or expanded it is, on the conventional
/// nine-step scale with a tenth value for "undefined".
#[derive(Debug, Clone, Copy, PartialEq, Eq, Hash, Structural)]
pub enum Stretch {
    Undefined,
    UltraCondensed,
    ExtraCondensed,
    Condensed,
    SemiCondensed,
    Normal,
    SemiExpanded,
    Expanded,
    ExtraExpanded,
    UltraExpanded,
}

/// The stretch each platform stretch code denotes, if any.
pub open spec fn stretch_from_code_spec(code: u32) -> Option<Stretch> {
    if code == 0 {
        Some(Stretch::Undefined)
    } else if code == 1 {
        Some(Stretch::UltraCondensed)
    } else if code == 2 {
        Some(Stretch::ExtraCondensed)
    } else if code == 3 {
        Some(Stretch::Condensed)
    } else if code == 4 {
        Some(Stretch::SemiCondensed)
    } else if code == 5 {
        Some(Stretch::Normal)
    } else if code == 6 {
        Some(Stretch::SemiExpanded)
    } else if code == 7 {
        Some(Stretch::Expanded)
    } else if code == 8 {
        Some(Stretch::ExtraExpanded)
    } else if code == 9 {
        Some(Stretch::UltraExpanded)
    } else {
        None
    }
}

/// The platform stretch code denoting each stretch.
pub open spec fn stretch_code_spec(stretch: Stretch) -> u32 {
    match stretch {
        Stretch::Undefined => 0,
        Stretch::UltraCondensed => 1,
        Stretch::ExtraCondensed => 2,
        Stretch::Condensed => 3,
        Stretch::SemiCondensed => 4,
        Stretch::Normal => 5,
        Stretch::SemiExpanded => 6,
        Stretch::Expanded => 7,
        Stretch::ExtraExpanded => 8,
        Stretch::UltraExpanded => 9,
    }
}

impl Stretch {
    /// The stretch a platform stretch code denotes: `0` is undefined, `1`
    /// the narrowest through `9` the widest. Other codes denote no stretch.
    pub fn from_code(code: u32) -> (r: Option<Stretch>)
        ensures
            r == stretch_from_code_spec(code),
    {
        match code {
            0 => Some(Stretch::Undefined),
            1 => Some(Stretch::UltraCondensed),
            2 => Some(Stretch::ExtraCondensed),
            3 => Some(Stretch::Condensed),
            4 => Some(Stretch::SemiCondensed),
            5 => Some(Stretch::Normal),
            6 => Some(Stretch::SemiExpanded),
            7 => Some(Stretch::Expanded),
            8 => Some(Stretch::ExtraExpanded),
            9 => Some(Stretch::UltraExpanded),
            _ => None,
        }
    }

    /// The platform stretch code denoting this stretch.
    pub fn code(&self) -> (c: u32)
        ensures
            c == stretch_code_spec(*self),
            stretch_from_code_spec(c) == Some(*self),
    {
        match self {
            Stretch::Undefined => 0,
            Stretch::UltraCondensed => 1,
            Stretch::ExtraCondensed => 2,
            Stretch::Condensed => 3,
            Stretch::SemiCondensed => 4,
            Stretch::Normal => 5,
            Stretch::SemiExpanded => 6,
            Stretch::Expanded => 7,
            Stretch::ExtraExpanded => 8,
            Stretch::UltraExpanded => 9,
        }
    }

    /// The display name of this stretch.
    pub fn name(&self) -> (s: String)
        ensures
            *self == Stretch::Undefined ==> s@ == "Undefined"@,
            *self == Stretch::UltraCondensed ==> s@ == "UltraCondensed"@,
            *self == Stretch::ExtraCondensed ==> s@ == "ExtraCondensed"@,
            *self == Stretch::Condensed ==> s@ == "Condensed"@,
            *self == Stretch::SemiCondensed ==> s@ == "SemiCondensed"@,
            *self == Stretch::Normal ==> s@ == "Normal"@,
            *self == Stretch::SemiExpanded ==> s@ == "SemiExpanded"@,
            *self == Stretch::Expanded ==> s@ == "Expanded"@,
            *self == Stretch::ExtraExpanded ==> s@ == "ExtraExpanded"@,
            *self == Stretch::UltraExpanded ==> s@ == "UltraExpanded"@,
    {
        match self {
            Stretch::Undefined => "Undefined".to_owned(),
            Stretch::UltraCondensed => "UltraCondensed".to_owned(),
            Stretch::ExtraCondensed => "ExtraCondensed".to_owned(),
            Stretch::Condensed => "Condensed".to_owned(),
            Stretch::SemiCondensed => "SemiCondensed".to_owned(),
            Stretch::Normal => "Normal".to_owned(),
            Stretch::SemiExpanded => "SemiExpanded".to_owned(),
            Stretch::Expanded => "Expanded".to_owned(),
            Stretch::ExtraExpanded => "ExtraExpanded".to_owned(),
            Stretch::UltraExpanded => "UltraExpanded".to_owned(),
        }
    }
}

/// Which algorithmic simulations the platform applies to a font face: an
/// emboldening stroke, an oblique slant, both, or none.
#[derive(Debug, Clone, Copy, PartialEq, Eq, Hash, Structural)]
pub struct Simulations {
    pub bold: bool,
    pub oblique: bool,
}

/// The simulation set a platform bit set denotes: bit zero is the bold
/// simulation and bit one the oblique simulation.
pub open spec fn simulations_from_bits_spec(bits: u32) -> Simulations {
    Simulations { bold: bits & 1 != 0, oblique: bits & 2 != 0 }
}

impl Simulations {
    /// No simulation at all: the face renders as designed.
    pub fn none() -> (r: Simulations)
        ensures
            !r.bold,
            !r.oblique,
    {
        Simulations { bold: false, oblique: false }
    }

    /// Decodes the platform's simulation bit set: bit zero is the bold
    /// simulation and bit one the oblique simulation.
    pub fn from_bits(bits: u32) -> (r: Simulations)
        ensures
            r == simulations_from_bits_spec(bits),
    {
        Simulations { bold: bits & 1 != 0, oblique: bits & 2 != 0 }
    }

    /// Encodes this simulation set as the platform's bits.
    pub fn bits(&self) -> (b: u32)
        ensures
            simulations_from_bits_spec(b) == *self,
            b <= 3,
    {
        let b: u32 = if self.bold {
            1
        } else {
            0
        } + if self.oblique {
            2
        } else {
            0
        };
        proof {
            assert(0u32 & 1 == 0 && 0u32 & 2 == 0 && 1u32 & 1 == 1 && 1u32 & 2 == 0 && 2u32 & 1
                == 0 && 2u32 & 2 == 2 && 3u32 & 1 == 1 && 3u32 & 2 == 2) by (bit_vector);
        }
        b
    }

    /// Whether no simulation is applied.
    pub fn is_none(&self) -> (r: bool)
        ensures
            r == (!self.bold && !self.oblique),
    {
        !self.bold && !self.oblique
    }
}

/// The non-localized attributes of one font, as one plain value.
#[derive(Debug, Clone, Copy, PartialEq, Eq, Structural)]
pub struct ScalarAttributes {
    pub weight: Weight,
    pub style: Style,
    pub stretch: Stretch,
    pub simulations: Simulations,
    pub is_variable: bool,
}

} // verus!
