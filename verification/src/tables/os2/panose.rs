//! A [PANOSE classification](https://learn.microsoft.com/en-us/typography/opentype/spec/os2#panose)
//! implementation.
//!
//! The underlying specification is located at: <https://monotype.github.io/panose/pan1.htm>

use vstd::prelude::*;

verus! {

/// The type of diagonal stems and letterform termination used by a font face.
///
/// <https://monotype.github.io/panose/pan2.htm#_Toc380547277>
#[derive(Clone, Copy, Debug, PartialEq, Eq, Structural)]
pub enum ArmStyle {
    AnyFit,
    NoFit,
    StraightHorizontal,
    StraightWedge,
    StraightVertical,
    StraightSingleSerif,
    StraightDoubleSerif,
    NonStraightHorizontal,
    NonStraightWedge,
    NonStraightVertical,
    NonStraightSingleSerif,
    NonStraightDoubleSerif,
}

impl ArmStyle {
    /// The number that encodes the value.
    pub open spec fn code(self) -> u8 {
        match self {
            ArmStyle::AnyFit => 0,
            ArmStyle::NoFit => 1,
            ArmStyle::StraightHorizontal => 2,
            ArmStyle::StraightWedge => 3,
            ArmStyle::StraightVertical => 4,
            ArmStyle::StraightSingleSerif => 5,
            ArmStyle::StraightDoubleSerif => 6,
            ArmStyle::NonStraightHorizontal => 7,
            ArmStyle::NonStraightWedge => 8,
            ArmStyle::NonStraightVertical => 9,
            ArmStyle::NonStraightSingleSerif => 10,
            ArmStyle::NonStraightDoubleSerif => 11,
        }
    }

    /// The value a number encodes: numbers 0 to 11 are defined.
    pub open spec fn spec_from(b: u8) -> Option<ArmStyle> {
        if b == 0 {
            Some(ArmStyle::AnyFit)
        } else if b == 1 {
            Some(ArmStyle::NoFit)
        } else if b == 2 {
            Some(ArmStyle::StraightHorizontal)
        } else if b == 3 {
            Some(ArmStyle::StraightWedge)
        } else if b == 4 {
            Some(ArmStyle::StraightVertical)
        } else if b == 5 {
            Some(ArmStyle::StraightSingleSerif)
        } else if b == 6 {
            Some(ArmStyle::StraightDoubleSerif)
        } else if b == 7 {
            Some(ArmStyle::NonStraightHorizontal)
        } else if b == 8 {
            Some(ArmStyle::NonStraightWedge)
        } else if b == 9 {
            Some(ArmStyle::NonStraightVertical)
        } else if b == 10 {
            Some(ArmStyle::NonStraightSingleSerif)
        } else if b == 11 {
            Some(ArmStyle::NonStraightDoubleSerif)
        } else {
            None
        }
    }

    /// Decodes a number.
    pub fn from_u8(b: u8) -> (r: Option<ArmStyle>)
        ensures
            r == ArmStyle::spec_from(b),
            r is Some <==> b < 12,
            r matches Some(v) ==> v.code() == b,
    {
        match b {
            0 => Some(ArmStyle::AnyFit),
            1 => Some(ArmStyle::NoFit),
            2 => Some(ArmStyle::StraightHorizontal),
            3 => Some(ArmStyle::StraightWedge),
            4 => Some(ArmStyle::StraightVertical),
            5 => Some(ArmStyle::StraightSingleSerif),
            6 => Some(ArmStyle::StraightDoubleSerif),
            7 => Some(ArmStyle::NonStraightHorizontal),
            8 => Some(ArmStyle::NonStraightWedge),
            9 => Some(ArmStyle::NonStraightVertical),
            10 => Some(ArmStyle::NonStraightSingleSerif),
            11 => Some(ArmStyle::NonStraightDoubleSerif),
            _ => None,
        }
    }

    /// Decodes the first byte of `data`.
    pub fn parse(data: &[u8]) -> (r: Option<ArmStyle>)
        ensures
            r == (if data@.len() == 0 { None } else { ArmStyle::spec_from(data@[0]) }),
    {
        if data.len() == 0 {
            return None;
        }
        ArmStyle::from_u8(data[0])
    }
}

/// The ratio between the thickest and thinnest parts of the uppercase letter "O".
///
/// <https://monotype.github.io/panose/pan2.htm#_Toc380547263>
#[derive(Clone, Copy, Debug, PartialEq, Eq, Structural)]
pub enum Contrast {
    AnyFit,
    NoFit,
    NoContrast,
    VeryLow,
    Low,
    MediumLow,
    Medium,
    MediumHigh,
    High,
    VeryHigh,
    HorizontalLow,
    HorizontalMedium,
    HorizontalHigh,
    Broken,
}

impl Contrast {
    /// The number that encodes the value.
    pub open spec fn code(self) -> u8 {
        match self {
            Contrast::AnyFit => 0,
            Contrast::NoFit => 1,
            Contrast::NoContrast => 2,
            Contrast::VeryLow => 3,
            Contrast::Low => 4,
            Contrast::MediumLow => 5,
            Contrast::Medium => 6,
            Contrast::MediumHigh => 7,
            Contrast::High => 8,
            Contrast::VeryHigh => 9,
            Contrast::HorizontalLow => 10,
            Contrast::HorizontalMedium => 11,
            Contrast::HorizontalHigh => 12,
            Contrast::Broken => 13,
        }
    }

    /// The value a number encodes: numbers 0 to 13 are defined.
    pub open spec fn spec_from(b: u8) -> Option<Contrast> {
        if b == 0 {
            Some(Contrast::AnyFit)
        } else if b == 1 {
            Some(Contrast::NoFit)
        } else if b == 2 {
            Some(Contrast::NoContrast)
        } else if b == 3 {
            Some(Contrast::VeryLow)
        } else if b == 4 {
            Some(Contrast::Low)
        } else if b == 5 {
            Some(Contrast::MediumLow)
        } else if b == 6 {
            Some(Contrast::Medium)
        } else if b == 7 {
            Some(Contrast::MediumHigh)
        } else if b == 8 {
            Some(Contrast::High)
        } else if b == 9 {
            Some(Contrast::VeryHigh)
        } else if b == 10 {
            Some(Contrast::HorizontalLow)
        } else if b == 11 {
            Some(Contrast::HorizontalMedium)
        } else if b == 12 {
            Some(Contrast::HorizontalHigh)
        } else if b == 13 {
            Some(Contrast::Broken)
        } else {
            None
        }
    }

    /// Decodes a number.
    pub fn from_u8(b: u8) -> (r: Option<Contrast>)
        ensures
            r == Contrast::spec_from(b),
            r is Some <==> b < 14,
            r matches Some(v) ==> v.code() == b,
    {
        match b {
            0 => Some(Contrast::AnyFit),
            1 => Some(Contrast::NoFit),
            2 => Some(Contrast::NoContrast),
            3 => Some(Contrast::VeryLow),
            4 => Some(Contrast::Low),
            5 => Some(Contrast::MediumLow),
            6 => Some(Contrast::Medium),
            7 => Some(Contrast::MediumHigh),
            8 => Some(Contrast::High),
            9 => Some(Contrast::VeryHigh),
            10 => Some(Contrast::HorizontalLow),
            11 => Some(Contrast::HorizontalMedium),
            12 => Some(Contrast::HorizontalHigh),
            13 => Some(Contrast::Broken),
            _ => None,
        }
    }

    /// Decodes the first byte of `data`.
    pub fn parse(data: &[u8]) -> (r: Option<Contrast>)
        ensures
            r == (if data@.len() == 0 { None } else { Contrast::spec_from(data@[0]) }),
    {
        if data.len() == 0 {
            return None;
        }
        Contrast::from_u8(data[0])
    }
}

/// The "look and feel" of a [`LatinDecorative`](Panose::LatinDecorative) face.
///
/// <https://monotype.github.io/panose/pan4.htm#_Toc380547360>
#[derive(Clone, Copy, Debug, PartialEq, Eq, Structural)]
pub enum DecorationClass {
    AnyFit,
    NoFit,
    Derivative,
    NonStandardTopology,
    NonStandardElements,
    NonStandardAspect,
    Initials,
    Cartoon,
    PictureStems,
    Ornamented,
    TextAndBackground,
    Collage,
    Montage,
}

impl DecorationClass {
    /// The number that encodes the value.
    pub open spec fn code(self) -> u8 {
        match self {
            DecorationClass::AnyFit => 0,
            DecorationClass::NoFit => 1,
            DecorationClass::Derivative => 2,
            DecorationClass::NonStandardTopology => 3,
            DecorationClass::NonStandardElements => 4,
            DecorationClass::NonStandardAspect => 5,
            DecorationClass::Initials => 6,
            DecorationClass::Cartoon => 7,
            DecorationClass::PictureStems => 8,
            DecorationClass::Ornamented => 9,
            DecorationClass::TextAndBackground => 10,
            DecorationClass::Collage => 11,
            DecorationClass::Montage => 12,
        }
    }

    /// The value a number encodes: numbers 0 to 12 are defined.
    pub open spec fn spec_from(b: u8) -> Option<DecorationClass> {
        if b == 0 {
            Some(DecorationClass::AnyFit)
        } else if b == 1 {
            Some(DecorationClass::NoFit)
        } else if b == 2 {
            Some(DecorationClass::Derivative)
        } else if b == 3 {
            Some(DecorationClass::NonStandardTopology)
        } else if b == 4 {
            Some(DecorationClass::NonStandardElements)
        } else if b == 5 {
            Some(DecorationClass::NonStandardAspect)
        } else if b == 6 {
            Some(DecorationClass::Initials)
        } else if b == 7 {
            Some(DecorationClass::Cartoon)
        } else if b == 8 {
            Some(DecorationClass::PictureStems)
        } else if b == 9 {
            Some(DecorationClass::Ornamented)
        } else if b == 10 {
            Some(DecorationClass::TextAndBackground)
        } else if b == 11 {
            Some(DecorationClass::Collage)
        } else if b == 12 {
            Some(DecorationClass::Montage)
        } else {
            None
        }
    }

    /// Decodes a number.
    pub fn from_u8(b: u8) -> (r: Option<DecorationClass>)
        ensures
            r == DecorationClass::spec_from(b),
            r is Some <==> b < 13,
            r matches Some(v) ==> v.code() == b,
    {
        match b {
            0 => Some(DecorationClass::AnyFit),
            1 => Some(DecorationClass::NoFit),
            2 => Some(DecorationClass::Derivative),
            3 => Some(DecorationClass::NonStandardTopology),
            4 => Some(DecorationClass::NonStandardElements),
            5 => Some(DecorationClass::NonStandardAspect),
            6 => Some(DecorationClass::Initials),
            7 => Some(DecorationClass::Cartoon),
            8 => Some(DecorationClass::PictureStems),
            9 => Some(DecorationClass::Ornamented),
            10 => Some(DecorationClass::TextAndBackground),
            11 => Some(DecorationClass::Collage),
            12 => Some(DecorationClass::Montage),
            _ => None,
        }
    }

    /// Decodes the first byte of `data`.
    pub fn parse(data: &[u8]) -> (r: Option<DecorationClass>)
        ensures
            r == (if data@.len() == 0 { None } else { DecorationClass::spec_from(data@[0]) }),
    {
        if data.len() == 0 {
            return None;
        }
        DecorationClass::from_u8(data[0])
    }
}

/// The ratio between the width and the height of a [`LatinDecorative`](Panose::LatinDecorative)
/// face.
///
/// <https://monotype.github.io/panose/pan4.htm#_Toc380547371>
#[derive(Clone, Copy, Debug, PartialEq, Eq, Structural)]
pub enum DecorativeAspectRatio {
    AnyFit,
    NoFit,
    SuperCondensed,
    VeryCondensed,
    Condensed,
    Normal,
    Extended,
    VeryExtended,
    SuperExtended,
    Monospaced,
}

impl DecorativeAspectRatio {
    /// The number that encodes the value.
    pub open spec fn code(self) -> u8 {
        match self {
            DecorativeAspectRatio::AnyFit => 0,
            DecorativeAspectRatio::NoFit => 1,
            DecorativeAspectRatio::SuperCondensed => 2,
            DecorativeAspectRatio::VeryCondensed => 3,
            DecorativeAspectRatio::Condensed => 4,
            DecorativeAspectRatio::Normal => 5,
            DecorativeAspectRatio::Extended => 6,
            DecorativeAspectRatio::VeryExtended => 7,
            DecorativeAspectRatio::SuperExtended => 8,
            DecorativeAspectRatio::Monospaced => 9,
        }
    }

    /// The value a number encodes: numbers 0 to 9 are defined.
    pub open spec fn spec_from(b: u8) -> Option<DecorativeAspectRatio> {
        if b == 0 {
            Some(DecorativeAspectRatio::AnyFit)
        } else if b == 1 {
            Some(DecorativeAspectRatio::NoFit)
        } else if b == 2 {
            Some(DecorativeAspectRatio::SuperCondensed)
        } else if b == 3 {
            Some(DecorativeAspectRatio::VeryCondensed)
        } else if b == 4 {
            Some(DecorativeAspectRatio::Condensed)
        } else if b == 5 {
            Some(DecorativeAspectRatio::Normal)
        } else if b == 6 {
            Some(DecorativeAspectRatio::Extended)
        } else if b == 7 {
            Some(DecorativeAspectRatio::VeryExtended)
        } else if b == 8 {
            Some(DecorativeAspectRatio::SuperExtended)
        } else if b == 9 {
            Some(DecorativeAspectRatio::Monospaced)
        } else {
            None
        }
    }

    /// Decodes a number.
    pub fn from_u8(b: u8) -> (r: Option<DecorativeAspectRatio>)
        ensures
            r == DecorativeAspectRatio::spec_from(b),
            r is Some <==> b < 10,
            r matches Some(v) ==> v.code() == b,
    {
        match b {
            0 => Some(DecorativeAspectRatio::AnyFit),
            1 => Some(DecorativeAspectRatio::NoFit),
            2 => Some(DecorativeAspectRatio::SuperCondensed),
            3 => Some(DecorativeAspectRatio::VeryCondensed),
            4 => Some(DecorativeAspectRatio::Condensed),
            5 => Some(DecorativeAspectRatio::Normal),
            6 => Some(DecorativeAspectRatio::Extended),
            7 => Some(DecorativeAspectRatio::VeryExtended),
            8 => Some(DecorativeAspectRatio::SuperExtended),
            9 => Some(DecorativeAspectRatio::Monospaced),
            _ => None,
        }
    }

    /// Decodes the first byte of `data`.
    pub fn parse(data: &[u8]) -> (r: Option<DecorativeAspectRatio>)
        ensures
            r == (if data@.len() == 0 { None } else { DecorativeAspectRatio::spec_from(data@[0]) }),
    {
        if data.len() == 0 {
            return None;
        }
        DecorativeAspectRatio::from_u8(data[0])
    }
}

/// The range of characters available in a [`LatinDecorative`](Panose::LatinDecorative) face.
///
/// <https://monotype.github.io/panose/pan4.htm#_Toc380547399>
#[derive(Clone, Copy, Debug, PartialEq, Eq, Structural)]
pub enum DecorativeRange {
    AnyFit,
    NoFit,
    Extended,
    Literals,
    NoLowerCase,
    SmallCaps,
}

impl DecorativeRange {
    /// The number that encodes the value.
    pub open spec fn code(self) -> u8 {
        match self {
            DecorativeRange::AnyFit => 0,
            DecorativeRange::NoFit => 1,
            DecorativeRange::Extended => 2,
            DecorativeRange::Literals => 3,
            DecorativeRange::NoLowerCase => 4,
            DecorativeRange::SmallCaps => 5,
        }
    }

    /// The value a number encodes: numbers 0 to 5 are defined.
    pub open spec fn spec_from(b: u8) -> Option<DecorativeRange> {
        if b == 0 {
            Some(DecorativeRange::AnyFit)
        } else if b == 1 {
            Some(DecorativeRange::NoFit)
        } else if b == 2 {
            Some(DecorativeRange::Extended)
        } else if b == 3 {
            Some(DecorativeRange::Literals)
        } else if b == 4 {
            Some(DecorativeRange::NoLowerCase)
        } else if b == 5 {
            Some(DecorativeRange::SmallCaps)
        } else {
            None
        }
    }

    /// Decodes a number.
    pub fn from_u8(b: u8) -> (r: Option<DecorativeRange>)
        ensures
            r == DecorativeRange::spec_from(b),
            r is Some <==> b < 6,
            r matches Some(v) ==> v.code() == b,
    {
        match b {
            0 => Some(DecorativeRange::AnyFit),
            1 => Some(DecorativeRange::NoFit),
            2 => Some(DecorativeRange::Extended),
            3 => Some(DecorativeRange::Literals),
            4 => Some(DecorativeRange::NoLowerCase),
            5 => Some(DecorativeRange::SmallCaps),
            _ => None,
        }
    }

    /// Decodes the first byte of `data`.
    pub fn parse(data: &[u8]) -> (r: Option<DecorativeRange>)
        ensures
            r == (if data@.len() == 0 { None } else { DecorativeRange::spec_from(data@[0]) }),
    {
        if data.len() == 0 {
            return None;
        }
        DecorativeRange::from_u8(data[0])
    }
}

/// So-called unusual characteristics of a [`LatinDecorative`](Panose::LatinDecorative) face.
///
/// <https://monotype.github.io/panose/pan4.htm#_Toc380547395>
#[derive(Clone, Copy, Debug, PartialEq, Eq, Structural)]
pub enum DecorativeTopology {
    AnyFit,
    NoFit,
    Standard,
    Square,
    MultipleSegment,
    DecoMidlines,
    UnevenWeighting,
    DiverseArms,
    DiverseForms,
    LombardicForms,
    UppercaseInLowercase,
    Implied,
    Horseshoe,
    Cursive,
    Blackletter,
    SwashVariance,
}

impl DecorativeTopology {
    /// The number that encodes the value.
    pub open spec fn code(self) -> u8 {
        match self {
            DecorativeTopology::AnyFit => 0,
            DecorativeTopology::NoFit => 1,
            DecorativeTopology::Standard => 2,
            DecorativeTopology::Square => 3,
            DecorativeTopology::MultipleSegment => 4,
            DecorativeTopology::DecoMidlines => 5,
            DecorativeTopology::UnevenWeighting => 6,
            DecorativeTopology::DiverseArms => 7,
            DecorativeTopology::DiverseForms => 8,
            DecorativeTopology::LombardicForms => 9,
            DecorativeTopology::UppercaseInLowercase => 10,
            DecorativeTopology::Implied => 11,
            DecorativeTopology::Horseshoe => 12,
            DecorativeTopology::Cursive => 13,
            DecorativeTopology::Blackletter => 14,
            DecorativeTopology::SwashVariance => 15,
        }
    }

    /// The value a number encodes: numbers 0 to 15 are defined.
    pub open spec fn spec_from(b: u8) -> Option<DecorativeTopology> {
        if b == 0 {
            Some(DecorativeTopology::AnyFit)
        } else if b == 1 {
            Some(DecorativeTopology::NoFit)
        } else if b == 2 {
            Some(DecorativeTopology::Standard)
        } else if b == 3 {
            Some(DecorativeTopology::Square)
        } else if b == 4 {
            Some(DecorativeTopology::MultipleSegment)
        } else if b == 5 {
            Some(DecorativeTopology::DecoMidlines)
        } else if b == 6 {
            Some(DecorativeTopology::UnevenWeighting)
        } else if b == 7 {
            Some(DecorativeTopology::DiverseArms)
        } else if b == 8 {
            Some(DecorativeTopology::DiverseForms)
        } else if b == 9 {
            Some(DecorativeTopology::LombardicForms)
        } else if b == 10 {
            Some(DecorativeTopology::UppercaseInLowercase)
        } else if b == 11 {
            Some(DecorativeTopology::Implied)
        } else if b == 12 {
            Some(DecorativeTopology::Horseshoe)
        } else if b == 13 {
            Some(DecorativeTopology::Cursive)
        } else if b == 14 {
            Some(DecorativeTopology::Blackletter)
        } else if b == 15 {
            Some(DecorativeTopology::SwashVariance)
        } else {
            None
        }
    }

    /// Decodes a number.
    pub fn from_u8(b: u8) -> (r: Option<DecorativeTopology>)
        ensures
            r == DecorativeTopology::spec_from(b),
            r is Some <==> b < 16,
            r matches Some(v) ==> v.code() == b,
    {
        match b {
            0 => Some(DecorativeTopology::AnyFit),
            1 => Some(DecorativeTopology::NoFit),
            2 => Some(DecorativeTopology::Standard),
            3 => Some(DecorativeTopology::Square),
            4 => Some(DecorativeTopology::MultipleSegment),
            5 => Some(DecorativeTopology::DecoMidlines),
            6 => Some(DecorativeTopology::UnevenWeighting),
            7 => Some(DecorativeTopology::DiverseArms),
            8 => Some(DecorativeTopology::DiverseForms),
            9 => Some(DecorativeTopology::LombardicForms),
            10 => Some(DecorativeTopology::UppercaseInLowercase),
            11 => Some(DecorativeTopology::Implied),
            12 => Some(DecorativeTopology::Horseshoe),
            13 => Some(DecorativeTopology::Cursive),
            14 => Some(DecorativeTopology::Blackletter),
            15 => Some(DecorativeTopology::SwashVariance),
            _ => None,
        }
    }

    /// Decodes the first byte of `data`.
    pub fn parse(data: &[u8]) -> (r: Option<DecorativeTopology>)
        ensures
            r == (if data@.len() == 0 { None } else { DecorativeTopology::spec_from(data@[0]) }),
    {
        if data.len() == 0 {
            return None;
        }
        DecorativeTopology::from_u8(data[0])
    }
}

/// Describes the fill and outline of a [`LatinDecorative`](Panose::LatinDecorative) face.
///
/// <https://monotype.github.io/panose/pan4.htm#_Toc380547387>
#[derive(Clone, Copy, Debug, PartialEq, Eq, Structural)]
pub enum DecorativeTreatment {
    AnyFit,
    NoFit,
    NoTreatment,
    White,
    Pattern,
    Complex,
    Shaped,
    Distressed,
}

impl DecorativeTreatment {
    /// The number that encodes the value.
    pub open spec fn code(self) -> u8 {
        match self {
            DecorativeTreatment::AnyFit => 0,
            DecorativeTreatment::NoFit => 1,
            DecorativeTreatment::NoTreatment => 2,
            DecorativeTreatment::White => 3,
            DecorativeTreatment::Pattern => 4,
            DecorativeTreatment::Complex => 5,
            DecorativeTreatment::Shaped => 6,
            DecorativeTreatment::Distressed => 7,
        }
    }

    /// The value a number encodes: numbers 0 to 7 are defined.
    pub open spec fn spec_from(b: u8) -> Option<DecorativeTreatment> {
        if b == 0 {
            Some(DecorativeTreatment::AnyFit)
        } else if b == 1 {
            Some(DecorativeTreatment::NoFit)
        } else if b == 2 {
            Some(DecorativeTreatment::NoTreatment)
        } else if b == 3 {
            Some(DecorativeTreatment::White)
        } else if b == 4 {
            Some(DecorativeTreatment::Pattern)
        } else if b == 5 {
            Some(DecorativeTreatment::Complex)
        } else if b == 6 {
            Some(DecorativeTreatment::Shaped)
        } else if b == 7 {
            Some(DecorativeTreatment::Distressed)
        } else {
            None
        }
    }

    /// Decodes a number.
    pub fn from_u8(b: u8) -> (r: Option<DecorativeTreatment>)
        ensures
            r == DecorativeTreatment::spec_from(b),
            r is Some <==> b < 8,
            r matches Some(v) ==> v.code() == b,
    {
        match b {
            0 => Some(DecorativeTreatment::AnyFit),
            1 => Some(DecorativeTreatment::NoFit),
            2 => Some(DecorativeTreatment::NoTreatment),
            3 => Some(DecorativeTreatment::White),
            4 => Some(DecorativeTreatment::Pattern),
            5 => Some(DecorativeTreatment::Complex),
            6 => Some(DecorativeTreatment::Shaped),
            7 => Some(DecorativeTreatment::Distressed),
            _ => None,
        }
    }

    /// Decodes the first byte of `data`.
    pub fn parse(data: &[u8]) -> (r: Option<DecorativeTreatment>)
        ensures
            r == (if data@.len() == 0 { None } else { DecorativeTreatment::spec_from(data@[0]) }),
    {
        if data.len() == 0 {
            return None;
        }
        DecorativeTreatment::from_u8(data[0])
    }
}

/// Treatment of the ends of characters in a [`LatinHandwritten`](Panose::LatinHandwritten) face.
///
/// <https://monotype.github.io/panose/pan3.htm#_Toc380547346>
#[derive(Clone, Copy, Debug, PartialEq, Eq, Structural)]
pub enum Finial {
    AnyFit,
    NoFit,
    NoFinialNoLoop,
    NoFinialClosedLoop,
    NoFinialOpenLoop,
    SharpFinialNoLoop,
    SharpFinialClosedLoop,
    SharpFinialOpenLoop,
    TaperedFinialNoLoop,
    TaperedFinialClosedLoop,
    TaperedFinialOpenLoop,
    RoundFinialNoLoop,
    RoundFinialClosedLoop,
    RoundFinialOpenLoop,
}

impl Finial {
    /// The number that encodes the value.
    pub open spec fn code(self) -> u8 {
        match self {
            Finial::AnyFit => 0,
            Finial::NoFit => 1,
            Finial::NoFinialNoLoop => 2,
            Finial::NoFinialClosedLoop => 3,
            Finial::NoFinialOpenLoop => 4,
            Finial::SharpFinialNoLoop => 5,
            Finial::SharpFinialClosedLoop => 6,
            Finial::SharpFinialOpenLoop => 7,
            Finial::TaperedFinialNoLoop => 8,
            Finial::TaperedFinialClosedLoop => 9,
            Finial::TaperedFinialOpenLoop => 10,
            Finial::RoundFinialNoLoop => 11,
            Finial::RoundFinialClosedLoop => 12,
            Finial::RoundFinialOpenLoop => 13,
        }
    }

    /// The value a number encodes: numbers 0 to 13 are defined.
    pub open spec fn spec_from(b: u8) -> Option<Finial> {
        if b == 0 {
            Some(Finial::AnyFit)
        } else if b == 1 {
            Some(Finial::NoFit)
        } else if b == 2 {
            Some(Finial::NoFinialNoLoop)
        } else if b == 3 {
            Some(Finial::NoFinialClosedLoop)
        } else if b == 4 {
            Some(Finial::NoFinialOpenLoop)
        } else if b == 5 {
            Some(Finial::SharpFinialNoLoop)
        } else if b == 6 {
            Some(Finial::SharpFinialClosedLoop)
        } else if b == 7 {
            Some(Finial::SharpFinialOpenLoop)
        } else if b == 8 {
            Some(Finial::TaperedFinialNoLoop)
        } else if b == 9 {
            Some(Finial::TaperedFinialClosedLoop)
        } else if b == 10 {
            Some(Finial::TaperedFinialOpenLoop)
        } else if b == 11 {
            Some(Finial::RoundFinialNoLoop)
        } else if b == 12 {
            Some(Finial::RoundFinialClosedLoop)
        } else if b == 13 {
            Some(Finial::RoundFinialOpenLoop)
        } else {
            None
        }
    }

    /// Decodes a number.
    pub fn from_u8(b: u8) -> (r: Option<Finial>)
        ensures
            r == Finial::spec_from(b),
            r is Some <==> b < 14,
            r matches Some(v) ==> v.code() == b,
    {
        match b {
            0 => Some(Finial::AnyFit),
            1 => Some(Finial::NoFit),
            2 => Some(Finial::NoFinialNoLoop),
            3 => Some(Finial::NoFinialClosedLoop),
            4 => Some(Finial::NoFinialOpenLoop),
            5 => Some(Finial::SharpFinialNoLoop),
            6 => Some(Finial::SharpFinialClosedLoop),
            7 => Some(Finial::SharpFinialOpenLoop),
            8 => Some(Finial::TaperedFinialNoLoop),
            9 => Some(Finial::TaperedFinialClosedLoop),
            10 => Some(Finial::TaperedFinialOpenLoop),
            11 => Some(Finial::RoundFinialNoLoop),
            12 => Some(Finial::RoundFinialClosedLoop),
            13 => Some(Finial::RoundFinialOpenLoop),
            _ => None,
        }
    }

    /// Decodes the first byte of `data`.
    pub fn parse(data: &[u8]) -> (r: Option<Finial>)
        ensures
            r == (if data@.len() == 0 { None } else { Finial::spec_from(data@[0]) }),
    {
        if data.len() == 0 {
            return None;
        }
        Finial::from_u8(data[0])
    }
}

/// Classification of a [`LatinHandwritten`](Panose::LatinHandwritten) based on the tails of
/// connecting strokes and the slope of the verticals.
///
/// <https://monotype.github.io/panose/pan3.htm#_Toc380547340>
#[derive(Clone, Copy, Debug, PartialEq, Eq, Structural)]
pub enum HandForm {
    AnyFit,
    NoFit,
    UprightNoWrap,
    UprightSomeWrap,
    UprightMoreWrap,
    UprightExtremeWrap,
    ObliqueNoWrap,
    ObliqueSomeWrap,
    ObliqueMoreWrap,
    ObliqueExtremeWrap,
    ExaggeratedNoWrap,
    ExaggeratedSomeWrap,
    ExaggeratedMoreWrap,
    ExaggeratedExtremeWrap,
}

impl HandForm {
    /// The number that encodes the value.
    pub open spec fn code(self) -> u8 {
        match self {
            HandForm::AnyFit => 0,
            HandForm::NoFit => 1,
            HandForm::UprightNoWrap => 2,
            HandForm::UprightSomeWrap => 3,
            HandForm::UprightMoreWrap => 4,
            HandForm::UprightExtremeWrap => 5,
            HandForm::ObliqueNoWrap => 6,
            HandForm::ObliqueSomeWrap => 7,
            HandForm::ObliqueMoreWrap => 8,
            HandForm::ObliqueExtremeWrap => 9,
            HandForm::ExaggeratedNoWrap => 10,
            HandForm::ExaggeratedSomeWrap => 11,
            HandForm::ExaggeratedMoreWrap => 12,
            HandForm::ExaggeratedExtremeWrap => 13,
        }
    }

    /// The value a number encodes: numbers 0 to 13 are defined.
    pub open spec fn spec_from(b: u8) -> Option<HandForm> {
        if b == 0 {
            Some(HandForm::AnyFit)
        } else if b == 1 {
            Some(HandForm::NoFit)
        } else if b == 2 {
            Some(HandForm::UprightNoWrap)
        } else if b == 3 {
            Some(HandForm::UprightSomeWrap)
        } else if b == 4 {
            Some(HandForm::UprightMoreWrap)
        } else if b == 5 {
            Some(HandForm::UprightExtremeWrap)
        } else if b == 6 {
            Some(HandForm::ObliqueNoWrap)
        } else if b == 7 {
            Some(HandForm::ObliqueSomeWrap)
        } else if b == 8 {
            Some(HandForm::ObliqueMoreWrap)
        } else if b == 9 {
            Some(HandForm::ObliqueExtremeWrap)
        } else if b == 10 {
            Some(HandForm::ExaggeratedNoWrap)
        } else if b == 11 {
            Some(HandForm::ExaggeratedSomeWrap)
        } else if b == 12 {
            Some(HandForm::ExaggeratedMoreWrap)
        } else if b == 13 {
            Some(HandForm::ExaggeratedExtremeWrap)
        } else {
            None
        }
    }

    /// Decodes a number.
    pub fn from_u8(b: u8) -> (r: Option<HandForm>)
        ensures
            r == HandForm::spec_from(b),
            r is Some <==> b < 14,
            r matches Some(v) ==> v.code() == b,
    {
        match b {
            0 => Some(HandForm::AnyFit),
            1 => Some(HandForm::NoFit),
            2 => Some(HandForm::UprightNoWrap),
            3 => Some(HandForm::UprightSomeWrap),
            4 => Some(HandForm::UprightMoreWrap),
            5 => Some(HandForm::UprightExtremeWrap),
            6 => Some(HandForm::ObliqueNoWrap),
            7 => Some(HandForm::ObliqueSomeWrap),
            8 => Some(HandForm::ObliqueMoreWrap),
            9 => Some(HandForm::ObliqueExtremeWrap),
            10 => Some(HandForm::ExaggeratedNoWrap),
            11 => Some(HandForm::ExaggeratedSomeWrap),
            12 => Some(HandForm::ExaggeratedMoreWrap),
            13 => Some(HandForm::ExaggeratedExtremeWrap),
            _ => None,
        }
    }

    /// Decodes the first byte of `data`.
    pub fn parse(data: &[u8]) -> (r: Option<HandForm>)
        ensures
            r == (if data@.len() == 0 { None } else { HandForm::spec_from(data@[0]) }),
    {
        if data.len() == 0 {
            return None;
        }
        HandForm::from_u8(data[0])
    }
}

/// Ratio between the width and the height of the capital "O" character in a
/// [`LatinHandwritten`](Panose::LatinHandwritten) face.
///
/// <https://monotype.github.io/panose/pan3.htm#_Toc380547324>
#[derive(Clone, Copy, Debug, PartialEq, Eq, Structural)]
pub enum HandwrittenAspectRatio {
    AnyFit,
    NoFit,
    VeryCondensed,
    Condensed,
    Normal,
    Expanded,
    VeryExpanded,
}

impl HandwrittenAspectRatio {
    /// The number that encodes the value.
    pub open spec fn code(self) -> u8 {
        match self {
            HandwrittenAspectRatio::AnyFit => 0,
            HandwrittenAspectRatio::NoFit => 1,
            HandwrittenAspectRatio::VeryCondensed => 2,
            HandwrittenAspectRatio::Condensed => 3,
            HandwrittenAspectRatio::Normal => 4,
            HandwrittenAspectRatio::Expanded => 5,
            HandwrittenAspectRatio::VeryExpanded => 6,
        }
    }

    /// The value a number encodes: numbers 0 to 6 are defined.
    pub open spec fn spec_from(b: u8) -> Option<HandwrittenAspectRatio> {
        if b == 0 {
            Some(HandwrittenAspectRatio::AnyFit)
        } else if b == 1 {
            Some(HandwrittenAspectRatio::NoFit)
        } else if b == 2 {
            Some(HandwrittenAspectRatio::VeryCondensed)
        } else if b == 3 {
            Some(HandwrittenAspectRatio::Condensed)
        } else if b == 4 {
            Some(HandwrittenAspectRatio::Normal)
        } else if b == 5 {
            Some(HandwrittenAspectRatio::Expanded)
        } else if b == 6 {
            Some(HandwrittenAspectRatio::VeryExpanded)
        } else {
            None
        }
    }

    /// Decodes a number.
    pub fn from_u8(b: u8) -> (r: Option<HandwrittenAspectRatio>)
        ensures
            r == HandwrittenAspectRatio::spec_from(b),
            r is Some <==> b < 7,
            r matches Some(v) ==> v.code() == b,
    {
        match b {
            0 => Some(HandwrittenAspectRatio::AnyFit),
            1 => Some(HandwrittenAspectRatio::NoFit),
            2 => Some(HandwrittenAspectRatio::VeryCondensed),
            3 => Some(HandwrittenAspectRatio::Condensed),
            4 => Some(HandwrittenAspectRatio::Normal),
            5 => Some(HandwrittenAspectRatio::Expanded),
            6 => Some(HandwrittenAspectRatio::VeryExpanded),
            _ => None,
        }
    }

    /// Decodes the first byte of `data`.
    pub fn parse(data: &[u8]) -> (r: Option<HandwrittenAspectRatio>)
        ensures
            r == (if data@.len() == 0 { None } else { HandwrittenAspectRatio::spec_from(data@[0]) }),
    {
        if data.len() == 0 {
            return None;
        }
        HandwrittenAspectRatio::from_u8(data[0])
    }
}

/// Broad classification of a [`LatinHandwritten`](Panose::LatinHandwritten) face based on
/// letterforms and connections between letters.
///
/// <https://monotype.github.io/panose/pan3.htm#_Toc380547336>
#[derive(Clone, Copy, Debug, PartialEq, Eq, Structural)]
pub enum HandwrittenTopology {
    AnyFit,
    NoFit,
    RomanDisconnected,
    RomanTrailing,
    RomanConnected,
    CursiveDisconnected,
    CursiveTrailing,
    CursiveConnected,
    BlackletterDisconnected,
    BlackletterTrailing,
    BlackletterConnected,
}

impl HandwrittenTopology {
    /// The number that encodes the value.
    pub open spec fn code(self) -> u8 {
        match self {
            HandwrittenTopology::AnyFit => 0,
            HandwrittenTopology::NoFit => 1,
            HandwrittenTopology::RomanDisconnected => 2,
            HandwrittenTopology::RomanTrailing => 3,
            HandwrittenTopology::RomanConnected => 4,
            HandwrittenTopology::CursiveDisconnected => 5,
            HandwrittenTopology::CursiveTrailing => 6,
            HandwrittenTopology::CursiveConnected => 7,
            HandwrittenTopology::BlackletterDisconnected => 8,
            HandwrittenTopology::BlackletterTrailing => 9,
            HandwrittenTopology::BlackletterConnected => 10,
        }
    }

    /// The value a number encodes: numbers 0 to 10 are defined.
    pub open spec fn spec_from(b: u8) -> Option<HandwrittenTopology> {
        if b == 0 {
            Some(HandwrittenTopology::AnyFit)
        } else if b == 1 {
            Some(HandwrittenTopology::NoFit)
        } else if b == 2 {
            Some(HandwrittenTopology::RomanDisconnected)
        } else if b == 3 {
            Some(HandwrittenTopology::RomanTrailing)
        } else if b == 4 {
            Some(HandwrittenTopology::RomanConnected)
        } else if b == 5 {
            Some(HandwrittenTopology::CursiveDisconnected)
        } else if b == 6 {
            Some(HandwrittenTopology::CursiveTrailing)
        } else if b == 7 {
            Some(HandwrittenTopology::CursiveConnected)
        } else if b == 8 {
            Some(HandwrittenTopology::BlackletterDisconnected)
        } else if b == 9 {
            Some(HandwrittenTopology::BlackletterTrailing)
        } else if b == 10 {
            Some(HandwrittenTopology::BlackletterConnected)
        } else {
            None
        }
    }

    /// Decodes a number.
    pub fn from_u8(b: u8) -> (r: Option<HandwrittenTopology>)
        ensures
            r == HandwrittenTopology::spec_from(b),
            r is Some <==> b < 11,
            r matches Some(v) ==> v.code() == b,
    {
        match b {
            0 => Some(HandwrittenTopology::AnyFit),
            1 => Some(HandwrittenTopology::NoFit),
            2 => Some(HandwrittenTopology::RomanDisconnected),
            3 => Some(HandwrittenTopology::RomanTrailing),
            4 => Some(HandwrittenTopology::RomanConnected),
            5 => Some(HandwrittenTopology::CursiveDisconnected),
            6 => Some(HandwrittenTopology::CursiveTrailing),
            7 => Some(HandwrittenTopology::CursiveConnected),
            8 => Some(HandwrittenTopology::BlackletterDisconnected),
            9 => Some(HandwrittenTopology::BlackletterTrailing),
            10 => Some(HandwrittenTopology::BlackletterConnected),
            _ => None,
        }
    }

    /// Decodes the first byte of `data`.
    pub fn parse(data: &[u8]) -> (r: Option<HandwrittenTopology>)
        ensures
            r == (if data@.len() == 0 { None } else { HandwrittenTopology::spec_from(data@[0]) }),
    {
        if data.len() == 0 {
            return None;
        }
        HandwrittenTopology::from_u8(data[0])
    }
}

/// Roundness and skew of letterforms in a [`LatinText`](Panose::LatinText) face.
///
/// <https://monotype.github.io/panose/pan2.htm#_Toc380547284>
#[derive(Clone, Copy, Debug, PartialEq, Eq, Structural)]
pub enum Letterform {
    AnyFit,
    NoFit,
    NormalContact,
    NormalWeighted,
    NormalBoxed,
    NormalFlattened,
    NormalRounded,
    NormalOffCenter,
    NormalSquare,
    ObliqueContact,
    ObliqueWeighted,
    ObliqueBoxed,
    ObliqueFlattened,
    ObliqueRounded,
    ObliqueOffCenter,
    ObliqueSquare,
}

impl Letterform {
    /// The number that encodes the value.
    pub open spec fn code(self) -> u8 {
        match self {
            Letterform::AnyFit => 0,
            Letterform::NoFit => 1,
            Letterform::NormalContact => 2,
            Letterform::NormalWeighted => 3,
            Letterform::NormalBoxed => 4,
            Letterform::NormalFlattened => 5,
            Letterform::NormalRounded => 6,
            Letterform::NormalOffCenter => 7,
            Letterform::NormalSquare => 8,
            Letterform::ObliqueContact => 9,
            Letterform::ObliqueWeighted => 10,
            Letterform::ObliqueBoxed => 11,
            Letterform::ObliqueFlattened => 12,
            Letterform::ObliqueRounded => 13,
            Letterform::ObliqueOffCenter => 14,
            Letterform::ObliqueSquare => 15,
        }
    }

    /// The value a number encodes: numbers 0 to 15 are defined.
    pub open spec fn spec_from(b: u8) -> Option<Letterform> {
        if b == 0 {
            Some(Letterform::AnyFit)
        } else if b == 1 {
            Some(Letterform::NoFit)
        } else if b == 2 {
            Some(Letterform::NormalContact)
        } else if b == 3 {
            Some(Letterform::NormalWeighted)
        } else if b == 4 {
            Some(Letterform::NormalBoxed)
        } else if b == 5 {
            Some(Letterform::NormalFlattened)
        } else if b == 6 {
            Some(Letterform::NormalRounded)
        } else if b == 7 {
            Some(Letterform::NormalOffCenter)
        } else if b == 8 {
            Some(Letterform::NormalSquare)
        } else if b == 9 {
            Some(Letterform::ObliqueContact)
        } else if b == 10 {
            Some(Letterform::ObliqueWeighted)
        } else if b == 11 {
            Some(Letterform::ObliqueBoxed)
        } else if b == 12 {
            Some(Letterform::ObliqueFlattened)
        } else if b == 13 {
            Some(Letterform::ObliqueRounded)
        } else if b == 14 {
            Some(Letterform::ObliqueOffCenter)
        } else if b == 15 {
            Some(Letterform::ObliqueSquare)
        } else {
            None
        }
    }

    /// Decodes a number.
    pub fn from_u8(b: u8) -> (r: Option<Letterform>)
        ensures
            r == Letterform::spec_from(b),
            r is Some <==> b < 16,
            r matches Some(v) ==> v.code() == b,
    {
        match b {
            0 => Some(Letterform::AnyFit),
            1 => Some(Letterform::NoFit),
            2 => Some(Letterform::NormalContact),
            3 => Some(Letterform::NormalWeighted),
            4 => Some(Letterform::NormalBoxed),
            5 => Some(Letterform::NormalFlattened),
            6 => Some(Letterform::NormalRounded),
            7 => Some(Letterform::NormalOffCenter),
            8 => Some(Letterform::NormalSquare),
            9 => Some(Letterform::ObliqueContact),
            10 => Some(Letterform::ObliqueWeighted),
            11 => Some(Letterform::ObliqueBoxed),
            12 => Some(Letterform::ObliqueFlattened),
            13 => Some(Letterform::ObliqueRounded),
            14 => Some(Letterform::ObliqueOffCenter),
            15 => Some(Letterform::ObliqueSquare),
            _ => None,
        }
    }

    /// Decodes the first byte of `data`.
    pub fn parse(data: &[u8]) -> (r: Option<Letterform>)
        ensures
            r == (if data@.len() == 0 { None } else { Letterform::spec_from(data@[0]) }),
    {
        if data.len() == 0 {
            return None;
        }
        Letterform::from_u8(data[0])
    }
}

/// Style of character outline in a [`LatinDecorative`](Panose::LatinDecorative) face.
///
/// <https://monotype.github.io/panose/pan4.htm#_Toc380547391>
#[derive(Clone, Copy, Debug, PartialEq, Eq, Structural)]
pub enum Lining {
    AnyFit,
    NoFit,
    NoLining,
    Inline,
    Outline,
    Engraved,
    Shadow,
    Relief,
    Backdrop,
}

impl Lining {
    /// The number that encodes the value.
    pub open spec fn code(self) -> u8 {
        match self {
            Lining::AnyFit => 0,
            Lining::NoFit => 1,
            Lining::NoLining => 2,
            Lining::Inline => 3,
            Lining::Outline => 4,
            Lining::Engraved => 5,
            Lining::Shadow => 6,
            Lining::Relief => 7,
            Lining::Backdrop => 8,
        }
    }

    /// The value a number encodes: numbers 0 to 8 are defined.
    pub open spec fn spec_from(b: u8) -> Option<Lining> {
        if b == 0 {
            Some(Lining::AnyFit)
        } else if b == 1 {
            Some(Lining::NoFit)
        } else if b == 2 {
            Some(Lining::NoLining)
        } else if b == 3 {
            Some(Lining::Inline)
        } else if b == 4 {
            Some(Lining::Outline)
        } else if b == 5 {
            Some(Lining::Engraved)
        } else if b == 6 {
            Some(Lining::Shadow)
        } else if b == 7 {
            Some(Lining::Relief)
        } else if b == 8 {
            Some(Lining::Backdrop)
        } else {
            None
        }
    }

    /// Decodes a number.
    pub fn from_u8(b: u8) -> (r: Option<Lining>)
        ensures
            r == Lining::spec_from(b),
            r is Some <==> b < 9,
            r matches Some(v) ==> v.code() == b,
    {
        match b {
            0 => Some(Lining::AnyFit),
            1 => Some(Lining::NoFit),
            2 => Some(Lining::NoLining),
            3 => Some(Lining::Inline),
            4 => Some(Lining::Outline),
            5 => Some(Lining::Engraved),
            6 => Some(Lining::Shadow),
            7 => Some(Lining::Relief),
            8 => Some(Lining::Backdrop),
            _ => None,
        }
    }

    /// Decodes the first byte of `data`.
    pub fn parse(data: &[u8]) -> (r: Option<Lining>)
        ensures
            r == (if data@.len() == 0 { None } else { Lining::spec_from(data@[0]) }),
    {
        if data.len() == 0 {
            return None;
        }
        Lining::from_u8(data[0])
    }
}

/// Classification based on the diagonal stem apexes location of midline on uppercase characters in
/// a [`LatinText`](Panose::LatinText) face.
///
/// <https://monotype.github.io/panose/pan2.htm#Sec2Midline>
#[derive(Clone, Copy, Debug, PartialEq, Eq, Structural)]
pub enum Midline {
    AnyFit,
    NoFit,
    StandardTrimmed,
    StandardPointed,
    StandardSerifed,
    HighTrimmed,
    HighPointed,
    HighSerifed,
    ConstantTrimmed,
    ConstantPointed,
    ConstantSerifed,
    LowTrimmed,
    LowPointed,
    LowSerifed,
}

impl Midline {
    /// The number that encodes the value.
    pub open spec fn code(self) -> u8 {
        match self {
            Midline::AnyFit => 0,
            Midline::NoFit => 1,
            Midline::StandardTrimmed => 2,
            Midline::StandardPointed => 3,
            Midline::StandardSerifed => 4,
            Midline::HighTrimmed => 5,
            Midline::HighPointed => 6,
            Midline::HighSerifed => 7,
            Midline::ConstantTrimmed => 8,
            Midline::ConstantPointed => 9,
            Midline::ConstantSerifed => 10,
            Midline::LowTrimmed => 11,
            Midline::LowPointed => 12,
            Midline::LowSerifed => 13,
        }
    }

    /// The value a number encodes: numbers 0 to 13 are defined.
    pub open spec fn spec_from(b: u8) -> Option<Midline> {
        if b == 0 {
            Some(Midline::AnyFit)
        } else if b == 1 {
            Some(Midline::NoFit)
        } else if b == 2 {
            Some(Midline::StandardTrimmed)
        } else if b == 3 {
            Some(Midline::StandardPointed)
        } else if b == 4 {
            Some(Midline::StandardSerifed)
        } else if b == 5 {
            Some(Midline::HighTrimmed)
        } else if b == 6 {
            Some(Midline::HighPointed)
        } else if b == 7 {
            Some(Midline::HighSerifed)
        } else if b == 8 {
            Some(Midline::ConstantTrimmed)
        } else if b == 9 {
            Some(Midline::ConstantPointed)
        } else if b == 10 {
            Some(Midline::ConstantSerifed)
        } else if b == 11 {
            Some(Midline::LowTrimmed)
        } else if b == 12 {
            Some(Midline::LowPointed)
        } else if b == 13 {
            Some(Midline::LowSerifed)
        } else {
            None
        }
    }

    /// Decodes a number.
    pub fn from_u8(b: u8) -> (r: Option<Midline>)
        ensures
            r == Midline::spec_from(b),
            r is Some <==> b < 14,
            r matches Some(v) ==> v.code() == b,
    {
        match b {
            0 => Some(Midline::AnyFit),
            1 => Some(Midline::NoFit),
            2 => Some(Midline::StandardTrimmed),
            3 => Some(Midline::StandardPointed),
            4 => Some(Midline::StandardSerifed),
            5 => Some(Midline::HighTrimmed),
            6 => Some(Midline::HighPointed),
            7 => Some(Midline::HighSerifed),
            8 => Some(Midline::ConstantTrimmed),
            9 => Some(Midline::ConstantPointed),
            10 => Some(Midline::ConstantSerifed),
            11 => Some(Midline::LowTrimmed),
            12 => Some(Midline::LowPointed),
            13 => Some(Midline::LowSerifed),
            _ => None,
        }
    }

    /// Decodes the first byte of `data`.
    pub fn parse(data: &[u8]) -> (r: Option<Midline>)
        ensures
            r == (if data@.len() == 0 { None } else { Midline::spec_from(data@[0]) }),
    {
        if data.len() == 0 {
            return None;
        }
        Midline::from_u8(data[0])
    }
}

/// Classification based on the width of characters relative to other characters as well as their
/// aspect ratio in a [`LatinText`](Panose::LatinText) face.
///
/// <https://monotype.github.io/panose/pan2.htm#_Toc380547256>
#[derive(Clone, Copy, Debug, PartialEq, Eq, Structural)]
pub enum Proportion {
    AnyFit,
    NoFit,
    OldStyle,
    Modern,
    EvenWidth,
    Extended,
    Condensed,
    VeryExtended,
    VeryCondensed,
    Monospaced,
}

impl Proportion {
    /// The number that encodes the value.
    pub open spec fn code(self) -> u8 {
        match self {
            Proportion::AnyFit => 0,
            Proportion::NoFit => 1,
            Proportion::OldStyle => 2,
            Proportion::Modern => 3,
            Proportion::EvenWidth => 4,
            Proportion::Extended => 5,
            Proportion::Condensed => 6,
            Proportion::VeryExtended => 7,
            Proportion::VeryCondensed => 8,
            Proportion::Monospaced => 9,
        }
    }

    /// The value a number encodes: numbers 0 to 9 are defined.
    pub open spec fn spec_from(b: u8) -> Option<Proportion> {
        if b == 0 {
            Some(Proportion::AnyFit)
        } else if b == 1 {
            Some(Proportion::NoFit)
        } else if b == 2 {
            Some(Proportion::OldStyle)
        } else if b == 3 {
            Some(Proportion::Modern)
        } else if b == 4 {
            Some(Proportion::EvenWidth)
        } else if b == 5 {
            Some(Proportion::Extended)
        } else if b == 6 {
            Some(Proportion::Condensed)
        } else if b == 7 {
            Some(Proportion::VeryExtended)
        } else if b == 8 {
            Some(Proportion::VeryCondensed)
        } else if b == 9 {
            Some(Proportion::Monospaced)
        } else {
            None
        }
    }

    /// Decodes a number.
    pub fn from_u8(b: u8) -> (r: Option<Proportion>)
        ensures
            r == Proportion::spec_from(b),
            r is Some <==> b < 10,
            r matches Some(v) ==> v.code() == b,
    {
        match b {
            0 => Some(Proportion::AnyFit),
            1 => Some(Proportion::NoFit),
            2 => Some(Proportion::OldStyle),
            3 => Some(Proportion::Modern),
            4 => Some(Proportion::EvenWidth),
            5 => Some(Proportion::Extended),
            6 => Some(Proportion::Condensed),
            7 => Some(Proportion::VeryExtended),
            8 => Some(Proportion::VeryCondensed),
            9 => Some(Proportion::Monospaced),
            _ => None,
        }
    }

    /// Decodes the first byte of `data`.
    pub fn parse(data: &[u8]) -> (r: Option<Proportion>)
        ensures
            r == (if data@.len() == 0 { None } else { Proportion::spec_from(data@[0]) }),
    {
        if data.len() == 0 {
            return None;
        }
        Proportion::from_u8(data[0])
    }
}

/// Appearance of the serifs in a [`LatinText`](Panose::LatinText) or
/// [`LatinDecorative`](Panose::LatinDecorative) face.
///
/// <https://monotype.github.io/panose/pan2.htm#Sec2SerifStyle>
#[derive(Clone, Copy, Debug, PartialEq, Eq, Structural)]
pub enum Serif {
    Any,
    NoFit,
    Cove,
    ObtuseCove,
    SquareCove,
    ObtuseSquareCove,
    Square,
    Thin,
    Oval,
    Exaggerated,
    Triangle,
    NormalSans,
    ObtuseSans,
    PerpendicularSans,
    Flared,
    Rounded,
    Script,
}

impl Serif {
    /// The number that encodes the value.
    pub open spec fn code(self) -> u8 {
        match self {
            Serif::Any => 0,
            Serif::NoFit => 1,
            Serif::Cove => 2,
            Serif::ObtuseCove => 3,
            Serif::SquareCove => 4,
            Serif::ObtuseSquareCove => 5,
            Serif::Square => 6,
            Serif::Thin => 7,
            Serif::Oval => 8,
            Serif::Exaggerated => 9,
            Serif::Triangle => 10,
            Serif::NormalSans => 11,
            Serif::ObtuseSans => 12,
            Serif::PerpendicularSans => 13,
            Serif::Flared => 14,
            Serif::Rounded => 15,
            Serif::Script => 16,
        }
    }

    /// The value a number encodes: numbers 0 to 16 are defined.
    pub open spec fn spec_from(b: u8) -> Option<Serif> {
        if b == 0 {
            Some(Serif::Any)
        } else if b == 1 {
            Some(Serif::NoFit)
        } else if b == 2 {
            Some(Serif::Cove)
        } else if b == 3 {
            Some(Serif::ObtuseCove)
        } else if b == 4 {
            Some(Serif::SquareCove)
        } else if b == 5 {
            Some(Serif::ObtuseSquareCove)
        } else if b == 6 {
            Some(Serif::Square)
        } else if b == 7 {
            Some(Serif::Thin)
        } else if b == 8 {
            Some(Serif::Oval)
        } else if b == 9 {
            Some(Serif::Exaggerated)
        } else if b == 10 {
            Some(Serif::Triangle)
        } else if b == 11 {
            Some(Serif::NormalSans)
        } else if b == 12 {
            Some(Serif::ObtuseSans)
        } else if b == 13 {
            Some(Serif::PerpendicularSans)
        } else if b == 14 {
            Some(Serif::Flared)
        } else if b == 15 {
            Some(Serif::Rounded)
        } else if b == 16 {
            Some(Serif::Script)
        } else {
            None
        }
    }

    /// Decodes a number.
    pub fn from_u8(b: u8) -> (r: Option<Serif>)
        ensures
            r == Serif::spec_from(b),
            r is Some <==> b < 17,
            r matches Some(v) ==> v.code() == b,
    {
        match b {
            0 => Some(Serif::Any),
            1 => Some(Serif::NoFit),
            2 => Some(Serif::Cove),
            3 => Some(Serif::ObtuseCove),
            4 => Some(Serif::SquareCove),
            5 => Some(Serif::ObtuseSquareCove),
            6 => Some(Serif::Square),
            7 => Some(Serif::Thin),
            8 => Some(Serif::Oval),
            9 => Some(Serif::Exaggerated),
            10 => Some(Serif::Triangle),
            11 => Some(Serif::NormalSans),
            12 => Some(Serif::ObtuseSans),
            13 => Some(Serif::PerpendicularSans),
            14 => Some(Serif::Flared),
            15 => Some(Serif::Rounded),
            16 => Some(Serif::Script),
            _ => None,
        }
    }

    /// Decodes the first byte of `data`.
    pub fn parse(data: &[u8]) -> (r: Option<Serif>)
        ensures
            r == (if data@.len() == 0 { None } else { Serif::spec_from(data@[0]) }),
    {
        if data.len() == 0 {
            return None;
        }
        Serif::from_u8(data[0])
    }
}

/// Whether a [`LatinHandwritten`](Panose::LatinHandwritten) or [`LatinSymbol`](Panose::LatinSymbol)
/// face is monospaced or proportional.
///
/// <https://monotype.github.io/panose/pan3.htm#_Toc380547321>
#[derive(Clone, Copy, Debug, PartialEq, Eq, Structural)]
pub enum Spacing {
    AnyFit,
    NoFit,
    Proportional,
    Monospaced,
}

impl Spacing {
    /// The number that encodes the value.
    pub open spec fn code(self) -> u8 {
        match self {
            Spacing::AnyFit => 0,
            Spacing::NoFit => 1,
            Spacing::Proportional => 2,
            Spacing::Monospaced => 3,
        }
    }

    /// The value a number encodes: numbers 0 to 3 are defined.
    pub open spec fn spec_from(b: u8) -> Option<Spacing> {
        if b == 0 {
            Some(Spacing::AnyFit)
        } else if b == 1 {
            Some(Spacing::NoFit)
        } else if b == 2 {
            Some(Spacing::Proportional)
        } else if b == 3 {
            Some(Spacing::Monospaced)
        } else {
            None
        }
    }

    /// Decodes a number.
    pub fn from_u8(b: u8) -> (r: Option<Spacing>)
        ensures
            r == Spacing::spec_from(b),
            r is Some <==> b < 4,
            r matches Some(v) ==> v.code() == b,
    {
        match b {
            0 => Some(Spacing::AnyFit),
            1 => Some(Spacing::NoFit),
            2 => Some(Spacing::Proportional),
            3 => Some(Spacing::Monospaced),
            _ => None,
        }
    }

    /// Decodes the first byte of `data`.
    pub fn parse(data: &[u8]) -> (r: Option<Spacing>)
        ensures
            r == (if data@.len() == 0 { None } else { Spacing::spec_from(data@[0]) }),
    {
        if data.len() == 0 {
            return None;
        }
        Spacing::from_u8(data[0])
    }
}

/// Contrast of stem thickness transitions in a [`LatinText`](Panose::LatinText) face.
///
/// <https://monotype.github.io/panose/pan2.htm#_Toc380547270>
#[derive(Clone, Copy, Debug, PartialEq, Eq, Structural)]
pub enum StrokeVariation {
    AnyFit,
    NoFit,
    NoVariation,
    GradualDiagonal,
    GradualTransitional,
    GradualVertical,
    GradualHorizontal,
    RapidVertical,
    RapidHorizontal,
    InstantVertical,
    InstantHorizontal,
}

impl StrokeVariation {
    /// The number that encodes the value.
    pub open spec fn code(self) -> u8 {
        match self {
            StrokeVariation::AnyFit => 0,
            StrokeVariation::NoFit => 1,
            StrokeVariation::NoVariation => 2,
            StrokeVariation::GradualDiagonal => 3,
            StrokeVariation::GradualTransitional => 4,
            StrokeVariation::GradualVertical => 5,
            StrokeVariation::GradualHorizontal => 6,
            StrokeVariation::RapidVertical => 7,
            StrokeVariation::RapidHorizontal => 8,
            StrokeVariation::InstantVertical => 9,
            StrokeVariation::InstantHorizontal => 10,
        }
    }

    /// The value a number encodes: numbers 0 to 10 are defined.
    pub open spec fn spec_from(b: u8) -> Option<StrokeVariation> {
        if b == 0 {
            Some(StrokeVariation::AnyFit)
        } else if b == 1 {
            Some(StrokeVariation::NoFit)
        } else if b == 2 {
            Some(StrokeVariation::NoVariation)
        } else if b == 3 {
            Some(StrokeVariation::GradualDiagonal)
        } else if b == 4 {
            Some(StrokeVariation::GradualTransitional)
        } else if b == 5 {
            Some(StrokeVariation::GradualVertical)
        } else if b == 6 {
            Some(StrokeVariation::GradualHorizontal)
        } else if b == 7 {
            Some(StrokeVariation::RapidVertical)
        } else if b == 8 {
            Some(StrokeVariation::RapidHorizontal)
        } else if b == 9 {
            Some(StrokeVariation::InstantVertical)
        } else if b == 10 {
            Some(StrokeVariation::InstantHorizontal)
        } else {
            None
        }
    }

    /// Decodes a number.
    pub fn from_u8(b: u8) -> (r: Option<StrokeVariation>)
        ensures
            r == StrokeVariation::spec_from(b),
            r is Some <==> b < 11,
            r matches Some(v) ==> v.code() == b,
    {
        match b {
            0 => Some(StrokeVariation::AnyFit),
            1 => Some(StrokeVariation::NoFit),
            2 => Some(StrokeVariation::NoVariation),
            3 => Some(StrokeVariation::GradualDiagonal),
            4 => Some(StrokeVariation::GradualTransitional),
            5 => Some(StrokeVariation::GradualVertical),
            6 => Some(StrokeVariation::GradualHorizontal),
            7 => Some(StrokeVariation::RapidVertical),
            8 => Some(StrokeVariation::RapidHorizontal),
            9 => Some(StrokeVariation::InstantVertical),
            10 => Some(StrokeVariation::InstantHorizontal),
            _ => None,
        }
    }

    /// Decodes the first byte of `data`.
    pub fn parse(data: &[u8]) -> (r: Option<StrokeVariation>)
        ensures
            r == (if data@.len() == 0 { None } else { StrokeVariation::spec_from(data@[0]) }),
    {
        if data.len() == 0 {
            return None;
        }
        StrokeVariation::from_u8(data[0])
    }
}

/// Height of character divided by the black width.
///
/// <https://monotype.github.io/panose/pan5.htm#_Toc380547418>
#[derive(Clone, Copy, Debug, PartialEq, Eq, Structural)]
pub enum SymbolAspectRatio {
    AnyFit,
    NoFit,
    NoWidth,
    ExceptionallyWide,
    SuperWide,
    VeryWide,
    Wide,
    Normal,
    Narrow,
    VeryNarrow,
}

impl SymbolAspectRatio {
    /// The number that encodes the value.
    pub open spec fn code(self) -> u8 {
        match self {
            SymbolAspectRatio::AnyFit => 0,
            SymbolAspectRatio::NoFit => 1,
            SymbolAspectRatio::NoWidth => 2,
            SymbolAspectRatio::ExceptionallyWide => 3,
            SymbolAspectRatio::SuperWide => 4,
            SymbolAspectRatio::VeryWide => 5,
            SymbolAspectRatio::Wide => 6,
            SymbolAspectRatio::Normal => 7,
            SymbolAspectRatio::Narrow => 8,
            SymbolAspectRatio::VeryNarrow => 9,
        }
    }

    /// The value a number encodes: numbers 0 to 9 are defined.
    pub open spec fn spec_from(b: u8) -> Option<SymbolAspectRatio> {
        if b == 0 {
            Some(SymbolAspectRatio::AnyFit)
        } else if b == 1 {
            Some(SymbolAspectRatio::NoFit)
        } else if b == 2 {
            Some(SymbolAspectRatio::NoWidth)
        } else if b == 3 {
            Some(SymbolAspectRatio::ExceptionallyWide)
        } else if b == 4 {
            Some(SymbolAspectRatio::SuperWide)
        } else if b == 5 {
            Some(SymbolAspectRatio::VeryWide)
        } else if b == 6 {
            Some(SymbolAspectRatio::Wide)
        } else if b == 7 {
            Some(SymbolAspectRatio::Normal)
        } else if b == 8 {
            Some(SymbolAspectRatio::Narrow)
        } else if b == 9 {
            Some(SymbolAspectRatio::VeryNarrow)
        } else {
            None
        }
    }

    /// Decodes a number.
    pub fn from_u8(b: u8) -> (r: Option<SymbolAspectRatio>)
        ensures
            r == SymbolAspectRatio::spec_from(b),
            r is Some <==> b < 10,
            r matches Some(v) ==> v.code() == b,
    {
        match b {
            0 => Some(SymbolAspectRatio::AnyFit),
            1 => Some(SymbolAspectRatio::NoFit),
            2 => Some(SymbolAspectRatio::NoWidth),
            3 => Some(SymbolAspectRatio::ExceptionallyWide),
            4 => Some(SymbolAspectRatio::SuperWide),
            5 => Some(SymbolAspectRatio::VeryWide),
            6 => Some(SymbolAspectRatio::Wide),
            7 => Some(SymbolAspectRatio::Normal),
            8 => Some(SymbolAspectRatio::Narrow),
            9 => Some(SymbolAspectRatio::VeryNarrow),
            _ => None,
        }
    }

    /// Decodes the first byte of `data`.
    pub fn parse(data: &[u8]) -> (r: Option<SymbolAspectRatio>)
        ensures
            r == (if data@.len() == 0 { None } else { SymbolAspectRatio::spec_from(data@[0]) }),
    {
        if data.len() == 0 {
            return None;
        }
        SymbolAspectRatio::from_u8(data[0])
    }
}

/// Type of symbols included in a [`LatinSymbol`](Panose::LatinSymbol) face.
///
/// <https://monotype.github.io/panose/pan5.htm#_Toc380547406>
#[derive(Clone, Copy, Debug, PartialEq, Eq, Structural)]
pub enum SymbolKind {
    AnyFit,
    NoFit,
    Montages,
    Pictures,
    Shapes,
    Scientific,
    Music,
    Expert,
    Patterns,
    Borders,
    Icons,
    Logos,
    IndustrySpecific,
}

impl SymbolKind {
    /// The number that encodes the value.
    pub open spec fn code(self) -> u8 {
        match self {
            SymbolKind::AnyFit => 0,
            SymbolKind::NoFit => 1,
            SymbolKind::Montages => 2,
            SymbolKind::Pictures => 3,
            SymbolKind::Shapes => 4,
            SymbolKind::Scientific => 5,
            SymbolKind::Music => 6,
            SymbolKind::Expert => 7,
            SymbolKind::Patterns => 8,
            SymbolKind::Borders => 9,
            SymbolKind::Icons => 10,
            SymbolKind::Logos => 11,
            SymbolKind::IndustrySpecific => 12,
        }
    }

    /// The value a number encodes: numbers 0 to 12 are defined.
    pub open spec fn spec_from(b: u8) -> Option<SymbolKind> {
        if b == 0 {
            Some(SymbolKind::AnyFit)
        } else if b == 1 {
            Some(SymbolKind::NoFit)
        } else if b == 2 {
            Some(SymbolKind::Montages)
        } else if b == 3 {
            Some(SymbolKind::Pictures)
        } else if b == 4 {
            Some(SymbolKind::Shapes)
        } else if b == 5 {
            Some(SymbolKind::Scientific)
        } else if b == 6 {
            Some(SymbolKind::Music)
        } else if b == 7 {
            Some(SymbolKind::Expert)
        } else if b == 8 {
            Some(SymbolKind::Patterns)
        } else if b == 9 {
            Some(SymbolKind::Borders)
        } else if b == 10 {
            Some(SymbolKind::Icons)
        } else if b == 11 {
            Some(SymbolKind::Logos)
        } else if b == 12 {
            Some(SymbolKind::IndustrySpecific)
        } else {
            None
        }
    }

    /// Decodes a number.
    pub fn from_u8(b: u8) -> (r: Option<SymbolKind>)
        ensures
            r == SymbolKind::spec_from(b),
            r is Some <==> b < 13,
            r matches Some(v) ==> v.code() == b,
    {
        match b {
            0 => Some(SymbolKind::AnyFit),
            1 => Some(SymbolKind::NoFit),
            2 => Some(SymbolKind::Montages),
            3 => Some(SymbolKind::Pictures),
            4 => Some(SymbolKind::Shapes),
            5 => Some(SymbolKind::Scientific),
            6 => Some(SymbolKind::Music),
            7 => Some(SymbolKind::Expert),
            8 => Some(SymbolKind::Patterns),
            9 => Some(SymbolKind::Borders),
            10 => Some(SymbolKind::Icons),
            11 => Some(SymbolKind::Logos),
            12 => Some(SymbolKind::IndustrySpecific),
            _ => None,
        }
    }

    /// Decodes the first byte of `data`.
    pub fn parse(data: &[u8]) -> (r: Option<SymbolKind>)
        ensures
            r == (if data@.len() == 0 { None } else { SymbolKind::spec_from(data@[0]) }),
    {
        if data.len() == 0 {
            return None;
        }
        SymbolKind::from_u8(data[0])
    }
}

/// Kind of handwriting tool a [`LatinHandwritten`](Panose::LatinHandwritten) face is intended to
/// emulate.
///
/// <https://monotype.github.io/panose/pan3.htm#_Toc380547310>
#[derive(Clone, Copy, Debug, PartialEq, Eq, Structural)]
pub enum ToolKind {
    AnyFit,
    NoFit,
    FlatNib,
    PressurePoint,
    Engraved,
    Ball,
    Brush,
    Rough,
    FeltPenBrush,
    WildBrush,
}

impl ToolKind {
    /// The number that encodes the value.
    pub open spec fn code(self) -> u8 {
        match self {
            ToolKind::AnyFit => 0,
            ToolKind::NoFit => 1,
            ToolKind::FlatNib => 2,
            ToolKind::PressurePoint => 3,
            ToolKind::Engraved => 4,
            ToolKind::Ball => 5,
            ToolKind::Brush => 6,
            ToolKind::Rough => 7,
            ToolKind::FeltPenBrush => 8,
            ToolKind::WildBrush => 9,
        }
    }

    /// The value a number encodes: numbers 0 to 9 are defined.
    pub open spec fn spec_from(b: u8) -> Option<ToolKind> {
        if b == 0 {
            Some(ToolKind::AnyFit)
        } else if b == 1 {
            Some(ToolKind::NoFit)
        } else if b == 2 {
            Some(ToolKind::FlatNib)
        } else if b == 3 {
            Some(ToolKind::PressurePoint)
        } else if b == 4 {
            Some(ToolKind::Engraved)
        } else if b == 5 {
            Some(ToolKind::Ball)
        } else if b == 6 {
            Some(ToolKind::Brush)
        } else if b == 7 {
            Some(ToolKind::Rough)
        } else if b == 8 {
            Some(ToolKind::FeltPenBrush)
        } else if b == 9 {
            Some(ToolKind::WildBrush)
        } else {
            None
        }
    }

    /// Decodes a number.
    pub fn from_u8(b: u8) -> (r: Option<ToolKind>)
        ensures
            r == ToolKind::spec_from(b),
            r is Some <==> b < 10,
            r matches Some(v) ==> v.code() == b,
    {
        match b {
            0 => Some(ToolKind::AnyFit),
            1 => Some(ToolKind::NoFit),
            2 => Some(ToolKind::FlatNib),
            3 => Some(ToolKind::PressurePoint),
            4 => Some(ToolKind::Engraved),
            5 => Some(ToolKind::Ball),
            6 => Some(ToolKind::Brush),
            7 => Some(ToolKind::Rough),
            8 => Some(ToolKind::FeltPenBrush),
            9 => Some(ToolKind::WildBrush),
            _ => None,
        }
    }

    /// Decodes the first byte of `data`.
    pub fn parse(data: &[u8]) -> (r: Option<ToolKind>)
        ensures
            r == (if data@.len() == 0 { None } else { ToolKind::spec_from(data@[0]) }),
    {
        if data.len() == 0 {
            return None;
        }
        ToolKind::from_u8(data[0])
    }
}

/// Ratio of stroke thickness to the height of the uppercase "E" character.
///
/// <https://monotype.github.io/panose/pan3.htm#_Toc380547314>
#[derive(Clone, Copy, Debug, PartialEq, Eq, Structural)]
pub enum Weight {
    AnyFit,
    NoFit,
    VeryLight,
    Light,
    Thin,
    Book,
    Medium,
    Demi,
    Bold,
    Heavy,
    Black,
    ExtraBlack,
}

impl Weight {
    /// The number that encodes the value.
    pub open spec fn code(self) -> u8 {
        match self {
            Weight::AnyFit => 0,
            Weight::NoFit => 1,
            Weight::VeryLight => 2,
            Weight::Light => 3,
            Weight::Thin => 4,
            Weight::Book => 5,
            Weight::Medium => 6,
            Weight::Demi => 7,
            Weight::Bold => 8,
            Weight::Heavy => 9,
            Weight::Black => 10,
            Weight::ExtraBlack => 11,
        }
    }

    /// The value a number encodes: numbers 0 to 11 are defined.
    pub open spec fn spec_from(b: u8) -> Option<Weight> {
        if b == 0 {
            Some(Weight::AnyFit)
        } else if b == 1 {
            Some(Weight::NoFit)
        } else if b == 2 {
            Some(Weight::VeryLight)
        } else if b == 3 {
            Some(Weight::Light)
        } else if b == 4 {
            Some(Weight::Thin)
        } else if b == 5 {
            Some(Weight::Book)
        } else if b == 6 {
            Some(Weight::Medium)
        } else if b == 7 {
            Some(Weight::Demi)
        } else if b == 8 {
            Some(Weight::Bold)
        } else if b == 9 {
            Some(Weight::Heavy)
        } else if b == 10 {
            Some(Weight::Black)
        } else if b == 11 {
            Some(Weight::ExtraBlack)
        } else {
            None
        }
    }

    /// Decodes a number.
    pub fn from_u8(b: u8) -> (r: Option<Weight>)
        ensures
            r == Weight::spec_from(b),
            r is Some <==> b < 12,
            r matches Some(v) ==> v.code() == b,
    {
        match b {
            0 => Some(Weight::AnyFit),
            1 => Some(Weight::NoFit),
            2 => Some(Weight::VeryLight),
            3 => Some(Weight::Light),
            4 => Some(Weight::Thin),
            5 => Some(Weight::Book),
            6 => Some(Weight::Medium),
            7 => Some(Weight::Demi),
            8 => Some(Weight::Bold),
            9 => Some(Weight::Heavy),
            10 => Some(Weight::Black),
            11 => Some(Weight::ExtraBlack),
            _ => None,
        }
    }

    /// Decodes the first byte of `data`.
    pub fn parse(data: &[u8]) -> (r: Option<Weight>)
        ensures
            r == (if data@.len() == 0 { None } else { Weight::spec_from(data@[0]) }),
    {
        if data.len() == 0 {
            return None;
        }
        Weight::from_u8(data[0])
    }
}

/// Relative size of lowercase characters in a [`LatinHandwritten`](Panose::LatinHandwritten) face.
///
/// <https://monotype.github.io/panose/pan3.htm#_Toc380547350>
#[derive(Clone, Copy, Debug, PartialEq, Eq, Structural)]
pub enum XAscent {
    AnyFit,
    NoFit,
    VeryLow,
    Low,
    Medium,
    High,
    VeryHigh,
}

impl XAscent {
    /// The number that encodes the value.
    pub open spec fn code(self) -> u8 {
        match self {
            XAscent::AnyFit => 0,
            XAscent::NoFit => 1,
            XAscent::VeryLow => 2,
            XAscent::Low => 3,
            XAscent::Medium => 4,
            XAscent::High => 5,
            XAscent::VeryHigh => 6,
        }
    }

    /// The value a number encodes: numbers 0 to 6 are defined.
    pub open spec fn spec_from(b: u8) -> Option<XAscent> {
        if b == 0 {
            Some(XAscent::AnyFit)
        } else if b == 1 {
            Some(XAscent::NoFit)
        } else if b == 2 {
            Some(XAscent::VeryLow)
        } else if b == 3 {
            Some(XAscent::Low)
        } else if b == 4 {
            Some(XAscent::Medium)
        } else if b == 5 {
            Some(XAscent::High)
        } else if b == 6 {
            Some(XAscent::VeryHigh)
        } else {
            None
        }
    }

    /// Decodes a number.
    pub fn from_u8(b: u8) -> (r: Option<XAscent>)
        ensures
            r == XAscent::spec_from(b),
            r is Some <==> b < 7,
            r matches Some(v) ==> v.code() == b,
    {
        match b {
            0 => Some(XAscent::AnyFit),
            1 => Some(XAscent::NoFit),
            2 => Some(XAscent::VeryLow),
            3 => Some(XAscent::Low),
            4 => Some(XAscent::Medium),
            5 => Some(XAscent::High),
            6 => Some(XAscent::VeryHigh),
            _ => None,
        }
    }

    /// Decodes the first byte of `data`.
    pub fn parse(data: &[u8]) -> (r: Option<XAscent>)
        ensures
            r == (if data@.len() == 0 { None } else { XAscent::spec_from(data@[0]) }),
    {
        if data.len() == 0 {
            return None;
        }
        XAscent::from_u8(data[0])
    }
}

/// Relative size of lowercase characters in a [`LatinText`](Panose::LatinText) face.
///
/// <https://monotype.github.io/panose/pan2.htm#_Toc380547299>
#[derive(Clone, Copy, Debug, PartialEq, Eq, Structural)]
pub enum XHeight {
    AnyFit,
    NoFit,
    ConstantSmall,
    ConstantStandard,
    ConstantLarge,
    DuckingSmall,
    DuckingStandard,
    DuckingLarge,
}

impl XHeight {
    /// The number that encodes the value.
    pub open spec fn code(self) -> u8 {
        match self {
            XHeight::AnyFit => 0,
            XHeight::NoFit => 1,
            XHeight::ConstantSmall => 2,
            XHeight::ConstantStandard => 3,
            XHeight::ConstantLarge => 4,
            XHeight::DuckingSmall => 5,
            XHeight::DuckingStandard => 6,
            XHeight::DuckingLarge => 7,
        }
    }

    /// The value a number encodes: numbers 0 to 7 are defined.
    pub open spec fn spec_from(b: u8) -> Option<XHeight> {
        if b == 0 {
            Some(XHeight::AnyFit)
        } else if b == 1 {
            Some(XHeight::NoFit)
        } else if b == 2 {
            Some(XHeight::ConstantSmall)
        } else if b == 3 {
            Some(XHeight::ConstantStandard)
        } else if b == 4 {
            Some(XHeight::ConstantLarge)
        } else if b == 5 {
            Some(XHeight::DuckingSmall)
        } else if b == 6 {
            Some(XHeight::DuckingStandard)
        } else if b == 7 {
            Some(XHeight::DuckingLarge)
        } else {
            None
        }
    }

    /// Decodes a number.
    pub fn from_u8(b: u8) -> (r: Option<XHeight>)
        ensures
            r == XHeight::spec_from(b),
            r is Some <==> b < 8,
            r matches Some(v) ==> v.code() == b,
    {
        match b {
            0 => Some(XHeight::AnyFit),
            1 => Some(XHeight::NoFit),
            2 => Some(XHeight::ConstantSmall),
            3 => Some(XHeight::ConstantStandard),
            4 => Some(XHeight::ConstantLarge),
            5 => Some(XHeight::DuckingSmall),
            6 => Some(XHeight::DuckingStandard),
            7 => Some(XHeight::DuckingLarge),
            _ => None,
        }
    }

    /// Decodes the first byte of `data`.
    pub fn parse(data: &[u8]) -> (r: Option<XHeight>)
        ensures
            r == (if data@.len() == 0 { None } else { XHeight::spec_from(data@[0]) }),
    {
        if data.len() == 0 {
            return None;
        }
        XHeight::from_u8(data[0])
    }
}

/// A [PANOSE classification](https://learn.microsoft.com/en-us/typography/opentype/spec/os2#panose).
#[derive(Clone, Copy, Debug, PartialEq, Eq, Structural)]
pub enum Panose {
    AnyFit,
    NoFit,
    LatinText {
        serif: Serif,
        weight: Weight,
        proportion: Proportion,
        contrast: Contrast,
        stroke: StrokeVariation,
        arm: ArmStyle,
        letterform: Letterform,
        midline: Midline,
        x_height: XHeight,
    },
    LatinHandwritten {
        tool_kind: ToolKind,
        weight: Weight,
        spacing: Spacing,
        aspect_ratio: HandwrittenAspectRatio,
        contrast: Contrast,
        topology: HandwrittenTopology,
        form: HandForm,
        finials: Finial,
        x_ascent: XAscent,
    },
    LatinDecorative {
        decoration_class: DecorationClass,
        weight: Weight,
        aspect_ratio: DecorativeAspectRatio,
        contrast: Contrast,
        serif: Serif,
        treatment: DecorativeTreatment,
        lining: Lining,
        topology: DecorativeTopology,
        range_of_characters: DecorativeRange,
    },
    LatinSymbol {
        symbol_kind: SymbolKind,
        weight: Weight,
        spacing: Spacing,
        // This should always be 1.
        contrast: u8,
        aspect_94: SymbolAspectRatio,
        aspect_119: SymbolAspectRatio,
        aspect_157: SymbolAspectRatio,
        aspect_163: SymbolAspectRatio,
        aspect_211: SymbolAspectRatio,
    },
}

/// The PANOSE classification the 10 bytes of `d` encode: the family kind, then
/// nine digits whose meaning depends on the kind. Kinds 0 and 1 ignore the
/// digits; any undefined digit makes the whole classification undefined.
pub open spec fn spec_panose(d: Seq<u8>) -> Option<Panose> {
    if d.len() == 0 {
        None
    } else if d[0] == 0 {
        Some(Panose::AnyFit)
    } else if d[0] == 1 {
        Some(Panose::NoFit)
    } else if d.len() < 10 {
        None
    } else if d[0] == 2 {
        if Serif::spec_from(d[1]) is Some && Weight::spec_from(d[2]) is Some && Proportion::spec_from(d[3]) is Some
            && Contrast::spec_from(d[4]) is Some && StrokeVariation::spec_from(d[5]) is Some
            && ArmStyle::spec_from(d[6]) is Some && Letterform::spec_from(d[7]) is Some
            && Midline::spec_from(d[8]) is Some && XHeight::spec_from(d[9]) is Some {
            Some(
                Panose::LatinText {
                    serif: Serif::spec_from(d[1]).unwrap(),
                    weight: Weight::spec_from(d[2]).unwrap(),
                    proportion: Proportion::spec_from(d[3]).unwrap(),
                    contrast: Contrast::spec_from(d[4]).unwrap(),
                    stroke: StrokeVariation::spec_from(d[5]).unwrap(),
                    arm: ArmStyle::spec_from(d[6]).unwrap(),
                    letterform: Letterform::spec_from(d[7]).unwrap(),
                    midline: Midline::spec_from(d[8]).unwrap(),
                    x_height: XHeight::spec_from(d[9]).unwrap(),
                },
            )
        } else {
            None
        }
    } else if d[0] == 3 {
        if ToolKind::spec_from(d[1]) is Some && Weight::spec_from(d[2]) is Some && Spacing::spec_from(d[3]) is Some
            && HandwrittenAspectRatio::spec_from(d[4]) is Some && Contrast::spec_from(d[5]) is Some
            && HandwrittenTopology::spec_from(d[6]) is Some && HandForm::spec_from(d[7]) is Some
            && Finial::spec_from(d[8]) is Some && XAscent::spec_from(d[9]) is Some {
            Some(
                Panose::LatinHandwritten {
                    tool_kind: ToolKind::spec_from(d[1]).unwrap(),
                    weight: Weight::spec_from(d[2]).unwrap(),
                    spacing: Spacing::spec_from(d[3]).unwrap(),
                    aspect_ratio: HandwrittenAspectRatio::spec_from(d[4]).unwrap(),
                    contrast: Contrast::spec_from(d[5]).unwrap(),
                    topology: HandwrittenTopology::spec_from(d[6]).unwrap(),
                    form: HandForm::spec_from(d[7]).unwrap(),
                    finials: Finial::spec_from(d[8]).unwrap(),
                    x_ascent: XAscent::spec_from(d[9]).unwrap(),
                },
            )
        } else {
            None
        }
    } else if d[0] == 4 {
        if DecorationClass::spec_from(d[1]) is Some && Weight::spec_from(d[2]) is Some
            && DecorativeAspectRatio::spec_from(d[3]) is Some && Contrast::spec_from(d[4]) is Some
            && Serif::spec_from(d[5]) is Some && DecorativeTreatment::spec_from(d[6]) is Some
            && Lining::spec_from(d[7]) is Some && DecorativeTopology::spec_from(d[8]) is Some
            && DecorativeRange::spec_from(d[9]) is Some {
            Some(
                Panose::LatinDecorative {
                    decoration_class: DecorationClass::spec_from(d[1]).unwrap(),
                    weight: Weight::spec_from(d[2]).unwrap(),
                    aspect_ratio: DecorativeAspectRatio::spec_from(d[3]).unwrap(),
                    contrast: Contrast::spec_from(d[4]).unwrap(),
                    serif: Serif::spec_from(d[5]).unwrap(),
                    treatment: DecorativeTreatment::spec_from(d[6]).unwrap(),
                    lining: Lining::spec_from(d[7]).unwrap(),
                    topology: DecorativeTopology::spec_from(d[8]).unwrap(),
                    range_of_characters: DecorativeRange::spec_from(d[9]).unwrap(),
                },
            )
        } else {
            None
        }
    } else if d[0] == 5 {
        if SymbolKind::spec_from(d[1]) is Some && Weight::spec_from(d[2]) is Some && Spacing::spec_from(d[3]) is Some
            && SymbolAspectRatio::spec_from(d[5]) is Some && SymbolAspectRatio::spec_from(d[6]) is Some
            && SymbolAspectRatio::spec_from(d[7]) is Some && SymbolAspectRatio::spec_from(d[8]) is Some
            && SymbolAspectRatio::spec_from(d[9]) is Some {
            Some(
                Panose::LatinSymbol {
                    symbol_kind: SymbolKind::spec_from(d[1]).unwrap(),
                    weight: Weight::spec_from(d[2]).unwrap(),
                    spacing: Spacing::spec_from(d[3]).unwrap(),
                    contrast: d[4],
                    aspect_94: SymbolAspectRatio::spec_from(d[5]).unwrap(),
                    aspect_119: SymbolAspectRatio::spec_from(d[6]).unwrap(),
                    aspect_157: SymbolAspectRatio::spec_from(d[7]).unwrap(),
                    aspect_163: SymbolAspectRatio::spec_from(d[8]).unwrap(),
                    aspect_211: SymbolAspectRatio::spec_from(d[9]).unwrap(),
                },
            )
        } else {
            None
        }
    } else {
        None
    }
}

/// The weight digit of a classification, if it has one.
pub open spec fn panose_weight(p: Panose) -> Option<Weight> {
    match p {
        Panose::LatinText { weight, .. } => Some(weight),
        Panose::LatinHandwritten { weight, .. } => Some(weight),
        Panose::LatinDecorative { weight, .. } => Some(weight),
        Panose::LatinSymbol { weight, .. } => Some(weight),
        _ => None,
    }
}

/// The OS/2 weight class that a PANOSE weight approximates.
pub open spec fn spec_os2_weight(w: Weight) -> crate::tables::os2::Weight {
    match w {
        Weight::VeryLight => crate::tables::os2::Weight::Thin,
        Weight::Light => crate::tables::os2::Weight::ExtraLight,
        Weight::Thin => crate::tables::os2::Weight::Light,
        Weight::Book => crate::tables::os2::Weight::Normal,
        Weight::Medium => crate::tables::os2::Weight::Normal,
        Weight::Demi => crate::tables::os2::Weight::SemiBold,
        Weight::Bold => crate::tables::os2::Weight::Bold,
        Weight::Heavy => crate::tables::os2::Weight::ExtraBold,
        Weight::Black => crate::tables::os2::Weight::Black,
        Weight::ExtraBlack => crate::tables::os2::Weight::Black,
        _ => crate::tables::os2::Weight::Normal,
    }
}

impl Panose {
    /// Returns true if the weight is set to bold.
    pub fn is_bold(&self) -> (r: bool)
        ensures
            r == (panose_weight(*self) == Some(Weight::Bold)),
    {
        match self {
            Panose::AnyFit => false,
            Panose::NoFit => false,
            Panose::LatinText { weight, .. } => *weight == Weight::Bold,
            Panose::LatinHandwritten { weight, .. } => *weight == Weight::Bold,
            Panose::LatinDecorative { weight, .. } => *weight == Weight::Bold,
            Panose::LatinSymbol { weight, .. } => *weight == Weight::Bold,
        }
    }

    /// Returns true if the letter form (or hand form) is oblique.
    pub fn is_italic(&self) -> (r: bool)
        ensures
            r == match *self {
                Panose::LatinText { letterform, .. } => letterform == Letterform::ObliqueContact
                    || letterform == Letterform::ObliqueWeighted || letterform == Letterform::ObliqueBoxed
                    || letterform == Letterform::ObliqueFlattened || letterform == Letterform::ObliqueRounded
                    || letterform == Letterform::ObliqueOffCenter || letterform == Letterform::ObliqueSquare,
                Panose::LatinHandwritten { form, .. } => form == HandForm::ObliqueNoWrap || form
                    == HandForm::ObliqueSomeWrap || form == HandForm::ObliqueMoreWrap || form
                    == HandForm::ObliqueExtremeWrap,
                _ => false,
            },
    {
        match self {
            Panose::LatinText { letterform, .. } => match letterform {
                Letterform::ObliqueContact | Letterform::ObliqueWeighted | Letterform::ObliqueBoxed
                | Letterform::ObliqueFlattened | Letterform::ObliqueRounded | Letterform::ObliqueOffCenter
                | Letterform::ObliqueSquare => true,
                _ => false,
            },
            Panose::LatinHandwritten { form, .. } => match form {
                HandForm::ObliqueNoWrap | HandForm::ObliqueSomeWrap | HandForm::ObliqueMoreWrap
                | HandForm::ObliqueExtremeWrap => true,
                _ => false,
            },
            _ => false,
        }
    }

    /// Returns true if the proportion (or spacing) is monospaced.
    pub fn is_monospaced(&self) -> (r: bool)
        ensures
            r == match *self {
                Panose::LatinText { proportion, .. } => proportion == Proportion::Monospaced,
                Panose::LatinHandwritten { spacing, .. } => spacing == Spacing::Monospaced,
                Panose::LatinDecorative { aspect_ratio, .. } => aspect_ratio == DecorativeAspectRatio::Monospaced,
                Panose::LatinSymbol { spacing, .. } => spacing == Spacing::Monospaced,
                _ => false,
            },
    {
        match self {
            Panose::LatinText { proportion, .. } => *proportion == Proportion::Monospaced,
            Panose::LatinHandwritten { spacing, .. } => *spacing == Spacing::Monospaced,
            Panose::LatinDecorative { aspect_ratio, .. } => *aspect_ratio == DecorativeAspectRatio::Monospaced,
            Panose::LatinSymbol { spacing, .. } => *spacing == Spacing::Monospaced,
            _ => false,
        }
    }

    /// Returns an approximate mapping of the PANOSE weight to the OS/2 weight class.
    pub fn weight(&self) -> (r: crate::tables::os2::Weight)
        ensures
            r == match panose_weight(*self) {
                Some(w) => spec_os2_weight(w),
                None => crate::tables::os2::Weight::Normal,
            },
    {
        let w = match self {
            Panose::LatinText { weight, .. } => *weight,
            Panose::LatinHandwritten { weight, .. } => *weight,
            Panose::LatinDecorative { weight, .. } => *weight,
            Panose::LatinSymbol { weight, .. } => *weight,
            _ => return crate::tables::os2::Weight::Normal,
        };
        match w {
            Weight::VeryLight => crate::tables::os2::Weight::Thin,
            Weight::Light => crate::tables::os2::Weight::ExtraLight,
            Weight::Thin => crate::tables::os2::Weight::Light,
            Weight::Book => crate::tables::os2::Weight::Normal,
            Weight::Medium => crate::tables::os2::Weight::Normal,
            Weight::Demi => crate::tables::os2::Weight::SemiBold,
            Weight::Bold => crate::tables::os2::Weight::Bold,
            Weight::Heavy => crate::tables::os2::Weight::ExtraBold,
            Weight::Black => crate::tables::os2::Weight::Black,
            Weight::ExtraBlack => crate::tables::os2::Weight::Black,
            _ => crate::tables::os2::Weight::Normal,
        }
    }

    /// Parses a classification from its 10 bytes.
    pub fn parse(data: &[u8]) -> (r: Option<Panose>)
        ensures
            r == spec_panose(data@),
    {
        if data.len() == 0 {
            return None;
        }
        let kind = data[0];
        if kind == 0 {
            return Some(Panose::AnyFit);
        }
        if kind == 1 {
            return Some(Panose::NoFit);
        }
        if data.len() < 10 {
            return None;
        }
        if kind == 2 {
            let serif = match Serif::from_u8(data[1]) { Some(v) => v, None => return None };
            let weight = match Weight::from_u8(data[2]) { Some(v) => v, None => return None };
            let proportion = match Proportion::from_u8(data[3]) { Some(v) => v, None => return None };
            let contrast = match Contrast::from_u8(data[4]) { Some(v) => v, None => return None };
            let stroke = match StrokeVariation::from_u8(data[5]) { Some(v) => v, None => return None };
            let arm = match ArmStyle::from_u8(data[6]) { Some(v) => v, None => return None };
            let letterform = match Letterform::from_u8(data[7]) { Some(v) => v, None => return None };
            let midline = match Midline::from_u8(data[8]) { Some(v) => v, None => return None };
            let x_height = match XHeight::from_u8(data[9]) { Some(v) => v, None => return None };
            Some(Panose::LatinText { serif, weight, proportion, contrast, stroke, arm, letterform, midline, x_height })
        } else if kind == 3 {
            let tool_kind = match ToolKind::from_u8(data[1]) { Some(v) => v, None => return None };
            let weight = match Weight::from_u8(data[2]) { Some(v) => v, None => return None };
            let spacing = match Spacing::from_u8(data[3]) { Some(v) => v, None => return None };
            let aspect_ratio = match HandwrittenAspectRatio::from_u8(data[4]) { Some(v) => v, None => return None };
            let contrast = match Contrast::from_u8(data[5]) { Some(v) => v, None => return None };
            let topology = match HandwrittenTopology::from_u8(data[6]) { Some(v) => v, None => return None };
            let form = match HandForm::from_u8(data[7]) { Some(v) => v, None => return None };
            let finials = match Finial::from_u8(data[8]) { Some(v) => v, None => return None };
            let x_ascent = match XAscent::from_u8(data[9]) { Some(v) => v, None => return None };
            Some(Panose::LatinHandwritten {
                tool_kind, weight, spacing, aspect_ratio, contrast, topology, form, finials, x_ascent,
            })
        } else if kind == 4 {
            let decoration_class = match DecorationClass::from_u8(data[1]) { Some(v) => v, None => return None };
            let weight = match Weight::from_u8(data[2]) { Some(v) => v, None => return None };
            let aspect_ratio = match DecorativeAspectRatio::from_u8(data[3]) { Some(v) => v, None => return None };
            let contrast = match Contrast::from_u8(data[4]) { Some(v) => v, None => return None };
            let serif = match Serif::from_u8(data[5]) { Some(v) => v, None => return None };
            let treatment = match DecorativeTreatment::from_u8(data[6]) { Some(v) => v, None => return None };
            let lining = match Lining::from_u8(data[7]) { Some(v) => v, None => return None };
            let topology = match DecorativeTopology::from_u8(data[8]) { Some(v) => v, None => return None };
            let range_of_characters = match DecorativeRange::from_u8(data[9]) { Some(v) => v, None => return None };
            Some(Panose::LatinDecorative {
                decoration_class, weight, aspect_ratio, contrast, serif, treatment, lining, topology,
                range_of_characters,
            })
        } else if kind == 5 {
            let symbol_kind = match SymbolKind::from_u8(data[1]) { Some(v) => v, None => return None };
            let weight = match Weight::from_u8(data[2]) { Some(v) => v, None => return None };
            let spacing = match Spacing::from_u8(data[3]) { Some(v) => v, None => return None };
            let contrast = data[4];
            let aspect_94 = match SymbolAspectRatio::from_u8(data[5]) { Some(v) => v, None => return None };
            let aspect_119 = match SymbolAspectRatio::from_u8(data[6]) { Some(v) => v, None => return None };
            let aspect_157 = match SymbolAspectRatio::from_u8(data[7]) { Some(v) => v, None => return None };
            let aspect_163 = match SymbolAspectRatio::from_u8(data[8]) { Some(v) => v, None => return None };
            let aspect_211 = match SymbolAspectRatio::from_u8(data[9]) { Some(v) => v, None => return None };
            Some(Panose::LatinSymbol {
                symbol_kind, weight, spacing, contrast, aspect_94, aspect_119, aspect_157, aspect_163, aspect_211,
            })
        } else {
            None
        }
    }
}

} // verus!
