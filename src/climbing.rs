use vstd::prelude::*;

verus! {

/// Whether `a` and `b` hold the same characters.
fn same_text(a: &str, b: &str) -> (same: bool)
    ensures
        same == (a@ == b@),
{
    let n = a.unicode_len();
    if n != b.unicode_len() {
        return false;
    }
    let mut i: usize = 0;
    while i < n
        invariant
            n == a@.len(),
            n == b@.len(),
            i <= n,
            a@.subrange(0, i as int) == b@.subrange(0, i as int),
        decreases n - i,
    {
        if a.get_char(i) != b.get_char(i) {
            assert(a@[i as int] != b@[i as int]);
            return false;
        }
        assert(a@.subrange(0, i + 1) =~= a@.subrange(0, i as int).push(a@[i as int]));
        assert(b@.subrange(0, i + 1) =~= b@.subrange(0, i as int).push(b@[i as int]));
        i = i + 1;
    }
    assert(a@ =~= a@.subrange(0, n as int));
    assert(b@ =~= b@.subrange(0, n as int));
    true
}

/// A style of climbing.
#[derive(Clone, Copy, Debug, PartialEq, Eq, Structural)]
pub enum Style {
    Boulder,
    TopRope,
    Sport,
    Trad,
    Ice,
    Alpine,
    Aid,
    Speed,
    FreeSolo,
    DeepWater,
}

/// How `g` is written.
pub open spec fn style_text(g: Style) -> Seq<char> {
    match g {
        Style::Boulder => "Boulder"@,
        Style::TopRope => "Top Rope"@,
        Style::Sport => "Sport"@,
        Style::Trad => "Trad"@,
        Style::Ice => "Ice"@,
        Style::Alpine => "Alpine"@,
        Style::Aid => "Aid"@,
        Style::Speed => "Speed"@,
        Style::FreeSolo => "Free Solo"@,
        Style::DeepWater => "Deep Water"@,
    }
}

impl Style {
    /// How the value is written.
    pub fn label(&self) -> (text: String)
        ensures
            text@ == style_text(*self),
    {
        match self {
            Style::Boulder => String::from_str("Boulder"),
            Style::TopRope => String::from_str("Top Rope"),
            Style::Sport => String::from_str("Sport"),
            Style::Trad => String::from_str("Trad"),
            Style::Ice => String::from_str("Ice"),
            Style::Alpine => String::from_str("Alpine"),
            Style::Aid => String::from_str("Aid"),
            Style::Speed => String::from_str("Speed"),
            Style::FreeSolo => String::from_str("Free Solo"),
            Style::DeepWater => String::from_str("Deep Water"),
        }
    }

}

/// A grading system for roped routes.
#[derive(Clone, Copy, Debug, PartialEq, Eq, Structural)]
pub enum TallGradeSys {
    Yosemite,
    French,
    Uiaa,
}

/// How `g` is written.
pub open spec fn tall_grade_sys_text(g: TallGradeSys) -> Seq<char> {
    match g {
        TallGradeSys::French => "French"@,
        TallGradeSys::Uiaa => "UIAA"@,
        TallGradeSys::Yosemite => "Yosemite"@,
    }
}

impl TallGradeSys {
    /// How the value is written.
    pub fn label(&self) -> (text: String)
        ensures
            text@ == tall_grade_sys_text(*self),
    {
        match self {
            TallGradeSys::French => String::from_str("French"),
            TallGradeSys::Uiaa => String::from_str("UIAA"),
            TallGradeSys::Yosemite => String::from_str("Yosemite"),
        }
    }

    /// The values offered for selection, in order.
    pub fn iter() -> (all: Vec<TallGradeSys>)
        ensures
            all@ == seq![TallGradeSys::Yosemite, TallGradeSys::French, TallGradeSys::Uiaa],
    {
        vec![TallGradeSys::Yosemite, TallGradeSys::French, TallGradeSys::Uiaa]
    }
}

/// A grading system for boulder problems.
#[derive(Clone, Copy, Debug, PartialEq, Eq, Structural)]
pub enum BoulderGradeSys {
    Hueco,
    Font,
}

/// How `g` is written.
pub open spec fn boulder_grade_sys_text(g: BoulderGradeSys) -> Seq<char> {
    match g {
        BoulderGradeSys::Font => "Font"@,
        BoulderGradeSys::Hueco => "Hueco (V-Grade)"@,
    }
}

impl BoulderGradeSys {
    /// How the value is written.
    pub fn label(&self) -> (text: String)
        ensures
            text@ == boulder_grade_sys_text(*self),
    {
        match self {
            BoulderGradeSys::Font => String::from_str("Font"),
            BoulderGradeSys::Hueco => String::from_str("Hueco (V-Grade)"),
        }
    }

    /// The values offered for selection, in order.
    pub fn iter() -> (all: Vec<BoulderGradeSys>)
        ensures
            all@ == seq![BoulderGradeSys::Hueco, BoulderGradeSys::Font],
    {
        vec![BoulderGradeSys::Hueco, BoulderGradeSys::Font]
    }
}

/// A grade of the Yosemite Decimal System, easiest first; `Ungraded` for no grade.
#[derive(Clone, Copy, Debug, PartialEq, Eq, Structural, Default, PartialOrd)]
pub enum Yosemite {
    One,
    Two,
    Three,
    Four,
    FiveZero,
    FiveOne,
    FiveTwo,
    FiveThree,
    FiveFour,
    FiveFive,
    FiveSix,
    FiveSeven,
    FiveEight,
    #[default]
    FiveNine,
    FiveTenA,
    FiveTenB,
    FiveTenC,
    FiveTenD,
    FiveElevenA,
    FiveElevenB,
    FiveElevenC,
    FiveElevenD,
    FiveTwelveA,
    FiveTwelveB,
    FiveTwelveC,
    FiveTwelveD,
    FiveThirteenA,
    FiveThirteenB,
    FiveThirteenC,
    FiveThirteenD,
    FiveFourteenA,
    FiveFourteenB,
    FiveFourteenC,
    FiveFourteenD,
    FiveFifteenA,
    FiveFifteenB,
    FiveFifteenC,
    FiveFifteenD,
    Ungraded,
}

/// How `g` is written.
pub open spec fn yosemite_text(g: Yosemite) -> Seq<char> {
    match g {
        Yosemite::One => "1"@,
        Yosemite::Two => "2"@,
        Yosemite::Three => "3"@,
        Yosemite::Four => "4"@,
        Yosemite::FiveZero => "5.0"@,
        Yosemite::FiveOne => "5.1"@,
        Yosemite::FiveTwo => "5.2"@,
        Yosemite::FiveThree => "5.3"@,
        Yosemite::FiveFour => "5.4"@,
        Yosemite::FiveFive => "5.5"@,
        Yosemite::FiveSix => "5.6"@,
        Yosemite::FiveSeven => "5.7"@,
        Yosemite::FiveEight => "5.8"@,
        Yosemite::FiveNine => "5.9"@,
        Yosemite::FiveTenA => "5.10a"@,
        Yosemite::FiveTenB => "5.10b"@,
        Yosemite::FiveTenC => "5.10c"@,
        Yosemite::FiveTenD => "5.10d"@,
        Yosemite::FiveElevenA => "5.11a"@,
        Yosemite::FiveElevenB => "5.11b"@,
        Yosemite::FiveElevenC => "5.11c"@,
        Yosemite::FiveElevenD => "5.11d"@,
        Yosemite::FiveTwelveA => "5.12a"@,
        Yosemite::FiveTwelveB => "5.12b"@,
        Yosemite::FiveTwelveC => "5.12c"@,
        Yosemite::FiveTwelveD => "5.12d"@,
        Yosemite::FiveThirteenA => "5.13a"@,
        Yosemite::FiveThirteenB => "5.13b"@,
        Yosemite::FiveThirteenC => "5.13c"@,
        Yosemite::FiveThirteenD => "5.13d"@,
        Yosemite::FiveFourteenA => "5.14a"@,
        Yosemite::FiveFourteenB => "5.14b"@,
        Yosemite::FiveFourteenC => "5.14c"@,
        Yosemite::FiveFourteenD => "5.14d"@,
        Yosemite::FiveFifteenA => "5.15a"@,
        Yosemite::FiveFifteenB => "5.15b"@,
        Yosemite::FiveFifteenC => "5.15c"@,
        Yosemite::FiveFifteenD => "5.15d"@,
        Yosemite::Ungraded => "None"@,
    }
}

/// The roped grade of about the difficulty of boulder grade `g`: a rough
/// match across disciplines. Grades above V10 give 5.9.
pub open spec fn yosemite_of_hueco(g: Hueco) -> Yosemite {
    match g {
        Hueco::Vb => Yosemite::FiveFive,
        Hueco::V0Minus => Yosemite::FiveEight,
        Hueco::V0 => Yosemite::FiveNine,
        Hueco::V0Plus => Yosemite::FiveTenA,
        Hueco::V1Minus => Yosemite::FiveTenB,
        Hueco::V1 => Yosemite::FiveTenC,
        Hueco::V1Plus => Yosemite::FiveTenD,
        Hueco::V2Minus => Yosemite::FiveElevenA,
        Hueco::V2 => Yosemite::FiveElevenA,
        Hueco::V2Plus => Yosemite::FiveElevenB,
        Hueco::V3Minus => Yosemite::FiveElevenC,
        Hueco::V3 => Yosemite::FiveElevenC,
        Hueco::V3Plus => Yosemite::FiveElevenD,
        Hueco::V4Minus => Yosemite::FiveTwelveA,
        Hueco::V4 => Yosemite::FiveTwelveA,
        Hueco::V4Plus => Yosemite::FiveTwelveB,
        Hueco::V5Minus => Yosemite::FiveTwelveB,
        Hueco::V5 => Yosemite::FiveTwelveB,
        Hueco::V5Plus => Yosemite::FiveTwelveB,
        Hueco::V6Minus => Yosemite::FiveTwelveC,
        Hueco::V6 => Yosemite::FiveTwelveD,
        Hueco::V6Plus => Yosemite::FiveTwelveD,
        Hueco::V7Minus => Yosemite::FiveThirteenA,
        Hueco::V7 => Yosemite::FiveThirteenA,
        Hueco::V7Plus => Yosemite::FiveThirteenB,
        Hueco::V8Minus => Yosemite::FiveThirteenB,
        Hueco::V8 => Yosemite::FiveThirteenC,
        Hueco::V8Plus => Yosemite::FiveThirteenC,
        Hueco::V9Minus => Yosemite::FiveThirteenC,
        Hueco::V9 => Yosemite::FiveThirteenD,
        Hueco::V9Plus => Yosemite::FiveThirteenD,
        Hueco::V10Minus => Yosemite::FiveFourteenA,
        Hueco::V10 => Yosemite::FiveFourteenA,
        Hueco::Ungraded => Yosemite::Ungraded,
        _ => Yosemite::FiveNine,
    }
}

/// The Yosemite grade nearest to French grade `g`.
pub open spec fn yosemite_of_french(g: French) -> Yosemite {
    match g {
        French::One => Yosemite::FiveTwo,
        French::Two => Yosemite::FiveThree,
        French::Three => Yosemite::FiveFour,
        French::FourA => Yosemite::FiveFive,
        French::FourB => Yosemite::FiveFive,
        French::FourC => Yosemite::FiveFive,
        French::FiveA => Yosemite::FiveSix,
        French::FiveB => Yosemite::FiveSeven,
        French::FiveC => Yosemite::FiveEight,
        French::SixAMinus => Yosemite::FiveNine,
        French::SixA => Yosemite::FiveTenA,
        French::SixAPlus => Yosemite::FiveTenB,
        French::SixBMinus => Yosemite::FiveTenC,
        French::SixB => Yosemite::FiveTenC,
        French::SixBPlus => Yosemite::FiveTenD,
        French::SixCMinus => Yosemite::FiveElevenA,
        French::SixC => Yosemite::FiveElevenA,
        French::SixCPlus => Yosemite::FiveElevenB,
        French::SevenAMinus => Yosemite::FiveElevenC,
        French::SevenA => Yosemite::FiveElevenC,
        French::SevenAPlus => Yosemite::FiveElevenD,
        French::SevenBMinus => Yosemite::FiveTwelveA,
        French::SevenB => Yosemite::FiveTwelveA,
        French::SevenBPlus => Yosemite::FiveTwelveB,
        French::SevenCMinus => Yosemite::FiveTwelveC,
        French::SevenC => Yosemite::FiveTwelveC,
        French::SevenCPlus => Yosemite::FiveTwelveD,
        French::EightAMinus => Yosemite::FiveThirteenA,
        French::EightA => Yosemite::FiveThirteenB,
        French::EightAPlus => Yosemite::FiveThirteenC,
        French::EightBMinus => Yosemite::FiveThirteenD,
        French::EightB => Yosemite::FiveThirteenD,
        French::EightBPlus => Yosemite::FiveFourteenA,
        French::EightCMinus => Yosemite::FiveFourteenB,
        French::EightC => Yosemite::FiveFourteenB,
        French::EightCPlus => Yosemite::FiveFourteenC,
        French::NineAMinus => Yosemite::FiveFourteenD,
        French::NineA => Yosemite::FiveFourteenD,
        French::NineAPlus => Yosemite::FiveFifteenA,
        French::NineBMinus => Yosemite::FiveFifteenB,
        French::NineB => Yosemite::FiveFifteenB,
        French::NineBPlus => Yosemite::FiveFifteenC,
        French::NineCMinus => Yosemite::FiveFifteenD,
        French::NineC => Yosemite::FiveFifteenD,
        French::NineCPlus => Yosemite::FiveFifteenD,
    }
}

/// The Yosemite grade nearest to UIAA grade `g`.
pub open spec fn yosemite_of_uiaa(g: Uiaa) -> Yosemite {
    match g {
        Uiaa::I => Yosemite::FiveOne,
        Uiaa::Ii => Yosemite::FiveTwo,
        Uiaa::Iii => Yosemite::FiveThree,
        Uiaa::IvMinus => Yosemite::FiveFour,
        Uiaa::Iv => Yosemite::FiveFour,
        Uiaa::IvPlus => Yosemite::FiveFive,
        Uiaa::VMinus => Yosemite::FiveSix,
        Uiaa::V => Yosemite::FiveSeven,
        Uiaa::VPlus => Yosemite::FiveEight,
        Uiaa::ViMinus => Yosemite::FiveNine,
        Uiaa::Vi => Yosemite::FiveTenA,
        Uiaa::ViPlus => Yosemite::FiveTenB,
        Uiaa::ViiMinus => Yosemite::FiveTenC,
        Uiaa::Vii => Yosemite::FiveTenD,
        Uiaa::ViiPlus => Yosemite::FiveElevenA,
        Uiaa::ViiiMinus => Yosemite::FiveElevenC,
        Uiaa::Viii => Yosemite::FiveElevenD,
        Uiaa::ViiiPlus => Yosemite::FiveTwelveA,
        Uiaa::IxMinus => Yosemite::FiveTwelveC,
        Uiaa::Ix => Yosemite::FiveTwelveD,
        Uiaa::IxPlus => Yosemite::FiveThirteenB,
        Uiaa::XMinus => Yosemite::FiveThirteenC,
        Uiaa::X => Yosemite::FiveThirteenD,
        Uiaa::XPlus => Yosemite::FiveFourteenA,
        Uiaa::XiMinus => Yosemite::FiveFourteenB,
        Uiaa::Xi => Yosemite::FiveFourteenD,
        Uiaa::XiPlus => Yosemite::FiveFifteenA,
        Uiaa::XiiMinus => Yosemite::FiveFifteenB,
        Uiaa::Xii => Yosemite::FiveFifteenC,
        Uiaa::XiiPlus => Yosemite::FiveFifteenD,
    }
}

/// The roped grade of about the difficulty of boulder grade `g`: a rough
/// match across disciplines. Grades from 9C- up give 5.9.
pub open spec fn yosemite_of_font(g: Font) -> Yosemite {
    match g {
        Font::OneMinus => Yosemite::FiveFour,
        Font::One => Yosemite::FiveFive,
        Font::OnePlus => Yosemite::FiveSix,
        Font::TwoMinus => Yosemite::FiveSix,
        Font::Two => Yosemite::FiveSeven,
        Font::TwoPlus => Yosemite::FiveEight,
        Font::ThreeMinus => Yosemite::FiveEight,
        Font::Three => Yosemite::FiveNine,
        Font::ThreePlus => Yosemite::FiveTenA,
        Font::FourMinus => Yosemite::FiveTenB,
        Font::Four => Yosemite::FiveTenC,
        Font::FourPlus => Yosemite::FiveTenD,
        Font::FiveMinus => Yosemite::FiveElevenA,
        Font::Five => Yosemite::FiveElevenA,
        Font::FivePlus => Yosemite::FiveElevenB,
        Font::SixAMinus => Yosemite::FiveElevenC,
        Font::SixA => Yosemite::FiveElevenC,
        Font::SixAPlus => Yosemite::FiveElevenD,
        Font::SixBMinus => Yosemite::FiveTwelveA,
        Font::SixB => Yosemite::FiveTwelveA,
        Font::SixBPlus => Yosemite::FiveTwelveB,
        Font::SixCMinus => Yosemite::FiveTwelveB,
        Font::SixC => Yosemite::FiveTwelveB,
        Font::SixCPlus => Yosemite::FiveTwelveB,
        Font::SevenAMinus => Yosemite::FiveTwelveC,
        Font::SevenA => Yosemite::FiveTwelveD,
        Font::SevenAPlus => Yosemite::FiveTwelveD,
        Font::SevenBMinus => Yosemite::FiveThirteenA,
        Font::SevenB => Yosemite::FiveThirteenA,
        Font::SevenBPlus => Yosemite::FiveThirteenB,
        Font::SevenCMinus => Yosemite::FiveThirteenB,
        Font::SevenC => Yosemite::FiveThirteenC,
        Font::SevenCPlus => Yosemite::FiveThirteenC,
        Font::EightAMinus => Yosemite::FiveThirteenC,
        Font::EightA => Yosemite::FiveThirteenD,
        Font::EightAPlus => Yosemite::FiveThirteenD,
        Font::EightBMinus => Yosemite::FiveFourteenA,
        Font::EightB => Yosemite::FiveFourteenA,
        Font::EightBPlus => Yosemite::FiveFourteenB,
        Font::EightCMinus => Yosemite::FiveFourteenB,
        Font::EightC => Yosemite::FiveFourteenC,
        Font::EightCPlus => Yosemite::FiveFourteenD,
        Font::NineAMinus => Yosemite::FiveFifteenA,
        Font::NineA => Yosemite::FiveFifteenB,
        Font::NineAPlus => Yosemite::FiveFifteenC,
        Font::NineBMinus => Yosemite::FiveFifteenD,
        Font::NineB => Yosemite::FiveFifteenD,
        Font::NineBPlus => Yosemite::FiveFifteenD,
        _ => Yosemite::FiveNine,
    }
}

/// The Yosemite grade written as `g`; `5.0` and text that writes no grade
/// give 5.9.
pub open spec fn yosemite_of_text(g: String) -> Yosemite {
    if g@ == "1"@ {
        Yosemite::One
    } else if g@ == "2"@ {
        Yosemite::Two
    } else if g@ == "3"@ {
        Yosemite::Three
    } else if g@ == "4"@ {
        Yosemite::Four
    } else if g@ == "5.1"@ {
        Yosemite::FiveOne
    } else if g@ == "5.2"@ {
        Yosemite::FiveTwo
    } else if g@ == "5.3"@ {
        Yosemite::FiveThree
    } else if g@ == "5.4"@ {
        Yosemite::FiveFour
    } else if g@ == "5.5"@ {
        Yosemite::FiveFive
    } else if g@ == "5.6"@ {
        Yosemite::FiveSix
    } else if g@ == "5.7"@ {
        Yosemite::FiveSeven
    } else if g@ == "5.8"@ {
        Yosemite::FiveEight
    } else if g@ == "5.9"@ {
        Yosemite::FiveNine
    } else if g@ == "5.10a"@ {
        Yosemite::FiveTenA
    } else if g@ == "5.10b"@ {
        Yosemite::FiveTenB
    } else if g@ == "5.10c"@ {
        Yosemite::FiveTenC
    } else if g@ == "5.10d"@ {
        Yosemite::FiveTenD
    } else if g@ == "5.11a"@ {
        Yosemite::FiveElevenA
    } else if g@ == "5.11b"@ {
        Yosemite::FiveElevenB
    } else if g@ == "5.11c"@ {
        Yosemite::FiveElevenC
    } else if g@ == "5.11d"@ {
        Yosemite::FiveElevenD
    } else if g@ == "5.12a"@ {
        Yosemite::FiveTwelveA
    } else if g@ == "5.12b"@ {
        Yosemite::FiveTwelveB
    } else if g@ == "5.12c"@ {
        Yosemite::FiveTwelveC
    } else if g@ == "5.12d"@ {
        Yosemite::FiveTwelveD
    } else if g@ == "5.13a"@ {
        Yosemite::FiveThirteenA
    } else if g@ == "5.13b"@ {
        Yosemite::FiveThirteenB
    } else if g@ == "5.13c"@ {
        Yosemite::FiveThirteenC
    } else if g@ == "5.13d"@ {
        Yosemite::FiveThirteenD
    } else if g@ == "5.14a"@ {
        Yosemite::FiveFourteenA
    } else if g@ == "5.14b"@ {
        Yosemite::FiveFourteenB
    } else if g@ == "5.14c"@ {
        Yosemite::FiveFourteenC
    } else if g@ == "5.14d"@ {
        Yosemite::FiveFourteenD
    } else if g@ == "5.15a"@ {
        Yosemite::FiveFifteenA
    } else if g@ == "5.15b"@ {
        Yosemite::FiveFifteenB
    } else if g@ == "5.15c"@ {
        Yosemite::FiveFifteenC
    } else if g@ == "5.15d"@ {
        Yosemite::FiveFifteenD
    } else if g@ == "None"@ {
        Yosemite::Ungraded
    } else {
        Yosemite::FiveNine
    }
}

/// The Yosemite grade at position `g` of the scale, 0 being `1`; a number
/// outside the scale gives `Ungraded`.
pub open spec fn yosemite_of_number(g: i32) -> Yosemite {
    match g {
        0 => Yosemite::One,
        1 => Yosemite::Two,
        2 => Yosemite::Three,
        3 => Yosemite::Four,
        4 => Yosemite::FiveZero,
        5 => Yosemite::FiveOne,
        6 => Yosemite::FiveTwo,
        7 => Yosemite::FiveThree,
        8 => Yosemite::FiveFour,
        9 => Yosemite::FiveFive,
        10 => Yosemite::FiveSix,
        11 => Yosemite::FiveSeven,
        12 => Yosemite::FiveEight,
        13 => Yosemite::FiveNine,
        14 => Yosemite::FiveTenA,
        15 => Yosemite::FiveTenB,
        16 => Yosemite::FiveTenC,
        17 => Yosemite::FiveTenD,
        18 => Yosemite::FiveElevenA,
        19 => Yosemite::FiveElevenB,
        20 => Yosemite::FiveElevenC,
        21 => Yosemite::FiveElevenD,
        22 => Yosemite::FiveTwelveA,
        23 => Yosemite::FiveTwelveB,
        24 => Yosemite::FiveTwelveC,
        25 => Yosemite::FiveTwelveD,
        26 => Yosemite::FiveThirteenA,
        27 => Yosemite::FiveThirteenB,
        28 => Yosemite::FiveThirteenC,
        29 => Yosemite::FiveThirteenD,
        30 => Yosemite::FiveFourteenA,
        31 => Yosemite::FiveFourteenB,
        32 => Yosemite::FiveFourteenC,
        33 => Yosemite::FiveFourteenD,
        34 => Yosemite::FiveFifteenA,
        35 => Yosemite::FiveFifteenB,
        36 => Yosemite::FiveFifteenC,
        37 => Yosemite::FiveFifteenD,
        _ => Yosemite::Ungraded,
    }
}

impl Yosemite {
    /// How the value is written.
    pub fn label(&self) -> (text: String)
        ensures
            text@ == yosemite_text(*self),
    {
        match self {
            Yosemite::One => String::from_str("1"),
            Yosemite::Two => String::from_str("2"),
            Yosemite::Three => String::from_str("3"),
            Yosemite::Four => String::from_str("4"),
            Yosemite::FiveZero => String::from_str("5.0"),
            Yosemite::FiveOne => String::from_str("5.1"),
            Yosemite::FiveTwo => String::from_str("5.2"),
            Yosemite::FiveThree => String::from_str("5.3"),
            Yosemite::FiveFour => String::from_str("5.4"),
            Yosemite::FiveFive => String::from_str("5.5"),
            Yosemite::FiveSix => String::from_str("5.6"),
            Yosemite::FiveSeven => String::from_str("5.7"),
            Yosemite::FiveEight => String::from_str("5.8"),
            Yosemite::FiveNine => String::from_str("5.9"),
            Yosemite::FiveTenA => String::from_str("5.10a"),
            Yosemite::FiveTenB => String::from_str("5.10b"),
            Yosemite::FiveTenC => String::from_str("5.10c"),
            Yosemite::FiveTenD => String::from_str("5.10d"),
            Yosemite::FiveElevenA => String::from_str("5.11a"),
            Yosemite::FiveElevenB => String::from_str("5.11b"),
            Yosemite::FiveElevenC => String::from_str("5.11c"),
            Yosemite::FiveElevenD => String::from_str("5.11d"),
            Yosemite::FiveTwelveA => String::from_str("5.12a"),
            Yosemite::FiveTwelveB => String::from_str("5.12b"),
            Yosemite::FiveTwelveC => String::from_str("5.12c"),
            Yosemite::FiveTwelveD => String::from_str("5.12d"),
            Yosemite::FiveThirteenA => String::from_str("5.13a"),
            Yosemite::FiveThirteenB => String::from_str("5.13b"),
            Yosemite::FiveThirteenC => String::from_str("5.13c"),
            Yosemite::FiveThirteenD => String::from_str("5.13d"),
            Yosemite::FiveFourteenA => String::from_str("5.14a"),
            Yosemite::FiveFourteenB => String::from_str("5.14b"),
            Yosemite::FiveFourteenC => String::from_str("5.14c"),
            Yosemite::FiveFourteenD => String::from_str("5.14d"),
            Yosemite::FiveFifteenA => String::from_str("5.15a"),
            Yosemite::FiveFifteenB => String::from_str("5.15b"),
            Yosemite::FiveFifteenC => String::from_str("5.15c"),
            Yosemite::FiveFifteenD => String::from_str("5.15d"),
            Yosemite::Ungraded => String::from_str("None"),
        }
    }

    /// The values offered for selection, in order.
    pub fn iter() -> (all: Vec<Yosemite>)
        ensures
            all@ == seq![Yosemite::One, Yosemite::Two, Yosemite::Three, Yosemite::Four, Yosemite::FiveZero, Yosemite::FiveOne, Yosemite::FiveTwo, Yosemite::FiveThree, Yosemite::FiveFour, Yosemite::FiveFive, Yosemite::FiveSix, Yosemite::FiveSeven, Yosemite::FiveEight, Yosemite::FiveNine, Yosemite::FiveTenA, Yosemite::FiveTenB, Yosemite::FiveTenC, Yosemite::FiveTenD, Yosemite::FiveElevenA, Yosemite::FiveElevenB, Yosemite::FiveElevenC, Yosemite::FiveElevenD, Yosemite::FiveTwelveA, Yosemite::FiveTwelveB, Yosemite::FiveTwelveC, Yosemite::FiveTwelveD, Yosemite::FiveThirteenA, Yosemite::FiveThirteenB, Yosemite::FiveThirteenC, Yosemite::FiveThirteenD, Yosemite::FiveFourteenA, Yosemite::FiveFourteenB, Yosemite::FiveFourteenC, Yosemite::FiveFourteenD, Yosemite::FiveFifteenA, Yosemite::FiveFifteenB, Yosemite::FiveFifteenC, Yosemite::FiveFifteenD],
    {
        vec![Yosemite::One, Yosemite::Two, Yosemite::Three, Yosemite::Four, Yosemite::FiveZero, Yosemite::FiveOne, Yosemite::FiveTwo, Yosemite::FiveThree, Yosemite::FiveFour, Yosemite::FiveFive, Yosemite::FiveSix, Yosemite::FiveSeven, Yosemite::FiveEight, Yosemite::FiveNine, Yosemite::FiveTenA, Yosemite::FiveTenB, Yosemite::FiveTenC, Yosemite::FiveTenD, Yosemite::FiveElevenA, Yosemite::FiveElevenB, Yosemite::FiveElevenC, Yosemite::FiveElevenD, Yosemite::FiveTwelveA, Yosemite::FiveTwelveB, Yosemite::FiveTwelveC, Yosemite::FiveTwelveD, Yosemite::FiveThirteenA, Yosemite::FiveThirteenB, Yosemite::FiveThirteenC, Yosemite::FiveThirteenD, Yosemite::FiveFourteenA, Yosemite::FiveFourteenB, Yosemite::FiveFourteenC, Yosemite::FiveFourteenD, Yosemite::FiveFifteenA, Yosemite::FiveFifteenB, Yosemite::FiveFifteenC, Yosemite::FiveFifteenD]
    }
}

/// A Fontainebleau boulder grade, easiest first.
#[derive(Clone, Copy, Debug, PartialEq, Eq, Structural, Default, PartialOrd)]
pub enum Font {
    OneMinus,
    One,
    OnePlus,
    TwoMinus,
    Two,
    TwoPlus,
    ThreeMinus,
    #[default]
    Three,
    ThreePlus,
    FourMinus,
    Four,
    FourPlus,
    FiveMinus,
    Five,
    FivePlus,
    SixAMinus,
    SixA,
    SixAPlus,
    SixBMinus,
    SixB,
    SixBPlus,
    SixCMinus,
    SixC,
    SixCPlus,
    SevenAMinus,
    SevenA,
    SevenAPlus,
    SevenBMinus,
    SevenB,
    SevenBPlus,
    SevenCMinus,
    SevenC,
    SevenCPlus,
    EightAMinus,
    EightA,
    EightAPlus,
    EightBMinus,
    EightB,
    EightBPlus,
    EightCMinus,
    EightC,
    EightCPlus,
    NineAMinus,
    NineA,
    NineAPlus,
    NineBMinus,
    NineB,
    NineBPlus,
    NineCMinus,
    NineC,
    NineCPlus,
}

/// How `g` is written.
pub open spec fn font_text(g: Font) -> Seq<char> {
    match g {
        Font::OneMinus => "1-"@,
        Font::One => "1"@,
        Font::OnePlus => "1+"@,
        Font::TwoMinus => "2-"@,
        Font::Two => "2"@,
        Font::TwoPlus => "2+"@,
        Font::ThreeMinus => "3-"@,
        Font::Three => "3"@,
        Font::ThreePlus => "3+"@,
        Font::FourMinus => "4-"@,
        Font::Four => "4"@,
        Font::FourPlus => "4+"@,
        Font::FiveMinus => "5-"@,
        Font::Five => "5"@,
        Font::FivePlus => "5+"@,
        Font::SixAMinus => "6A-"@,
        Font::SixA => "6A"@,
        Font::SixAPlus => "6A+"@,
        Font::SixBMinus => "6B-"@,
        Font::SixB => "6B"@,
        Font::SixBPlus => "6B+"@,
        Font::SixCMinus => "6C-"@,
        Font::SixC => "6C"@,
        Font::SixCPlus => "6C+"@,
        Font::SevenAMinus => "7A-"@,
        Font::SevenA => "7A"@,
        Font::SevenAPlus => "7A+"@,
        Font::SevenBMinus => "7B-"@,
        Font::SevenB => "7B"@,
        Font::SevenBPlus => "7B+"@,
        Font::SevenCMinus => "7C-"@,
        Font::SevenC => "7C"@,
        Font::SevenCPlus => "7C+"@,
        Font::EightAMinus => "8A-"@,
        Font::EightA => "8A"@,
        Font::EightAPlus => "8A+"@,
        Font::EightBMinus => "8B-"@,
        Font::EightB => "8B"@,
        Font::EightBPlus => "8B+"@,
        Font::EightCMinus => "8C-"@,
        Font::EightC => "8C"@,
        Font::EightCPlus => "8C+"@,
        Font::NineAMinus => "9A-"@,
        Font::NineA => "9A"@,
        Font::NineAPlus => "9A+"@,
        Font::NineBMinus => "9B-"@,
        Font::NineB => "9B"@,
        Font::NineBPlus => "9B+"@,
        Font::NineCMinus => "9C-"@,
        Font::NineC => "9C"@,
        Font::NineCPlus => "9C+"@,
    }
}

/// The Fontainebleau grade nearest to V-grade `g`. Grades above V10 give 5.
pub open spec fn font_of_hueco(g: Hueco) -> Font {
    match g {
        Hueco::Vb => Font::Five,
        Hueco::V0Minus => Font::FivePlus,
        Hueco::V0 => Font::SixAMinus,
        Hueco::V0Plus => Font::SixA,
        Hueco::V1Minus => Font::SixAPlus,
        Hueco::V1 => Font::SixBMinus,
        Hueco::V1Plus => Font::SixB,
        Hueco::V2Minus => Font::SixBPlus,
        Hueco::V2 => Font::SixCMinus,
        Hueco::V2Plus => Font::SixC,
        Hueco::V3Minus => Font::SixCPlus,
        Hueco::V3 => Font::SevenAMinus,
        Hueco::V3Plus => Font::SevenA,
        Hueco::V4Minus => Font::SevenAPlus,
        Hueco::V4 => Font::SevenBMinus,
        Hueco::V4Plus => Font::SevenB,
        Hueco::V5Minus => Font::SevenBPlus,
        Hueco::V5 => Font::SevenCMinus,
        Hueco::V5Plus => Font::SevenC,
        Hueco::V6Minus => Font::SevenCPlus,
        Hueco::V6 => Font::EightAMinus,
        Hueco::V6Plus => Font::EightA,
        Hueco::V7Minus => Font::EightAPlus,
        Hueco::V7 => Font::EightBMinus,
        Hueco::V7Plus => Font::EightB,
        Hueco::V8Minus => Font::EightBPlus,
        Hueco::V8 => Font::EightCMinus,
        Hueco::V8Plus => Font::EightC,
        Hueco::V9Minus => Font::EightCPlus,
        Hueco::V9 => Font::NineAMinus,
        Hueco::V9Plus => Font::NineA,
        Hueco::V10Minus => Font::NineAPlus,
        Hueco::V10 => Font::NineBMinus,
        Hueco::Ungraded => Font::NineB,
        _ => Font::Five,
    }
}

impl Font {
    /// How the value is written.
    pub fn label(&self) -> (text: String)
        ensures
            text@ == font_text(*self),
    {
        match self {
            Font::OneMinus => String::from_str("1-"),
            Font::One => String::from_str("1"),
            Font::OnePlus => String::from_str("1+"),
            Font::TwoMinus => String::from_str("2-"),
            Font::Two => String::from_str("2"),
            Font::TwoPlus => String::from_str("2+"),
            Font::ThreeMinus => String::from_str("3-"),
            Font::Three => String::from_str("3"),
            Font::ThreePlus => String::from_str("3+"),
            Font::FourMinus => String::from_str("4-"),
            Font::Four => String::from_str("4"),
            Font::FourPlus => String::from_str("4+"),
            Font::FiveMinus => String::from_str("5-"),
            Font::Five => String::from_str("5"),
            Font::FivePlus => String::from_str("5+"),
            Font::SixAMinus => String::from_str("6A-"),
            Font::SixA => String::from_str("6A"),
            Font::SixAPlus => String::from_str("6A+"),
            Font::SixBMinus => String::from_str("6B-"),
            Font::SixB => String::from_str("6B"),
            Font::SixBPlus => String::from_str("6B+"),
            Font::SixCMinus => String::from_str("6C-"),
            Font::SixC => String::from_str("6C"),
            Font::SixCPlus => String::from_str("6C+"),
            Font::SevenAMinus => String::from_str("7A-"),
            Font::SevenA => String::from_str("7A"),
            Font::SevenAPlus => String::from_str("7A+"),
            Font::SevenBMinus => String::from_str("7B-"),
            Font::SevenB => String::from_str("7B"),
            Font::SevenBPlus => String::from_str("7B+"),
            Font::SevenCMinus => String::from_str("7C-"),
            Font::SevenC => String::from_str("7C"),
            Font::SevenCPlus => String::from_str("7C+"),
            Font::EightAMinus => String::from_str("8A-"),
            Font::EightA => String::from_str("8A"),
            Font::EightAPlus => String::from_str("8A+"),
            Font::EightBMinus => String::from_str("8B-"),
            Font::EightB => String::from_str("8B"),
            Font::EightBPlus => String::from_str("8B+"),
            Font::EightCMinus => String::from_str("8C-"),
            Font::EightC => String::from_str("8C"),
            Font::EightCPlus => String::from_str("8C+"),
            Font::NineAMinus => String::from_str("9A-"),
            Font::NineA => String::from_str("9A"),
            Font::NineAPlus => String::from_str("9A+"),
            Font::NineBMinus => String::from_str("9B-"),
            Font::NineB => String::from_str("9B"),
            Font::NineBPlus => String::from_str("9B+"),
            Font::NineCMinus => String::from_str("9C-"),
            Font::NineC => String::from_str("9C"),
            Font::NineCPlus => String::from_str("9C+"),
        }
    }

    /// The values offered for selection, in order.
    pub fn iter() -> (all: Vec<Font>)
        ensures
            all@ == seq![Font::OneMinus, Font::One, Font::OnePlus, Font::TwoMinus, Font::Two, Font::TwoPlus, Font::ThreeMinus, Font::Three, Font::ThreePlus, Font::FourMinus, Font::Four, Font::FourPlus, Font::FiveMinus, Font::Five, Font::FivePlus, Font::SixAMinus, Font::SixA, Font::SixAPlus, Font::SixBMinus, Font::SixB, Font::SixBPlus, Font::SixCMinus, Font::SixC, Font::SixCPlus, Font::SevenAMinus, Font::SevenA, Font::SevenAPlus, Font::SevenBMinus, Font::SevenB, Font::SevenBPlus, Font::SevenCMinus, Font::SevenC, Font::SevenCPlus, Font::EightAMinus, Font::EightA, Font::EightAPlus, Font::EightBMinus, Font::EightB, Font::EightBPlus, Font::EightCMinus, Font::EightC, Font::EightCPlus, Font::NineAMinus, Font::NineA, Font::NineAPlus, Font::NineBMinus, Font::NineB, Font::NineBPlus, Font::NineCMinus, Font::NineC, Font::NineCPlus],
    {
        vec![Font::OneMinus, Font::One, Font::OnePlus, Font::TwoMinus, Font::Two, Font::TwoPlus, Font::ThreeMinus, Font::Three, Font::ThreePlus, Font::FourMinus, Font::Four, Font::FourPlus, Font::FiveMinus, Font::Five, Font::FivePlus, Font::SixAMinus, Font::SixA, Font::SixAPlus, Font::SixBMinus, Font::SixB, Font::SixBPlus, Font::SixCMinus, Font::SixC, Font::SixCPlus, Font::SevenAMinus, Font::SevenA, Font::SevenAPlus, Font::SevenBMinus, Font::SevenB, Font::SevenBPlus, Font::SevenCMinus, Font::SevenC, Font::SevenCPlus, Font::EightAMinus, Font::EightA, Font::EightAPlus, Font::EightBMinus, Font::EightB, Font::EightBPlus, Font::EightCMinus, Font::EightC, Font::EightCPlus, Font::NineAMinus, Font::NineA, Font::NineAPlus, Font::NineBMinus, Font::NineB, Font::NineBPlus, Font::NineCMinus, Font::NineC, Font::NineCPlus]
    }
}

/// A Hueco (V-scale) boulder grade, easiest first; `Ungraded` for no grade.
#[derive(Clone, Copy, Debug, PartialEq, Eq, Structural, Default, PartialOrd)]
pub enum Hueco {
    Vb,
    V0Minus,
    #[default]
    V0,
    V0Plus,
    V1Minus,
    V1,
    V1Plus,
    V2Minus,
    V2,
    V2Plus,
    V3Minus,
    V3,
    V3Plus,
    V4Minus,
    V4,
    V4Plus,
    V5Minus,
    V5,
    V5Plus,
    V6Minus,
    V6,
    V6Plus,
    V7Minus,
    V7,
    V7Plus,
    V8Minus,
    V8,
    V8Plus,
    V9Minus,
    V9,
    V9Plus,
    V10Minus,
    V10,
    V10Plus,
    V11Minus,
    V11,
    V11Plus,
    V12Minus,
    V12,
    V12Plus,
    V13Minus,
    V13,
    V13Plus,
    V14Minus,
    V14,
    V14Plus,
    V15Minus,
    V15,
    V15Plus,
    V16Minus,
    V16,
    V16Plus,
    V17Minus,
    V17,
    V17Plus,
    Ungraded,
}

/// How `g` is written.
pub open spec fn hueco_text(g: Hueco) -> Seq<char> {
    match g {
        Hueco::Vb => "VB"@,
        Hueco::V0Minus => "V0-"@,
        Hueco::V0 => "V0"@,
        Hueco::V0Plus => "V0+"@,
        Hueco::V1Minus => "V1-"@,
        Hueco::V1 => "V1"@,
        Hueco::V1Plus => "V1+"@,
        Hueco::V2Minus => "V2-"@,
        Hueco::V2 => "V2"@,
        Hueco::V2Plus => "V2+"@,
        Hueco::V3Minus => "V3-"@,
        Hueco::V3 => "V3"@,
        Hueco::V3Plus => "V3+"@,
        Hueco::V4Minus => "V4-"@,
        Hueco::V4 => "V4"@,
        Hueco::V4Plus => "V4+"@,
        Hueco::V5Minus => "V5-"@,
        Hueco::V5 => "V5"@,
        Hueco::V5Plus => "V5+"@,
        Hueco::V6Minus => "V6-"@,
        Hueco::V6 => "V6"@,
        Hueco::V6Plus => "V6+"@,
        Hueco::V7Minus => "V7-"@,
        Hueco::V7 => "V7"@,
        Hueco::V7Plus => "V7+"@,
        Hueco::V8Minus => "V8-"@,
        Hueco::V8 => "V8"@,
        Hueco::V8Plus => "V8+"@,
        Hueco::V9Minus => "V9-"@,
        Hueco::V9 => "V9"@,
        Hueco::V9Plus => "V9+"@,
        Hueco::V10Minus => "V10-"@,
        Hueco::V10 => "V10"@,
        Hueco::V10Plus => "V10+"@,
        Hueco::V11Minus => "V11-"@,
        Hueco::V11 => "V11"@,
        Hueco::V11Plus => "V11+"@,
        Hueco::V12Minus => "V12-"@,
        Hueco::V12 => "V12"@,
        Hueco::V12Plus => "V12+"@,
        Hueco::V13Minus => "V13-"@,
        Hueco::V13 => "V13"@,
        Hueco::V13Plus => "V13+"@,
        Hueco::V14Minus => "V14-"@,
        Hueco::V14 => "V14"@,
        Hueco::V14Plus => "V14+"@,
        Hueco::V15Minus => "V15-"@,
        Hueco::V15 => "V15"@,
        Hueco::V15Plus => "V15+"@,
        Hueco::V16Minus => "V16-"@,
        Hueco::V16 => "V16"@,
        Hueco::V16Plus => "V16+"@,
        Hueco::V17Minus => "V17-"@,
        Hueco::V17 => "V17"@,
        Hueco::V17Plus => "V17+"@,
        Hueco::Ungraded => "None"@,
    }
}

/// The V-grade at position `g` of the scale, -1 being VB; a number outside
/// the scale gives `Ungraded`.
pub open spec fn hueco_of_number(g: i32) -> Hueco {
    match g {
        -1 => Hueco::Vb,
        0 => Hueco::V0Minus,
        1 => Hueco::V0,
        2 => Hueco::V0Plus,
        3 => Hueco::V1Minus,
        4 => Hueco::V1,
        5 => Hueco::V1Plus,
        6 => Hueco::V2Minus,
        7 => Hueco::V2,
        8 => Hueco::V2Plus,
        9 => Hueco::V3Minus,
        10 => Hueco::V3,
        11 => Hueco::V3Plus,
        12 => Hueco::V4Minus,
        13 => Hueco::V4,
        14 => Hueco::V4Plus,
        15 => Hueco::V5Minus,
        16 => Hueco::V5,
        17 => Hueco::V5Plus,
        18 => Hueco::V6Minus,
        19 => Hueco::V6,
        20 => Hueco::V6Plus,
        21 => Hueco::V7Minus,
        22 => Hueco::V7,
        23 => Hueco::V7Plus,
        24 => Hueco::V8Minus,
        25 => Hueco::V8,
        26 => Hueco::V8Plus,
        27 => Hueco::V9Minus,
        28 => Hueco::V9,
        29 => Hueco::V9Plus,
        30 => Hueco::V10Minus,
        31 => Hueco::V10,
        32 => Hueco::V10Plus,
        33 => Hueco::V11Minus,
        34 => Hueco::V11,
        35 => Hueco::V11Plus,
        36 => Hueco::V12Minus,
        37 => Hueco::V12,
        38 => Hueco::V12Plus,
        39 => Hueco::V13Minus,
        40 => Hueco::V13,
        41 => Hueco::V13Plus,
        42 => Hueco::V14Minus,
        43 => Hueco::V14,
        44 => Hueco::V14Plus,
        45 => Hueco::V15Minus,
        46 => Hueco::V15,
        47 => Hueco::V15Plus,
        48 => Hueco::V16Minus,
        49 => Hueco::V16,
        50 => Hueco::V16Plus,
        51 => Hueco::V17Minus,
        52 => Hueco::V17,
        53 => Hueco::V17Plus,
        _ => Hueco::Ungraded,
    }
}

/// The V-grade written as `g`; text that writes none gives V0.
pub open spec fn hueco_of_text(g: String) -> Hueco {
    if g@ == "VB"@ {
        Hueco::Vb
    } else if g@ == "V0-"@ {
        Hueco::V0Minus
    } else if g@ == "V0"@ {
        Hueco::V0
    } else if g@ == "V0+"@ {
        Hueco::V0Plus
    } else if g@ == "V1-"@ {
        Hueco::V1Minus
    } else if g@ == "V1"@ {
        Hueco::V1
    } else if g@ == "V1+"@ {
        Hueco::V1Plus
    } else if g@ == "V2-"@ {
        Hueco::V2Minus
    } else if g@ == "V2"@ {
        Hueco::V2
    } else if g@ == "V2+"@ {
        Hueco::V2Plus
    } else if g@ == "V3-"@ {
        Hueco::V3Minus
    } else if g@ == "V3"@ {
        Hueco::V3
    } else if g@ == "V3+"@ {
        Hueco::V3Plus
    } else if g@ == "V4-"@ {
        Hueco::V4Minus
    } else if g@ == "V4"@ {
        Hueco::V4
    } else if g@ == "V4+"@ {
        Hueco::V4Plus
    } else if g@ == "V5-"@ {
        Hueco::V5Minus
    } else if g@ == "V5"@ {
        Hueco::V5
    } else if g@ == "V5+"@ {
        Hueco::V5Plus
    } else if g@ == "V6-"@ {
        Hueco::V6Minus
    } else if g@ == "V6"@ {
        Hueco::V6
    } else if g@ == "V6+"@ {
        Hueco::V6Plus
    } else if g@ == "V7-"@ {
        Hueco::V7Minus
    } else if g@ == "V7"@ {
        Hueco::V7
    } else if g@ == "V7+"@ {
        Hueco::V7Plus
    } else if g@ == "V8-"@ {
        Hueco::V8Minus
    } else if g@ == "V8"@ {
        Hueco::V8
    } else if g@ == "V8+"@ {
        Hueco::V8Plus
    } else if g@ == "V9-"@ {
        Hueco::V9Minus
    } else if g@ == "V9"@ {
        Hueco::V9
    } else if g@ == "V9+"@ {
        Hueco::V9Plus
    } else if g@ == "V10-"@ {
        Hueco::V10Minus
    } else if g@ == "V10"@ {
        Hueco::V10
    } else if g@ == "V10+"@ {
        Hueco::V10Plus
    } else if g@ == "V11-"@ {
        Hueco::V11Minus
    } else if g@ == "V11"@ {
        Hueco::V11
    } else if g@ == "V11+"@ {
        Hueco::V11Plus
    } else if g@ == "V12-"@ {
        Hueco::V12Minus
    } else if g@ == "V12"@ {
        Hueco::V12
    } else if g@ == "V12+"@ {
        Hueco::V12Plus
    } else if g@ == "V13-"@ {
        Hueco::V13Minus
    } else if g@ == "V13"@ {
        Hueco::V13
    } else if g@ == "V13+"@ {
        Hueco::V13Plus
    } else if g@ == "V14-"@ {
        Hueco::V14Minus
    } else if g@ == "V14"@ {
        Hueco::V14
    } else if g@ == "V14+"@ {
        Hueco::V14Plus
    } else if g@ == "V15-"@ {
        Hueco::V15Minus
    } else if g@ == "V15"@ {
        Hueco::V15
    } else if g@ == "V15+"@ {
        Hueco::V15Plus
    } else if g@ == "V16-"@ {
        Hueco::V16Minus
    } else if g@ == "V16"@ {
        Hueco::V16
    } else if g@ == "V16+"@ {
        Hueco::V16Plus
    } else if g@ == "V17-"@ {
        Hueco::V17Minus
    } else if g@ == "V17"@ {
        Hueco::V17
    } else if g@ == "V17+"@ {
        Hueco::V17Plus
    } else if g@ == "None"@ {
        Hueco::Ungraded
    } else {
        Hueco::V0
    }
}

/// The V-grade nearest to Fontainebleau grade `g`.
pub open spec fn hueco_of_font(g: Font) -> Hueco {
    match g {
        Font::OneMinus => Hueco::V0Minus,
        Font::One => Hueco::V0,
        Font::OnePlus => Hueco::V0Plus,
        Font::TwoMinus => Hueco::V1Minus,
        Font::Two => Hueco::V1,
        Font::TwoPlus => Hueco::V1Plus,
        Font::ThreeMinus => Hueco::V2Minus,
        Font::Three => Hueco::V2,
        Font::ThreePlus => Hueco::V2Plus,
        Font::FourMinus => Hueco::V3Minus,
        Font::Four => Hueco::V3,
        Font::FourPlus => Hueco::V3Plus,
        Font::FiveMinus => Hueco::V4Minus,
        Font::Five => Hueco::V4,
        Font::FivePlus => Hueco::V4Plus,
        Font::SixAMinus => Hueco::V5Minus,
        Font::SixA => Hueco::V5,
        Font::SixAPlus => Hueco::V5Plus,
        Font::SixBMinus => Hueco::V6Minus,
        Font::SixB => Hueco::V6,
        Font::SixBPlus => Hueco::V6Plus,
        Font::SixCMinus => Hueco::V7Minus,
        Font::SixC => Hueco::V7,
        Font::SixCPlus => Hueco::V7Plus,
        Font::SevenAMinus => Hueco::V8Minus,
        Font::SevenA => Hueco::V8,
        Font::SevenAPlus => Hueco::V8Plus,
        Font::SevenBMinus => Hueco::V9Minus,
        Font::SevenB => Hueco::V9,
        Font::SevenBPlus => Hueco::V9Plus,
        Font::SevenCMinus => Hueco::V10Minus,
        Font::SevenC => Hueco::V10,
        Font::SevenCPlus => Hueco::V10Plus,
        Font::EightAMinus => Hueco::V11Minus,
        Font::EightA => Hueco::V11,
        Font::EightAPlus => Hueco::V11Plus,
        Font::EightBMinus => Hueco::V12Minus,
        Font::EightB => Hueco::V12,
        Font::EightBPlus => Hueco::V12Plus,
        Font::EightCMinus => Hueco::V13Minus,
        Font::EightC => Hueco::V13,
        Font::EightCPlus => Hueco::V13Plus,
        Font::NineAMinus => Hueco::V14Minus,
        Font::NineA => Hueco::V14,
        Font::NineAPlus => Hueco::V14Plus,
        Font::NineBMinus => Hueco::V15Minus,
        Font::NineB => Hueco::V15,
        Font::NineBPlus => Hueco::V15Plus,
        Font::NineCMinus => Hueco::V16Minus,
        Font::NineC => Hueco::V16,
        Font::NineCPlus => Hueco::V16Plus,
    }
}

impl Hueco {
    /// How the value is written.
    pub fn label(&self) -> (text: String)
        ensures
            text@ == hueco_text(*self),
    {
        match self {
            Hueco::Vb => String::from_str("VB"),
            Hueco::V0Minus => String::from_str("V0-"),
            Hueco::V0 => String::from_str("V0"),
            Hueco::V0Plus => String::from_str("V0+"),
            Hueco::V1Minus => String::from_str("V1-"),
            Hueco::V1 => String::from_str("V1"),
            Hueco::V1Plus => String::from_str("V1+"),
            Hueco::V2Minus => String::from_str("V2-"),
            Hueco::V2 => String::from_str("V2"),
            Hueco::V2Plus => String::from_str("V2+"),
            Hueco::V3Minus => String::from_str("V3-"),
            Hueco::V3 => String::from_str("V3"),
            Hueco::V3Plus => String::from_str("V3+"),
            Hueco::V4Minus => String::from_str("V4-"),
            Hueco::V4 => String::from_str("V4"),
            Hueco::V4Plus => String::from_str("V4+"),
            Hueco::V5Minus => String::from_str("V5-"),
            Hueco::V5 => String::from_str("V5"),
            Hueco::V5Plus => String::from_str("V5+"),
            Hueco::V6Minus => String::from_str("V6-"),
            Hueco::V6 => String::from_str("V6"),
            Hueco::V6Plus => String::from_str("V6+"),
            Hueco::V7Minus => String::from_str("V7-"),
            Hueco::V7 => String::from_str("V7"),
            Hueco::V7Plus => String::from_str("V7+"),
            Hueco::V8Minus => String::from_str("V8-"),
            Hueco::V8 => String::from_str("V8"),
            Hueco::V8Plus => String::from_str("V8+"),
            Hueco::V9Minus => String::from_str("V9-"),
            Hueco::V9 => String::from_str("V9"),
            Hueco::V9Plus => String::from_str("V9+"),
            Hueco::V10Minus => String::from_str("V10-"),
            Hueco::V10 => String::from_str("V10"),
            Hueco::V10Plus => String::from_str("V10+"),
            Hueco::V11Minus => String::from_str("V11-"),
            Hueco::V11 => String::from_str("V11"),
            Hueco::V11Plus => String::from_str("V11+"),
            Hueco::V12Minus => String::from_str("V12-"),
            Hueco::V12 => String::from_str("V12"),
            Hueco::V12Plus => String::from_str("V12+"),
            Hueco::V13Minus => String::from_str("V13-"),
            Hueco::V13 => String::from_str("V13"),
            Hueco::V13Plus => String::from_str("V13+"),
            Hueco::V14Minus => String::from_str("V14-"),
            Hueco::V14 => String::from_str("V14"),
            Hueco::V14Plus => String::from_str("V14+"),
            Hueco::V15Minus => String::from_str("V15-"),
            Hueco::V15 => String::from_str("V15"),
            Hueco::V15Plus => String::from_str("V15+"),
            Hueco::V16Minus => String::from_str("V16-"),
            Hueco::V16 => String::from_str("V16"),
            Hueco::V16Plus => String::from_str("V16+"),
            Hueco::V17Minus => String::from_str("V17-"),
            Hueco::V17 => String::from_str("V17"),
            Hueco::V17Plus => String::from_str("V17+"),
            Hueco::Ungraded => String::from_str("None"),
        }
    }

    /// The values offered for selection, in order.
    pub fn iter() -> (all: Vec<Hueco>)
        ensures
            all@ == seq![Hueco::Vb, Hueco::V0Minus, Hueco::V0, Hueco::V0Plus, Hueco::V1Minus, Hueco::V1, Hueco::V1Plus, Hueco::V2Minus, Hueco::V2, Hueco::V2Plus, Hueco::V3Minus, Hueco::V3, Hueco::V3Plus, Hueco::V4Minus, Hueco::V4, Hueco::V4Plus, Hueco::V5Minus, Hueco::V5, Hueco::V5Plus, Hueco::V6Minus, Hueco::V6, Hueco::V6Plus, Hueco::V7Minus, Hueco::V7, Hueco::V7Plus, Hueco::V8Minus, Hueco::V8, Hueco::V8Plus, Hueco::V9Minus, Hueco::V9, Hueco::V9Plus, Hueco::V10Minus, Hueco::V10, Hueco::V10Plus, Hueco::V11Minus, Hueco::V11, Hueco::V11Plus, Hueco::V12Minus, Hueco::V12, Hueco::V12Plus, Hueco::V13Minus, Hueco::V13, Hueco::V13Plus, Hueco::V14Minus, Hueco::V14, Hueco::V14Plus, Hueco::V15Minus, Hueco::V15, Hueco::V15Plus, Hueco::V16Minus, Hueco::V16, Hueco::V16Plus, Hueco::V17Minus, Hueco::V17, Hueco::V17Plus],
    {
        vec![Hueco::Vb, Hueco::V0Minus, Hueco::V0, Hueco::V0Plus, Hueco::V1Minus, Hueco::V1, Hueco::V1Plus, Hueco::V2Minus, Hueco::V2, Hueco::V2Plus, Hueco::V3Minus, Hueco::V3, Hueco::V3Plus, Hueco::V4Minus, Hueco::V4, Hueco::V4Plus, Hueco::V5Minus, Hueco::V5, Hueco::V5Plus, Hueco::V6Minus, Hueco::V6, Hueco::V6Plus, Hueco::V7Minus, Hueco::V7, Hueco::V7Plus, Hueco::V8Minus, Hueco::V8, Hueco::V8Plus, Hueco::V9Minus, Hueco::V9, Hueco::V9Plus, Hueco::V10Minus, Hueco::V10, Hueco::V10Plus, Hueco::V11Minus, Hueco::V11, Hueco::V11Plus, Hueco::V12Minus, Hueco::V12, Hueco::V12Plus, Hueco::V13Minus, Hueco::V13, Hueco::V13Plus, Hueco::V14Minus, Hueco::V14, Hueco::V14Plus, Hueco::V15Minus, Hueco::V15, Hueco::V15Plus, Hueco::V16Minus, Hueco::V16, Hueco::V16Plus, Hueco::V17Minus, Hueco::V17, Hueco::V17Plus]
    }
}

/// A French sport grade, easiest first.
#[derive(Clone, Copy, Debug, PartialEq, Eq, Structural, Default, PartialOrd)]
pub enum French {
    One,
    Two,
    Three,
    FourA,
    FourB,
    FourC,
    FiveA,
    FiveB,
    FiveC,
    #[default]
    SixAMinus,
    SixA,
    SixAPlus,
    SixBMinus,
    SixB,
    SixBPlus,
    SixCMinus,
    SixC,
    SixCPlus,
    SevenAMinus,
    SevenA,
    SevenAPlus,
    SevenBMinus,
    SevenB,
    SevenBPlus,
    SevenCMinus,
    SevenC,
    SevenCPlus,
    EightAMinus,
    EightA,
    EightAPlus,
    EightBMinus,
    EightB,
    EightBPlus,
    EightCMinus,
    EightC,
    EightCPlus,
    NineAMinus,
    NineA,
    NineAPlus,
    NineBMinus,
    NineB,
    NineBPlus,
    NineCMinus,
    NineC,
    NineCPlus,
}

/// How `g` is written.
pub open spec fn french_text(g: French) -> Seq<char> {
    match g {
        French::One => "1"@,
        French::Two => "2"@,
        French::Three => "3"@,
        French::FourA => "4a"@,
        French::FourB => "4b"@,
        French::FourC => "4c"@,
        French::FiveA => "5a"@,
        French::FiveB => "5b"@,
        French::FiveC => "5c"@,
        French::SixAMinus => "6a-"@,
        French::SixA => "6a"@,
        French::SixAPlus => "6a+"@,
        French::SixBMinus => "6b-"@,
        French::SixB => "6b"@,
        French::SixBPlus => "6b+"@,
        French::SixCMinus => "6c-"@,
        French::SixC => "6c"@,
        French::SixCPlus => "6c+"@,
        French::SevenAMinus => "7a-"@,
        French::SevenA => "7a"@,
        French::SevenAPlus => "7a+"@,
        French::SevenBMinus => "7b-"@,
        French::SevenB => "7b"@,
        French::SevenBPlus => "7b+"@,
        French::SevenCMinus => "7c-"@,
        French::SevenC => "7c"@,
        French::SevenCPlus => "7c+"@,
        French::EightAMinus => "8a-"@,
        French::EightA => "8a"@,
        French::EightAPlus => "8a+"@,
        French::EightBMinus => "8b-"@,
        French::EightB => "8b"@,
        French::EightBPlus => "8b+"@,
        French::EightCMinus => "8c-"@,
        French::EightC => "8c"@,
        French::EightCPlus => "8c+"@,
        French::NineAMinus => "9a-"@,
        French::NineA => "9a"@,
        French::NineAPlus => "9a+"@,
        French::NineBMinus => "9b-"@,
        French::NineB => "9b"@,
        French::NineBPlus => "9b+"@,
        French::NineCMinus => "9c-"@,
        French::NineC => "9c"@,
        French::NineCPlus => "9c+"@,
    }
}

/// The French grade nearest to Yosemite grade `g`; `Ungraded` gives 6c.
pub open spec fn french_of_yosemite(g: Yosemite) -> French {
    match g {
        Yosemite::One => French::One,
        Yosemite::Two => French::One,
        Yosemite::Three => French::One,
        Yosemite::Four => French::One,
        Yosemite::FiveZero => French::One,
        Yosemite::FiveOne => French::One,
        Yosemite::FiveTwo => French::One,
        Yosemite::FiveThree => French::Two,
        Yosemite::FiveFour => French::Three,
        Yosemite::FiveFive => French::FourB,
        Yosemite::FiveSix => French::FiveA,
        Yosemite::FiveSeven => French::FiveB,
        Yosemite::FiveEight => French::FiveC,
        Yosemite::FiveNine => French::SixAMinus,
        Yosemite::FiveTenA => French::SixA,
        Yosemite::FiveTenB => French::SixAPlus,
        Yosemite::FiveTenC => French::SixBMinus,
        Yosemite::FiveTenD => French::SixBPlus,
        Yosemite::FiveElevenA => French::SixCMinus,
        Yosemite::FiveElevenB => French::SixCPlus,
        Yosemite::FiveElevenC => French::SevenA,
        Yosemite::FiveElevenD => French::SevenAPlus,
        Yosemite::FiveTwelveA => French::SevenB,
        Yosemite::FiveTwelveB => French::SevenBPlus,
        Yosemite::FiveTwelveC => French::SevenCMinus,
        Yosemite::FiveTwelveD => French::SevenCPlus,
        Yosemite::FiveThirteenA => French::EightAMinus,
        Yosemite::FiveThirteenB => French::EightA,
        Yosemite::FiveThirteenC => French::EightAPlus,
        Yosemite::FiveThirteenD => French::EightBMinus,
        Yosemite::FiveFourteenA => French::EightBPlus,
        Yosemite::FiveFourteenB => French::EightC,
        Yosemite::FiveFourteenC => French::EightCPlus,
        Yosemite::FiveFourteenD => French::NineAMinus,
        Yosemite::FiveFifteenA => French::NineAPlus,
        Yosemite::FiveFifteenB => French::NineB,
        Yosemite::FiveFifteenC => French::NineBPlus,
        Yosemite::FiveFifteenD => French::NineC,
        _ => French::SixC,
    }
}

/// The French grade nearest to UIAA grade `g`.
pub open spec fn french_of_uiaa(g: Uiaa) -> French {
    match g {
        Uiaa::I => French::One,
        Uiaa::Ii => French::Two,
        Uiaa::Iii => French::Three,
        Uiaa::IvMinus => French::FourA,
        Uiaa::Iv => French::FourB,
        Uiaa::IvPlus => French::FourC,
        Uiaa::VMinus => French::FiveA,
        Uiaa::V => French::FiveB,
        Uiaa::VPlus => French::FiveC,
        Uiaa::ViMinus => French::SixAMinus,
        Uiaa::Vi => French::SixA,
        Uiaa::ViPlus => French::SixAPlus,
        Uiaa::ViiMinus => French::SixBMinus,
        Uiaa::Vii => French::SixB,
        Uiaa::ViiPlus => French::SixBPlus,
        Uiaa::ViiiMinus => French::SixCMinus,
        Uiaa::Viii => French::SixC,
        Uiaa::ViiiPlus => French::SixCPlus,
        Uiaa::IxMinus => French::SevenAMinus,
        Uiaa::Ix => French::SevenA,
        Uiaa::IxPlus => French::SevenAPlus,
        Uiaa::XMinus => French::SevenBMinus,
        Uiaa::X => French::SevenB,
        Uiaa::XPlus => French::SevenBPlus,
        Uiaa::XiMinus => French::SevenCMinus,
        Uiaa::Xi => French::SevenC,
        Uiaa::XiPlus => French::SevenCPlus,
        Uiaa::XiiMinus => French::EightAMinus,
        Uiaa::Xii => French::EightA,
        Uiaa::XiiPlus => French::EightAPlus,
    }
}

impl French {
    /// How the value is written.
    pub fn label(&self) -> (text: String)
        ensures
            text@ == french_text(*self),
    {
        match self {
            French::One => String::from_str("1"),
            French::Two => String::from_str("2"),
            French::Three => String::from_str("3"),
            French::FourA => String::from_str("4a"),
            French::FourB => String::from_str("4b"),
            French::FourC => String::from_str("4c"),
            French::FiveA => String::from_str("5a"),
            French::FiveB => String::from_str("5b"),
            French::FiveC => String::from_str("5c"),
            French::SixAMinus => String::from_str("6a-"),
            French::SixA => String::from_str("6a"),
            French::SixAPlus => String::from_str("6a+"),
            French::SixBMinus => String::from_str("6b-"),
            French::SixB => String::from_str("6b"),
            French::SixBPlus => String::from_str("6b+"),
            French::SixCMinus => String::from_str("6c-"),
            French::SixC => String::from_str("6c"),
            French::SixCPlus => String::from_str("6c+"),
            French::SevenAMinus => String::from_str("7a-"),
            French::SevenA => String::from_str("7a"),
            French::SevenAPlus => String::from_str("7a+"),
            French::SevenBMinus => String::from_str("7b-"),
            French::SevenB => String::from_str("7b"),
            French::SevenBPlus => String::from_str("7b+"),
            French::SevenCMinus => String::from_str("7c-"),
            French::SevenC => String::from_str("7c"),
            French::SevenCPlus => String::from_str("7c+"),
            French::EightAMinus => String::from_str("8a-"),
            French::EightA => String::from_str("8a"),
            French::EightAPlus => String::from_str("8a+"),
            French::EightBMinus => String::from_str("8b-"),
            French::EightB => String::from_str("8b"),
            French::EightBPlus => String::from_str("8b+"),
            French::EightCMinus => String::from_str("8c-"),
            French::EightC => String::from_str("8c"),
            French::EightCPlus => String::from_str("8c+"),
            French::NineAMinus => String::from_str("9a-"),
            French::NineA => String::from_str("9a"),
            French::NineAPlus => String::from_str("9a+"),
            French::NineBMinus => String::from_str("9b-"),
            French::NineB => String::from_str("9b"),
            French::NineBPlus => String::from_str("9b+"),
            French::NineCMinus => String::from_str("9c-"),
            French::NineC => String::from_str("9c"),
            French::NineCPlus => String::from_str("9c+"),
        }
    }

    /// The values offered for selection, in order.
    pub fn iter() -> (all: Vec<French>)
        ensures
            all@ == seq![French::One, French::Two, French::Three, French::FourA, French::FourB, French::FourC, French::FiveA, French::FiveB, French::FiveC, French::SixAMinus, French::SixA, French::SixAPlus, French::SixBMinus, French::SixB, French::SixBPlus, French::SixCMinus, French::SixC, French::SixCPlus, French::SevenAMinus, French::SevenA, French::SevenAPlus, French::SevenBMinus, French::SevenB, French::SevenBPlus, French::SevenCMinus, French::SevenC, French::SevenCPlus, French::EightAMinus, French::EightA, French::EightAPlus, French::EightBMinus, French::EightB, French::EightBPlus, French::EightCMinus, French::EightC, French::EightCPlus, French::NineAMinus, French::NineA, French::NineAPlus, French::NineBMinus, French::NineB, French::NineBPlus, French::NineCMinus, French::NineC, French::NineCPlus],
    {
        vec![French::One, French::Two, French::Three, French::FourA, French::FourB, French::FourC, French::FiveA, French::FiveB, French::FiveC, French::SixAMinus, French::SixA, French::SixAPlus, French::SixBMinus, French::SixB, French::SixBPlus, French::SixCMinus, French::SixC, French::SixCPlus, French::SevenAMinus, French::SevenA, French::SevenAPlus, French::SevenBMinus, French::SevenB, French::SevenBPlus, French::SevenCMinus, French::SevenC, French::SevenCPlus, French::EightAMinus, French::EightA, French::EightAPlus, French::EightBMinus, French::EightB, French::EightBPlus, French::EightCMinus, French::EightC, French::EightCPlus, French::NineAMinus, French::NineA, French::NineAPlus, French::NineBMinus, French::NineB, French::NineBPlus, French::NineCMinus, French::NineC, French::NineCPlus]
    }
}

/// A UIAA grade, easiest first.
#[derive(Clone, Copy, Debug, PartialEq, Eq, Structural, Default, PartialOrd)]
pub enum Uiaa {
    I,
    Ii,
    Iii,
    IvMinus,
    Iv,
    IvPlus,
    VMinus,
    V,
    VPlus,
    #[default]
    ViMinus,
    Vi,
    ViPlus,
    ViiMinus,
    Vii,
    ViiPlus,
    ViiiMinus,
    Viii,
    ViiiPlus,
    IxMinus,
    Ix,
    IxPlus,
    XMinus,
    X,
    XPlus,
    XiMinus,
    Xi,
    XiPlus,
    XiiMinus,
    Xii,
    XiiPlus,
}

/// How `g` is written.
pub open spec fn uiaa_text(g: Uiaa) -> Seq<char> {
    match g {
        Uiaa::I => "I"@,
        Uiaa::Ii => "II"@,
        Uiaa::Iii => "III"@,
        Uiaa::IvMinus => "IV-"@,
        Uiaa::Iv => "IV"@,
        Uiaa::IvPlus => "IV+"@,
        Uiaa::VMinus => "V-"@,
        Uiaa::V => "V"@,
        Uiaa::VPlus => "V+"@,
        Uiaa::ViMinus => "VI-"@,
        Uiaa::Vi => "VI"@,
        Uiaa::ViPlus => "VI+"@,
        Uiaa::ViiMinus => "VII-"@,
        Uiaa::Vii => "VII"@,
        Uiaa::ViiPlus => "VII+"@,
        Uiaa::ViiiMinus => "VIII-"@,
        Uiaa::Viii => "VIII"@,
        Uiaa::ViiiPlus => "VIII+"@,
        Uiaa::IxMinus => "IX-"@,
        Uiaa::Ix => "IX"@,
        Uiaa::IxPlus => "IX+"@,
        Uiaa::XMinus => "X-"@,
        Uiaa::X => "X"@,
        Uiaa::XPlus => "X+"@,
        Uiaa::XiMinus => "XI-"@,
        Uiaa::Xi => "XI"@,
        Uiaa::XiPlus => "XI+"@,
        Uiaa::XiiMinus => "XII-"@,
        Uiaa::Xii => "XII"@,
        Uiaa::XiiPlus => "XII+"@,
    }
}

/// The UIAA grade nearest to Yosemite grade `g`; grades below 5.0, from
/// 5.15a up, and `Ungraded` give IV.
pub open spec fn uiaa_of_yosemite(g: Yosemite) -> Uiaa {
    match g {
        Yosemite::FiveZero => Uiaa::I,
        Yosemite::FiveOne => Uiaa::Ii,
        Yosemite::FiveTwo => Uiaa::Iii,
        Yosemite::FiveThree => Uiaa::IvMinus,
        Yosemite::FiveFour => Uiaa::Iv,
        Yosemite::FiveFive => Uiaa::IvPlus,
        Yosemite::FiveSix => Uiaa::VMinus,
        Yosemite::FiveSeven => Uiaa::V,
        Yosemite::FiveEight => Uiaa::VPlus,
        Yosemite::FiveNine => Uiaa::ViMinus,
        Yosemite::FiveTenA => Uiaa::Vi,
        Yosemite::FiveTenB => Uiaa::ViPlus,
        Yosemite::FiveTenC => Uiaa::ViiMinus,
        Yosemite::FiveTenD => Uiaa::Vii,
        Yosemite::FiveElevenA => Uiaa::ViiPlus,
        Yosemite::FiveElevenB => Uiaa::ViiiMinus,
        Yosemite::FiveElevenC => Uiaa::Viii,
        Yosemite::FiveElevenD => Uiaa::ViiiPlus,
        Yosemite::FiveTwelveA => Uiaa::IxMinus,
        Yosemite::FiveTwelveB => Uiaa::Ix,
        Yosemite::FiveTwelveC => Uiaa::IxPlus,
        Yosemite::FiveTwelveD => Uiaa::XMinus,
        Yosemite::FiveThirteenA => Uiaa::X,
        Yosemite::FiveThirteenB => Uiaa::XPlus,
        Yosemite::FiveThirteenC => Uiaa::XiMinus,
        Yosemite::FiveThirteenD => Uiaa::Xi,
        Yosemite::FiveFourteenA => Uiaa::XiPlus,
        Yosemite::FiveFourteenB => Uiaa::XiiMinus,
        Yosemite::FiveFourteenC => Uiaa::Xii,
        Yosemite::FiveFourteenD => Uiaa::XiiPlus,
        _ => Uiaa::Iv,
    }
}

/// The UIAA grade nearest to French grade `g`; grades from 8b- up give
/// VIII.
pub open spec fn uiaa_of_french(g: French) -> Uiaa {
    match g {
        French::One => Uiaa::I,
        French::Two => Uiaa::Ii,
        French::Three => Uiaa::Iii,
        French::FourA => Uiaa::IvMinus,
        French::FourB => Uiaa::Iv,
        French::FourC => Uiaa::IvPlus,
        French::FiveA => Uiaa::VMinus,
        French::FiveB => Uiaa::V,
        French::FiveC => Uiaa::VPlus,
        French::SixAMinus => Uiaa::ViMinus,
        French::SixA => Uiaa::Vi,
        French::SixAPlus => Uiaa::ViPlus,
        French::SixBMinus => Uiaa::ViiMinus,
        French::SixB => Uiaa::Vii,
        French::SixBPlus => Uiaa::ViiPlus,
        French::SixCMinus => Uiaa::ViiiMinus,
        French::SixC => Uiaa::Viii,
        French::SixCPlus => Uiaa::ViiiPlus,
        French::SevenAMinus => Uiaa::IxMinus,
        French::SevenA => Uiaa::Ix,
        French::SevenAPlus => Uiaa::IxPlus,
        French::SevenBMinus => Uiaa::XMinus,
        French::SevenB => Uiaa::X,
        French::SevenBPlus => Uiaa::XPlus,
        French::SevenCMinus => Uiaa::XiMinus,
        French::SevenC => Uiaa::Xi,
        French::SevenCPlus => Uiaa::XiPlus,
        French::EightAMinus => Uiaa::XiiMinus,
        French::EightA => Uiaa::Xii,
        French::EightAPlus => Uiaa::XiiPlus,
        _ => Uiaa::Viii,
    }
}

impl Uiaa {
    /// How the value is written.
    pub fn label(&self) -> (text: String)
        ensures
            text@ == uiaa_text(*self),
    {
        match self {
            Uiaa::I => String::from_str("I"),
            Uiaa::Ii => String::from_str("II"),
            Uiaa::Iii => String::from_str("III"),
            Uiaa::IvMinus => String::from_str("IV-"),
            Uiaa::Iv => String::from_str("IV"),
            Uiaa::IvPlus => String::from_str("IV+"),
            Uiaa::VMinus => String::from_str("V-"),
            Uiaa::V => String::from_str("V"),
            Uiaa::VPlus => String::from_str("V+"),
            Uiaa::ViMinus => String::from_str("VI-"),
            Uiaa::Vi => String::from_str("VI"),
            Uiaa::ViPlus => String::from_str("VI+"),
            Uiaa::ViiMinus => String::from_str("VII-"),
            Uiaa::Vii => String::from_str("VII"),
            Uiaa::ViiPlus => String::from_str("VII+"),
            Uiaa::ViiiMinus => String::from_str("VIII-"),
            Uiaa::Viii => String::from_str("VIII"),
            Uiaa::ViiiPlus => String::from_str("VIII+"),
            Uiaa::IxMinus => String::from_str("IX-"),
            Uiaa::Ix => String::from_str("IX"),
            Uiaa::IxPlus => String::from_str("IX+"),
            Uiaa::XMinus => String::from_str("X-"),
            Uiaa::X => String::from_str("X"),
            Uiaa::XPlus => String::from_str("X+"),
            Uiaa::XiMinus => String::from_str("XI-"),
            Uiaa::Xi => String::from_str("XI"),
            Uiaa::XiPlus => String::from_str("XI+"),
            Uiaa::XiiMinus => String::from_str("XII-"),
            Uiaa::Xii => String::from_str("XII"),
            Uiaa::XiiPlus => String::from_str("XII+"),
        }
    }

    /// The values offered for selection, in order.
    pub fn iter() -> (all: Vec<Uiaa>)
        ensures
            all@ == seq![Uiaa::I, Uiaa::Ii, Uiaa::Iii, Uiaa::IvMinus, Uiaa::Iv, Uiaa::IvPlus, Uiaa::VMinus, Uiaa::V, Uiaa::VPlus, Uiaa::ViMinus, Uiaa::Vi, Uiaa::ViPlus, Uiaa::ViiMinus, Uiaa::Vii, Uiaa::ViiPlus, Uiaa::ViiiMinus, Uiaa::Viii, Uiaa::ViiiPlus, Uiaa::IxMinus, Uiaa::Ix, Uiaa::IxPlus, Uiaa::XMinus, Uiaa::X, Uiaa::XPlus, Uiaa::XiMinus, Uiaa::Xi, Uiaa::XiPlus, Uiaa::XiiMinus, Uiaa::Xii, Uiaa::XiiPlus],
    {
        vec![Uiaa::I, Uiaa::Ii, Uiaa::Iii, Uiaa::IvMinus, Uiaa::Iv, Uiaa::IvPlus, Uiaa::VMinus, Uiaa::V, Uiaa::VPlus, Uiaa::ViMinus, Uiaa::Vi, Uiaa::ViPlus, Uiaa::ViiMinus, Uiaa::Vii, Uiaa::ViiPlus, Uiaa::ViiiMinus, Uiaa::Viii, Uiaa::ViiiPlus, Uiaa::IxMinus, Uiaa::Ix, Uiaa::IxPlus, Uiaa::XMinus, Uiaa::X, Uiaa::XPlus, Uiaa::XiMinus, Uiaa::Xi, Uiaa::XiPlus, Uiaa::XiiMinus, Uiaa::Xii, Uiaa::XiiPlus]
    }
}

/// How an ascent went.
#[derive(Clone, Copy, Debug, PartialEq, Eq, Structural, Default)]
pub enum SendType {
    Redpoint,
    Flash,
    Onsight,
    Pinkpoint,
    #[default]
    Attempt,
    Top,
    Repeat,
    FreeSolo,
}

/// How `g` is written.
pub open spec fn send_type_text(g: SendType) -> Seq<char> {
    match g {
        SendType::Redpoint => "Redpoint"@,
        SendType::Flash => "Flash"@,
        SendType::Onsight => "Onsight"@,
        SendType::Pinkpoint => "Pinkpoint"@,
        SendType::Attempt => "Attempt"@,
        SendType::Top => "Top"@,
        SendType::Repeat => "Repeat"@,
        SendType::FreeSolo => "Free Solo"@,
    }
}

impl SendType {
    /// How the value is written.
    pub fn label(&self) -> (text: String)
        ensures
            text@ == send_type_text(*self),
    {
        match self {
            SendType::Redpoint => String::from_str("Redpoint"),
            SendType::Flash => String::from_str("Flash"),
            SendType::Onsight => String::from_str("Onsight"),
            SendType::Pinkpoint => String::from_str("Pinkpoint"),
            SendType::Attempt => String::from_str("Attempt"),
            SendType::Top => String::from_str("Top"),
            SendType::Repeat => String::from_str("Repeat"),
            SendType::FreeSolo => String::from_str("Free Solo"),
        }
    }

    /// The values offered for selection, in order.
    pub fn iter() -> (all: Vec<SendType>)
        ensures
            all@ == seq![SendType::Redpoint, SendType::Flash, SendType::Onsight, SendType::Pinkpoint, SendType::Attempt, SendType::Top, SendType::Repeat, SendType::FreeSolo],
    {
        vec![SendType::Redpoint, SendType::Flash, SendType::Onsight, SendType::Pinkpoint, SendType::Attempt, SendType::Top, SendType::Repeat, SendType::FreeSolo]
    }
}

impl From<Hueco> for Yosemite {
    fn from(g: Hueco) -> Yosemite {
        match g {
            Hueco::Vb => Yosemite::FiveFive,
            Hueco::V0Minus => Yosemite::FiveEight,
            Hueco::V0 => Yosemite::FiveNine,
            Hueco::V0Plus => Yosemite::FiveTenA,
            Hueco::V1Minus => Yosemite::FiveTenB,
            Hueco::V1 => Yosemite::FiveTenC,
            Hueco::V1Plus => Yosemite::FiveTenD,
            Hueco::V2Minus => Yosemite::FiveElevenA,
            Hueco::V2 => Yosemite::FiveElevenA,
            Hueco::V2Plus => Yosemite::FiveElevenB,
            Hueco::V3Minus => Yosemite::FiveElevenC,
            Hueco::V3 => Yosemite::FiveElevenC,
            Hueco::V3Plus => Yosemite::FiveElevenD,
            Hueco::V4Minus => Yosemite::FiveTwelveA,
            Hueco::V4 => Yosemite::FiveTwelveA,
            Hueco::V4Plus => Yosemite::FiveTwelveB,
            Hueco::V5Minus => Yosemite::FiveTwelveB,
            Hueco::V5 => Yosemite::FiveTwelveB,
            Hueco::V5Plus => Yosemite::FiveTwelveB,
            Hueco::V6Minus => Yosemite::FiveTwelveC,
            Hueco::V6 => Yosemite::FiveTwelveD,
            Hueco::V6Plus => Yosemite::FiveTwelveD,
            Hueco::V7Minus => Yosemite::FiveThirteenA,
            Hueco::V7 => Yosemite::FiveThirteenA,
            Hueco::V7Plus => Yosemite::FiveThirteenB,
            Hueco::V8Minus => Yosemite::FiveThirteenB,
            Hueco::V8 => Yosemite::FiveThirteenC,
            Hueco::V8Plus => Yosemite::FiveThirteenC,
            Hueco::V9Minus => Yosemite::FiveThirteenC,
            Hueco::V9 => Yosemite::FiveThirteenD,
            Hueco::V9Plus => Yosemite::FiveThirteenD,
            Hueco::V10Minus => Yosemite::FiveFourteenA,
            Hueco::V10 => Yosemite::FiveFourteenA,
            Hueco::Ungraded => Yosemite::Ungraded,
            _ => Yosemite::FiveNine,
        }
    }
}

impl vstd::std_specs::convert::FromSpecImpl<Hueco> for Yosemite {
    open spec fn obeys_from_spec() -> bool {
        true
    }

    open spec fn from_spec(g: Hueco) -> Yosemite {
        yosemite_of_hueco(g)
    }
}

impl From<French> for Yosemite {
    fn from(g: French) -> Yosemite {
        match g {
            French::One => Yosemite::FiveTwo,
            French::Two => Yosemite::FiveThree,
            French::Three => Yosemite::FiveFour,
            French::FourA => Yosemite::FiveFive,
            French::FourB => Yosemite::FiveFive,
            French::FourC => Yosemite::FiveFive,
            French::FiveA => Yosemite::FiveSix,
            French::FiveB => Yosemite::FiveSeven,
            French::FiveC => Yosemite::FiveEight,
            French::SixAMinus => Yosemite::FiveNine,
            French::SixA => Yosemite::FiveTenA,
            French::SixAPlus => Yosemite::FiveTenB,
            French::SixBMinus => Yosemite::FiveTenC,
            French::SixB => Yosemite::FiveTenC,
            French::SixBPlus => Yosemite::FiveTenD,
            French::SixCMinus => Yosemite::FiveElevenA,
            French::SixC => Yosemite::FiveElevenA,
            French::SixCPlus => Yosemite::FiveElevenB,
            French::SevenAMinus => Yosemite::FiveElevenC,
            French::SevenA => Yosemite::FiveElevenC,
            French::SevenAPlus => Yosemite::FiveElevenD,
            French::SevenBMinus => Yosemite::FiveTwelveA,
            French::SevenB => Yosemite::FiveTwelveA,
            French::SevenBPlus => Yosemite::FiveTwelveB,
            French::SevenCMinus => Yosemite::FiveTwelveC,
            French::SevenC => Yosemite::FiveTwelveC,
            French::SevenCPlus => Yosemite::FiveTwelveD,
            French::EightAMinus => Yosemite::FiveThirteenA,
            French::EightA => Yosemite::FiveThirteenB,
            French::EightAPlus => Yosemite::FiveThirteenC,
            French::EightBMinus => Yosemite::FiveThirteenD,
            French::EightB => Yosemite::FiveThirteenD,
            French::EightBPlus => Yosemite::FiveFourteenA,
            French::EightCMinus => Yosemite::FiveFourteenB,
            French::EightC => Yosemite::FiveFourteenB,
            French::EightCPlus => Yosemite::FiveFourteenC,
            French::NineAMinus => Yosemite::FiveFourteenD,
            French::NineA => Yosemite::FiveFourteenD,
            French::NineAPlus => Yosemite::FiveFifteenA,
            French::NineBMinus => Yosemite::FiveFifteenB,
            French::NineB => Yosemite::FiveFifteenB,
            French::NineBPlus => Yosemite::FiveFifteenC,
            French::NineCMinus => Yosemite::FiveFifteenD,
            French::NineC => Yosemite::FiveFifteenD,
            French::NineCPlus => Yosemite::FiveFifteenD,
        }
    }
}

impl vstd::std_specs::convert::FromSpecImpl<French> for Yosemite {
    open spec fn obeys_from_spec() -> bool {
        true
    }

    open spec fn from_spec(g: French) -> Yosemite {
        yosemite_of_french(g)
    }
}

impl From<Uiaa> for Yosemite {
    fn from(g: Uiaa) -> Yosemite {
        match g {
            Uiaa::I => Yosemite::FiveOne,
            Uiaa::Ii => Yosemite::FiveTwo,
            Uiaa::Iii => Yosemite::FiveThree,
            Uiaa::IvMinus => Yosemite::FiveFour,
            Uiaa::Iv => Yosemite::FiveFour,
            Uiaa::IvPlus => Yosemite::FiveFive,
            Uiaa::VMinus => Yosemite::FiveSix,
            Uiaa::V => Yosemite::FiveSeven,
            Uiaa::VPlus => Yosemite::FiveEight,
            Uiaa::ViMinus => Yosemite::FiveNine,
            Uiaa::Vi => Yosemite::FiveTenA,
            Uiaa::ViPlus => Yosemite::FiveTenB,
            Uiaa::ViiMinus => Yosemite::FiveTenC,
            Uiaa::Vii => Yosemite::FiveTenD,
            Uiaa::ViiPlus => Yosemite::FiveElevenA,
            Uiaa::ViiiMinus => Yosemite::FiveElevenC,
            Uiaa::Viii => Yosemite::FiveElevenD,
            Uiaa::ViiiPlus => Yosemite::FiveTwelveA,
            Uiaa::IxMinus => Yosemite::FiveTwelveC,
            Uiaa::Ix => Yosemite::FiveTwelveD,
            Uiaa::IxPlus => Yosemite::FiveThirteenB,
            Uiaa::XMinus => Yosemite::FiveThirteenC,
            Uiaa::X => Yosemite::FiveThirteenD,
            Uiaa::XPlus => Yosemite::FiveFourteenA,
            Uiaa::XiMinus => Yosemite::FiveFourteenB,
            Uiaa::Xi => Yosemite::FiveFourteenD,
            Uiaa::XiPlus => Yosemite::FiveFifteenA,
            Uiaa::XiiMinus => Yosemite::FiveFifteenB,
            Uiaa::Xii => Yosemite::FiveFifteenC,
            Uiaa::XiiPlus => Yosemite::FiveFifteenD,
        }
    }
}

impl vstd::std_specs::convert::FromSpecImpl<Uiaa> for Yosemite {
    open spec fn obeys_from_spec() -> bool {
        true
    }

    open spec fn from_spec(g: Uiaa) -> Yosemite {
        yosemite_of_uiaa(g)
    }
}

impl From<Font> for Yosemite {
    fn from(g: Font) -> Yosemite {
        match g {
            Font::OneMinus => Yosemite::FiveFour,
            Font::One => Yosemite::FiveFive,
            Font::OnePlus => Yosemite::FiveSix,
            Font::TwoMinus => Yosemite::FiveSix,
            Font::Two => Yosemite::FiveSeven,
            Font::TwoPlus => Yosemite::FiveEight,
            Font::ThreeMinus => Yosemite::FiveEight,
            Font::Three => Yosemite::FiveNine,
            Font::ThreePlus => Yosemite::FiveTenA,
            Font::FourMinus => Yosemite::FiveTenB,
            Font::Four => Yosemite::FiveTenC,
            Font::FourPlus => Yosemite::FiveTenD,
            Font::FiveMinus => Yosemite::FiveElevenA,
            Font::Five => Yosemite::FiveElevenA,
            Font::FivePlus => Yosemite::FiveElevenB,
            Font::SixAMinus => Yosemite::FiveElevenC,
            Font::SixA => Yosemite::FiveElevenC,
            Font::SixAPlus => Yosemite::FiveElevenD,
            Font::SixBMinus => Yosemite::FiveTwelveA,
            Font::SixB => Yosemite::FiveTwelveA,
            Font::SixBPlus => Yosemite::FiveTwelveB,
            Font::SixCMinus => Yosemite::FiveTwelveB,
            Font::SixC => Yosemite::FiveTwelveB,
            Font::SixCPlus => Yosemite::FiveTwelveB,
            Font::SevenAMinus => Yosemite::FiveTwelveC,
            Font::SevenA => Yosemite::FiveTwelveD,
            Font::SevenAPlus => Yosemite::FiveTwelveD,
            Font::SevenBMinus => Yosemite::FiveThirteenA,
            Font::SevenB => Yosemite::FiveThirteenA,
            Font::SevenBPlus => Yosemite::FiveThirteenB,
            Font::SevenCMinus => Yosemite::FiveThirteenB,
            Font::SevenC => Yosemite::FiveThirteenC,
            Font::SevenCPlus => Yosemite::FiveThirteenC,
            Font::EightAMinus => Yosemite::FiveThirteenC,
            Font::EightA => Yosemite::FiveThirteenD,
            Font::EightAPlus => Yosemite::FiveThirteenD,
            Font::EightBMinus => Yosemite::FiveFourteenA,
            Font::EightB => Yosemite::FiveFourteenA,
            Font::EightBPlus => Yosemite::FiveFourteenB,
            Font::EightCMinus => Yosemite::FiveFourteenB,
            Font::EightC => Yosemite::FiveFourteenC,
            Font::EightCPlus => Yosemite::FiveFourteenD,
            Font::NineAMinus => Yosemite::FiveFifteenA,
            Font::NineA => Yosemite::FiveFifteenB,
            Font::NineAPlus => Yosemite::FiveFifteenC,
            Font::NineBMinus => Yosemite::FiveFifteenD,
            Font::NineB => Yosemite::FiveFifteenD,
            Font::NineBPlus => Yosemite::FiveFifteenD,
            _ => Yosemite::FiveNine,
        }
    }
}

impl vstd::std_specs::convert::FromSpecImpl<Font> for Yosemite {
    open spec fn obeys_from_spec() -> bool {
        true
    }

    open spec fn from_spec(g: Font) -> Yosemite {
        yosemite_of_font(g)
    }
}

impl From<String> for Yosemite {
    fn from(g: String) -> Yosemite {
        let t = g.as_str();
        if same_text(t, "1") {
            Yosemite::One
        } else if same_text(t, "2") {
            Yosemite::Two
        } else if same_text(t, "3") {
            Yosemite::Three
        } else if same_text(t, "4") {
            Yosemite::Four
        } else if same_text(t, "5.1") {
            Yosemite::FiveOne
        } else if same_text(t, "5.2") {
            Yosemite::FiveTwo
        } else if same_text(t, "5.3") {
            Yosemite::FiveThree
        } else if same_text(t, "5.4") {
            Yosemite::FiveFour
        } else if same_text(t, "5.5") {
            Yosemite::FiveFive
        } else if same_text(t, "5.6") {
            Yosemite::FiveSix
        } else if same_text(t, "5.7") {
            Yosemite::FiveSeven
        } else if same_text(t, "5.8") {
            Yosemite::FiveEight
        } else if same_text(t, "5.9") {
            Yosemite::FiveNine
        } else if same_text(t, "5.10a") {
            Yosemite::FiveTenA
        } else if same_text(t, "5.10b") {
            Yosemite::FiveTenB
        } else if same_text(t, "5.10c") {
            Yosemite::FiveTenC
        } else if same_text(t, "5.10d") {
            Yosemite::FiveTenD
        } else if same_text(t, "5.11a") {
            Yosemite::FiveElevenA
        } else if same_text(t, "5.11b") {
            Yosemite::FiveElevenB
        } else if same_text(t, "5.11c") {
            Yosemite::FiveElevenC
        } else if same_text(t, "5.11d") {
            Yosemite::FiveElevenD
        } else if same_text(t, "5.12a") {
            Yosemite::FiveTwelveA
        } else if same_text(t, "5.12b") {
            Yosemite::FiveTwelveB
        } else if same_text(t, "5.12c") {
            Yosemite::FiveTwelveC
        } else if same_text(t, "5.12d") {
            Yosemite::FiveTwelveD
        } else if same_text(t, "5.13a") {
            Yosemite::FiveThirteenA
        } else if same_text(t, "5.13b") {
            Yosemite::FiveThirteenB
        } else if same_text(t, "5.13c") {
            Yosemite::FiveThirteenC
        } else if same_text(t, "5.13d") {
            Yosemite::FiveThirteenD
        } else if same_text(t, "5.14a") {
            Yosemite::FiveFourteenA
        } else if same_text(t, "5.14b") {
            Yosemite::FiveFourteenB
        } else if same_text(t, "5.14c") {
            Yosemite::FiveFourteenC
        } else if same_text(t, "5.14d") {
            Yosemite::FiveFourteenD
        } else if same_text(t, "5.15a") {
            Yosemite::FiveFifteenA
        } else if same_text(t, "5.15b") {
            Yosemite::FiveFifteenB
        } else if same_text(t, "5.15c") {
            Yosemite::FiveFifteenC
        } else if same_text(t, "5.15d") {
            Yosemite::FiveFifteenD
        } else if same_text(t, "None") {
            Yosemite::Ungraded
        } else {
            Yosemite::FiveNine
        }
    }
}

impl vstd::std_specs::convert::FromSpecImpl<String> for Yosemite {
    open spec fn obeys_from_spec() -> bool {
        true
    }

    open spec fn from_spec(g: String) -> Yosemite {
        yosemite_of_text(g)
    }
}

impl From<i32> for Yosemite {
    fn from(g: i32) -> Yosemite {
        match g {
            0 => Yosemite::One,
            1 => Yosemite::Two,
            2 => Yosemite::Three,
            3 => Yosemite::Four,
            4 => Yosemite::FiveZero,
            5 => Yosemite::FiveOne,
            6 => Yosemite::FiveTwo,
            7 => Yosemite::FiveThree,
            8 => Yosemite::FiveFour,
            9 => Yosemite::FiveFive,
            10 => Yosemite::FiveSix,
            11 => Yosemite::FiveSeven,
            12 => Yosemite::FiveEight,
            13 => Yosemite::FiveNine,
            14 => Yosemite::FiveTenA,
            15 => Yosemite::FiveTenB,
            16 => Yosemite::FiveTenC,
            17 => Yosemite::FiveTenD,
            18 => Yosemite::FiveElevenA,
            19 => Yosemite::FiveElevenB,
            20 => Yosemite::FiveElevenC,
            21 => Yosemite::FiveElevenD,
            22 => Yosemite::FiveTwelveA,
            23 => Yosemite::FiveTwelveB,
            24 => Yosemite::FiveTwelveC,
            25 => Yosemite::FiveTwelveD,
            26 => Yosemite::FiveThirteenA,
            27 => Yosemite::FiveThirteenB,
            28 => Yosemite::FiveThirteenC,
            29 => Yosemite::FiveThirteenD,
            30 => Yosemite::FiveFourteenA,
            31 => Yosemite::FiveFourteenB,
            32 => Yosemite::FiveFourteenC,
            33 => Yosemite::FiveFourteenD,
            34 => Yosemite::FiveFifteenA,
            35 => Yosemite::FiveFifteenB,
            36 => Yosemite::FiveFifteenC,
            37 => Yosemite::FiveFifteenD,
            _ => Yosemite::Ungraded,
        }
    }
}

impl vstd::std_specs::convert::FromSpecImpl<i32> for Yosemite {
    open spec fn obeys_from_spec() -> bool {
        true
    }

    open spec fn from_spec(g: i32) -> Yosemite {
        yosemite_of_number(g)
    }
}

impl From<Hueco> for Font {
    fn from(g: Hueco) -> Font {
        match g {
            Hueco::Vb => Font::Five,
            Hueco::V0Minus => Font::FivePlus,
            Hueco::V0 => Font::SixAMinus,
            Hueco::V0Plus => Font::SixA,
            Hueco::V1Minus => Font::SixAPlus,
            Hueco::V1 => Font::SixBMinus,
            Hueco::V1Plus => Font::SixB,
            Hueco::V2Minus => Font::SixBPlus,
            Hueco::V2 => Font::SixCMinus,
            Hueco::V2Plus => Font::SixC,
            Hueco::V3Minus => Font::SixCPlus,
            Hueco::V3 => Font::SevenAMinus,
            Hueco::V3Plus => Font::SevenA,
            Hueco::V4Minus => Font::SevenAPlus,
            Hueco::V4 => Font::SevenBMinus,
            Hueco::V4Plus => Font::SevenB,
            Hueco::V5Minus => Font::SevenBPlus,
            Hueco::V5 => Font::SevenCMinus,
            Hueco::V5Plus => Font::SevenC,
            Hueco::V6Minus => Font::SevenCPlus,
            Hueco::V6 => Font::EightAMinus,
            Hueco::V6Plus => Font::EightA,
            Hueco::V7Minus => Font::EightAPlus,
            Hueco::V7 => Font::EightBMinus,
            Hueco::V7Plus => Font::EightB,
            Hueco::V8Minus => Font::EightBPlus,
            Hueco::V8 => Font::EightCMinus,
            Hueco::V8Plus => Font::EightC,
            Hueco::V9Minus => Font::EightCPlus,
            Hueco::V9 => Font::NineAMinus,
            Hueco::V9Plus => Font::NineA,
            Hueco::V10Minus => Font::NineAPlus,
            Hueco::V10 => Font::NineBMinus,
            Hueco::Ungraded => Font::NineB,
            _ => Font::Five,
        }
    }
}

impl vstd::std_specs::convert::FromSpecImpl<Hueco> for Font {
    open spec fn obeys_from_spec() -> bool {
        true
    }

    open spec fn from_spec(g: Hueco) -> Font {
        font_of_hueco(g)
    }
}

impl From<i32> for Hueco {
    fn from(g: i32) -> Hueco {
        match g {
            -1 => Hueco::Vb,
            0 => Hueco::V0Minus,
            1 => Hueco::V0,
            2 => Hueco::V0Plus,
            3 => Hueco::V1Minus,
            4 => Hueco::V1,
            5 => Hueco::V1Plus,
            6 => Hueco::V2Minus,
            7 => Hueco::V2,
            8 => Hueco::V2Plus,
            9 => Hueco::V3Minus,
            10 => Hueco::V3,
            11 => Hueco::V3Plus,
            12 => Hueco::V4Minus,
            13 => Hueco::V4,
            14 => Hueco::V4Plus,
            15 => Hueco::V5Minus,
            16 => Hueco::V5,
            17 => Hueco::V5Plus,
            18 => Hueco::V6Minus,
            19 => Hueco::V6,
            20 => Hueco::V6Plus,
            21 => Hueco::V7Minus,
            22 => Hueco::V7,
            23 => Hueco::V7Plus,
            24 => Hueco::V8Minus,
            25 => Hueco::V8,
            26 => Hueco::V8Plus,
            27 => Hueco::V9Minus,
            28 => Hueco::V9,
            29 => Hueco::V9Plus,
            30 => Hueco::V10Minus,
            31 => Hueco::V10,
            32 => Hueco::V10Plus,
            33 => Hueco::V11Minus,
            34 => Hueco::V11,
            35 => Hueco::V11Plus,
            36 => Hueco::V12Minus,
            37 => Hueco::V12,
            38 => Hueco::V12Plus,
            39 => Hueco::V13Minus,
            40 => Hueco::V13,
            41 => Hueco::V13Plus,
            42 => Hueco::V14Minus,
            43 => Hueco::V14,
            44 => Hueco::V14Plus,
            45 => Hueco::V15Minus,
            46 => Hueco::V15,
            47 => Hueco::V15Plus,
            48 => Hueco::V16Minus,
            49 => Hueco::V16,
            50 => Hueco::V16Plus,
            51 => Hueco::V17Minus,
            52 => Hueco::V17,
            53 => Hueco::V17Plus,
            _ => Hueco::Ungraded,
        }
    }
}

impl vstd::std_specs::convert::FromSpecImpl<i32> for Hueco {
    open spec fn obeys_from_spec() -> bool {
        true
    }

    open spec fn from_spec(g: i32) -> Hueco {
        hueco_of_number(g)
    }
}

impl From<String> for Hueco {
    fn from(g: String) -> Hueco {
        let t = g.as_str();
        if same_text(t, "VB") {
            Hueco::Vb
        } else if same_text(t, "V0-") {
            Hueco::V0Minus
        } else if same_text(t, "V0") {
            Hueco::V0
        } else if same_text(t, "V0+") {
            Hueco::V0Plus
        } else if same_text(t, "V1-") {
            Hueco::V1Minus
        } else if same_text(t, "V1") {
            Hueco::V1
        } else if same_text(t, "V1+") {
            Hueco::V1Plus
        } else if same_text(t, "V2-") {
            Hueco::V2Minus
        } else if same_text(t, "V2") {
            Hueco::V2
        } else if same_text(t, "V2+") {
            Hueco::V2Plus
        } else if same_text(t, "V3-") {
            Hueco::V3Minus
        } else if same_text(t, "V3") {
            Hueco::V3
        } else if same_text(t, "V3+") {
            Hueco::V3Plus
        } else if same_text(t, "V4-") {
            Hueco::V4Minus
        } else if same_text(t, "V4") {
            Hueco::V4
        } else if same_text(t, "V4+") {
            Hueco::V4Plus
        } else if same_text(t, "V5-") {
            Hueco::V5Minus
        } else if same_text(t, "V5") {
            Hueco::V5
        } else if same_text(t, "V5+") {
            Hueco::V5Plus
        } else if same_text(t, "V6-") {
            Hueco::V6Minus
        } else if same_text(t, "V6") {
            Hueco::V6
        } else if same_text(t, "V6+") {
            Hueco::V6Plus
        } else if same_text(t, "V7-") {
            Hueco::V7Minus
        } else if same_text(t, "V7") {
            Hueco::V7
        } else if same_text(t, "V7+") {
            Hueco::V7Plus
        } else if same_text(t, "V8-") {
            Hueco::V8Minus
        } else if same_text(t, "V8") {
            Hueco::V8
        } else if same_text(t, "V8+") {
            Hueco::V8Plus
        } else if same_text(t, "V9-") {
            Hueco::V9Minus
        } else if same_text(t, "V9") {
            Hueco::V9
        } else if same_text(t, "V9+") {
            Hueco::V9Plus
        } else if same_text(t, "V10-") {
            Hueco::V10Minus
        } else if same_text(t, "V10") {
            Hueco::V10
        } else if same_text(t, "V10+") {
            Hueco::V10Plus
        } else if same_text(t, "V11-") {
            Hueco::V11Minus
        } else if same_text(t, "V11") {
            Hueco::V11
        } else if same_text(t, "V11+") {
            Hueco::V11Plus
        } else if same_text(t, "V12-") {
            Hueco::V12Minus
        } else if same_text(t, "V12") {
            Hueco::V12
        } else if same_text(t, "V12+") {
            Hueco::V12Plus
        } else if same_text(t, "V13-") {
            Hueco::V13Minus
        } else if same_text(t, "V13") {
            Hueco::V13
        } else if same_text(t, "V13+") {
            Hueco::V13Plus
        } else if same_text(t, "V14-") {
            Hueco::V14Minus
        } else if same_text(t, "V14") {
            Hueco::V14
        } else if same_text(t, "V14+") {
            Hueco::V14Plus
        } else if same_text(t, "V15-") {
            Hueco::V15Minus
        } else if same_text(t, "V15") {
            Hueco::V15
        } else if same_text(t, "V15+") {
            Hueco::V15Plus
        } else if same_text(t, "V16-") {
            Hueco::V16Minus
        } else if same_text(t, "V16") {
            Hueco::V16
        } else if same_text(t, "V16+") {
            Hueco::V16Plus
        } else if same_text(t, "V17-") {
            Hueco::V17Minus
        } else if same_text(t, "V17") {
            Hueco::V17
        } else if same_text(t, "V17+") {
            Hueco::V17Plus
        } else if same_text(t, "None") {
            Hueco::Ungraded
        } else {
            Hueco::V0
        }
    }
}

impl vstd::std_specs::convert::FromSpecImpl<String> for Hueco {
    open spec fn obeys_from_spec() -> bool {
        true
    }

    open spec fn from_spec(g: String) -> Hueco {
        hueco_of_text(g)
    }
}

impl From<Font> for Hueco {
    fn from(g: Font) -> Hueco {
        match g {
            Font::OneMinus => Hueco::V0Minus,
            Font::One => Hueco::V0,
            Font::OnePlus => Hueco::V0Plus,
            Font::TwoMinus => Hueco::V1Minus,
            Font::Two => Hueco::V1,
            Font::TwoPlus => Hueco::V1Plus,
            Font::ThreeMinus => Hueco::V2Minus,
            Font::Three => Hueco::V2,
            Font::ThreePlus => Hueco::V2Plus,
            Font::FourMinus => Hueco::V3Minus,
            Font::Four => Hueco::V3,
            Font::FourPlus => Hueco::V3Plus,
            Font::FiveMinus => Hueco::V4Minus,
            Font::Five => Hueco::V4,
            Font::FivePlus => Hueco::V4Plus,
            Font::SixAMinus => Hueco::V5Minus,
            Font::SixA => Hueco::V5,
            Font::SixAPlus => Hueco::V5Plus,
            Font::SixBMinus => Hueco::V6Minus,
            Font::SixB => Hueco::V6,
            Font::SixBPlus => Hueco::V6Plus,
            Font::SixCMinus => Hueco::V7Minus,
            Font::SixC => Hueco::V7,
            Font::SixCPlus => Hueco::V7Plus,
            Font::SevenAMinus => Hueco::V8Minus,
            Font::SevenA => Hueco::V8,
            Font::SevenAPlus => Hueco::V8Plus,
            Font::SevenBMinus => Hueco::V9Minus,
            Font::SevenB => Hueco::V9,
            Font::SevenBPlus => Hueco::V9Plus,
            Font::SevenCMinus => Hueco::V10Minus,
            Font::SevenC => Hueco::V10,
            Font::SevenCPlus => Hueco::V10Plus,
            Font::EightAMinus => Hueco::V11Minus,
            Font::EightA => Hueco::V11,
            Font::EightAPlus => Hueco::V11Plus,
            Font::EightBMinus => Hueco::V12Minus,
            Font::EightB => Hueco::V12,
            Font::EightBPlus => Hueco::V12Plus,
            Font::EightCMinus => Hueco::V13Minus,
            Font::EightC => Hueco::V13,
            Font::EightCPlus => Hueco::V13Plus,
            Font::NineAMinus => Hueco::V14Minus,
            Font::NineA => Hueco::V14,
            Font::NineAPlus => Hueco::V14Plus,
            Font::NineBMinus => Hueco::V15Minus,
            Font::NineB => Hueco::V15,
            Font::NineBPlus => Hueco::V15Plus,
            Font::NineCMinus => Hueco::V16Minus,
            Font::NineC => Hueco::V16,
            Font::NineCPlus => Hueco::V16Plus,
        }
    }
}

impl vstd::std_specs::convert::FromSpecImpl<Font> for Hueco {
    open spec fn obeys_from_spec() -> bool {
        true
    }

    open spec fn from_spec(g: Font) -> Hueco {
        hueco_of_font(g)
    }
}

impl From<Yosemite> for French {
    fn from(g: Yosemite) -> French {
        match g {
            Yosemite::One => French::One,
            Yosemite::Two => French::One,
            Yosemite::Three => French::One,
            Yosemite::Four => French::One,
            Yosemite::FiveZero => French::One,
            Yosemite::FiveOne => French::One,
            Yosemite::FiveTwo => French::One,
            Yosemite::FiveThree => French::Two,
            Yosemite::FiveFour => French::Three,
            Yosemite::FiveFive => French::FourB,
            Yosemite::FiveSix => French::FiveA,
            Yosemite::FiveSeven => French::FiveB,
            Yosemite::FiveEight => French::FiveC,
            Yosemite::FiveNine => French::SixAMinus,
            Yosemite::FiveTenA => French::SixA,
            Yosemite::FiveTenB => French::SixAPlus,
            Yosemite::FiveTenC => French::SixBMinus,
            Yosemite::FiveTenD => French::SixBPlus,
            Yosemite::FiveElevenA => French::SixCMinus,
            Yosemite::FiveElevenB => French::SixCPlus,
            Yosemite::FiveElevenC => French::SevenA,
            Yosemite::FiveElevenD => French::SevenAPlus,
            Yosemite::FiveTwelveA => French::SevenB,
            Yosemite::FiveTwelveB => French::SevenBPlus,
            Yosemite::FiveTwelveC => French::SevenCMinus,
            Yosemite::FiveTwelveD => French::SevenCPlus,
            Yosemite::FiveThirteenA => French::EightAMinus,
            Yosemite::FiveThirteenB => French::EightA,
            Yosemite::FiveThirteenC => French::EightAPlus,
            Yosemite::FiveThirteenD => French::EightBMinus,
            Yosemite::FiveFourteenA => French::EightBPlus,
            Yosemite::FiveFourteenB => French::EightC,
            Yosemite::FiveFourteenC => French::EightCPlus,
            Yosemite::FiveFourteenD => French::NineAMinus,
            Yosemite::FiveFifteenA => French::NineAPlus,
            Yosemite::FiveFifteenB => French::NineB,
            Yosemite::FiveFifteenC => French::NineBPlus,
            Yosemite::FiveFifteenD => French::NineC,
            _ => French::SixC,
        }
    }
}

impl vstd::std_specs::convert::FromSpecImpl<Yosemite> for French {
    open spec fn obeys_from_spec() -> bool {
        true
    }

    open spec fn from_spec(g: Yosemite) -> French {
        french_of_yosemite(g)
    }
}

impl From<Uiaa> for French {
    fn from(g: Uiaa) -> French {
        match g {
            Uiaa::I => French::One,
            Uiaa::Ii => French::Two,
            Uiaa::Iii => French::Three,
            Uiaa::IvMinus => French::FourA,
            Uiaa::Iv => French::FourB,
            Uiaa::IvPlus => French::FourC,
            Uiaa::VMinus => French::FiveA,
            Uiaa::V => French::FiveB,
            Uiaa::VPlus => French::FiveC,
            Uiaa::ViMinus => French::SixAMinus,
            Uiaa::Vi => French::SixA,
            Uiaa::ViPlus => French::SixAPlus,
            Uiaa::ViiMinus => French::SixBMinus,
            Uiaa::Vii => French::SixB,
            Uiaa::ViiPlus => French::SixBPlus,
            Uiaa::ViiiMinus => French::SixCMinus,
            Uiaa::Viii => French::SixC,
            Uiaa::ViiiPlus => French::SixCPlus,
            Uiaa::IxMinus => French::SevenAMinus,
            Uiaa::Ix => French::SevenA,
            Uiaa::IxPlus => French::SevenAPlus,
            Uiaa::XMinus => French::SevenBMinus,
            Uiaa::X => French::SevenB,
            Uiaa::XPlus => French::SevenBPlus,
            Uiaa::XiMinus => French::SevenCMinus,
            Uiaa::Xi => French::SevenC,
            Uiaa::XiPlus => French::SevenCPlus,
            Uiaa::XiiMinus => French::EightAMinus,
            Uiaa::Xii => French::EightA,
            Uiaa::XiiPlus => French::EightAPlus,
        }
    }
}

impl vstd::std_specs::convert::FromSpecImpl<Uiaa> for French {
    open spec fn obeys_from_spec() -> bool {
        true
    }

    open spec fn from_spec(g: Uiaa) -> French {
        french_of_uiaa(g)
    }
}

impl From<Yosemite> for Uiaa {
    fn from(g: Yosemite) -> Uiaa {
        match g {
            Yosemite::FiveZero => Uiaa::I,
            Yosemite::FiveOne => Uiaa::Ii,
            Yosemite::FiveTwo => Uiaa::Iii,
            Yosemite::FiveThree => Uiaa::IvMinus,
            Yosemite::FiveFour => Uiaa::Iv,
            Yosemite::FiveFive => Uiaa::IvPlus,
            Yosemite::FiveSix => Uiaa::VMinus,
            Yosemite::FiveSeven => Uiaa::V,
            Yosemite::FiveEight => Uiaa::VPlus,
            Yosemite::FiveNine => Uiaa::ViMinus,
            Yosemite::FiveTenA => Uiaa::Vi,
            Yosemite::FiveTenB => Uiaa::ViPlus,
            Yosemite::FiveTenC => Uiaa::ViiMinus,
            Yosemite::FiveTenD => Uiaa::Vii,
            Yosemite::FiveElevenA => Uiaa::ViiPlus,
            Yosemite::FiveElevenB => Uiaa::ViiiMinus,
            Yosemite::FiveElevenC => Uiaa::Viii,
            Yosemite::FiveElevenD => Uiaa::ViiiPlus,
            Yosemite::FiveTwelveA => Uiaa::IxMinus,
            Yosemite::FiveTwelveB => Uiaa::Ix,
            Yosemite::FiveTwelveC => Uiaa::IxPlus,
            Yosemite::FiveTwelveD => Uiaa::XMinus,
            Yosemite::FiveThirteenA => Uiaa::X,
            Yosemite::FiveThirteenB => Uiaa::XPlus,
            Yosemite::FiveThirteenC => Uiaa::XiMinus,
            Yosemite::FiveThirteenD => Uiaa::Xi,
            Yosemite::FiveFourteenA => Uiaa::XiPlus,
            Yosemite::FiveFourteenB => Uiaa::XiiMinus,
            Yosemite::FiveFourteenC => Uiaa::Xii,
            Yosemite::FiveFourteenD => Uiaa::XiiPlus,
            _ => Uiaa::Iv,
        }
    }
}

impl vstd::std_specs::convert::FromSpecImpl<Yosemite> for Uiaa {
    open spec fn obeys_from_spec() -> bool {
        true
    }

    open spec fn from_spec(g: Yosemite) -> Uiaa {
        uiaa_of_yosemite(g)
    }
}

impl From<French> for Uiaa {
    fn from(g: French) -> Uiaa {
        match g {
            French::One => Uiaa::I,
            French::Two => Uiaa::Ii,
            French::Three => Uiaa::Iii,
            French::FourA => Uiaa::IvMinus,
            French::FourB => Uiaa::Iv,
            French::FourC => Uiaa::IvPlus,
            French::FiveA => Uiaa::VMinus,
            French::FiveB => Uiaa::V,
            French::FiveC => Uiaa::VPlus,
            French::SixAMinus => Uiaa::ViMinus,
            French::SixA => Uiaa::Vi,
            French::SixAPlus => Uiaa::ViPlus,
            French::SixBMinus => Uiaa::ViiMinus,
            French::SixB => Uiaa::Vii,
            French::SixBPlus => Uiaa::ViiPlus,
            French::SixCMinus => Uiaa::ViiiMinus,
            French::SixC => Uiaa::Viii,
            French::SixCPlus => Uiaa::ViiiPlus,
            French::SevenAMinus => Uiaa::IxMinus,
            French::SevenA => Uiaa::Ix,
            French::SevenAPlus => Uiaa::IxPlus,
            French::SevenBMinus => Uiaa::XMinus,
            French::SevenB => Uiaa::X,
            French::SevenBPlus => Uiaa::XPlus,
            French::SevenCMinus => Uiaa::XiMinus,
            French::SevenC => Uiaa::Xi,
            French::SevenCPlus => Uiaa::XiPlus,
            French::EightAMinus => Uiaa::XiiMinus,
            French::EightA => Uiaa::Xii,
            French::EightAPlus => Uiaa::XiiPlus,
            _ => Uiaa::Viii,
        }
    }
}

impl vstd::std_specs::convert::FromSpecImpl<French> for Uiaa {
    open spec fn obeys_from_spec() -> bool {
        true
    }

    open spec fn from_spec(g: French) -> Uiaa {
        uiaa_of_french(g)
    }
}

/// A grade in one of the supported systems.
#[derive(Clone, Copy, Debug, PartialEq, Eq, Structural)]
pub enum Grade {
    Yosemite(Yosemite),
    Font(Font),
    Hueco(Hueco),
    French(French),
    Uiaa(Uiaa),
}

/// How `g` is written: as the grade it holds.
pub open spec fn grade_text(g: Grade) -> Seq<char> {
    match g {
        Grade::Yosemite(y) => yosemite_text(y),
        Grade::Font(f) => font_text(f),
        Grade::Hueco(h) => hueco_text(h),
        Grade::French(f) => french_text(f),
        Grade::Uiaa(u) => uiaa_text(u),
    }
}

impl Grade {
    /// How the grade is written.
    pub fn label(&self) -> (text: String)
        ensures
            text@ == grade_text(*self),
    {
        match self {
            Grade::Yosemite(g) => g.label(),
            Grade::Font(g) => g.label(),
            Grade::Hueco(g) => g.label(),
            Grade::French(g) => g.label(),
            Grade::Uiaa(g) => g.label(),
        }
    }
}

/// One difficulty expressed in every supported system.
#[derive(Clone, Copy, Debug, Default, PartialEq, Eq, Structural)]
pub struct FullGrade {
    pub yosemite: Yosemite,
    pub font: Font,
    pub hueco: Hueco,
    pub french: French,
    pub uiaa: Uiaa,
}

impl Yosemite {
    /// The grade itself.
    pub fn to_yosemite(&self) -> (g: Yosemite)
        ensures
            g == *self,
    {
        *self
    }

    /// The nearest French grade.
    pub fn to_french(&self) -> (g: French)
        ensures
            g == french_of_yosemite(*self),
    {
        French::from(*self)
    }

    /// The nearest UIAA grade.
    pub fn to_uiaa(&self) -> (g: Uiaa)
        ensures
            g == uiaa_of_yosemite(*self),
    {
        Uiaa::from(*self)
    }
}

impl French {
    /// The nearest Yosemite grade.
    pub fn to_yosemite(&self) -> (g: Yosemite)
        ensures
            g == yosemite_of_french(*self),
    {
        Yosemite::from(*self)
    }

    /// The grade itself.
    pub fn to_french(&self) -> (g: French)
        ensures
            g == *self,
    {
        *self
    }

    /// The nearest UIAA grade.
    pub fn to_uiaa(&self) -> (g: Uiaa)
        ensures
            g == uiaa_of_french(*self),
    {
        Uiaa::from(*self)
    }
}

impl Uiaa {
    /// The nearest Yosemite grade.
    pub fn to_yosemite(&self) -> (g: Yosemite)
        ensures
            g == yosemite_of_uiaa(*self),
    {
        Yosemite::from(*self)
    }

    /// The nearest French grade.
    pub fn to_french(&self) -> (g: French)
        ensures
            g == french_of_uiaa(*self),
    {
        French::from(*self)
    }

    /// The grade itself.
    pub fn to_uiaa(&self) -> (g: Uiaa)
        ensures
            g == *self,
    {
        *self
    }
}

impl Hueco {
    /// The grade itself.
    pub fn to_hueco(&self) -> (g: Hueco)
        ensures
            g == *self,
    {
        *self
    }

    /// The nearest Fontainebleau grade.
    pub fn to_font(&self) -> (g: Font)
        ensures
            g == font_of_hueco(*self),
    {
        Font::from(*self)
    }
}

impl Font {
    /// The nearest Hueco grade.
    pub fn to_hueco(&self) -> (g: Hueco)
        ensures
            g == hueco_of_font(*self),
    {
        Hueco::from(*self)
    }

    /// The grade itself.
    pub fn to_font(&self) -> (g: Font)
        ensures
            g == *self,
    {
        *self
    }
}

/// The character of decimal digit `d`.
pub open spec fn digit_char(d: nat) -> char {
    if d == 0 {
        '0'
    } else if d == 1 {
        '1'
    } else if d == 2 {
        '2'
    } else if d == 3 {
        '3'
    } else if d == 4 {
        '4'
    } else if d == 5 {
        '5'
    } else if d == 6 {
        '6'
    } else if d == 7 {
        '7'
    } else if d == 8 {
        '8'
    } else {
        '9'
    }
}

/// The decimal digits of `n`, most significant first, without leading zeros.
pub open spec fn digits(n: nat) -> Seq<char>
    decreases n,
{
    if n < 10 {
        seq![digit_char(n)]
    } else {
        digits(n / 10).push(digit_char(n % 10))
    }
}

/// `n` written in decimal, with a leading `-` when negative.
pub open spec fn decimal(n: int) -> Seq<char> {
    if n < 0 {
        seq!['-'] + digits((-n) as nat)
    } else {
        digits(n as nat)
    }
}

fn digit_str(d: u32) -> (s: &'static str)
    requires
        d < 10,
    ensures
        s@ == seq![digit_char(d as nat)],
{
    proof {
        reveal_strlit("0");
        reveal_strlit("1");
        reveal_strlit("2");
        reveal_strlit("3");
        reveal_strlit("4");
        reveal_strlit("5");
        reveal_strlit("6");
        reveal_strlit("7");
        reveal_strlit("8");
        reveal_strlit("9");
    }
    if d == 0 {
        "0"
    } else if d == 1 {
        "1"
    } else if d == 2 {
        "2"
    } else if d == 3 {
        "3"
    } else if d == 4 {
        "4"
    } else if d == 5 {
        "5"
    } else if d == 6 {
        "6"
    } else if d == 7 {
        "7"
    } else if d == 8 {
        "8"
    } else {
        "9"
    }
}

fn append_digits(s: &mut String, n: u32)
    ensures
        final(s)@ == old(s)@ + digits(n as nat),
    decreases n,
{
    if n >= 10 {
        append_digits(s, n / 10);
    }
    s.append(digit_str(n % 10));
    assert(final(s)@ =~= old(s)@ + digits(n as nat));
}

fn append_decimal(s: &mut String, n: i32)
    ensures
        final(s)@ == old(s)@ + decimal(n as int),
{
    if n < 0 {
        proof {
            reveal_strlit("-");
        }
        s.append("-");
        let magnitude = (0 - (n as i64)) as u32;
        append_digits(s, magnitude);
    } else {
        append_digits(s, n as u32);
    }
    assert(final(s)@ =~= old(s)@ + decimal(n as int));
}

/// A climbing route.
#[derive(Clone, Debug)]
pub struct Route {
    pub name: String,
    pub grade: Grade,
    pub style: Vec<Style>,
    pub length: i32,
    pub pitches: i32,
    pub location: String,
}

/// How `r` is described on one line: name, grade, length in feet, pitches
/// and location.
pub open spec fn route_text(r: Route) -> Seq<char> {
    r.name@ + ": "@ + grade_text(r.grade) + ", "@ + decimal(r.length as int) + " ft, "@
        + decimal(r.pitches as int) + " pitches, at "@ + r.location@
}

impl Route {
    /// A route with the given fields.
    pub fn new(
        name: String,
        grade: Grade,
        style: Vec<Style>,
        length: i32,
        pitches: i32,
        location: String,
    ) -> (r: Route)
        ensures
            r.name == name,
            r.grade == grade,
            r.style == style,
            r.length == length,
            r.pitches == pitches,
            r.location == location,
    {
        Route { name, grade, style, length, pitches, location }
    }

    /// The placeholder route: an unnamed single-pitch 5.9 sport route of
    /// unknown length and location.
    pub fn default() -> (r: Route)
        ensures
            r.name@ == "Unnamed Route"@,
            r.grade == Grade::Yosemite(Yosemite::FiveNine),
            r.style@ == seq![Style::Sport],
            r.length == 0,
            r.pitches == 1,
            r.location@ == "Unknown Location"@,
    {
        Route {
            name: String::from_str("Unnamed Route"),
            grade: Grade::Yosemite(Yosemite::FiveNine),
            style: vec![Style::Sport],
            length: 0,
            pitches: 1,
            location: String::from_str("Unknown Location"),
        }
    }

    /// The route described on one line.
    pub fn describe(&self) -> (text: String)
        ensures
            text@ == route_text(*self),
    {
        let mut text = self.name.clone();
        text.append(": ");
        let grade = self.grade.label();
        text.append(grade.as_str());
        text.append(", ");
        append_decimal(&mut text, self.length);
        text.append(" ft, ");
        append_decimal(&mut text, self.pitches);
        text.append(" pitches, at ");
        text.append(self.location.as_str());
        text
    }
}

} // verus!
