use log_book::climbing::{
    BoulderGradeSys, Font, French, FullGrade, Grade, Hueco, Route, SendType, Style, TallGradeSys,
    Uiaa, Yosemite,
};

#[test]
fn grade_labels() {
    assert_eq!(Yosemite::FiveTenA.label(), "5.10a");
    assert_eq!(Yosemite::Ungraded.label(), "None");
    assert_eq!(Font::SixAPlus.label(), "6A+");
    assert_eq!(Hueco::V0Minus.label(), "V0-");
    assert_eq!(Hueco::Ungraded.label(), "None");
    assert_eq!(Uiaa::ViPlus.label(), "VI+");
    assert_eq!(French::SixAPlus.label(), "6a+");
    assert_eq!(Grade::Hueco(Hueco::V5).label(), "V5");
    assert_eq!(Style::TopRope.label(), "Top Rope");
    assert_eq!(SendType::FreeSolo.label(), "Free Solo");
    assert_eq!(TallGradeSys::Uiaa.label(), "UIAA");
    assert_eq!(BoulderGradeSys::Hueco.label(), "Hueco (V-Grade)");
}

#[test]
fn grade_lists() {
    assert_eq!(TallGradeSys::iter(), vec![TallGradeSys::Yosemite, TallGradeSys::French, TallGradeSys::Uiaa]);
    assert_eq!(BoulderGradeSys::iter(), vec![BoulderGradeSys::Hueco, BoulderGradeSys::Font]);
    let y = Yosemite::iter();
    assert_eq!(y.len(), 38);
    assert_eq!(y[0], Yosemite::One);
    assert_eq!(y[37], Yosemite::FiveFifteenD);
    assert!(!y.contains(&Yosemite::Ungraded));
    assert_eq!(Font::iter().len(), 51);
    let h = Hueco::iter();
    assert_eq!(h.len(), 55);
    assert_eq!(h[0], Hueco::Vb);
    assert_eq!(French::iter().len(), 45);
    assert_eq!(Uiaa::iter().len(), 30);
    assert_eq!(SendType::iter().len(), 8);
    assert_eq!(SendType::iter()[0], SendType::Redpoint);
}

#[test]
fn grade_conversions() {
    assert_eq!(Yosemite::from(Hueco::V0), Yosemite::FiveNine);
    assert_eq!(Yosemite::from(Hueco::V12), Yosemite::FiveNine);
    assert_eq!(Yosemite::from(Hueco::Ungraded), Yosemite::Ungraded);
    assert_eq!(Yosemite::from(French::SevenA), Yosemite::FiveElevenC);
    assert_eq!(Yosemite::from(Uiaa::Vii), Yosemite::FiveTenD);
    assert_eq!(Yosemite::from(Font::EightA), Yosemite::FiveThirteenD);
    assert_eq!(Font::from(Hueco::V4), Font::SevenBMinus);
    assert_eq!(Hueco::from(Font::Five), Hueco::V4);
    assert_eq!(French::from(Yosemite::FiveTenA), French::SixA);
    assert_eq!(Uiaa::from(Yosemite::FiveTenA), Uiaa::Vi);
    assert_eq!(Uiaa::from(French::SixA), Uiaa::Vi);
    assert_eq!(French::from(Uiaa::Vi), French::SixA);
    assert_eq!(Hueco::V0.to_font(), Font::SixAMinus);
    assert_eq!(Font::SixAMinus.to_hueco(), Hueco::from(Font::SixAMinus));
    assert_eq!(Yosemite::FiveNine.to_french(), French::from(Yosemite::FiveNine));
    assert_eq!(Yosemite::FiveNine.to_uiaa(), Uiaa::from(Yosemite::FiveNine));
    assert_eq!(French::SixA.to_yosemite(), Yosemite::FiveTenA);
    assert_eq!(Uiaa::Vi.to_yosemite(), Yosemite::FiveTenA);
    assert_eq!(Uiaa::Vi.to_french(), French::SixA);
    assert_eq!(Yosemite::FiveNine.to_yosemite(), Yosemite::FiveNine);
}

#[test]
fn grade_from_numbers_and_text() {
    assert_eq!(Yosemite::from(0), Yosemite::One);
    assert_eq!(Yosemite::from(17), Yosemite::FiveTenD);
    assert_eq!(Yosemite::from(38), Yosemite::Ungraded);
    assert_eq!(Yosemite::from(-3), Yosemite::Ungraded);
    assert_eq!(Hueco::from(-1), Hueco::Vb);
    assert_eq!(Hueco::from(53), Hueco::V17Plus);
    assert_eq!(Hueco::from(54), Hueco::Ungraded);
    assert_eq!(Yosemite::from(String::from("5.10a")), Yosemite::FiveTenA);
    assert_eq!(Yosemite::from(String::from("None")), Yosemite::Ungraded);
    assert_eq!(Yosemite::from(String::from("5.10")), Yosemite::FiveNine);
    assert_eq!(Hueco::from(String::from("V3+")), Hueco::V3Plus);
    assert_eq!(Hueco::from(String::from("v3")), Hueco::V0);
}

#[test]
fn grade_defaults() {
    assert_eq!(Yosemite::default(), Yosemite::FiveNine);
    assert_eq!(Font::default(), Font::Three);
    assert_eq!(Hueco::default(), Hueco::V0);
    assert_eq!(SendType::default(), SendType::Attempt);
    let full = FullGrade::default();
    assert_eq!(full.french, French::SixAMinus);
    assert_eq!(full.uiaa, Uiaa::ViMinus);
}

#[test]
fn route_new_and_default() {
    let r = Route::new(
        String::from("Snake Dike"),
        Grade::Yosemite(Yosemite::FiveSeven),
        vec![Style::Trad],
        800,
        8,
        String::from("Half Dome"),
    );
    assert_eq!(r.describe(), "Snake Dike: 5.7, 800 ft, 8 pitches, at Half Dome");
    let d = Route::default();
    assert_eq!(d.name, "Unnamed Route");
    assert_eq!(d.pitches, 1);
    assert_eq!(d.describe(), "Unnamed Route: 5.9, 0 ft, 1 pitches, at Unknown Location");
    let neg = Route::new(String::from("x"), Grade::Uiaa(Uiaa::V), vec![], -2147483648, 10, String::from("y"));
    assert_eq!(neg.describe(), "x: V, -2147483648 ft, 10 pitches, at y");
}
