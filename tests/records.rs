use ferrif::ifdb::{
    bool_to_int, convert_int_to_str, db_str_to_direction, direction_from_lowercase,
    map_text_to_direction, Clue, MapDirection, SaveType,
};
use ferrif::ifiction::{
    convert_cover_format_to_str, convert_format_to_str, convert_forgiveness_to_str,
    convert_ifictiondate_to_str, convert_str_to_cover_format, convert_str_to_forgiveness,
    convert_str_to_ifictiondate,
    Bibilographic, CoverFormat, Forgiveness, Format, IFictionDate, Identification, TempStory,
};
use ferrif::windows::{ButtonWindow, CommandOutputWindowState, TranscriptWindowState};

#[test]
fn format_and_cover_format_names() {
    assert_eq!(convert_format_to_str(Format::ZCODE), "ZCODE");
    assert_eq!(convert_cover_format_to_str(CoverFormat::JPG), "JPG");
    assert_eq!(convert_cover_format_to_str(CoverFormat::PNG), "PNG");
    assert_eq!(convert_str_to_cover_format(Some("PNG".to_string())), Some(CoverFormat::PNG));
    assert_eq!(convert_str_to_cover_format(Some("JPG".to_string())), Some(CoverFormat::JPG));
    assert_eq!(convert_str_to_cover_format(Some("png".to_string())), None);
    assert_eq!(convert_str_to_cover_format(None), None);
}

#[test]
fn dates_as_text() {
    assert_eq!(convert_ifictiondate_to_str(None), None);
    assert_eq!(convert_ifictiondate_to_str(Some(IFictionDate::Year(1999))), Some("1999".to_string()));
    assert_eq!(
        convert_ifictiondate_to_str(Some(IFictionDate::YearMonthDay(2021, 3, 14))),
        Some("2021-03-14".to_string())
    );
    assert_eq!(
        convert_ifictiondate_to_str(Some(IFictionDate::YearMonthDay(2022, 12, 5))),
        Some("2022-12-05".to_string())
    );
}

#[test]
fn forgiveness_round_trip() {
    for f in [
        Forgiveness::Merciful,
        Forgiveness::Polite,
        Forgiveness::Tough,
        Forgiveness::Nasty,
        Forgiveness::Cruel,
    ] {
        assert_eq!(convert_str_to_forgiveness(convert_forgiveness_to_str(Some(f))), Some(f));
    }
    assert_eq!(convert_forgiveness_to_str(Some(Forgiveness::Cruel)), Some("Cruel".to_string()));
    assert_eq!(convert_str_to_forgiveness(Some("cruel".to_string())), None);
    assert_eq!(convert_str_to_forgiveness(None), None);
    assert_eq!(convert_forgiveness_to_str(None), None);
}

fn bibliographic() -> Bibilographic {
    Bibilographic {
        title: "A Title".to_string(),
        author: "An Author".to_string(),
        language: None,
        headline: None,
        first_published: Some(IFictionDate::Year(2022)),
        genre: None,
        group: None,
        series: None,
        series_number: None,
        forgiveness: Some(Forgiveness::Polite),
        description: None,
    }
}

#[test]
fn temp_story_needs_identification_and_bibliographic() {
    let mut t = TempStory::new();
    assert_eq!(t.to_story().err(), Some("No valid identification on story"));
    t.identification = Some(Identification {
        ifids: vec!["ZCODE-12345".to_string()],
        format: Format::ZCODE,
    });
    assert_eq!(t.to_story().err(), Some("No valid bibiographic on story"));
    t.bibiographic = Some(bibliographic());
    let story = t.to_story().unwrap();
    assert_eq!(story.bibliographic.title, "A Title");
    assert_eq!(story.identification.ifids, vec!["ZCODE-12345".to_string()]);
    assert!(story.resources.is_empty());
}

#[test]
fn save_type_names() {
    assert_eq!(SaveType::Normal.to_string(), "Normal");
    assert_eq!(SaveType::Autosave.to_string(), "Autosave");
}

#[test]
fn clue_text_is_revealed() {
    let clue = Clue { dbid: 1, text: "\"Sgd zmrvdq hr \\\"Xdr\\\".\"".to_string(), is_revealed: false };
    assert_eq!(clue.revealed_text(), "The answer is \"Yes\".");
    let clue = Clue { dbid: 2, text: "Zz 42!".to_string(), is_revealed: true };
    assert_eq!(clue.revealed_text(), "Aa 42!");
}

#[test]
fn directions_from_text() {
    assert_eq!(map_text_to_direction("NORTH"), MapDirection::North);
    assert_eq!(map_text_to_direction("Sw"), MapDirection::Southwest);
    assert_eq!(map_text_to_direction("enter"), MapDirection::Enter);
    assert_eq!(map_text_to_direction("sideways"), MapDirection::Unknown);
    assert_eq!(direction_from_lowercase("ne"), MapDirection::Northeast);
    assert_eq!(direction_from_lowercase("NE"), MapDirection::Unknown);
    assert_eq!(db_str_to_direction("Northwest".to_string()), MapDirection::Northwest);
    assert_eq!(db_str_to_direction("northwest".to_string()), MapDirection::Unknown);
}

#[test]
fn integers_as_text() {
    assert_eq!(convert_int_to_str(Some(0)), Some("0".to_string()));
    assert_eq!(convert_int_to_str(Some(4294967295)), Some("4294967295".to_string()));
    assert_eq!(convert_int_to_str(None), None);
    assert_eq!(bool_to_int(true), 1);
    assert_eq!(bool_to_int(false), 0);
}

#[test]
fn button_window_open_states() {
    let mut w = ButtonWindow::create();
    assert!(!w.is_open());
    w.set_open(true);
    // Reopening: closed for a frame before it shows again
    assert!(!w.is_open());
    w.set_open(false);
    assert!(!w.is_open());
}

#[test]
fn tool_window_states() {
    let mut t = TranscriptWindowState::create();
    assert!(!t.is_open());
    assert!(t.transcript_path.is_empty());
    t.open();
    assert!(!t.is_open());
    let mut c = CommandOutputWindowState::create();
    assert!(!c.is_open());
    c.open();
    assert!(!c.is_active);
}

#[test]
fn dates_from_text() {
    assert_eq!(convert_str_to_ifictiondate(None), None);
    assert_eq!(convert_str_to_ifictiondate(Some("1999".to_string())), Some(IFictionDate::Year(1999)));
    assert_eq!(
        convert_str_to_ifictiondate(Some("2021-03-14".to_string())),
        Some(IFictionDate::YearMonthDay(2021, 3, 14))
    );
    assert_eq!(
        convert_str_to_ifictiondate(Some("Released 2020-1-5".to_string())),
        Some(IFictionDate::Year(2020))
    );
    assert_eq!(
        convert_str_to_ifictiondate(Some("12345-06-07".to_string())),
        Some(IFictionDate::Year(1234))
    );
    assert_eq!(convert_str_to_ifictiondate(Some("no date".to_string())), None);
    assert_eq!(convert_str_to_ifictiondate(Some("99-12".to_string())), None);
}

#[test]
fn story_copies_its_parts() {
    let mut t = TempStory::new();
    t.identification = Some(Identification { ifids: vec!["A".to_string()], format: Format::ZCODE });
    t.bibiographic = Some(bibliographic());
    let story = t.to_story().unwrap();
    assert_eq!(story.bibliographic, bibliographic());
    assert_eq!(story.contacts, None);
    assert_eq!(story.cover, None);
}
