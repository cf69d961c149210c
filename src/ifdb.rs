//! The records the player keeps about stories: saves, sessions, themes,
//! clues, map notes and fonts.
use vstd::prelude::*;
use crate::text::{chars_of, decimal, decimal_string, lower_of, lowercase, push_char, str_eq};

verus! {

#[derive(PartialEq, Eq, Debug, Clone, Copy, Structural)]
pub enum SaveType {
    Normal,
    Autosave,
}

impl SaveType {
    pub fn to_string(&self) -> (r: &'static str)
        ensures
            r@ == match self {
                SaveType::Normal => "Normal"@,
                SaveType::Autosave => "Autosave"@,
            },
    {
        match self {
            SaveType::Normal => "Normal",
            SaveType::Autosave => "Autosave",
        }
    }
}

#[derive(PartialEq, Debug, Clone)]
pub struct DbSave {
    pub dbid: i64,
    // Version of the save data; it changes when the save logic does
    pub version: i64,
    pub ifid: String,
    pub name: String,
    // Set when stored; may be left blank on save
    pub saved_when: String,
    pub data: Vec<u8>,
    pub save_type: SaveType,
    // Only used for autosaves
    pub pc: usize,
    pub parent_id: i64,
    pub room_id: u32,
    pub next_pc: Option<usize>,
    pub text_buffer_address: Option<u16>,
    pub parse_buffer_address: Option<u16>,
    pub left_status: Option<String>,
    pub right_status: Option<String>,
    pub latest_text: Option<String>,
}

#[derive(PartialEq, Debug, Clone)]
pub struct DBSession {
    pub ifid: String,
    pub details_open: bool,
    pub tools_open: bool,
    pub debug_open: bool,
    pub clues_open: bool,
    pub notes_open: bool,
    pub map_open: bool,
    pub saves_open: bool,
    pub transcript_active: bool,
    pub transcript_name: String,
    pub command_out_active: bool,
    pub command_out_name: String,
    pub last_clue_section: String,
}

#[derive(PartialEq, Eq, Clone, Copy, Debug, Structural)]
pub struct DbColor {
    pub r: i64,
    pub g: i64,
    pub b: i64,
    pub a: i64,
}

#[derive(PartialEq, Eq, Clone, Copy, Debug, Structural)]
pub enum ThemeType {
    Dark,
    Light,
    Custom,
}

#[derive(PartialEq, Clone, Debug)]
pub struct DbTheme {
    pub name: String,
    pub theme_type: ThemeType,
    pub font_size: i64,
    pub font_id: Option<i64>,
    pub background_color: Option<DbColor>,
    pub text_color: Option<DbColor>,
    pub stroke_color: Option<DbColor>,
    pub secondary_background_color: Option<DbColor>,
}

#[derive(PartialEq, Debug, Clone)]
pub enum DbSaveError {
    ExistingSave,
    Other(String),
}

#[derive(PartialEq, Debug, Clone)]
pub struct Clue {
    pub dbid: u32,
    pub text: String,
    pub is_revealed: bool,
}

/// Clue texts are stored with each letter moved one back in the alphabet;
/// this moves it forward again.
pub open spec fn shift_letter(c: char) -> char {
    match c {
        'a' => 'b',
        'b' => 'c',
        'c' => 'd',
        'd' => 'e',
        'e' => 'f',
        'f' => 'g',
        'g' => 'h',
        'h' => 'i',
        'i' => 'j',
        'j' => 'k',
        'k' => 'l',
        'l' => 'm',
        'm' => 'n',
        'n' => 'o',
        'o' => 'p',
        'p' => 'q',
        'q' => 'r',
        'r' => 's',
        's' => 't',
        't' => 'u',
        'u' => 'v',
        'v' => 'w',
        'w' => 'x',
        'x' => 'y',
        'y' => 'z',
        'z' => 'a',
        'A' => 'B',
        'B' => 'C',
        'C' => 'D',
        'D' => 'E',
        'E' => 'F',
        'F' => 'G',
        'G' => 'H',
        'H' => 'I',
        'I' => 'J',
        'J' => 'K',
        'K' => 'L',
        'L' => 'M',
        'M' => 'N',
        'N' => 'O',
        'O' => 'P',
        'P' => 'Q',
        'Q' => 'R',
        'R' => 'S',
        'S' => 'T',
        'T' => 'U',
        'U' => 'V',
        'V' => 'W',
        'W' => 'X',
        'X' => 'Y',
        'Y' => 'Z',
        'Z' => 'A',
        _ => c,
    }
}

fn shift_letter_exec(c: char) -> (r: char)
    ensures
        r == shift_letter(c),
{
    match c {
        'a' => 'b',
        'b' => 'c',
        'c' => 'd',
        'd' => 'e',
        'e' => 'f',
        'f' => 'g',
        'g' => 'h',
        'h' => 'i',
        'i' => 'j',
        'j' => 'k',
        'k' => 'l',
        'l' => 'm',
        'm' => 'n',
        'n' => 'o',
        'o' => 'p',
        'p' => 'q',
        'q' => 'r',
        'r' => 's',
        's' => 't',
        't' => 'u',
        'u' => 'v',
        'v' => 'w',
        'w' => 'x',
        'x' => 'y',
        'y' => 'z',
        'z' => 'a',
        'A' => 'B',
        'B' => 'C',
        'C' => 'D',
        'D' => 'E',
        'E' => 'F',
        'F' => 'G',
        'G' => 'H',
        'H' => 'I',
        'I' => 'J',
        'J' => 'K',
        'K' => 'L',
        'L' => 'M',
        'M' => 'N',
        'N' => 'O',
        'O' => 'P',
        'P' => 'Q',
        'Q' => 'R',
        'R' => 'S',
        'S' => 'T',
        'T' => 'U',
        'U' => 'V',
        'V' => 'W',
        'W' => 'X',
        'X' => 'Y',
        'Y' => 'Z',
        'Z' => 'A',
        _ => c,
    }
}

/// A text with each escaped quotation mark `\"` made a plain one, read left
/// to right.
pub open spec fn unescape_quotes(s: Seq<char>) -> Seq<char>
    decreases s.len(),
{
    if s.len() == 0 {
        seq![]
    } else if s.len() >= 2 && s[0] == '\\' && s[1] == '"' {
        seq!['"'] + unescape_quotes(s.skip(2))
    } else {
        seq![s[0]] + unescape_quotes(s.skip(1))
    }
}

/// A text less one leading and one trailing quotation mark, where present.
pub open spec fn strip_quotes(s: Seq<char>) -> Seq<char> {
    let a = if s.len() > 0 && s[0] == '"' {
        s.skip(1)
    } else {
        s
    };
    if a.len() > 0 && a.last() == '"' {
        a.drop_last()
    } else {
        a
    }
}

/// The clue text as shown: letters moved forward, surrounding quotation
/// marks dropped, escaped ones made plain.
pub open spec fn revealed(s: Seq<char>) -> Seq<char> {
    unescape_quotes(strip_quotes(s.map_values(|c: char| shift_letter(c))))
}

impl Clue {
    pub fn revealed_text(&self) -> (r: String)
        ensures
            r@ == revealed(self.text@),
    {
        let chars = chars_of(self.text.as_str());
        let ghost shifted = self.text@.map_values(|c: char| shift_letter(c));
        let mut v: Vec<char> = Vec::new();
        let mut i: usize = 0;
        while i < chars.len()
            invariant
                chars@ == self.text@,
                shifted == self.text@.map_values(|c: char| shift_letter(c)),
                i <= chars.len(),
                v@ == shifted.take(i as int),
            decreases chars.len() - i,
        {
            v.push(shift_letter_exec(chars[i]));
            i = i + 1;
            assert(v@ =~= shifted.take(i as int));
        }
        assert(shifted.take(chars.len() as int) == shifted);
        // Clues may have surrounding quotation marks
        let mut from: usize = 0;
        let mut to: usize = v.len();
        if to > 0 && v[0] == '"' {
            from = 1;
        }
        if to > from && v[to - 1] == '"' {
            to = to - 1;
        }
        let ghost stripped = strip_quotes(shifted);
        assert(stripped =~= v@.subrange(from as int, to as int));
        // and escaped quotation marks inside
        let mut out = String::new();
        let mut j = from;
        while j < to
            invariant
                from <= j <= to <= v.len(),
                stripped == v@.subrange(from as int, to as int),
                out@ + unescape_quotes(v@.subrange(j as int, to as int)) == unescape_quotes(stripped),
            decreases to - j,
        {
            let rest = Ghost(v@.subrange(j as int, to as int));
            if j + 1 < to && v[j] == '\\' && v[j + 1] == '"' {
                push_char(&mut out, '"');
                assert(rest@.skip(2) =~= v@.subrange(j + 2, to as int));
                assert(out@ + unescape_quotes(v@.subrange(j + 2, to as int)) =~= unescape_quotes(stripped));
                j = j + 2;
            } else {
                push_char(&mut out, v[j]);
                assert(rest@.skip(1) =~= v@.subrange(j + 1, to as int));
                assert(out@ + unescape_quotes(v@.subrange(j + 1, to as int)) =~= unescape_quotes(stripped));
                j = j + 1;
            }
        }
        assert(v@.subrange(j as int, to as int) =~= Seq::<char>::empty());
        assert(out@ + Seq::<char>::empty() == out@);
        out
    }
}

#[derive(PartialEq, Debug, Clone)]
pub struct ClueSubsection {
    pub dbid: u32,
    pub name: String,
    pub clues: Vec<Clue>,
}

#[derive(PartialEq, Debug, Clone)]
pub struct ClueSection {
    pub dbid: u32,
    pub story_id: u32,
    pub name: String,
    pub subsections: Vec<ClueSubsection>,
}

#[derive(PartialEq, Eq, Debug, Clone, Copy, Hash, Structural)]
pub enum MapDirection {
    North,
    Northeast,
    East,
    Southeast,
    South,
    Southwest,
    West,
    Northwest,
    Up,
    Down,
    Enter,
    Exit,
    Unknown,
}

/// The direction a lower-case word or abbreviation names.
pub open spec fn direction_of_lower(t: Seq<char>) -> MapDirection {
    if t == "n"@ || t == "north"@ {
        MapDirection::North
    } else if t == "ne"@ || t == "northeast"@ {
        MapDirection::Northeast
    } else if t == "e"@ || t == "east"@ {
        MapDirection::East
    } else if t == "se"@ || t == "southeast"@ {
        MapDirection::Southeast
    } else if t == "s"@ || t == "south"@ {
        MapDirection::South
    } else if t == "sw"@ || t == "southwest"@ {
        MapDirection::Southwest
    } else if t == "w"@ || t == "west"@ {
        MapDirection::West
    } else if t == "nw"@ || t == "northwest"@ {
        MapDirection::Northwest
    } else if t == "u"@ || t == "up"@ {
        MapDirection::Up
    } else if t == "d"@ || t == "down"@ {
        MapDirection::Down
    } else if t == "enter"@ {
        MapDirection::Enter
    } else if t == "exit"@ {
        MapDirection::Exit
    } else {
        MapDirection::Unknown
    }
}

/// The direction a word names, in any case.
pub open spec fn direction_of_text(s: Seq<char>) -> MapDirection {
    direction_of_lower(lower_of(s))
}

/// The direction a lower-case word or abbreviation names; Unknown for any
/// other text.
pub fn direction_from_lowercase(t: &str) -> (r: MapDirection)
    ensures
        r == direction_of_lower(t@),
{
    if str_eq(t, "n") || str_eq(t, "north") {
        MapDirection::North
    } else if str_eq(t, "ne") || str_eq(t, "northeast") {
        MapDirection::Northeast
    } else if str_eq(t, "e") || str_eq(t, "east") {
        MapDirection::East
    } else if str_eq(t, "se") || str_eq(t, "southeast") {
        MapDirection::Southeast
    } else if str_eq(t, "s") || str_eq(t, "south") {
        MapDirection::South
    } else if str_eq(t, "sw") || str_eq(t, "southwest") {
        MapDirection::Southwest
    } else if str_eq(t, "w") || str_eq(t, "west") {
        MapDirection::West
    } else if str_eq(t, "nw") || str_eq(t, "northwest") {
        MapDirection::Northwest
    } else if str_eq(t, "u") || str_eq(t, "up") {
        MapDirection::Up
    } else if str_eq(t, "d") || str_eq(t, "down") {
        MapDirection::Down
    } else if str_eq(t, "enter") {
        MapDirection::Enter
    } else if str_eq(t, "exit") {
        MapDirection::Exit
    } else {
        MapDirection::Unknown
    }
}

/// Convert a direction text, in any case, to a direction; Unknown for
/// unknown directions.
pub fn map_text_to_direction(direction: &str) -> (r: MapDirection)
    ensures
        r == direction_of_text(direction@),
{
    let lower = lowercase(direction);
    direction_from_lowercase(lower.as_str())
}

/// The direction stored under a variant's name.
pub open spec fn direction_of_name(t: Seq<char>) -> MapDirection {
    if t == "North"@ {
        MapDirection::North
    } else if t == "Northeast"@ {
        MapDirection::Northeast
    } else if t == "East"@ {
        MapDirection::East
    } else if t == "Southeast"@ {
        MapDirection::Southeast
    } else if t == "South"@ {
        MapDirection::South
    } else if t == "Southwest"@ {
        MapDirection::Southwest
    } else if t == "West"@ {
        MapDirection::West
    } else if t == "Northwest"@ {
        MapDirection::Northwest
    } else if t == "Up"@ {
        MapDirection::Up
    } else if t == "Down"@ {
        MapDirection::Down
    } else if t == "Enter"@ {
        MapDirection::Enter
    } else if t == "Exit"@ {
        MapDirection::Exit
    } else {
        MapDirection::Unknown
    }
}

pub fn db_str_to_direction(direction_str: String) -> (r: MapDirection)
    ensures
        r == direction_of_name(direction_str@),
{
    let t = direction_str.as_str();
    if str_eq(t, "North") {
        MapDirection::North
    } else if str_eq(t, "Northeast") {
        MapDirection::Northeast
    } else if str_eq(t, "East") {
        MapDirection::East
    } else if str_eq(t, "Southeast") {
        MapDirection::Southeast
    } else if str_eq(t, "South") {
        MapDirection::South
    } else if str_eq(t, "Southwest") {
        MapDirection::Southwest
    } else if str_eq(t, "West") {
        MapDirection::West
    } else if str_eq(t, "Northwest") {
        MapDirection::Northwest
    } else if str_eq(t, "Up") {
        MapDirection::Up
    } else if str_eq(t, "Down") {
        MapDirection::Down
    } else if str_eq(t, "Enter") {
        MapDirection::Enter
    } else if str_eq(t, "Exit") {
        MapDirection::Exit
    } else {
        MapDirection::Unknown
    }
}

#[derive(PartialEq, Debug, Clone)]
pub struct MapConnection {
    pub dbid: i64,
    pub map_dbid: i64,
    pub from_room_id: u32,
    pub to_room_id: u32,
    pub direction: MapDirection,
    pub reverse_direction: MapDirection,
    pub notes: Option<String>,
}

#[derive(PartialEq, Debug, Clone)]
pub struct MapRoom {
    pub dbid: i64,
    pub story_id: i64,
    pub room_id: u32,
    pub name: String,
}

#[derive(PartialEq, Debug, Clone)]
pub struct Note {
    pub dbid: i64,
    pub story_id: i64,
    pub room_id: u32,
    pub notes: String,
    pub room_name: Option<String>,
    pub done: bool,
}

#[derive(PartialEq, Eq, Debug, Clone, Copy, Structural)]
pub enum WindowType {
    Main,
}

#[derive(PartialEq, Debug, Clone)]
pub struct DbFont {
    pub dbid: i64,
    pub name: String,
    pub data: Vec<u8>,
    pub monospace: bool,
}

pub fn convert_int_to_str(d: Option<u32>) -> (r: Option<String>)
    ensures
        d is None <==> r is None,
        d is Some ==> r->Some_0@ == decimal(d->Some_0 as nat),
{
    match d {
        None => None,
        Some(e) => Some(decimal_string(e as usize)),
    }
}

pub fn bool_to_int(b: bool) -> (r: i32)
    ensures
        r == if b {
            1i32
        } else {
            0i32
        },
{
    if b {
        1
    } else {
        0
    }
}

/// What came of loading one file; the strings are the file's path and an
/// identifier, a title or an error.
#[derive(PartialEq, Debug)]
pub enum LoadFileResult {
    CoverImageSuccess(String, String),
    CoverImageFailure(String, String),
    StoryFileSuccess(String, String),
    StoryFileFailureVersion(String, String),
    StoryFileFailureGeneral(String, String),
    StoryFileFailureDuplicate(String, String),
    IFictionStorySuccess(String, String),
    IFictionStoryIgnored(String, String),
    IFictionStoryFailure(String, String),
    IFictionGeneralFailure(String, String),
    ZipfileFailure(String, String),
    ClueSuccess(String, String),
    ClueFailure(String, String),
    UnsupportedFormat(String),
    LoadCompleted(),
}

} // verus!
