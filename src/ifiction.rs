//! Bibliographic records of stories and the text forms of their fields.
use vstd::prelude::*;
use crate::text::{chars_of, decimal, decimal_string, str_eq};

verus! {

#[allow(clippy::upper_case_acronyms)]
#[derive(PartialEq, Eq, Debug, Clone, Copy, Structural)]
pub enum Format {
    ZCODE,
}

pub fn convert_format_to_str(_f: Format) -> (r: String)
    ensures
        r@ == "ZCODE"@,
{
    String::from_str("ZCODE")
}

#[derive(PartialEq, Debug, Clone)]
pub struct Identification {
    pub ifids: Vec<String>,
    pub format: Format,
}

#[derive(PartialEq, Eq, Debug, Copy, Clone, Structural)]
pub enum IFictionDate {
    Year(u32),
    YearMonthDay(u32, u32, u32),
}

/// At least two digits, with a leading zero below ten.
pub open spec fn two_digits(n: nat) -> Seq<char> {
    if n < 10 {
        seq!['0'] + decimal(n)
    } else {
        decimal(n)
    }
}

/// A date as text: the year, or year, month and day as `Y-MM-DD`.
pub open spec fn date_text(d: IFictionDate) -> Seq<char> {
    match d {
        IFictionDate::Year(y) => decimal(y as nat),
        IFictionDate::YearMonthDay(y, m, dd) => decimal(y as nat) + seq!['-'] + two_digits(m as nat)
            + seq!['-'] + two_digits(dd as nat),
    }
}

fn two_digit_string(n: u32) -> (r: String)
    ensures
        r@ == two_digits(n as nat),
{
    let digits = decimal_string(n as usize);
    if n < 10 {
        let mut s = String::from_str("0");
        s.append(digits.as_str());
        proof {
            reveal_strlit("0");
        }
        s
    } else {
        digits
    }
}

pub fn convert_ifictiondate_to_str(d: Option<IFictionDate>) -> (r: Option<String>)
    ensures
        d is None <==> r is None,
        d is Some ==> r->Some_0@ == date_text(d->Some_0),
{
    match d {
        None => None,
        Some(e) => match e {
            IFictionDate::Year(y) => Some(decimal_string(y as usize)),
            IFictionDate::YearMonthDay(y, m, dd) => {
                let mut s = decimal_string(y as usize);
                s.append("-");
                s.append(two_digit_string(m).as_str());
                s.append("-");
                s.append(two_digit_string(dd).as_str());
                proof {
                    reveal_strlit("-");
                }
                Some(s)
            },
        },
    }
}

pub open spec fn is_digit(c: char) -> bool {
    48 <= (c as u32) <= 57
}

pub open spec fn digit_value(c: char) -> nat {
    ((c as u32) - 48) as nat
}

/// Whether `s` holds `k` decimal digits from position `i`.
pub open spec fn digits_at(s: Seq<char>, i: int, k: int) -> bool {
    &&& 0 <= i
    &&& i + k <= s.len()
    &&& forall|j: int| i <= j < i + k ==> is_digit(#[trigger] s[j])
}

/// The number written by the `k` digits of `s` from position `i`.
pub open spec fn number_at(s: Seq<char>, i: int, k: nat) -> nat
    decreases k,
{
    if k == 0 {
        0
    } else {
        number_at(s, i, (k - 1) as nat) * 10 + digit_value(s[i + k - 1])
    }
}

pub open spec fn pow10(k: nat) -> nat
    decreases k,
{
    if k == 0 {
        1
    } else {
        10 * pow10((k - 1) as nat)
    }
}

/// The first position, from `i` on, of four digits in a row; -1 if none.
pub open spec fn first_year_from(s: Seq<char>, i: int) -> int
    decreases s.len() - i,
{
    if i < 0 || i + 4 > s.len() {
        -1
    } else if digits_at(s, i, 4) {
        i
    } else {
        first_year_from(s, i + 1)
    }
}

/// Whether the four digits at `i` go on as `-MM-DD`.
pub open spec fn full_date_at(s: Seq<char>, i: int) -> bool {
    &&& i + 10 <= s.len()
    &&& s[i + 4] == '-'
    &&& digits_at(s, i + 5, 2)
    &&& s[i + 7] == '-'
    &&& digits_at(s, i + 8, 2)
}

/// The date a text holds: its first four digits in a row are the year;
/// when `-MM-DD` follows, that is the month and the day. Digits are the
/// ASCII ones.
pub open spec fn date_of(s: Seq<char>) -> Option<IFictionDate> {
    let i = first_year_from(s, 0);
    if i < 0 {
        None
    } else if full_date_at(s, i) {
        Some(
            IFictionDate::YearMonthDay(
                number_at(s, i, 4) as u32,
                number_at(s, i + 5, 2) as u32,
                number_at(s, i + 8, 2) as u32,
            ),
        )
    } else {
        Some(IFictionDate::Year(number_at(s, i, 4) as u32))
    }
}

fn is_digit_exec(c: char) -> (r: bool)
    ensures
        r == is_digit(c),
{
    48 <= (c as u32) && (c as u32) <= 57
}

fn digits_at_exec(v: &Vec<char>, i: usize, k: usize) -> (r: bool)
    requires
        i + k <= v.len(),
    ensures
        r == digits_at(v@, i as int, k as int),
{
    let mut j: usize = 0;
    while j < k
        invariant
            j <= k,
            i + k <= v.len(),
            forall|m: int| i <= m < i + j ==> is_digit(#[trigger] v@[m]),
        decreases k - j,
    {
        if !is_digit_exec(v[i + j]) {
            return false;
        }
        j = j + 1;
    }
    true
}

fn number_exec(v: &Vec<char>, i: usize, k: usize) -> (r: u32)
    requires
        digits_at(v@, i as int, k as int),
        i + k <= v.len(),
        k <= 4,
    ensures
        r == number_at(v@, i as int, k as nat),
{
    let mut acc: u32 = 0;
    let mut j: usize = 0;
    proof {
        reveal_with_fuel(pow10, 5);
    }
    while j < k
        invariant
            j <= k <= 4,
            i + k <= v.len(),
            digits_at(v@, i as int, k as int),
            acc == number_at(v@, i as int, j as nat),
            acc < pow10(j as nat),
            pow10(0) == 1 && pow10(1) == 10 && pow10(2) == 100 && pow10(3) == 1000 && pow10(4)
                == 10000,
        decreases k - j,
    {
        let c = v[i + j];
        assert(is_digit(v@[i + j]));
        acc = acc * 10 + ((c as u32) - 48);
        j = j + 1;
        proof {
            assert(pow10(j as nat) == 10 * pow10((j - 1) as nat));
        }
    }
    acc
}

// The date in a text, or an error when it has none
fn parse_ifictiondate(s: &str) -> (r: Result<IFictionDate, &'static str>)
    ensures
        match date_of(s@) {
            Some(d) => r == Ok::<IFictionDate, &'static str>(d),
            None => r == Err::<IFictionDate, &'static str>("Invalid date"),
        },
{
    let v = chars_of(s);
    let mut i: usize = 0;
    while i < v.len() && v.len() - i >= 4
        invariant
            v@ == s@,
            i <= v.len(),
            first_year_from(v@, 0) == first_year_from(v@, i as int),
        decreases v.len() - i,
    {
        if digits_at_exec(&v, i, 4) {
            let year = number_exec(&v, i, 4);
            if v.len() - i >= 10 && v[i + 4] == '-' && digits_at_exec(&v, i + 5, 2) && v[i + 7]
                == '-' && digits_at_exec(&v, i + 8, 2) {
                let month = number_exec(&v, i + 5, 2);
                let day = number_exec(&v, i + 8, 2);
                return Ok(IFictionDate::YearMonthDay(year, month, day));
            }
            return Ok(IFictionDate::Year(year));
        }
        i = i + 1;
    }
    Err("Invalid date")
}

pub fn convert_str_to_ifictiondate(s: Option<String>) -> (r: Option<IFictionDate>)
    ensures
        r == match s {
            None => None,
            Some(d) => date_of(d@),
        },
{
    match s {
        None => None,
        Some(d) => match parse_ifictiondate(d.as_str()) {
            Ok(ifd) => Some(ifd),
            Err(_) => None,
        },
    }
}

#[derive(PartialEq, Eq, Debug, Copy, Clone, Structural)]
pub enum Forgiveness {
    Merciful,
    Polite,
    Tough,
    Nasty,
    Cruel,
}

pub open spec fn forgiveness_name(f: Forgiveness) -> Seq<char> {
    match f {
        Forgiveness::Merciful => "Merciful"@,
        Forgiveness::Polite => "Polite"@,
        Forgiveness::Tough => "Tough"@,
        Forgiveness::Nasty => "Nasty"@,
        Forgiveness::Cruel => "Cruel"@,
    }
}

/// The forgiveness level a name stands for, if any.
pub open spec fn forgiveness_of(s: Seq<char>) -> Option<Forgiveness> {
    if s == "Merciful"@ {
        Some(Forgiveness::Merciful)
    } else if s == "Polite"@ {
        Some(Forgiveness::Polite)
    } else if s == "Tough"@ {
        Some(Forgiveness::Tough)
    } else if s == "Nasty"@ {
        Some(Forgiveness::Nasty)
    } else if s == "Cruel"@ {
        Some(Forgiveness::Cruel)
    } else {
        None
    }
}

pub fn convert_forgiveness_to_str(d: Option<Forgiveness>) -> (r: Option<String>)
    ensures
        d is None <==> r is None,
        d is Some ==> r->Some_0@ == forgiveness_name(d->Some_0),
{
    match d {
        None => None,
        Some(e) => match e {
            Forgiveness::Merciful => Some(String::from_str("Merciful")),
            Forgiveness::Polite => Some(String::from_str("Polite")),
            Forgiveness::Tough => Some(String::from_str("Tough")),
            Forgiveness::Nasty => Some(String::from_str("Nasty")),
            Forgiveness::Cruel => Some(String::from_str("Cruel")),
        },
    }
}

pub fn convert_str_to_forgiveness(s: Option<String>) -> (r: Option<Forgiveness>)
    ensures
        r == match s {
            None => None,
            Some(f) => forgiveness_of(f@),
        },
{
    match s {
        None => None,
        Some(f) => {
            let t = f.as_str();
            if str_eq(t, "Merciful") {
                Some(Forgiveness::Merciful)
            } else if str_eq(t, "Polite") {
                Some(Forgiveness::Polite)
            } else if str_eq(t, "Tough") {
                Some(Forgiveness::Tough)
            } else if str_eq(t, "Nasty") {
                Some(Forgiveness::Nasty)
            } else if str_eq(t, "Cruel") {
                Some(Forgiveness::Cruel)
            } else {
                None
            }
        },
    }
}

#[derive(PartialEq, Debug, Clone)]
pub struct Bibilographic {
    pub title: String,
    pub author: String,
    pub language: Option<String>,
    pub headline: Option<String>,
    pub first_published: Option<IFictionDate>,
    pub genre: Option<String>,
    pub group: Option<String>,
    pub series: Option<String>,
    pub series_number: Option<u32>,
    pub forgiveness: Option<Forgiveness>,
    pub description: Option<String>,
}

#[derive(PartialEq, Debug, Clone)]
pub struct Resource {
    pub leafname: String,
    pub description: String,
}

#[derive(PartialEq, Debug, Clone)]
pub struct Contacts {
    pub url: Option<String>,
    pub author_email: Option<String>,
}

#[allow(clippy::upper_case_acronyms)]
#[derive(PartialEq, Eq, Debug, Copy, Clone, Structural)]
pub enum CoverFormat {
    JPG,
    PNG,
}

pub fn convert_cover_format_to_str(cover_format: CoverFormat) -> (r: &'static str)
    ensures
        r@ == match cover_format {
            CoverFormat::JPG => "JPG"@,
            CoverFormat::PNG => "PNG"@,
        },
{
    match cover_format {
        CoverFormat::JPG => "JPG",
        CoverFormat::PNG => "PNG",
    }
}

pub fn convert_str_to_cover_format(s: Option<String>) -> (r: Option<CoverFormat>)
    ensures
        r == match s {
            None => None,
            Some(f) => if f@ == "JPG"@ {
                Some(CoverFormat::JPG)
            } else if f@ == "PNG"@ {
                Some(CoverFormat::PNG)
            } else {
                None
            },
        },
{
    match s {
        None => None,
        Some(f) => {
            if str_eq(f.as_str(), "JPG") {
                Some(CoverFormat::JPG)
            } else if str_eq(f.as_str(), "PNG") {
                Some(CoverFormat::PNG)
            } else {
                None
            }
        },
    }
}

#[derive(PartialEq, Debug, Clone)]
pub struct Cover {
    pub cover_format: CoverFormat,
    pub height: u32,
    pub width: u32,
    pub description: Option<String>,
    pub cover_image: Option<Vec<u8>>,
}

#[derive(PartialEq, Debug, Clone)]
pub struct Release {
    pub version: u32,
    pub release_date: IFictionDate,
    pub compiler: Option<String>,
    pub compiler_version: Option<String>,
}

#[derive(PartialEq, Debug, Clone)]
pub struct Colophon {
    pub generator: String,
    pub generator_version: Option<String>,
    pub originated: IFictionDate,
}

#[derive(PartialEq, Debug, Clone)]
pub struct Zcode {
    pub version: Option<u32>,
    pub release: Option<String>,
    pub serial: Option<String>,
    pub checksum: Option<String>,
    pub compiler: Option<String>,
    pub cover_picture: Option<u32>,
}

#[derive(PartialEq, Debug, Clone)]
pub struct Story {
    pub identification: Identification,
    pub bibliographic: Bibilographic,
    pub resources: Vec<Resource>,
    pub contacts: Option<Contacts>,
    pub cover: Option<Cover>,
    pub releases: Vec<Release>,
    pub colophon: Option<Colophon>,
    pub zcode: Option<Zcode>,
}

/// A story record as it is read, before its required parts are known to
/// be there.
pub struct TempStory {
    pub identification: Option<Identification>,
    pub bibiographic: Option<Bibilographic>,
    pub resources: Vec<Resource>,
    pub contacts: Option<Contacts>,
    pub cover: Option<Cover>,
    pub releases: Vec<Release>,
    pub colophon: Option<Colophon>,
    pub zcode: Option<Zcode>,
}

impl TempStory {
    pub fn new() -> (r: TempStory)
        ensures
            r.identification is None,
            r.bibiographic is None,
            r.resources@.len() == 0,
            r.contacts is None,
            r.cover is None,
            r.releases@.len() == 0,
            r.colophon is None,
            r.zcode is None,
    {
        TempStory {
            identification: None,
            bibiographic: None,
            resources: Vec::new(),
            contacts: None,
            cover: None,
            releases: Vec::new(),
            colophon: None,
            zcode: None,
        }
    }

    /// The finished story: it needs an identification and a bibliographic
    /// part; the rest is copied as it is.
    pub fn to_story(&self) -> (r: Result<Story, &'static str>)
        ensures
            r is Ok <==> (self.identification is Some && self.bibiographic is Some),
            self.identification is None ==> r == Err::<Story, &'static str>(
                "No valid identification on story",
            ),
            self.identification is Some && self.bibiographic is None ==> r == Err::<
                Story,
                &'static str,
            >("No valid bibiographic on story"),
            r is Ok ==> {
                let s = r->Ok_0;
                &&& same_identification(s.identification, self.identification->Some_0)
                &&& s.bibliographic == self.bibiographic->Some_0
                &&& s.resources@ == self.resources@
                &&& s.contacts == self.contacts
                &&& same_cover(s.cover, self.cover)
                &&& s.releases@ == self.releases@
                &&& s.colophon == self.colophon
                &&& s.zcode == self.zcode
            },
    {
        match (&self.identification, &self.bibiographic) {
            (None, _) => Err("No valid identification on story"),
            (Some(_), None) => Err("No valid bibiographic on story"),
            (Some(identification), Some(bibliographic)) => Ok(
                Story {
                    identification: copy_identification(identification),
                    bibliographic: copy_bibliographic(bibliographic),
                    resources: copy_resources(&self.resources),
                    contacts: copy_contacts(&self.contacts),
                    cover: copy_cover(&self.cover),
                    releases: copy_releases(&self.releases),
                    colophon: copy_colophon(&self.colophon),
                    zcode: copy_zcode(&self.zcode),
                },
            ),
        }
    }
}

pub open spec fn same_identification(a: Identification, b: Identification) -> bool {
    a.ifids@ == b.ifids@ && a.format == b.format
}

pub open spec fn same_bytes(a: Option<Vec<u8>>, b: Option<Vec<u8>>) -> bool {
    match (a, b) {
        (None, None) => true,
        (Some(x), Some(y)) => x@ == y@,
        _ => false,
    }
}

pub open spec fn same_cover(a: Option<Cover>, b: Option<Cover>) -> bool {
    match (a, b) {
        (None, None) => true,
        (Some(x), Some(y)) => {
            &&& x.cover_format == y.cover_format
            &&& x.height == y.height
            &&& x.width == y.width
            &&& x.description == y.description
            &&& same_bytes(x.cover_image, y.cover_image)
        },
        _ => false,
    }
}

fn copy_opt_string(o: &Option<String>) -> (r: Option<String>)
    ensures
        r == *o,
{
    match o {
        None => None,
        Some(s) => Some(s.clone()),
    }
}

fn copy_strings(v: &Vec<String>) -> (r: Vec<String>)
    ensures
        r@ == v@,
{
    let mut r: Vec<String> = Vec::new();
    let mut i: usize = 0;
    while i < v.len()
        invariant
            i <= v.len(),
            r@ == v@.take(i as int),
        decreases v.len() - i,
    {
        r.push(v[i].clone());
        i = i + 1;
        assert(r@ =~= v@.take(i as int));
    }
    assert(v@.take(v.len() as int) =~= v@);
    r
}

fn copy_bytes(v: &Vec<u8>) -> (r: Vec<u8>)
    ensures
        r@ == v@,
{
    let mut r: Vec<u8> = Vec::new();
    let mut i: usize = 0;
    while i < v.len()
        invariant
            i <= v.len(),
            r@ == v@.take(i as int),
        decreases v.len() - i,
    {
        r.push(v[i]);
        i = i + 1;
        assert(r@ =~= v@.take(i as int));
    }
    assert(v@.take(v.len() as int) =~= v@);
    r
}

fn copy_identification(x: &Identification) -> (r: Identification)
    ensures
        same_identification(r, *x),
{
    Identification { ifids: copy_strings(&x.ifids), format: x.format }
}

fn copy_bibliographic(x: &Bibilographic) -> (r: Bibilographic)
    ensures
        r == *x,
{
    Bibilographic {
        title: x.title.clone(),
        author: x.author.clone(),
        language: copy_opt_string(&x.language),
        headline: copy_opt_string(&x.headline),
        first_published: x.first_published,
        genre: copy_opt_string(&x.genre),
        group: copy_opt_string(&x.group),
        series: copy_opt_string(&x.series),
        series_number: x.series_number,
        forgiveness: x.forgiveness,
        description: copy_opt_string(&x.description),
    }
}

fn copy_resources(v: &Vec<Resource>) -> (r: Vec<Resource>)
    ensures
        r@ == v@,
{
    let mut r: Vec<Resource> = Vec::new();
    let mut i: usize = 0;
    while i < v.len()
        invariant
            i <= v.len(),
            r@ == v@.take(i as int),
        decreases v.len() - i,
    {
        let x = &v[i];
        r.push(Resource { leafname: x.leafname.clone(), description: x.description.clone() });
        i = i + 1;
        assert(r@ =~= v@.take(i as int));
    }
    assert(v@.take(v.len() as int) =~= v@);
    r
}

fn copy_contacts(o: &Option<Contacts>) -> (r: Option<Contacts>)
    ensures
        r == *o,
{
    match o {
        None => None,
        Some(x) => Some(
            Contacts {
                url: copy_opt_string(&x.url),
                author_email: copy_opt_string(&x.author_email),
            },
        ),
    }
}

fn copy_cover(o: &Option<Cover>) -> (r: Option<Cover>)
    ensures
        same_cover(r, *o),
{
    match o {
        None => None,
        Some(x) => Some(
            Cover {
                cover_format: x.cover_format,
                height: x.height,
                width: x.width,
                description: copy_opt_string(&x.description),
                cover_image: match &x.cover_image {
                    None => None,
                    Some(b) => Some(copy_bytes(b)),
                },
            },
        ),
    }
}

fn copy_releases(v: &Vec<Release>) -> (r: Vec<Release>)
    ensures
        r@ == v@,
{
    let mut r: Vec<Release> = Vec::new();
    let mut i: usize = 0;
    while i < v.len()
        invariant
            i <= v.len(),
            r@ == v@.take(i as int),
        decreases v.len() - i,
    {
        let x = &v[i];
        r.push(
            Release {
                version: x.version,
                release_date: x.release_date,
                compiler: copy_opt_string(&x.compiler),
                compiler_version: copy_opt_string(&x.compiler_version),
            },
        );
        i = i + 1;
        assert(r@ =~= v@.take(i as int));
    }
    assert(v@.take(v.len() as int) =~= v@);
    r
}

fn copy_colophon(o: &Option<Colophon>) -> (r: Option<Colophon>)
    ensures
        r == *o,
{
    match o {
        None => None,
        Some(x) => Some(
            Colophon {
                generator: x.generator.clone(),
                generator_version: copy_opt_string(&x.generator_version),
                originated: x.originated,
            },
        ),
    }
}

fn copy_zcode(o: &Option<Zcode>) -> (r: Option<Zcode>)
    ensures
        r == *o,
{
    match o {
        None => None,
        Some(x) => Some(
            Zcode {
                version: x.version,
                release: copy_opt_string(&x.release),
                serial: copy_opt_string(&x.serial),
                checksum: copy_opt_string(&x.checksum),
                compiler: copy_opt_string(&x.compiler),
                cover_picture: x.cover_picture,
            },
        ),
    }
}

} // verus!
