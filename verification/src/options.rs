//! The options of a print job and their encoding as CUPS option names and values.
use vstd::prelude::*;

use crate::consts;
use crate::decimal::{decimal, decimal_i32, decimal_value, lemma_decimal_charset, lemma_decimal_value};

verus! {

/// A finishing process performed by the printer.
#[derive(Clone, Copy, Debug, PartialEq, Eq, Structural)]
pub enum Finishing {
    Bind,
    Cover,
    Fold,
    Punch,
    Staple,
    Trim,
}

/// The size of the media, most often paper size.
#[derive(Clone, Copy, Debug, PartialEq, Eq, Structural)]
pub enum MediaSize {
    A3,
    A3Plus,
    A4,
    A5,
    A6,
    GovtLetter,
    Letter,
    Legal,
    Tabloid,
    Index3x5,
    Index4x6,
    Index5x7,
    Envelope10,
    EnvelopeDL,
    Photo3R,
}

/// The source the media is pulled from.
#[derive(Clone, Copy, Debug, PartialEq, Eq, Structural)]
pub enum MediaSource {
    Auto,
    Manual,
}

/// The type of the media.
#[derive(Clone, Copy, Debug, PartialEq, Eq, Structural)]
pub enum MediaType {
    Auto,
    Envelope,
    Labels,
    Letterhead,
    Photo,
    PhotoGlossy,
    PhotoMatte,
    Plain,
    Transparent,
}

/// The orientation of document pages.
#[derive(Clone, Copy, Debug, PartialEq, Eq, Structural)]
pub enum Orientation {
    Portrait,
    Landscape,
}

/// Whether the printer uses color or monochrome ink.
#[derive(Clone, Copy, Debug, PartialEq, Eq, Structural)]
pub enum ColorMode {
    Auto,
    Monochrome,
    Color,
}

/// The quality of the resulting print.
#[derive(Clone, Copy, Debug, PartialEq, Eq, Structural)]
pub enum Quality {
    Draft,
    Normal,
    High,
}

/// Whether one or both sides of the media are printed on.
#[derive(Clone, Copy, Debug, PartialEq, Eq, Structural)]
pub enum SidesMode {
    OneSided,
    TwoSidedPortrait,
    TwoSidedLandscape,
}

/// The amount of copies, as the C integer that CUPS takes.
#[derive(Clone, Copy, Debug, PartialEq, Eq, Structural)]
pub struct CopiesInt(pub i32);

/// The number of document pages per media side, as the C integer that CUPS takes.
#[derive(Clone, Copy, Debug, PartialEq, Eq, Structural)]
pub struct NumberUpInt(pub i32);

/// The options of a print job; an option that is `None` is left to the printer's default.
#[derive(Debug)]
pub struct PrintOptions {
    pub copies: Option<CopiesInt>,
    pub finishings: Option<Vec<Finishing>>,
    pub media_size: Option<MediaSize>,
    pub media_source: Option<MediaSource>,
    pub media_type: Option<MediaType>,
    pub number_up: Option<NumberUpInt>,
    pub orientation: Option<Orientation>,
    pub color_mode: Option<ColorMode>,
    pub quality: Option<Quality>,
    pub sides_mode: Option<SidesMode>,
}

/// An option of a print job, with a name and a value that people read.
pub trait PrintOption {
    /// The name of the option, as people read it.
    spec fn spec_name() -> Seq<char>;

    /// The value of this option, as people read it.
    spec fn spec_human_string(&self) -> Seq<char>;

    /// Returns the name of the option, as people read it.
    fn get_name() -> (r: &'static str)
        ensures
            r@ == Self::spec_name(),
    ;

    /// Returns the value of this option, as people read it.
    fn to_human_string(&self) -> (r: String)
        ensures
            r@ == self.spec_human_string(),
    ;
}

/// `String::push` appends the character to the end of the string.
pub assume_specification[ String::push ](s: &mut String, ch: char)
    ensures
        final(s)@ == old(s)@.push(ch),
;

/// The lower-case form of an ASCII letter; any other character stays as it is.
pub open spec fn ascii_lower_char(c: char) -> char {
    if 'A' <= c && c <= 'Z' {
        ((c as u8) + 32) as char
    } else {
        c
    }
}

/// The text with its ASCII letters in lower case.
pub open spec fn ascii_lowercase(s: Seq<char>) -> Seq<char> {
    s.map_values(|c: char| ascii_lower_char(c))
}

/// Returns the text with its ASCII letters in lower case (as `to_lowercase` does for ASCII
/// text).
pub fn to_ascii_lowercase(s: &str) -> (r: String)
    ensures
        r@ == ascii_lowercase(s@),
{
    let n = s.unicode_len();
    let mut r = String::new();
    for i in 0..n
        invariant
            n == s@.len(),
            r@ == ascii_lowercase(s@.take(i as int)),
    {
        let c = s.get_char(i);
        let lower = if 'A' <= c && c <= 'Z' {
            ((c as u8) + 32) as char
        } else {
            c
        };
        r.push(lower);
        assert(s@.take(i + 1) =~= s@.take(i as int).push(c));
        assert(r@ =~= ascii_lowercase(s@.take(i + 1)));
    }
    assert(s@.take(n as int) =~= s@);
    r
}

impl PrintOption for Finishing {
    open spec fn spec_name() -> Seq<char> {
        "Finishings"@
    }

    open spec fn spec_human_string(&self) -> Seq<char> {
        match *self {
            Finishing::Bind => "bind"@,
            Finishing::Cover => "cover"@,
            Finishing::Fold => "fold"@,
            Finishing::Punch => "punch"@,
            Finishing::Staple => "staple"@,
            Finishing::Trim => "trim"@,
        }
    }

    fn get_name() -> (r: &'static str) {
        "Finishings"
    }

    fn to_human_string(&self) -> (r: String) {
        let s = match self {
            Finishing::Bind => "bind",
            Finishing::Cover => "cover",
            Finishing::Fold => "fold",
            Finishing::Punch => "punch",
            Finishing::Staple => "staple",
            Finishing::Trim => "trim",
        };
        s.to_owned()
    }
}

impl PrintOption for MediaSize {
    open spec fn spec_name() -> Seq<char> {
        "Media size"@
    }

    open spec fn spec_human_string(&self) -> Seq<char> {
        match *self {
            MediaSize::A3 => "a3"@,
            MediaSize::A3Plus => "a3-plus"@,
            MediaSize::A4 => "a4"@,
            MediaSize::A5 => "a5"@,
            MediaSize::A6 => "a6"@,
            MediaSize::GovtLetter => "govt-letter"@,
            MediaSize::Letter => "letter"@,
            MediaSize::Legal => "legal"@,
            MediaSize::Tabloid => "tabloid"@,
            MediaSize::Index3x5 => "index3x5"@,
            MediaSize::Index4x6 => "index4x6"@,
            MediaSize::Index5x7 => "index5x7"@,
            MediaSize::Envelope10 => "envelope10"@,
            MediaSize::EnvelopeDL => "envelope-dl"@,
            MediaSize::Photo3R => "photo3-r"@,
        }
    }

    fn get_name() -> (r: &'static str) {
        "Media size"
    }

    fn to_human_string(&self) -> (r: String) {
        let s = match self {
            MediaSize::A3 => "a3",
            MediaSize::A3Plus => "a3-plus",
            MediaSize::A4 => "a4",
            MediaSize::A5 => "a5",
            MediaSize::A6 => "a6",
            MediaSize::GovtLetter => "govt-letter",
            MediaSize::Letter => "letter",
            MediaSize::Legal => "legal",
            MediaSize::Tabloid => "tabloid",
            MediaSize::Index3x5 => "index3x5",
            MediaSize::Index4x6 => "index4x6",
            MediaSize::Index5x7 => "index5x7",
            MediaSize::Envelope10 => "envelope10",
            MediaSize::EnvelopeDL => "envelope-dl",
            MediaSize::Photo3R => "photo3-r",
        };
        s.to_owned()
    }
}

impl PrintOption for MediaSource {
    open spec fn spec_name() -> Seq<char> {
        "Media source"@
    }

    open spec fn spec_human_string(&self) -> Seq<char> {
        match *self {
            MediaSource::Auto => "auto"@,
            MediaSource::Manual => "manual"@,
        }
    }

    fn get_name() -> (r: &'static str) {
        "Media source"
    }

    fn to_human_string(&self) -> (r: String) {
        let s = match self {
            MediaSource::Auto => "auto",
            MediaSource::Manual => "manual",
        };
        s.to_owned()
    }
}

impl PrintOption for MediaType {
    open spec fn spec_name() -> Seq<char> {
        "Media type"@
    }

    open spec fn spec_human_string(&self) -> Seq<char> {
        match *self {
            MediaType::Auto => "auto"@,
            MediaType::Envelope => "envelope"@,
            MediaType::Labels => "labels"@,
            MediaType::Letterhead => "letterhead"@,
            MediaType::Photo => "photo"@,
            MediaType::PhotoGlossy => "photo-glossy"@,
            MediaType::PhotoMatte => "photo-matte"@,
            MediaType::Plain => "plain"@,
            MediaType::Transparent => "transparent"@,
        }
    }

    fn get_name() -> (r: &'static str) {
        "Media type"
    }

    fn to_human_string(&self) -> (r: String) {
        let s = match self {
            MediaType::Auto => "auto",
            MediaType::Envelope => "envelope",
            MediaType::Labels => "labels",
            MediaType::Letterhead => "letterhead",
            MediaType::Photo => "photo",
            MediaType::PhotoGlossy => "photo-glossy",
            MediaType::PhotoMatte => "photo-matte",
            MediaType::Plain => "plain",
            MediaType::Transparent => "transparent",
        };
        s.to_owned()
    }
}

impl PrintOption for Orientation {
    open spec fn spec_name() -> Seq<char> {
        "Orientation"@
    }

    open spec fn spec_human_string(&self) -> Seq<char> {
        match *self {
            Orientation::Portrait => "portrait"@,
            Orientation::Landscape => "landscape"@,
        }
    }

    fn get_name() -> (r: &'static str) {
        "Orientation"
    }

    fn to_human_string(&self) -> (r: String) {
        let s = match self {
            Orientation::Portrait => "portrait",
            Orientation::Landscape => "landscape",
        };
        s.to_owned()
    }
}

impl PrintOption for ColorMode {
    open spec fn spec_name() -> Seq<char> {
        "Color mode"@
    }

    open spec fn spec_human_string(&self) -> Seq<char> {
        match *self {
            ColorMode::Auto => "auto"@,
            ColorMode::Monochrome => "monochrome"@,
            ColorMode::Color => "color"@,
        }
    }

    fn get_name() -> (r: &'static str) {
        "Color mode"
    }

    fn to_human_string(&self) -> (r: String) {
        let s = match self {
            ColorMode::Auto => "auto",
            ColorMode::Monochrome => "monochrome",
            ColorMode::Color => "color",
        };
        s.to_owned()
    }
}

impl PrintOption for Quality {
    open spec fn spec_name() -> Seq<char> {
        "Quality"@
    }

    open spec fn spec_human_string(&self) -> Seq<char> {
        match *self {
            Quality::Draft => "draft"@,
            Quality::Normal => "normal"@,
            Quality::High => "high"@,
        }
    }

    fn get_name() -> (r: &'static str) {
        "Quality"
    }

    fn to_human_string(&self) -> (r: String) {
        let s = match self {
            Quality::Draft => "draft",
            Quality::Normal => "normal",
            Quality::High => "high",
        };
        s.to_owned()
    }
}

impl PrintOption for SidesMode {
    open spec fn spec_name() -> Seq<char> {
        "Sides mode"@
    }

    open spec fn spec_human_string(&self) -> Seq<char> {
        match *self {
            SidesMode::OneSided => "one-sided"@,
            SidesMode::TwoSidedPortrait => "two-sided-portrait"@,
            SidesMode::TwoSidedLandscape => "two-sided-landscape"@,
        }
    }

    fn get_name() -> (r: &'static str) {
        "Sides mode"
    }

    fn to_human_string(&self) -> (r: String) {
        let s = match self {
            SidesMode::OneSided => "one-sided",
            SidesMode::TwoSidedPortrait => "two-sided-portrait",
            SidesMode::TwoSidedLandscape => "two-sided-landscape",
        };
        s.to_owned()
    }
}

impl PrintOption for CopiesInt {
    open spec fn spec_name() -> Seq<char> {
        "Copies"@
    }

    open spec fn spec_human_string(&self) -> Seq<char> {
        decimal(self.0 as int)
    }

    fn get_name() -> (r: &'static str) {
        "Copies"
    }

    fn to_human_string(&self) -> (r: String) {
        decimal_i32(self.0)
    }
}

impl PrintOption for NumberUpInt {
    open spec fn spec_name() -> Seq<char> {
        "Number up"@
    }

    open spec fn spec_human_string(&self) -> Seq<char> {
        decimal(self.0 as int)
    }

    fn get_name() -> (r: &'static str) {
        "Number up"
    }

    fn to_human_string(&self) -> (r: String) {
        decimal_i32(self.0)
    }
}

/// The readable values of the finishings `fs`, joined by a comma and a space.
pub open spec fn join_finishing_names(fs: Seq<Finishing>) -> Seq<char>
    decreases fs.len(),
{
    if fs.len() == 0 {
        Seq::empty()
    } else if fs.len() == 1 {
        fs[0].spec_human_string()
    } else {
        join_finishing_names(fs.drop_last()) + seq![',', ' '] + fs.last().spec_human_string()
    }
}

impl PrintOption for Vec<Finishing> {
    open spec fn spec_name() -> Seq<char> {
        "Finishings"@
    }

    /// "none" for no finishings, otherwise their readable values joined by ", ".
    open spec fn spec_human_string(&self) -> Seq<char> {
        if self@.len() == 0 {
            "none"@
        } else {
            join_finishing_names(self@)
        }
    }

    fn get_name() -> (r: &'static str) {
        "Finishings"
    }

    fn to_human_string(&self) -> (r: String) {
        if self.len() == 0 {
            return "none".to_owned();
        }
        let mut joined = String::new();
        let n = self.len();
        for i in 0..n
            invariant
                n == self@.len(),
                n > 0,
                joined@ == join_finishing_names(self@.take(i as int)),
        {
            let value = self[i].to_human_string();
            proof {
                reveal_strlit(", ");
            }
            if i > 0 {
                joined.append(", ");
            }
            joined.append(value.as_str());
            assert(self@.take(i + 1).drop_last() =~= self@.take(i as int));
            assert(self@.take(i + 1).last() == self@[i as int]);
            assert(joined@ =~= join_finishing_names(self@.take(i + 1)));
        }
        assert(self@.take(n as int) =~= self@);
        joined
    }
}

/// An option that has a name and a value that CUPS accepts.
pub trait CupsOption: PrintOption {
    /// The name of the option, as CUPS knows it.
    spec fn spec_cups_option_name() -> Seq<char>;

    /// The value of this option, as CUPS takes it.
    spec fn spec_cups_option_value(&self) -> Seq<char>;

    /// Returns the name of the option, as CUPS knows it.
    fn get_cups_option_name() -> (r: &'static str)
        ensures
            r@ == Self::spec_cups_option_name(),
    ;

    /// Returns the value of this option, as CUPS takes it.
    fn get_cups_option_value(&self) -> (r: String)
        ensures
            r@ == self.spec_cups_option_value(),
    ;

    /// The name holds no NUL character, so it converts to a C string.
    proof fn lemma_name_has_no_nul()
        ensures
            has_no_nul(Self::spec_cups_option_name()),
    ;

    /// The value holds no NUL character, so it converts to a C string.
    proof fn lemma_value_has_no_nul(&self)
        ensures
            has_no_nul(self.spec_cups_option_value()),
    ;
}

/// Whether `s` holds no NUL character (and so converts to a C string).
pub open spec fn has_no_nul(s: Seq<char>) -> bool {
    forall|i: int| 0 <= i < s.len() ==> #[trigger] s[i] != '\0'
}

impl CupsOption for CopiesInt {
    open spec fn spec_cups_option_name() -> Seq<char> {
        consts::CUPS_COPIES@
    }

    open spec fn spec_cups_option_value(&self) -> Seq<char> {
        decimal(self.0 as int)
    }

    fn get_cups_option_name() -> (r: &'static str) {
        consts::CUPS_COPIES
    }

    fn get_cups_option_value(&self) -> (r: String) {
        decimal_i32(self.0)
    }

    proof fn lemma_name_has_no_nul() {
        reveal_strlit("copies");
    }

    proof fn lemma_value_has_no_nul(&self) {
        lemma_decimal_charset(self.0 as int);
    }
}

impl CupsOption for NumberUpInt {
    open spec fn spec_cups_option_name() -> Seq<char> {
        consts::CUPS_NUMBER_UP@
    }

    open spec fn spec_cups_option_value(&self) -> Seq<char> {
        decimal(self.0 as int)
    }

    fn get_cups_option_name() -> (r: &'static str) {
        consts::CUPS_NUMBER_UP
    }

    fn get_cups_option_value(&self) -> (r: String) {
        decimal_i32(self.0)
    }

    proof fn lemma_name_has_no_nul() {
        reveal_strlit("number-up");
    }

    proof fn lemma_value_has_no_nul(&self) {
        lemma_decimal_charset(self.0 as int);
    }
}

/// The CUPS value of a single finishing.
pub open spec fn finishing_value(f: Finishing) -> Seq<char> {
    match f {
        Finishing::Bind => consts::CUPS_FINISHINGS_BIND@,
        Finishing::Cover => consts::CUPS_FINISHINGS_COVER@,
        Finishing::Fold => consts::CUPS_FINISHINGS_FOLD@,
        Finishing::Punch => consts::CUPS_FINISHINGS_PUNCH@,
        Finishing::Staple => consts::CUPS_FINISHINGS_STAPLE@,
        Finishing::Trim => consts::CUPS_FINISHINGS_TRIM@,
    }
}

impl CupsOption for Finishing {
    open spec fn spec_cups_option_name() -> Seq<char> {
        consts::CUPS_FINISHINGS@
    }

    open spec fn spec_cups_option_value(&self) -> Seq<char> {
        finishing_value(*self)
    }

    fn get_cups_option_name() -> (r: &'static str) {
        consts::CUPS_FINISHINGS
    }

    fn get_cups_option_value(&self) -> (r: String) {
        let s = match self {
            Finishing::Bind => consts::CUPS_FINISHINGS_BIND,
            Finishing::Cover => consts::CUPS_FINISHINGS_COVER,
            Finishing::Fold => consts::CUPS_FINISHINGS_FOLD,
            Finishing::Punch => consts::CUPS_FINISHINGS_PUNCH,
            Finishing::Staple => consts::CUPS_FINISHINGS_STAPLE,
            Finishing::Trim => consts::CUPS_FINISHINGS_TRIM,
        };
        s.to_owned()
    }

    proof fn lemma_name_has_no_nul() {
        reveal_strlit("finishings");
    }

    proof fn lemma_value_has_no_nul(&self) {
        reveal_strlit("7");
        reveal_strlit("6");
        reveal_strlit("10");
        reveal_strlit("5");
        reveal_strlit("4");
        reveal_strlit("11");
    }
}

/// The values of the finishings `fs`, joined by commas.
pub open spec fn join_finishings(fs: Seq<Finishing>) -> Seq<char>
    decreases fs.len(),
{
    if fs.len() == 0 {
        Seq::empty()
    } else if fs.len() == 1 {
        finishing_value(fs[0])
    } else {
        join_finishings(fs.drop_last()) + seq![','] + finishing_value(fs.last())
    }
}

/// The CUPS value of a list of finishings: the "none" finishing when the list is empty,
/// otherwise the values of the finishings joined by commas.
pub open spec fn finishings_value(fs: Seq<Finishing>) -> Seq<char> {
    if fs.len() == 0 {
        consts::CUPS_FINISHINGS_NONE@
    } else {
        join_finishings(fs)
    }
}

/// The joined values of finishings hold no NUL character.
pub proof fn lemma_join_finishings_has_no_nul(fs: Seq<Finishing>)
    ensures
        has_no_nul(join_finishings(fs)),
    decreases fs.len(),
{
    if fs.len() == 1 {
        fs[0].lemma_value_has_no_nul();
    } else if fs.len() > 1 {
        lemma_join_finishings_has_no_nul(fs.drop_last());
        fs.last().lemma_value_has_no_nul();
        let a = join_finishings(fs.drop_last());
        let b = finishing_value(fs.last());
        assert forall|i: int| 0 <= i < join_finishings(fs).len() implies #[trigger] join_finishings(fs)[i] != '\0' by {
            if i < a.len() {
                assert(join_finishings(fs)[i] == a[i]);
            } else if i == a.len() {
                assert(join_finishings(fs)[i] == ',');
            } else {
                assert(join_finishings(fs)[i] == b[i - a.len() - 1]);
            }
        }
    }
}

/// The value of a list of finishings holds no NUL character.
pub proof fn lemma_finishings_value_has_no_nul(fs: Seq<Finishing>)
    ensures
        has_no_nul(finishings_value(fs)),
{
    if fs.len() == 0 {
        reveal_strlit("3");
    } else {
        lemma_join_finishings_has_no_nul(fs);
    }
}

impl CupsOption for Vec<Finishing> {
    open spec fn spec_cups_option_name() -> Seq<char> {
        consts::CUPS_FINISHINGS@
    }

    open spec fn spec_cups_option_value(&self) -> Seq<char> {
        finishings_value(self@)
    }

    fn get_cups_option_name() -> (r: &'static str) {
        consts::CUPS_FINISHINGS
    }

    fn get_cups_option_value(&self) -> (r: String) {
        if self.len() == 0 {
            return consts::CUPS_FINISHINGS_NONE.to_owned();
        }
        let mut joined = String::new();
        let n = self.len();
        for i in 0..n
            invariant
                n == self@.len(),
                n > 0,
                joined@ == join_finishings(self@.take(i as int)),
        {
            let value = self[i].get_cups_option_value();
            proof {
                reveal_strlit(",");
            }
            if i > 0 {
                joined.append(",");
            }
            joined.append(value.as_str());
            assert(self@.take(i + 1).drop_last() =~= self@.take(i as int));
            assert(self@.take(i + 1).last() == self@[i as int]);
            assert(value@ == finishing_value(self@[i as int]));
            assert(joined@ =~= join_finishings(self@.take(i + 1)));
        }
        assert(self@.take(n as int) =~= self@);
        joined
    }

    proof fn lemma_name_has_no_nul() {
        reveal_strlit("finishings");
    }

    proof fn lemma_value_has_no_nul(&self) {
        lemma_finishings_value_has_no_nul(self@);
    }
}

impl CupsOption for MediaSize {
    open spec fn spec_cups_option_name() -> Seq<char> {
        consts::CUPS_MEDIA@
    }

    open spec fn spec_cups_option_value(&self) -> Seq<char> {
        match *self {
            MediaSize::A3 => consts::CUPS_MEDIA_A3@,
            MediaSize::A3Plus => consts::CUPS_MEDIA_SUPERBA3@,
            MediaSize::A4 => consts::CUPS_MEDIA_A4@,
            MediaSize::A5 => consts::CUPS_MEDIA_A5@,
            MediaSize::A6 => consts::CUPS_MEDIA_A6@,
            MediaSize::GovtLetter => consts::CUPS_MEDIA_8X10@,
            MediaSize::Letter => consts::CUPS_MEDIA_LETTER@,
            MediaSize::Legal => consts::CUPS_MEDIA_LEGAL@,
            MediaSize::Tabloid => consts::CUPS_MEDIA_TABLOID@,
            MediaSize::Index3x5 => consts::CUPS_MEDIA_3X5@,
            MediaSize::Index4x6 => consts::CUPS_MEDIA_4X6@,
            MediaSize::Index5x7 => consts::CUPS_MEDIA_5X7@,
            MediaSize::Envelope10 => consts::CUPS_MEDIA_ENV10@,
            MediaSize::EnvelopeDL => consts::CUPS_MEDIA_ENVDL@,
            MediaSize::Photo3R => consts::CUPS_MEDIA_PHOTO_L@,
        }
    }

    fn get_cups_option_name() -> (r: &'static str) {
        consts::CUPS_MEDIA
    }

    fn get_cups_option_value(&self) -> (r: String) {
        let s = match self {
            MediaSize::A3 => consts::CUPS_MEDIA_A3,
            MediaSize::A3Plus => consts::CUPS_MEDIA_SUPERBA3,
            MediaSize::A4 => consts::CUPS_MEDIA_A4,
            MediaSize::A5 => consts::CUPS_MEDIA_A5,
            MediaSize::A6 => consts::CUPS_MEDIA_A6,
            MediaSize::GovtLetter => consts::CUPS_MEDIA_8X10,
            MediaSize::Letter => consts::CUPS_MEDIA_LETTER,
            MediaSize::Legal => consts::CUPS_MEDIA_LEGAL,
            MediaSize::Tabloid => consts::CUPS_MEDIA_TABLOID,
            MediaSize::Index3x5 => consts::CUPS_MEDIA_3X5,
            MediaSize::Index4x6 => consts::CUPS_MEDIA_4X6,
            MediaSize::Index5x7 => consts::CUPS_MEDIA_5X7,
            MediaSize::Envelope10 => consts::CUPS_MEDIA_ENV10,
            MediaSize::EnvelopeDL => consts::CUPS_MEDIA_ENVDL,
            MediaSize::Photo3R => consts::CUPS_MEDIA_PHOTO_L,
        };
        s.to_owned()
    }

    proof fn lemma_name_has_no_nul() {
        reveal_strlit("media");
    }

    proof fn lemma_value_has_no_nul(&self) {
        reveal_strlit("iso_a3_297x420mm");
        reveal_strlit("na_super-b_13x19in");
        reveal_strlit("iso_a4_210x297mm");
        reveal_strlit("iso_a5_148x210mm");
        reveal_strlit("iso_a6_105x148mm");
        reveal_strlit("na_govt-letter_8x10in");
        reveal_strlit("na_letter_8.5x11in");
        reveal_strlit("na_legal_8.5x14in");
        reveal_strlit("na_ledger_11x17in");
        reveal_strlit("na_index-3x5_3x5in");
        reveal_strlit("na_index-4x6_4x6in");
        reveal_strlit("na_5x7_5x7in");
        reveal_strlit("na_number-10_4.125x9.5in");
        reveal_strlit("iso_dl_110x220mm");
        reveal_strlit("oe_photo-l_3.5x5in");
    }
}

impl CupsOption for MediaSource {
    open spec fn spec_cups_option_name() -> Seq<char> {
        consts::CUPS_MEDIA_SOURCE@
    }

    open spec fn spec_cups_option_value(&self) -> Seq<char> {
        match *self {
            MediaSource::Auto => consts::CUPS_MEDIA_SOURCE_AUTO@,
            MediaSource::Manual => consts::CUPS_MEDIA_SOURCE_MANUAL@,
        }
    }

    fn get_cups_option_name() -> (r: &'static str) {
        consts::CUPS_MEDIA_SOURCE
    }

    fn get_cups_option_value(&self) -> (r: String) {
        let s = match self {
            MediaSource::Auto => consts::CUPS_MEDIA_SOURCE_AUTO,
            MediaSource::Manual => consts::CUPS_MEDIA_SOURCE_MANUAL,
        };
        s.to_owned()
    }

    proof fn lemma_name_has_no_nul() {
        reveal_strlit("media-source");
    }

    proof fn lemma_value_has_no_nul(&self) {
        reveal_strlit("auto");
        reveal_strlit("manual");
    }
}

impl CupsOption for MediaType {
    open spec fn spec_cups_option_name() -> Seq<char> {
        consts::CUPS_MEDIA_TYPE@
    }

    open spec fn spec_cups_option_value(&self) -> Seq<char> {
        match *self {
            MediaType::Auto => consts::CUPS_MEDIA_TYPE_AUTO@,
            MediaType::Envelope => consts::CUPS_MEDIA_TYPE_ENVELOPE@,
            MediaType::Labels => consts::CUPS_MEDIA_TYPE_LABELS@,
            MediaType::Letterhead => consts::CUPS_MEDIA_TYPE_LETTERHEAD@,
            MediaType::Photo => consts::CUPS_MEDIA_TYPE_PHOTO@,
            MediaType::PhotoGlossy => consts::CUPS_MEDIA_TYPE_PHOTO_GLOSSY@,
            MediaType::PhotoMatte => consts::CUPS_MEDIA_TYPE_PHOTO_MATTE@,
            MediaType::Plain => consts::CUPS_MEDIA_TYPE_PLAIN@,
            MediaType::Transparent => consts::CUPS_MEDIA_TYPE_TRANSPARENCY@,
        }
    }

    fn get_cups_option_name() -> (r: &'static str) {
        consts::CUPS_MEDIA_TYPE
    }

    fn get_cups_option_value(&self) -> (r: String) {
        let s = match self {
            MediaType::Auto => consts::CUPS_MEDIA_TYPE_AUTO,
            MediaType::Envelope => consts::CUPS_MEDIA_TYPE_ENVELOPE,
            MediaType::Labels => consts::CUPS_MEDIA_TYPE_LABELS,
            MediaType::Letterhead => consts::CUPS_MEDIA_TYPE_LETTERHEAD,
            MediaType::Photo => consts::CUPS_MEDIA_TYPE_PHOTO,
            MediaType::PhotoGlossy => consts::CUPS_MEDIA_TYPE_PHOTO_GLOSSY,
            MediaType::PhotoMatte => consts::CUPS_MEDIA_TYPE_PHOTO_MATTE,
            MediaType::Plain => consts::CUPS_MEDIA_TYPE_PLAIN,
            MediaType::Transparent => consts::CUPS_MEDIA_TYPE_TRANSPARENCY,
        };
        s.to_owned()
    }

    proof fn lemma_name_has_no_nul() {
        reveal_strlit("media-type");
    }

    proof fn lemma_value_has_no_nul(&self) {
        reveal_strlit("auto");
        reveal_strlit("envelope");
        reveal_strlit("labels");
        reveal_strlit("stationery-letterhead");
        reveal_strlit("photographic");
        reveal_strlit("photographic-glossy");
        reveal_strlit("photographic-matte");
        reveal_strlit("stationery");
        reveal_strlit("transparency");
    }
}

impl CupsOption for Orientation {
    open spec fn spec_cups_option_name() -> Seq<char> {
        consts::CUPS_ORIENTATION@
    }

    open spec fn spec_cups_option_value(&self) -> Seq<char> {
        match *self {
            Orientation::Portrait => consts::CUPS_ORIENTATION_PORTRAIT@,
            Orientation::Landscape => consts::CUPS_ORIENTATION_LANDSCAPE@,
        }
    }

    fn get_cups_option_name() -> (r: &'static str) {
        consts::CUPS_ORIENTATION
    }

    fn get_cups_option_value(&self) -> (r: String) {
        let s = match self {
            Orientation::Portrait => consts::CUPS_ORIENTATION_PORTRAIT,
            Orientation::Landscape => consts::CUPS_ORIENTATION_LANDSCAPE,
        };
        s.to_owned()
    }

    proof fn lemma_name_has_no_nul() {
        reveal_strlit("orientation-requested");
    }

    proof fn lemma_value_has_no_nul(&self) {
        reveal_strlit("3");
        reveal_strlit("4");
    }
}

impl CupsOption for ColorMode {
    open spec fn spec_cups_option_name() -> Seq<char> {
        consts::CUPS_PRINT_COLOR_MODE@
    }

    open spec fn spec_cups_option_value(&self) -> Seq<char> {
        match *self {
            ColorMode::Auto => consts::CUPS_PRINT_COLOR_MODE_AUTO@,
            ColorMode::Monochrome => consts::CUPS_PRINT_COLOR_MODE_MONOCHROME@,
            ColorMode::Color => consts::CUPS_PRINT_COLOR_MODE_COLOR@,
        }
    }

    fn get_cups_option_name() -> (r: &'static str) {
        consts::CUPS_PRINT_COLOR_MODE
    }

    fn get_cups_option_value(&self) -> (r: String) {
        let s = match self {
            ColorMode::Auto => consts::CUPS_PRINT_COLOR_MODE_AUTO,
            ColorMode::Monochrome => consts::CUPS_PRINT_COLOR_MODE_MONOCHROME,
            ColorMode::Color => consts::CUPS_PRINT_COLOR_MODE_COLOR,
        };
        s.to_owned()
    }

    proof fn lemma_name_has_no_nul() {
        reveal_strlit("print-color-mode");
    }

    proof fn lemma_value_has_no_nul(&self) {
        reveal_strlit("auto");
        reveal_strlit("monochrome");
        reveal_strlit("color");
    }
}

impl CupsOption for Quality {
    open spec fn spec_cups_option_name() -> Seq<char> {
        consts::CUPS_PRINT_QUALITY@
    }

    open spec fn spec_cups_option_value(&self) -> Seq<char> {
        match *self {
            Quality::Draft => consts::CUPS_PRINT_QUALITY_DRAFT@,
            Quality::Normal => consts::CUPS_PRINT_QUALITY_NORMAL@,
            Quality::High => consts::CUPS_PRINT_QUALITY_HIGH@,
        }
    }

    fn get_cups_option_name() -> (r: &'static str) {
        consts::CUPS_PRINT_QUALITY
    }

    fn get_cups_option_value(&self) -> (r: String) {
        let s = match self {
            Quality::Draft => consts::CUPS_PRINT_QUALITY_DRAFT,
            Quality::Normal => consts::CUPS_PRINT_QUALITY_NORMAL,
            Quality::High => consts::CUPS_PRINT_QUALITY_HIGH,
        };
        s.to_owned()
    }

    proof fn lemma_name_has_no_nul() {
        reveal_strlit("print-quality");
    }

    proof fn lemma_value_has_no_nul(&self) {
        reveal_strlit("3");
        reveal_strlit("4");
        reveal_strlit("5");
    }
}

impl CupsOption for SidesMode {
    open spec fn spec_cups_option_name() -> Seq<char> {
        consts::CUPS_SIDES@
    }

    open spec fn spec_cups_option_value(&self) -> Seq<char> {
        match *self {
            SidesMode::OneSided => consts::CUPS_SIDES_ONE_SIDED@,
            SidesMode::TwoSidedPortrait => consts::CUPS_SIDES_TWO_SIDED_PORTRAIT@,
            SidesMode::TwoSidedLandscape => consts::CUPS_SIDES_TWO_SIDED_LANDSCAPE@,
        }
    }

    fn get_cups_option_name() -> (r: &'static str) {
        consts::CUPS_SIDES
    }

    fn get_cups_option_value(&self) -> (r: String) {
        let s = match self {
            SidesMode::OneSided => consts::CUPS_SIDES_ONE_SIDED,
            SidesMode::TwoSidedPortrait => consts::CUPS_SIDES_TWO_SIDED_PORTRAIT,
            SidesMode::TwoSidedLandscape => consts::CUPS_SIDES_TWO_SIDED_LANDSCAPE,
        };
        s.to_owned()
    }

    proof fn lemma_name_has_no_nul() {
        reveal_strlit("sides");
    }

    proof fn lemma_value_has_no_nul(&self) {
        reveal_strlit("one-sided");
        reveal_strlit("two-sided-long-edge");
        reveal_strlit("two-sided-short-edge");
    }
}

} // verus!

verus! {

/// A CUPS option that a print job asks the destination for: its CUPS name and value, and the
/// option's own name in lower case and its readable value, by which a refusal is reported.
#[derive(Debug)]
pub struct OptionRequest {
    pub name: String,
    pub value: String,
    pub label: String,
    pub human_value: String,
}

/// The specification model of an option request: CUPS name, CUPS value, label, readable value.
pub type RequestView = (Seq<char>, Seq<char>, Seq<char>, Seq<char>);

impl View for OptionRequest {
    type V = RequestView;

    open spec fn view(&self) -> RequestView {
        (self.name@, self.value@, self.label@, self.human_value@)
    }
}

/// The names and values of a sequence of requests.
pub open spec fn requests_view(s: Seq<OptionRequest>) -> Seq<RequestView> {
    s.map_values(|q: OptionRequest| q@)
}

/// The request for an option that is set, and none for an option that is not.
pub open spec fn request_of<O: CupsOption>(option: Option<O>) -> Seq<RequestView> {
    match option {
        Some(o) => seq![
            (
                O::spec_cups_option_name(),
                o.spec_cups_option_value(),
                ascii_lowercase(O::spec_name()),
                o.spec_human_string(),
            ),
        ],
        None => Seq::empty(),
    }
}

/// The requests of a set of print options, in the fixed order copies, finishings, media size,
/// media source, media type, number up, orientation, color mode, quality, sides.
pub open spec fn option_requests(o: PrintOptions) -> Seq<RequestView> {
    request_of(o.copies) + request_of(o.finishings) + request_of(o.media_size) + request_of(
        o.media_source,
    ) + request_of(o.media_type) + request_of(o.number_up) + request_of(o.orientation)
        + request_of(o.color_mode) + request_of(o.quality) + request_of(o.sides_mode)
}

/// Appends the request of `option` to `requests`, if the option is set.
fn push_option_request<O: CupsOption>(requests: &mut Vec<OptionRequest>, option: &Option<O>)
    ensures
        requests_view(final(requests)@) == requests_view(old(requests)@) + request_of(*option),
{
    match option {
        Some(o) => {
            let name = O::get_cups_option_name().to_owned();
            let value = o.get_cups_option_value();
            let label = to_ascii_lowercase(O::get_name());
            let human_value = o.to_human_string();
            requests.push(OptionRequest { name, value, label, human_value });
            assert(requests_view(requests@) =~= requests_view(old(requests)@) + request_of(
                *option,
            ));
        },
        None => {
            assert(requests_view(requests@) =~= requests_view(old(requests)@) + request_of(
                *option,
            ));
        },
    }
}

/// Returns the CUPS options that the print options ask for, in the order in which they are
/// checked with the destination and added to the job.
pub fn cups_option_requests(options: &PrintOptions) -> (r: Vec<OptionRequest>)
    ensures
        requests_view(r@) == option_requests(*options),
{
    let mut requests: Vec<OptionRequest> = Vec::new();
    assert(requests_view(requests@) =~= Seq::empty());
    push_option_request(&mut requests, &options.copies);
    push_option_request(&mut requests, &options.finishings);
    push_option_request(&mut requests, &options.media_size);
    push_option_request(&mut requests, &options.media_source);
    push_option_request(&mut requests, &options.media_type);
    push_option_request(&mut requests, &options.number_up);
    push_option_request(&mut requests, &options.orientation);
    push_option_request(&mut requests, &options.color_mode);
    push_option_request(&mut requests, &options.quality);
    push_option_request(&mut requests, &options.sides_mode);
    assert(requests_view(requests@) =~= option_requests(*options));
    requests
}

/// Whether every CUPS name and value of the requests holds no NUL character.
pub open spec fn requests_have_no_nul(s: Seq<RequestView>) -> bool {
    forall|i: int| 0 <= i < s.len() ==> has_no_nul(#[trigger] s[i].0) && has_no_nul(s[i].1)
}

/// The request of a set option holds no NUL character.
proof fn lemma_request_of_has_no_nul<O: CupsOption>(option: Option<O>)
    ensures
        requests_have_no_nul(request_of(option)),
{
    if let Some(o) = option {
        O::lemma_name_has_no_nul();
        o.lemma_value_has_no_nul();
    }
}

/// Requests without NUL characters stay so when put together.
proof fn lemma_concat_no_nul(a: Seq<RequestView>, b: Seq<RequestView>)
    requires
        requests_have_no_nul(a),
        requests_have_no_nul(b),
    ensures
        requests_have_no_nul(a + b),
{
    assert forall|i: int| 0 <= i < (a + b).len() implies has_no_nul(#[trigger] (a + b)[i].0)
        && has_no_nul((a + b)[i].1) by {
        if i < a.len() {
            assert((a + b)[i] == a[i]);
            assert(has_no_nul(a[i].0) && has_no_nul(a[i].1));
        } else {
            assert((a + b)[i] == b[i - a.len()]);
            assert(has_no_nul(b[i - a.len()].0) && has_no_nul(b[i - a.len()].1));
        }
    }
}

/// Every name and value that print options ask CUPS for converts to a C string.
pub proof fn lemma_option_requests_have_no_nul(o: PrintOptions)
    ensures
        requests_have_no_nul(option_requests(o)),
{
    lemma_request_of_has_no_nul(o.copies);
    lemma_request_of_has_no_nul(o.finishings);
    lemma_request_of_has_no_nul(o.media_size);
    lemma_request_of_has_no_nul(o.media_source);
    lemma_request_of_has_no_nul(o.media_type);
    lemma_request_of_has_no_nul(o.number_up);
    lemma_request_of_has_no_nul(o.orientation);
    lemma_request_of_has_no_nul(o.color_mode);
    lemma_request_of_has_no_nul(o.quality);
    lemma_request_of_has_no_nul(o.sides_mode);
    let s1 = request_of(o.copies) + request_of(o.finishings);
    lemma_concat_no_nul(request_of(o.copies), request_of(o.finishings));
    let s2 = s1 + request_of(o.media_size);
    lemma_concat_no_nul(s1, request_of(o.media_size));
    let s3 = s2 + request_of(o.media_source);
    lemma_concat_no_nul(s2, request_of(o.media_source));
    let s4 = s3 + request_of(o.media_type);
    lemma_concat_no_nul(s3, request_of(o.media_type));
    let s5 = s4 + request_of(o.number_up);
    lemma_concat_no_nul(s4, request_of(o.number_up));
    let s6 = s5 + request_of(o.orientation);
    lemma_concat_no_nul(s5, request_of(o.orientation));
    let s7 = s6 + request_of(o.color_mode);
    lemma_concat_no_nul(s6, request_of(o.color_mode));
    let s8 = s7 + request_of(o.quality);
    lemma_concat_no_nul(s7, request_of(o.quality));
    lemma_concat_no_nul(s8, request_of(o.sides_mode));
}

} // verus!

verus! {

/// Each option is asked of CUPS under its IPP attribute name.
pub proof fn lemma_option_names()
    ensures
        CopiesInt::spec_cups_option_name() == "copies"@,
        Vec::<Finishing>::spec_cups_option_name() == "finishings"@,
        Finishing::spec_cups_option_name() == "finishings"@,
        MediaSize::spec_cups_option_name() == "media"@,
        MediaSource::spec_cups_option_name() == "media-source"@,
        MediaType::spec_cups_option_name() == "media-type"@,
        NumberUpInt::spec_cups_option_name() == "number-up"@,
        Orientation::spec_cups_option_name() == "orientation-requested"@,
        ColorMode::spec_cups_option_name() == "print-color-mode"@,
        Quality::spec_cups_option_name() == "print-quality"@,
        SidesMode::spec_cups_option_name() == "sides"@,
{
}

/// Each media size is asked for by its PWG media name, which names its dimensions.
pub proof fn lemma_media_size_values()
    ensures
        MediaSize::A3.spec_cups_option_value() == "iso_a3_297x420mm"@,
        MediaSize::A3Plus.spec_cups_option_value() == "na_super-b_13x19in"@,
        MediaSize::A4.spec_cups_option_value() == "iso_a4_210x297mm"@,
        MediaSize::A5.spec_cups_option_value() == "iso_a5_148x210mm"@,
        MediaSize::A6.spec_cups_option_value() == "iso_a6_105x148mm"@,
        MediaSize::GovtLetter.spec_cups_option_value() == "na_govt-letter_8x10in"@,
        MediaSize::Letter.spec_cups_option_value() == "na_letter_8.5x11in"@,
        MediaSize::Legal.spec_cups_option_value() == "na_legal_8.5x14in"@,
        MediaSize::Tabloid.spec_cups_option_value() == "na_ledger_11x17in"@,
        MediaSize::Index3x5.spec_cups_option_value() == "na_index-3x5_3x5in"@,
        MediaSize::Index4x6.spec_cups_option_value() == "na_index-4x6_4x6in"@,
        MediaSize::Index5x7.spec_cups_option_value() == "na_5x7_5x7in"@,
        MediaSize::Envelope10.spec_cups_option_value() == "na_number-10_4.125x9.5in"@,
        MediaSize::EnvelopeDL.spec_cups_option_value() == "iso_dl_110x220mm"@,
        MediaSize::Photo3R.spec_cups_option_value() == "oe_photo-l_3.5x5in"@,
{
}

/// Different media sizes are asked for by different media names.
pub proof fn lemma_media_size_values_distinct(a: MediaSize, b: MediaSize)
    requires
        a != b,
    ensures
        a.spec_cups_option_value() != b.spec_cups_option_value(),
{
    reveal_strlit("iso_a3_297x420mm");
    reveal_strlit("na_super-b_13x19in");
    reveal_strlit("iso_a4_210x297mm");
    reveal_strlit("iso_a5_148x210mm");
    reveal_strlit("iso_a6_105x148mm");
    reveal_strlit("na_govt-letter_8x10in");
    reveal_strlit("na_letter_8.5x11in");
    reveal_strlit("na_legal_8.5x14in");
    reveal_strlit("na_ledger_11x17in");
    reveal_strlit("na_index-3x5_3x5in");
    reveal_strlit("na_index-4x6_4x6in");
    reveal_strlit("na_5x7_5x7in");
    reveal_strlit("na_number-10_4.125x9.5in");
    reveal_strlit("iso_dl_110x220mm");
    reveal_strlit("oe_photo-l_3.5x5in");
    let x = a.spec_cups_option_value();
    let y = b.spec_cups_option_value();
    if x == y {
        assert(x.len() == y.len() && x[5] == y[5] && x[9] == y[9]);
    }
}


/// Each media source is asked for by its IPP keyword.
pub proof fn lemma_media_source_values()
    ensures
        MediaSource::Auto.spec_cups_option_value() == "auto"@,
        MediaSource::Manual.spec_cups_option_value() == "manual"@,
{
}

/// Different media sources are asked for by different values.
pub proof fn lemma_media_source_values_distinct(a: MediaSource, b: MediaSource)
    requires
        a != b,
    ensures
        a.spec_cups_option_value() != b.spec_cups_option_value(),
{
    reveal_strlit("auto");
    reveal_strlit("manual");
    let x = a.spec_cups_option_value();
    let y = b.spec_cups_option_value();
    if x == y {
        assert(x.len() == y.len() && x[0] == y[0] && x[1] == y[1]);
    }
}

/// Each media type is asked for by its IPP keyword.
pub proof fn lemma_media_type_values()
    ensures
        MediaType::Auto.spec_cups_option_value() == "auto"@,
        MediaType::Envelope.spec_cups_option_value() == "envelope"@,
        MediaType::Labels.spec_cups_option_value() == "labels"@,
        MediaType::Letterhead.spec_cups_option_value() == "stationery-letterhead"@,
        MediaType::Photo.spec_cups_option_value() == "photographic"@,
        MediaType::PhotoGlossy.spec_cups_option_value() == "photographic-glossy"@,
        MediaType::PhotoMatte.spec_cups_option_value() == "photographic-matte"@,
        MediaType::Plain.spec_cups_option_value() == "stationery"@,
        MediaType::Transparent.spec_cups_option_value() == "transparency"@,
{
}

/// Different media types are asked for by different values.
pub proof fn lemma_media_type_values_distinct(a: MediaType, b: MediaType)
    requires
        a != b,
    ensures
        a.spec_cups_option_value() != b.spec_cups_option_value(),
{
    reveal_strlit("auto");
    reveal_strlit("envelope");
    reveal_strlit("labels");
    reveal_strlit("stationery-letterhead");
    reveal_strlit("photographic");
    reveal_strlit("photographic-glossy");
    reveal_strlit("photographic-matte");
    reveal_strlit("stationery");
    reveal_strlit("transparency");
    let x = a.spec_cups_option_value();
    let y = b.spec_cups_option_value();
    if x == y {
        assert(x.len() == y.len() && x[0] == y[0] && x[1] == y[1]);
    }
}

/// Each orientation is asked for by its IPP enum value.
pub proof fn lemma_orientation_values()
    ensures
        Orientation::Portrait.spec_cups_option_value() == "3"@,
        Orientation::Landscape.spec_cups_option_value() == "4"@,
{
}

/// Different orientations are asked for by different values.
pub proof fn lemma_orientation_values_distinct(a: Orientation, b: Orientation)
    requires
        a != b,
    ensures
        a.spec_cups_option_value() != b.spec_cups_option_value(),
{
    reveal_strlit("3");
    reveal_strlit("4");
    let x = a.spec_cups_option_value();
    let y = b.spec_cups_option_value();
    if x == y {
        assert(x.len() == y.len() && x[0] == y[0] && x[1] == y[1]);
    }
}

/// Each color mode is asked for by its IPP keyword.
pub proof fn lemma_color_mode_values()
    ensures
        ColorMode::Auto.spec_cups_option_value() == "auto"@,
        ColorMode::Monochrome.spec_cups_option_value() == "monochrome"@,
        ColorMode::Color.spec_cups_option_value() == "color"@,
{
}

/// Different color modes are asked for by different values.
pub proof fn lemma_color_mode_values_distinct(a: ColorMode, b: ColorMode)
    requires
        a != b,
    ensures
        a.spec_cups_option_value() != b.spec_cups_option_value(),
{
    reveal_strlit("auto");
    reveal_strlit("monochrome");
    reveal_strlit("color");
    let x = a.spec_cups_option_value();
    let y = b.spec_cups_option_value();
    if x == y {
        assert(x.len() == y.len() && x[0] == y[0] && x[1] == y[1]);
    }
}

/// Each quality is asked for by its IPP enum value.
pub proof fn lemma_quality_values()
    ensures
        Quality::Draft.spec_cups_option_value() == "3"@,
        Quality::Normal.spec_cups_option_value() == "4"@,
        Quality::High.spec_cups_option_value() == "5"@,
{
}

/// Different qualities are asked for by different values.
pub proof fn lemma_quality_values_distinct(a: Quality, b: Quality)
    requires
        a != b,
    ensures
        a.spec_cups_option_value() != b.spec_cups_option_value(),
{
    reveal_strlit("3");
    reveal_strlit("4");
    reveal_strlit("5");
    let x = a.spec_cups_option_value();
    let y = b.spec_cups_option_value();
    if x == y {
        assert(x.len() == y.len() && x[0] == y[0] && x[1] == y[1]);
    }
}

/// Each sides mode is asked for by its IPP keyword.
pub proof fn lemma_sides_values()
    ensures
        SidesMode::OneSided.spec_cups_option_value() == "one-sided"@,
        SidesMode::TwoSidedPortrait.spec_cups_option_value() == "two-sided-long-edge"@,
        SidesMode::TwoSidedLandscape.spec_cups_option_value() == "two-sided-short-edge"@,
{
}

/// Different sides modes are asked for by different values.
pub proof fn lemma_sides_values_distinct(a: SidesMode, b: SidesMode)
    requires
        a != b,
    ensures
        a.spec_cups_option_value() != b.spec_cups_option_value(),
{
    reveal_strlit("one-sided");
    reveal_strlit("two-sided-long-edge");
    reveal_strlit("two-sided-short-edge");
    let x = a.spec_cups_option_value();
    let y = b.spec_cups_option_value();
    if x == y {
        assert(x.len() == y.len() && x[0] == y[0] && x[1] == y[1]);
    }
}

/// Each finishing is asked for by its IPP enum value.
pub proof fn lemma_finishing_values()
    ensures
        Finishing::Bind.spec_cups_option_value() == "7"@,
        Finishing::Cover.spec_cups_option_value() == "6"@,
        Finishing::Fold.spec_cups_option_value() == "10"@,
        Finishing::Punch.spec_cups_option_value() == "5"@,
        Finishing::Staple.spec_cups_option_value() == "4"@,
        Finishing::Trim.spec_cups_option_value() == "11"@,
{
}

/// Different finishings are asked for by different values.
pub proof fn lemma_finishing_values_distinct(a: Finishing, b: Finishing)
    requires
        a != b,
    ensures
        a.spec_cups_option_value() != b.spec_cups_option_value(),
{
    reveal_strlit("7");
    reveal_strlit("6");
    reveal_strlit("10");
    reveal_strlit("5");
    reveal_strlit("4");
    reveal_strlit("11");
    let x = a.spec_cups_option_value();
    let y = b.spec_cups_option_value();
    if x == y {
        assert(x.len() == y.len() && x[0] == y[0] && x[1] == y[1]);
    }
}

/// A list of finishings is asked for as the "none" finishing when it is empty, and otherwise as
/// the values of its finishings in order, separated by commas.
pub proof fn lemma_finishings_list_value(v: Vec<Finishing>)
    ensures
        v@.len() == 0 ==> v.spec_cups_option_value() == "3"@,
        v@.len() == 1 ==> v.spec_cups_option_value() == v@[0].spec_cups_option_value(),
        v@.len() > 1 ==> v.spec_cups_option_value() == finishings_value(v@.drop_last()) + seq![
            ',',
        ] + v@.last().spec_cups_option_value(),
{
}


/// The number of options of `o` that are set.
pub open spec fn set_option_count(o: PrintOptions) -> nat {
    (if o.copies is Some { 1nat } else { 0nat })
        + (if o.finishings is Some { 1nat } else { 0nat })
        + (if o.media_size is Some { 1nat } else { 0nat })
        + (if o.media_source is Some { 1nat } else { 0nat })
        + (if o.media_type is Some { 1nat } else { 0nat })
        + (if o.number_up is Some { 1nat } else { 0nat })
        + (if o.orientation is Some { 1nat } else { 0nat })
        + (if o.color_mode is Some { 1nat } else { 0nat })
        + (if o.quality is Some { 1nat } else { 0nat })
        + (if o.sides_mode is Some { 1nat } else { 0nat })
}

/// Whether `requests` asks for `option` when it is set: a request with the option's CUPS name
/// and value, its label and its readable value.
pub open spec fn asks_for<O: CupsOption>(requests: Seq<RequestView>, option: Option<O>) -> bool {
    match option {
        Some(x) => requests.contains(
            (
                O::spec_cups_option_name(),
                x.spec_cups_option_value(),
                ascii_lowercase(O::spec_name()),
                x.spec_human_string(),
            ),
        ),
        None => true,
    }
}

/// Print options ask CUPS for one request per option that is set, whatever its value, and the
/// requests ask for every set option under its own CUPS name and value.
pub proof fn lemma_every_set_option_requested(o: PrintOptions)
    ensures
        option_requests(o).len() == set_option_count(o),
        asks_for(option_requests(o), o.copies),
        asks_for(option_requests(o), o.finishings),
        asks_for(option_requests(o), o.media_size),
        asks_for(option_requests(o), o.media_source),
        asks_for(option_requests(o), o.media_type),
        asks_for(option_requests(o), o.number_up),
        asks_for(option_requests(o), o.orientation),
        asks_for(option_requests(o), o.color_mode),
        asks_for(option_requests(o), o.quality),
        asks_for(option_requests(o), o.sides_mode),
{
    broadcast use vstd::seq_lib::lemma_seq_concat_contains_all_elements;

    lemma_request_of_asks_for(o.copies);
    lemma_request_of_asks_for(o.finishings);
    lemma_request_of_asks_for(o.media_size);
    lemma_request_of_asks_for(o.media_source);
    lemma_request_of_asks_for(o.media_type);
    lemma_request_of_asks_for(o.number_up);
    lemma_request_of_asks_for(o.orientation);
    lemma_request_of_asks_for(o.color_mode);
    lemma_request_of_asks_for(o.quality);
    lemma_request_of_asks_for(o.sides_mode);
}

/// The request of a set option asks for it.
proof fn lemma_request_of_asks_for<O: CupsOption>(option: Option<O>)
    ensures
        asks_for(request_of(option), option),
        request_of(option).len() == (if option is Some { 1nat } else { 0nat }),
{
    if let Some(x) = option {
        assert(request_of(option)[0] == (
            O::spec_cups_option_name(),
            x.spec_cups_option_value(),
            ascii_lowercase(O::spec_name()),
            x.spec_human_string(),
        ));
    }
}

/// The number of copies and the number of pages per side are asked for in decimal notation
/// that denotes exactly that number.
pub proof fn lemma_count_values(n: i32)
    ensures
        decimal_value(CopiesInt(n).spec_cups_option_value()) == n,
        decimal_value(NumberUpInt(n).spec_cups_option_value()) == n,
{
    lemma_decimal_value(n as int);
}

} // verus!
