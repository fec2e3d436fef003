//! What metadata probing found about one file, and the folder decided from it.
use vstd::prelude::*;
use crate::naming::{year_folder_name, year_text};

verus! {

/// A capture date-time as read from a file: the calendar date and time of
/// day as the file records them, and the offset from UTC in seconds where
/// the file records one.
#[derive(Clone, Copy, Debug, PartialEq, Eq)]
pub struct CaptureTime {
    pub year: i32,
    pub month: u32,
    pub day: u32,
    pub hour: u32,
    pub minute: u32,
    pub second: u32,
    pub offset_seconds: Option<i32>,
}

impl CaptureTime {
    /// Fields within the calendar's and the clock's ranges.
    pub open spec fn wf(&self) -> bool {
        &&& 1 <= self.month <= 12
        &&& 1 <= self.day <= 31
        &&& self.hour < 24
        &&& self.minute < 60
        &&& self.second < 60
        &&& (self.offset_seconds matches Some(o) ==> -86_400 < o < 86_400)
    }
}

/// The date field looked up in parsed metadata.
#[derive(Clone, Debug)]
pub enum DateEntry {
    /// No such field.
    Absent,
    /// The field is there, but holds no date-time value.
    NotATime,
    /// The field's date-time.
    Time(CaptureTime),
}

/// The outcome of parsing one kind of metadata.
#[derive(Clone, Debug)]
pub enum Reading {
    /// Parsing failed, with the parser's explanation.
    Failed(String),
    /// Parsing succeeded; the date field that was looked up.
    Parsed(DateEntry),
}

/// Everything that probing a file's metadata found.
#[derive(Clone, Debug)]
pub enum Probe {
    /// The file could not be opened as a metadata source.
    Unopenable(String),
    /// The source carries neither photographic nor track metadata.
    NoMetadata,
    /// Photographic (Exif) metadata: the first of the original-capture and
    /// creation date tags, in the order they are stored.
    Exif(Reading),
    /// Track metadata of a video container: its creation date.
    Track(Reading),
}

/// A value that must be present, found missing: the run cannot go on.
#[derive(Clone, Copy, Debug, PartialEq, Eq, Structural)]
pub enum ClassifyError {
    /// The Exif date tag that was found holds no date-time.
    ExifDateNotATime,
    /// Parsed track metadata has no creation date.
    TrackDateMissing,
    /// The track's creation date holds no date-time.
    TrackDateNotATime,
}

/// The name of the folder for files whose metadata gives no usable date.
pub open spec fn fallback_label() -> Seq<char> {
    seq!['N', 'O', 'T', '_', 'Q', 'U', 'A', 'L', 'I', 'F', 'I', 'E', 'D']
}

/// The folder decided for a probe: `Ok(None)` leaves the file where it is,
/// `Ok(Some(name))` moves it to that folder.
pub open spec fn classification(p: Probe) -> Result<Option<Seq<char>>, ClassifyError> {
    match p {
        Probe::Unopenable(_) => Ok(None),
        Probe::NoMetadata => Ok(None),
        Probe::Exif(Reading::Failed(_)) => Ok(Some(fallback_label())),
        Probe::Exif(Reading::Parsed(DateEntry::Absent)) => Ok(Some(fallback_label())),
        Probe::Exif(Reading::Parsed(DateEntry::NotATime)) => Err(ClassifyError::ExifDateNotATime),
        Probe::Exif(Reading::Parsed(DateEntry::Time(t))) => Ok(Some(year_text(t.year as int))),
        Probe::Track(Reading::Failed(_)) => Ok(Some(fallback_label())),
        Probe::Track(Reading::Parsed(DateEntry::Absent)) => Err(ClassifyError::TrackDateMissing),
        Probe::Track(Reading::Parsed(DateEntry::NotATime)) => Err(ClassifyError::TrackDateNotATime),
        Probe::Track(Reading::Parsed(DateEntry::Time(t))) => Ok(Some(year_text(t.year as int))),
    }
}

/// The warning that a probe gives, if any.
pub open spec fn warning_text(p: Probe) -> Option<Seq<char>> {
    match p {
        Probe::Unopenable(e) => Some(
            "Couldn't get metadata of the file so skipping it. Details: "@ + e@,
        ),
        Probe::NoMetadata => Some("No Exif or Track data found so skipping the current file."@),
        Probe::Exif(Reading::Failed(e)) => Some("Failed parsing Exif data. Details: "@ + e@),
        Probe::Exif(Reading::Parsed(DateEntry::Absent)) => Some(
            "Failed reading Exif data. Details: No DateTimeOriginal or CreateDate tag found."@,
        ),
        Probe::Track(Reading::Failed(e)) => Some("Failed parsing track data. Details: "@ + e@),
        _ => None,
    }
}

/// The view of a classification result.
pub open spec fn result_view(r: Result<Option<String>, ClassifyError>) -> Result<
    Option<Seq<char>>,
    ClassifyError,
> {
    match r {
        Ok(Some(s)) => Ok(Some(s@)),
        Ok(None) => Ok(None),
        Err(e) => Err(e),
    }
}

/// The name of the folder for files whose metadata gives no usable date.
pub fn not_qualified_label() -> (r: String)
    ensures
        r@ == fallback_label(),
{
    proof {
        reveal_strlit("NOT_QUALIFIED");
    }
    String::from_str("NOT_QUALIFIED")
}

/// Decides the destination folder of a file from what its metadata holds.
pub fn classify(probe: &Probe) -> (r: Result<Option<String>, ClassifyError>)
    ensures
        result_view(r) == classification(*probe),
{
    match probe {
        Probe::Unopenable(_) => Ok(None),
        Probe::NoMetadata => Ok(None),
        Probe::Exif(Reading::Failed(_)) => Ok(Some(not_qualified_label())),
        Probe::Exif(Reading::Parsed(DateEntry::Absent)) => Ok(Some(not_qualified_label())),
        Probe::Exif(Reading::Parsed(DateEntry::NotATime)) => Err(ClassifyError::ExifDateNotATime),
        Probe::Exif(Reading::Parsed(DateEntry::Time(t))) => Ok(Some(year_folder_name(t.year))),
        Probe::Track(Reading::Failed(_)) => Ok(Some(not_qualified_label())),
        Probe::Track(Reading::Parsed(DateEntry::Absent)) => Err(ClassifyError::TrackDateMissing),
        Probe::Track(Reading::Parsed(DateEntry::NotATime)) => Err(
            ClassifyError::TrackDateNotATime,
        ),
        Probe::Track(Reading::Parsed(DateEntry::Time(t))) => Ok(Some(year_folder_name(t.year))),
    }
}

/// The warning to log for a probe, if it gives one.
pub fn probe_warning(probe: &Probe) -> (r: Option<String>)
    ensures
        r.is_some() == warning_text(*probe).is_some(),
        r.is_some() ==> r.unwrap()@ == warning_text(*probe).unwrap(),
{
    match probe {
        Probe::Unopenable(e) => {
            let mut s = String::from_str(
                "Couldn't get metadata of the file so skipping it. Details: ",
            );
            s.append(e.as_str());
            Some(s)
        },
        Probe::NoMetadata => Some(
            String::from_str("No Exif or Track data found so skipping the current file."),
        ),
        Probe::Exif(Reading::Failed(e)) => {
            let mut s = String::from_str("Failed parsing Exif data. Details: ");
            s.append(e.as_str());
            Some(s)
        },
        Probe::Exif(Reading::Parsed(DateEntry::Absent)) => Some(
            String::from_str(
                "Failed reading Exif data. Details: No DateTimeOriginal or CreateDate tag found.",
            ),
        ),
        Probe::Track(Reading::Failed(e)) => {
            let mut s = String::from_str("Failed parsing track data. Details: ");
            s.append(e.as_str());
            Some(s)
        },
        _ => None,
    }
}

/// A file with a usable capture date goes to the folder of that date's
/// year, whatever its month, day, time of day or offset.
pub proof fn lemma_year_decides(a: CaptureTime, b: CaptureTime)
    requires
        a.year == b.year,
    ensures
        classification(Probe::Exif(Reading::Parsed(DateEntry::Time(a)))) == Ok::<
            Option<Seq<char>>,
            ClassifyError,
        >(Some(year_text(b.year as int))),
        classification(Probe::Track(Reading::Parsed(DateEntry::Time(a)))) == Ok::<
            Option<Seq<char>>,
            ClassifyError,
        >(Some(year_text(b.year as int))),
{
}

} // verus!
