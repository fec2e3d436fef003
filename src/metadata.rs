//! Reading a file's metadata with nom-exif, down to the plain values that
//! classification works on.
use vstd::prelude::*;
use chrono::{Datelike, Timelike};
use nom_exif::{ExifIter, MediaParser, MediaSource, TrackInfo, TrackInfoTag};
use std::io::Cursor;
use crate::classify::{
    classification, classify, result_view, CaptureTime, ClassifyError, DateEntry, Probe, Reading,
};

verus! {

#[verifier::external_type_specification]
#[verifier::external_body]
pub struct ExError(nom_exif::Error);

/// Exif tag code of the original capture date (DateTimeOriginal).
pub const DATE_TIME_ORIGINAL: u16 = 0x9003;

/// Exif tag code of the creation date (CreateDate).
pub const CREATE_DATE: u16 = 0x9004;

/// One of the two Exif date tags that give a file's capture date.
pub open spec fn is_date_tag(code: u16) -> bool {
    code == DATE_TIME_ORIGINAL || code == CREATE_DATE
}

/// The container that nom-exif detects in the contents: `None` when it
/// recognises none, `Some(true)` for an image one (with Exif metadata),
/// `Some(false)` for a video one (with track metadata).
pub uninterp spec fn container_of(contents: Seq<u8>) -> Option<bool>;

/// The Exif entries that nom-exif parses from the contents, in the order
/// stored: each entry's tag code, and its date-time where its value is one.
/// `None` when parsing fails.
pub uninterp spec fn exif_entries_of(contents: Seq<u8>) -> Option<Seq<(u16, Option<CaptureTime>)>>;

/// The creation date that nom-exif parses from the track metadata of the
/// contents: `None` when parsing fails; then `None` when the field is
/// absent; then the date-time, `None` when the value holds none.
pub uninterp spec fn track_date_of(contents: Seq<u8>) -> Option<Option<Option<CaptureTime>>>;

/// Relies on MediaSource::seekable, which reads the header of the contents
/// and detects the container (or fails), and on MediaSource::has_exif:
/// whether that container is an image one (parser.rs: a container is an
/// image one or a video one, never both). A source's type names a marker
/// that nom-exif keeps private, so no signature here can hold one: each
/// step that needs a source builds it from the contents.
#[verifier::external_body]
fn source_has_exif(contents: &Vec<u8>) -> (r: Result<bool, nom_exif::Error>)
    ensures
        r matches Ok(b) ==> container_of(contents@) == Some(b),
        r is Err ==> container_of(contents@) is None,
{
    MediaSource::seekable(Cursor::new(contents.as_slice())).map(|source| source.has_exif())
}

/// Relies on MediaSource::seekable and MediaSource::has_track: whether the
/// container detected is a video one, the opposite of has_exif.
#[verifier::external_body]
fn source_has_track(contents: &Vec<u8>) -> (r: Result<bool, nom_exif::Error>)
    ensures
        r matches Ok(b) ==> container_of(contents@) == Some(!b),
        r is Err ==> container_of(contents@) is None,
{
    MediaSource::seekable(Cursor::new(contents.as_slice())).map(|source| source.has_track())
}

/// Relies on MediaParser::parse with ExifIter as its output, on the
/// iterator's entries (ParsedExifEntry::tag_code and get_value), on
/// EntryValue::as_time_components, and on chrono's getters to take the
/// date-time apart: calendar fields in range, an offset of less than a day.
#[verifier::external_body]
fn read_exif(contents: &Vec<u8>) -> (r: Result<Vec<(u16, Option<CaptureTime>)>, nom_exif::Error>)
    ensures
        r matches Ok(v) ==> exif_entries_of(contents@) == Some(v@),
        r is Err ==> exif_entries_of(contents@) is None,
        r matches Ok(v) ==> forall|i: int|
            0 <= i < v@.len() ==> ((#[trigger] v@[i]).1 matches Some(t) ==> t.wf()),
{
    let iter: ExifIter = MediaParser::new().parse(MediaSource::seekable(Cursor::new(contents.as_slice()))?)?;
    Ok(iter.map(|e| {
        let time = e.get_value().and_then(|v| v.as_time_components());
        (e.tag_code(), time.map(|(t, o)| CaptureTime {
            year: t.year(), month: t.month(), day: t.day(), hour: t.hour(), minute: t.minute(),
            second: t.second(), offset_seconds: o.map(|o| o.local_minus_utc()),
        }))
    }).collect())
}

/// Relies on MediaParser::parse with TrackInfo as its output, on
/// TrackInfo::get for the creation date, and on as_time_components and
/// chrono's getters as for Exif.
#[verifier::external_body]
fn read_track(contents: &Vec<u8>) -> (r: Result<Option<Option<CaptureTime>>, nom_exif::Error>)
    ensures
        r matches Ok(d) ==> track_date_of(contents@) == Some(d),
        r is Err ==> track_date_of(contents@) is None,
        r matches Ok(Some(Some(t))) ==> t.wf(),
{
    let info: TrackInfo = MediaParser::new().parse(MediaSource::seekable(Cursor::new(contents.as_slice()))?)?;
    Ok(info.get(TrackInfoTag::CreateDate).map(|v| v.as_time_components().map(|(t, o)| CaptureTime {
        year: t.year(), month: t.month(), day: t.day(), hour: t.hour(), minute: t.minute(),
        second: t.second(), offset_seconds: o.map(|o| o.local_minus_utc()),
    })))
}

/// Relies on nom_exif::Error's Display: the parser's explanation.
#[verifier::external_body]
fn error_details(error: &nom_exif::Error) -> String {
    error.to_string()
}

/// Position of the first tag code that is one of the two date tags.
pub fn first_date_tag(codes: &Vec<u16>) -> (r: Option<usize>)
    ensures
        r matches Some(i) ==> i < codes@.len() && is_date_tag(codes@[i as int]) && forall|
            j: int,
        |
            0 <= j < i ==> !is_date_tag(#[trigger] codes@[j]),
        r is None ==> forall|j: int| 0 <= j < codes@.len() ==> !is_date_tag(#[trigger] codes@[j]),
{
    let mut i: usize = 0;
    while i < codes.len()
        invariant
            i <= codes@.len(),
            forall|j: int| 0 <= j < i ==> !is_date_tag(#[trigger] codes@[j]),
        decreases codes@.len() - i,
    {
        let c = codes[i];
        if c == DATE_TIME_ORIGINAL || c == CREATE_DATE {
            return Some(i);
        }
        i = i + 1;
    }
    None
}

/// Well-formed probe: every date-time in it has fields in range.
pub open spec fn probe_wf(p: Probe) -> bool {
    match p {
        Probe::Exif(Reading::Parsed(DateEntry::Time(t))) => t.wf(),
        Probe::Track(Reading::Parsed(DateEntry::Time(t))) => t.wf(),
        _ => true,
    }
}

/// The date entry of an Exif entry's value.
pub open spec fn exif_date(value: Option<CaptureTime>) -> DateEntry {
    match value {
        Some(t) => DateEntry::Time(t),
        None => DateEntry::NotATime,
    }
}

/// `i` is the position of the first entry whose tag is a date tag.
pub open spec fn is_first_date(entries: Seq<(u16, Option<CaptureTime>)>, i: int) -> bool {
    &&& 0 <= i < entries.len()
    &&& is_date_tag(entries[i].0)
    &&& forall|j: int| 0 <= j < i ==> !is_date_tag(#[trigger] entries[j].0)
}

/// The date entry of the first Exif entry with a date tag; `Absent` when
/// there is none.
pub open spec fn first_date(entries: Seq<(u16, Option<CaptureTime>)>) -> DateEntry {
    if exists|i: int| is_first_date(entries, i) {
        exif_date(entries[choose|i: int| is_first_date(entries, i)].1)
    } else {
        DateEntry::Absent
    }
}

/// The date entry of a track's creation date field.
pub open spec fn track_date(field: Option<Option<CaptureTime>>) -> DateEntry {
    match field {
        None => DateEntry::Absent,
        Some(None) => DateEntry::NotATime,
        Some(Some(t)) => DateEntry::Time(t),
    }
}

/// `p` is what probing `contents` finds: nothing when no container is
/// detected; for an image container the Exif metadata alone, for a video
/// container the track metadata alone.
pub open spec fn probed(contents: Seq<u8>, p: Probe) -> bool {
    match container_of(contents) {
        None => p is Unopenable,
        Some(true) => p matches Probe::Exif(reading) && match exif_entries_of(contents) {
            None => reading is Failed,
            Some(entries) => reading == Reading::Parsed(first_date(entries)),
        },
        Some(false) => p matches Probe::Track(reading) && match track_date_of(contents) {
            None => reading is Failed,
            Some(field) => reading == Reading::Parsed(track_date(field)),
        },
    }
}

fn probe_exif(contents: &Vec<u8>) -> (r: Reading)
    ensures
        probe_wf(Probe::Exif(r)),
        match exif_entries_of(contents@) {
            None => r is Failed,
            Some(entries) => r == Reading::Parsed(first_date(entries)),
        },
{
    let entries = match read_exif(contents) {
        Ok(entries) => entries,
        Err(e) => return Reading::Failed(error_details(&e)),
    };
    let mut codes: Vec<u16> = Vec::new();
    let mut i: usize = 0;
    while i < entries.len()
        invariant
            i <= entries@.len(),
            codes@.len() == i,
            forall|j: int| 0 <= j < i ==> codes@[j] == (#[trigger] entries@[j]).0,
        decreases entries@.len() - i,
    {
        codes.push(entries[i].0);
        i = i + 1;
    }
    match first_date_tag(&codes) {
        None => {
            assert forall|k: int| !is_first_date(entries@, k) by {
                if 0 <= k < entries@.len() {
                    assert(codes@[k] == entries@[k].0);
                }
            }
            Reading::Parsed(DateEntry::Absent)
        },
        Some(k) => {
            assert(codes@[k as int] == entries@[k as int].0);
            assert forall|j: int| 0 <= j < k implies !is_date_tag(#[trigger] entries@[j].0) by {
                assert(codes@[j] == entries@[j].0);
            }
            assert(is_first_date(entries@, k as int));
            proof {
                let c = choose|c: int| is_first_date(entries@, c);
                if c < k {
                    assert(!is_date_tag(entries@[c].0));
                } else if c > k {
                    assert(!is_date_tag(entries@[k as int].0));
                }
                assert(c == k);
            }
            match entries[k].1 {
                Some(t) => Reading::Parsed(DateEntry::Time(t)),
                None => Reading::Parsed(DateEntry::NotATime),
            }
        },
    }
}

fn probe_track(contents: &Vec<u8>) -> (r: Reading)
    ensures
        probe_wf(Probe::Track(r)),
        match track_date_of(contents@) {
            None => r is Failed,
            Some(field) => r == Reading::Parsed(track_date(field)),
        },
{
    match read_track(contents) {
        Ok(None) => Reading::Parsed(DateEntry::Absent),
        Ok(Some(None)) => Reading::Parsed(DateEntry::NotATime),
        Ok(Some(Some(t))) => Reading::Parsed(DateEntry::Time(t)),
        Err(e) => Reading::Failed(error_details(&e)),
    }
}

/// Probes the metadata of a file's contents: an image container's Exif
/// metadata, or else a video container's track metadata.
pub fn probe_media(contents: Vec<u8>) -> (r: Probe)
    ensures
        probe_wf(r),
        probed(contents@, r),
        container_of(contents@) == Some(true) <==> r is Exif,
{
    let has_exif = match source_has_exif(&contents) {
        Ok(b) => b,
        Err(e) => return Probe::Unopenable(error_details(&e)),
    };
    if has_exif {
        return Probe::Exif(probe_exif(&contents));
    }
    let has_track = match source_has_track(&contents) {
        Ok(b) => b,
        Err(e) => return Probe::Unopenable(error_details(&e)),
    };
    if has_track {
        Probe::Track(probe_track(&contents))
    } else {
        Probe::NoMetadata
    }
}

/// Probes a file's contents and decides its destination folder; returns
/// the probe too, for its warning.
pub fn determine_subfolder_name_from_metadata(contents: Vec<u8>) -> (r: (
    Probe,
    Result<Option<String>, ClassifyError>,
))
    ensures
        probe_wf(r.0),
        probed(contents@, r.0),
        result_view(r.1) == classification(r.0),
{
    let probe = probe_media(contents);
    let decided = classify(&probe);
    (probe, decided)
}

} // verus!
