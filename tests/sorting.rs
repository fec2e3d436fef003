use photo_sorter::classify::{
    classify, not_qualified_label, probe_warning, CaptureTime, ClassifyError, DateEntry, Probe,
    Reading,
};
use photo_sorter::metadata::{first_date_tag, probe_media, CREATE_DATE, DATE_TIME_ORIGINAL};
use photo_sorter::naming::{decimal_string, join_path, padded4_string, year_folder_name};
use photo_sorter::walk::{
    is_media_extension, is_supported_extension, place_file, plan_move, would_move_message, Action,
    Logger, Placement,
};

fn time(year: i32, hour: u32, offset: Option<i32>) -> CaptureTime {
    CaptureTime { year, month: 6, day: 15, hour, minute: 0, second: 0, offset_seconds: offset }
}

fn folder(r: Result<Option<String>, ClassifyError>) -> Option<String> {
    r.expect("no fatal error expected")
}

/// A JPEG whose Exif block holds one DateTimeOriginal tag with `date`.
fn jpeg_with_date(date: &str) -> Vec<u8> {
    let mut tiff: Vec<u8> = vec![0x4D, 0x4D, 0x00, 0x2A, 0x00, 0x00, 0x00, 0x08];
    // IFD0: one entry, the pointer to the Exif IFD at offset 26.
    tiff.extend_from_slice(&[0x00, 0x01]);
    tiff.extend_from_slice(&[0x87, 0x69, 0x00, 0x04, 0x00, 0x00, 0x00, 0x01, 0x00, 0x00, 0x00, 0x1A]);
    tiff.extend_from_slice(&[0x00, 0x00, 0x00, 0x00]);
    // Exif IFD: one ASCII entry of 20 bytes at offset 44.
    tiff.extend_from_slice(&[0x00, 0x01]);
    tiff.extend_from_slice(&[0x90, 0x03, 0x00, 0x02, 0x00, 0x00, 0x00, 0x14, 0x00, 0x00, 0x00, 0x2C]);
    tiff.extend_from_slice(&[0x00, 0x00, 0x00, 0x00]);
    tiff.extend_from_slice(date.as_bytes());
    tiff.push(0);
    let len = 2 + 6 + tiff.len();
    let mut out: Vec<u8> = vec![0xFF, 0xD8, 0xFF, 0xE1, (len >> 8) as u8, (len & 0xFF) as u8];
    out.extend_from_slice(b"Exif\0\0");
    out.extend_from_slice(&tiff);
    out.extend_from_slice(&[0xFF, 0xD9]);
    // The parser reads past the header, so the file must be longer than it.
    out.extend_from_slice(&[0u8; 512]);
    out
}

#[test]
fn year_names_have_four_digits() {
    assert_eq!(year_folder_name(2021), "2021");
    assert_eq!(year_folder_name(987), "0987");
    assert_eq!(year_folder_name(0), "0000");
    assert_eq!(year_folder_name(9999), "9999");
}

#[test]
fn year_names_outside_four_digits_carry_a_sign() {
    assert_eq!(year_folder_name(10000), "+10000");
    assert_eq!(year_folder_name(-5), "-0005");
    assert_eq!(year_folder_name(-12345), "-12345");
}

#[test]
fn decimal_and_padding() {
    assert_eq!(decimal_string(0), "0");
    assert_eq!(decimal_string(4294967295), "4294967295");
    assert_eq!(padded4_string(7), "0007");
    assert_eq!(padded4_string(123456), "123456");
}

#[test]
fn paths_are_joined_with_a_slash() {
    assert_eq!(join_path("/out", "2021"), "/out/2021");
    assert_eq!(join_path("", "a"), "/a");
}

#[test]
fn year_ignores_time_of_day_and_offset() {
    let a = Probe::Exif(Reading::Parsed(DateEntry::Time(time(2021, 0, Some(-43200)))));
    let b = Probe::Exif(Reading::Parsed(DateEntry::Time(time(2021, 23, Some(50400)))));
    let c = Probe::Exif(Reading::Parsed(DateEntry::Time(time(2021, 12, None))));
    assert_eq!(folder(classify(&a)), Some("2021".to_string()));
    assert_eq!(folder(classify(&b)), Some("2021".to_string()));
    assert_eq!(folder(classify(&c)), Some("2021".to_string()));
}

#[test]
fn track_date_gives_its_year() {
    let p = Probe::Track(Reading::Parsed(DateEntry::Time(time(2019, 0, Some(0)))));
    assert_eq!(folder(classify(&p)), Some("2019".to_string()));
    assert!(probe_warning(&p).is_none());
}

#[test]
fn unusable_metadata_goes_to_the_fallback_folder() {
    let failed = Probe::Exif(Reading::Failed("bad".to_string()));
    let no_tag = Probe::Exif(Reading::Parsed(DateEntry::Absent));
    let track_failed = Probe::Track(Reading::Failed("bad".to_string()));
    for p in [failed, no_tag, track_failed] {
        assert_eq!(folder(classify(&p)), Some("NOT_QUALIFIED".to_string()));
    }
    assert_eq!(not_qualified_label(), "NOT_QUALIFIED");
}

#[test]
fn no_container_is_left_alone() {
    assert_eq!(folder(classify(&Probe::NoMetadata)), None);
    assert_eq!(folder(classify(&Probe::Unopenable("gone".to_string()))), None);
}

#[test]
fn missing_values_are_fatal() {
    let p = Probe::Exif(Reading::Parsed(DateEntry::NotATime));
    assert_eq!(classify(&p), Err(ClassifyError::ExifDateNotATime));
    let p = Probe::Track(Reading::Parsed(DateEntry::Absent));
    assert_eq!(classify(&p), Err(ClassifyError::TrackDateMissing));
    let p = Probe::Track(Reading::Parsed(DateEntry::NotATime));
    assert_eq!(classify(&p), Err(ClassifyError::TrackDateNotATime));
}

#[test]
fn warnings_carry_the_details() {
    assert_eq!(
        probe_warning(&Probe::Unopenable("no file".to_string())).unwrap(),
        "Couldn't get metadata of the file so skipping it. Details: no file"
    );
    assert_eq!(
        probe_warning(&Probe::NoMetadata).unwrap(),
        "No Exif or Track data found so skipping the current file."
    );
    assert_eq!(
        probe_warning(&Probe::Exif(Reading::Failed("x".to_string()))).unwrap(),
        "Failed parsing Exif data. Details: x"
    );
    assert_eq!(
        probe_warning(&Probe::Exif(Reading::Parsed(DateEntry::Absent))).unwrap(),
        "Failed reading Exif data. Details: No DateTimeOriginal or CreateDate tag found."
    );
    assert_eq!(
        probe_warning(&Probe::Track(Reading::Failed("y".to_string()))).unwrap(),
        "Failed parsing track data. Details: y"
    );
}

#[test]
fn first_date_tag_wins() {
    assert_eq!(first_date_tag(&vec![1, 2, 3]), None);
    assert_eq!(first_date_tag(&vec![]), None);
    assert_eq!(first_date_tag(&vec![5, CREATE_DATE, DATE_TIME_ORIGINAL]), Some(1));
    assert_eq!(first_date_tag(&vec![DATE_TIME_ORIGINAL, CREATE_DATE]), Some(0));
}

#[test]
fn extensions_are_matched_ignoring_case() {
    for e in ["jpg", "JPG", "jpeg", "Jpeg", "png", "PNG", "mov", "MOV", "mp4", "Mp4"] {
        assert!(is_supported_extension(e), "{e}");
    }
    for e in ["txt", "", "jpgx", "gif", "mp3"] {
        assert!(!is_supported_extension(e), "{e}");
    }
    assert!(is_media_extension(&"jpeg".to_string()));
    assert!(!is_media_extension(&"JPEG".to_string()));
}

#[test]
fn readme_is_not_sorted() {
    assert!(!is_supported_extension("txt"));
}

#[test]
fn moves_go_under_the_output_folder() {
    match plan_move("/out", "2021", "photo.jpg", false) {
        Action::Move { folder, target } => {
            assert_eq!(folder, "/out/2021");
            assert_eq!(target, "/out/2021/photo.jpg");
        }
        other => panic!("unexpected {other:?}"),
    }
}

#[test]
fn dry_run_only_reports() {
    match plan_move("/out", "2021", "photo.jpg", true) {
        Action::Report { target } => assert_eq!(target, "/out/2021/photo.jpg"),
        other => panic!("unexpected {other:?}"),
    }
    assert_eq!(
        would_move_message("photo.jpg", "/out/2021/photo.jpg"),
        "Would move photo.jpg to /out/2021/photo.jpg"
    );
}

#[test]
fn photo_with_capture_date_goes_to_its_year() {
    let bytes = jpeg_with_date("2021:06:15 10:00:00");
    match place_file("/out", "photo.jpg", Ok(bytes), false) {
        Placement::Place { action: Action::Move { folder, target }, .. } => {
            assert_eq!(folder, "/out/2021");
            assert_eq!(target, "/out/2021/photo.jpg");
        }
        other => panic!("unexpected {other:?}"),
    }
}

#[test]
fn photo_probe_reads_the_date() {
    match probe_media(jpeg_with_date("1999:12:31 23:59:58")) {
        Probe::Exif(Reading::Parsed(DateEntry::Time(t))) => {
            assert_eq!((t.year, t.month, t.day), (1999, 12, 31));
            assert_eq!((t.hour, t.minute, t.second), (23, 59, 58));
        }
        other => panic!("unexpected {other:?}"),
    }
}

#[test]
fn clip_with_track_date_goes_to_its_year() {
    let p = Probe::Track(Reading::Parsed(DateEntry::Time(CaptureTime {
        year: 2019,
        month: 1,
        day: 1,
        hour: 0,
        minute: 0,
        second: 0,
        offset_seconds: Some(0),
    })));
    let sub = folder(classify(&p)).unwrap();
    match plan_move("/out", &sub, "clip.mov", false) {
        Action::Move { target, .. } => assert_eq!(target, "/out/2019/clip.mov"),
        other => panic!("unexpected {other:?}"),
    }
}

#[test]
fn broken_png_goes_to_the_fallback_folder() {
    // A detected container (a JPEG header) whose Exif block is corrupt.
    let mut bytes: Vec<u8> = vec![0xFF, 0xD8, 0xFF, 0xE1, 0x00, 0x10];
    bytes.extend_from_slice(b"Exif\0\0");
    bytes.extend_from_slice(&[0x5A, 0x5A, 0x00, 0x2A, 0x00, 0x00, 0x00, 0x08]);
    bytes.extend_from_slice(&[0xFF, 0xD9]);
    bytes.extend_from_slice(&[0u8; 512]);
    match place_file("/out", "broken.png", Ok(bytes), false) {
        Placement::Place { action: Action::Move { target, .. }, .. } => {
            assert_eq!(target, "/out/NOT_QUALIFIED/broken.png")
        }
        other => panic!("unexpected {other:?}"),
    }
}

#[test]
fn png_signature_is_no_known_container() {
    let mut bytes: Vec<u8> = vec![0x89, 0x50, 0x4E, 0x47, 0x0D, 0x0A, 0x1A, 0x0A];
    bytes.extend_from_slice(&[0u8; 512]);
    match place_file("/out", "real.png", Ok(bytes), true) {
        Placement::Skip { probe: Probe::Unopenable(_) } => {}
        other => panic!("unexpected {other:?}"),
    }
}

#[test]
fn unreadable_file_is_skipped() {
    match place_file("/out", "a.jpg", Err("denied".to_string()), false) {
        Placement::Skip { probe } => {
            assert_eq!(
                probe_warning(&probe).unwrap(),
                "Couldn't get metadata of the file so skipping it. Details: denied"
            );
        }
        other => panic!("unexpected {other:?}"),
    }
}

#[test]
fn contents_of_no_known_container_are_skipped() {
    let bytes = b"just some plain text, no media here".to_vec();
    assert!(matches!(place_file("/out", "a.jpg", Ok(bytes), false), Placement::Skip { .. }));
}

#[test]
fn dry_run_places_like_a_real_run() {
    let real = place_file("/out", "p.jpg", Ok(jpeg_with_date("2020:01:02 03:04:05")), false);
    let dry = place_file("/out", "p.jpg", Ok(jpeg_with_date("2020:01:02 03:04:05")), true);
    match (real, dry) {
        (
            Placement::Place { action: Action::Move { target: t1, .. }, .. },
            Placement::Place { action: Action::Report { target: t2 }, .. },
        ) => assert_eq!(t1, t2),
        other => panic!("unexpected {other:?}"),
    }
}

#[test]
fn logger_lines() {
    let quiet = Logger::new(None);
    assert!(!quiet.is_debug);
    assert!(quiet.debug("x").is_none());
    let loud = Logger::new(Some("TrUe"));
    assert!(loud.is_debug);
    assert_eq!(loud.debug("x").unwrap(), "🪲 DEBUG: x");
    assert!(!Logger::new(Some("yes")).is_debug);
    assert_eq!(quiet.info("hi"), "ℹ️ INFO: hi");
    assert_eq!(quiet.warning("hm"), "⛔️ WARNING: hm");
    assert_eq!(quiet.error("boom"), "💣 ERROR: boom.");
}
