//! Decisions of the walk over the input folder: which files are media,
//! where each goes, and what is logged.
use vstd::prelude::*;
use crate::classify::{
    classification, classify, fallback_label, CaptureTime, ClassifyError, DateEntry, Probe,
    Reading,
};
use crate::naming::year_text;
use crate::metadata::{determine_subfolder_name_from_metadata, probe_wf, probed};
use crate::naming::{join_path, joined};

verus! {

/// What `str::to_lowercase` makes of a text.
pub uninterp spec fn lower_of(s: Seq<char>) -> Seq<char>;

/// Relies on str::to_lowercase: the lowercase form of each character; the
/// result depends on the characters alone.
#[verifier::external_body]
fn lowercase(s: &str) -> (r: String)
    ensures
        r@ == lower_of(s@),
{
    s.to_lowercase()
}

/// The lowercased extensions of the files that are sorted.
pub open spec fn media_extension(e: Seq<char>) -> bool {
    ||| e == seq!['j', 'p', 'g']
    ||| e == seq!['j', 'p', 'e', 'g']
    ||| e == seq!['p', 'n', 'g']
    ||| e == seq!['m', 'o', 'v']
    ||| e == seq!['m', 'p', '4']
}

/// Whether an already lowercased extension is one of the media extensions.
pub fn is_media_extension(lowered: &String) -> (r: bool)
    ensures
        r == media_extension(lowered@),
{
    proof {
        reveal_strlit("jpg");
        reveal_strlit("jpeg");
        reveal_strlit("png");
        reveal_strlit("mov");
        reveal_strlit("mp4");
        assert("jpg"@ =~= seq!['j', 'p', 'g']);
        assert("jpeg"@ =~= seq!['j', 'p', 'e', 'g']);
        assert("png"@ =~= seq!['p', 'n', 'g']);
        assert("mov"@ =~= seq!['m', 'o', 'v']);
        assert("mp4"@ =~= seq!['m', 'p', '4']);
    }
    *lowered == String::from_str("jpg") || *lowered == String::from_str("jpeg")
        || *lowered == String::from_str("png") || *lowered == String::from_str("mov")
        || *lowered == String::from_str("mp4")
}

/// Whether a file with this extension is sorted; the comparison ignores case.
pub fn is_supported_extension(extension: &str) -> (r: bool)
    ensures
        r == media_extension(lower_of(extension@)),
{
    let lowered = lowercase(extension);
    is_media_extension(&lowered)
}

/// The path a file goes to: `{output}/{subfolder}/{name}`.
pub open spec fn destination(output: Seq<char>, subfolder: Seq<char>, name: Seq<char>) -> Seq<
    char,
> {
    joined(joined(output, subfolder), name)
}

/// What is done with a file that has a destination folder.
#[derive(Clone, Debug)]
pub enum Action {
    /// Create `folder` with its missing ancestors, then rename the file to
    /// `target`.
    Move { folder: String, target: String },
    /// Only log that the file would go to `target`.
    Report { target: String },
}

/// The view of an action.
pub ghost enum ActionView {
    Move { folder: Seq<char>, target: Seq<char> },
    Report { target: Seq<char> },
}

impl View for Action {
    type V = ActionView;

    open spec fn view(&self) -> ActionView {
        match self {
            Action::Move { folder, target } => ActionView::Move { folder: folder@, target: target@ },
            Action::Report { target } => ActionView::Report { target: target@ },
        }
    }
}

impl ActionView {
    /// The path the file ends up at, or would.
    pub open spec fn target(self) -> Seq<char> {
        match self {
            ActionView::Move { target, .. } => target,
            ActionView::Report { target } => target,
        }
    }

    /// Whether the action changes the file system.
    pub open spec fn mutates(self) -> bool {
        self is Move
    }
}

/// The action for a file `name` bound for `subfolder` of `output`.
pub open spec fn plan(output: Seq<char>, subfolder: Seq<char>, name: Seq<char>, dry_run: bool) -> ActionView {
    if dry_run {
        ActionView::Report { target: destination(output, subfolder, name) }
    } else {
        ActionView::Move {
            folder: joined(output, subfolder),
            target: destination(output, subfolder, name),
        }
    }
}

/// Decides what to do with the file `file_name` once its folder is known.
pub fn plan_move(output_folder: &str, subfolder: &str, file_name: &str, dry_run: bool) -> (r:
    Action)
    ensures
        r@ == plan(output_folder@, subfolder@, file_name@, dry_run),
{
    let folder = join_path(output_folder, subfolder);
    let target = join_path(folder.as_str(), file_name);
    if dry_run {
        Action::Report { target }
    } else {
        Action::Move { folder, target }
    }
}

/// What becomes of one media file.
#[derive(Debug)]
pub enum Placement {
    /// Left where it is.
    Skip { probe: Probe },
    /// Moved (or, in a dry run, reported) as the action says.
    Place { probe: Probe, action: Action },
    /// A value that must be present is missing: the run stops.
    Fatal { probe: Probe, error: ClassifyError },
}

impl Placement {
    /// The probe that the placement was decided from.
    pub open spec fn probe(self) -> Probe {
        match self {
            Placement::Skip { probe } => probe,
            Placement::Place { probe, .. } => probe,
            Placement::Fatal { probe, .. } => probe,
        }
    }

    /// The placement is the one that its probe calls for, for the file
    /// `name` under `output`.
    pub open spec fn follows_probe(self, output: Seq<char>, name: Seq<char>, dry_run: bool) -> bool {
        match classification(self.probe()) {
            Ok(None) => self is Skip,
            Ok(Some(sub)) => self matches Placement::Place { action, .. } && action@ == plan(
                output,
                sub,
                name,
                dry_run,
            ),
            Err(e) => self matches Placement::Fatal { error, .. } && error == e,
        }
    }
}

/// Decides what becomes of the media file `file_name`, given its contents
/// or the reason they could not be read.
pub fn place_file(
    output_folder: &str,
    file_name: &str,
    contents: Result<Vec<u8>, String>,
    dry_run: bool,
) -> (r: Placement)
    ensures
        probe_wf(r.probe()),
        r.follows_probe(output_folder@, file_name@, dry_run),
        contents matches Err(e) ==> r.probe() matches Probe::Unopenable(d) && d@ == e@,
        contents matches Ok(b) ==> probed(b@, r.probe()),
{
    let (probe, decided) = match contents {
        Ok(bytes) => determine_subfolder_name_from_metadata(bytes),
        Err(e) => {
            let probe = Probe::Unopenable(e);
            let decided = classify(&probe);
            (probe, decided)
        },
    };
    match decided {
        Ok(None) => Placement::Skip { probe },
        Ok(Some(sub)) => {
            let action = plan_move(output_folder, sub.as_str(), file_name, dry_run);
            Placement::Place { probe, action }
        },
        Err(error) => Placement::Fatal { probe, error },
    }
}

/// A dry run places a file exactly as a real run on the same metadata
/// does: both skip it, both stop, or both send it to the same target; and
/// the dry run changes nothing on disk.
pub proof fn lemma_dry_run_same_decisions(
    actual: Placement,
    dry: Placement,
    output: Seq<char>,
    name: Seq<char>,
)
    requires
        actual.follows_probe(output, name, false),
        dry.follows_probe(output, name, true),
        actual.probe() == dry.probe(),
    ensures
        actual is Skip <==> dry is Skip,
        actual is Fatal <==> dry is Fatal,
        dry matches Placement::Place { action, .. } ==> !action@.mutates(),
        actual matches Placement::Place { action: actual_action, .. } ==> (
        dry matches Placement::Place { action: dry_action, .. } && dry_action@.target()
            == actual_action@.target()),
{
}

/// A file whose metadata container was found but gives no date (it does not
/// parse, or has no date tag) is moved, in a real run, into the fallback
/// folder under the output folder.
pub proof fn lemma_fallback_is_moved(r: Placement, output: Seq<char>, name: Seq<char>)
    requires
        r.follows_probe(output, name, false),
        r.probe() matches Probe::Exif(reading) && (reading is Failed || reading
            == Reading::Parsed(DateEntry::Absent)) || r.probe() matches Probe::Track(
            Reading::Failed(_),
        ),
    ensures
        r matches Placement::Place { action, .. } && action@.mutates() && action@.target()
            == destination(output, fallback_label(), name),
{
}

/// A file that cannot be opened as a metadata source, or that carries no
/// metadata, is left where it is.
pub proof fn lemma_no_container_is_skipped(
    r: Placement,
    output: Seq<char>,
    name: Seq<char>,
    dry_run: bool,
)
    requires
        r.follows_probe(output, name, dry_run),
        r.probe() is Unopenable || r.probe() is NoMetadata,
    ensures
        r is Skip,
{
}

/// A file with a usable capture date goes to the folder of that date's
/// year, whatever its time of day or offset.
pub proof fn lemma_dated_file_goes_to_its_year(
    r: Placement,
    output: Seq<char>,
    name: Seq<char>,
    dry_run: bool,
    t: CaptureTime,
)
    requires
        r.follows_probe(output, name, dry_run),
        r.probe() == Probe::Exif(Reading::Parsed(DateEntry::Time(t)))
            || r.probe() == Probe::Track(Reading::Parsed(DateEntry::Time(t))),
    ensures
        r matches Placement::Place { action, .. } && action@.target() == destination(
            output,
            year_text(t.year as int),
            name,
        ),
        r matches Placement::Place { action, .. } && action@.mutates() == !dry_run,
{
}

/// The log line of a dry run for the file `file_name` bound for `target`.
pub fn would_move_message(file_name: &str, target: &str) -> (r: String)
    ensures
        r@ == "Would move "@ + file_name@ + " to "@ + target@,
{
    let mut s = String::from_str("Would move ");
    s.append(file_name);
    s.append(" to ");
    s.append(target);
    s
}

/// Lines of the console log.
pub struct Logger {
    pub is_debug: bool,
}

/// Whether a setting of the debug variable turns debug lines on: "true",
/// in any case.
pub open spec fn debug_on(setting: Option<Seq<char>>) -> bool {
    match setting {
        Some(v) => lower_of(v) == seq!['t', 'r', 'u', 'e'],
        None => false,
    }
}

impl Logger {
    /// A logger whose debug lines are on when the debug setting reads "true".
    pub fn new(debug_setting: Option<&str>) -> (r: Logger)
        ensures
            r.is_debug == debug_on(
                match debug_setting {
                    Some(v) => Some(v@),
                    None => None,
                },
            ),
    {
        proof {
            reveal_strlit("true");
            assert("true"@ =~= seq!['t', 'r', 'u', 'e']);
        }
        let is_debug = match debug_setting {
            Some(v) => lowercase(v) == String::from_str("true"),
            None => false,
        };
        Logger { is_debug }
    }

    /// An information line.
    pub fn info(&self, message: &str) -> (r: String)
        ensures
            r@ == "ℹ️ INFO: "@ + message@,
    {
        let mut s = String::from_str("ℹ️ INFO: ");
        s.append(message);
        s
    }

    /// A warning line.
    pub fn warning(&self, message: &str) -> (r: String)
        ensures
            r@ == "⛔️ WARNING: "@ + message@,
    {
        let mut s = String::from_str("⛔️ WARNING: ");
        s.append(message);
        s
    }

    /// A debug line, when debug lines are on.
    pub fn debug(&self, message: &str) -> (r: Option<String>)
        ensures
            r is Some == self.is_debug,
            r matches Some(s) ==> s@ == "🪲 DEBUG: "@ + message@,
    {
        if self.is_debug {
            let mut s = String::from_str("🪲 DEBUG: ");
            s.append(message);
            Some(s)
        } else {
            None
        }
    }

    /// An error line, for standard error.
    pub fn error(&self, message: &str) -> (r: String)
        ensures
            r@ == "💣 ERROR: "@ + message@ + "."@,
    {
        let mut s = String::from_str("💣 ERROR: ");
        s.append(message);
        s.append(".");
        s
    }
}

} // verus!
