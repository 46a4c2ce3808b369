//! The order of a launcher run: which piece of outside work comes next, and where the run
//! goes once that work has succeeded or failed. The caller does the work (it asks the
//! host, touches the disk, fetches, runs the delegate) and reports how it went; the
//! decisions are made here.

use vstd::prelude::*;
use vstd::utf8::{decode_utf8, encode_utf8, encode_utf8_decode_utf8, valid_utf8};
use crate::after_program_name;
use crate::delegate::{exit_code_of, FALLBACK_EXIT_CODE};
use crate::error::Error;

verus! {

/// How far a run has come.
#[derive(Clone, Copy, PartialEq, Eq, Debug, Structural)]
pub enum Stage {
    /// Nothing is known yet.
    Start,
    /// The operating system and the architecture of the host are known.
    Identified,
    /// The cache directory and the paths of the artifact in it are known.
    Located,
    /// The binary was found in the cache.
    CacheHit,
    /// The binary was not found; the archive is being fetched.
    Downloading,
    /// The whole archive is in the cache.
    Downloaded,
    /// The archive is being extracted into the cache directory.
    Unpacking,
    /// The archive has been extracted and is no longer needed.
    Unpacked,
    /// The cached binary runs with the arguments of the launcher.
    Delegating,
    /// The run is over: after the delegate ended, or after a failure.
    Terminated { failed: bool },
}

/// The outside work that a stage asks for.
#[derive(Clone, Copy, PartialEq, Eq, Debug, Structural)]
pub enum Action {
    /// Ask the host for its operating system and architecture.
    Identify,
    /// Resolve the cache directory and derive the paths of the artifact.
    Locate,
    /// Look whether the binary is in the cache.
    Probe,
    /// Fetch the archive and store it at its path in the cache.
    Fetch,
    /// Decompress the archive and extract its entries into the cache directory.
    Extract,
    /// Delete the archive.
    RemoveArchive,
    /// Run the cached binary and forward its output.
    Run,
    /// Nothing to do at this stage: go on.
    Proceed,
    /// Leave the process.
    Exit,
}

/// How a piece of outside work went.
#[derive(Clone, Copy, PartialEq, Eq, Debug, Structural)]
pub enum Event {
    /// The work was done.
    Done,
    /// The probe found the binary.
    Present,
    /// The probe found no binary.
    Absent,
    /// The work failed.
    Failed,
}

/// A stage together with what the operator has to be told on the way to it.
#[derive(Clone, Copy, PartialEq, Eq, Debug, Structural)]
pub struct Transition {
    /// The stage that the run is in from now on.
    pub stage: Stage,
    /// Whether the work that was reported failed without ending the run, which is
    /// shown to the operator as a warning.
    pub warning: bool,
}

impl Stage {
    /// The outside work of each stage.
    pub open spec fn work(self) -> Action {
        match self {
            Stage::Start => Action::Identify,
            Stage::Identified => Action::Locate,
            Stage::Located => Action::Probe,
            Stage::CacheHit => Action::Proceed,
            Stage::Downloading => Action::Fetch,
            Stage::Downloaded => Action::Proceed,
            Stage::Unpacking => Action::Extract,
            Stage::Unpacked => Action::RemoveArchive,
            Stage::Delegating => Action::Run,
            Stage::Terminated { .. } => Action::Exit,
        }
    }

    /// The place of a stage in the order of a run. Every step of a run that is not over
    /// leads to a later place.
    pub open spec fn rank(self) -> nat {
        match self {
            Stage::Start => 0,
            Stage::Identified => 1,
            Stage::Located => 2,
            Stage::CacheHit => 3,
            Stage::Downloading => 3,
            Stage::Downloaded => 4,
            Stage::Unpacking => 5,
            Stage::Unpacked => 6,
            Stage::Delegating => 7,
            Stage::Terminated { .. } => 8,
        }
    }

    /// Where a run goes from a stage once the work of that stage has been reported.
    /// A failure ends the run, except the failure to delete the archive, which only
    /// warns; so does a report that does not answer the work of the stage. A finished
    /// run stays as it is.
    pub open spec fn after(self, event: Event) -> Transition {
        match (self, event) {
            (Stage::Terminated { failed }, _) => Transition {
                stage: Stage::Terminated { failed },
                warning: false,
            },
            (Stage::Start, Event::Done) => Transition { stage: Stage::Identified, warning: false },
            (Stage::Identified, Event::Done) => Transition { stage: Stage::Located, warning: false },
            (Stage::Located, Event::Present) => Transition { stage: Stage::CacheHit, warning: false },
            (Stage::Located, Event::Absent) => Transition {
                stage: Stage::Downloading,
                warning: false,
            },
            (Stage::CacheHit, Event::Done) => Transition { stage: Stage::Delegating, warning: false },
            (Stage::Downloading, Event::Done) => Transition {
                stage: Stage::Downloaded,
                warning: false,
            },
            (Stage::Downloaded, Event::Done) => Transition { stage: Stage::Unpacking, warning: false },
            (Stage::Unpacking, Event::Done) => Transition { stage: Stage::Unpacked, warning: false },
            (Stage::Unpacked, Event::Done) => Transition { stage: Stage::Delegating, warning: false },
            (Stage::Unpacked, Event::Failed) => Transition { stage: Stage::Delegating, warning: true },
            (Stage::Delegating, Event::Done) => Transition {
                stage: Stage::Terminated { failed: false },
                warning: false,
            },
            _ => Transition { stage: Stage::Terminated { failed: true }, warning: false },
        }
    }

    /// The outside work that is to be done at this stage.
    pub fn action(self) -> (action: Action)
        ensures
            action == self.work(),
    {
        match self {
            Stage::Start => Action::Identify,
            Stage::Identified => Action::Locate,
            Stage::Located => Action::Probe,
            Stage::CacheHit => Action::Proceed,
            Stage::Downloading => Action::Fetch,
            Stage::Downloaded => Action::Proceed,
            Stage::Unpacking => Action::Extract,
            Stage::Unpacked => Action::RemoveArchive,
            Stage::Delegating => Action::Run,
            Stage::Terminated { .. } => Action::Exit,
        }
    }

    /// Moves the run on, given how the work of the current stage went.
    pub fn advance(self, event: Event) -> (next: Transition)
        ensures
            next == self.after(event),
    {
        let failed = Transition { stage: Stage::Terminated { failed: true }, warning: false };
        match self {
            Stage::Terminated { .. } => Transition { stage: self, warning: false },
            Stage::Start => match event {
                Event::Done => Transition { stage: Stage::Identified, warning: false },
                _ => failed,
            },
            Stage::Identified => match event {
                Event::Done => Transition { stage: Stage::Located, warning: false },
                _ => failed,
            },
            Stage::Located => match event {
                Event::Present => Transition { stage: Stage::CacheHit, warning: false },
                Event::Absent => Transition { stage: Stage::Downloading, warning: false },
                _ => failed,
            },
            Stage::CacheHit => match event {
                Event::Done => Transition { stage: Stage::Delegating, warning: false },
                _ => failed,
            },
            Stage::Downloading => match event {
                Event::Done => Transition { stage: Stage::Downloaded, warning: false },
                _ => failed,
            },
            Stage::Downloaded => match event {
                Event::Done => Transition { stage: Stage::Unpacking, warning: false },
                _ => failed,
            },
            Stage::Unpacking => match event {
                Event::Done => Transition { stage: Stage::Unpacked, warning: false },
                _ => failed,
            },
            Stage::Unpacked => match event {
                Event::Done => Transition { stage: Stage::Delegating, warning: false },
                Event::Failed => Transition { stage: Stage::Delegating, warning: true },
                _ => failed,
            },
            Stage::Delegating => match event {
                Event::Done => Transition { stage: Stage::Terminated { failed: false }, warning: false },
                _ => failed,
            },
        }
    }
}

/// The exit code of a launcher whose run ended at `stage`, where the delegate, if it
/// ran, asks for the code `delegate_code`: that code after a run that ended well, the
/// fallback after every failure and wherever no code is known.
pub open spec fn exit_code_at(stage: Stage, delegate_code: Option<i32>) -> i32 {
    match delegate_code {
        Some(code) if stage == (Stage::Terminated { failed: false }) => code,
        _ => FALLBACK_EXIT_CODE,
    }
}

/// The report of a probe: the binary was found in the cache, or it was not.
pub fn probe_event(found: bool) -> (event: Event)
    ensures
        event == (if found {
            Event::Present
        } else {
            Event::Absent
        }),
{
    if found {
        Event::Present
    } else {
        Event::Absent
    }
}

/// The report of a piece of work that either was done or failed.
pub fn work_event(done: &Result<(), Error>) -> (event: Event)
    ensures
        event == (if done is Ok {
            Event::Done
        } else {
            Event::Failed
        }),
{
    match done {
        Ok(_) => Event::Done,
        Err(_) => Event::Failed,
    }
}

/// The code that the launcher exits with once its run has ended at `stage`.
pub fn final_exit_code(stage: Stage, delegate_code: Option<i32>) -> (code: i32)
    ensures
        code == exit_code_at(stage, delegate_code),
        stage != (Stage::Terminated { failed: false }) ==> code == FALLBACK_EXIT_CODE,
{
    match (stage, delegate_code) {
        (Stage::Terminated { failed: false }, Some(code)) => code,
        _ => FALLBACK_EXIT_CODE,
    }
}

/// The launcher is transparent to its delegate. Of a command line `argv`, the delegate
/// gets every word after the first: as many, in the same order, each as it was, and the
/// name of the program never. Of a delegate that wrote the valid UTF-8 bytes `stdout`,
/// the text `printed` whose encoding is `stdout` is the one text that they decode to,
/// so that what the launcher prints is `stdout`, byte for byte. And a run that ended
/// well after a delegate that exited with `code` exits with `code`.
pub proof fn lemma_delegate_passthrough(
    argv: Seq<String>,
    stdout: Seq<u8>,
    printed: Seq<char>,
    code: i32,
)
    ensures
        argv.len() > 0 ==> after_program_name(argv).len() == argv.len() - 1,
        forall|i: int|
            0 <= i < argv.len() - 1 ==> #[trigger] after_program_name(argv)[i] == argv[i + 1],
        valid_utf8(stdout) && encode_utf8(printed) == stdout ==> printed == decode_utf8(stdout),
        exit_code_at(Stage::Terminated { failed: false }, Some(exit_code_of(Some(code)))) == code,
{
    encode_utf8_decode_utf8(printed);
}

/// Whether an action reaches out to the network or writes to the disk.
pub open spec fn acquires(action: Action) -> bool {
    action == Action::Fetch || action == Action::Extract || action == Action::RemoveArchive
}

/// The stage that a run is in after the reports `events`, in their order, from `stage`
/// on.
pub open spec fn stage_after(stage: Stage, events: Seq<Event>) -> Stage
    decreases events.len(),
{
    if events.len() == 0 {
        stage
    } else {
        stage_after(stage.after(events[0]).stage, events.drop_first())
    }
}

/// A run never goes back: every report moves a run that is not over to a later stage,
/// so no piece of work is ever tried again.
pub proof fn lemma_no_retry(stage: Stage, event: Event)
    ensures
        stage is Terminated ==> stage.after(event).stage == stage,
        !(stage is Terminated) ==> stage.after(event).stage.rank() > stage.rank(),
{
}

/// Every stage fails closed: a failure ends the run as failed, whatever the stage, save
/// for the one failure that is only a warning, that of deleting the archive after it was
/// extracted.
pub proof fn lemma_fails_closed(stage: Stage)
    ensures
        !(stage is Terminated) && stage != Stage::Unpacked ==> stage.after(Event::Failed)
            == (Transition { stage: Stage::Terminated { failed: true }, warning: false }),
        stage == Stage::Unpacked ==> stage.after(Event::Failed) == (Transition {
            stage: Stage::Delegating,
            warning: true,
        }),
{
}

/// A cache hit costs nothing: once the probe has found the binary, no stage that the run
/// can still come to asks for a fetch, an extraction or a deletion, whatever is
/// reported.
pub proof fn lemma_cache_hit_acquires_nothing(events: Seq<Event>)
    ensures
        !acquires(stage_after(Stage::Located.after(Event::Present).stage, events).work()),
{
    lemma_past_cache_hit(Stage::CacheHit, events);
}

/// From a cache hit, from the delegation or from the end of a run, only these three can
/// be reached.
proof fn lemma_past_cache_hit(stage: Stage, events: Seq<Event>)
    requires
        stage == Stage::CacheHit || stage == Stage::Delegating || stage is Terminated,
    ensures
        ({
            let end = stage_after(stage, events);
            end == Stage::CacheHit || end == Stage::Delegating || end is Terminated
        }),
    decreases events.len(),
{
    if events.len() > 0 {
        lemma_past_cache_hit(stage.after(events[0]).stage, events.drop_first());
    }
}

/// A cache miss is all or nothing: the delegate runs after a miss only if the archive
/// was fetched and extracted in full. Stated of the four reports that follow a probe
/// without a find: a run that is then about to delegate has seen the fetch and the
/// extraction succeed.
pub proof fn lemma_cache_miss_is_all_or_nothing(
    fetched: Event,
    went_on: Event,
    extracted: Event,
    removed: Event,
)
    ensures
        stage_after(Stage::Downloading, seq![fetched, went_on, extracted, removed])
            == Stage::Delegating ==> fetched == Event::Done && went_on == Event::Done && extracted
            == Event::Done,
{
    let events = seq![fetched, went_on, extracted, removed];
    let s1 = Stage::Downloading.after(fetched).stage;
    let e1 = events.drop_first();
    let s2 = s1.after(went_on).stage;
    let e2 = e1.drop_first();
    let s3 = s2.after(extracted).stage;
    let e3 = e2.drop_first();
    let s4 = s3.after(removed).stage;
    let e4 = e3.drop_first();
    assert(e1[0] == went_on && e2[0] == extracted && e3[0] == removed);
    assert(e4.len() == 0);
    assert(stage_after(s4, e4) == s4);
    assert(stage_after(s3, e3) == s4);
    assert(stage_after(s2, e2) == s4);
    assert(stage_after(s1, e1) == s4);
    assert(stage_after(Stage::Downloading, events) == s4);
}

} // verus!
