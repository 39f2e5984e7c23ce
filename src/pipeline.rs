use vstd::prelude::*;

use crate::codec::{
    codec_route, converts, create_cs_parameters, encode_in_memory, parameters_of, route_spec,
    CodecRoute, CompressionParameters,
};
use crate::errors::{AlicErrorType, CompressError, CompressErrorType, CompressResult};
use crate::format::{probe_bytes, probe_spec, ImageType, Probe};
use crate::paths::{get_out_path, get_temp_path, out_path_spec, str_eq, temp_path_of};
use crate::resize::{resize, resize_spec};
use crate::settings::ProfileData;

verus! {

/// A point in time as seconds and nanoseconds since the Unix epoch.
#[derive(Debug, Clone, Copy, PartialEq, Eq, Structural)]
pub struct FileTime {
    pub secs: u64,
    pub nanos: u32,
}

/// A source file as read at the start of a run: its bytes, detected format,
/// pixel size, size on disk and timestamps.
#[derive(Debug)]
pub struct ImageData {
    pub width: u32,
    pub height: u32,
    pub data: Vec<u8>,
    pub image_type: ImageType,
    pub size: u64,
    pub modified: FileTime,
    pub created: FileTime,
}

impl ImageData {
    pub fn new(
        width: u32,
        height: u32,
        data: Vec<u8>,
        image_type: ImageType,
        size: u64,
        modified: FileTime,
        created: FileTime,
    ) -> (r: Self)
        ensures
            r.width == width,
            r.height == height,
            r.data@ == data@,
            r.image_type == image_type,
            r.size == size,
            r.modified == modified,
            r.created == created,
    {
        ImageData { width, height, data, image_type, size, modified, created }
    }
}

/// Builds the record of a source file from its bytes and metadata: the format
/// comes from the content's signature, and the bytes must decode.
pub fn read_image_info(data: Vec<u8>, size: u64, modified: FileTime, created: FileTime) -> (r:
    Result<ImageData, CompressError>)
    ensures
        r is Err <==> probe_spec(data@) is None,
        r matches Err(e) ==> e.error_type == CompressErrorType::UnsupportedFileType,
        r matches Ok(d) ==> probe_spec(data@) == Some(
            Probe { image_type: d.image_type, width: d.width, height: d.height },
        ) && d.data@ == data@ && d.size == size && d.modified == modified && d.created
            == created,
{
    match probe_bytes(data.as_slice()) {
        Some(p) => Ok(ImageData::new(p.width, p.height, data, p.image_type, size, modified, created)),
        None => Err(
            CompressError {
                error: String::from_str("Unsupported or corrupt image"),
                error_type: CompressErrorType::UnsupportedFileType,
            },
        ),
    }
}

/// What a run will do, decided before any encoding work.
#[derive(Debug, Clone)]
pub struct CompressionPlan {
    pub out_path: String,
    pub params: CompressionParameters,
    pub route: CodecRoute,
    pub converted: bool,
}

/// Whether a run is refused because it would overwrite its source.
pub open spec fn wont_overwrite(p: ProfileData, path: Seq<char>, t: ImageType) -> bool {
    out_path_spec(p, path, t) == path && !p.should_overwrite
}

/// Decides the output path, the codec parameters and the route of a run;
/// refuses with `WontOverwrite`, before any work, a run that would replace
/// its source where the profile does not allow it.
pub fn plan_compression(parameters: &ProfileData, path: &str, image_type: ImageType) -> (r: Result<
    CompressionPlan,
    CompressError,
>)
    ensures
        r is Err <==> wont_overwrite(*parameters, path@, image_type),
        r matches Err(e) ==> e.error_type == CompressErrorType::WontOverwrite,
        r matches Ok(plan) ==> {
            &&& plan.out_path@ == out_path_spec(*parameters, path@, image_type)
            &&& plan.params == parameters_of(*parameters)
            &&& plan.route == route_spec(*parameters, image_type)
            &&& plan.converted == converts(*parameters, image_type)
        },
{
    let out_path = get_out_path(parameters, path, &image_type);
    if str_eq(path, out_path.as_str()) && !parameters.should_overwrite {
        return Err(
            CompressError {
                error: String::from_str(
                    "Image would be overwritten. Enable \"Allow Overwrite\" in settings to allow this.",
                ),
                error_type: CompressErrorType::WontOverwrite,
            },
        );
    }
    let params = create_cs_parameters(parameters);
    let route = codec_route(parameters, image_type);
    let converted = parameters.should_convert && parameters.convert_extension != image_type;
    Ok(CompressionPlan { out_path, params, route, converted })
}

/// The error kind of a run that a resize-stage error kind stands for.
pub open spec fn run_error_of(k: AlicErrorType) -> CompressErrorType {
    match k {
        AlicErrorType::InvalidHexColor => CompressErrorType::InvalidHexColor,
        AlicErrorType::FileTooLarge => CompressErrorType::FileTooLarge,
        AlicErrorType::FileNotFound => CompressErrorType::FileNotFound,
        AlicErrorType::UnsupportedFileType => CompressErrorType::UnsupportedFileType,
        AlicErrorType::WontOverwrite => CompressErrorType::WontOverwrite,
        AlicErrorType::NotSmaller => CompressErrorType::NotSmaller,
        AlicErrorType::ImageResizeError => CompressErrorType::ImageResizeError,
        AlicErrorType::Unknown => CompressErrorType::Unknown,
    }
}

fn run_error_kind(k: AlicErrorType) -> (r: CompressErrorType)
    ensures
        r == run_error_of(k),
{
    match k {
        AlicErrorType::InvalidHexColor => CompressErrorType::InvalidHexColor,
        AlicErrorType::FileTooLarge => CompressErrorType::FileTooLarge,
        AlicErrorType::FileNotFound => CompressErrorType::FileNotFound,
        AlicErrorType::UnsupportedFileType => CompressErrorType::UnsupportedFileType,
        AlicErrorType::WontOverwrite => CompressErrorType::WontOverwrite,
        AlicErrorType::NotSmaller => CompressErrorType::NotSmaller,
        AlicErrorType::ImageResizeError => CompressErrorType::ImageResizeError,
        AlicErrorType::Unknown => CompressErrorType::Unknown,
    }
}

/// What the resize stage gives: the bytes as they are where the profile
/// does not resize, else what the resize engine gives for the profile's box
/// and fill.
pub open spec fn resize_stage_spec(p: ProfileData, data: Seq<u8>, t: ImageType) -> Result<
    Seq<u8>,
    AlicErrorType,
> {
    if !p.should_resize {
        Ok(data)
    } else {
        resize_spec(
            data,
            p.resize_width,
            p.resize_height,
            p.should_background_fill,
            p.background_fill@,
            t == ImageType::GIF,
        )
    }
}

/// Whether a run's result matches a stage outcome, error kinds carried over.
pub open spec fn stage_matches(r: Result<Vec<u8>, CompressError>, o: Result<Seq<u8>, AlicErrorType>) -> bool {
    match (r, o) {
        (Ok(v), Ok(x)) => v@ == x,
        (Err(e), Err(k)) => e.error_type == run_error_of(k),
        _ => false,
    }
}

/// Runs the resize stage where the profile asks for it: the picture is fitted
/// into the profile's box, with the profile's background fill.
pub fn apply_resize(parameters: &ProfileData, data: Vec<u8>, image_type: ImageType) -> (r: Result<
    Vec<u8>,
    CompressError,
>)
    ensures
        stage_matches(r, resize_stage_spec(*parameters, data@, image_type)),
{
    if !parameters.should_resize {
        return Ok(data);
    }
    let res = resize(
        data,
        parameters.resize_width,
        parameters.resize_height,
        parameters.should_background_fill,
        parameters.background_fill.as_str(),
        image_type == ImageType::GIF,
    );
    match res {
        Ok(v) => Ok(v),
        Err(e) => Err(CompressError { error: e.error, error_type: run_error_kind(e.error_type) }),
    }
}

/// Whether a result falls short of the savings threshold: a run that does
/// not change the format must come to at most 95% of the original size.
pub open spec fn not_smaller(converted: bool, original_size: nat, compressed_size: nat) -> bool {
    !converted && compressed_size * 100 > original_size * 95
}

/// Refuses with `NotSmaller` a result that saves too little.
pub fn check_savings(converted: bool, original_size: u64, compressed_size: u64) -> (r: Result<
    (),
    CompressError,
>)
    ensures
        r is Err <==> not_smaller(converted, original_size as nat, compressed_size as nat),
        r matches Err(e) ==> e.error_type == CompressErrorType::NotSmaller,
{
    if !converted && (compressed_size as u128) * 100 > (original_size as u128) * 95 {
        Err(
            CompressError {
                error: String::from_str("Image cannot be compressed further."),
                error_type: CompressErrorType::NotSmaller,
            },
        )
    } else {
        Ok(())
    }
}

/// A result at 96% of the original size is refused where the format stays,
/// and accepted where the run converts it.
pub proof fn lemma_savings_threshold(original_size: nat, compressed_size: nat)
    requires
        original_size > 0,
        compressed_size * 100 == original_size * 96,
    ensures
        not_smaller(false, original_size, compressed_size),
        !not_smaller(true, original_size, compressed_size),
{
}

/// A byte count as the result reports it, at most `u32::MAX`.
pub fn reported_size(n: usize) -> (r: u32)
    ensures
        r == (if n > u32::MAX { u32::MAX as int } else { n as int }),
{
    if n > u32::MAX as usize {
        u32::MAX
    } else {
        n as u32
    }
}

/// Where the commit of a run stands.
#[derive(Debug, Clone, Copy, PartialEq, Eq, Structural)]
pub enum CommitPhase {
    Begin,
    AwaitTrash,
    AwaitWrite,
    AwaitRename,
    AwaitTimes,
    Finished,
}

/// What the caller reports back after carrying out a step.
#[derive(Debug, Clone)]
pub enum CommitEvent {
    Start,
    Trashed,
    TrashFailed(String),
    Written,
    WriteFailed(String),
    Renamed,
    RenameFailed(String),
    TimesSet,
    TimesFailed(String),
}

/// What the caller is asked to do next.
#[derive(Debug, Clone)]
pub enum CommitStep {
    /// Move this file to the platform trash.
    Trash(String),
    /// Remove any file at this staging path, then write the compressed bytes
    /// there; where writing fails, remove what was written.
    Write(String),
    /// Move the staged file over the output path in one step, replacing any
    /// file there; where that fails, remove the staged file.
    Rename(String, String),
    /// Set this file's modified and created times.
    SetTimes(String, FileTime, FileTime),
    /// The run succeeded.
    Done(CompressResult),
    /// The run failed.
    Fail(CompressError),
}

/// The kind of a step, without its payload.
#[derive(Debug, Clone, Copy, PartialEq, Eq, Structural)]
pub enum StepKind {
    Trash,
    Write,
    Rename,
    SetTimes,
    Done,
    Fail,
}

pub open spec fn step_kind(s: CommitStep) -> StepKind {
    match s {
        CommitStep::Trash(_) => StepKind::Trash,
        CommitStep::Write(_) => StepKind::Write,
        CommitStep::Rename(..) => StepKind::Rename,
        CommitStep::SetTimes(..) => StepKind::SetTimes,
        CommitStep::Done(_) => StepKind::Done,
        CommitStep::Fail(_) => StepKind::Fail,
    }
}

/// The commit rules: the next phase and the kind of the next step, given the
/// phase, whether the output replaces the source, whether timestamps are
/// kept, and the event.
pub open spec fn transition(phase: CommitPhase, same_path: bool, keep_times: bool, ev: CommitEvent) -> (
    CommitPhase,
    StepKind,
) {
    match (phase, ev) {
        (CommitPhase::Begin, CommitEvent::Start) => if same_path {
            (CommitPhase::AwaitTrash, StepKind::Trash)
        } else {
            (CommitPhase::AwaitWrite, StepKind::Write)
        },
        (CommitPhase::AwaitTrash, CommitEvent::Trashed) => (CommitPhase::AwaitWrite, StepKind::Write),
        (CommitPhase::AwaitWrite, CommitEvent::Written) => (CommitPhase::AwaitRename, StepKind::Rename),
        (CommitPhase::AwaitRename, CommitEvent::Renamed) => if keep_times {
            (CommitPhase::AwaitTimes, StepKind::SetTimes)
        } else {
            (CommitPhase::Finished, StepKind::Done)
        },
        (CommitPhase::AwaitTimes, CommitEvent::TimesSet) => (CommitPhase::Finished, StepKind::Done),
        _ => (CommitPhase::Finished, StepKind::Fail),
    }
}

/// The output path is touched only by the rename of a fully written staging
/// file: a rename follows only a completed write, and a failed write or
/// rename ends the commit with a failure, after which nothing more is
/// written or renamed.
pub proof fn lemma_output_written_whole(same: bool, keep_times: bool, msg: String)
    ensures
        forall|ph: CommitPhase, ev: CommitEvent|
            #![auto]
            transition(ph, same, keep_times, ev).1 == StepKind::Rename ==> ph == CommitPhase::AwaitWrite
                && ev is Written,
        transition(CommitPhase::AwaitWrite, same, keep_times, CommitEvent::WriteFailed(msg)) == (
            CommitPhase::Finished,
            StepKind::Fail,
        ),
        transition(CommitPhase::AwaitRename, same, keep_times, CommitEvent::RenameFailed(msg)) == (
            CommitPhase::Finished,
            StepKind::Fail,
        ),
        forall|ev: CommitEvent|
            #![auto]
            transition(CommitPhase::Finished, same, keep_times, ev).1 != StepKind::Rename,
{
}

/// Where the output replaces the source, the first step trashes the source;
/// the only event after which a write follows the trash step is a successful
/// trash; a failed trash ends the commit with a failure; and a finished commit
/// never asks for a write.
pub proof fn lemma_trash_before_write(keep_times: bool, msg: String)
    ensures
        transition(CommitPhase::Begin, true, keep_times, CommitEvent::Start) == (
            CommitPhase::AwaitTrash,
            StepKind::Trash,
        ),
        transition(CommitPhase::AwaitTrash, true, keep_times, CommitEvent::TrashFailed(msg)) == (
            CommitPhase::Finished,
            StepKind::Fail,
        ),
        forall|ev: CommitEvent|
            #![auto]
            transition(CommitPhase::AwaitTrash, true, keep_times, ev).1 == StepKind::Write
                ==> ev is Trashed,
        forall|same: bool, ev: CommitEvent|
            #![auto]
            transition(CommitPhase::Finished, same, keep_times, ev).1 != StepKind::Write,
{
}

/// The commit of a compressed result: trash the source where the output
/// replaces it, write the output to a staging file beside it and rename that
/// over the output, restore timestamps where asked.
#[derive(Debug)]
pub struct Commit {
    pub source_path: String,
    pub out_path: String,
    pub out_size: u32,
    pub keep_timestamps: bool,
    pub modified: FileTime,
    pub created: FileTime,
    pub phase: CommitPhase,
}

/// Whether the output path is the source path.
pub open spec fn same_path(c: Commit) -> bool {
    c.out_path@ == c.source_path@
}

fn commit_failure(msg: String) -> (r: CommitStep)
    ensures
        r matches CommitStep::Fail(e) && e.error_type == CompressErrorType::Unknown && e.error@
            == msg@,
{
    CommitStep::Fail(CompressError { error: msg, error_type: CompressErrorType::Unknown })
}

/// The message an event reports for a failed step, if it reports one.
pub open spec fn failure_text(ev: CommitEvent) -> Option<Seq<char>> {
    match ev {
        CommitEvent::TrashFailed(m) => Some(m@),
        CommitEvent::WriteFailed(m) => Some(m@),
        CommitEvent::RenameFailed(m) => Some(m@),
        CommitEvent::TimesFailed(m) => Some(m@),
        _ => None,
    }
}

/// Whether a step is a failure carrying the given message.
pub open spec fn fails_with_text(r: CommitStep, m: Seq<char>) -> bool {
    match r {
        CommitStep::Fail(e) => e.error@ == m,
        _ => false,
    }
}

impl Commit {
    /// Advances the commit by one event and says what to do next.
    pub fn next(&mut self, ev: CommitEvent) -> (r: CommitStep)
        ensures
            (final(self).phase, step_kind(r)) == transition(
                old(self).phase,
                same_path(*old(self)),
                old(self).keep_timestamps,
                ev,
            ),
            final(self).source_path@ == old(self).source_path@,
            final(self).out_path@ == old(self).out_path@,
            final(self).out_size == old(self).out_size,
            final(self).keep_timestamps == old(self).keep_timestamps,
            final(self).modified == old(self).modified,
            final(self).created == old(self).created,
            r matches CommitStep::Trash(p) ==> p@ == old(self).source_path@,
            r matches CommitStep::Write(p) ==> p@ == temp_path_of(old(self).out_path@),
            r matches CommitStep::Rename(a, b) ==> a@ == temp_path_of(old(self).out_path@) && b@
                == old(self).out_path@,
            r matches CommitStep::SetTimes(p, m, c) ==> p@ == old(self).out_path@
                && m == old(self).modified && c == old(self).created,
            r matches CommitStep::Done(res) ==> res.path@ == old(self).source_path@
                && res.out_path@ == old(self).out_path@ && res.out_size == old(self).out_size
                && res.result@ == "Success"@,
            r matches CommitStep::Fail(e) ==> e.error_type == CompressErrorType::Unknown,
            failure_text(ev) matches Some(m) ==> fails_with_text(r, m),
    {
        let phase = self.phase;
        match (phase, ev) {
            (CommitPhase::Begin, CommitEvent::Start) => {
                if str_eq(self.out_path.as_str(), self.source_path.as_str()) {
                    self.phase = CommitPhase::AwaitTrash;
                    CommitStep::Trash(self.source_path.clone())
                } else {
                    self.phase = CommitPhase::AwaitWrite;
                    CommitStep::Write(get_temp_path(self.out_path.as_str()))
                }
            },
            (CommitPhase::AwaitTrash, CommitEvent::Trashed) => {
                self.phase = CommitPhase::AwaitWrite;
                CommitStep::Write(get_temp_path(self.out_path.as_str()))
            },
            (CommitPhase::AwaitWrite, CommitEvent::Written) => {
                self.phase = CommitPhase::AwaitRename;
                CommitStep::Rename(get_temp_path(self.out_path.as_str()), self.out_path.clone())
            },
            (CommitPhase::AwaitRename, CommitEvent::Renamed) => {
                if self.keep_timestamps {
                    self.phase = CommitPhase::AwaitTimes;
                    CommitStep::SetTimes(self.out_path.clone(), self.modified, self.created)
                } else {
                    self.phase = CommitPhase::Finished;
                    CommitStep::Done(self.result())
                }
            },
            (CommitPhase::AwaitTimes, CommitEvent::TimesSet) => {
                self.phase = CommitPhase::Finished;
                CommitStep::Done(self.result())
            },
            (_, CommitEvent::TrashFailed(m)) => {
                self.phase = CommitPhase::Finished;
                commit_failure(m)
            },
            (_, CommitEvent::WriteFailed(m)) => {
                self.phase = CommitPhase::Finished;
                commit_failure(m)
            },
            (_, CommitEvent::RenameFailed(m)) => {
                self.phase = CommitPhase::Finished;
                commit_failure(m)
            },
            (_, CommitEvent::TimesFailed(m)) => {
                self.phase = CommitPhase::Finished;
                commit_failure(m)
            },
            _ => {
                self.phase = CommitPhase::Finished;
                commit_failure(String::from_str("Unexpected step in commit"))
            },
        }
    }

    fn result(&self) -> (r: CompressResult)
        ensures
            r.path@ == self.source_path@,
            r.out_path@ == self.out_path@,
            r.out_size == self.out_size,
            r.result@ == "Success"@,
    {
        CompressResult {
            path: self.source_path.clone(),
            out_size: self.out_size,
            out_path: self.out_path.clone(),
            result: String::from_str("Success"),
        }
    }
}

/// Whether a commit is the start of the commit of a run's output.
pub open spec fn commit_of(
    c: Commit,
    p: ProfileData,
    path: Seq<char>,
    image_type: ImageType,
    modified: FileTime,
    created: FileTime,
    len: nat,
) -> bool {
    &&& c.phase == CommitPhase::Begin
    &&& c.source_path@ == path
    &&& c.out_path@ == out_path_spec(p, path, image_type)
    &&& c.keep_timestamps == p.keep_timestamps
    &&& c.modified == modified
    &&& c.created == created
    &&& c.out_size == (if len > u32::MAX { u32::MAX as int } else { len as int })
}

/// Checks the savings of a compressed result and, where they suffice, sets
/// up its commit.
pub fn finish_run(
    parameters: &ProfileData,
    plan: &CompressionPlan,
    path: &str,
    image_type: ImageType,
    original_size: u64,
    modified: FileTime,
    created: FileTime,
    compressed: Vec<u8>,
) -> (r: Result<(Commit, Vec<u8>), CompressError>)
    requires
        plan.out_path@ == out_path_spec(*parameters, path@, image_type),
    ensures
        r is Err <==> not_smaller(plan.converted, original_size as nat, compressed@.len()),
        r matches Err(e) ==> e.error_type == CompressErrorType::NotSmaller,
        r matches Ok(cb) ==> cb.1@ == compressed@ && commit_of(
            cb.0,
            *parameters,
            path@,
            image_type,
            modified,
            created,
            compressed@.len(),
        ),
{
    match check_savings(plan.converted, original_size, compressed.len() as u64) {
        Err(e) => return Err(e),
        Ok(()) => {},
    }
    let commit = Commit {
        source_path: String::from_str(path),
        out_path: plan.out_path.clone(),
        out_size: reported_size(compressed.len()),
        keep_timestamps: parameters.keep_timestamps,
        modified,
        created,
        phase: CommitPhase::Begin,
    };
    Ok((commit, compressed))
}

/// Where a run stands once its encoding work in memory is done.
pub enum RunOutcome {
    /// The output is encoded and its savings checked: commit it.
    Commit(Commit, Vec<u8>),
    /// The shared engine compresses this format from files only: the caller
    /// stages these bytes, runs the engine's file route with the plan's
    /// parameters, and hands the result to `finish_run`.
    CompressFile(CompressionPlan, Vec<u8>),
}

/// Whether an error kind can end a run before its commit.
pub open spec fn early_error(k: CompressErrorType) -> bool {
    k == CompressErrorType::WontOverwrite || k == CompressErrorType::ImageResizeError
        || k == CompressErrorType::InvalidHexColor || k == CompressErrorType::Unknown
        || k == CompressErrorType::NotSmaller
}

/// Whether a run's result follows from its stages once the overwrite guard
/// passed: a resize-stage error ends it with that kind; the file route hands
/// back the resized bytes; on an in-memory route, whatever the codec returned,
/// the run fails as `Unknown` (the codec failed) or `NotSmaller` (only where
/// the format stays), or ends in a commit of bytes whose savings suffice.
pub open spec fn run_follows_stages(
    r: Result<RunOutcome, CompressError>,
    p: ProfileData,
    t: ImageType,
    size: u64,
    stage: Result<Seq<u8>, AlicErrorType>,
) -> bool {
    match stage {
        Err(k) => r matches Err(e) && e.error_type == run_error_of(k),
        Ok(d) => if route_spec(p, t) == CodecRoute::CompressFile {
            r matches Ok(RunOutcome::CompressFile(_, dd)) && dd@ == d
        } else {
            match r {
                Err(e) => e.error_type == CompressErrorType::Unknown || (e.error_type
                    == CompressErrorType::NotSmaller && !converts(p, t)),
                Ok(RunOutcome::Commit(_, b)) => !not_smaller(converts(p, t), size as nat, b@.len()),
                Ok(RunOutcome::CompressFile(..)) => false,
            }
        },
    }
}

/// Runs a source file through the pipeline up to its commit: output path and
/// overwrite guard, resize stage, encoding along the chosen route, savings
/// check. An overwrite the profile does not allow fails before any work.
pub fn process_image_data(
    parameters: &ProfileData,
    path: &str,
    image: ImageData,
    total_threads: u32,
    concurrent: u32,
) -> (r: Result<RunOutcome, CompressError>)
    ensures
        wont_overwrite(*parameters, path@, image.image_type) ==> (r matches Err(e) && e.error_type
            == CompressErrorType::WontOverwrite),
        r matches Err(e) ==> early_error(e.error_type),
        r matches Err(e) && e.error_type == CompressErrorType::WontOverwrite ==> wont_overwrite(
            *parameters,
            path@,
            image.image_type,
        ),
        r matches Ok(RunOutcome::Commit(c, bytes)) ==> commit_of(
            c,
            *parameters,
            path@,
            image.image_type,
            image.modified,
            image.created,
            bytes@.len(),
        ) && !not_smaller(
            converts(*parameters, image.image_type),
            image.size as nat,
            bytes@.len(),
        ),
        r matches Ok(RunOutcome::CompressFile(plan, _)) ==> route_spec(*parameters, image.image_type)
            == CodecRoute::CompressFile && plan.out_path@ == out_path_spec(
            *parameters,
            path@,
            image.image_type,
        ) && plan.params == parameters_of(*parameters),
        !wont_overwrite(*parameters, path@, image.image_type) ==> run_follows_stages(
            r,
            *parameters,
            image.image_type,
            image.size,
            resize_stage_spec(*parameters, image.data@, image.image_type),
        ),
{
    let plan = match plan_compression(parameters, path, image.image_type) {
        Ok(plan) => plan,
        Err(e) => return Err(e),
    };
    let data = match apply_resize(parameters, image.data, image.image_type) {
        Ok(d) => d,
        Err(e) => return Err(e),
    };
    if plan.route == CodecRoute::CompressFile {
        return Ok(RunOutcome::CompressFile(plan, data));
    }
    let compressed = match encode_in_memory(
        data,
        &plan.params,
        plan.route,
        total_threads,
        concurrent,
    ) {
        Ok(v) => v,
        Err(e) => return Err(e),
    };
    match finish_run(
        parameters,
        &plan,
        path,
        image.image_type,
        image.size,
        image.modified,
        image.created,
        compressed,
    ) {
        Ok((c, bytes)) => Ok(RunOutcome::Commit(c, bytes)),
        Err(e) => Err(e),
    }
}

} // verus!
