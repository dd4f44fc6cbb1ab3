//! The render tool: what is asked of the external `melt` program and what is
//! made of its answers.
//!
//! The program itself is run elsewhere. Here are the command lines it is given,
//! the records that report on a run, and the table of running jobs.

use vstd::prelude::*;
use vstd::string::*;
use crate::table::Table;
use crate::text::{decimal, push_decimal, text_of, texts_of};

verus! {

/// Whether the render tool is there, and which one.
#[derive(Debug, Clone, PartialEq, Eq)]
pub struct MeltCheckResult {
    pub available: bool,
    pub version: Option<String>,
    pub path: Option<String>,
    pub error: Option<String>,
}

/// What a render is to produce. Every option may be left out.
#[derive(Debug, Clone, PartialEq, Eq)]
pub struct RenderOptions {
    pub video_codec: Option<String>,
    pub audio_codec: Option<String>,
    pub audio_bitrate: Option<String>,
    pub crf: Option<u32>,
    pub width: Option<u32>,
    pub height: Option<u32>,
    pub frame_rate: Option<u32>,
}

/// How a render ended.
#[derive(Debug, Clone, PartialEq, Eq)]
pub struct RenderResult {
    pub success: bool,
    pub error: Option<String>,
    pub output_path: Option<String>,
}

/// What a run of the tool printed and returned.
#[derive(Debug, Clone, PartialEq, Eq)]
pub struct MeltRawResult {
    pub stdout: String,
    pub stderr: String,
    pub exit_code: i32,
}

/// Whether an edit description is valid.
#[derive(Debug, Clone, PartialEq, Eq)]
pub struct ValidateResult {
    pub valid: bool,
    pub error: Option<String>,
}

/// How an attempt to run the tool ended.
#[derive(Debug, Clone, PartialEq, Eq)]
pub enum MeltRun {
    /// The program could not be started; with the reason.
    NotStarted(String),
    /// The program ran and exited.
    Exited {
        /// Whether it reported success.
        success: bool,
        /// Its exit code, where it has one.
        code: Option<i32>,
        /// What it wrote to its standard output.
        stdout: String,
        /// What it wrote to its standard error.
        stderr: String,
    },
}

impl MeltRun {
    /// True for a run that started and reported success.
    pub open spec fn succeeded(self) -> bool {
        match self {
            MeltRun::NotStarted(_) => false,
            MeltRun::Exited { success, code, stdout, stderr } => success,
        }
    }
}

/// The places where the tool is looked for, in order.
pub open spec fn candidate_paths() -> Seq<Seq<char>> {
    seq!["melt"@, "/usr/bin/melt"@, "/usr/local/bin/melt"@, "/opt/homebrew/bin/melt"@]
}

/// The places where the tool is looked for, in order.
pub fn melt_candidates() -> (paths: Vec<String>)
    ensures
        texts_of(paths@) == candidate_paths(),
{
    let mut paths: Vec<String> = Vec::new();
    paths.push(String::from_str("melt"));
    paths.push(String::from_str("/usr/bin/melt"));
    paths.push(String::from_str("/usr/local/bin/melt"));
    paths.push(String::from_str("/opt/homebrew/bin/melt"));
    paths
}

/// A place where the tool was looked for, and whether it answered there.
#[derive(Debug, Clone, PartialEq, Eq)]
pub struct Candidate {
    pub path: String,
    pub works: bool,
}

/// True when the candidate at index `i` answered and none before it did.
pub open spec fn is_first_working(tried: Seq<Candidate>, i: int) -> bool {
    &&& 0 <= i < tried.len()
    &&& tried[i].works
    &&& forall|j: int| 0 <= j < i ==> !(#[trigger] tried[j]).works
}

/// True when no candidate answered.
pub open spec fn none_works(tried: Seq<Candidate>) -> bool {
    forall|j: int| 0 <= j < tried.len() ==> !(#[trigger] tried[j]).works
}

/// Finds the tool: the first candidate that answered, else the place that the
/// system names for it, unless that name is empty.
///
/// `tried` holds the candidates that were tried, in order; `located` is the
/// place that the system names, where it names one.
pub fn find_melt(tried: &Vec<Candidate>, located: Option<&str>) -> (found: Option<String>)
    ensures
        forall|i: int|
            is_first_working(tried@, i) ==> found is Some && found->Some_0@ == tried@[i].path@,
        none_works(tried@) ==> match located {
            Some(place) => if place@.len() > 0 {
                found is Some && found->Some_0@ == place@
            } else {
                found is None
            },
            None => found is None,
        },
{
    let mut i: usize = 0;
    while i < tried.len()
        invariant
            i <= tried@.len(),
            forall|j: int| 0 <= j < i ==> !(#[trigger] tried@[j]).works,
        decreases tried@.len() - i,
    {
        if tried[i].works {
            assert(forall|k: int| is_first_working(tried@, k) ==> k == i);
            return Some(tried[i].path.clone());
        }
        i = i + 1;
    }
    assert(forall|k: int| !is_first_working(tried@, k));
    match located {
        Some(place) => if !place.is_empty() {
            Some(String::from_str(place))
        } else {
            None
        },
        None => None,
    }
}

/// Reports on the search for the tool: where it was found and which version
/// answered, or how to get it.
pub fn check_melt(found: Option<&str>, version: Option<&str>) -> (result: MeltCheckResult)
    ensures
        match found {
            Some(path) => {
                &&& result.available
                &&& text_of(result.path) == Some(path@)
                &&& text_of(result.version) == match version {
                    Some(v) => Some(v@),
                    None => None,
                }
                &&& result.error is None
            },
            None => {
                &&& !result.available
                &&& result.path is None
                &&& result.version is None
                &&& text_of(result.error) == Some(
                    "melt not found. Install with: sudo apt install melt"@,
                )
            },
        },
{
    match found {
        Some(path) => MeltCheckResult {
            available: true,
            version: match version {
                Some(v) => Some(String::from_str(v)),
                None => None,
            },
            path: Some(String::from_str(path)),
            error: None,
        },
        None => MeltCheckResult {
            available: false,
            version: None,
            path: None,
            error: Some(String::from_str("melt not found. Install with: sudo apt install melt")),
        },
    }
}

/// The name of the file that holds the edit description of a job.
pub fn job_file_name(job_id: &str) -> (name: String)
    ensures
        name@ == job_id@ + ".mlt"@,
{
    let mut name = String::from_str(job_id);
    name.append(".mlt");
    name
}

/// One argument of the form `name=value`, where there is a value.
pub open spec fn text_option(name: Seq<char>, value: Option<String>) -> Seq<Seq<char>> {
    match value {
        Some(v) => seq![name + v@],
        None => Seq::empty(),
    }
}

/// One argument of the form `name=number`, where there is a number.
pub open spec fn number_option(name: Seq<char>, value: Option<u32>) -> Seq<Seq<char>> {
    match value {
        Some(v) => seq![name + decimal(v as nat)],
        None => Seq::empty(),
    }
}

/// The command line of a render: the edit description, the options that are
/// set, the encoder preset, the consumer that writes the output file, and the
/// request to report progress.
pub open spec fn render_arguments_of(
    xml_path: Seq<char>,
    output_path: Seq<char>,
    options: RenderOptions,
) -> Seq<Seq<char>> {
    seq![xml_path] + text_option("vcodec="@, options.video_codec) + text_option(
        "acodec="@,
        options.audio_codec,
    ) + text_option("ab="@, options.audio_bitrate) + number_option("crf="@, options.crf)
        + number_option("width="@, options.width) + number_option("height="@, options.height)
        + number_option("frame_rate_num="@, options.frame_rate) + seq![
        "preset=medium"@,
        "-consumer"@,
        "avformat:"@ + output_path,
        "-progress"@,
    ]
}

/// Appends `name=value` to a command line, where there is a value.
fn push_text_option(arguments: &mut Vec<String>, name: &str, value: &Option<String>)
    ensures
        texts_of(final(arguments)@) == texts_of(old(arguments)@) + text_option(name@, *value),
{
    match value {
        Some(v) => {
            let mut argument = String::from_str(name);
            argument.append(v.as_str());
            arguments.push(argument);
        },
        None => {},
    }
}

/// Appends `name=number` to a command line, where there is a number.
fn push_number_option(arguments: &mut Vec<String>, name: &str, value: Option<u32>)
    ensures
        texts_of(final(arguments)@) == texts_of(old(arguments)@) + number_option(name@, value),
{
    match value {
        Some(v) => {
            let mut argument = String::from_str(name);
            push_decimal(&mut argument, v as u64);
            arguments.push(argument);
        },
        None => {},
    }
}

/// Appends a fixed argument to a command line.
fn push_argument(arguments: &mut Vec<String>, argument: String)
    ensures
        texts_of(final(arguments)@) == texts_of(old(arguments)@) + seq![argument@],
{
    arguments.push(argument);
}

/// Builds the command line of a render, as [`render_arguments_of`] gives.
pub fn render_arguments(xml_path: &str, output_path: &str, options: &RenderOptions) -> (arguments:
    Vec<String>)
    ensures
        texts_of(arguments@) == render_arguments_of(xml_path@, output_path@, *options),
{
    let mut arguments: Vec<String> = Vec::new();
    push_argument(&mut arguments, String::from_str(xml_path));
    push_text_option(&mut arguments, "vcodec=", &options.video_codec);
    push_text_option(&mut arguments, "acodec=", &options.audio_codec);
    push_text_option(&mut arguments, "ab=", &options.audio_bitrate);
    push_number_option(&mut arguments, "crf=", options.crf);
    push_number_option(&mut arguments, "width=", options.width);
    push_number_option(&mut arguments, "height=", options.height);
    push_number_option(&mut arguments, "frame_rate_num=", options.frame_rate);
    push_argument(&mut arguments, String::from_str("preset=medium"));
    push_argument(&mut arguments, String::from_str("-consumer"));
    let mut consumer = String::from_str("avformat:");
    consumer.append(output_path);
    push_argument(&mut arguments, consumer);
    push_argument(&mut arguments, String::from_str("-progress"));
    arguments
}

/// The command line that validates an edit description: the description is
/// read and written back as XML, nothing is rendered.
pub fn validate_arguments(xml_path: &str) -> (arguments: Vec<String>)
    ensures
        texts_of(arguments@) == seq![xml_path@, "-consumer"@, "xml"@],
{
    let mut arguments: Vec<String> = Vec::new();
    arguments.push(String::from_str(xml_path));
    arguments.push(String::from_str("-consumer"));
    arguments.push(String::from_str("xml"));
    arguments
}

/// Reports on a render. A tool that could not be started is an error of the
/// call; a tool that ran gives a record: the output file after success, what
/// the tool complained of after failure.
pub fn run_melt_render(output_path: &str, run: &MeltRun) -> (result: Result<RenderResult, String>)
    ensures
        match *run {
            MeltRun::NotStarted(reason) => result is Err && result->Err_0@ == "Failed to run melt: "@
                + reason@,
            MeltRun::Exited { success, code, stdout, stderr } => {
                &&& result is Ok
                &&& result->Ok_0.success == success
                &&& success ==> result->Ok_0.error is None && text_of(result->Ok_0.output_path)
                    == Some(output_path@)
                &&& !success ==> result->Ok_0.output_path is None && text_of(result->Ok_0.error)
                    == Some("melt exited with error: "@ + stderr@)
            },
        },
{
    match run {
        MeltRun::NotStarted(reason) => {
            let mut message = String::from_str("Failed to run melt: ");
            message.append(reason.as_str());
            Err(message)
        },
        MeltRun::Exited { success, code: _, stdout: _, stderr } => {
            if *success {
                Ok(
                    RenderResult {
                        success: true,
                        error: None,
                        output_path: Some(String::from_str(output_path)),
                    },
                )
            } else {
                let mut message = String::from_str("melt exited with error: ");
                message.append(stderr.as_str());
                Ok(RenderResult { success: false, error: Some(message), output_path: None })
            }
        },
    }
}

/// Reports on a plain run of the tool: what it printed and its exit code,
/// minus one where it has none.
pub fn run_melt_raw(run: &MeltRun) -> (result: Result<MeltRawResult, String>)
    ensures
        match *run {
            MeltRun::NotStarted(reason) => result is Err && result->Err_0@ == "Failed to run melt: "@
                + reason@,
            MeltRun::Exited { success, code, stdout, stderr } => {
                &&& result is Ok
                &&& result->Ok_0.stdout@ == stdout@
                &&& result->Ok_0.stderr@ == stderr@
                &&& result->Ok_0.exit_code == match code {
                    Some(c) => c,
                    None => -1i32,
                }
            },
        },
{
    match run {
        MeltRun::NotStarted(reason) => {
            let mut message = String::from_str("Failed to run melt: ");
            message.append(reason.as_str());
            Err(message)
        },
        MeltRun::Exited { success: _, code, stdout, stderr } => Ok(
            MeltRawResult {
                stdout: stdout.clone(),
                stderr: stderr.clone(),
                exit_code: match code {
                    Some(c) => *c,
                    None => -1,
                },
            },
        ),
    }
}

/// Reports on the validation of an edit description. `run` is how the tool
/// ended, or nothing where there is no tool. The description is valid exactly
/// when the tool ran and reported success.
pub fn validate_mlt_xml(run: Option<&MeltRun>) -> (result: ValidateResult)
    ensures
        result.valid <==> (run is Some && run->Some_0.succeeded()),
        result.valid ==> result.error is None,
        match run {
            None => text_of(result.error) == Some("melt not found"@),
            Some(r) => match *r {
                MeltRun::NotStarted(reason) => text_of(result.error) == Some(
                    "Failed to validate: "@ + reason@,
                ),
                MeltRun::Exited { success, code, stdout, stderr } => !success ==> text_of(
                    result.error,
                ) == Some(stderr@),
            },
        },
{
    match run {
        None => ValidateResult { valid: false, error: Some(String::from_str("melt not found")) },
        Some(MeltRun::NotStarted(reason)) => {
            let mut message = String::from_str("Failed to validate: ");
            message.append(reason.as_str());
            ValidateResult { valid: false, error: Some(message) }
        },
        Some(MeltRun::Exited { success, code: _, stdout: _, stderr }) => {
            if *success {
                ValidateResult { valid: true, error: None }
            } else {
                ValidateResult { valid: false, error: Some(stderr.clone()) }
            }
        },
    }
}

/// The renders that are running, each with the mark that asks it to stop.
pub struct MeltState {
    active_jobs: Table<bool>,
}

impl View for MeltState {
    type V = Map<Seq<char>, bool>;

    closed spec fn view(&self) -> Map<Seq<char>, bool> {
        self.active_jobs@
    }
}

impl MeltState {
    /// A state without jobs.
    pub fn new() -> (state: MeltState)
        ensures
            state@ == Map::<Seq<char>, bool>::empty(),
    {
        MeltState { active_jobs: Table::new() }
    }

    /// Enters a job that starts to run, not asked to stop.
    pub fn begin_job(&mut self, job_id: &str)
        ensures
            final(self)@ == old(self)@.insert(job_id@, false),
    {
        let _ = self.active_jobs.insert(job_id, false);
    }

    /// Takes out a job that has ended.
    pub fn end_job(&mut self, job_id: &str)
        ensures
            final(self)@ == old(self)@.remove(job_id@),
    {
        let _ = self.active_jobs.remove(job_id);
    }

    /// Whether a job is asked to stop; nothing for a job that is not running.
    pub fn is_cancelled(&self, job_id: &str) -> (mark: Option<bool>)
        ensures
            mark == if self@.dom().contains(job_id@) {
                Some(self@[job_id@])
            } else {
                None
            },
    {
        match self.active_jobs.get(job_id) {
            Some(mark) => Some(*mark),
            None => None,
        }
    }
}

/// Asks a running job to stop. Returns whether the job is running; the state
/// of a job that is not running stays as it is.
pub fn cancel_melt_render(job_id: &str, state: &mut MeltState) -> (running: bool)
    ensures
        running == old(state)@.dom().contains(job_id@),
        final(state)@ == if running {
            old(state)@.insert(job_id@, true)
        } else {
            old(state)@
        },
{
    match state.active_jobs.remove(job_id) {
        Some(_) => {
            let _ = state.active_jobs.insert(job_id, true);
            true
        },
        None => false,
    }
}

} // verus!
