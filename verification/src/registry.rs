//! The handle registry: opaque identifiers for the metadata snapshots of
//! opened videos.
//!
//! A handle is a snapshot taken when the video was opened. It holds no decoder
//! and is never refreshed; closing it only forgets it.

use vstd::prelude::*;
use vstd::string::*;
use crate::error::VideoError;
use crate::probe::{get_video_info, ProbeOutcome, Rational, VideoInfo, VideoInfoView};
use crate::table::Table;

verus! {

/// A snapshot of an opened video.
#[derive(Debug, Clone, PartialEq, Eq)]
pub struct VideoHandle {
    /// Path of the container.
    pub path: String,
    /// Its metadata at the time it was opened.
    pub info: VideoInfo,
    /// Index of the video stream within the container.
    pub stream_index: usize,
    /// The stream's time base: seconds per tick.
    pub time_base: Rational,
}

/// The mathematical content of a [`VideoHandle`].
pub ghost struct VideoHandleView {
    pub path: Seq<char>,
    pub info: VideoInfoView,
    pub stream_index: nat,
    pub time_base: Rational,
}

impl View for VideoHandle {
    type V = VideoHandleView;

    open spec fn view(&self) -> VideoHandleView {
        VideoHandleView {
            path: self.path@,
            info: self.info@,
            stream_index: self.stream_index as nat,
            time_base: self.time_base,
        }
    }
}

/// True for the characters of a number in base sixteen, in lower case.
pub open spec fn is_lower_hex(c: char) -> bool {
    ('0' <= c && c <= '9') || ('a' <= c && c <= 'f')
}

/// True for the text of a random token: thirty-six characters, hyphens after
/// the eighth, twelfth, sixteenth and twentieth digit, digits in base sixteen
/// everywhere else.
pub open spec fn is_token(text: Seq<char>) -> bool {
    &&& text.len() == 36
    &&& forall|i: int|
        0 <= i < 36 ==> if i == 8 || i == 13 || i == 18 || i == 23 {
            #[trigger] text[i] == '-'
        } else {
            is_lower_hex(#[trigger] text[i])
        }
}

/// The identifier that is made of a token.
pub open spec fn handle_id_of(token: Seq<char>) -> Seq<char> {
    "video_"@ + token
}

/// True for an identifier that a registry hands out: the fixed prefix and a
/// random token.
pub open spec fn is_handle_id(id: Seq<char>) -> bool {
    exists|token: Seq<char>| is_token(token) && id == handle_id_of(token)
}

/// A fresh random token: `uuid::Uuid::new_v4()`, written out by its `Display`.
///
/// Which token comes is a matter of chance. Every outcome is the hyphenated
/// lower-case form of a UUID, which [`is_token`] describes. The call panics
/// where the operating system cannot supply random bytes.
#[verifier::external_body]
fn random_token() -> (token: String)
    ensures
        is_token(token@),
{
    uuid::Uuid::new_v4().to_string()
}

/// The open handles of a process, by identifier.
pub struct HandleRegistry {
    handles: Table<VideoHandle>,
}

impl View for HandleRegistry {
    type V = Map<Seq<char>, VideoHandle>;

    closed spec fn view(&self) -> Map<Seq<char>, VideoHandle> {
        self.handles@
    }
}

/// True when `after` is `before` with the handle `id` set to a snapshot with
/// the content `handle`, and nothing else changed.
pub open spec fn registered(
    before: Map<Seq<char>, VideoHandle>,
    after: Map<Seq<char>, VideoHandle>,
    id: Seq<char>,
    handle: VideoHandleView,
) -> bool {
    &&& after.dom() == before.dom().insert(id)
    &&& after[id]@ == handle
    &&& forall|other: Seq<char>|
        other != id && before.dom().contains(other) ==> #[trigger] after[other] == before[other]
}

impl HandleRegistry {
    /// A registry without handles.
    pub fn new() -> (registry: HandleRegistry)
        ensures
            registry@ == Map::<Seq<char>, VideoHandle>::empty(),
    {
        HandleRegistry { handles: Table::new() }
    }

    /// Whether `handle_id` names an open handle.
    pub fn is_open(&self, handle_id: &str) -> (open: bool)
        ensures
            open == self@.dom().contains(handle_id@),
    {
        self.handles.contains_key(handle_id)
    }

    /// The snapshot that `handle_id` names, where it names one.
    pub fn lookup(&self, handle_id: &str) -> (handle: Option<&VideoHandle>)
        ensures
            match handle {
                Some(h) => self@.dom().contains(handle_id@) && self@[handle_id@] == *h,
                None => !self@.dom().contains(handle_id@),
            },
    {
        self.handles.get(handle_id)
    }

    /// Stores a snapshot under the identifier made of `token`, and hands the
    /// identifier back.
    pub fn register(&mut self, token: &str, handle: VideoHandle) -> (handle_id: String)
        ensures
            handle_id@ == handle_id_of(token@),
            final(self)@ == old(self)@.insert(handle_id@, handle),
    {
        let mut handle_id = String::from_str("video_");
        handle_id.append(token);
        let _ = self.handles.insert(handle_id.as_str(), handle);
        handle_id
    }
}

/// What [`open_video`] does for the facts of a container: the snapshot that it
/// stores.
pub open spec fn snapshot_of(path: Seq<char>, outcome: ProbeOutcome) -> VideoHandleView
    recommends
        outcome is Ready,
{
    let facts = outcome->Ready_0;
    VideoHandleView {
        path,
        info: facts.info(),
        stream_index: facts.stream_index as nat,
        time_base: facts.time_base,
    }
}

/// Opens a video: stores a snapshot of its metadata and hands out the
/// identifier of the snapshot.
///
/// `found` is what probing the container at `path` gave, or nothing where
/// there is no file at the path. A missing file and every failure of the
/// probe give their own error and leave the registry as it is. A container
/// that was read is stored under a fresh identifier.
pub fn open_video(registry: &mut HandleRegistry, path: &str, found: Option<&ProbeOutcome>) -> (result:
    Result<String, VideoError>)
    ensures
        result is Ok <==> (found is Some && *found->Some_0 is Ready),
        result is Ok ==> {
            &&& is_handle_id(result->Ok_0@)
            &&& registered(
                old(registry)@,
                final(registry)@,
                result->Ok_0@,
                snapshot_of(path@, *found->Some_0),
            )
        },
        result is Err ==> final(registry)@ == old(registry)@,
        found is None ==> result is Err && result->Err_0.says(
            "FILE_NOT_FOUND"@,
            "Video file not found: "@ + path@,
        ),
        found matches Some(outcome) ==> match *outcome {
            ProbeOutcome::OpenFailed(reason) => result is Err && result->Err_0.says(
                "OPEN_ERROR"@,
                "Failed to open video file '"@ + path@ + "': "@ + reason@,
            ),
            ProbeOutcome::NoVideoStream => result is Err && result->Err_0.says(
                "NO_VIDEO_STREAM"@,
                "No video stream found in file"@,
            ),
            ProbeOutcome::CodecFailed(reason) => result is Err && result->Err_0.says(
                "CODEC_ERROR"@,
                "Failed to get codec context: "@ + reason@,
            ),
            ProbeOutcome::DecoderFailed(reason) => result is Err && result->Err_0.says(
                "DECODER_ERROR"@,
                "Failed to create video decoder: "@ + reason@,
            ),
            ProbeOutcome::Ready(_) => result is Ok,
        },
{
    let outcome = match found {
        Some(outcome) => outcome,
        None => {
            return Err(VideoError::file_not_found(path));
        },
    };
    let info = match get_video_info(path, outcome) {
        Ok(info) => info,
        Err(error) => {
            return Err(error);
        },
    };
    match outcome {
        ProbeOutcome::Ready(facts) => {
            let handle = VideoHandle {
                path: String::from_str(path),
                info,
                stream_index: facts.stream_index,
                time_base: facts.time_base,
            };
            let token = random_token();
            let handle_id = registry.register(token.as_str(), handle);
            Ok(handle_id)
        },
        _ => unreached(),
    }
}

/// Closes a handle: the registry forgets it. Closing an identifier that names
/// no open handle changes nothing and is no error.
pub fn close_video(registry: &mut HandleRegistry, handle_id: &str) -> (result: Result<
    (),
    VideoError,
>)
    ensures
        result is Ok,
        final(registry)@ == old(registry)@.remove(handle_id@),
{
    let _ = registry.handles.remove(handle_id);
    Ok(())
}

/// Closing is idempotent, and closing what was never opened changes nothing:
/// a second removal of an identifier, or the removal of one that is not in the
/// registry, leaves the registry as it is.
pub proof fn closing_twice_changes_nothing(handles: Map<Seq<char>, VideoHandle>, id: Seq<char>)
    ensures
        handles.remove(id).remove(id) == handles.remove(id),
        !handles.dom().contains(id) ==> handles.remove(id) == handles,
{
}

} // verus!
