//! Media file triage library.
//!
//! Classifies file paths into media categories from binary signatures with an
//! extension fallback, maps probe-tool stream records into typed stream
//! descriptions, orchestrates batches of files in strict and tolerant modes,
//! extracts per-frame packet sizes from the probe tool's line output, and
//! compresses display names to a bounded width.
//!
//! The library itself performs no I/O. The caller gathers, for each path, what
//! only the filesystem and the probe tool can tell (existence, file kind, byte
//! size, the first bytes for sniffing, and the probe outcome for files whose
//! category `detect_media_type` and `is_media_file` mark as media), hands it
//! over as an observation, and the analysis here decides everything else.

pub mod bitrate;
pub mod ff;
pub mod media;
pub mod models;
pub mod strings;

use vstd::prelude::*;

use crate::ff::{extract_streams, spec_extract_streams, ContainerInfo};
use crate::media::{
    derive_filename, filename_or_unknown, is_media_file, spec_detect_media_type, spec_filename_of,
    spec_filename_or_unknown, spec_is_media,
};
use crate::models::{File, FileCandidacy, MediaType, StreamResult, StreamResultError};

verus! {

use vstd::string::StringExecFns;

/// What the filesystem says about one path of a tolerant-mode batch: whether
/// it exists and is a regular file, its byte size (zero when unreadable), and
/// the first bytes (up to 512; fewer or none when the file is short or
/// unreadable) for signature sniffing.
#[derive(Debug, Clone, PartialEq)]
pub struct FileObservation {
    pub path: String,
    pub size: u32,
    pub exists: bool,
    pub is_file: bool,
    pub header: Vec<u8>,
}

/// What the filesystem and the probe tool say about one path of a strict-mode
/// batch. `media_type` is the verdict of `detect_media_type` on the file's
/// first bytes and path; `probe` carries the probe tool's outcome — its
/// container data, or its diagnostic text on failure — and is present exactly
/// when the path is a regular existing file of a media category, since the
/// pipeline probes exactly those.
#[derive(Debug, Clone, PartialEq)]
pub struct ItemObservation {
    pub path: String,
    pub exists: bool,
    pub is_file: bool,
    pub size: u64,
    pub media_type: MediaType,
    pub probe: Option<Result<ContainerInfo, String>>,
}

impl ItemObservation {
    /// Coherence of a gathered observation: probe output is present exactly
    /// when the existence and file-kind checks pass and the category is a
    /// media one.
    pub open spec fn wf(self) -> bool {
        (self.probe is Some) <==> (self.exists && self.is_file && spec_is_media(self.media_type))
    }
}

/// Whether the per-item pipeline probes a path that was observed like this:
/// it exists, is a regular file, and its detected category is a media one.
/// Gathering probe output for exactly these paths makes an `ItemObservation`
/// well formed.
pub fn probe_required(exists: bool, is_file: bool, media_type: &MediaType) -> (r: bool)
    ensures
        r == (exists && is_file && spec_is_media(*media_type)),
{
    exists && is_file && is_media_file(media_type)
}

/// Whether the analysis of the observed item succeeds: every check passes and
/// the probe returned container data.
pub open spec fn spec_item_ok(obs: ItemObservation) -> bool {
    &&& obs.exists
    &&& obs.is_file
    &&& spec_is_media(obs.media_type)
    &&& obs.probe matches Some(Result::Ok(_))
}

/// The successful analysis of an observed item: identity, category, and the
/// probe's container duration and mapped streams.
pub open spec fn spec_item_success(obs: ItemObservation, res: StreamResult) -> bool {
    obs.probe matches Some(Result::Ok(info)) && {
        &&& res.path == obs.path
        &&& res.filename@ == spec_filename_or_unknown(obs.path@)
        &&& res.media_type == obs.media_type
        &&& res.duration == info.duration
        &&& res.size == obs.size
        &&& res.streams.deep_view() == spec_extract_streams(info.streams.deep_view())
    }
}

/// The error an observed item yields, by the first failing check: a missing
/// path, a non-file, a non-media category, or a probe failure carrying the
/// tool's diagnostic. The filename is the path's final component, absent when
/// none can be derived.
pub open spec fn spec_item_error(obs: ItemObservation, e: StreamResultError) -> bool {
    &&& e.filename.deep_view() == spec_filename_of(obs.path@)
    &&& if !obs.exists {
        e.error_type@ == "not_found"@ && e.reason@ == "File does not exist"@
    } else if !obs.is_file {
        e.error_type@ == "not_file"@ && e.reason@ == "Not a file (directory or other)"@
    } else if !spec_is_media(obs.media_type) {
        e.error_type@ == "not_media"@ && e.reason@ == "Not a media file (detected as "@
            + obs.media_type.spec_name() + ")"@
    } else {
        obs.probe matches Some(Result::Err(diag)) && e.error_type@ == "analysis_failed"@
            && e.reason@ == "Could not analyze media file: "@ + diag@
    }
}

/// Analyzes one observed item: in order, the existence check, the file-kind
/// check, the media-category gate, and the probe outcome; the first failure
/// yields its error, and success yields the full `StreamResult` with the
/// mapped streams.
pub fn analyze_item(obs: &ItemObservation) -> (r: Result<StreamResult, StreamResultError>)
    requires
        obs.wf(),
    ensures
        r is Ok <==> spec_item_ok(*obs),
        r matches Ok(res) ==> spec_item_success(*obs, res),
        r matches Err(e) ==> spec_item_error(*obs, e),
{
    if !obs.exists {
        return Err(
            StreamResultError {
                filename: derive_filename(obs.path.as_str()),
                reason: String::from_str("File does not exist"),
                error_type: String::from_str("not_found"),
            },
        );
    }
    if !obs.is_file {
        return Err(
            StreamResultError {
                filename: derive_filename(obs.path.as_str()),
                reason: String::from_str("Not a file (directory or other)"),
                error_type: String::from_str("not_file"),
            },
        );
    }
    if !is_media_file(&obs.media_type) {
        let reason = String::from_str("Not a media file (detected as ").concat(
            obs.media_type.name().as_str(),
        ).concat(")");
        return Err(
            StreamResultError {
                filename: derive_filename(obs.path.as_str()),
                reason,
                error_type: String::from_str("not_media"),
            },
        );
    }
    match &obs.probe {
        Some(Result::Ok(info)) => {
            let duration = match &info.duration {
                Some(d) => Some(d.clone()),
                None => None,
            };
            Ok(
                StreamResult {
                    path: obs.path.clone(),
                    filename: filename_or_unknown(obs.path.as_str()),
                    media_type: obs.media_type,
                    duration,
                    size: obs.size,
                    streams: extract_streams(&info.streams),
                },
            )
        },
        Some(Result::Err(diag)) => Err(
            StreamResultError {
                filename: derive_filename(obs.path.as_str()),
                reason: String::from_str("Could not analyze media file: ").concat(diag.as_str()),
                error_type: String::from_str("analysis_failed"),
            },
        ),
        None => {
            proof {
                assert(false);
            }
            Err(
                StreamResultError { filename: None, reason: String::new(), error_type: String::new() },
            )
        },
    }
}

/// Strict batch analysis: items are processed in input order and the first
/// failing item aborts the batch with its error alone; when every item
/// succeeds, one `StreamResult` per input is returned, in input order.
pub fn has_streams(items: &Vec<ItemObservation>) -> (r: Result<
    Vec<StreamResult>,
    StreamResultError,
>)
    requires
        forall|i: int| 0 <= i < items@.len() ==> (#[trigger] items@[i]).wf(),
    ensures
        r matches Ok(results) ==> results@.len() == items@.len() && forall|i: int|
            0 <= i < items@.len() ==> spec_item_ok(#[trigger] items@[i]) && spec_item_success(
                items@[i],
                results@[i],
            ),
        r matches Err(e) ==> exists|k: int|
            0 <= k < items@.len() && !spec_item_ok(#[trigger] items@[k]) && spec_item_error(
                items@[k],
                e,
            ) && (forall|j: int| 0 <= j < k ==> spec_item_ok(#[trigger] items@[j])),
{
    let mut results: Vec<StreamResult> = Vec::new();
    let mut i: usize = 0;
    while i < items.len()
        invariant
            i <= items@.len(),
            results@.len() == i,
            forall|j: int| 0 <= j < items@.len() ==> (#[trigger] items@[j]).wf(),
            forall|j: int|
                0 <= j < i ==> spec_item_ok(#[trigger] items@[j]) && spec_item_success(
                    items@[j],
                    results@[j],
                ),
        decreases items@.len() - i,
    {
        match analyze_item(&items[i]) {
            Ok(res) => results.push(res),
            Err(e) => {
                proof {
                    assert(!spec_item_ok(items@[i as int]) && spec_item_error(items@[i as int], e));
                }
                return Err(e);
            },
        }
        i += 1;
    }
    Ok(results)
}

/// The tolerant-mode record of one observed path: the derived filename (or
/// the literal `unknown`), the advisory size, and a candidacy that is
/// `Success` with the detected category for existing regular files of a media
/// category, and otherwise an `Error` naming the first failing check.
pub open spec fn spec_assessment(obs: FileObservation, f: File) -> bool {
    &&& f.filename@ == spec_filename_or_unknown(obs.path@)
    &&& f.size == obs.size
    &&& if !obs.exists {
        f.candidacy matches FileCandidacy::Error { reason } && reason@ == "File does not exist"@
    } else if !obs.is_file {
        f.candidacy matches FileCandidacy::Error { reason } && reason@
            == "Not a file (directory or other)"@
    } else {
        let t = spec_detect_media_type(obs.header@, obs.path@);
        if spec_is_media(t) {
            f.candidacy matches FileCandidacy::Success { file_type } && file_type == t
        } else {
            f.candidacy matches FileCandidacy::Error { reason } && reason@
                == "Not a media file (detected as "@ + t.spec_name() + ")"@
        }
    }
}

/// Assesses one observed path for the tolerant batch mode: existence check,
/// file-kind check, then classification; media files succeed with their
/// category and everything else carries an error reason.
pub fn assess_file(obs: &FileObservation) -> (f: File)
    ensures
        spec_assessment(*obs, f),
{
    let filename = filename_or_unknown(obs.path.as_str());
    if !obs.exists {
        return File {
            filename,
            size: obs.size,
            candidacy: FileCandidacy::Error { reason: String::from_str("File does not exist") },
        };
    }
    if !obs.is_file {
        return File {
            filename,
            size: obs.size,
            candidacy: FileCandidacy::Error {
                reason: String::from_str("Not a file (directory or other)"),
            },
        };
    }
    let media_type = crate::media::detect_media_type(obs.header.as_slice(), obs.path.as_str());
    if is_media_file(&media_type) {
        File {
            filename,
            size: obs.size,
            candidacy: FileCandidacy::Success { file_type: media_type },
        }
    } else {
        let reason = String::from_str("Not a media file (detected as ").concat(
            media_type.name().as_str(),
        ).concat(")");
        File { filename, size: obs.size, candidacy: FileCandidacy::Error { reason } }
    }
}

/// Tolerant batch analysis: every observed path yields exactly one `File`
/// record, in input order, one per input, regardless of how many fail.
pub fn analyze_files(items: &Vec<FileObservation>) -> (r: Vec<File>)
    ensures
        r@.len() == items@.len(),
        forall|i: int| 0 <= i < items@.len() ==> spec_assessment(#[trigger] items@[i], r@[i]),
{
    let mut out: Vec<File> = Vec::new();
    let mut i: usize = 0;
    while i < items.len()
        invariant
            i <= items@.len(),
            out@.len() == i,
            forall|j: int| 0 <= j < i ==> spec_assessment(#[trigger] items@[j], out@[j]),
        decreases items@.len() - i,
    {
        let f = assess_file(&items[i]);
        out.push(f);
        i += 1;
    }
    out
}

} // verus!
