//! Data model: media categories, typed stream descriptions, per-file analysis
//! results and errors, batch candidacy states, and per-frame bitrate records.

use vstd::prelude::*;

verus! {

use vstd::string::StringExecFns;

/// Semantic category assigned to a file by the content classifier.
#[derive(Debug, Clone, Copy, PartialEq, Eq, Structural)]
pub enum MediaType {
    Audio,
    Video,
    Image,
    Document,
    Executable,
    Archive,
    Library,
    Unknown,
}

impl MediaType {
    /// The category's name as it appears inside human-readable reasons.
    pub open spec fn spec_name(self) -> Seq<char> {
        match self {
            MediaType::Audio => "Audio"@,
            MediaType::Video => "Video"@,
            MediaType::Image => "Image"@,
            MediaType::Document => "Document"@,
            MediaType::Executable => "Executable"@,
            MediaType::Archive => "Archive"@,
            MediaType::Library => "Library"@,
            MediaType::Unknown => "Unknown"@,
        }
    }

    /// The category's name, for embedding in messages.
    pub fn name(&self) -> (r: String)
        ensures
            r@ == self.spec_name(),
    {
        match self {
            MediaType::Audio => String::from_str("Audio"),
            MediaType::Video => String::from_str("Video"),
            MediaType::Image => String::from_str("Image"),
            MediaType::Document => String::from_str("Document"),
            MediaType::Executable => String::from_str("Executable"),
            MediaType::Archive => String::from_str("Archive"),
            MediaType::Library => String::from_str("Library"),
            MediaType::Unknown => String::from_str("Unknown"),
        }
    }
}

/// Typed, display-ready description of one media stream.
#[derive(Debug, Clone, PartialEq)]
pub enum StreamDetail {
    Video {
        codec: String,
        width: Option<u32>,
        height: Option<u32>,
        bit_rate: Option<String>,
        frame_rate: Option<String>,
    },
    Audio {
        codec: String,
        sample_rate: Option<String>,
        channels: Option<u32>,
        bit_rate: Option<String>,
    },
    Subtitle {
        codec: String,
        language: Option<String>,
    },
}

/// Mathematical model of a `StreamDetail`: the same shape over character
/// sequences.
pub enum StreamDetailV {
    Video {
        codec: Seq<char>,
        width: Option<u32>,
        height: Option<u32>,
        bit_rate: Option<Seq<char>>,
        frame_rate: Option<Seq<char>>,
    },
    Audio {
        codec: Seq<char>,
        sample_rate: Option<Seq<char>>,
        channels: Option<u32>,
        bit_rate: Option<Seq<char>>,
    },
    Subtitle {
        codec: Seq<char>,
        language: Option<Seq<char>>,
    },
}

impl DeepView for StreamDetail {
    type V = StreamDetailV;

    open spec fn deep_view(&self) -> StreamDetailV {
        match self {
            StreamDetail::Video { codec, width, height, bit_rate, frame_rate } => {
                StreamDetailV::Video {
                    codec: codec@,
                    width: *width,
                    height: *height,
                    bit_rate: bit_rate.deep_view(),
                    frame_rate: frame_rate.deep_view(),
                }
            },
            StreamDetail::Audio { codec, sample_rate, channels, bit_rate } => {
                StreamDetailV::Audio {
                    codec: codec@,
                    sample_rate: sample_rate.deep_view(),
                    channels: *channels,
                    bit_rate: bit_rate.deep_view(),
                }
            },
            StreamDetail::Subtitle { codec, language } => {
                StreamDetailV::Subtitle { codec: codec@, language: language.deep_view() }
            },
        }
    }
}

/// Full analysis of one media file: identity, classification, container
/// duration as the probe tool reported it (a decimal string of seconds),
/// byte size, and the mapped stream descriptions.
#[derive(Debug, Clone, PartialEq)]
pub struct StreamResult {
    pub path: String,
    pub filename: String,
    pub media_type: MediaType,
    pub duration: Option<String>,
    pub size: u64,
    pub streams: Vec<StreamDetail>,
}

/// Why the analysis of one file failed. `filename` is absent only when no
/// final path component could be derived; `error_type` is one of
/// `not_found`, `not_file`, `not_media` and `analysis_failed`.
#[derive(Debug, Clone, PartialEq)]
pub struct StreamResultError {
    pub filename: Option<String>,
    pub reason: String,
    pub error_type: String,
}

/// Per-file record of the tolerant batch mode.
#[derive(Debug, Clone, PartialEq)]
pub struct File {
    pub filename: String,
    pub size: u32,
    pub candidacy: FileCandidacy,
}

/// Tri-state candidacy of a dropped file. `Loading` is a placeholder owned
/// by the presentation layer; the analysis itself never produces it.
#[derive(Debug, Clone, PartialEq)]
pub enum FileCandidacy {
    Success { file_type: MediaType },
    Error { reason: String },
    Loading,
}

/// Packet size of one video frame, indexed by its position in the stream.
#[derive(Debug, Clone, Copy, PartialEq, Eq, Structural)]
pub struct BitrateFrame {
    pub frame_num: u32,
    pub packet_size: u64,
}

/// Ordered per-frame packet sizes of one source; the order is the probe
/// tool's emission order and serves as the time axis.
#[derive(Debug, Clone, PartialEq)]
pub struct BitrateData {
    pub id: String,
    pub frames: Vec<BitrateFrame>,
}

} // verus!
