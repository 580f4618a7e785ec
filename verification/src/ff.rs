//! Stream mapper: turns raw probe-tool stream records into typed
//! `StreamDetail` descriptions, dropping record kinds the data model does not
//! represent.

use vstd::prelude::*;

use crate::models::{StreamDetail, StreamDetailV};
use crate::strings::str_eq;

verus! {

use vstd::string::StringExecFns;

/// One raw stream record from the probe tool, reduced to the fields the
/// mapper reads: the record's type tag and its optional per-type fields.
#[derive(Debug, Clone, PartialEq)]
pub struct ProbeStream {
    pub codec_type: Option<String>,
    pub codec_name: Option<String>,
    pub width: Option<i64>,
    pub height: Option<i64>,
    pub bit_rate: Option<String>,
    pub r_frame_rate: String,
    pub sample_rate: Option<String>,
    pub channels: Option<i64>,
    pub language: Option<String>,
}

/// Mathematical model of a `ProbeStream`.
pub struct ProbeStreamV {
    pub codec_type: Option<Seq<char>>,
    pub codec_name: Option<Seq<char>>,
    pub width: Option<i64>,
    pub height: Option<i64>,
    pub bit_rate: Option<Seq<char>>,
    pub r_frame_rate: Seq<char>,
    pub sample_rate: Option<Seq<char>>,
    pub channels: Option<i64>,
    pub language: Option<Seq<char>>,
}

impl DeepView for ProbeStream {
    type V = ProbeStreamV;

    open spec fn deep_view(&self) -> ProbeStreamV {
        ProbeStreamV {
            codec_type: self.codec_type.deep_view(),
            codec_name: self.codec_name.deep_view(),
            width: self.width,
            height: self.height,
            bit_rate: self.bit_rate.deep_view(),
            r_frame_rate: self.r_frame_rate@,
            sample_rate: self.sample_rate.deep_view(),
            channels: self.channels,
            language: self.language.deep_view(),
        }
    }
}

/// Container-level outcome of one successful probe run: the container's
/// duration as reported (a decimal string of seconds), and its stream
/// records in order.
#[derive(Debug, Clone, PartialEq)]
pub struct ContainerInfo {
    pub duration: Option<String>,
    pub streams: Vec<ProbeStream>,
}

/// A missing codec name coerces to the literal `unknown`: display always
/// needs a codec label.
pub open spec fn spec_codec_or_unknown(c: Option<Seq<char>>) -> Seq<char> {
    match c {
        Some(s) => s,
        None => "unknown"@,
    }
}

fn codec_or_unknown(c: &Option<String>) -> (r: String)
    ensures
        r@ == spec_codec_or_unknown(c.deep_view()),
{
    match c {
        Some(s) => s.clone(),
        None => String::from_str("unknown"),
    }
}

/// Low 32 bits of a container-reported dimension or count, as the unsigned
/// field the data model carries.
pub open spec fn spec_opt_u32(o: Option<i64>) -> Option<u32> {
    match o {
        Some(w) => Some(w as u32),
        None => None,
    }
}

fn opt_u32(o: &Option<i64>) -> (r: Option<u32>)
    ensures
        r == spec_opt_u32(*o),
{
    match o {
        Some(w) => Some(#[verifier::truncate] (*w as u32)),
        None => None,
    }
}

/// The typed description of one record: video, audio and subtitle records
/// map to their variants; records of any other type are dropped.
pub open spec fn spec_stream_detail(s: ProbeStreamV) -> Option<StreamDetailV> {
    match s.codec_type {
        Some(t) => if t == "video"@ {
            Some(
                StreamDetailV::Video {
                    codec: spec_codec_or_unknown(s.codec_name),
                    width: spec_opt_u32(s.width),
                    height: spec_opt_u32(s.height),
                    bit_rate: s.bit_rate,
                    frame_rate: Some(s.r_frame_rate),
                },
            )
        } else if t == "audio"@ {
            Some(
                StreamDetailV::Audio {
                    codec: spec_codec_or_unknown(s.codec_name),
                    sample_rate: s.sample_rate,
                    channels: spec_opt_u32(s.channels),
                    bit_rate: s.bit_rate,
                },
            )
        } else if t == "subtitle"@ {
            Some(StreamDetailV::Subtitle { codec: spec_codec_or_unknown(s.codec_name), language: s.language })
        } else {
            None
        },
        None => None,
    }
}

fn map_stream(s: &ProbeStream) -> (r: Option<StreamDetail>)
    ensures
        r.deep_view() == spec_stream_detail(s.deep_view()),
{
    let t = match &s.codec_type {
        Some(t) => t,
        None => {
            return None;
        },
    };
    if str_eq(t.as_str(), "video") {
        Some(
            StreamDetail::Video {
                codec: codec_or_unknown(&s.codec_name),
                width: opt_u32(&s.width),
                height: opt_u32(&s.height),
                bit_rate: clone_opt_string(&s.bit_rate),
                frame_rate: Some(s.r_frame_rate.clone()),
            },
        )
    } else if str_eq(t.as_str(), "audio") {
        Some(
            StreamDetail::Audio {
                codec: codec_or_unknown(&s.codec_name),
                sample_rate: clone_opt_string(&s.sample_rate),
                channels: opt_u32(&s.channels),
                bit_rate: clone_opt_string(&s.bit_rate),
            },
        )
    } else if str_eq(t.as_str(), "subtitle") {
        Some(
            StreamDetail::Subtitle {
                codec: codec_or_unknown(&s.codec_name),
                language: clone_opt_string(&s.language),
            },
        )
    } else {
        None
    }
}

fn clone_opt_string(o: &Option<String>) -> (r: Option<String>)
    ensures
        r.deep_view() == o.deep_view(),
{
    match o {
        Some(s) => Some(s.clone()),
        None => None,
    }
}

/// The mapped descriptions of a record sequence, in emission order.
pub open spec fn spec_extract_streams(ss: Seq<ProbeStreamV>) -> Seq<StreamDetailV>
    decreases ss.len(),
{
    if ss.len() == 0 {
        Seq::empty()
    } else {
        let rest = spec_extract_streams(ss.drop_last());
        match spec_stream_detail(ss.last()) {
            Some(d) => rest.push(d),
            None => rest,
        }
    }
}

/// Maps every video, audio and subtitle record to its typed description, in
/// input order; records of other types are dropped silently.
pub fn extract_streams(streams: &Vec<ProbeStream>) -> (r: Vec<StreamDetail>)
    ensures
        r.deep_view() == spec_extract_streams(streams.deep_view()),
{
    let mut out: Vec<StreamDetail> = Vec::new();
    let mut i: usize = 0;
    proof {
        assert(streams.deep_view().take(0) =~= Seq::<ProbeStreamV>::empty());
    }
    while i < streams.len()
        invariant
            i <= streams@.len(),
            streams@.len() == streams.deep_view().len(),
            out.deep_view() == spec_extract_streams(streams.deep_view().take(i as int)),
        decreases streams@.len() - i,
    {
        let ghost prev = out.deep_view();
        match map_stream(&streams[i]) {
            Some(d) => {
                out.push(d);
                proof {
                    assert(out.deep_view() =~= prev.push(d.deep_view()));
                }
            },
            None => (),
        }
        proof {
            let dv = streams.deep_view();
            assert(dv.take(i as int + 1).drop_last() =~= dv.take(i as int));
            assert(dv.take(i as int + 1).last() == dv[i as int]);
        }
        i += 1;
    }
    proof {
        assert(streams.deep_view().take(streams@.len() as int) =~= streams.deep_view());
    }
    out
}

} // verus!
