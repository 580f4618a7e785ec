//! Two-stage content classifier: binary-signature sniffing over the first
//! bytes of a file, with a lowercase-extension fallback when sniffing is
//! inconclusive. Also derives display filenames from path strings.

use vstd::prelude::*;

use crate::models::MediaType;
use crate::strings::{find_last_index_of, find_last_index_within, spec_last_index_of, str_eq};

verus! {

use vstd::string::StrSliceExecFns;
use vstd::string::StringExecFns;

/// The MIME string that binary-signature sniffing yields on a given buffer,
/// or `None` when no signature matches. Sniffing walks a fixed signature
/// table, so the outcome depends on the buffer's bytes alone.
pub uninterp spec fn sniffed_mime(buffer: Seq<u8>) -> Option<Seq<char>>;

/// Relies on `infer::get`, which matches the buffer against its built-in
/// table of binary signatures, and on `infer::Type::mime_type`, the matched
/// signature's MIME string; both depend on the buffer's bytes alone.
#[verifier::external_body]
fn sniff_mime(header: &[u8]) -> (r: Option<String>)
    ensures
        r.deep_view() == sniffed_mime(header@),
{
    infer::get(header).map(|kind| kind.mime_type().to_string())
}

/// ASCII lowercase folding of one character.
pub open spec fn spec_lower_char(c: char) -> char {
    match c {
        'A' => 'a',
        'B' => 'b',
        'C' => 'c',
        'D' => 'd',
        'E' => 'e',
        'F' => 'f',
        'G' => 'g',
        'H' => 'h',
        'I' => 'i',
        'J' => 'j',
        'K' => 'k',
        'L' => 'l',
        'M' => 'm',
        'N' => 'n',
        'O' => 'o',
        'P' => 'p',
        'Q' => 'q',
        'R' => 'r',
        'S' => 's',
        'T' => 't',
        'U' => 'u',
        'V' => 'v',
        'W' => 'w',
        'X' => 'x',
        'Y' => 'y',
        'Z' => 'z',
        _ => c,
    }
}

fn lower_char(c: char) -> (r: char)
    ensures
        r == spec_lower_char(c),
{
    match c {
        'A' => 'a',
        'B' => 'b',
        'C' => 'c',
        'D' => 'd',
        'E' => 'e',
        'F' => 'f',
        'G' => 'g',
        'H' => 'h',
        'I' => 'i',
        'J' => 'j',
        'K' => 'k',
        'L' => 'l',
        'M' => 'm',
        'N' => 'n',
        'O' => 'o',
        'P' => 'p',
        'Q' => 'q',
        'R' => 'r',
        'S' => 's',
        'T' => 't',
        'U' => 'u',
        'V' => 'v',
        'W' => 'w',
        'X' => 'x',
        'Y' => 'y',
        'Z' => 'z',
        _ => c,
    }
}

/// ASCII lowercase folding of a character sequence.
pub open spec fn spec_lower(s: Seq<char>) -> Seq<char> {
    Seq::new(s.len(), |i: int| spec_lower_char(s[i]))
}

/// Whether `e`, folded to ASCII lowercase, equals `lit`.
fn lower_eq(e: &str, lit: &str) -> (r: bool)
    ensures
        r == (spec_lower(e@) == lit@),
{
    let ne = e.unicode_len();
    let nl = lit.unicode_len();
    if ne != nl {
        return false;
    }
    let mut i: usize = 0;
    while i < ne
        invariant
            i <= ne,
            ne == e@.len(),
            ne == lit@.len(),
            forall|j: int| 0 <= j < i ==> spec_lower_char(e@[j]) == lit@[j],
        decreases ne - i,
    {
        if lower_char(e.get_char(i)) != lit.get_char(i) {
            return false;
        }
        i += 1;
    }
    proof {
        assert(spec_lower(e@) =~= lit@);
    }
    true
}

/// Signature table, audio group.
pub open spec fn spec_is_audio_mime(m: Seq<char>) -> bool {
    ||| m == "audio/mpeg"@
    ||| m == "audio/mp3"@
    ||| m == "audio/m4a"@
    ||| m == "audio/ogg"@
    ||| m == "audio/x-flac"@
    ||| m == "audio/x-wav"@
    ||| m == "audio/amr"@
    ||| m == "audio/aac"@
    ||| m == "audio/x-aiff"@
    ||| m == "audio/x-dsf"@
    ||| m == "audio/x-ape"@
    ||| m == "audio/midi"@
}

fn is_audio_mime(m: &str) -> (r: bool)
    ensures
        r == spec_is_audio_mime(m@),
{
    str_eq(m, "audio/mpeg") || str_eq(m, "audio/mp3") || str_eq(m, "audio/m4a") || str_eq(
        m,
        "audio/ogg",
    ) || str_eq(m, "audio/x-flac") || str_eq(m, "audio/x-wav") || str_eq(m, "audio/amr") || str_eq(
        m,
        "audio/aac",
    ) || str_eq(m, "audio/x-aiff") || str_eq(m, "audio/x-dsf") || str_eq(m, "audio/x-ape")
        || str_eq(m, "audio/midi")
}

/// Signature table, video group.
pub open spec fn spec_is_video_mime(m: Seq<char>) -> bool {
    ||| m == "video/mp4"@
    ||| m == "video/x-m4v"@
    ||| m == "video/x-matroska"@
    ||| m == "video/webm"@
    ||| m == "video/quicktime"@
    ||| m == "video/x-msvideo"@
    ||| m == "video/x-ms-wmv"@
    ||| m == "video/mpeg"@
    ||| m == "video/x-flv"@
}

fn is_video_mime(m: &str) -> (r: bool)
    ensures
        r == spec_is_video_mime(m@),
{
    str_eq(m, "video/mp4") || str_eq(m, "video/x-m4v") || str_eq(m, "video/x-matroska") || str_eq(
        m,
        "video/webm",
    ) || str_eq(m, "video/quicktime") || str_eq(m, "video/x-msvideo") || str_eq(m, "video/x-ms-wmv")
        || str_eq(m, "video/mpeg") || str_eq(m, "video/x-flv")
}

/// Signature table, image group.
pub open spec fn spec_is_image_mime(m: Seq<char>) -> bool {
    ||| m == "image/jpeg"@
    ||| m == "image/png"@
    ||| m == "image/gif"@
    ||| m == "image/webp"@
    ||| m == "image/x-canon-cr2"@
    ||| m == "image/tiff"@
    ||| m == "image/bmp"@
    ||| m == "image/heif"@
    ||| m == "image/avif"@
    ||| m == "image/vnd.ms-photo"@
    ||| m == "image/vnd.adobe.photoshop"@
    ||| m == "image/vnd.microsoft.icon"@
    ||| m == "image/openraster"@
    ||| m == "image/vnd.djvu"@
}

fn is_image_mime(m: &str) -> (r: bool)
    ensures
        r == spec_is_image_mime(m@),
{
    str_eq(m, "image/jpeg") || str_eq(m, "image/png") || str_eq(m, "image/gif") || str_eq(
        m,
        "image/webp",
    ) || str_eq(m, "image/x-canon-cr2") || str_eq(m, "image/tiff") || str_eq(m, "image/bmp")
        || str_eq(m, "image/heif") || str_eq(m, "image/avif") || str_eq(m, "image/vnd.ms-photo")
        || str_eq(m, "image/vnd.adobe.photoshop") || str_eq(m, "image/vnd.microsoft.icon")
        || str_eq(m, "image/openraster") || str_eq(m, "image/vnd.djvu")
}

/// Signature table, document group.
pub open spec fn spec_is_document_mime(m: Seq<char>) -> bool {
    ||| m == "application/pdf"@
    ||| m == "application/rtf"@
    ||| m == "application/msword"@
    ||| m == "application/vnd.openxmlformats-officedocument.wordprocessingml.document"@
    ||| m == "application/vnd.ms-excel"@
    ||| m == "application/vnd.openxmlformats-officedocument.spreadsheetml.sheet"@
    ||| m == "application/vnd.ms-powerpoint"@
    ||| m == "application/vnd.openxmlformats-officedocument.presentationml.presentation"@
    ||| m == "application/vnd.oasis.opendocument.text"@
    ||| m == "application/vnd.oasis.opendocument.spreadsheet"@
    ||| m == "application/vnd.oasis.opendocument.presentation"@
}

fn is_document_mime(m: &str) -> (r: bool)
    ensures
        r == spec_is_document_mime(m@),
{
    str_eq(m, "application/pdf") || str_eq(m, "application/rtf") || str_eq(m, "application/msword")
        || str_eq(m, "application/vnd.openxmlformats-officedocument.wordprocessingml.document")
        || str_eq(m, "application/vnd.ms-excel") || str_eq(
        m,
        "application/vnd.openxmlformats-officedocument.spreadsheetml.sheet",
    ) || str_eq(m, "application/vnd.ms-powerpoint") || str_eq(
        m,
        "application/vnd.openxmlformats-officedocument.presentationml.presentation",
    ) || str_eq(m, "application/vnd.oasis.opendocument.text") || str_eq(
        m,
        "application/vnd.oasis.opendocument.spreadsheet",
    ) || str_eq(m, "application/vnd.oasis.opendocument.presentation")
}

/// Signature table, archive group.
pub open spec fn spec_is_archive_mime(m: Seq<char>) -> bool {
    ||| m == "application/zip"@
    ||| m == "application/x-tar"@
    ||| m == "application/vnd.rar"@
    ||| m == "application/gzip"@
    ||| m == "application/x-bzip2"@
    ||| m == "application/vnd.bzip3"@
    ||| m == "application/x-7z-compressed"@
    ||| m == "application/x-xz"@
    ||| m == "application/x-shockwave-flash"@
    ||| m == "application/octet-stream"@
    ||| m == "application/postscript"@
    ||| m == "application/vnd.sqlite3"@
    ||| m == "application/x-nintendo-nes-rom"@
    ||| m == "application/x-google-chrome-extension"@
    ||| m == "application/vnd.ms-cab-compressed"@
    ||| m == "application/vnd.debian.binary-package"@
    ||| m == "application/x-unix-archive"@
    ||| m == "application/x-compress"@
    ||| m == "application/x-lzip"@
    ||| m == "application/x-rpm"@
    ||| m == "application/dicom"@
    ||| m == "application/zstd"@
    ||| m == "application/x-lz4"@
    ||| m == "application/x-ole-storage"@
    ||| m == "application/x-cpio"@
    ||| m == "application/x-par2"@
    ||| m == "application/epub+zip"@
    ||| m == "application/x-mobipocket-ebook"@
}

fn is_archive_mime(m: &str) -> (r: bool)
    ensures
        r == spec_is_archive_mime(m@),
{
    str_eq(m, "application/zip") || str_eq(m, "application/x-tar") || str_eq(
        m,
        "application/vnd.rar",
    ) || str_eq(m, "application/gzip") || str_eq(m, "application/x-bzip2") || str_eq(
        m,
        "application/vnd.bzip3",
    ) || str_eq(m, "application/x-7z-compressed") || str_eq(m, "application/x-xz") || str_eq(
        m,
        "application/x-shockwave-flash",
    ) || str_eq(m, "application/octet-stream") || str_eq(m, "application/postscript") || str_eq(
        m,
        "application/vnd.sqlite3",
    ) || str_eq(m, "application/x-nintendo-nes-rom") || str_eq(
        m,
        "application/x-google-chrome-extension",
    ) || str_eq(m, "application/vnd.ms-cab-compressed") || str_eq(
        m,
        "application/vnd.debian.binary-package",
    ) || str_eq(m, "application/x-unix-archive") || str_eq(m, "application/x-compress") || str_eq(
        m,
        "application/x-lzip",
    ) || str_eq(m, "application/x-rpm") || str_eq(m, "application/dicom") || str_eq(
        m,
        "application/zstd",
    ) || str_eq(m, "application/x-lz4") || str_eq(m, "application/x-ole-storage") || str_eq(
        m,
        "application/x-cpio",
    ) || str_eq(m, "application/x-par2") || str_eq(m, "application/epub+zip") || str_eq(
        m,
        "application/x-mobipocket-ebook",
    )
}

/// Signature table, executable group.
pub open spec fn spec_is_executable_mime(m: Seq<char>) -> bool {
    ||| m == "application/vnd.microsoft.portable-executable"@
    ||| m == "application/x-executable"@
    ||| m == "application/llvm"@
    ||| m == "application/x-mach-binary"@
    ||| m == "application/java"@
    ||| m == "application/vnd.android.dex"@
    ||| m == "application/vnd.android.dey"@
    ||| m == "application/x-x509-ca-cert"@
}

fn is_executable_mime(m: &str) -> (r: bool)
    ensures
        r == spec_is_executable_mime(m@),
{
    str_eq(m, "application/vnd.microsoft.portable-executable") || str_eq(
        m,
        "application/x-executable",
    ) || str_eq(m, "application/llvm") || str_eq(m, "application/x-mach-binary") || str_eq(
        m,
        "application/java",
    ) || str_eq(m, "application/vnd.android.dex") || str_eq(m, "application/vnd.android.dey")
        || str_eq(m, "application/x-x509-ca-cert")
}

/// The category the signature table assigns to a sniffed MIME string;
/// recognized codes outside the table map to `Unknown`.
pub open spec fn spec_category_of_mime(m: Seq<char>) -> MediaType {
    if spec_is_audio_mime(m) {
        MediaType::Audio
    } else if spec_is_video_mime(m) {
        MediaType::Video
    } else if spec_is_image_mime(m) {
        MediaType::Image
    } else if spec_is_document_mime(m) {
        MediaType::Document
    } else if spec_is_archive_mime(m) {
        MediaType::Archive
    } else if spec_is_executable_mime(m) {
        MediaType::Executable
    } else {
        MediaType::Unknown
    }
}

fn category_of_mime(m: &str) -> (r: MediaType)
    ensures
        r == spec_category_of_mime(m@),
{
    if is_audio_mime(m) {
        MediaType::Audio
    } else if is_video_mime(m) {
        MediaType::Video
    } else if is_image_mime(m) {
        MediaType::Image
    } else if is_document_mime(m) {
        MediaType::Document
    } else if is_archive_mime(m) {
        MediaType::Archive
    } else if is_executable_mime(m) {
        MediaType::Executable
    } else {
        MediaType::Unknown
    }
}

/// Extension table, audio group, over lowercase extensions.
pub open spec fn spec_is_audio_ext(e: Seq<char>) -> bool {
    ||| e == "mp3"@
    ||| e == "wav"@
    ||| e == "flac"@
    ||| e == "ogg"@
    ||| e == "m4a"@
    ||| e == "aac"@
    ||| e == "wma"@
    ||| e == "mid"@
    ||| e == "amr"@
    ||| e == "aiff"@
    ||| e == "dsf"@
    ||| e == "ape"@
}

fn is_audio_ext(e: &str) -> (r: bool)
    ensures
        r == spec_is_audio_ext(spec_lower(e@)),
{
    lower_eq(e, "mp3") || lower_eq(e, "wav") || lower_eq(e, "flac") || lower_eq(e, "ogg")
        || lower_eq(e, "m4a") || lower_eq(e, "aac") || lower_eq(e, "wma") || lower_eq(e, "mid")
        || lower_eq(e, "amr") || lower_eq(e, "aiff") || lower_eq(e, "dsf") || lower_eq(e, "ape")
}

/// Extension table, video group, over lowercase extensions.
pub open spec fn spec_is_video_ext(e: Seq<char>) -> bool {
    ||| e == "mp4"@
    ||| e == "mkv"@
    ||| e == "webm"@
    ||| e == "mov"@
    ||| e == "avi"@
    ||| e == "wmv"@
    ||| e == "mpg"@
    ||| e == "flv"@
    ||| e == "m4v"@
}

fn is_video_ext(e: &str) -> (r: bool)
    ensures
        r == spec_is_video_ext(spec_lower(e@)),
{
    lower_eq(e, "mp4") || lower_eq(e, "mkv") || lower_eq(e, "webm") || lower_eq(e, "mov")
        || lower_eq(e, "avi") || lower_eq(e, "wmv") || lower_eq(e, "mpg") || lower_eq(e, "flv")
        || lower_eq(e, "m4v")
}

/// Extension table, image group, over lowercase extensions.
pub open spec fn spec_is_image_ext(e: Seq<char>) -> bool {
    ||| e == "gif"@
    ||| e == "png"@
    ||| e == "jpg"@
    ||| e == "jpeg"@
    ||| e == "bmp"@
    ||| e == "tiff"@
    ||| e == "webp"@
    ||| e == "cr2"@
    ||| e == "heif"@
    ||| e == "avif"@
    ||| e == "jxr"@
    ||| e == "psd"@
    ||| e == "ico"@
    ||| e == "ora"@
    ||| e == "djvu"@
}

fn is_image_ext(e: &str) -> (r: bool)
    ensures
        r == spec_is_image_ext(spec_lower(e@)),
{
    lower_eq(e, "gif") || lower_eq(e, "png") || lower_eq(e, "jpg") || lower_eq(e, "jpeg")
        || lower_eq(e, "bmp") || lower_eq(e, "tiff") || lower_eq(e, "webp") || lower_eq(e, "cr2")
        || lower_eq(e, "heif") || lower_eq(e, "avif") || lower_eq(e, "jxr") || lower_eq(e, "psd")
        || lower_eq(e, "ico") || lower_eq(e, "ora") || lower_eq(e, "djvu")
}

/// Extension table, document group, over lowercase extensions.
pub open spec fn spec_is_document_ext(e: Seq<char>) -> bool {
    ||| e == "txt"@
    ||| e == "md"@
    ||| e == "pdf"@
    ||| e == "doc"@
    ||| e == "docx"@
    ||| e == "xls"@
    ||| e == "xlsx"@
    ||| e == "ppt"@
    ||| e == "pptx"@
    ||| e == "odt"@
    ||| e == "ods"@
    ||| e == "odp"@
    ||| e == "rtf"@
}

fn is_document_ext(e: &str) -> (r: bool)
    ensures
        r == spec_is_document_ext(spec_lower(e@)),
{
    lower_eq(e, "txt") || lower_eq(e, "md") || lower_eq(e, "pdf") || lower_eq(e, "doc") || lower_eq(
        e,
        "docx",
    ) || lower_eq(e, "xls") || lower_eq(e, "xlsx") || lower_eq(e, "ppt") || lower_eq(e, "pptx")
        || lower_eq(e, "odt") || lower_eq(e, "ods") || lower_eq(e, "odp") || lower_eq(e, "rtf")
}

/// Extension table, archive group, over lowercase extensions.
pub open spec fn spec_is_archive_ext(e: Seq<char>) -> bool {
    ||| e == "zip"@
    ||| e == "rar"@
    ||| e == "7z"@
    ||| e == "tar"@
    ||| e == "gz"@
    ||| e == "bz2"@
    ||| e == "bz3"@
    ||| e == "xz"@
    ||| e == "swf"@
    ||| e == "sqlite"@
    ||| e == "nes"@
    ||| e == "crx"@
    ||| e == "cab"@
    ||| e == "deb"@
    ||| e == "ar"@
    ||| e == "lz"@
    ||| e == "rpm"@
    ||| e == "dcm"@
    ||| e == "zst"@
    ||| e == "lz4"@
    ||| e == "cpio"@
    ||| e == "par2"@
    ||| e == "epub"@
    ||| e == "mobi"@
}

fn is_archive_ext(e: &str) -> (r: bool)
    ensures
        r == spec_is_archive_ext(spec_lower(e@)),
{
    lower_eq(e, "zip") || lower_eq(e, "rar") || lower_eq(e, "7z") || lower_eq(e, "tar") || lower_eq(
        e,
        "gz",
    ) || lower_eq(e, "bz2") || lower_eq(e, "bz3") || lower_eq(e, "xz") || lower_eq(e, "swf")
        || lower_eq(e, "sqlite") || lower_eq(e, "nes") || lower_eq(e, "crx") || lower_eq(e, "cab")
        || lower_eq(e, "deb") || lower_eq(e, "ar") || lower_eq(e, "lz") || lower_eq(e, "rpm")
        || lower_eq(e, "dcm") || lower_eq(e, "zst") || lower_eq(e, "lz4") || lower_eq(e, "cpio")
        || lower_eq(e, "par2") || lower_eq(e, "epub") || lower_eq(e, "mobi")
}

/// Extension table, executable group, over lowercase extensions.
pub open spec fn spec_is_executable_ext(e: Seq<char>) -> bool {
    ||| e == "exe"@
    ||| e == "dll"@
    ||| e == "msi"@
    ||| e == "dmg"@
    ||| e == "pkg"@
    ||| e == "app"@
    ||| e == "elf"@
    ||| e == "bc"@
    ||| e == "mach"@
    ||| e == "class"@
    ||| e == "dex"@
    ||| e == "dey"@
    ||| e == "der"@
    ||| e == "obj"@
}

fn is_executable_ext(e: &str) -> (r: bool)
    ensures
        r == spec_is_executable_ext(spec_lower(e@)),
{
    lower_eq(e, "exe") || lower_eq(e, "dll") || lower_eq(e, "msi") || lower_eq(e, "dmg")
        || lower_eq(e, "pkg") || lower_eq(e, "app") || lower_eq(e, "elf") || lower_eq(e, "bc")
        || lower_eq(e, "mach") || lower_eq(e, "class") || lower_eq(e, "dex") || lower_eq(e, "dey")
        || lower_eq(e, "der") || lower_eq(e, "obj")
}

/// Extension table, shared-library group, over lowercase extensions.
pub open spec fn spec_is_library_ext(e: Seq<char>) -> bool {
    ||| e == "so"@
    ||| e == "dylib"@
}

fn is_library_ext(e: &str) -> (r: bool)
    ensures
        r == spec_is_library_ext(spec_lower(e@)),
{
    lower_eq(e, "so") || lower_eq(e, "dylib")
}

/// The category the extension table assigns to a lowercase extension.
pub open spec fn spec_category_of_ext(e: Seq<char>) -> MediaType {
    if spec_is_audio_ext(e) {
        MediaType::Audio
    } else if spec_is_video_ext(e) {
        MediaType::Video
    } else if spec_is_image_ext(e) {
        MediaType::Image
    } else if spec_is_document_ext(e) {
        MediaType::Document
    } else if spec_is_archive_ext(e) {
        MediaType::Archive
    } else if spec_is_executable_ext(e) {
        MediaType::Executable
    } else if spec_is_library_ext(e) {
        MediaType::Library
    } else {
        MediaType::Unknown
    }
}

fn category_of_ext(e: &str) -> (r: MediaType)
    ensures
        r == spec_category_of_ext(spec_lower(e@)),
{
    if is_audio_ext(e) {
        MediaType::Audio
    } else if is_video_ext(e) {
        MediaType::Video
    } else if is_image_ext(e) {
        MediaType::Image
    } else if is_document_ext(e) {
        MediaType::Document
    } else if is_archive_ext(e) {
        MediaType::Archive
    } else if is_executable_ext(e) {
        MediaType::Executable
    } else if is_library_ext(e) {
        MediaType::Library
    } else {
        MediaType::Unknown
    }
}

/// The path with trailing separators removed.
pub open spec fn spec_strip_trailing_slashes(p: Seq<char>) -> Seq<char>
    decreases p.len(),
{
    if p.len() > 0 && p.last() == '/' {
        spec_strip_trailing_slashes(p.drop_last())
    } else {
        p
    }
}

/// The final path component: what follows the last separator, once trailing
/// separators are removed.
pub open spec fn spec_base_name(p: Seq<char>) -> Seq<char> {
    let q = spec_strip_trailing_slashes(p);
    match spec_last_index_of(q, '/') {
        Some(j) => q.skip(j + 1),
        None => q,
    }
}

/// The filename a path yields for display and error reporting: its final
/// component, or `None` when the path has none (empty, all separators, or a
/// parent-directory reference).
pub open spec fn spec_filename_of(p: Seq<char>) -> Option<Seq<char>> {
    let b = spec_base_name(p);
    if b.len() == 0 || b == ".."@ {
        None
    } else {
        Some(b)
    }
}

/// The extension used by the fallback classification: what follows the last
/// dot of the filename, provided that dot is not the filename's first
/// character.
pub open spec fn spec_extension_of(p: Seq<char>) -> Option<Seq<char>> {
    match spec_filename_of(p) {
        None => None,
        Some(name) => match spec_last_index_of(name, '.') {
            Some(d) => if d > 0 {
                Some(name.skip(d + 1))
            } else {
                None
            },
            None => None,
        },
    }
}

/// The final component of `path` as a borrowed slice, or `None` when the
/// path has none.
fn base_name(path: &str) -> (r: Option<&str>)
    ensures
        match r {
            Some(b) => spec_filename_of(path@) == Some(b@),
            None => spec_filename_of(path@) is None,
        },
{
    let n = path.unicode_len();
    let mut end = n;
    proof {
        assert(path@.take(n as int) =~= path@);
    }
    while end > 0 && path.get_char(end - 1) == '/'
        invariant
            end <= n,
            n == path@.len(),
            spec_strip_trailing_slashes(path@) == spec_strip_trailing_slashes(
                path@.take(end as int),
            ),
        decreases end,
    {
        proof {
            assert(path@.take(end as int).drop_last() =~= path@.take(end as int - 1));
        }
        end = end - 1;
    }
    proof {
        assert(spec_strip_trailing_slashes(path@.take(end as int)) == path@.take(end as int));
        crate::strings::lemma_last_index_of_props(path@.take(end as int), '/');
    }
    let start = match find_last_index_within(path, '/', end) {
        Some(j) => j + 1,
        None => 0,
    };
    let b = path.substring_char(start, end);
    proof {
        assert(b@ =~= spec_base_name(path@));
    }
    if b.unicode_len() == 0 || str_eq(b, "..") {
        return None;
    }
    Some(b)
}

/// Derives the display filename from a path: the final path component, or
/// `None` when the path has none.
pub fn derive_filename(path: &str) -> (r: Option<String>)
    ensures
        r.deep_view() == spec_filename_of(path@),
{
    match base_name(path) {
        Some(b) => Some(b.to_owned()),
        None => None,
    }
}

/// The display filename of a path, with a fixed fallback for paths that have
/// no final component.
pub open spec fn spec_filename_or_unknown(p: Seq<char>) -> Seq<char> {
    match spec_filename_of(p) {
        Some(n) => n,
        None => "unknown"@,
    }
}

/// As `derive_filename`, falling back to the literal `unknown`.
pub fn filename_or_unknown(path: &str) -> (r: String)
    ensures
        r@ == spec_filename_or_unknown(path@),
{
    match base_name(path) {
        Some(b) => b.to_owned(),
        None => String::from_str("unknown"),
    }
}

/// The extension of `path`'s filename, or `None` when there is none.
fn extension_of(path: &str) -> (r: Option<String>)
    ensures
        r.deep_view() == spec_extension_of(path@),
{
    let b = match base_name(path) {
        Some(b) => b,
        None => {
            return None;
        },
    };
    let nb = b.unicode_len();
    proof {
        crate::strings::lemma_last_index_of_props(b@, '.');
    }
    match find_last_index_of(b, '.') {
        Some(d) => {
            if d > 0 {
                Some(b.substring_char(d + 1, nb).to_owned())
            } else {
                None
            }
        },
        None => None,
    }
}

/// The category of a file whose first bytes are `header` and whose path is
/// `path`: the signature table's verdict when sniffing recognizes the bytes,
/// else the extension table's verdict on the lowercase extension, else
/// `Unknown`.
pub open spec fn spec_detect_media_type(header: Seq<u8>, path: Seq<char>) -> MediaType {
    match sniffed_mime(header) {
        Some(m) => spec_category_of_mime(m),
        None => match spec_extension_of(path) {
            Some(e) => spec_category_of_ext(spec_lower(e)),
            None => MediaType::Unknown,
        },
    }
}

/// Classifies a file from its first bytes (up to 512; fewer or none when the
/// file is short or unreadable) and its path. Signature sniffing wins when it
/// recognizes the bytes; otherwise the lowercase filename extension decides;
/// absent both signals the category is `Unknown`. Total: the same inputs
/// always yield the same category.
pub fn detect_media_type(header: &[u8], path: &str) -> (t: MediaType)
    ensures
        t == spec_detect_media_type(header@, path@),
{
    match sniff_mime(header) {
        Some(m) => category_of_mime(m.as_str()),
        None => match extension_of(path) {
            Some(e) => category_of_ext(e.as_str()),
            None => MediaType::Unknown,
        },
    }
}

/// Whether a category is one the analysis pipeline probes for streams.
pub open spec fn spec_is_media(t: MediaType) -> bool {
    t is Audio || t is Video || t is Image
}

/// True exactly for the `Audio`, `Video` and `Image` categories.
pub fn is_media_file(media_type: &MediaType) -> (r: bool)
    ensures
        r == spec_is_media(*media_type),
{
    match media_type {
        MediaType::Audio | MediaType::Video | MediaType::Image => true,
        _ => false,
    }
}

} // verus!
