//! Corpus ingestion decisions: the corpus plan taken from the configuration,
//! the fixed-grid segmentation records, and the checks on the corpus root
//! that come before and after the file system is walked.

use vstd::prelude::*;
use crate::config::CorpusConfig;
use crate::text::push_text;

verus! {

/// One grain of a source: `len_frames` frames from `start_frame`.
#[derive(Debug, Clone, Copy, PartialEq, Eq, Structural)]
pub struct GrainSpan {
    pub start_frame: usize,
    pub len_frames: usize,
}

/// The grains cut from one corpus source.
#[derive(Debug, Clone, PartialEq, Eq)]
pub struct CorpusSourceSegmentation {
    pub source_index: usize,
    pub sample_rate: u32,
    pub total_frames: usize,
    pub grain_size_frames: usize,
    pub grain_hop_frames: usize,
    pub grains: Vec<GrainSpan>,
}

/// The corpus settings that ingestion and segmentation use.
#[derive(Debug, Clone, Copy, PartialEq, Eq, Structural)]
pub struct CorpusPlan {
    pub grain_size_ms: u32,
    pub grain_hop_ms: u32,
    pub mono_only: bool,
}

impl CorpusPlan {
    /// The plan of a corpus configuration.
    pub fn from_config(config: &CorpusConfig) -> (r: Self)
        ensures
            r.grain_size_ms == config.grain_size_ms,
            r.grain_hop_ms == config.grain_hop_ms,
            r.mono_only == config.mono_only,
    {
        CorpusPlan {
            grain_size_ms: config.grain_size_ms,
            grain_hop_ms: config.grain_hop_ms,
            mono_only: config.mono_only,
        }
    }
}

/// Checks a corpus request before the file system is read: ingestion is
/// mono-only, and the root path must not be empty.
pub fn check_corpus_request(root: &str, mono_only: bool) -> (r: Result<(), String>)
    ensures
        !mono_only ==> r is Err && r->Err_0@ == "phase 01 corpus ingestion requires mono_only=true"@,
        mono_only && root@.len() == 0 ==> r is Err && r->Err_0@
            == "corpus root path must not be empty"@,
        mono_only && root@.len() != 0 ==> r is Ok,
{
    if !mono_only {
        return Err(String::from_str("phase 01 corpus ingestion requires mono_only=true"));
    }
    if root.unicode_len() == 0 {
        return Err(String::from_str("corpus root path must not be empty"));
    }
    Ok(())
}

/// Whether a character is `c` in either ASCII case.
pub open spec fn ascii_either_case(c: char, lower: char, upper: char) -> bool {
    c == lower || c == upper
}

/// Whether a file extension is `wav` in any ASCII case (what
/// `eq_ignore_ascii_case("wav")` accepts: exactly three characters, each of
/// them `w`, `a`, `v` in either case).
pub open spec fn spec_is_wav_extension(extension: Option<Seq<char>>) -> bool {
    match extension {
        Some(e) => e.len() == 3 && ascii_either_case(e[0], 'w', 'W') && ascii_either_case(
            e[1],
            'a',
            'A',
        ) && ascii_either_case(e[2], 'v', 'V'),
        None => false,
    }
}

/// Whether a path with this extension is a WAV file.
pub fn is_wav_extension(extension: Option<&str>) -> (r: bool)
    ensures
        r == spec_is_wav_extension(
            match extension {
                Some(e) => Some(e@),
                None => None,
            },
        ),
{
    match extension {
        None => false,
        Some(e) => {
            if e.unicode_len() != 3 {
                return false;
            }
            let c0 = e.get_char(0);
            let c1 = e.get_char(1);
            let c2 = e.get_char(2);
            (c0 == 'w' || c0 == 'W') && (c1 == 'a' || c1 == 'A') && (c2 == 'v' || c2 == 'V')
        },
    }
}

/// What the corpus root is.
#[derive(Debug, Clone, Copy, PartialEq, Eq, Structural)]
pub enum CorpusRootKind {
    /// The root is itself a WAV file, the only source.
    SingleFile,
    /// The root is a directory, walked recursively for WAV files.
    Directory,
}

/// The result of classifying the corpus root.
pub open spec fn spec_classify_corpus_root(display: Seq<char>, is_file: bool, is_dir: bool, is_wav: bool) -> Result<CorpusRootKind, Seq<char>> {
    if is_file {
        if is_wav {
            Ok(CorpusRootKind::SingleFile)
        } else {
            Err("corpus input `"@ + display + "` is not a WAV file"@)
        }
    } else if !is_dir {
        Err("corpus input `"@ + display + "` does not exist or is not accessible"@)
    } else {
        Ok(CorpusRootKind::Directory)
    }
}

/// Classifies the corpus root from what the file system says of it: a file
/// must be a WAV file, and anything else must be a readable directory.
pub fn classify_corpus_root(root_display: &str, is_file: bool, is_dir: bool, is_wav: bool) -> (r: Result<CorpusRootKind, String>)
    ensures
        match spec_classify_corpus_root(root_display@, is_file, is_dir, is_wav) {
            Ok(k) => r == Ok::<CorpusRootKind, String>(k),
            Err(e) => r is Err && r->Err_0@ == e,
        },
{
    if is_file {
        if is_wav {
            return Ok(CorpusRootKind::SingleFile);
        }
        let mut m = String::from_str("corpus input `");
        push_text(&mut m, root_display);
        push_text(&mut m, "` is not a WAV file");
        return Err(m);
    }
    if !is_dir {
        let mut m = String::from_str("corpus input `");
        push_text(&mut m, root_display);
        push_text(&mut m, "` does not exist or is not accessible");
        return Err(m);
    }
    Ok(CorpusRootKind::Directory)
}

/// Refuses a corpus walk that found no WAV file.
pub fn check_found_wav_files(root_display: &str, file_count: usize) -> (r: Result<(), String>)
    ensures
        file_count == 0 ==> r is Err && r->Err_0@ == "no WAV files found under `"@ + root_display@
            + "`"@,
        file_count != 0 ==> r is Ok,
{
    if file_count == 0 {
        let mut m = String::from_str("no WAV files found under `");
        push_text(&mut m, root_display);
        push_text(&mut m, "`");
        return Err(m);
    }
    Ok(())
}

} // verus!
