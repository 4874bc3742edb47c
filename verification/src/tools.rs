use vstd::prelude::*;
use vstd::string::*;

use crate::text::{is_white_space, lemma_trimmed_has_no_outer_white_space, opt_text, trim, trimmed};

verus! {

/// The paths of the external tools, as configured by the host app.
#[derive(Debug, Clone)]
pub struct ToolPaths {
    pub ffmpeg_path: Option<String>,
    pub coli_path: Option<String>,
}

impl Default for ToolPaths {
    /// No tool configured.
    fn default() -> (r: ToolPaths)
        ensures
            r.ffmpeg_path is None,
            r.coli_path is None,
    {
        ToolPaths { ffmpeg_path: None, coli_path: None }
    }
}

/// A configured path as it is kept: trimmed, and absent when blank.
pub open spec fn normalized_path(raw: Option<Seq<char>>) -> Option<Seq<char>> {
    match raw {
        Some(s) => if trimmed(s).len() == 0 {
            None
        } else {
            Some(trimmed(s))
        },
        None => None,
    }
}

/// Trims a configured path, and drops it when nothing is left.
pub fn normalize_tool_path(raw: Option<String>) -> (r: Option<String>)
    ensures
        opt_text(r) == normalized_path(opt_text(raw)),
{
    match raw {
        Some(s) => {
            let t = trim(s.as_str());
            if t.is_empty() {
                None
            } else {
                Some(String::from_str(t))
            }
        },
        None => None,
    }
}

impl ToolPaths {
    /// The configuration that the host app hands over, each path trimmed and
    /// dropped when blank.
    pub fn from_raw(ffmpeg_raw: Option<String>, coli_raw: Option<String>) -> (r: ToolPaths)
        ensures
            opt_text(r.ffmpeg_path) == normalized_path(opt_text(ffmpeg_raw)),
            opt_text(r.coli_path) == normalized_path(opt_text(coli_raw)),
    {
        ToolPaths {
            ffmpeg_path: normalize_tool_path(ffmpeg_raw),
            coli_path: normalize_tool_path(coli_raw),
        }
    }

    /// Replaces the configuration with the one the host app hands over, each
    /// path trimmed and dropped when blank.
    pub fn configure(&mut self, ffmpeg_raw: Option<String>, coli_raw: Option<String>)
        ensures
            opt_text(final(self).ffmpeg_path) == normalized_path(opt_text(ffmpeg_raw)),
            opt_text(final(self).coli_path) == normalized_path(opt_text(coli_raw)),
    {
        *self = ToolPaths::from_raw(ffmpeg_raw, coli_raw);
    }
}

/// A path that is kept is never blank: it starts and ends with a character
/// that is not white space.
pub proof fn lemma_kept_path_has_no_outer_white_space(raw: Option<Seq<char>>)
    ensures
        normalized_path(raw) matches Some(p) ==> p.len() > 0 && !is_white_space(p[0])
            && !is_white_space(p.last()),
{
    if let Some(s) = raw {
        lemma_trimmed_has_no_outer_white_space(s);
    }
}

/// Only a blank path is dropped: a configured path whose trimmed text is not
/// empty is kept, as that trimmed text, whatever characters it holds inside;
/// an absent path stays absent.
pub proof fn lemma_only_blank_paths_are_dropped(raw: Option<Seq<char>>)
    ensures
        raw matches Some(s) ==> (trimmed(s).len() > 0 ==> normalized_path(raw) == Some(
            trimmed(s),
        )),
        raw matches Some(s) ==> (trimmed(s).len() == 0 ==> normalized_path(raw) is None),
        raw is None ==> normalized_path(raw) is None,
{
}

} // verus!
