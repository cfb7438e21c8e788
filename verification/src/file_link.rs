//! From a raw link to the name of the file it will be saved under.

use crate::error::DlmError;
use crate::error::ErrorModel;
use crate::text::chars_of;
use crate::text::find_first_in;
use crate::text::find_last_in;
use crate::text::first_index;
use crate::text::last_index;
use crate::text::lemma_first_index;
use crate::text::lemma_last_index;
use crate::text::slice_text;
use crate::text::trim_bounds;
use crate::text::trimmed;
use vstd::prelude::*;

verus! {

/// A link together with the file name derived from it.
#[derive(Debug, PartialEq, Eq)]
pub struct FileLink {
    pub url: String,
    pub filename_without_extension: String,
    pub extension: Option<String>,
}

/// A `FileLink` with its texts as sequences of characters.
pub struct FileLinkModel {
    pub url: Seq<char>,
    pub filename_without_extension: Seq<char>,
    pub extension: Option<Seq<char>>,
}

impl View for FileLink {
    type V = FileLinkModel;

    open spec fn view(&self) -> FileLinkModel {
        FileLinkModel {
            url: self.url@,
            filename_without_extension: self.filename_without_extension@,
            extension: match self.extension {
                Some(e) => Some(e@),
                None => None,
            },
        }
    }
}

/// What follows the last `.` of a file name, up to a `?` that starts query
/// parameters.
pub open spec fn suffix_of(filename: Seq<char>) -> Seq<char> {
    let tail = filename.skip(last_index(filename, '.') + 1);
    tail.take(first_index(tail, '?'))
}

/// A file name has an extension when it holds a `.` and its suffix is not
/// empty.
pub open spec fn has_extension(filename: Seq<char>) -> bool {
    last_index(filename, '.') >= 0 && suffix_of(filename).len() > 0
}

/// A file name split into its extension, where it has one, and what stands
/// before it. A name without extension is its own stem.
pub open spec fn split_extension(filename: Seq<char>) -> (Option<Seq<char>>, Seq<char>) {
    if has_extension(filename) {
        (Some(suffix_of(filename)), filename.take(last_index(filename, '.')))
    } else {
        (None, filename)
    }
}

/// The last path segment of a link: what follows its last `/`.
pub open spec fn last_segment(link: Seq<char>) -> Seq<char> {
    link.skip(last_index(link, '/') + 1)
}

/// A link resolves when, white space around it aside, it is not empty and
/// does not end in `/`: only then does it name a file.
pub open spec fn resolvable(raw: Seq<char>) -> bool {
    trimmed(raw).len() > 0 && trimmed(raw).last() != '/'
}

/// The `FileLink` of a link that resolves.
pub open spec fn resolved(raw: Seq<char>) -> FileLinkModel {
    let parts = split_extension(last_segment(trimmed(raw)));
    FileLinkModel { url: trimmed(raw), filename_without_extension: parts.1, extension: parts.0 }
}

/// Splits `chars[lo..hi]` as `split_extension` does and reports the bounds:
/// the end of the stem and, with an extension, where it starts and ends.
fn split_bounds(chars: &Vec<char>, lo: usize, hi: usize) -> (r: (usize, Option<(usize, usize)>))
    requires
        lo <= hi <= chars.len(),
    ensures
        lo <= r.0 <= hi,
        chars@.subrange(lo as int, r.0 as int) == split_extension(
            chars@.subrange(lo as int, hi as int),
        ).1,
        match r.1 {
            Some((from, to)) => r.0 < from < to <= hi && Some(
                chars@.subrange(from as int, to as int),
            ) == split_extension(chars@.subrange(lo as int, hi as int)).0,
            None => split_extension(chars@.subrange(lo as int, hi as int)).0.is_none(),
        },
{
    let ghost name = chars@.subrange(lo as int, hi as int);
    proof {
        lemma_last_index(name, '.');
    }
    match find_last_in(chars, '.', lo, hi) {
        None => {
            assert(chars@.subrange(lo as int, hi as int) =~= name);
            (hi, None)
        },
        Some(dot) => {
            let ghost tail = name.skip(dot - lo + 1);
            assert(tail =~= chars@.subrange(dot + 1, hi as int));
            proof {
                lemma_first_index(tail, '?');
            }
            let end = find_first_in(chars, '?', dot + 1, hi);
            assert(chars@.subrange(dot + 1, end as int) =~= tail.take(first_index(tail, '?')));
            if end > dot + 1 {
                assert(chars@.subrange(lo as int, dot as int) =~= name.take(dot - lo));
                (dot, Some((dot + 1, end)))
            } else {
                (hi, None)
            }
        },
    }
}

impl FileLink {
    /// Resolves a raw link. White space around the link is dropped. The file
    /// name is the last path segment, split by `split_extension`. A link
    /// that is empty or ends in `/` names no file and is rejected with
    /// `UnresolvableLink`, which carries the link as given.
    pub fn new(raw: &str) -> (link: Result<FileLink, DlmError>)
        ensures
            match link {
                Ok(l) => resolvable(raw@) && l@ == resolved(raw@),
                Err(e) => !resolvable(raw@) && e@ == (ErrorModel::UnresolvableLink {
                    message: raw@,
                }),
            },
    {
        let chars = chars_of(raw);
        let (start, end) = trim_bounds(&chars);
        if start == end || chars[end - 1] == '/' {
            assert(start < end ==> trimmed(raw@).last() == chars@[end - 1]);
            return Err(DlmError::UnresolvableLink { message: String::from_str(raw) });
        }
        let ghost link = trimmed(raw@);
        assert(link.last() == chars@[end - 1]);
        let name_start = match find_last_in(&chars, '/', start, end) {
            Some(slash) => slash + 1,
            None => start,
        };
        proof {
            lemma_last_index(link, '/');
        }
        assert(chars@.subrange(name_start as int, end as int) =~= last_segment(link));
        let (stem_end, ext) = split_bounds(&chars, name_start, end);
        let extension = match ext {
            Some((from, to)) => Some(slice_text(raw, from, to)),
            None => None,
        };
        Ok(
            FileLink {
                url: slice_text(raw, start, end),
                filename_without_extension: slice_text(raw, name_start, stem_end),
                extension,
            },
        )
    }

    /// Splits a file name that did not come from a link, such as one that a
    /// response header gave, into its extension and its stem.
    pub fn extract_extension_from_filename(filename: &str) -> (parts: (Option<String>, String))
        ensures
            parts.1@ == split_extension(filename@).1,
            match parts.0 {
                Some(e) => Some(e@) == split_extension(filename@).0,
                None => split_extension(filename@).0.is_none(),
            },
    {
        let chars = chars_of(filename);
        assert(chars@.subrange(0, chars.len() as int) =~= filename@);
        let (stem_end, ext) = split_bounds(&chars, 0, chars.len());
        let extension = match ext {
            Some((from, to)) => Some(slice_text(filename, from, to)),
            None => None,
        };
        (extension, slice_text(filename, 0, stem_end))
    }
}

} // verus!
