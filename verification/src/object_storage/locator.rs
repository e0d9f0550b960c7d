//! Locators: `file://<absolute-path>` and `s3://<bucket>/<key-prefix>/<file-name>`.
//!
//! A locator is classified by its prefix and taken apart into the fields of its
//! protocol. The bucket holds no `/`, the file name holds no `/`, and the key
//! prefix between them holds no line feed; none of the three is empty.

use crate::error::SaError;
use crate::object_storage::locator_path::{
    lemma_file_name_has_no_separator, locator_stem, spec_locator_stem,
};
use crate::text::{
    chars_have_prefix_at, has_prefix_at, index_from, last_index_before, lemma_index_from,
    lemma_last_index_before, spec_index_from, spec_last_index_before, str_chars,
};
use vstd::prelude::*;
use vstd::string::*;

verus! {

/// Where a locator points.
#[derive(Clone, Copy, Debug, PartialEq, Eq, Structural)]
pub enum Protocol {
    /// The local file system, `file://`.
    Local,
    /// Remote object storage, `s3://`.
    Remote,
}

/// The protocol that the prefix of `uri` selects.
pub open spec fn spec_protocol(uri: Seq<char>) -> Option<Protocol> {
    if has_prefix_at(uri, 0, "file://"@) {
        Some(Protocol::Local)
    } else if has_prefix_at(uri, 0, "s3://"@) {
        Some(Protocol::Remote)
    } else {
        None
    }
}

/// The fields of a remote locator.
pub struct RemoteParts {
    pub bucket: Seq<char>,
    pub key_prefix: Seq<char>,
    pub file_name: Seq<char>,
}

/// The path of a local locator: what follows `file://`, which must start at
/// the root.
pub open spec fn spec_local_path(uri: Seq<char>) -> Option<Seq<char>> {
    let p = "file://"@.len() as int;
    if has_prefix_at(uri, 0, "file://"@) && p < uri.len() && uri[p] == '/' {
        Some(uri.subrange(p, uri.len() as int))
    } else {
        None
    }
}

/// The fields of a remote locator: the bucket runs up to the first `/` after
/// the prefix, the file name starts after the last `/`, the key prefix is what
/// lies between.
pub open spec fn spec_remote_parts(uri: Seq<char>) -> Option<RemoteParts> {
    let p = "s3://"@.len() as int;
    let bucket_end = spec_index_from(uri, '/', p);
    let file_start = spec_last_index_before(uri, '/', uri.len() as int) + 1;
    if has_prefix_at(uri, 0, "s3://"@) && p < bucket_end && bucket_end + 1 < file_start - 1
        && file_start < uri.len() && spec_index_from(uri, '\n', bucket_end + 1) >= file_start - 1 {
        Some(
            RemoteParts {
                bucket: uri.subrange(p, bucket_end),
                key_prefix: uri.subrange(bucket_end + 1, file_start - 1),
                file_name: uri.subrange(file_start, uri.len() as int),
            },
        )
    } else {
        None
    }
}

/// What follows the protocol prefix of `uri`; all of `uri` where it has none.
pub open spec fn spec_locator_path(uri: Seq<char>) -> Seq<char> {
    if has_prefix_at(uri, 0, "file://"@) {
        uri.subrange("file://"@.len() as int, uri.len() as int)
    } else if has_prefix_at(uri, 0, "s3://"@) {
        uri.subrange("s3://"@.len() as int, uri.len() as int)
    } else {
        uri
    }
}

/// The table name that a locator derives: the stem of its file name, or the
/// whole locator where its path has no file name.
pub open spec fn spec_table_name(uri: Seq<char>) -> Seq<char> {
    match spec_locator_stem(spec_locator_path(uri)) {
        Some(stem) => stem,
        None => uri,
    }
}

/// The table name of a locator with a protocol prefix is its file stem and
/// differs from the locator, unless the locator has no file stem and is its
/// own table name; and a file stem holds no `/`, which such a locator does.
pub proof fn lemma_table_name_of_locator(uri: Seq<char>)
    requires
        spec_protocol(uri).is_some(),
    ensures
        exists|k: int| 0 <= k < uri.len() && uri[k] == '/',
        spec_locator_stem(spec_locator_path(uri)).is_some() ==> spec_table_name(uri) != uri,
        spec_locator_stem(spec_locator_path(uri)).is_some() ==> forall|k: int|
            0 <= k < spec_table_name(uri).len() ==> spec_table_name(uri)[k] != '/',
        spec_locator_stem(spec_locator_path(uri)).is_none() ==> spec_table_name(uri) == uri,
{
    reveal_strlit("file://");
    reveal_strlit("s3://");
    if has_prefix_at(uri, 0, "file://"@) {
        assert(uri[5] == uri.subrange(0, 7)[5]);
        assert(uri[5] == '/');
    } else {
        assert(uri[3] == uri.subrange(0, 5)[3]);
        assert(uri[3] == '/');
    }
    lemma_file_name_has_no_separator(spec_locator_path(uri));
}

/// A parsed locator.
#[derive(Debug, PartialEq, Eq)]
pub enum Locator {
    Local { uri: String, path: String },
    Remote { uri: String, bucket: String, key_prefix: String, file_name: String },
}

/// What a parsed locator holds.
pub enum LocatorView {
    Local { uri: Seq<char>, path: Seq<char> },
    Remote { uri: Seq<char>, bucket: Seq<char>, key_prefix: Seq<char>, file_name: Seq<char> },
}

impl View for Locator {
    type V = LocatorView;

    open spec fn view(&self) -> LocatorView {
        match self {
            Locator::Local { uri, path } => LocatorView::Local { uri: uri@, path: path@ },
            Locator::Remote { uri, bucket, key_prefix, file_name } => LocatorView::Remote {
                uri: uri@,
                bucket: bucket@,
                key_prefix: key_prefix@,
                file_name: file_name@,
            },
        }
    }
}

/// What parsing `uri` gives: the locator, or why there is none.
pub open spec fn spec_parse_locator(uri: Seq<char>) -> Result<LocatorView, SaError> {
    match spec_protocol(uri) {
        None => Err(SaError::UnsupportedProtocol),
        Some(Protocol::Local) => match spec_local_path(uri) {
            Some(path) => Ok(LocatorView::Local { uri, path }),
            None => Err(SaError::ParseError),
        },
        Some(Protocol::Remote) => match spec_remote_parts(uri) {
            Some(parts) => Ok(
                LocatorView::Remote {
                    uri,
                    bucket: parts.bucket,
                    key_prefix: parts.key_prefix,
                    file_name: parts.file_name,
                },
            ),
            None => Err(SaError::ParseError),
        },
    }
}

/// A parse result, by the view of the locator.
pub open spec fn parsed_view(r: Result<Locator, SaError>) -> Result<LocatorView, SaError> {
    match r {
        Ok(l) => Ok(l@),
        Err(e) => Err(e),
    }
}

/// The bounds of the fields of a remote locator: the end of the bucket and the
/// start of the file name.
pub fn remote_bounds(t: &Vec<char>) -> (r: Option<(usize, usize)>)
    ensures
        match r {
            Some((bucket_end, file_start)) => {
                &&& spec_remote_parts(t@).is_some()
                &&& bucket_end == spec_index_from(t@, '/', "s3://"@.len() as int)
                &&& file_start == spec_last_index_before(t@, '/', t@.len() as int) + 1
                &&& "s3://"@.len() < bucket_end
                &&& bucket_end + 1 < file_start - 1
                &&& file_start < t@.len()
            },
            None => spec_remote_parts(t@).is_none(),
        },
{
    let prefix = str_chars("s3://");
    if !chars_have_prefix_at(t, 0, &prefix) {
        return None;
    }
    let p: usize = prefix.len();
    let bucket_end: usize = index_from(t, '/', p);
    let file_start: usize = match last_index_before(t, '/', t.len()) {
        Some(k) => k + 1,
        None => 0,
    };
    if !(p < bucket_end && file_start >= 2 && bucket_end < file_start - 2 && file_start < t.len()) {
        proof {
            lemma_index_from(t@, '/', p as int);
            lemma_last_index_before(t@, '/', t@.len() as int);
        }
        return None;
    }
    let line_feed: usize = index_from(t, '\n', bucket_end + 1);
    if line_feed < file_start - 1 {
        return None;
    }
    Some((bucket_end, file_start))
}

impl Locator {
    /// Classifies `uri` by its prefix and takes it apart. A prefix that is
    /// neither `file://` nor `s3://` is an unsupported protocol; a locator that
    /// has not the shape of its protocol is a parse error.
    pub fn parse(uri: &str) -> (r: Result<Locator, SaError>)
        ensures
            parsed_view(r) == spec_parse_locator(uri@),
    {
        let t = str_chars(uri);
        let file = str_chars("file://");
        let s3 = str_chars("s3://");
        if chars_have_prefix_at(&t, 0, &file) {
            let p: usize = file.len();
            if p < t.len() && t[p] == '/' {
                let path = String::from_str(uri.substring_char(p, t.len()));
                Ok(Locator::Local { uri: String::from_str(uri), path })
            } else {
                Err(SaError::ParseError)
            }
        } else if chars_have_prefix_at(&t, 0, &s3) {
            match remote_bounds(&t) {
                Some((bucket_end, file_start)) => {
                    let bucket = String::from_str(uri.substring_char(s3.len(), bucket_end));
                    let key_prefix = String::from_str(
                        uri.substring_char(bucket_end + 1, file_start - 1),
                    );
                    let file_name = String::from_str(uri.substring_char(file_start, t.len()));
                    Ok(Locator::Remote { uri: String::from_str(uri), bucket, key_prefix, file_name })
                },
                None => Err(SaError::ParseError),
            }
        } else {
            Err(SaError::UnsupportedProtocol)
        }
    }

    /// The locator as it was written.
    pub fn uri(&self) -> (r: &str)
        ensures
            r@ == match self@ {
                LocatorView::Local { uri, .. } => uri,
                LocatorView::Remote { uri, .. } => uri,
            },
    {
        match self {
            Locator::Local { uri, .. } => uri.as_str(),
            Locator::Remote { uri, .. } => uri.as_str(),
        }
    }

    /// The protocol of the locator.
    pub fn protocol(&self) -> (r: Protocol)
        ensures
            r == match self@ {
                LocatorView::Local { .. } => Protocol::Local,
                LocatorView::Remote { .. } => Protocol::Remote,
            },
    {
        match self {
            Locator::Local { .. } => Protocol::Local,
            Locator::Remote { .. } => Protocol::Remote,
        }
    }

    /// The table name that the locator derives.
    pub fn table_name(&self) -> (r: String)
        ensures
            r@ == spec_table_name(
                match self@ {
                    LocatorView::Local { uri, .. } => uri,
                    LocatorView::Remote { uri, .. } => uri,
                },
            ),
    {
        table_name_of(self.uri())
    }
}

/// The table name under which the source at `uri` is registered: the stem of
/// its file name, or `uri` itself where its path has no file name.
pub fn table_name_of(uri: &str) -> (r: String)
    ensures
        r@ == spec_table_name(uri@),
{
    let t = str_chars(uri);
    let file = str_chars("file://");
    let s3 = str_chars("s3://");
    let start: usize = if chars_have_prefix_at(&t, 0, &file) {
        file.len()
    } else if chars_have_prefix_at(&t, 0, &s3) {
        s3.len()
    } else {
        0
    };
    assert(uri@.subrange(0, uri@.len() as int) =~= uri@);
    match locator_stem(uri.substring_char(start, t.len())) {
        Some(stem) => stem,
        None => String::from_str(uri),
    }
}

} // verus!
