use vstd::prelude::*;
use vstd::string::StringSliceAdditionalSpecFns;

verus! {

/// The state the file server carries: the directory being served. The
/// server's networking runs in the surrounding binary; the decisions on
/// how to answer a request live here.
#[derive(Debug)]
pub struct HttpServeState {
    pub dir: String,
}

/// Whether `prefix` is an initial run of `hay`.
pub open spec fn spec_starts_with(hay: Seq<u8>, prefix: Seq<u8>) -> bool {
    hay.len() >= prefix.len() && hay.subrange(0, prefix.len() as int) == prefix
}

/// Whether `needle` occurs as a contiguous run inside `hay`.
pub open spec fn spec_contains_seq(hay: Seq<u8>, needle: Seq<u8>) -> bool {
    exists|i: int|
        0 <= i <= hay.len() - needle.len() && #[trigger] hay.subrange(i, i + needle.len() as int)
            == needle
}

/// Whether `prefix` is an initial run of `hay`.
pub fn bytes_starts_with(hay: &[u8], prefix: &[u8]) -> (r: bool)
    ensures
        r == spec_starts_with(hay@, prefix@),
{
    let n = prefix.len();
    if hay.len() < n {
        return false;
    }
    let mut i: usize = 0;
    while i < n
        invariant
            n == prefix@.len(),
            hay@.len() >= n,
            i <= n,
            forall|j: int| 0 <= j < i ==> hay@[j] == prefix@[j],
        decreases n - i,
    {
        if hay[i] != prefix[i] {
            proof {
                assert(hay@.subrange(0, n as int)[i as int] != prefix@[i as int]);
            }
            return false;
        }
        i = i + 1;
    }
    proof {
        assert(hay@.subrange(0, n as int) =~= prefix@);
    }
    true
}

/// Whether `needle` occurs as a contiguous run inside `hay`.
pub fn bytes_contains_seq(hay: &[u8], needle: &[u8]) -> (r: bool)
    ensures
        r == spec_contains_seq(hay@, needle@),
{
    let n = needle.len();
    let m = hay.len();
    if n > m {
        return false;
    }
    let mut start: usize = 0;
    while start <= m - n
        invariant
            n == needle@.len(),
            m == hay@.len(),
            n <= m,
            start <= m - n + 1,
            forall|i: int|
                0 <= i < start ==> #[trigger] hay@.subrange(i, i + needle@.len() as int)
                    != needle@,
        decreases m - n + 1 - start,
    {
        let mut i: usize = 0;
        let mut matched = true;
        while i < n
            invariant
                n == needle@.len(),
                m == hay@.len(),
                n <= m,
                start <= m - n,
                i <= n,
                matched <==> (forall|j: int|
                    0 <= j < i ==> hay@[start + j] == needle@[j]),
            decreases n - i,
        {
            if hay[start + i] != needle[i] {
                matched = false;
                proof {
                    assert(hay@[start + i as int] != needle@[i as int]);
                }
                i = n;
            } else {
                i = i + 1;
            }
        }
        if matched {
            proof {
                assert(hay@.subrange(start as int, start + needle@.len() as int) =~= needle@);
            }
            return true;
        }
        proof {
            assert(hay@.subrange(start as int, start + needle@.len() as int) != needle@) by {
                assert(exists|j: int| 0 <= j < n && hay@[start + j] != needle@[j]);
                let j = choose|j: int| 0 <= j < n && hay@[start + j] != needle@[j];
                assert(hay@.subrange(start as int, start + needle@.len() as int)[j] == hay@[start
                    + j]);
            }
        }
        start = start + 1;
    }
    false
}

/// Whether the guessed media type names content the server should hand
/// out as opaque bytes: everything but `text/...` types and types whose
/// name mentions `json` or `xml`.
pub open spec fn spec_is_likely_binary(mime: Seq<u8>) -> bool {
    &&& !spec_starts_with(mime, "text/".spec_bytes())
    &&& !spec_contains_seq(mime, "json".spec_bytes())
    &&& !spec_contains_seq(mime, "xml".spec_bytes())
}

/// Whether the guessed media type names content the server should hand
/// out as opaque bytes.
pub fn is_likely_binary(mime: &str) -> (r: bool)
    ensures
        r == spec_is_likely_binary(mime.spec_bytes()),
{
    let bytes = mime.as_bytes();
    !bytes_starts_with(bytes, "text/".as_bytes()) && !bytes_contains_seq(bytes, "json".as_bytes())
        && !bytes_contains_seq(bytes, "xml".as_bytes())
}

/// How the server answers a request for a path.
#[derive(Debug, Clone, Copy, PartialEq, Eq, Structural)]
pub enum ServeDecision {
    /// The path names nothing: answer not found.
    NotFound,
    /// The path names a directory: answer with a listing.
    Directory,
    /// The path names a file with an opaque media type: answer with raw
    /// bytes.
    BinaryFile,
    /// The path names a file with a textual media type: answer with text.
    TextFile,
    /// The path names something that is neither: report an internal error.
    Internal,
}

/// What the server decides for given file-system findings and media type.
pub open spec fn spec_classify_request(
    exists_on_disk: bool,
    is_dir: bool,
    is_file: bool,
    likely_binary: bool,
) -> ServeDecision {
    if !exists_on_disk {
        ServeDecision::NotFound
    } else if is_dir {
        ServeDecision::Directory
    } else if is_file {
        if likely_binary {
            ServeDecision::BinaryFile
        } else {
            ServeDecision::TextFile
        }
    } else {
        ServeDecision::Internal
    }
}

/// Decides how to answer a request, from what the file system reported
/// about the path and the media type guessed from its name.
pub fn classify_request(exists_on_disk: bool, is_dir: bool, is_file: bool, mime: &str) -> (r:
    ServeDecision)
    ensures
        r == spec_classify_request(
            exists_on_disk,
            is_dir,
            is_file,
            spec_is_likely_binary(mime.spec_bytes()),
        ),
{
    if !exists_on_disk {
        ServeDecision::NotFound
    } else if is_dir {
        ServeDecision::Directory
    } else if is_file {
        if is_likely_binary(mime) {
            ServeDecision::BinaryFile
        } else {
            ServeDecision::TextFile
        }
    } else {
        ServeDecision::Internal
    }
}

} // verus!
