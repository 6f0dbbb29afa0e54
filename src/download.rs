//! Downloads: the suggested file name, the attachment header and the reply.
use vstd::prelude::*;
use crate::path::last_sep;
use crate::text::{chars_of, string_from, string_of_range};
use vstd::string::StrSliceExecFns;

verus! {

/// The name suggested for a download whose path has an empty last segment.
pub open spec fn default_name() -> Seq<char> {
    seq!['d', 'o', 'w', 'n', 'l', 'o', 'a', 'd']
}

/// The last segment of `path`, after its last separator, or the default name
/// where that segment is empty.
pub open spec fn download_name(path: Seq<char>) -> Seq<char> {
    let seg = path.subrange(last_sep(path) + 1, path.len() as int);
    if seg.len() == 0 {
        default_name()
    } else {
        seg
    }
}

/// The name under which the file at `path` is offered for saving.
pub fn suggested_name(path: &str) -> (r: String)
    ensures
        r@ == download_name(path@),
{
    let v = chars_of(path);
    let mut j: usize = v.len();
    assert(v@.take(j as int) =~= v@);
    while j > 0 && v[j - 1] != '/'
        invariant
            j <= v.len(),
            v@ == path@,
            last_sep(v@) == last_sep(v@.take(j as int)),
        decreases j,
    {
        assert(v@.take(j as int).drop_last() =~= v@.take(j - 1));
        j = j - 1;
    }
    if j == 0 {
        assert(v@.take(0) =~= Seq::<char>::empty());
    }
    if j == v.len() {
        let d = vec!['d', 'o', 'w', 'n', 'l', 'o', 'a', 'd'];
        assert(d@ =~= default_name());
        string_from(&d)
    } else {
        string_of_range(&v, j, v.len())
    }
}

/// `s` as the inside of a quoted string of an HTTP header: quotes and
/// backslashes get a backslash before them.
pub open spec fn quoted_text(s: Seq<char>) -> Seq<char>
    decreases s.len(),
{
    if s.len() == 0 {
        Seq::empty()
    } else if s.last() == '"' || s.last() == '\\' {
        quoted_text(s.drop_last()) + seq!['\\', s.last()]
    } else {
        quoted_text(s.drop_last()).push(s.last())
    }
}

/// The `Content-Disposition` value that offers a file for saving under `name`.
pub open spec fn disposition_of(name: Seq<char>) -> Seq<char> {
    seq!['a', 't', 't', 'a', 'c', 'h', 'm', 'e', 'n', 't', ';', ' ', 'f', 'i', 'l', 'e', 'n', 'a', 'm', 'e', '=', '"']
        + quoted_text(name) + seq!['"']
}

/// The `Content-Disposition` header value for a file saved under `name`.
pub fn content_disposition(name: &str) -> (r: String)
    ensures
        r@ == disposition_of(name@),
{
    let v = chars_of(name);
    let mut out: Vec<char> = vec!['a', 't', 't', 'a', 'c', 'h', 'm', 'e', 'n', 't', ';', ' ', 'f', 'i', 'l', 'e', 'n', 'a', 'm', 'e', '=', '"'];
    let ghost head = out@;
    let mut i: usize = 0;
    while i < v.len()
        invariant
            i <= v.len(),
            v@ == name@,
            out@ == head + quoted_text(v@.take(i as int)),
        decreases v.len() - i,
    {
        let c = v[i];
        assert(v@.take(i + 1).drop_last() =~= v@.take(i as int));
        if c == '"' || c == '\\' {
            out.push('\\');
        }
        out.push(c);
        assert(out@ =~= head + quoted_text(v@.take(i + 1)));
        i = i + 1;
    }
    assert(v@.take(v.len() as int) =~= v@);
    out.push('"');
    string_from(&out)
}

/// The status of a successful download.
pub const STATUS_OK: u16 = 200;

/// The status of a download whose retrieval failed.
pub const STATUS_FAILED: u16 = 500;

/// The answer to a download request.
pub struct DownloadReply {
    pub status: u16,
    /// The `Content-Disposition` value, on success only.
    pub disposition: Option<String>,
    pub body: Vec<u8>,
}

/// The answer to a download of `path` once the retrieval has given `fetched`:
/// the whole content as an attachment named after the path's last segment,
/// or a failed status with the error's text, never partial content.
pub fn download_reply(path: &str, fetched: Result<Vec<u8>, String>) -> (r: DownloadReply)
    ensures
        match fetched {
            Ok(bytes) => {
                &&& r.status == STATUS_OK
                &&& r.body@ == bytes@
                &&& r.disposition is Some
                &&& r.disposition->0@ == disposition_of(download_name(path@))
            },
            Err(e) => r.status == STATUS_FAILED && r.disposition is None && r.body@
                == vstd::utf8::encode_utf8(e@),
        },
{
    match fetched {
        Ok(bytes) => {
            let name = suggested_name(path);
            DownloadReply {
                status: STATUS_OK,
                disposition: Some(content_disposition(name.as_str())),
                body: bytes,
            }
        },
        Err(e) => DownloadReply {
            status: STATUS_FAILED,
            disposition: None,
            body: e.as_str().as_bytes_vec(),
        },
    }
}

} // verus!
