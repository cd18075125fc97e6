//! Serving the bundled frontend: from a request path to the file to send.
use vstd::prelude::*;

verus! {

/// The bundled files: each name, as UTF-8 bytes without a leading `/`, with
/// its content. Names are unique.
pub type FrontendFiles = Vec<(Vec<u8>, Vec<u8>)>;

/// The file served for the root path.
pub open spec fn index_name() -> Seq<u8> {
    seq![105u8, 110u8, 100u8, 101u8, 120u8, 46u8, 104u8, 116u8, 109u8, 108u8]
}

/// What the request path `path` decodes to: each `%` with two hex digits
/// replaced by the byte they spell; nothing when the result is not UTF-8.
pub uninterp spec fn percent_decoded(path: Seq<char>) -> Option<Seq<u8>>;

/// Relies on percent_encoding::percent_decode_str and
/// PercentDecode::decode_utf8 to decode a request path.
#[verifier::external_body]
fn decode_path(path: &str) -> (r: Option<Vec<u8>>)
    ensures
        r matches Some(v) ==> percent_decoded(path@) == Some(v@),
        r is None <==> percent_decoded(path@) is None,
{
    percent_encoding::percent_decode_str(path).decode_utf8().ok().map(|s| s.as_bytes().to_vec())
}

/// The name a decoded path asks for: the path without one leading `/`, and
/// `index.html` when nothing is left.
pub open spec fn requested_name(decoded: Seq<u8>) -> Seq<u8> {
    let rest = if decoded.len() > 0 && decoded[0] == 47u8 {
        decoded.drop_first()
    } else {
        decoded
    };
    if rest.len() == 0 {
        index_name()
    } else {
        rest
    }
}

/// The position of the first file named `name`, if any.
pub open spec fn position_of(files: Seq<(Vec<u8>, Vec<u8>)>, name: Seq<u8>) -> Option<int> {
    if exists|i: int| 0 <= i < files.len() && (#[trigger] files[i]).0@ == name {
        let i = choose|i: int|
            0 <= i < files.len() && (#[trigger] files[i]).0@ == name && forall|j: int|
                0 <= j < i ==> (#[trigger] files[j]).0@ != name;
        Some(i)
    } else {
        None
    }
}

/// Why a file cannot be served.
#[derive(Clone, Copy, Debug, PartialEq, Eq, Structural)]
pub enum FrontendFilesServiceError {
    NotFound,
}

impl FrontendFilesServiceError {
    /// The HTTP status code of the failure.
    pub fn status_code(&self) -> (r: u16)
        ensures
            r == 404,
    {
        match self {
            FrontendFilesServiceError::NotFound => 404,
        }
    }
}

/// The service that hands out the bundled frontend files.
#[derive(Clone, Copy, Debug)]
pub struct Service;

fn bytes_equal(a: &Vec<u8>, b: &Vec<u8>) -> (r: bool)
    ensures
        r == (a@ == b@),
{
    if a.len() != b.len() {
        return false;
    }
    let mut i: usize = 0;
    while i < a.len()
        invariant
            i <= a@.len(),
            a@.len() == b@.len(),
            forall|j: int| 0 <= j < i ==> a@[j] == b@[j],
        decreases a@.len() - i,
    {
        if a[i] != b[i] {
            return false;
        }
        i = i + 1;
    }
    assert(a@ =~= b@);
    true
}

impl Service {
    /// The name that a decoded request path asks for.
    pub fn file_name(decoded: &Vec<u8>) -> (r: Vec<u8>)
        ensures
            r@ == requested_name(decoded@),
    {
        let mut rest: Vec<u8> = Vec::new();
        let start: usize = if decoded.len() > 0 && decoded[0] == 47u8 { 1 } else { 0 };
        let mut i: usize = start;
        while i < decoded.len()
            invariant
                start <= i <= decoded@.len(),
                rest@ == decoded@.subrange(start as int, i as int),
            decreases decoded@.len() - i,
        {
            rest.push(decoded[i]);
            i = i + 1;
            assert(rest@ =~= decoded@.subrange(start as int, i as int));
        }
        assert(decoded@.drop_first() =~= decoded@.subrange(1, decoded@.len() as int));
        assert(decoded@ =~= decoded@.subrange(0, decoded@.len() as int));
        if rest.len() == 0 {
            let r: Vec<u8> = vec![105u8, 110u8, 100u8, 101u8, 120u8, 46u8, 104u8, 116u8, 109u8, 108u8];
            assert(r@ =~= index_name());
            r
        } else {
            rest
        }
    }

    /// The position in `files` of the file that a decoded request path asks
    /// for, or `NotFound`.
    pub fn lookup(files: &FrontendFiles, decoded: &Vec<u8>) -> (r: Result<usize, FrontendFilesServiceError>)
        ensures
            r matches Ok(i) ==> position_of(files@, requested_name(decoded@)) == Some(i as int),
            r is Err <==> position_of(files@, requested_name(decoded@)) is None,
    {
        let name = Service::file_name(decoded);
        let mut i: usize = 0;
        while i < files.len()
            invariant
                i <= files@.len(),
                name@ == requested_name(decoded@),
                forall|j: int| 0 <= j < i ==> (#[trigger] files@[j]).0@ != name@,
            decreases files@.len() - i,
        {
            if bytes_equal(&files[i].0, &name) {
                assert(files@[i as int].0@ == name@);
                let ghost p = position_of(files@, name@);
                assert(p == Some(i as int)) by {
                    let k = choose|k: int|
                        0 <= k < files@.len() && (#[trigger] files@[k]).0@ == name@ && forall|j: int|
                            0 <= j < k ==> (#[trigger] files@[j]).0@ != name@;
                    assert(0 <= k < files@.len() && files@[k].0@ == name@ && forall|j: int|
                        0 <= j < k ==> (#[trigger] files@[j]).0@ != name@);
                    if k < i {
                    } else if k > i {
                        assert(files@[i as int].0@ != name@);
                    }
                }
                return Ok(i);
            }
            i = i + 1;
        }
        Err(FrontendFilesServiceError::NotFound)
    }

    /// The position in `files` of the file that the request path `path`
    /// asks for, after percent-decoding; `NotFound` when the path does not
    /// decode to UTF-8 or names no file.
    pub fn serve_static_file(files: &FrontendFiles, path: &str) -> (r: Result<usize, FrontendFilesServiceError>)
        ensures
            r matches Ok(i) ==> percent_decoded(path@) matches Some(d) && position_of(files@, requested_name(d))
                == Some(i as int),
            r is Err <==> (percent_decoded(path@) matches Some(d) ==> position_of(files@, requested_name(d))
                is None),
    {
        match decode_path(path) {
            Some(decoded) => Service::lookup(files, &decoded),
            None => Err(FrontendFilesServiceError::NotFound),
        }
    }
}

} // verus!
