//! What holds of every request, stated over any filesystem: a filesystem is
//! taken for what it would report of each path.

use crate::handler::{after_metadata, StepView};
use crate::path::resolved;
use crate::response::{failure, plain_text, reply, success, ResponseView};
use crate::status::{Failure, Status};
use std::io::ErrorKind;
use std::path::PathBuf;
use vstd::prelude::*;
use vstd::utf8::{encode_utf8, is_ascii_chars, is_ascii_chars_encode_utf8};

verus! {

/// What a filesystem reports of one path: the outcome of a query for its
/// metadata, which gives the file's length, and the outcome of opening it
/// and reading it to its end.
pub struct Report {
    pub metadata: Result<u64, ErrorKind>,
    pub contents: Result<Seq<u8>, ErrorKind>,
}

/// The response to a request for the file at `path`, of which the filesystem
/// reports `report`: a failed metadata query is answered at once, and only
/// after a successful one does the outcome of reading count.
pub open spec fn served(path: PathBuf, report: Report) -> ResponseView {
    match after_metadata(path, report.metadata) {
        StepView::Reply(response) => response,
        StepView::Read(_) => reply(report.contents),
    }
}

/// The response to a request for `segments` by a handler that serves `root`,
/// on a filesystem that reports `filesystem(p)` of each path `p`.
pub open spec fn page(
    root: PathBuf,
    segments: Seq<Seq<char>>,
    filesystem: spec_fn(PathBuf) -> Report,
) -> ResponseView {
    let path = resolved(root, segments);
    served(path, filesystem(path))
}

/// The kind of the I/O error that ends a request of which the filesystem
/// reports `report`, if one does: that of the metadata query, else that of
/// the read.
pub open spec fn first_error(report: Report) -> Option<ErrorKind> {
    match report.metadata {
        Err(kind) => Some(kind),
        Ok(_) => match report.contents {
            Err(kind) => Some(kind),
            Ok(_) => None,
        },
    }
}

/// Whether the bytes of `needle` occur in `haystack`, side by side and in
/// order.
pub open spec fn occurs_in(needle: Seq<u8>, haystack: Seq<u8>) -> bool {
    exists|at: int|
        0 <= at && at + needle.len() <= haystack.len() && #[trigger] haystack.subrange(
            at,
            at + needle.len(),
        ) == needle
}

/// The text of every status is ASCII, so its UTF-8 encoding has one byte for
/// each character, and it begins with the three decimal digits of the code,
/// followed by a space.
pub proof fn lemma_status_text(status: Status)
    ensures
        is_ascii_chars(status.text()),
        status.text().len() > 4,
        status.text()[0] as int == '0' as int + status.code() / 100,
        status.text()[1] as int == '0' as int + status.code() / 10 % 10,
        status.text()[2] as int == '0' as int + status.code() % 10,
        status.text()[3] == ' ',
        encode_utf8(status.text()).len() == status.text().len(),
        forall|i: int|
            0 <= i < status.text().len() ==> #[trigger] encode_utf8(status.text())[i]
                == status.text()[i] as u8,
{
    reveal_strlit("200 OK");
    reveal_strlit("403 Forbidden");
    reveal_strlit("404 Not Found");
    reveal_strlit("500 Internal Server Error");
    is_ascii_chars_encode_utf8(status.text());
}

/// A file that exists and can be read is served with status 200, as plain
/// text, and the body is the file's bytes, whatever length the metadata
/// gave.
pub proof fn lemma_readable_file_is_served(
    root: PathBuf,
    segments: Seq<Seq<char>>,
    filesystem: spec_fn(PathBuf) -> Report,
    contents: Seq<u8>,
)
    requires
        filesystem(resolved(root, segments)).metadata is Ok,
        filesystem(resolved(root, segments)).contents == Ok::<Seq<u8>, ErrorKind>(contents),
    ensures
        page(root, segments, filesystem) == success(contents),
        page(root, segments, filesystem).status.code() == 200,
        page(root, segments, filesystem).body == contents,
{
}

/// A request that meets an I/O error, at the metadata query or at the read,
/// is answered with the report of that failure: the status that stands for
/// it, and that status's text as the body.
pub proof fn lemma_failure_is_reported(
    root: PathBuf,
    segments: Seq<Seq<char>>,
    filesystem: spec_fn(PathBuf) -> Report,
    kind: ErrorKind,
)
    requires
        first_error(filesystem(resolved(root, segments))) == Some(kind),
    ensures
        page(root, segments, filesystem) == failure(Failure::classify(kind)),
        page(root, segments, filesystem).status.code() == (match kind {
            ErrorKind::NotFound => 404u16,
            ErrorKind::PermissionDenied => 403u16,
            _ => 500u16,
        }),
{
}

/// A request for a path at which nothing exists is answered with status 404,
/// as plain text, and the body holds "404": it is "404 Not Found".
pub proof fn lemma_missing_file_is_not_found(
    root: PathBuf,
    segments: Seq<Seq<char>>,
    filesystem: spec_fn(PathBuf) -> Report,
)
    requires
        first_error(filesystem(resolved(root, segments))) == Some(ErrorKind::NotFound),
    ensures
        page(root, segments, filesystem).status == Status::NotFound,
        page(root, segments, filesystem).status.code() == 404,
        page(root, segments, filesystem).content_type == plain_text(),
        page(root, segments, filesystem).body == encode_utf8("404 Not Found"@),
        occurs_in(seq![0x34u8, 0x30u8, 0x34u8], page(root, segments, filesystem).body),
{
    let body = page(root, segments, filesystem).body;
    lemma_status_text(Status::NotFound);
    assert(body.subrange(0, 0 + 3int) =~= seq![0x34u8, 0x30u8, 0x34u8]);
}

/// A request for a file that the process may not read is answered with
/// status 403.
pub proof fn lemma_unreadable_file_is_forbidden(
    root: PathBuf,
    segments: Seq<Seq<char>>,
    filesystem: spec_fn(PathBuf) -> Report,
)
    requires
        first_error(filesystem(resolved(root, segments))) == Some(ErrorKind::PermissionDenied),
    ensures
        page(root, segments, filesystem).status == Status::Forbidden,
        page(root, segments, filesystem).status.code() == 403,
        page(root, segments, filesystem).body == encode_utf8("403 Forbidden"@),
{
}

/// After a successful metadata query the same path is to be read, and a
/// length that fits the machine's word is handed on unchanged as the hint
/// for the buffer.
pub proof fn lemma_length_is_capacity(path: PathBuf, len: u64)
    requires
        len <= usize::MAX,
    ensures
        after_metadata(path, Ok(len)) matches StepView::Read(read) && read.path == path
            && read.capacity == len,
{
}

/// A request without segments stands for the root itself, and is answered
/// as any request is whose path resolves to that directory: by what the
/// filesystem reports of it.
pub proof fn lemma_root_request(
    root: PathBuf,
    filesystem: spec_fn(PathBuf) -> Report,
    other_root: PathBuf,
    segments: Seq<Seq<char>>,
)
    requires
        resolved(other_root, segments) == root,
    ensures
        resolved(root, Seq::<Seq<char>>::empty()) == root,
        page(root, Seq::<Seq<char>>::empty(), filesystem) == served(root, filesystem(root)),
        page(other_root, segments, filesystem) == page(root, Seq::<Seq<char>>::empty(), filesystem),
{
}

/// The response to a request depends on the filesystem only through what it
/// reports of the resolved path, and of that only through the error, if
/// there is one, or else the bytes read. Two requests for the same segments
/// get the same response if the filesystem reports the same of that path
/// both times, whatever it reports of other paths.
pub proof fn lemma_same_report_same_response(
    root: PathBuf,
    segments: Seq<Seq<char>>,
    first: spec_fn(PathBuf) -> Report,
    second: spec_fn(PathBuf) -> Report,
)
    requires
        first_error(first(resolved(root, segments))) == first_error(
            second(resolved(root, segments)),
        ),
        first_error(first(resolved(root, segments))) is None ==> first(
            resolved(root, segments),
        ).contents == second(resolved(root, segments)).contents,
    ensures
        page(root, segments, first) == page(root, segments, second),
{
}

/// Every response has one of the statuses 200, 403, 404 and 500, and is
/// plain text.
pub proof fn lemma_response_shape(
    root: PathBuf,
    segments: Seq<Seq<char>>,
    filesystem: spec_fn(PathBuf) -> Report,
)
    ensures
        page(root, segments, filesystem).content_type == plain_text(),
        ({
            let code = page(root, segments, filesystem).status.code();
            code == 200 || code == 403 || code == 404 || code == 500
        }),
        page(root, segments, filesystem).status == Status::Success <==> first_error(
            filesystem(resolved(root, segments)),
        ) is None,
{
}

} // verus!
