//! The request handlers: upload (raw body and multipart), download,
//! listing, health and the unmatched-route fallback, together with the
//! mapping of write outcomes onto status classes.
//!
//! Each handler takes the request's already-extracted plain values — the
//! optional `filename` query parameter, the buffered body, the multipart
//! fields in stream order — consults the store, and answers with a status
//! and any body and header. Reading those values off the wire is the
//! caller's business; deciding what they mean is decided and verified here.

use vstd::prelude::*;
use vstd::string::StringExecFns;
use crate::response::Status;
use crate::store::Store;

verus! {

/// How a backing write ended: it completed, the destination could not be
/// created, or the destination was created but writing or flushing the
/// bytes then failed.
#[derive(Clone, Copy, Debug, PartialEq, Eq, Structural)]
pub enum WriteOutcome {
    Completed,
    CreateFailed,
    FlushFailed,
}

/// The status an upload answers with for each write outcome: a completed
/// write was `Created`; a destination that could not be created is the
/// client's fault; a write that failed after creation is the server's.
pub open spec fn spec_upload_write_status(o: WriteOutcome) -> Status {
    match o {
        WriteOutcome::Completed => Status::Created,
        WriteOutcome::CreateFailed => Status::BadRequest,
        WriteOutcome::FlushFailed => Status::InternalError,
    }
}

/// Maps a backing write's outcome onto the status the upload answers with.
pub fn upload_write_status(o: WriteOutcome) -> (st: Status)
    ensures
        st == spec_upload_write_status(o),
{
    match o {
        WriteOutcome::Completed => Status::Created,
        WriteOutcome::CreateFailed => Status::BadRequest,
        WriteOutcome::FlushFailed => Status::InternalError,
    }
}

/// One multipart field, already buffered: its form-field name and
/// content type (informational, not persisted), the filename that keys
/// the storage, and the payload bytes.
pub struct MultipartField {
    pub field_name: String,
    pub filename: String,
    pub content_type: String,
    pub bytes: Vec<u8>,
}

/// The download header value for a filename: the raw name interpolated
/// after `attachment; filename=`, unquoted and unescaped. A name holding
/// spaces or quotes therefore yields a malformed header — kept as the
/// service has always behaved.
pub open spec fn spec_disposition_of(f: Seq<char>) -> Seq<char> {
    "attachment; filename="@ + f
}

/// Builds the `Content-Disposition` value for a download of `filename`.
pub fn content_disposition(filename: &String) -> (h: String)
    ensures
        h@ == spec_disposition_of(filename@),
{
    let mut h = String::from_str("attachment; filename=");
    h.append(filename.as_str());
    h
}

/// A successful download: the stored bytes and the header to serve them
/// under.
#[derive(Debug)]
pub struct DownloadReply {
    pub body: Vec<u8>,
    pub content_disposition: String,
}

/// The health probe: always `Okay`, no body, no state touched.
pub fn handle_health() -> (st: Status)
    ensures
        st == Status::Okay,
{
    Status::Okay
}

/// The fallback for a request no route matched: always `NotFound`.
pub fn handle_fallback() -> (st: Status)
    ensures
        st == Status::NotFound,
{
    Status::NotFound
}

/// The raw-body upload: without a `filename` query parameter the request
/// is rejected and the store untouched; with one, the body is stored
/// under it — overwriting any previous bytes — and the answer is
/// `Created`.
pub fn handle_upload_raw(store: &mut Store, filename: Option<String>, body: Vec<u8>) -> (st:
    Status)
    requires
        old(store).wf(),
    ensures
        final(store).wf(),
        match filename {
            Option::None => st == Status::BadRequest && final(store)@ == old(store)@,
            Option::Some(f) => st == Status::Created && final(store)@ == old(store)@.insert(
                f@,
                body@,
            ),
        },
{
    match filename {
        Option::None => Status::BadRequest,
        Option::Some(f) => {
            store.write(f, body);
            Status::Created
        },
    }
}

/// The multipart upload: an empty form is rejected and the store
/// untouched; otherwise exactly the first field is stored — its filename
/// keying its bytes — and every later field is discarded entirely.
pub fn handle_upload_multipart(store: &mut Store, fields: Vec<MultipartField>) -> (st: Status)
    requires
        old(store).wf(),
    ensures
        final(store).wf(),
        fields@.len() == 0 ==> st == Status::BadRequest && final(store)@ == old(store)@,
        fields@.len() > 0 ==> st == Status::Created && final(store)@ == old(store)@.insert(
            fields@[0].filename@,
            fields@[0].bytes@,
        ),
{
    let mut fields = fields;
    if fields.len() == 0 {
        Status::BadRequest
    } else {
        let first = fields.remove(0);
        store.write(first.filename, first.bytes);
        Status::Created
    }
}

/// The download: without a `filename` query parameter the request is
/// rejected; a name the store does not hold is `NotFound`; a held name
/// yields exactly its stored bytes and the content-disposition header
/// built from the raw name.
pub fn handle_download(store: &Store, filename: Option<&String>) -> (r: Result<
    DownloadReply,
    Status,
>)
    requires
        store.wf(),
    ensures
        match filename {
            Option::None => r matches Err(st) && st == Status::BadRequest,
            Option::Some(f) => {
                &&& !store@.contains_key(f@) ==> (r matches Err(st) && st == Status::NotFound)
                &&& store@.contains_key(f@) ==> (r matches Ok(rep) && rep.body@ == store@[f@]
                    && rep.content_disposition@ == spec_disposition_of(f@))
            },
        },
{
    match filename {
        Option::None => Err(Status::BadRequest),
        Option::Some(f) => {
            match store.read(f) {
                Option::None => Err(Status::NotFound),
                Option::Some(body) => Ok(
                    DownloadReply { body, content_disposition: content_disposition(f) },
                ),
            }
        },
    }
}

/// The listing: when the backing root is readable, every stored filename
/// exactly once, in unspecified order; on any enumeration failure an
/// empty listing with success — the one error this service swallows.
pub fn handle_list(store: &Store, root_readable: bool) -> (names: Vec<String>)
    requires
        store.wf(),
    ensures
        !root_readable ==> names@.len() == 0,
        root_readable ==> {
            &&& forall|i: int| 0 <= i < names@.len() ==> store@.contains_key(names@[i]@)
            &&& forall|k: Seq<char>|
                store@.contains_key(k) ==> exists|i: int|
                    0 <= i < names@.len() && names@[i]@ == k
            &&& forall|i: int, j: int| 0 <= i < j < names@.len() ==> names@[i]@ != names@[j]@
        },
{
    if root_readable {
        store.list()
    } else {
        Vec::new()
    }
}

} // verus!
