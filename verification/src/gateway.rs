//! The decisions behind the five operations of the gateway.
//!
//! The gateway never touches storage itself. Each operation is a function from
//! what is known so far to the next step: either a reply, or one action on the
//! storage backend whose result the caller hands back in the next call.
//!
//! The two kinds of backend differ in one place on purpose. A filesystem serves
//! an object itself, so a download first finds out whether the object is there.
//! An object store hands out a signed address and leaves existence to the
//! moment the address is used; it also has no directories, so deleting a whole
//! namespace needs no look first.

use crate::errors::Response;
use crate::names::{is_name_char, is_valid_name, valid_filename};
use crate::principal::Principal;
use crate::quota::{exceeded, has_exceeded_limit, quota_status, QuotaStatus};
use vstd::prelude::*;
use vstd::string::*;

verus! {

/// The root under which every namespace lies.
pub open spec fn storage_root() -> Seq<char> {
    "./files/"@
}

/// The namespace of a subject: the root followed by the subject.
pub open spec fn namespace_of(subject: Seq<char>) -> Seq<char> {
    storage_root() + subject
}

/// The path of an object: its owner's namespace, a separator and the name.
pub open spec fn object_path(subject: Seq<char>, name: Seq<char>) -> Seq<char> {
    namespace_of(subject) + seq!['/'] + name
}

/// The kind of storage behind the gateway.
#[derive(Clone, Copy, Debug, PartialEq, Eq, Structural)]
pub enum Backend {
    /// Objects are files below the root, one directory for each namespace.
    LocalFilesystem,
    /// Objects are entries of a bucket, found by prefix and reached by a
    /// signed address.
    ObjectStore,
}

/// The final answer to a request.
#[derive(Clone, Copy, Debug, PartialEq, Eq, Structural)]
pub enum Reply {
    Uploaded,
    DeleteSuccess,
    DeleteAllSuccess,
    InvalidFilename,
    ExceededLimit,
    /// A download of an object that is not there.
    FileNotFound,
    /// A delete of an object that is not there.
    NothingToDelete,
    /// The backend failed while writing.
    UploadFailed,
    /// The backend failed while deleting one object.
    DeleteFailed,
    /// The backend failed part way through deleting a namespace.
    PartialBulkDelete,
}

impl Reply {
    pub open spec fn status_spec(self) -> u16 {
        match self {
            Reply::Uploaded | Reply::DeleteSuccess | Reply::DeleteAllSuccess => 200,
            Reply::InvalidFilename | Reply::ExceededLimit | Reply::NothingToDelete => 400,
            Reply::FileNotFound => 404,
            Reply::UploadFailed | Reply::DeleteFailed | Reply::PartialBulkDelete => 500,
        }
    }

    pub open spec fn body_spec(self) -> Seq<char> {
        match self {
            Reply::Uploaded => "Uploaded"@,
            Reply::DeleteSuccess => "DeleteSuccess"@,
            Reply::DeleteAllSuccess => "DeleteAllSuccess"@,
            Reply::InvalidFilename => "InvalidFilename"@,
            Reply::ExceededLimit => "ExceededLimit"@,
            Reply::FileNotFound | Reply::NothingToDelete => "FileDoesntExist"@,
            Reply::UploadFailed => "Could not store file"@,
            Reply::DeleteFailed => "Could not delete file"@,
            Reply::PartialBulkDelete => "Could not delete all files"@,
        }
    }

    /// The status of this reply.
    pub fn status_code(&self) -> (status: u16)
        ensures
            status == self.status_spec(),
    {
        match self {
            Reply::Uploaded | Reply::DeleteSuccess | Reply::DeleteAllSuccess => 200,
            Reply::InvalidFilename | Reply::ExceededLimit | Reply::NothingToDelete => 400,
            Reply::FileNotFound => 404,
            Reply::UploadFailed | Reply::DeleteFailed | Reply::PartialBulkDelete => 500,
        }
    }

    /// The status and body of this reply.
    pub fn response(&self) -> (response: Response)
        ensures
            response.status == self.status_spec(),
            response.body@ == self.body_spec(),
    {
        let body = match self {
            Reply::Uploaded => String::from_str("Uploaded"),
            Reply::DeleteSuccess => String::from_str("DeleteSuccess"),
            Reply::DeleteAllSuccess => String::from_str("DeleteAllSuccess"),
            Reply::InvalidFilename => String::from_str("InvalidFilename"),
            Reply::ExceededLimit => String::from_str("ExceededLimit"),
            Reply::FileNotFound | Reply::NothingToDelete => String::from_str("FileDoesntExist"),
            Reply::UploadFailed => String::from_str("Could not store file"),
            Reply::DeleteFailed => String::from_str("Could not delete file"),
            Reply::PartialBulkDelete => String::from_str("Could not delete all files"),
        };
        Response { status: self.status_code(), body }
    }
}

/// What the caller is to do next.
#[derive(Debug, PartialEq, Eq)]
pub enum Step {
    /// Answer the request.
    Reply(Reply),
    /// Make sure the namespace exists, then count the objects in it.
    Count(String),
    /// Store the request's bytes at this path.
    Write(String),
    /// Find out whether anything exists at this path.
    Probe(String),
    /// Hand out the object at this path.
    Serve(String),
    /// Hand out a short-lived signed address for this path.
    Presign(String),
    /// Remove the object at this path.
    Remove(String),
    /// Remove the namespace at this path with all that it holds.
    RemoveAll(String),
}

/// A step with its paths as sequences of characters.
pub enum StepView {
    Reply(Reply),
    Count(Seq<char>),
    Write(Seq<char>),
    Probe(Seq<char>),
    Serve(Seq<char>),
    Presign(Seq<char>),
    Remove(Seq<char>),
    RemoveAll(Seq<char>),
}

impl View for Step {
    type V = StepView;

    open spec fn view(&self) -> StepView {
        match self {
            Step::Reply(r) => StepView::Reply(*r),
            Step::Count(p) => StepView::Count(p@),
            Step::Write(p) => StepView::Write(p@),
            Step::Probe(p) => StepView::Probe(p@),
            Step::Serve(p) => StepView::Serve(p@),
            Step::Presign(p) => StepView::Presign(p@),
            Step::Remove(p) => StepView::Remove(p@),
            Step::RemoveAll(p) => StepView::RemoveAll(p@),
        }
    }
}

/// How far an upload has come.
#[derive(Clone, Copy, Debug, PartialEq, Eq, Structural)]
pub enum UploadProgress {
    /// Nothing has been done yet.
    Requested,
    /// The namespace holds this many objects.
    Counted(usize),
    /// The write ended, well or not.
    Written(bool),
}

/// How far a download has come.
#[derive(Clone, Copy, Debug, PartialEq, Eq, Structural)]
pub enum DownloadProgress {
    /// Nothing has been done yet.
    Requested,
    /// The object exists, or does not.
    Probed(bool),
}

/// How far a delete has come.
#[derive(Clone, Copy, Debug, PartialEq, Eq, Structural)]
pub enum DeleteProgress {
    /// Nothing has been done yet.
    Requested,
    /// The target exists, or does not.
    Probed(bool),
    /// The removal ended, well or not.
    Removed(bool),
}

/// What to do next while the objects of a namespace are removed one by one.
#[derive(Clone, Copy, Debug, PartialEq, Eq, Structural)]
pub enum BulkStep {
    /// Remove the object at this position of the listing.
    Remove(usize),
    /// Stop, and answer.
    Done(Reply),
}

/// The next step of removing `total` listed objects one by one, `removed` of
/// which have been dealt with, the last of them well or not. A failure stops
/// the removal at once and is reported; what was removed stays removed.
pub open spec fn bulk_delete_next(total: nat, removed: nat, last_ok: bool) -> BulkStep {
    if !last_ok {
        BulkStep::Done(Reply::PartialBulkDelete)
    } else if removed >= total {
        BulkStep::Done(Reply::DeleteAllSuccess)
    } else {
        BulkStep::Remove(removed as usize)
    }
}

/// The next step of an upload. The name is judged first, whatever the
/// progress; the quota is consulted once the count is known; a write is asked
/// for only below the limit.
pub open spec fn upload_step(
    subject: Seq<char>,
    name: Seq<char>,
    limit: nat,
    progress: UploadProgress,
) -> StepView {
    if !is_valid_name(name) {
        StepView::Reply(Reply::InvalidFilename)
    } else {
        match progress {
            UploadProgress::Requested => StepView::Count(namespace_of(subject)),
            UploadProgress::Counted(used) => if exceeded(used as nat, limit) {
                StepView::Reply(Reply::ExceededLimit)
            } else {
                StepView::Write(object_path(subject, name))
            },
            UploadProgress::Written(true) => StepView::Reply(Reply::Uploaded),
            UploadProgress::Written(false) => StepView::Reply(Reply::UploadFailed),
        }
    }
}

/// The next step of a download. On a filesystem an object is served only
/// after it was found; an object store signs an address without looking.
pub open spec fn download_step(
    backend: Backend,
    subject: Seq<char>,
    name: Seq<char>,
    progress: DownloadProgress,
) -> StepView {
    if !is_valid_name(name) {
        StepView::Reply(Reply::InvalidFilename)
    } else {
        match (backend, progress) {
            (Backend::ObjectStore, _) => StepView::Presign(object_path(subject, name)),
            (Backend::LocalFilesystem, DownloadProgress::Requested) => StepView::Probe(
                object_path(subject, name),
            ),
            (Backend::LocalFilesystem, DownloadProgress::Probed(true)) => StepView::Serve(
                object_path(subject, name),
            ),
            (Backend::LocalFilesystem, DownloadProgress::Probed(false)) => StepView::Reply(
                Reply::FileNotFound,
            ),
        }
    }
}

/// The next step of deleting one object. An object that is not there is
/// reported as such and not as a success.
pub open spec fn delete_one_step(
    subject: Seq<char>,
    name: Seq<char>,
    progress: DeleteProgress,
) -> StepView {
    if !is_valid_name(name) {
        StepView::Reply(Reply::InvalidFilename)
    } else {
        match progress {
            DeleteProgress::Requested => StepView::Probe(object_path(subject, name)),
            DeleteProgress::Probed(true) => StepView::Remove(object_path(subject, name)),
            DeleteProgress::Probed(false) => StepView::Reply(Reply::NothingToDelete),
            DeleteProgress::Removed(true) => StepView::Reply(Reply::DeleteSuccess),
            DeleteProgress::Removed(false) => StepView::Reply(Reply::DeleteFailed),
        }
    }
}

/// The next step of deleting a whole namespace. A namespace that is not there
/// is already empty: that is a success. On a filesystem the namespace is looked
/// for first; in an object store the removal itself lists what there is. A
/// removal that failed part way is reported as such.
pub open spec fn delete_all_step(
    backend: Backend,
    subject: Seq<char>,
    progress: DeleteProgress,
) -> StepView {
    match (backend, progress) {
        (_, DeleteProgress::Removed(true)) => StepView::Reply(Reply::DeleteAllSuccess),
        (_, DeleteProgress::Removed(false)) => StepView::Reply(Reply::PartialBulkDelete),
        (Backend::ObjectStore, _) => StepView::RemoveAll(namespace_of(subject)),
        (Backend::LocalFilesystem, DeleteProgress::Requested) => StepView::Probe(
            namespace_of(subject),
        ),
        (Backend::LocalFilesystem, DeleteProgress::Probed(true)) => StepView::RemoveAll(
            namespace_of(subject),
        ),
        (Backend::LocalFilesystem, DeleteProgress::Probed(false)) => StepView::Reply(
            Reply::DeleteAllSuccess,
        ),
    }
}

/// A write is asked for only after the count is known, only under a valid
/// name and only while the namespace is below the limit: a namespace that has
/// reached its limit is never written to.
pub proof fn law_write_only_below_limit(
    subject: Seq<char>,
    name: Seq<char>,
    limit: nat,
    progress: UploadProgress,
)
    ensures
        upload_step(subject, name, limit, progress) is Write ==> is_valid_name(name) && (
        progress matches UploadProgress::Counted(used) && used < limit),
        progress matches UploadProgress::Counted(used) && used >= limit && is_valid_name(name)
            ==> upload_step(subject, name, limit, progress) == StepView::Reply(
            Reply::ExceededLimit,
        ),
        progress matches UploadProgress::Counted(used) && used < limit && is_valid_name(name)
            ==> upload_step(subject, name, limit, progress) == StepView::Write(
            object_path(subject, name),
        ),
{
}

/// Deleting a namespace that is not there succeeds, so deleting twice in a
/// row succeeds twice. The only failure of a delete-all is a removal that the
/// backend itself failed at.
pub proof fn law_delete_all_is_idempotent(
    backend: Backend,
    subject: Seq<char>,
    progress: DeleteProgress,
)
    ensures
        delete_all_step(Backend::LocalFilesystem, subject, DeleteProgress::Probed(false))
            == StepView::Reply(Reply::DeleteAllSuccess),
        delete_all_step(backend, subject, DeleteProgress::Removed(true)) == StepView::Reply(
            Reply::DeleteAllSuccess,
        ),
        delete_all_step(backend, subject, progress) matches StepView::Reply(reply) ==> reply
            == Reply::DeleteAllSuccess || (reply == Reply::PartialBulkDelete && progress
            == DeleteProgress::Removed(false)),
{
}

/// After a removal that failed nothing more is removed, and an empty listing
/// is removed with success.
pub proof fn law_bulk_delete_stops_at_failure(total: nat, removed: nat)
    ensures
        bulk_delete_next(total, removed, false) == BulkStep::Done(Reply::PartialBulkDelete),
        bulk_delete_next(0, 0, true) == BulkStep::Done(Reply::DeleteAllSuccess),
{
}

/// A filesystem serves nothing that it has not found; an object store never
/// looks.
pub proof fn law_download_by_backend(
    backend: Backend,
    subject: Seq<char>,
    name: Seq<char>,
    progress: DownloadProgress,
)
    ensures
        download_step(backend, subject, name, progress) is Serve ==> backend
            == Backend::LocalFilesystem && progress == DownloadProgress::Probed(true),
        backend == Backend::ObjectStore ==> !(download_step(backend, subject, name, progress)
            is Probe),
        download_step(backend, subject, name, progress) is Presign ==> backend
            == Backend::ObjectStore,
{
}

/// Two objects with valid names share a path only if they have the same owner
/// and the same name: no principal reaches into the namespace of another.
pub proof fn law_namespaces_are_disjoint(
    a: Seq<char>,
    name_a: Seq<char>,
    b: Seq<char>,
    name_b: Seq<char>,
)
    requires
        is_valid_name(name_a),
        is_valid_name(name_b),
        object_path(a, name_a) == object_path(b, name_b),
    ensures
        a == b,
        name_a == name_b,
{
    let root = storage_root();
    let pa = object_path(a, name_a);
    let pb = object_path(b, name_b);
    let r = root.len() as int;
    assert(pa.len() == r + a.len() + 1 + name_a.len());
    assert(pb.len() == r + b.len() + 1 + name_b.len());
    assert(pa[r + a.len()] == '/');
    assert(pb[r + b.len()] == '/');
    if name_a.len() < name_b.len() {
        let k = r + a.len();
        assert(pb[k] == name_b[k - r - b.len() - 1]);
        assert(is_name_char(name_b[k - r - b.len() - 1]));
        assert(false);
    }
    if name_b.len() < name_a.len() {
        let k = r + b.len();
        assert(pa[k] == name_a[k - r - a.len() - 1]);
        assert(is_name_char(name_a[k - r - a.len() - 1]));
        assert(false);
    }
    assert(a.len() == b.len());
    assert forall|i: int| 0 <= i < a.len() implies a[i] == b[i] by {
        assert(pa[r + i] == a[i]);
        assert(pb[r + i] == b[i]);
    }
    assert(a =~= b);
    assert forall|i: int| 0 <= i < name_a.len() implies name_a[i] == name_b[i] by {
        assert(pa[r + a.len() + 1 + i] == name_a[i]);
        assert(pb[r + b.len() + 1 + i] == name_b[i]);
    }
    assert(name_a =~= name_b);
}

/// The namespace of `subject` as a path.
pub fn namespace_path(subject: &str) -> (path: String)
    ensures
        path@ == namespace_of(subject@),
{
    String::from_str("./files/").concat(subject)
}

/// The path of the object `name` in the namespace of `subject`.
pub fn path_of(subject: &str, name: &str) -> (path: String)
    ensures
        path@ == object_path(subject@, name@),
{
    proof {
        reveal_strlit("/");
        assert("/"@ =~= seq!['/']);
    }
    namespace_path(subject).concat("/").concat(name)
}

/// Decides how a one-by-one removal of `total` listed objects goes on after
/// `removed` of them, the last of which ended as `last_ok` says. Before the
/// first removal `removed` is 0 and `last_ok` is true.
pub fn bulk_delete_step(total: usize, removed: usize, last_ok: bool) -> (step: BulkStep)
    ensures
        step == bulk_delete_next(total as nat, removed as nat, last_ok),
{
    if !last_ok {
        BulkStep::Done(Reply::PartialBulkDelete)
    } else if removed >= total {
        BulkStep::Done(Reply::DeleteAllSuccess)
    } else {
        BulkStep::Remove(removed)
    }
}

/// The gateway: the configured limit, the kind of backend, and the five
/// operations.
#[derive(Clone, Copy, Debug)]
pub struct Gateway {
    pub limit: usize,
    pub backend: Backend,
}

impl Gateway {
    /// A gateway over `backend` that lets each principal hold up to `limit`
    /// objects.
    pub fn new(limit: usize, backend: Backend) -> (gateway: Gateway)
        ensures
            gateway.limit == limit,
            gateway.backend == backend,
    {
        Gateway { limit, backend }
    }

    /// The quota status of a principal whose namespace holds `used` objects.
    pub fn get_quota_status(&self, used: usize) -> (status: QuotaStatus)
        ensures
            status == (QuotaStatus { used, limit: self.limit }),
    {
        quota_status(used, self.limit)
    }

    /// The next step of an upload of `name` by `principal`.
    pub fn request_upload(&self, principal: &Principal, name: &str, progress: UploadProgress) -> (step: Step)
        requires
            principal.wf(),
        ensures
            step@ == upload_step(principal.subject@, name@, self.limit as nat, progress),
    {
        if !valid_filename(name) {
            return Step::Reply(Reply::InvalidFilename);
        }
        match progress {
            UploadProgress::Requested => Step::Count(namespace_path(principal.subject.as_str())),
            UploadProgress::Counted(used) => {
                if has_exceeded_limit(used, self.limit) {
                    Step::Reply(Reply::ExceededLimit)
                } else {
                    Step::Write(path_of(principal.subject.as_str(), name))
                }
            },
            UploadProgress::Written(done) => {
                if done {
                    Step::Reply(Reply::Uploaded)
                } else {
                    Step::Reply(Reply::UploadFailed)
                }
            },
        }
    }

    /// The next step of a download of `name` by `principal`.
    pub fn request_download(&self, principal: &Principal, name: &str, progress: DownloadProgress) -> (step: Step)
        requires
            principal.wf(),
        ensures
            step@ == download_step(self.backend, principal.subject@, name@, progress),
    {
        if !valid_filename(name) {
            return Step::Reply(Reply::InvalidFilename);
        }
        if let Backend::ObjectStore = self.backend {
            return Step::Presign(path_of(principal.subject.as_str(), name));
        }
        match progress {
            DownloadProgress::Requested => Step::Probe(path_of(principal.subject.as_str(), name)),
            DownloadProgress::Probed(found) => {
                if found {
                    Step::Serve(path_of(principal.subject.as_str(), name))
                } else {
                    Step::Reply(Reply::FileNotFound)
                }
            },
        }
    }

    /// The next step of deleting the object `name` of `principal`.
    pub fn delete_one(&self, principal: &Principal, name: &str, progress: DeleteProgress) -> (step: Step)
        requires
            principal.wf(),
        ensures
            step@ == delete_one_step(principal.subject@, name@, progress),
    {
        if !valid_filename(name) {
            return Step::Reply(Reply::InvalidFilename);
        }
        match progress {
            DeleteProgress::Requested => Step::Probe(path_of(principal.subject.as_str(), name)),
            DeleteProgress::Probed(found) => {
                if found {
                    Step::Remove(path_of(principal.subject.as_str(), name))
                } else {
                    Step::Reply(Reply::NothingToDelete)
                }
            },
            DeleteProgress::Removed(done) => {
                if done {
                    Step::Reply(Reply::DeleteSuccess)
                } else {
                    Step::Reply(Reply::DeleteFailed)
                }
            },
        }
    }

    /// The next step of deleting every object of `principal`.
    pub fn delete_all(&self, principal: &Principal, progress: DeleteProgress) -> (step: Step)
        requires
            principal.wf(),
        ensures
            step@ == delete_all_step(self.backend, principal.subject@, progress),
    {
        match progress {
            DeleteProgress::Requested => {
                if let Backend::ObjectStore = self.backend {
                    Step::RemoveAll(namespace_path(principal.subject.as_str()))
                } else {
                    Step::Probe(namespace_path(principal.subject.as_str()))
                }
            },
            DeleteProgress::Probed(found) => {
                if let Backend::ObjectStore = self.backend {
                    Step::RemoveAll(namespace_path(principal.subject.as_str()))
                } else if found {
                    Step::RemoveAll(namespace_path(principal.subject.as_str()))
                } else {
                    Step::Reply(Reply::DeleteAllSuccess)
                }
            },
            DeleteProgress::Removed(done) => {
                if done {
                    Step::Reply(Reply::DeleteAllSuccess)
                } else {
                    Step::Reply(Reply::PartialBulkDelete)
                }
            },
        }
    }
}

} // verus!
