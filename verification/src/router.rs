//! The log router: stamps an accepted payload with its sender, resolves the
//! sender's append target — lazily creating and caching it on first use, one
//! target per identity, never evicted — and returns the append for the
//! storage substrate to perform. A malformed payload is a hard error and
//! leaves the state untouched.

use vstd::prelude::*;
use crate::errors::HandleError;
use crate::identity::{pkg_dir_text, source_text, SenderIdentity, SenderIdentityView};
use crate::state::{
    has_target, lemma_target_at, target_of, LogTarget, LogTargetView, State, StateView,
};

verus! {

/// The bytes that result from parsing a log payload as a key/value record,
/// overwriting its `source` field with the given text, and re-serializing;
/// `None` when the payload is not such a record.
pub uninterp spec fn stamped_record(payload: Seq<u8>, source: Seq<char>) -> Option<Seq<u8>>;

/// Relies on serde_json::from_slice, serde_json::Map::insert and
/// serde_json::to_vec: parses the payload as a JSON document, overwrites the
/// `source` field of the top-level object with the source text, and
/// re-serializes. The result depends on the payload bytes and the source
/// text alone; a payload that does not parse, or whose top level is not an
/// object, yields `None`.
#[verifier::external_body]
fn stamp_source(payload: &[u8], source: &str) -> (r: Option<Vec<u8>>)
    ensures
        r is Some <==> stamped_record(payload@, source@) is Some,
        r is Some ==> r.unwrap()@ == stamped_record(payload@, source@).unwrap(),
{
    let mut doc: serde_json::Value = match serde_json::from_slice(payload) {
        Ok(doc) => doc,
        Err(_) => return None,
    };
    let obj = doc.as_object_mut()?;
    obj.insert("source".to_string(), serde_json::Value::String(source.to_string()));
    serde_json::to_vec(&doc).ok()
}

/// Mathematical image of a `LoggingRequest`.
pub enum LoggingRequestView {
    Log(Seq<u8>),
}

/// A log-write request: the serialized record a sender wants appended.
pub enum LoggingRequest {
    Log(Vec<u8>),
}

impl View for LoggingRequest {
    type V = LoggingRequestView;

    open spec fn view(&self) -> LoggingRequestView {
        match self {
            LoggingRequest::Log(p) => LoggingRequestView::Log(p@),
        }
    }
}

/// The payload carried by a log-write request.
pub open spec fn payload_of(r: LoggingRequestView) -> Seq<u8> {
    match r {
        LoggingRequestView::Log(p) => p,
    }
}

/// The directory a sender's package logs into: `{drive_path}/{package}`.
pub open spec fn log_dir_text(drive: Seq<char>, s: SenderIdentityView) -> Seq<char> {
    drive + "/"@ + pkg_dir_text(s.package)
}

/// The log file of a sender's process: `{dir}/{process}.log`.
pub open spec fn log_file_text(drive: Seq<char>, s: SenderIdentityView) -> Seq<char> {
    log_dir_text(drive, s) + "/"@ + s.process + ".log"@
}

/// The append target a sender resolves to under a storage root.
pub open spec fn target_for(drive: Seq<char>, s: SenderIdentityView) -> LogTargetView {
    LogTargetView { dir_path: log_dir_text(drive, s), file_path: log_file_text(drive, s) }
}

/// Mathematical image of an `AppendAction`.
pub struct AppendActionView {
    pub target: LogTargetView,
    pub record: Seq<u8>,
    pub created: bool,
}

/// The storage effect of one accepted record: append `record` to
/// `target.file_path` as one atomic write. When `created` holds, the target
/// was resolved for the first time: the directory and the file are to be
/// created (if absent) before the append.
pub struct AppendAction {
    pub target: LogTarget,
    pub record: Vec<u8>,
    pub created: bool,
}

impl View for AppendAction {
    type V = AppendActionView;

    open spec fn view(&self) -> AppendActionView {
        AppendActionView { target: self.target@, record: self.record@, created: self.created }
    }
}

/// How one routed record relates the state before to the state after: a
/// cache hit reuses the cached target and changes nothing; a miss derives
/// the target from the storage root, appends it to the cache, and reports
/// that it was created. Either way the returned append carries the record
/// and the sender's one target.
pub open spec fn routed(
    pre: StateView,
    post: StateView,
    sender: SenderIdentityView,
    record: Seq<u8>,
    a: AppendActionView,
) -> bool {
    &&& post.wf()
    &&& a.record == record
    &&& has_target(post.log_files, sender)
    &&& a.target == target_of(post.log_files, sender)
    &&& if has_target(pre.log_files, sender) {
        &&& !a.created
        &&& post == pre
        &&& a.target == target_of(pre.log_files, sender)
    } else {
        &&& a.created
        &&& a.target == target_for(pre.drive_path, sender)
        &&& post == (StateView { log_files: pre.log_files.push((sender, a.target)), ..pre })
    }
}

/// Renders the append target a sender resolves to under a storage root.
fn make_target(drive_path: &String, sender: &SenderIdentity) -> (r: LogTarget)
    ensures
        r@ == target_for(drive_path@, sender@),
{
    let mut dir = drive_path.clone();
    dir.append("/");
    let pkg = sender.package.dir_name();
    dir.append(pkg.as_str());
    let mut file = dir.clone();
    file.append("/");
    file.append(sender.process.as_str());
    file.append(".log");
    LogTarget { dir_path: dir, file_path: file }
}

/// Routes one already-stamped record: resolves the sender's append target,
/// creating and caching it on first use, and returns the append to perform.
pub fn route_record(source: &SenderIdentity, record: Vec<u8>, state: &mut State) -> (r:
    AppendAction)
    requires
        old(state)@.wf(),
    ensures
        routed(old(state)@, final(state)@, source@, record@, r@),
{
    match state.find_target(source) {
        Some(t) => AppendAction { target: t, record, created: false },
        None => {
            let t = make_target(&state.drive_path, source);
            state.log_files.push((source.clone(), t.clone()));
            proof {
                let ts0 = old(state)@.log_files;
                let ts = state@.log_files;
                assert(ts =~= ts0.push((source@, t@)));
                assert forall|a: int, b: int|
                    0 <= a < b < ts.len() implies (#[trigger] ts[a]).0 != (#[trigger] ts[b]).0 by {
                    if b < ts0.len() {
                        assert((ts0[a]).0 != (ts0[b]).0);
                    } else {
                        assert(ts[b].0 == source@);
                        assert(ts[a] == ts0[a]);
                        assert((ts0[a]).0 != source@);
                    }
                }
                lemma_target_at(ts, source@, ts0.len() as int);
            }
            AppendAction { target: t, record, created: true }
        },
    }
}

/// Handles one filter-approved log-write: stamps the payload with its
/// sender's identity and routes it. A payload that is not a well-formed
/// key/value record is an error, and nothing — in particular no target —
/// is created.
pub fn handle_logging_request(
    source: &SenderIdentity,
    request: &LoggingRequest,
    state: &mut State,
) -> (r: Result<AppendAction, HandleError>)
    requires
        old(state)@.wf(),
    ensures
        final(state)@.wf(),
        stamped_record(payload_of(request@), source_text(source@)) is None ==> r == Result::<
            AppendAction,
            HandleError,
        >::Err(HandleError::MalformedPayload) && final(state)@ == old(state)@,
        stamped_record(payload_of(request@), source_text(source@)) is Some ==> r is Ok && routed(
            old(state)@,
            final(state)@,
            source@,
            stamped_record(payload_of(request@), source_text(source@)).unwrap(),
            r.unwrap()@,
        ),
{
    let LoggingRequest::Log(payload) = request;
    let source_str = source.render();
    match stamp_source(payload.as_slice(), source_str.as_str()) {
        None => Err(HandleError::MalformedPayload),
        Some(record) => Ok(route_record(source, record, state)),
    }
}

/// Two filter-approved log-writes from one sender resolve exactly one
/// target: the first creates it, the second reuses the very same file, and
/// each append carries its own record.
pub proof fn lemma_one_target_per_sender(
    s0: StateView,
    s1: StateView,
    s2: StateView,
    sender: SenderIdentityView,
    rec1: Seq<u8>,
    rec2: Seq<u8>,
    a1: AppendActionView,
    a2: AppendActionView,
)
    requires
        s0.wf(),
        !has_target(s0.log_files, sender),
        routed(s0, s1, sender, rec1, a1),
        routed(s1, s2, sender, rec2, a2),
    ensures
        a1.created,
        !a2.created,
        s2 == s1,
        a2.target == a1.target,
        s1.log_files == s0.log_files.push((sender, a1.target)),
        a1.target == target_for(s0.drive_path, sender),
        a1.record == rec1,
        a2.record == rec2,
{
}

/// Under one package directory, two senders with different process
/// identifiers resolve to two distinct files in that same directory.
pub proof fn lemma_distinct_files_shared_dir(
    drive: Seq<char>,
    a: SenderIdentityView,
    b: SenderIdentityView,
)
    requires
        a.package == b.package,
        a.process != b.process,
    ensures
        target_for(drive, a).dir_path == target_for(drive, b).dir_path,
        target_for(drive, a).file_path != target_for(drive, b).file_path,
{
    let fa = log_file_text(drive, a);
    let fb = log_file_text(drive, b);
    if fa == fb {
        assert(fa.len() == log_dir_text(drive, a).len() + "/"@.len() + a.process.len()
            + ".log"@.len());
        assert(fb.len() == log_dir_text(drive, b).len() + "/"@.len() + b.process.len()
            + ".log"@.len());
        assert(a.process.len() == b.process.len());
        let base = log_dir_text(drive, a).len() + "/"@.len();
        assert forall|i: int| 0 <= i < a.process.len() implies a.process[i] == b.process[i] by {
            assert(fa[base + i] == a.process[i]);
            assert(fb[base + i] == b.process[i]);
        }
        assert(a.process =~= b.process);
    }
}

} // verus!
