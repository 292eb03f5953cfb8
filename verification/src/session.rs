//! Opening and closing writer sessions.
//!
//! A session is the top-level writer context, typically mapped to one
//! output artifact.  The backend performs the actual begin and end
//! calls; this module fixes how their outcomes turn into results: a
//! missing table entry fails closed with `InvalidArgument`, a
//! backend-reported failure passes through verbatim, and a success
//! paired with a null handle is normalized to `Failed`.

use vstd::prelude::*;

use crate::interface::{call_result, InterfaceCore, InterfaceHandle, TableOp};
use crate::naming::{
    collision_result, session_name_spec, session_output_name, strip_ext_spec, DEFAULT_RETRY_LIMIT,
    ProbeOutcome,
};
use crate::status::ResultCode;

verus! {

/// Opaque token for one active writer session, issued by the backend.
///
/// A zero value models the backend's null handle: a valid session is
/// returned only by an open call that reported success, and once closed
/// a handle must never be reused.
#[derive(Clone, Copy, PartialEq, Eq, Structural, Debug)]
pub struct SessionHandle {
    pub opaque: u64,
}

impl SessionHandle {
    /// Whether this is the backend's null handle.
    pub open spec fn spec_is_null(self) -> bool {
        self.opaque == 0
    }

    /// Run-time check for the null handle.
    pub fn is_null(&self) -> (r: bool)
        ensures
            r == self.spec_is_null(),
    {
        self.opaque == 0
    }
}

/// Attributes of a session: its name and an opaque backend-specific
/// configuration string, passed through uninterpreted.
pub struct SessionAttributes {
    pub name: String,
    pub config: Option<String>,
}

/// What the backend's session-begin entry reported: its result code and
/// the handle it wrote back.
#[derive(Clone, Copy, PartialEq, Eq, Structural, Debug)]
pub struct SessionReply {
    pub code: ResultCode,
    pub session: SessionHandle,
}

/// The handle a begin attempt yields: the entry must be present, a
/// backend failure code passes through, and a success that wrote back
/// the null handle is an internal backend inconsistency normalized to
/// `Failed` rather than surfaced as a misleading success.
pub open spec fn session_begin_result(core: InterfaceCore, reply: SessionReply) -> Result<
    SessionHandle,
    ResultCode,
> {
    if !core.spec_supports(TableOp::SessionBegin) {
        Err(ResultCode::InvalidArgument)
    } else if reply.code != ResultCode::Success {
        Err(reply.code)
    } else if reply.session.spec_is_null() {
        Err(ResultCode::Failed)
    } else {
        Ok(reply.session)
    }
}

/// Open a session against a loaded interface.
///
/// `reply` is what the backend's entry reported; when the entry is
/// absent no call is made and the reply is ignored.  A failed begin
/// never returns a usable handle.
pub fn session_begin(
    interface: &InterfaceHandle,
    attr: &SessionAttributes,
    reply: &SessionReply,
) -> (r: Result<SessionHandle, ResultCode>)
    ensures
        r == session_begin_result(interface.core, *reply),
        !interface.core.spec_supports(TableOp::SessionBegin) ==> r == Err::<
            SessionHandle,
            ResultCode,
        >(ResultCode::InvalidArgument),
        r is Ok ==> !r->Ok_0.spec_is_null(),
{
    if !interface.core.supports(TableOp::SessionBegin) {
        Err(ResultCode::InvalidArgument)
    } else if !matches!(reply.code, ResultCode::Success) {
        Err(reply.code)
    } else if reply.session.is_null() {
        Err(ResultCode::Failed)
    } else {
        Ok(reply.session)
    }
}

/// What a session-end call yields for a backend reply code.
pub open spec fn session_end_result(core: InterfaceCore, reply: ResultCode) -> Result<
    (),
    ResultCode,
> {
    call_result(core.spec_supports(TableOp::SessionEnd), reply)
}

/// Close a session.
///
/// The entry must be present, and the backend's code passes through
/// verbatim.  The caller owns the handle from successful begin to this
/// single close and must not reuse it afterwards.
pub fn session_end(
    interface: &InterfaceHandle,
    session: SessionHandle,
    reply: ResultCode,
) -> (r: Result<(), ResultCode>)
    ensures
        r == session_end_result(interface.core, reply),
        !interface.core.spec_supports(TableOp::SessionEnd) ==> r == Err::<(), ResultCode>(
            ResultCode::InvalidArgument,
        ),
{
    if !interface.core.supports(TableOp::SessionEnd) {
        Err(ResultCode::InvalidArgument)
    } else {
        crate::status::check(reply)
    }
}

/// One end call after a successful begin succeeds.
///
/// A begin that reported success yielded the non-null handle the
/// backend wrote back, and on an interface whose end entry is present, a
/// single end call whose backend reply is success returns success.
pub proof fn lemma_session_lifecycle(core: InterfaceCore, reply: SessionReply)
    requires
        core.spec_supports(TableOp::SessionEnd),
        session_begin_result(core, reply) is Ok,
    ensures
        session_begin_result(core, reply) == Ok::<SessionHandle, ResultCode>(reply.session),
        !reply.session.spec_is_null(),
        session_end_result(core, ResultCode::Success) == Ok::<(), ResultCode>(()),
{
}

/// Render a merge request as the opaque, backend-specific config line:
/// a key=value line naming the output to merge into, not interpreted by
/// this layer.
pub fn merge_config(merge: Option<&str>) -> (r: Option<String>)
    ensures
        r is Some <==> merge is Some,
        merge matches Some(target) ==> r matches Some(line) && line@ == "ReportMerge="@ + target@,
{
    match merge {
        Some(target) => {
            let mut line = "ReportMerge=".to_owned();
            line.append(target);
            Some(line)
        },
        None => None,
    }
}

/// The report extension the file-backed backend owns and re-appends.
pub fn report_extension() -> (r: &'static str)
    ensures
        r@ == "nsys-rep"@,
{
    "nsys-rep"
}

/// A file-backed session opened by the simple entry point, together
/// with what was submitted to the backend on its behalf.
pub struct SimpleSession {
    /// The handle the backend returned.
    pub session: SessionHandle,
    /// The attributes submitted to the backend's begin entry: the
    /// collision-resolved session name and the opaque config line.
    pub attr: SessionAttributes,
    /// Whether an existing plain output file is being overwritten; the
    /// caller owes the user an overwrite notice when this is set.
    pub overwrote: bool,
}

/// Open a file-backed session on a desired output path.
///
/// The collision algorithm first settles the session name: the report
/// extension is stripped from `output`, and the probes answer the
/// atomic create-if-absent claims of `base.nsys-rep`, `base.1.nsys-rep`,
/// ... in order, bounded by [`DEFAULT_RETRY_LIMIT`].  A failed claim
/// fails the call with the collision algorithm's code and makes no
/// backend call; otherwise the session begins under exactly the settled
/// name — the bare base, or `base.<n>` for the claimed index, never
/// carrying the extension — with the optional merge target passed
/// through as the `ReportMerge=` config line, and `reply` is
/// interpreted as in [`session_begin`].  The submitted attributes and
/// the overwrite flag come back with the handle.
pub fn session_begin_simple(
    interface: &InterfaceHandle,
    output: &str,
    force: bool,
    merge: Option<&str>,
    probes: &Vec<ProbeOutcome>,
    reply: &SessionReply,
) -> (r: Result<SimpleSession, ResultCode>)
    requires
        probes@.len() > DEFAULT_RETRY_LIMIT,
    ensures
        ({
            match collision_result(probes@, force, DEFAULT_RETRY_LIMIT as int) {
                Err(e) => r is Err && r->Err_0 == e,
                Ok(sel) => match session_begin_result(interface.core, *reply) {
                    Err(e) => r is Err && r->Err_0 == e,
                    Ok(h) => {
                        &&& r is Ok
                        &&& r->Ok_0.session == h
                        &&& r->Ok_0.overwrote == sel.1
                        &&& r->Ok_0.attr.name@ == session_name_spec(
                            strip_ext_spec(output@, "nsys-rep"@),
                            sel.0,
                        )
                        &&& match merge {
                            Some(m) => r->Ok_0.attr.config matches Some(line) && line@
                                == "ReportMerge="@ + m@,
                            None => r->Ok_0.attr.config is None,
                        }
                    },
                },
            }
        }),
{
    let named = session_output_name(output, report_extension(), force, DEFAULT_RETRY_LIMIT, probes);
    match named {
        Err(code) => Err(code),
        Ok((name, overwrote)) => {
            let attr = SessionAttributes { name, config: merge_config(merge) };
            match session_begin(interface, &attr, reply) {
                Err(code) => Err(code),
                Ok(session) => Ok(SimpleSession { session, attr, overwrote }),
            }
        },
    }
}

} // verus!
