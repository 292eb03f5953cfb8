//! Opening and closing event streams within a session.
//!
//! A stream is one ordered channel of events.  Its attributes declare
//! its identity and an ordering contract: an interleaving mode, an
//! ordering type, and an allowed skid tolerance that tells the backend
//! how much out-of-order slack to accept when reconstructing a
//! timeline.

use vstd::prelude::*;

use crate::interface::{call_result, InterfaceCore, InterfaceHandle, TableOp};
use crate::session::SessionHandle;
use crate::status::ResultCode;

verus! {

/// Opaque token for one open event stream; zero models the backend's
/// null handle.  A stream must not outlive its owning session.
#[derive(Clone, Copy, PartialEq, Eq, Structural, Debug)]
pub struct StreamHandle {
    pub opaque: u64,
}

impl StreamHandle {
    /// Whether this is the backend's null handle.
    pub open spec fn spec_is_null(self) -> bool {
        self.opaque == 0
    }

    /// Run-time check for the null handle.
    pub fn is_null(&self) -> (r: bool)
        ensures
            r == self.spec_is_null(),
    {
        self.opaque == 0
    }
}

/// How events of this stream interleave with others.
#[derive(Clone, Copy, PartialEq, Eq, Structural, Debug)]
pub enum OrderInterleaving {
    /// No interleaving contract.
    NoInterleaving,
    /// Events interleave scoped by event scope.
    EventScope,
}

impl OrderInterleaving {
    /// Wire value of this mode; the hand-maintained values are
    /// authoritative for the binary boundary.
    pub open spec fn wire_spec(self) -> int {
        match self {
            OrderInterleaving::NoInterleaving => 0,
            OrderInterleaving::EventScope => 1,
        }
    }

    /// Encode this mode for the boundary.
    pub fn wire(self) -> (r: i16)
        ensures
            r as int == self.wire_spec(),
    {
        match self {
            OrderInterleaving::NoInterleaving => 0,
            OrderInterleaving::EventScope => 1,
        }
    }
}

/// The ordering discipline of the stream's events.
#[derive(Clone, Copy, PartialEq, Eq, Structural, Debug)]
pub enum OrderingType {
    Unknown,
    Strict,
    PackedRangeStart,
    PackedRangeEnd,
}

impl OrderingType {
    /// Wire value of this ordering type.
    pub open spec fn wire_spec(self) -> int {
        match self {
            OrderingType::Unknown => 0,
            OrderingType::Strict => 1,
            OrderingType::PackedRangeStart => 2,
            OrderingType::PackedRangeEnd => 3,
        }
    }

    /// Encode this ordering type for the boundary.
    pub fn wire(self) -> (r: i16)
        ensures
            r as int == self.wire_spec(),
    {
        match self {
            OrderingType::Unknown => 0,
            OrderingType::Strict => 1,
            OrderingType::PackedRangeStart => 2,
            OrderingType::PackedRangeEnd => 3,
        }
    }
}

/// The kind of out-of-order slack the backend is told to accept.
#[derive(Clone, Copy, PartialEq, Eq, Structural, Debug)]
pub enum OrderingSkid {
    /// No skid tolerance.
    NoSkid,
    /// A time bound, in nanoseconds.
    TimeNs,
    /// An event-count bound.
    EventCount,
}

impl OrderingSkid {
    /// Wire value of this skid kind.
    pub open spec fn wire_spec(self) -> int {
        match self {
            OrderingSkid::NoSkid => 0,
            OrderingSkid::TimeNs => 1,
            OrderingSkid::EventCount => 2,
        }
    }

    /// Encode this skid kind for the boundary.
    pub fn wire(self) -> (r: i32)
        ensures
            r as int == self.wire_spec(),
    {
        match self {
            OrderingSkid::NoSkid => 0,
            OrderingSkid::TimeNs => 1,
            OrderingSkid::EventCount => 2,
        }
    }
}

/// Identity and ordering contract of one stream.
pub struct StreamAttributes {
    /// Stream name.
    pub name: String,
    /// The semantic domain the stream represents.
    pub domain: String,
    /// Optional event-scope path the ordering contract refers to.
    pub event_scope_path: Option<String>,
    pub order_interleaving: OrderInterleaving,
    pub ordering_type: OrderingType,
    pub ordering_skid: OrderingSkid,
    /// Amount of skid allowed, in the unit the skid kind names.
    pub skid_amount: u64,
}

impl StreamAttributes {
    /// The default ordering contract: no interleaving, ordering type
    /// unknown, no skid tolerance.
    pub open spec fn is_default_ordering(self) -> bool {
        &&& self.event_scope_path is None
        &&& self.order_interleaving == OrderInterleaving::NoInterleaving
        &&& self.ordering_type == OrderingType::Unknown
        &&& self.ordering_skid == OrderingSkid::NoSkid
        &&& self.skid_amount == 0
    }

    /// Attributes for a caller that needs no custom ordering.
    pub fn simple(name: String, domain: String) -> (r: StreamAttributes)
        ensures
            r.name == name,
            r.domain == domain,
            r.is_default_ordering(),
    {
        StreamAttributes {
            name,
            domain,
            event_scope_path: None,
            order_interleaving: OrderInterleaving::NoInterleaving,
            ordering_type: OrderingType::Unknown,
            ordering_skid: OrderingSkid::NoSkid,
            skid_amount: 0,
        }
    }
}

/// What the backend's stream-open entry reported.
#[derive(Clone, Copy, PartialEq, Eq, Structural, Debug)]
pub struct StreamReply {
    pub code: ResultCode,
    pub stream: StreamHandle,
}

/// The handle an open attempt yields: the entry must be present, a
/// backend failure passes through, and a success that wrote back the
/// null handle is normalized to `Failed`.
pub open spec fn stream_open_result(core: InterfaceCore, reply: StreamReply) -> Result<
    StreamHandle,
    ResultCode,
> {
    if !core.spec_supports(TableOp::StreamOpen) {
        Err(ResultCode::InvalidArgument)
    } else if reply.code != ResultCode::Success {
        Err(reply.code)
    } else if reply.stream.spec_is_null() {
        Err(ResultCode::Failed)
    } else {
        Ok(reply.stream)
    }
}

/// Open a stream within a session.
///
/// `reply` is what the backend's entry reported; when the entry is
/// absent no call is made and the reply is ignored.  A failed open
/// never returns a usable handle.
pub fn stream_open(
    interface: &InterfaceHandle,
    session: SessionHandle,
    attr: &StreamAttributes,
    reply: &StreamReply,
) -> (r: Result<StreamHandle, ResultCode>)
    ensures
        r == stream_open_result(interface.core, *reply),
        !interface.core.spec_supports(TableOp::StreamOpen) ==> r == Err::<
            StreamHandle,
            ResultCode,
        >(ResultCode::InvalidArgument),
        r is Ok ==> !r->Ok_0.spec_is_null(),
{
    if !interface.core.supports(TableOp::StreamOpen) {
        Err(ResultCode::InvalidArgument)
    } else if !matches!(reply.code, ResultCode::Success) {
        Err(reply.code)
    } else if reply.stream.is_null() {
        Err(ResultCode::Failed)
    } else {
        Ok(reply.stream)
    }
}

/// A stream opened by the simple entry point, together with the
/// attributes submitted to the backend on its behalf.
pub struct SimpleStream {
    /// The handle the backend returned.
    pub stream: StreamHandle,
    /// The attributes submitted to the backend's open entry: the given
    /// names under the default ordering contract.
    pub attr: StreamAttributes,
}

/// Open a stream with the default ordering contract.
///
/// The submitted attributes carry exactly the given stream and domain
/// names, no event-scope path, no interleaving, ordering type unknown
/// and no skid tolerance; they come back with the handle.
pub fn stream_open_simple(
    interface: &InterfaceHandle,
    session: SessionHandle,
    stream_name: String,
    domain_name: String,
    reply: &StreamReply,
) -> (r: Result<SimpleStream, ResultCode>)
    ensures
        ({
            match stream_open_result(interface.core, *reply) {
                Err(e) => r is Err && r->Err_0 == e,
                Ok(h) => {
                    &&& r is Ok
                    &&& r->Ok_0.stream == h
                    &&& r->Ok_0.attr.name == stream_name
                    &&& r->Ok_0.attr.domain == domain_name
                    &&& r->Ok_0.attr.is_default_ordering()
                },
            }
        }),
{
    let attr = StreamAttributes::simple(stream_name, domain_name);
    match stream_open(interface, session, &attr, reply) {
        Err(code) => Err(code),
        Ok(stream) => Ok(SimpleStream { stream, attr }),
    }
}

/// What a stream-close call yields for a backend reply code.
pub open spec fn stream_close_result(core: InterfaceCore, reply: ResultCode) -> Result<
    (),
    ResultCode,
> {
    call_result(core.spec_supports(TableOp::StreamClose), reply)
}

/// Close a stream.
///
/// The entry must be present, and the backend's code passes through
/// verbatim.  Every stream is closed before its owning session ends.
pub fn stream_close(
    interface: &InterfaceHandle,
    stream: StreamHandle,
    reply: ResultCode,
) -> (r: Result<(), ResultCode>)
    ensures
        r == stream_close_result(interface.core, reply),
        !interface.core.spec_supports(TableOp::StreamClose) ==> r == Err::<(), ResultCode>(
            ResultCode::InvalidArgument,
        ),
{
    if !interface.core.supports(TableOp::StreamClose) {
        Err(ResultCode::InvalidArgument)
    } else {
        crate::status::check(reply)
    }
}

/// One close call after a successful open succeeds.
///
/// An open that reported success yielded the non-null handle the
/// backend wrote back, and on an interface whose close entry is
/// present, a single close call whose backend reply is success returns
/// success.
pub proof fn lemma_stream_lifecycle(core: InterfaceCore, reply: StreamReply)
    requires
        core.spec_supports(TableOp::StreamClose),
        stream_open_result(core, reply) is Ok,
    ensures
        stream_open_result(core, reply) == Ok::<StreamHandle, ResultCode>(reply.stream),
        !reply.stream.spec_is_null(),
        stream_close_result(core, ResultCode::Success) == Ok::<(), ResultCode>(()),
{
}

} // verus!
