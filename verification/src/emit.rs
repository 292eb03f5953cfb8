//! Registration of scopes, schemas and enums, and the event write.
//!
//! A schema is a self-describing declaration of a structured payload
//! layout: a backend that receives it can interpret opaque binary
//! payloads without compile-time coupling.  Registration for an id must
//! happen before any event write that references the id on the same
//! stream; this layer passes the backend's real result through and
//! never synthesizes success for a call the backend rejected.

use vstd::prelude::*;

use crate::interface::{call_result, InterfaceCore, InterfaceHandle, TableOp};
use crate::status::ResultCode;
use crate::stream::StreamHandle;

verus! {

/// Declaration of an event scope registered on a stream.
pub struct EventScopeAttributes {
    /// Scope path the events of this scope sort under.
    pub path: String,
    /// Identifier later referenced by payload entries.
    pub scope_id: u64,
}

/// One typed entry of a payload schema.
pub struct SchemaEntry {
    /// Primitive type code from the payload type registry, treated as
    /// an opaque fixed registry here.
    pub type_code: u64,
    /// Bit flags such as pointer, array, deep-copy or hide, and
    /// positional semantics such as the event timestamp or the union
    /// selector.
    pub flags: u64,
    /// Entry name.
    pub name: String,
}

/// A fully self-describing payload layout, immutable once registered.
/// Re-registering the same id with a different shape is a caller error.
pub struct SchemaAttr {
    pub name: String,
    /// Ordered entries of the layout.
    pub entries: Vec<SchemaEntry>,
    /// Schema-level flags.
    pub flags: u64,
    /// Total static size of the payload, in bytes.
    pub static_size: u64,
    /// Alignment of the payload, in bytes.
    pub alignment: u64,
    /// Identifier used later to tag event records.
    pub schema_id: u64,
}

/// One named value of a registered enum.
pub struct EnumEntry {
    pub name: String,
    pub value: u64,
}

/// A self-describing enum declaration.
pub struct EnumAttr {
    pub name: String,
    pub entries: Vec<EnumEntry>,
    /// Size of the underlying integer, in bytes.
    pub size: u64,
    /// Identifier used later to tag event records.
    pub schema_id: u64,
}

/// One event record: a schema id and the payload bytes laid out as that
/// schema declares.  The caller's buffer is read only for the duration
/// of the synchronous write call; the backend retains nothing.
pub struct PayloadData {
    pub schema_id: u64,
    pub payload: Vec<u8>,
}

/// What a registration call yields for a backend reply code.
pub open spec fn register_result(supported: bool, reply: ResultCode) -> Result<(), ResultCode> {
    call_result(supported, reply)
}

/// Register an event scope on a stream.
///
/// The entry must be present, else the call fails closed with
/// `InvalidArgument` and no backend call is made; the backend's code
/// passes through verbatim.
pub fn event_scope_register(
    interface: &InterfaceHandle,
    stream: StreamHandle,
    attr: &EventScopeAttributes,
    reply: ResultCode,
) -> (r: Result<(), ResultCode>)
    ensures
        r == register_result(interface.core.spec_supports(TableOp::EventScopeRegister), reply),
        !interface.core.spec_supports(TableOp::EventScopeRegister) ==> r == Err::<(), ResultCode>(
            ResultCode::InvalidArgument,
        ),
{
    if !interface.core.supports(TableOp::EventScopeRegister) {
        Err(ResultCode::InvalidArgument)
    } else {
        crate::status::check(reply)
    }
}

/// Register a payload schema on a stream.
pub fn schema_register(
    interface: &InterfaceHandle,
    stream: StreamHandle,
    attr: &SchemaAttr,
    reply: ResultCode,
) -> (r: Result<(), ResultCode>)
    ensures
        r == register_result(interface.core.spec_supports(TableOp::SchemaRegister), reply),
        !interface.core.spec_supports(TableOp::SchemaRegister) ==> r == Err::<(), ResultCode>(
            ResultCode::InvalidArgument,
        ),
{
    if !interface.core.supports(TableOp::SchemaRegister) {
        Err(ResultCode::InvalidArgument)
    } else {
        crate::status::check(reply)
    }
}

/// Register a payload enum on a stream.
pub fn enum_register(
    interface: &InterfaceHandle,
    stream: StreamHandle,
    attr: &EnumAttr,
    reply: ResultCode,
) -> (r: Result<(), ResultCode>)
    ensures
        r == register_result(interface.core.spec_supports(TableOp::EnumRegister), reply),
        !interface.core.spec_supports(TableOp::EnumRegister) ==> r == Err::<(), ResultCode>(
            ResultCode::InvalidArgument,
        ),
{
    if !interface.core.supports(TableOp::EnumRegister) {
        Err(ResultCode::InvalidArgument)
    } else {
        crate::status::check(reply)
    }
}

/// What an event write yields: the entry must be present, a zero-length
/// batch is a valid no-op that succeeds without a backend call, and for
/// a non-empty batch the backend's real result passes through verbatim,
/// never replaced by a synthesized success.
pub open spec fn event_write_result(
    core: InterfaceCore,
    events: Seq<PayloadData>,
    reply: ResultCode,
) -> Result<(), ResultCode> {
    if !core.spec_supports(TableOp::EventWrite) {
        Err(ResultCode::InvalidArgument)
    } else if events.len() == 0 {
        Ok(())
    } else {
        call_result(true, reply)
    }
}

/// Write a batch of schema-tagged event records to a stream.
///
/// The records go to the backend as one contiguous batch with its
/// count.  `reply` is what the backend's entry reported; when the entry
/// is absent, or the batch is empty, no call is made and the reply is
/// ignored.
pub fn event_write(
    interface: &InterfaceHandle,
    stream: StreamHandle,
    events: &Vec<PayloadData>,
    reply: ResultCode,
) -> (r: Result<(), ResultCode>)
    ensures
        r == event_write_result(interface.core, events@, reply),
        !interface.core.spec_supports(TableOp::EventWrite) ==> r == Err::<(), ResultCode>(
            ResultCode::InvalidArgument,
        ),
        interface.core.spec_supports(TableOp::EventWrite) && events@.len() == 0 ==> r == Ok::<
            (),
            ResultCode,
        >(()),
        interface.core.spec_supports(TableOp::EventWrite) && events@.len() > 0 ==> (r is Ok <==>
            reply == ResultCode::Success),
{
    if !interface.core.supports(TableOp::EventWrite) {
        Err(ResultCode::InvalidArgument)
    } else if events.len() == 0 {
        Ok(())
    } else {
        crate::status::check(reply)
    }
}

} // verus!
