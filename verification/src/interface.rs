//! The negotiated capability table of a loaded backend module.

use vstd::prelude::*;

use crate::status::ResultCode;

verus! {

/// One operation of the core writer interface.
///
/// Each operation corresponds to one entry of the negotiated function
/// table; a backend may leave any entry absent independent of the others.
#[derive(Clone, Copy, PartialEq, Eq, Structural, Debug)]
pub enum TableOp {
    SessionBegin,
    SessionEnd,
    StreamOpen,
    StreamClose,
    EventScopeRegister,
    SchemaRegister,
    EnumRegister,
    EventWrite,
}

/// Presence of each entry of one negotiated core function table.
///
/// A field is `true` exactly when the backend declared support for the
/// entry by filling in a non-null function pointer.  The table is fixed
/// once negotiated and every call must be gated on the entry it needs:
/// an absent entry fails closed with `InvalidArgument`, it is never
/// invoked.
#[derive(Clone, Copy, PartialEq, Eq, Structural, Debug)]
pub struct InterfaceCore {
    pub session_begin: bool,
    pub session_end: bool,
    pub stream_open: bool,
    pub stream_close: bool,
    pub event_scope_register: bool,
    pub schema_register: bool,
    pub enum_register: bool,
    pub event_write: bool,
}

impl InterfaceCore {
    /// Whether the table holds the entry for `op`.
    pub open spec fn spec_supports(self, op: TableOp) -> bool {
        match op {
            TableOp::SessionBegin => self.session_begin,
            TableOp::SessionEnd => self.session_end,
            TableOp::StreamOpen => self.stream_open,
            TableOp::StreamClose => self.stream_close,
            TableOp::EventScopeRegister => self.event_scope_register,
            TableOp::SchemaRegister => self.schema_register,
            TableOp::EnumRegister => self.enum_register,
            TableOp::EventWrite => self.event_write,
        }
    }

    /// Run-time check for the entry of `op`.
    pub fn supports(&self, op: TableOp) -> (r: bool)
        ensures
            r == self.spec_supports(op),
    {
        match op {
            TableOp::SessionBegin => self.session_begin,
            TableOp::SessionEnd => self.session_end,
            TableOp::StreamOpen => self.stream_open,
            TableOp::StreamClose => self.stream_close,
            TableOp::EventScopeRegister => self.event_scope_register,
            TableOp::SchemaRegister => self.schema_register,
            TableOp::EnumRegister => self.enum_register,
            TableOp::EventWrite => self.event_write,
        }
    }

    /// A table with every entry present.
    pub fn complete() -> (r: InterfaceCore)
        ensures
            forall|op: TableOp| r.spec_supports(op),
    {
        InterfaceCore {
            session_begin: true,
            session_end: true,
            stream_open: true,
            stream_close: true,
            event_scope_register: true,
            schema_register: true,
            enum_register: true,
            event_write: true,
        }
    }

    /// A table with every entry absent.
    pub fn vacant() -> (r: InterfaceCore)
        ensures
            forall|op: TableOp| !r.spec_supports(op),
    {
        InterfaceCore {
            session_begin: false,
            session_end: false,
            stream_open: false,
            stream_close: false,
            event_scope_register: false,
            schema_register: false,
            enum_register: false,
            event_write: false,
        }
    }
}

/// An owned, loaded backend module together with its negotiated table.
///
/// `module` is the opaque token under which the embedder tracks the
/// mapped module; the handle is released exactly once, by consuming it
/// in [`crate::loader::unload`].
#[derive(Clone, Copy, PartialEq, Eq, Structural, Debug)]
pub struct InterfaceHandle {
    pub core: InterfaceCore,
    pub module: u64,
}

/// Outcome of one protocol call that opens no handle: the entry must be
/// present, and a backend-reported failure code passes through verbatim.
pub open spec fn call_result(supported: bool, code: ResultCode) -> Result<(), ResultCode> {
    if !supported {
        Err(ResultCode::InvalidArgument)
    } else if code != ResultCode::Success {
        Err(code)
    } else {
        Ok(())
    }
}

/// Gate a call on the presence of its table entry.
///
/// Absence fails closed with `InvalidArgument`; no call may be made on
/// an `Err` result.
pub fn require_entry(interface: &InterfaceHandle, op: TableOp) -> (r: Result<(), ResultCode>)
    ensures
        r is Ok <==> interface.core.spec_supports(op),
        r is Err ==> r->Err_0 == ResultCode::InvalidArgument,
{
    if interface.core.supports(op) {
        Ok(())
    } else {
        Err(ResultCode::InvalidArgument)
    }
}

} // verus!
