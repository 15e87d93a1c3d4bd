//! The client-side binding policy: which completion payload answers which
//! request.
//!
//! A completion handle is issued with a payload kind, and a delivery of any
//! other kind is rejected by the handle. This policy is the single place
//! that says which kind belongs to which operation, so that clients, the
//! event loop and the dispatcher agree.

use vstd::prelude::*;

use crate::completion::ReplyKind;

verus! {

/// The client operations a completion handle can be issued for.
#[derive(Clone, Copy, Debug, PartialEq, Eq, Structural)]
pub enum RequestKind {
    Info,
    Insert,
    LookupSingle,
    LookupRange,
    Remove,
    Flush,
}

/// Binds each client operation to the payload kind that answers it.
pub struct AccessPolicy;

impl AccessPolicy {
    /// The payload kind a request of each operation is answered with.
    pub open spec fn reply_kind_spec(request: RequestKind) -> ReplyKind {
        match request {
            RequestKind::Info => ReplyKind::Info,
            RequestKind::Insert => ReplyKind::Insert,
            RequestKind::LookupSingle => ReplyKind::LookupSingle,
            RequestKind::LookupRange => ReplyKind::LookupRange,
            RequestKind::Remove => ReplyKind::Remove,
            RequestKind::Flush => ReplyKind::Flush,
        }
    }

    /// The kind to issue a request's completion handle with.
    pub fn reply_kind(request: RequestKind) -> (k: ReplyKind)
        ensures
            k == Self::reply_kind_spec(request),
    {
        match request {
            RequestKind::Info => ReplyKind::Info,
            RequestKind::Insert => ReplyKind::Insert,
            RequestKind::LookupSingle => ReplyKind::LookupSingle,
            RequestKind::LookupRange => ReplyKind::LookupRange,
            RequestKind::Remove => ReplyKind::Remove,
            RequestKind::Flush => ReplyKind::Flush,
        }
    }
}

} // verus!
