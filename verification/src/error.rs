//! The errors of the library and the text each one reads as.

use vstd::prelude::*;
use crate::audio::{AudioCall, call_name};
use crate::text::{decimal, push_decimal_i64};

verus! {

/// Why an operation of the library failed.
#[derive(Clone, Copy, PartialEq, Eq, Structural, Debug)]
pub enum OhosError {
    /// A renderer was asked for a channel count outside `1..=8`.
    InvalidChannelCount(u16),
    /// A call into the system audio library returned the given non-success code.
    AudioCallFailed(AudioCall, i32),
    /// The KCP transport cannot accept connections on this platform.
    KcpAcceptNotImplemented,
    /// The KCP transport cannot open connections on this platform.
    KcpConnectNotImplemented,
}

/// The text of an error.
pub open spec fn error_text(e: OhosError) -> Seq<char> {
    match e {
        OhosError::InvalidChannelCount(n) => "invalid channel count "@ + decimal(n as int),
        OhosError::AudioCallFailed(call, code) => call_name(call) + " failed: "@ + decimal(code as int),
        OhosError::KcpAcceptNotImplemented => "OHOS v0.1: KcpStream::accept not implemented"@,
        OhosError::KcpConnectNotImplemented => "OHOS v0.1: KcpStream::connect not implemented"@,
    }
}

impl OhosError {
    /// The human-readable text of the error.
    pub fn message(&self) -> (s: String)
        ensures
            s@ == error_text(*self),
    {
        match self {
            OhosError::InvalidChannelCount(n) => {
                let mut s = String::new();
                s.append("invalid channel count ");
                push_decimal_i64(&mut s, *n as i64);
                assert(s@ =~= error_text(*self));
                s
            },
            OhosError::AudioCallFailed(call, code) => {
                let mut s = String::new();
                s.append(call.name());
                s.append(" failed: ");
                push_decimal_i64(&mut s, *code as i64);
                assert(s@ =~= error_text(*self));
                s
            },
            OhosError::KcpAcceptNotImplemented => {
                "OHOS v0.1: KcpStream::accept not implemented".to_owned()
            },
            OhosError::KcpConnectNotImplemented => {
                "OHOS v0.1: KcpStream::connect not implemented".to_owned()
            },
        }
    }
}

} // verus!
