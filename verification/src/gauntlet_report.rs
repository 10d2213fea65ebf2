//! How a security check's findings become a pass or fail verdict and the
//! sentence shown beside it. The rule it enforces: a check may claim that a
//! defence worked only when the run actually exercised that defence.
use vstd::prelude::*;

use crate::text::{decimal, owned, push_decimal, push_str, string_of};

verus! {

/// Whether the platform capped the compile worker's address space, and at
/// how many bytes.
#[derive(Debug, Clone, Copy, PartialEq, Eq)]
pub enum AddressSpaceLimit {
    Enforced(u64),
    Unavailable,
}

/// A check's outcome and the sentence that explains it.
#[derive(Debug, Clone)]
pub struct Verdict {
    pub pass: bool,
    pub detail: String,
}

pub open spec fn containment_text() -> Seq<char> {
    "an artifact that fails compilation was compiled in a killable worker process; the failure was contained in the child and the host stayed up"@
}

/// The explanation shown beside the isolation check: that a worker which
/// never started shows nothing; the failure when the hostile artifact did
/// not fail closed; else the containment, with the address-space ceiling
/// that was enforced in whole MiB, or the statement that there was none.
pub open spec fn isolation_detail(worker_started: bool, hostile_compile_failed_closed: bool, limit: AddressSpaceLimit) -> Seq<char> {
    if !worker_started {
        "the compile worker process never started on this host, so nothing was compiled out of process and this check proves nothing about isolation — the hostile artifact failed for the same reason every artifact would"@
    } else if !hostile_compile_failed_closed {
        "compiling a malformed artifact did not fail closed in the parent"@
    } else {
        match limit {
            AddressSpaceLimit::Enforced(bytes) => containment_text() + ", under a hard address-space ceiling of "@
                + decimal((bytes / 1048576u64) as nat) + " MiB"@,
            AddressSpaceLimit::Unavailable => containment_text() + ". This platform applies no address-space ceiling to the worker, so a compile-time memory blow-up is contained by process isolation and the wall-clock kill, not capped"@,
        }
    }
}

/// The verdict of the compile-isolation check. `worker_started` must come
/// from an independent successful compile through the same worker in this
/// run: a worker that never launched fails every compile, the hostile one
/// included, so that failure alone proves nothing.
pub fn compile_isolation(worker_started: bool, hostile_compile_failed_closed: bool, limit: AddressSpaceLimit) -> (v: Verdict)
    ensures
        v.pass == (worker_started && hostile_compile_failed_closed),
        v.detail@ == isolation_detail(worker_started, hostile_compile_failed_closed, limit),
{
    if !worker_started {
        return Verdict { pass: false, detail: owned("the compile worker process never started on this host, so nothing was compiled out of process and this check proves nothing about isolation — the hostile artifact failed for the same reason every artifact would") };
    }
    if !hostile_compile_failed_closed {
        return Verdict { pass: false, detail: owned("compiling a malformed artifact did not fail closed in the parent") };
    }
    let mut detail = owned("an artifact that fails compilation was compiled in a killable worker process; the failure was contained in the child and the host stayed up");
    match limit {
        AddressSpaceLimit::Enforced(bytes) => {
            push_str(&mut detail, ", under a hard address-space ceiling of ");
            let mut digits: Vec<char> = Vec::new();
            push_decimal(&mut digits, bytes / 1048576);
            push_str(&mut detail, string_of(&digits).as_str());
            push_str(&mut detail, " MiB");
        },
        AddressSpaceLimit::Unavailable => {
            push_str(&mut detail, ". This platform applies no address-space ceiling to the worker, so a compile-time memory blow-up is contained by process isolation and the wall-clock kill, not capped");
        },
    }
    Verdict { pass: true, detail }
}

} // verus!
