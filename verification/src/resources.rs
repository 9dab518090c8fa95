//! System resources: whether there is memory enough to load more chunks.

use vstd::prelude::*;
use sysinfo::SystemExt;
use crate::text::{decimal, decimal_string};

verus! {

#[verifier::external_type_specification]
#[verifier::external_body]
pub struct ExSysinfoSystem(sysinfo::System);

/// Calls sysinfo's `SystemExt::new_all`, which loads every kind of system
/// information. Nothing is claimed of what it holds: that depends on the machine.
#[verifier::external_body]
fn new_system() -> (info: sysinfo::System) {
    sysinfo::System::new_all()
}

/// Calls sysinfo's `SystemExt::refresh_all`. Nothing is claimed of what it reads.
#[verifier::external_body]
fn refresh_system(info: &mut sysinfo::System) {
    info.refresh_all()
}

/// Calls sysinfo's `SystemExt::available_memory` (in kilobytes). Nothing is
/// claimed of the value: it depends on the machine and the moment of the last refresh.
#[verifier::external_body]
fn available_memory(info: &sysinfo::System) -> (kb: u64) {
    info.available_memory()
}

/// Calls sysinfo's `SystemExt::total_memory` (in kilobytes). Nothing is claimed of
/// the value: it depends on the machine.
#[verifier::external_body]
fn total_memory(info: &sysinfo::System) -> (kb: u64) {
    info.total_memory()
}

/// Whether `bytes` can be allocated when `available` is free.
pub fn memory_suffices(available: u64, bytes: u64) -> (ok: bool)
    ensures
        ok == (available > bytes),
{
    available > bytes
}

/// The warning given when memory runs short, from the free and the total memory.
pub open spec fn warning_text(available: u64, total: u64) -> Seq<char> {
    "Not enough memory to load chunks - "@ + decimal((available / 1000) as nat) + "/"@ + decimal(
        (total / 1000) as nat,
    ) + "MB free "@
}

/// The warning given when memory runs short: the free and the total memory, in
/// thousands of the unit they are given in.
pub fn memory_warning(available: u64, total: u64) -> (msg: String)
    ensures
        msg@ == warning_text(available, total),
{
    let mut msg = String::from_str("Not enough memory to load chunks - ");
    msg.append(decimal_string(available / 1000).as_str());
    msg.append("/");
    msg.append(decimal_string(total / 1000).as_str());
    msg.append("MB free ");
    msg
}

/// Fetches system resources. The memory figures are those read when the value was
/// made or last polled; sysinfo itself only changes them on a refresh.
pub struct SystemResources {
    info: sysinfo::System,
    available: u64,
    total: u64,
}

impl SystemResources {
    /// The available memory (in kilobytes) read at creation or at the last poll.
    pub closed spec fn available_kb(&self) -> u64 {
        self.available
    }

    /// The total memory (in kilobytes) read at creation or at the last poll.
    pub closed spec fn total_kb(&self) -> u64 {
        self.total
    }

    /// Keeps `info` with the memory figures read from it.
    fn with_readings(info: sysinfo::System, available: u64, total: u64) -> (r: SystemResources)
        ensures
            r.available_kb() == available,
            r.total_kb() == total,
    {
        SystemResources { info, available, total }
    }

    /// Records new memory figures.
    fn record(&mut self, available: u64, total: u64)
        ensures
            final(self).available_kb() == available,
            final(self).total_kb() == total,
    {
        self.available = available;
        self.total = total;
    }

    /// Loads the system information and reads the memory figures from it.
    pub fn new() -> SystemResources {
        let info = new_system();
        let available = available_memory(&info);
        let total = total_memory(&info);
        SystemResources::with_readings(info, available, total)
    }

    /// Reads the system information again, and the memory figures with it.
    pub fn poll(&mut self) {
        refresh_system(&mut self.info);
        let available = available_memory(&self.info);
        let total = total_memory(&self.info);
        self.record(available, total);
    }

    /// Whether `bytes` more can be allocated: whether the available memory read at
    /// the last poll exceeds it.
    pub fn should_alloc(&self, bytes: u64) -> (ok: bool)
        ensures
            ok == (self.available_kb() > bytes),
    {
        memory_suffices(self.available, bytes)
    }

    /// The warning to log when there is not memory enough to load chunks.
    pub fn memory_warn(&self) -> (msg: String)
        ensures
            msg@ == warning_text(self.available_kb(), self.total_kb()),
    {
        memory_warning(self.available, self.total)
    }
}

} // verus!
