use vstd::prelude::*;
use vstd::string::*;

use crate::decimal::{append_decimal, decimal_digits};
use crate::memory::spec_crash_is_oom;

verus! {

/// Exit status when the PDF could not be opened.
pub const EXIT_OPEN_PDF: i32 = 1;

/// Exit status when an output file could not be written.
pub const EXIT_OPEN_OUTPUT: i32 = 2;

/// Exit status when a page was skipped for the memory limit.
pub const EXIT_MEMORY: i32 = 4;

/// Exit status for anything else: a bad command line, an empty page range,
/// no page rendered.
pub const EXIT_OTHER: i32 = 99;

/// How one page of the run went: its image was written, its file could
/// not be written, it was skipped for the memory limit, or it failed to
/// render.
#[derive(Clone, Copy, Debug, PartialEq, Eq, Structural)]
pub enum PageEvent {
    Written,
    WriteFailed,
    SkippedForMemory,
    RenderFailed,
}

/// What the run does after a page: go on, or end at once with a status.
#[derive(Clone, Copy, Debug, PartialEq, Eq, Structural)]
pub enum NextStep {
    Continue,
    Exit(i32),
}

/// The count of each page outcome so far.
#[derive(Clone, Copy, Debug, PartialEq, Eq, Structural)]
pub struct Tally {
    pub ok: u32,
    pub failed: u32,
    pub oom: u32,
}

/// How a run ends after its pages: some skipped for the memory limit, some
/// failed while others rendered, some failed and none rendered, or clean.
#[derive(Clone, Copy, Debug, PartialEq, Eq, Structural)]
pub enum RunEnd {
    MemoryLimited(u32),
    PagesFailed(u32),
    NothingRendered(u32),
    Clean,
}

/// Like pdftoppm: pages that fail are skipped; the memory limit decides
/// first, and otherwise the run fails only when no page rendered.
pub open spec fn spec_run_end(t: Tally) -> RunEnd {
    if t.oom > 0 {
        RunEnd::MemoryLimited(t.oom)
    } else if t.failed > 0 {
        if t.ok == 0 {
            RunEnd::NothingRendered(t.failed)
        } else {
            RunEnd::PagesFailed(t.failed)
        }
    } else {
        RunEnd::Clean
    }
}

pub open spec fn spec_exit_code(e: RunEnd) -> i32 {
    match e {
        RunEnd::MemoryLimited(_) => EXIT_MEMORY,
        RunEnd::PagesFailed(_) => 0,
        RunEnd::NothingRendered(_) => EXIT_OTHER,
        RunEnd::Clean => 0,
    }
}

pub open spec fn spec_run_end_message(e: RunEnd) -> Option<Seq<char>> {
    match e {
        RunEnd::MemoryLimited(n) => Some(
            decimal_digits(n as nat) + " page(s) skipped for -max-memory"@,
        ),
        RunEnd::PagesFailed(n) => Some(decimal_digits(n as nat) + " page(s) failed to render"@),
        RunEnd::NothingRendered(n) => Some(
            decimal_digits(n as nat) + " page(s) failed to render"@,
        ),
        RunEnd::Clean => None,
    }
}

impl Tally {
    pub open spec fn total(self) -> int {
        self.ok + self.failed + self.oom
    }

    /// No page yet.
    pub fn new() -> (t: Tally)
        ensures
            t == (Tally { ok: 0, failed: 0, oom: 0 }),
    {
        Tally { ok: 0, failed: 0, oom: 0 }
    }

    /// Takes in how one more page went. A file that cannot be written ends
    /// the run at once with status 2, like pdftoppm; any other outcome is
    /// counted and the run goes on.
    pub fn after_page(&mut self, event: PageEvent) -> (next: NextStep)
        requires
            old(self).total() < u32::MAX,
        ensures
            event == PageEvent::WriteFailed ==> next == NextStep::Exit(EXIT_OPEN_OUTPUT)
                && *final(self) == *old(self),
            event != PageEvent::WriteFailed ==> next == NextStep::Continue
                && final(self).total() == old(self).total() + 1,
            final(self).ok == old(self).ok + (if event == PageEvent::Written { 1int } else { 0 }),
            final(self).failed == old(self).failed + (if event == PageEvent::RenderFailed { 1int } else { 0 }),
            final(self).oom == old(self).oom + (if event == PageEvent::SkippedForMemory { 1int } else { 0 }),
    {
        match event {
            PageEvent::Written => {
                self.ok = self.ok + 1;
                NextStep::Continue
            },
            PageEvent::WriteFailed => NextStep::Exit(EXIT_OPEN_OUTPUT),
            PageEvent::SkippedForMemory => {
                self.oom = self.oom + 1;
                NextStep::Continue
            },
            PageEvent::RenderFailed => {
                self.failed = self.failed + 1;
                NextStep::Continue
            },
        }
    }

    /// How the run ends after the pages counted so far. The run fails with
    /// status 4 when a page was skipped for the memory limit, with status 99
    /// when pages failed and none rendered, and succeeds otherwise.
    pub fn end(&self) -> (e: RunEnd)
        ensures
            e == spec_run_end(*self),
            (spec_exit_code(e) == 0) == (self.oom == 0 && (self.failed == 0 || self.ok > 0)),
            self.oom > 0 ==> e == RunEnd::MemoryLimited(self.oom),
            self.oom == 0 && self.failed > 0 && self.ok == 0 ==> e == RunEnd::NothingRendered(
                self.failed,
            ),
            self.oom == 0 && self.failed > 0 && self.ok > 0 ==> e == RunEnd::PagesFailed(self.failed),
            self.oom == 0 && self.failed == 0 ==> e == RunEnd::Clean,
    {
        if self.oom > 0 {
            RunEnd::MemoryLimited(self.oom)
        } else if self.failed > 0 {
            if self.ok == 0 {
                RunEnd::NothingRendered(self.failed)
            } else {
                RunEnd::PagesFailed(self.failed)
            }
        } else {
            RunEnd::Clean
        }
    }
}

impl RunEnd {
    /// The process exit status for this end of the run.
    pub fn exit_code(&self) -> (c: i32)
        ensures
            c == spec_exit_code(*self),
    {
        match self {
            RunEnd::MemoryLimited(_) => EXIT_MEMORY,
            RunEnd::PagesFailed(_) => 0,
            RunEnd::NothingRendered(_) => EXIT_OTHER,
            RunEnd::Clean => 0,
        }
    }

    /// What the user is told at the end of the run, if anything.
    pub fn message(&self) -> (m: Option<String>)
        ensures
            match spec_run_end_message(*self) {
                Some(t) => m matches Some(s) && s@ == t,
                None => m is None,
            },
    {
        match self {
            RunEnd::MemoryLimited(n) => {
                let mut s = String::new();
                append_decimal(&mut s, *n as u64);
                s.append(" page(s) skipped for -max-memory");
                Some(s)
            },
            RunEnd::PagesFailed(n) | RunEnd::NothingRendered(n) => {
                let mut s = String::new();
                append_decimal(&mut s, *n as u64);
                s.append(" page(s) failed to render");
                Some(s)
            },
            RunEnd::Clean => None,
        }
    }
}

/// The fatal signals that end a run under a memory limit.
#[derive(Clone, Copy, Debug, PartialEq, Eq, Structural)]
pub enum FatalSignal {
    Abort,
    Trap,
    Illegal,
    Segfault,
    Bus,
    Other,
}

/// What the process reports when a fatal signal ends it under a memory
/// limit: the signal's name, the guess about its cause, and the exit status.
pub struct CrashReport {
    pub signal_name: &'static str,
    pub cause: &'static str,
    pub exit_code: i32,
}

pub open spec fn spec_signal_name(s: FatalSignal) -> Seq<char> {
    match s {
        FatalSignal::Abort => "SIGABRT"@,
        FatalSignal::Trap => "SIGTRAP"@,
        FatalSignal::Illegal => "SIGILL"@,
        FatalSignal::Segfault => "SIGSEGV"@,
        FatalSignal::Bus => "SIGBUS"@,
        FatalSignal::Other => "a fatal signal"@,
    }
}

/// Tells an allocation failure inside the renderer apart from an ordinary
/// crash by how close the address space (`vm_bytes`, when known) was to the
/// limit of `limit` bytes: status 4 when within a third of it or unknown,
/// else 99. It allocates nothing, so a signal handler may call it.
pub fn crash_report(signal: FatalSignal, vm_bytes: Option<u64>, limit: u64) -> (r: CrashReport)
    ensures
        r.signal_name@ == spec_signal_name(signal),
        spec_crash_is_oom(vm_bytes, limit) ==> r.exit_code == EXIT_MEMORY
            && r.cause@ == " with address space near -max-memory; probably out of memory\n"@,
        !spec_crash_is_oom(vm_bytes, limit) ==> r.exit_code == EXIT_OTHER
            && r.cause@ == " well under -max-memory; probably a PDFium bug, not memory\n"@,
{
    let signal_name = match signal {
        FatalSignal::Abort => "SIGABRT",
        FatalSignal::Trap => "SIGTRAP",
        FatalSignal::Illegal => "SIGILL",
        FatalSignal::Segfault => "SIGSEGV",
        FatalSignal::Bus => "SIGBUS",
        FatalSignal::Other => "a fatal signal",
    };
    if crate::memory::crash_is_oom(vm_bytes, limit) {
        CrashReport {
            signal_name,
            cause: " with address space near -max-memory; probably out of memory\n",
            exit_code: EXIT_MEMORY,
        }
    } else {
        CrashReport {
            signal_name,
            cause: " well under -max-memory; probably a PDFium bug, not memory\n",
            exit_code: EXIT_OTHER,
        }
    }
}

/// A page skipped for the memory limit decides how the run ends: it ends as
/// limited by memory, counting those pages, with status 4, however many
/// other pages rendered or failed.
pub proof fn lemma_memory_skip_decides_the_run(t: Tally)
    requires
        t.oom > 0,
    ensures
        spec_run_end(t) == RunEnd::MemoryLimited(t.oom),
        spec_exit_code(spec_run_end(t)) == 4,
{
}

/// Without pages skipped for memory, the run fails (status 99) exactly when
/// some page failed and none rendered, and otherwise ends with status 0.
pub proof fn lemma_run_fails_only_when_nothing_rendered(t: Tally)
    requires
        t.oom == 0,
    ensures
        spec_exit_code(spec_run_end(t)) == 99 <==> (t.failed > 0 && t.ok == 0),
        spec_exit_code(spec_run_end(t)) == 0 <==> !(t.failed > 0 && t.ok == 0),
        t.failed > 0 ==> spec_run_end(t) == (if t.ok == 0 {
            RunEnd::NothingRendered(t.failed)
        } else {
            RunEnd::PagesFailed(t.failed)
        }),
        t.failed == 0 ==> spec_run_end(t) == RunEnd::Clean,
{
}

/// A run whose pages were all written ends clean, with status 0.
pub proof fn lemma_all_written_is_clean(ok: u32)
    ensures
        spec_run_end(Tally { ok, failed: 0, oom: 0 }) == RunEnd::Clean,
        spec_exit_code(spec_run_end(Tally { ok, failed: 0, oom: 0 })) == 0,
{
}

} // verus!
