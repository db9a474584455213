//! A call that is ready to run.
//!
//! Each operation is a method of [`RenderDocInstallation`] that takes the
//! caller's working directory and a request and returns a [`PreparedCall`]:
//! the operation's names, the scripts directory below the working directory,
//! the host program, and the request as it will be written, with the paths in
//! it resolved against the working directory. From there
//! [`PreparedCall::begin`] names a run directory and starts the exchange.

use vstd::prelude::*;
use crate::exchange::{plan_of, Exchange, ExchangePlan, Operation, Stage};
use crate::paths::{default_scripts_dir, scripts_dir_of};
use crate::rundir::{run_dir_path, RunDirAllocator};
use crate::toolchain::{InstallationView, RenderDocInstallation};

verus! {

/// One call of one operation, before anything has been done for it.
#[derive(Debug, Clone, PartialEq, Eq)]
pub struct PreparedCall<R> {
    /// The operation that is called.
    pub operation: Operation,
    /// The program that runs the script.
    pub host_program: String,
    /// The directory that holds the scripts and the runs.
    pub scripts_dir: String,
    /// The request as it is written to the request file.
    pub request: R,
}

impl<R> PreparedCall<R> {
    /// Whether this is a call of the operation named by `stem` and
    /// `run_prefix`, made from `cwd` with the tools of `install`.
    pub open spec fn is_for(
        self,
        install: InstallationView,
        cwd: Seq<char>,
        stem: Seq<char>,
        run_prefix: Seq<char>,
    ) -> bool {
        &&& self.operation.stem@ == stem
        &&& self.operation.run_prefix@ == run_prefix
        &&& self.host_program@ == install.qrenderdoc_exe
        &&& self.scripts_dir@ == scripts_dir_of(cwd)
    }

    /// The plan of this call in the run directory `run_dir`, for a script
    /// with the text `script_text`.
    pub open spec fn plan_in(self, script_text: Seq<char>, run_dir: Seq<char>) -> crate::exchange::PlanView {
        plan_of(
            self.host_program@,
            self.scripts_dir@,
            self.operation.stem@,
            self.operation.run_prefix@,
            script_text,
            run_dir,
        )
    }

    /// Lays out this call in the run directory `run_dir`.
    pub fn plan(&self, script_text: &str, run_dir: &str) -> (out: ExchangePlan)
        ensures
            out@ == self.plan_in(script_text@, run_dir@),
    {
        ExchangePlan::new(
            self.host_program.as_str(),
            self.scripts_dir.as_str(),
            &self.operation,
            script_text,
            run_dir,
        )
    }

    /// Names a fresh run directory for this call and starts its exchange.
    ///
    /// `millis` is the time of the call in milliseconds since the Unix
    /// epoch. `None` means that the allocator is used up; nothing has
    /// changed then.
    pub fn begin(&self, allocator: &mut RunDirAllocator, script_text: &str, millis: u64) -> (out:
        Option<Exchange>)
        ensures
            final(allocator).process() == old(allocator).process(),
            old(allocator).sequence() == u64::MAX ==> out is None && final(allocator).sequence()
                == old(allocator).sequence(),
            old(allocator).sequence() < u64::MAX ==> out is Some && out->0.stage == Stage::Idle
                && out->0.plan@ == self.plan_in(
                script_text@,
                run_dir_path(
                    self.scripts_dir@,
                    self.operation.run_prefix@,
                    old(allocator).next_token(millis),
                ),
            ) && final(allocator).sequence() == old(allocator).sequence() + 1,
    {
        match allocator.allocate_run_dir(
            self.scripts_dir.as_str(),
            self.operation.run_prefix.as_str(),
            millis,
        ) {
            Some(run_dir) => Some(Exchange::new(self.plan(script_text, run_dir.as_str()))),
            None => None,
        }
    }
}

impl RenderDocInstallation {
    /// Prepares a call of the operation named by `stem` and `run_prefix`,
    /// made from `cwd`, with `request` as the request to write.
    pub fn prepare<R>(&self, cwd: &str, stem: &str, run_prefix: &str, request: R) -> (call:
        PreparedCall<R>)
        ensures
            call.is_for(self@, cwd@, stem@, run_prefix@),
            call.request == request,
    {
        PreparedCall {
            operation: Operation { stem: stem.to_owned(), run_prefix: run_prefix.to_owned() },
            host_program: self.qrenderdoc_exe.clone(),
            scripts_dir: default_scripts_dir(cwd),
            request,
        }
    }
}

} // verus!
