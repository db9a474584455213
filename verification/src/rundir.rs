//! Run directories: one per call, never shared.
//!
//! The request and the response of an operation have fixed file names, so two
//! calls of the same operation may only run side by side if each has a
//! directory of its own. A run directory lies at
//! `<scripts_dir>/<operation>/<process>-<millis>-<sequence>`. The process id
//! keeps processes apart, the sequence number keeps the calls of one process
//! apart, and the time tells a process from an earlier one with the same id.
//! The caller creates the directory exclusively: a directory that is already
//! there is a failure of the call and is never reused.

use vstd::prelude::*;
use vstd::string::*;
use crate::decimal::{
    decimal, decimal_string, is_digit, lemma_decimal_injective, lemma_decimal_is_digits,
};
use crate::paths::{is_absolute_path, join, joined, lemma_joined_cancels, needs_separator};

verus! {

/// What makes one run different from every other.
#[derive(Clone, Copy, Debug, PartialEq, Eq, Structural)]
pub struct RunToken {
    /// The id of the calling process.
    pub process_id: u32,
    /// Milliseconds since the Unix epoch at the time of the call.
    pub millis: u64,
    /// The number of run directories this process has handed out before.
    pub sequence: u64,
}

/// The name of the run directory for `token`.
pub open spec fn run_dir_name(token: RunToken) -> Seq<char> {
    decimal(token.process_id as nat) + seq!['-'] + decimal(token.millis as nat) + seq!['-']
        + decimal(token.sequence as nat)
}

/// The directory below which all runs of one operation lie.
pub open spec fn run_root(scripts_dir: Seq<char>, operation: Seq<char>) -> Seq<char> {
    joined(scripts_dir, operation)
}

/// The run directory of `operation` for `token`.
pub open spec fn run_dir_path(scripts_dir: Seq<char>, operation: Seq<char>, token: RunToken) -> Seq<
    char,
> {
    joined(run_root(scripts_dir, operation), run_dir_name(token))
}

proof fn lemma_split_at_dash(a: Seq<char>, x: Seq<char>, b: Seq<char>, y: Seq<char>)
    requires
        a + seq!['-'] + x == b + seq!['-'] + y,
        forall|i: int| 0 <= i < a.len() ==> is_digit(#[trigger] a[i]),
        forall|i: int| 0 <= i < b.len() ==> is_digit(#[trigger] b[i]),
    ensures
        a == b,
        x == y,
{
    let l = a + seq!['-'] + x;
    let r = b + seq!['-'] + y;
    assert(l[a.len() as int] == '-');
    assert(r[b.len() as int] == '-');
    if a.len() < b.len() {
        assert(r[a.len() as int] == b[a.len() as int]);
        assert(is_digit(b[a.len() as int]));
        assert(false);
    }
    if b.len() < a.len() {
        assert(l[b.len() as int] == a[b.len() as int]);
        assert(is_digit(a[b.len() as int]));
        assert(false);
    }
    assert(a =~= l.subrange(0, a.len() as int));
    assert(b =~= r.subrange(0, b.len() as int));
    assert(x =~= l.subrange(a.len() as int + 1, l.len() as int));
    assert(y =~= r.subrange(b.len() as int + 1, r.len() as int));
}

/// Two tokens with the same directory name are the same token.
pub proof fn lemma_run_dir_name_injective(s: RunToken, t: RunToken)
    requires
        run_dir_name(s) == run_dir_name(t),
    ensures
        s == t,
{
    lemma_decimal_is_digits(s.process_id as nat);
    lemma_decimal_is_digits(t.process_id as nat);
    lemma_decimal_is_digits(s.millis as nat);
    lemma_decimal_is_digits(t.millis as nat);
    let sp = decimal(s.process_id as nat);
    let tp = decimal(t.process_id as nat);
    let sm = decimal(s.millis as nat);
    let tm = decimal(t.millis as nat);
    let sq = decimal(s.sequence as nat);
    let tq = decimal(t.sequence as nat);
    assert(run_dir_name(s) =~= sp + seq!['-'] + (sm + seq!['-'] + sq));
    assert(run_dir_name(t) =~= tp + seq!['-'] + (tm + seq!['-'] + tq));
    lemma_split_at_dash(sp, sm + seq!['-'] + sq, tp, tm + seq!['-'] + tq);
    lemma_split_at_dash(sm, sq, tm, tq);
    lemma_decimal_injective(s.process_id as nat, t.process_id as nat);
    lemma_decimal_injective(s.millis as nat, t.millis as nat);
    lemma_decimal_injective(s.sequence as nat, t.sequence as nat);
}

/// Isolation: for one operation below one scripts directory, two calls that
/// differ in process, time or sequence number get different run directories.
pub proof fn lemma_run_dirs_are_distinct(
    scripts_dir: Seq<char>,
    operation: Seq<char>,
    s: RunToken,
    t: RunToken,
)
    requires
        s != t,
    ensures
        run_dir_path(scripts_dir, operation, s) != run_dir_path(scripts_dir, operation, t),
{
    if run_dir_path(scripts_dir, operation, s) == run_dir_path(scripts_dir, operation, t) {
        lemma_decimal_is_digits(s.process_id as nat);
        lemma_decimal_is_digits(t.process_id as nat);
        assert(run_dir_name(s)[0] == decimal(s.process_id as nat)[0]);
        assert(run_dir_name(t)[0] == decimal(t.process_id as nat)[0]);
        lemma_joined_cancels(run_root(scripts_dir, operation), run_dir_name(s), run_dir_name(t));
        lemma_run_dir_name_injective(s, t);
    }
}

/// A run directory never ends in a separator: its last character is the
/// last digit of the sequence number.
pub proof fn lemma_run_dir_ends_in_a_digit(scripts_dir: Seq<char>, run_prefix: Seq<char>, token: RunToken)
    ensures
        run_dir_path(scripts_dir, run_prefix, token).len() > 0,
        is_digit(run_dir_path(scripts_dir, run_prefix, token).last()),
        needs_separator(run_dir_path(scripts_dir, run_prefix, token)),
{
    lemma_decimal_is_digits(token.process_id as nat);
    lemma_decimal_is_digits(token.sequence as nat);
    let name = run_dir_name(token);
    let sequence = decimal(token.sequence as nat);
    assert(name[0] == decimal(token.process_id as nat)[0]);
    assert(name.last() == sequence.last());
    assert(!is_absolute_path(name));
}

/// Hands out run directories for the calls of one process.
///
/// The allocator counts the directories it has named. The count only ever
/// goes up, so no name comes twice from one allocator. Nothing is shared
/// between two allocators but the file system, where process id and time
/// keep their directories apart.
#[derive(Debug)]
pub struct RunDirAllocator {
    process_id: u32,
    next_sequence: u64,
}

impl RunDirAllocator {
    /// The id of the process that this allocator names directories for.
    pub closed spec fn process(self) -> u32 {
        self.process_id
    }

    /// The sequence number of the next run directory.
    pub closed spec fn sequence(self) -> u64 {
        self.next_sequence
    }

    /// The token that the next allocation will use at time `millis`.
    pub open spec fn next_token(self, millis: u64) -> RunToken {
        RunToken { process_id: self.process(), millis, sequence: self.sequence() }
    }

    /// An allocator that has handed out nothing yet.
    pub fn new(process_id: u32) -> (out: Self)
        ensures
            out.process() == process_id,
            out.sequence() == 0,
    {
        RunDirAllocator { process_id, next_sequence: 0 }
    }

    /// An allocator that goes on counting at `sequence`, for a process that
    /// has named `sequence` run directories before.
    pub fn starting_at(process_id: u32, sequence: u64) -> (out: Self)
        ensures
            out.process() == process_id,
            out.sequence() == sequence,
    {
        RunDirAllocator { process_id, next_sequence: sequence }
    }

    /// The id of the process that this allocator names directories for.
    pub fn process_id(&self) -> (out: u32)
        ensures
            out == self.process(),
    {
        self.process_id
    }

    /// The number of run directories named so far, which is the sequence
    /// number of the next one.
    pub fn next_sequence(&self) -> (out: u64)
        ensures
            out == self.sequence(),
    {
        self.next_sequence
    }

    /// Names the run directory for one call of `operation` at time `millis`,
    /// below `scripts_dir`.
    ///
    /// Returns `None`, and changes nothing, once the counter is used up:
    /// a sequence number is never handed out twice.
    pub fn allocate_run_dir(&mut self, scripts_dir: &str, operation: &str, millis: u64) -> (out:
        Option<String>)
        ensures
            final(self).process() == old(self).process(),
            old(self).sequence() == u64::MAX ==> out is None && final(self).sequence() == old(
                self,
            ).sequence(),
            old(self).sequence() < u64::MAX ==> out is Some && out->0@ == run_dir_path(
                scripts_dir@,
                operation@,
                old(self).next_token(millis),
            ) && final(self).sequence() == old(self).sequence() + 1,
    {
        if self.next_sequence == u64::MAX {
            return None;
        }
        let token = RunToken {
            process_id: self.process_id,
            millis,
            sequence: self.next_sequence,
        };
        let path = run_dir_for(scripts_dir, operation, token);
        self.next_sequence = self.next_sequence + 1;
        Some(path)
    }
}

/// Spells the directory name of `token`.
pub fn run_dir_name_string(token: RunToken) -> (out: String)
    ensures
        out@ == run_dir_name(token),
{
    proof {
        reveal_strlit("-");
    }
    let mut out = decimal_string(token.process_id as u64);
    out.append("-");
    let millis = decimal_string(token.millis);
    out.append(millis.as_str());
    out.append("-");
    let sequence = decimal_string(token.sequence);
    out.append(sequence.as_str());
    assert(out@ =~= run_dir_name(token));
    out
}

/// The run directory of `operation` for `token`, below `scripts_dir`.
pub fn run_dir_for(scripts_dir: &str, operation: &str, token: RunToken) -> (out: String)
    ensures
        out@ == run_dir_path(scripts_dir@, operation@, token),
{
    let root = join(scripts_dir, operation);
    let name = run_dir_name_string(token);
    join(root.as_str(), name.as_str())
}

/// Two allocations from one allocator never name the same directory, at
/// whatever times they are made: the later one has a larger sequence number.
pub proof fn lemma_successive_allocations_differ(
    scripts_dir: Seq<char>,
    operation: Seq<char>,
    process_id: u32,
    first_sequence: u64,
    first_millis: u64,
    later_sequence: u64,
    later_millis: u64,
)
    requires
        first_sequence < later_sequence,
    ensures
        run_dir_path(
            scripts_dir,
            operation,
            RunToken { process_id, millis: first_millis, sequence: first_sequence },
        ) != run_dir_path(
            scripts_dir,
            operation,
            RunToken { process_id, millis: later_millis, sequence: later_sequence },
        ),
{
    lemma_run_dirs_are_distinct(
        scripts_dir,
        operation,
        RunToken { process_id, millis: first_millis, sequence: first_sequence },
        RunToken { process_id, millis: later_millis, sequence: later_sequence },
    );
}

} // verus!
