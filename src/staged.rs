use vstd::prelude::*;
use vstd::string::*;
use crate::error::Error;
use crate::models::{local_uri, FileUri, FileUriView};
use crate::permission::{allows, Capability, PermissionRegistry};
use crate::text::{is_prefix, starts_with};

verus! {

/// Identifier prefix of the providers known not to persist writes made
/// through a file descriptor. Writes to them are staged.
pub const STAGED_WRITE_PREFIX: &'static str = "content://com.google.android.apps.docs.storage";

/// Writes to `u` must go through a staged temporary file.
pub open spec fn needs_staged_write(u: FileUriView) -> bool {
    is_prefix(STAGED_WRITE_PREFIX@, u.uri)
}

/// Whether writes to `uri` must be staged through a private temporary file
/// and copied by the provider, rather than written through a descriptor.
pub fn need_write_via_kotlin(uri: &FileUri) -> (r: bool)
    ensures
        r == needs_staged_write(uri@),
{
    starts_with(uri.uri(), STAGED_WRITE_PREFIX)
}

/// How the contents of a write reach the target.
#[derive(Debug, Clone, Copy, PartialEq, Eq, Structural)]
pub enum WriteStrategy {
    /// Open the target for truncating write and write through the descriptor.
    Direct,
    /// Write a private temporary file, then have the provider copy it.
    Staged,
}

impl PermissionRegistry {
    /// Decides how to write to `uri`: refused without a write grant, staged
    /// for the providers that need it, direct otherwise.
    pub fn plan_write(&self, uri: &FileUri) -> (r: Result<WriteStrategy, Error>)
        requires
            self.wf(),
        ensures
            !allows(self@, self.spec_roots(), uri@, Capability::Write) ==> (r matches Err(e) && e is PermissionDenied),
            allows(self@, self.spec_roots(), uri@, Capability::Write) ==> r == Ok::<WriteStrategy, Error>(
                if needs_staged_write(uri@) {
                    WriteStrategy::Staged
                } else {
                    WriteStrategy::Direct
                },
            ),
    {
        match self.authorize(uri, Capability::Write) {
            Err(e) => Err(e),
            Ok(()) => if need_write_via_kotlin(uri) {
                Ok(WriteStrategy::Staged)
            } else {
                Ok(WriteStrategy::Direct)
            },
        }
    }
}

/// The step a staged write asks for next.
#[derive(Debug, Clone, Copy, PartialEq, Eq, Structural)]
pub enum StagedStep {
    /// Create the temporary file's parent directories. Best effort.
    CreateParentDirs,
    /// Create the temporary file and write the full contents to it.
    WriteTemp,
    /// Have the provider copy the temporary file onto the target.
    CopyToTarget,
    /// Remove the temporary file.
    RemoveTemp,
    /// Nothing is left to do.
    Done,
}

/// Where a staged write stands, and the first failure it met.
pub struct StagedState {
    pub step: StagedStep,
    pub failure: Option<Error>,
}

/// The state after the current step came out as `outcome`.
///
/// Creating directories is best effort and removing the temporary file never
/// decides the result; a failed write skips the copy and goes straight to
/// clean-up.
pub open spec fn staged_next(s: StagedState, outcome: Result<(), Error>) -> StagedState {
    match s.step {
        StagedStep::CreateParentDirs => StagedState { step: StagedStep::WriteTemp, failure: s.failure },
        StagedStep::WriteTemp => match outcome {
            Ok(_) => StagedState { step: StagedStep::CopyToTarget, failure: s.failure },
            Err(e) => StagedState { step: StagedStep::RemoveTemp, failure: Some(e) },
        },
        StagedStep::CopyToTarget => match outcome {
            Ok(_) => StagedState { step: StagedStep::RemoveTemp, failure: s.failure },
            Err(e) => StagedState { step: StagedStep::RemoveTemp, failure: Some(e) },
        },
        StagedStep::RemoveTemp => StagedState { step: StagedStep::Done, failure: s.failure },
        StagedStep::Done => s,
    }
}

/// The result a staged write reports once it is done.
pub open spec fn staged_result(s: StagedState) -> Result<(), Error> {
    match s.failure {
        Some(e) => Err(e),
        None => Ok(()),
    }
}

/// A staged write that starts afresh.
pub open spec fn staged_start() -> StagedState {
    StagedState { step: StagedStep::CreateParentDirs, failure: None }
}

/// Drives a staged write from `s` with the outcomes of its steps, until it
/// is done or the outcomes run out; gives the final state and the steps
/// performed.
pub open spec fn staged_run(s: StagedState, outcomes: Seq<Result<(), Error>>) -> (StagedState, Seq<StagedStep>)
    decreases outcomes.len(),
{
    if s.step is Done || outcomes.len() == 0 {
        (s, Seq::empty())
    } else {
        let (end, steps) = staged_run(staged_next(s, outcomes[0]), outcomes.drop_first());
        (end, seq![s.step] + steps)
    }
}

/// One write of a whole file to `target` through the temporary file at
/// `temp_path` in private storage.
///
/// The caller performs each step that [`StagedWrite::step`] asks for and
/// hands its outcome to [`StagedWrite::advance`], until the step is `Done`;
/// then [`StagedWrite::finish`] gives the result.
pub struct StagedWrite {
    target: FileUri,
    temp_path: String,
    state: StagedState,
}

impl StagedWrite {
    pub closed spec fn spec_target(&self) -> FileUri {
        self.target
    }

    pub closed spec fn spec_temp_path(&self) -> Seq<char> {
        self.temp_path@
    }

    pub closed spec fn spec_state(&self) -> StagedState {
        self.state
    }

    /// A staged write of `target` through the temporary file at `temp_path`.
    pub fn new(target: FileUri, temp_path: String) -> (r: StagedWrite)
        ensures
            r.spec_target() == target,
            r.spec_temp_path() == temp_path@,
            r.spec_state() == staged_start(),
    {
        StagedWrite { target, temp_path, state: StagedState { step: StagedStep::CreateParentDirs, failure: None } }
    }

    /// The step to perform now.
    pub fn step(&self) -> (r: StagedStep)
        ensures
            r == self.spec_state().step,
    {
        self.state.step
    }

    /// The handle being written.
    pub fn target(&self) -> (r: &FileUri)
        ensures
            *r == self.spec_target(),
    {
        &self.target
    }

    /// The local path of the temporary file.
    pub fn temp_path(&self) -> (r: &str)
        ensures
            r@ == self.spec_temp_path(),
    {
        self.temp_path.as_str()
    }

    /// The handle of the temporary file, the source of the provider's copy.
    pub fn temp_uri(&self) -> (r: FileUri)
        ensures
            r@ == (FileUriView { uri: local_uri(self.spec_temp_path()), tree: None }),
    {
        FileUri::from_path(self.temp_path.as_str())
    }

    /// Records how the current step came out and moves to the next one.
    pub fn advance(&mut self, outcome: Result<(), Error>)
        ensures
            final(self).spec_state() == staged_next(old(self).spec_state(), outcome),
            final(self).spec_target() == old(self).spec_target(),
            final(self).spec_temp_path() == old(self).spec_temp_path(),
    {
        match self.state.step {
            StagedStep::CreateParentDirs => {
                self.state.step = StagedStep::WriteTemp;
            },
            StagedStep::WriteTemp => match outcome {
                Ok(()) => {
                    self.state.step = StagedStep::CopyToTarget;
                },
                Err(e) => {
                    self.state.step = StagedStep::RemoveTemp;
                    self.state.failure = Some(e);
                },
            },
            StagedStep::CopyToTarget => match outcome {
                Ok(()) => {
                    self.state.step = StagedStep::RemoveTemp;
                },
                Err(e) => {
                    self.state.step = StagedStep::RemoveTemp;
                    self.state.failure = Some(e);
                },
            },
            StagedStep::RemoveTemp => {
                self.state.step = StagedStep::Done;
            },
            StagedStep::Done => {},
        }
    }

    /// The result of the write: the first failure of the local write or the
    /// provider's copy, success if neither failed.
    pub fn finish(self) -> (r: Result<(), Error>)
        requires
            self.spec_state().step is Done,
        ensures
            r == staged_result(self.spec_state()),
    {
        match self.state.failure {
            Some(e) => Err(e),
            None => Ok(()),
        }
    }
}

/// A staged write always ends, copies to the target exactly once when the
/// local write succeeded and never otherwise, and removes the temporary file
/// as its last step, whatever the outcomes.
pub proof fn lemma_staged_write_steps(outcomes: Seq<Result<(), Error>>)
    requires
        outcomes.len() >= 4,
    ensures
        staged_run(staged_start(), outcomes).0.step is Done,
        staged_run(staged_start(), outcomes).1 == if outcomes[1] is Ok {
            seq![StagedStep::CreateParentDirs, StagedStep::WriteTemp, StagedStep::CopyToTarget, StagedStep::RemoveTemp]
        } else {
            seq![StagedStep::CreateParentDirs, StagedStep::WriteTemp, StagedStep::RemoveTemp]
        },
{
    lemma_staged_run_unfold(outcomes);
}

/// The result of a staged write is the local write's failure if it failed,
/// and otherwise the provider copy's outcome; removing the temporary file
/// never decides it.
pub proof fn lemma_staged_write_result(outcomes: Seq<Result<(), Error>>)
    requires
        outcomes.len() >= 4,
    ensures
        staged_result(staged_run(staged_start(), outcomes).0) == if outcomes[1] is Err {
            outcomes[1]
        } else {
            outcomes[2]
        },
{
    lemma_staged_run_unfold(outcomes);
}

proof fn lemma_staged_run_unfold(o: Seq<Result<(), Error>>)
    requires
        o.len() >= 4,
    ensures
        ({
            let s1 = staged_next(staged_start(), o[0]);
            let s2 = staged_next(s1, o[1]);
            let s3 = staged_next(s2, o[2]);
            let s4 = staged_next(s3, o[3]);
            &&& s1.step is WriteTemp
            &&& if o[1] is Ok {
                &&& staged_run(staged_start(), o) == (s4, seq![StagedStep::CreateParentDirs, StagedStep::WriteTemp, StagedStep::CopyToTarget, StagedStep::RemoveTemp])
                &&& s4.step is Done
                &&& staged_result(s4) == o[2]
            } else {
                &&& staged_run(staged_start(), o) == (s3, seq![StagedStep::CreateParentDirs, StagedStep::WriteTemp, StagedStep::RemoveTemp])
                &&& s3.step is Done
                &&& staged_result(s3) == o[1]
            }
        }),
{
    let s0 = staged_start();
    let s1 = staged_next(s0, o[0]);
    let s2 = staged_next(s1, o[1]);
    let s3 = staged_next(s2, o[2]);
    let s4 = staged_next(s3, o[3]);
    let o1 = o.drop_first();
    let o2 = o1.drop_first();
    let o3 = o2.drop_first();
    let o4 = o3.drop_first();
    assert(o1[0] == o[1] && o2[0] == o[2] && o3[0] == o[3]);
    if o[1] is Ok {
        assert(staged_run(s4, o4) == (s4, Seq::<StagedStep>::empty()));
        assert(staged_run(s3, o3).1 =~= seq![StagedStep::RemoveTemp]);
        assert(staged_run(s2, o2).1 =~= seq![StagedStep::CopyToTarget, StagedStep::RemoveTemp]);
        assert(staged_run(s1, o1).1 =~= seq![StagedStep::WriteTemp, StagedStep::CopyToTarget, StagedStep::RemoveTemp]);
        assert(staged_run(s0, o).1 =~= seq![StagedStep::CreateParentDirs, StagedStep::WriteTemp, StagedStep::CopyToTarget, StagedStep::RemoveTemp]);
        assert(staged_run(s3, o3).0 == s4);
        assert(staged_run(s2, o2).0 == s4);
        assert(staged_run(s1, o1).0 == s4);
        assert(staged_run(s0, o).0 == s4);
        match o[2] {
            Ok(u) => {
                assert(u == ());
            },
            Err(e) => {},
        }
    } else {
        assert(staged_run(s3, o3) == (s3, Seq::<StagedStep>::empty()));
        assert(staged_run(s2, o2).1 =~= seq![StagedStep::RemoveTemp]);
        assert(staged_run(s1, o1).1 =~= seq![StagedStep::WriteTemp, StagedStep::RemoveTemp]);
        assert(staged_run(s0, o).1 =~= seq![StagedStep::CreateParentDirs, StagedStep::WriteTemp, StagedStep::RemoveTemp]);
        assert(staged_run(s2, o2).0 == s3);
        assert(staged_run(s1, o1).0 == s3);
        assert(staged_run(s0, o).0 == s3);
    }
}

/// Directory, below the private cache directory, that holds the staged
/// temporary files; swept when the storage layer starts.
pub const STAGED_TEMP_DIR: &'static str = "tauri-plugin-android-fs-tmp";

/// The decimal digits of `n`, most significant first.
pub open spec fn decimal(n: nat) -> Seq<char>
    decreases n,
{
    if n < 10 {
        seq!["0123456789"@[n as int]]
    } else {
        decimal(n / 10) + seq!["0123456789"@[(n % 10) as int]]
    }
}

/// The path, relative to the private cache directory, of the temporary file
/// of operation `tag` with sequence number `id`.
pub open spec fn temp_name(tag: Seq<char>, id: nat) -> Seq<char> {
    STAGED_TEMP_DIR@ + "/"@ + tag + " "@ + decimal(id)
}

/// Appends the decimal digits of `n` to `out`.
fn append_decimal(out: &mut String, n: u64)
    ensures
        final(out)@ == old(out)@ + decimal(n as nat),
    decreases n,
{
    proof {
        reveal_strlit("0123456789");
    }
    if n >= 10 {
        append_decimal(out, n / 10);
    }
    let d = (n % 10) as usize;
    let digit = "0123456789".substring_char(d, d + 1);
    assert(digit@ =~= seq!["0123456789"@[d as int]]);
    out.append(digit);
    assert(final(out)@ =~= old(out)@ + decimal(n as nat));
}

/// The path, relative to the private cache directory, of the temporary file
/// of operation `tag` with sequence number `id`. Callers draw `id` from one
/// counter, so that concurrent operations never share a file.
pub fn staged_temp_relative_path(tag: &str, id: u64) -> (r: String)
    ensures
        r@ == temp_name(tag@, id as nat),
{
    let mut out = String::from_str(STAGED_TEMP_DIR);
    out.append("/");
    out.append(tag);
    out.append(" ");
    append_decimal(&mut out, id);
    out
}

proof fn lemma_decimal_nonempty(n: nat)
    ensures
        decimal(n).len() >= 1,
    decreases n,
{
    if n >= 10 {
        lemma_decimal_nonempty(n / 10);
    }
}

proof fn lemma_decimal_injective(a: nat, b: nat)
    requires
        decimal(a) == decimal(b),
    ensures
        a == b,
    decreases a,
{
    reveal_strlit("0123456789");
    let digits = "0123456789"@;
    assert(digits.len() == 10);
    assert(forall|i: int, j: int| 0 <= i < 10 && 0 <= j < 10 && digits[i] == digits[j] ==> i == j) by {
        assert(digits =~= seq!['0', '1', '2', '3', '4', '5', '6', '7', '8', '9']);
    }
    if a >= 10 {
        lemma_decimal_nonempty(a / 10);
        assert(decimal(a) == decimal(a / 10) + seq![digits[(a % 10) as int]]);
    }
    if b >= 10 {
        lemma_decimal_nonempty(b / 10);
        assert(decimal(b) == decimal(b / 10) + seq![digits[(b % 10) as int]]);
    }
    if a < 10 && b < 10 {
        assert(decimal(a)[0] == digits[a as int]);
        assert(decimal(b)[0] == digits[b as int]);
    } else if a >= 10 && b >= 10 {
        let da = decimal(a);
        let db = decimal(b);
        assert(da.last() == digits[(a % 10) as int]);
        assert(db.last() == digits[(b % 10) as int]);
        assert(da.drop_last() =~= decimal(a / 10));
        assert(db.drop_last() =~= decimal(b / 10));
        lemma_decimal_injective(a / 10, b / 10);
        assert(a % 10 == b % 10);
        assert(a == (a / 10) * 10 + a % 10);
        assert(b == (b / 10) * 10 + b % 10);
    } else {
        assert(decimal(a).len() != decimal(b).len());
    }
}

/// Temporary files of the same operation with different sequence numbers
/// have different paths.
pub proof fn lemma_temp_names_distinct(tag: Seq<char>, a: nat, b: nat)
    requires
        a != b,
    ensures
        temp_name(tag, a) != temp_name(tag, b),
{
    let p = STAGED_TEMP_DIR@ + "/"@ + tag + " "@;
    if temp_name(tag, a) == temp_name(tag, b) {
        assert(temp_name(tag, a).subrange(p.len() as int, temp_name(tag, a).len() as int) =~= decimal(a));
        assert(temp_name(tag, b).subrange(p.len() as int, temp_name(tag, b).len() as int) =~= decimal(b));
        lemma_decimal_injective(a, b);
    }
}

} // verus!
