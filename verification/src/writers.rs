//! The writer-enumeration pipeline: its control decisions, the calls it
//! performs, the diagnostics it emits, and its resource discipline.
//!
//! The pipeline drives the platform's backup subsystem through a fixed
//! sequence of calls — initialize, create a session, configure it, gather
//! writer metadata asynchronously, wait, then query each writer — and
//! releases what it acquired on every exit path.  The subsystem itself is
//! outside this library; the caller performs each call and reports its
//! outcome.  The functions here take those reported outcomes and decide
//! everything else: which calls are performed in which order (the trace),
//! which diagnostics are emitted (the log), and which writer records come
//! back.  The contracts pin all three down exactly, for every combination
//! of outcomes the subsystem can report.

use vstd::prelude::*;
use crate::status::{S_OK, E_POINTER, failed};
use crate::guid::{Guid, guid_text, guid_to_string};

verus! {

/// One call into the platform, in the order the pipeline performs them.
#[derive(Clone, Copy, Debug, PartialEq, Eq)]
pub enum Action {
    /// Initialize the underlying subsystem.
    CoInitialize,
    /// Acquire the backup-components session handle.
    CreateComponents,
    /// Initialize the session for a backup operation.
    InitializeForBackup,
    /// Declare the backup type and options on the session.
    SetBackupState,
    /// Request asynchronous gathering of writer metadata.
    GatherMetadata,
    /// Block on the async operation until it signals completion.
    WaitAsync,
    /// Query the completed async operation's final status.
    QueryAsyncStatus,
    /// Query the number of writers.
    GetWriterStatusCount,
    /// Query one writer's identity, name and state, by index.
    GetWriterStatus(u32),
    /// Free the per-writer status buffers held by the session.
    FreeWriterStatus,
    /// Release the session handle.
    ReleaseSession,
    /// Deinitialize the underlying subsystem.
    CoUninitialize,
}

/// One diagnostic line, with the status code it reports.
#[derive(Clone, Copy, Debug, PartialEq, Eq)]
pub enum LogEvent {
    CoInitFailed(i32),
    CreateFailed(i32),
    InitializeFailed(i32),
    SetBackupStateFailed(i32),
    GatherFailed(i32),
    /// The async handle to wait on was null.
    AsyncNull,
    /// The blocking wait itself reported failure.
    AsyncWaitFailed(i32),
    /// The queried final status of the async operation was a failure.
    AsyncQueryFailed(i32),
    /// The queried final status of the async operation (informational).
    AsyncResult(i32),
    /// The wait helper as a whole reported failure to the pipeline.
    WaitHelperFailed(i32),
    CountFailed(i32),
    /// The number of writers reported (informational).
    WriterCount(u32),
}

/// How often a trace releases the session handle.
pub open spec fn release_count(t: Seq<Action>) -> nat
    decreases t.len(),
{
    if t.len() == 0 {
        0
    } else {
        release_count(t.drop_last()) + (if t.last() is ReleaseSession {
            1nat
        } else {
            0nat
        })
    }
}

/// How often a trace deinitializes the underlying subsystem.
pub open spec fn deinit_count(t: Seq<Action>) -> nat
    decreases t.len(),
{
    if t.len() == 0 {
        0
    } else {
        deinit_count(t.drop_last()) + (if t.last() is CoUninitialize {
            1nat
        } else {
            0nat
        })
    }
}

/// Appends one performed call to the trace, keeping the release and
/// deinitialize tallies in step.
fn record(trace: &mut Vec<Action>, a: Action)
    ensures
        final(trace)@ == old(trace)@.push(a),
        release_count(final(trace)@) == release_count(old(trace)@) + (if a is ReleaseSession {
            1nat
        } else {
            0nat
        }),
        deinit_count(final(trace)@) == deinit_count(old(trace)@) + (if a is CoUninitialize {
            1nat
        } else {
            0nat
        }),
{
    let ghost t0 = trace@;
    trace.push(a);
    proof {
        assert(trace@.drop_last() =~= t0);
    }
}

/// What one per-writer query reported: its status code and, on success,
/// the writer's identifier and display name.
#[derive(Clone, Debug)]
pub struct WriterQueryOutcome {
    pub hr: i32,
    pub writer_id: Guid,
    pub writer_name: String,
}

/// One enumerated writer: its identifier in canonical text form, and its
/// display name.
#[derive(Clone, Debug)]
pub struct WriterDetails {
    pub writer_id: String,
    pub writer_name: String,
}

impl View for WriterDetails {
    type V = (Seq<char>, Seq<char>);

    open spec fn view(&self) -> (Seq<char>, Seq<char>) {
        (self.writer_id@, self.writer_name@)
    }
}

/// The record views of a sequence of writer records.
pub open spec fn records_view(ws: Seq<WriterDetails>) -> Seq<(Seq<char>, Seq<char>)> {
    ws.map_values(|w: WriterDetails| w@)
}

/// Everything the platform reported to one run of the pipeline, one field
/// per call site.  A later field is consulted only when every earlier
/// step succeeded, so a script that stops at a failure may leave the rest
/// at any value.
#[derive(Clone, Debug)]
pub struct CallOutcomes {
    /// Status of initializing the underlying subsystem.
    pub co_init_hr: i32,
    /// Status of acquiring the session handle.
    pub create_hr: i32,
    /// Whether the acquired session handle was null.
    pub create_null: bool,
    /// Status of initializing the session for backup.
    pub init_hr: i32,
    /// Status of declaring the backup state.
    pub set_state_hr: i32,
    /// Status of requesting asynchronous metadata gathering.
    pub gather_hr: i32,
    /// Whether the async operation handle was null.
    pub async_null: bool,
    /// What the blocking wait on the async operation reported.
    pub wait_hr: i32,
    /// The async operation's queried final status.
    pub async_status: i32,
    /// Status of querying the number of writers.
    pub count_hr: i32,
    /// The number of writers reported.
    pub count: u32,
    /// What each per-writer query reported, one entry per index.
    pub writers: Vec<WriterQueryOutcome>,
}

impl CallOutcomes {
    /// The script holds one per-writer outcome for each reported index.
    pub open spec fn wf(&self) -> bool {
        self.writers@.len() == self.count as int
    }
}

/// What one run of the pipeline produced: the writer records, the calls
/// performed in order, and the diagnostics emitted in order.
#[derive(Debug)]
pub struct EnumerationRun {
    pub writers: Vec<WriterDetails>,
    pub trace: Vec<Action>,
    pub logs: Vec<LogEvent>,
}

/// The status the wait helper returns: the null-argument code for a null
/// handle; the wait's own code if the wait fails; otherwise the
/// operation's queried final status, whatever it reports.
pub open spec fn wait_result(handle_null: bool, wait_hr: i32, status: i32) -> i32 {
    if handle_null {
        E_POINTER
    } else if failed(wait_hr) {
        wait_hr
    } else {
        status
    }
}

/// The calls the wait helper performs: none for a null handle; the wait
/// alone if it fails; otherwise the wait and then the status query.
pub open spec fn wait_trace(handle_null: bool, wait_hr: i32) -> Seq<Action> {
    if handle_null {
        Seq::empty()
    } else if failed(wait_hr) {
        seq![Action::WaitAsync]
    } else {
        seq![Action::WaitAsync, Action::QueryAsyncStatus]
    }
}

/// The one diagnostic the wait helper emits for its terminal outcome.
pub open spec fn wait_logs(handle_null: bool, wait_hr: i32, status: i32) -> Seq<LogEvent> {
    if handle_null {
        seq![LogEvent::AsyncNull]
    } else if failed(wait_hr) {
        seq![LogEvent::AsyncWaitFailed(wait_hr)]
    } else if failed(status) {
        seq![LogEvent::AsyncQueryFailed(status)]
    } else {
        seq![LogEvent::AsyncResult(status)]
    }
}

/// The async-wait helper's decisions.  The caller owns the blocking wait
/// and the status query; `wait_hr` and `status` report what those calls
/// yield when performed, and the appended trace says which of them this
/// run actually asks for.  A null handle is answered immediately with the
/// null-argument status, and nothing is waited on.
pub fn wait_for_async(
    handle_null: bool,
    wait_hr: i32,
    status: i32,
    trace: &mut Vec<Action>,
    logs: &mut Vec<LogEvent>,
) -> (r: i32)
    ensures
        r == wait_result(handle_null, wait_hr, status),
        final(trace)@ == old(trace)@ + wait_trace(handle_null, wait_hr),
        final(logs)@ == old(logs)@ + wait_logs(handle_null, wait_hr, status),
        release_count(final(trace)@) == release_count(old(trace)@),
        deinit_count(final(trace)@) == deinit_count(old(trace)@),
        handle_null ==> final(trace)@ == old(trace)@ && r == E_POINTER,
{
    if handle_null {
        logs.push(LogEvent::AsyncNull);
        proof {
            assert(trace@ =~= old(trace)@ + wait_trace(handle_null, wait_hr));
            assert(logs@ =~= old(logs)@ + wait_logs(handle_null, wait_hr, status));
        }
        return E_POINTER;
    }
    record(trace, Action::WaitAsync);
    if wait_hr < 0 {
        logs.push(LogEvent::AsyncWaitFailed(wait_hr));
        proof {
            assert(trace@ =~= old(trace)@ + wait_trace(handle_null, wait_hr));
            assert(logs@ =~= old(logs)@ + wait_logs(handle_null, wait_hr, status));
        }
        return wait_hr;
    }
    record(trace, Action::QueryAsyncStatus);
    proof {
        assert(trace@ =~= old(trace)@ + wait_trace(handle_null, wait_hr));
    }
    if status < 0 {
        logs.push(LogEvent::AsyncQueryFailed(status));
        proof {
            assert(logs@ =~= old(logs)@ + wait_logs(handle_null, wait_hr, status));
        }
        return status;
    }
    logs.push(LogEvent::AsyncResult(status));
    proof {
        assert(logs@ =~= old(logs)@ + wait_logs(handle_null, wait_hr, status));
    }
    status
}

/// Whether every pipeline-level step succeeded, so that enumeration ran
/// to completion.  The bootstrap, session-initialization and gathering
/// steps accept only the exact success status; the state-setting, wait
/// and count steps accept any non-failure status.
pub open spec fn pipeline_ok(o: CallOutcomes) -> bool {
    o.co_init_hr == S_OK && o.create_hr == S_OK && !o.create_null && o.init_hr == S_OK && !failed(
        o.set_state_hr,
    ) && o.gather_hr == S_OK && !failed(
        wait_result(o.async_null, o.wait_hr, o.async_status),
    ) && !failed(o.count_hr)
}

/// The records of the writers whose queries succeeded, in index order:
/// each contributes its identifier's canonical text and its name, and a
/// failed query contributes nothing.
pub open spec fn successful_records(ws: Seq<WriterQueryOutcome>) -> Seq<(Seq<char>, Seq<char>)>
    decreases ws.len(),
{
    if ws.len() == 0 {
        Seq::empty()
    } else {
        let rest = successful_records(ws.drop_last());
        let w = ws.last();
        if w.hr == S_OK {
            rest.push((guid_text(w.writer_id), w.writer_name@))
        } else {
            rest
        }
    }
}

/// The writer records one run returns: the successful queries' records
/// when the pipeline completed, and nothing at all otherwise.
pub open spec fn spec_records(o: CallOutcomes) -> Seq<(Seq<char>, Seq<char>)> {
    if pipeline_ok(o) {
        successful_records(o.writers@)
    } else {
        Seq::empty()
    }
}

/// The per-writer queries of the enumeration loop, in index order.
pub open spec fn writer_queries(n: u32) -> Seq<Action> {
    Seq::new(n as nat, |i: int| Action::GetWriterStatus(i as u32))
}

/// The cleanup an abort performs after the session handle exists:
/// release the session, then deinitialize the subsystem, in that order.
pub open spec fn abort_tail() -> Seq<Action> {
    seq![Action::ReleaseSession, Action::CoUninitialize]
}

/// Exactly which calls one run of the pipeline performs, in order, for a
/// given script of reported outcomes.
pub open spec fn spec_trace(o: CallOutcomes) -> Seq<Action> {
    let t1 = seq![Action::CoInitialize];
    if o.co_init_hr != S_OK {
        t1
    } else {
        let t2 = t1 + seq![Action::CreateComponents];
        if o.create_hr != S_OK || o.create_null {
            t2 + seq![Action::CoUninitialize]
        } else {
            let t3 = t2 + seq![Action::InitializeForBackup];
            if o.init_hr != S_OK {
                t3 + abort_tail()
            } else {
                let t4 = t3 + seq![Action::SetBackupState];
                if failed(o.set_state_hr) {
                    t4 + abort_tail()
                } else {
                    let t5 = t4 + seq![Action::GatherMetadata];
                    if o.gather_hr != S_OK {
                        t5 + abort_tail()
                    } else {
                        let t6 = t5 + wait_trace(o.async_null, o.wait_hr);
                        if failed(wait_result(o.async_null, o.wait_hr, o.async_status)) {
                            t6 + abort_tail()
                        } else {
                            let t7 = t6 + seq![Action::GetWriterStatusCount];
                            if failed(o.count_hr) {
                                t7 + abort_tail()
                            } else {
                                t7 + writer_queries(o.count) + seq![
                                    Action::FreeWriterStatus,
                                    Action::ReleaseSession,
                                    Action::CoUninitialize,
                                ]
                            }
                        }
                    }
                }
            }
        }
    }
}

/// Exactly which diagnostics one run of the pipeline emits, in order: one
/// line for the first failing step, or the wait helper's line followed by
/// either the count failure or the informational writer count.
pub open spec fn spec_logs(o: CallOutcomes) -> Seq<LogEvent> {
    if o.co_init_hr != S_OK {
        seq![LogEvent::CoInitFailed(o.co_init_hr)]
    } else if o.create_hr != S_OK || o.create_null {
        seq![LogEvent::CreateFailed(o.create_hr)]
    } else if o.init_hr != S_OK {
        seq![LogEvent::InitializeFailed(o.init_hr)]
    } else if failed(o.set_state_hr) {
        seq![LogEvent::SetBackupStateFailed(o.set_state_hr)]
    } else if o.gather_hr != S_OK {
        seq![LogEvent::GatherFailed(o.gather_hr)]
    } else {
        let wl = wait_logs(o.async_null, o.wait_hr, o.async_status);
        let wr = wait_result(o.async_null, o.wait_hr, o.async_status);
        if failed(wr) {
            wl + seq![LogEvent::WaitHelperFailed(wr)]
        } else if failed(o.count_hr) {
            wl + seq![LogEvent::CountFailed(o.count_hr)]
        } else {
            wl + seq![LogEvent::WriterCount(o.count)]
        }
    }
}

/// Runs the enumeration pipeline's decisions over a script of reported
/// outcomes.  The returned record holds the writer records (exactly the
/// successful per-writer queries, in index order, when every pipeline
/// step succeeded; empty otherwise), the calls performed, and the
/// diagnostics emitted.
///
/// The resource discipline holds on every path: the session handle is
/// released at most once, and the subsystem is deinitialized exactly once
/// whenever its initialization succeeded — and never when it did not.
pub fn list_vss_writers(o: &CallOutcomes) -> (r: EnumerationRun)
    requires
        o.wf(),
    ensures
        r.trace@ == spec_trace(*o),
        r.logs@ == spec_logs(*o),
        records_view(r.writers@) == spec_records(*o),
        !pipeline_ok(*o) ==> r.writers@.len() == 0,
        release_count(r.trace@) <= 1,
        deinit_count(r.trace@) == (if o.co_init_hr == S_OK {
            1nat
        } else {
            0nat
        }),
{
    let mut writers: Vec<WriterDetails> = Vec::new();
    let mut trace: Vec<Action> = Vec::new();
    let mut logs: Vec<LogEvent> = Vec::new();

    record(&mut trace, Action::CoInitialize);
    if o.co_init_hr != S_OK {
        logs.push(LogEvent::CoInitFailed(o.co_init_hr));
        proof {
            assert(trace@ =~= spec_trace(*o));
            assert(logs@ =~= spec_logs(*o));
            assert(records_view(writers@) =~= spec_records(*o));
        }
        return EnumerationRun { writers, trace, logs };
    }
    record(&mut trace, Action::CreateComponents);
    if o.create_hr != S_OK || o.create_null {
        record(&mut trace, Action::CoUninitialize);
        logs.push(LogEvent::CreateFailed(o.create_hr));
        proof {
            assert(trace@ =~= spec_trace(*o));
            assert(logs@ =~= spec_logs(*o));
            assert(records_view(writers@) =~= spec_records(*o));
        }
        return EnumerationRun { writers, trace, logs };
    }
    record(&mut trace, Action::InitializeForBackup);
    if o.init_hr != S_OK {
        record(&mut trace, Action::ReleaseSession);
        record(&mut trace, Action::CoUninitialize);
        logs.push(LogEvent::InitializeFailed(o.init_hr));
        proof {
            assert(trace@ =~= spec_trace(*o));
            assert(logs@ =~= spec_logs(*o));
            assert(records_view(writers@) =~= spec_records(*o));
        }
        return EnumerationRun { writers, trace, logs };
    }
    record(&mut trace, Action::SetBackupState);
    if o.set_state_hr < 0 {
        record(&mut trace, Action::ReleaseSession);
        record(&mut trace, Action::CoUninitialize);
        logs.push(LogEvent::SetBackupStateFailed(o.set_state_hr));
        proof {
            assert(trace@ =~= spec_trace(*o));
            assert(logs@ =~= spec_logs(*o));
            assert(records_view(writers@) =~= spec_records(*o));
        }
        return EnumerationRun { writers, trace, logs };
    }
    record(&mut trace, Action::GatherMetadata);
    if o.gather_hr != S_OK {
        record(&mut trace, Action::ReleaseSession);
        record(&mut trace, Action::CoUninitialize);
        logs.push(LogEvent::GatherFailed(o.gather_hr));
        proof {
            assert(trace@ =~= spec_trace(*o));
            assert(logs@ =~= spec_logs(*o));
            assert(records_view(writers@) =~= spec_records(*o));
        }
        return EnumerationRun { writers, trace, logs };
    }
    let hr_wait = wait_for_async(o.async_null, o.wait_hr, o.async_status, &mut trace, &mut logs);
    if hr_wait < 0 {
        record(&mut trace, Action::ReleaseSession);
        record(&mut trace, Action::CoUninitialize);
        logs.push(LogEvent::WaitHelperFailed(hr_wait));
        proof {
            assert(trace@ =~= spec_trace(*o));
            assert(logs@ =~= spec_logs(*o));
            assert(records_view(writers@) =~= spec_records(*o));
        }
        return EnumerationRun { writers, trace, logs };
    }
    record(&mut trace, Action::GetWriterStatusCount);
    if o.count_hr < 0 {
        record(&mut trace, Action::ReleaseSession);
        record(&mut trace, Action::CoUninitialize);
        logs.push(LogEvent::CountFailed(o.count_hr));
        proof {
            assert(trace@ =~= spec_trace(*o));
            assert(logs@ =~= spec_logs(*o));
            assert(records_view(writers@) =~= spec_records(*o));
        }
        return EnumerationRun { writers, trace, logs };
    }
    logs.push(LogEvent::WriterCount(o.count));

    let ghost t_pre = trace@;
    let ghost l_pre = logs@;
    let mut i: u32 = 0;
    while i < o.count
        invariant
            o.wf(),
            i <= o.count,
            trace@ == t_pre + writer_queries(i),
            logs@ == l_pre,
            release_count(trace@) == 0,
            deinit_count(trace@) == 0,
            records_view(writers@) == successful_records(o.writers@.take(i as int)),
        decreases o.count - i,
    {
        record(&mut trace, Action::GetWriterStatus(i));
        let w = &o.writers[i as usize];
        if w.hr == S_OK {
            let id_str = guid_to_string(&w.writer_id);
            let name_str = w.writer_name.clone();
            writers.push(WriterDetails { writer_id: id_str, writer_name: name_str });
        }
        proof {
            assert(trace@ =~= t_pre + writer_queries((i + 1) as u32));
            assert(o.writers@.take(i + 1).drop_last() =~= o.writers@.take(i as int));
            assert(o.writers@.take(i + 1).last() == o.writers@[i as int]);
            assert(records_view(writers@) =~= successful_records(o.writers@.take(i + 1)));
        }
        i = i + 1;
    }
    record(&mut trace, Action::FreeWriterStatus);
    record(&mut trace, Action::ReleaseSession);
    record(&mut trace, Action::CoUninitialize);
    proof {
        assert(o.writers@.take(o.count as int) =~= o.writers@);
        assert(trace@ =~= spec_trace(*o));
        assert(logs@ =~= spec_logs(*o));
        assert(records_view(writers@) == spec_records(*o));
    }
    EnumerationRun { writers, trace, logs }
}

} // verus!
