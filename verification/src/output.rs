use vstd::prelude::*;

verus! {

/// One record produced by the launched process: a line of output on
/// either stream, or the process's termination with its exit status.
#[derive(Debug, PartialEq, Eq)]
pub enum OutputRecord {
    Stdout(Vec<u8>),
    Stderr(Vec<u8>),
    Terminated { code: Option<i32>, signal: Option<i32> },
}

/// What the logging sink is handed for one record: ordinary output at
/// info level, diagnostic output at warning level, or a notice that
/// the process ended.
#[derive(Debug, PartialEq, Eq)]
pub enum LogAction {
    Info(Vec<u8>),
    Warn(Vec<u8>),
    ExitNotice { code: Option<i32>, signal: Option<i32> },
}

/// `a` is the log action that `r` maps to: stdout lines are logged at
/// info level, stderr lines at warning level, termination as an exit
/// notice carrying the same status, each with its bytes unchanged.
pub open spec fn action_matches(r: OutputRecord, a: LogAction) -> bool {
    match r {
        OutputRecord::Stdout(line) => a matches LogAction::Info(l) && l@ == line@,
        OutputRecord::Stderr(line) => a matches LogAction::Warn(l) && l@ == line@,
        OutputRecord::Terminated { code, signal } => a matches LogAction::ExitNotice {
            code: c,
            signal: s,
        } && c == code && s == signal,
    }
}

/// `log` is exactly what a correct drain of `records` hands the sink:
/// one action per record in arrival order, covering every record up to
/// and including the first `Terminated` — all of them when none
/// terminates — and nothing past it.
pub open spec fn drained_correctly(records: Seq<OutputRecord>, log: Seq<LogAction>) -> bool {
    &&& log.len() <= records.len()
    &&& forall|i: int| 0 <= i < log.len() ==> action_matches(#[trigger] records[i], log[i])
    &&& forall|i: int| 0 <= i < log.len() - 1 ==> !(#[trigger] records[i] is Terminated)
    &&& if exists|i: int| 0 <= i < records.len() && #[trigger] records[i] is Terminated {
        log.len() >= 1 && records[log.len() - 1] is Terminated
    } else {
        log.len() == records.len()
    }
}

/// Turn one record into its log action, and say whether it ends the
/// drain: only `Terminated` does.
pub fn drain_step(rec: OutputRecord) -> (r: (LogAction, bool))
    ensures
        action_matches(rec, r.0),
        r.1 <==> rec is Terminated,
{
    match rec {
        OutputRecord::Stdout(line) => (LogAction::Info(line), false),
        OutputRecord::Stderr(line) => (LogAction::Warn(line), false),
        OutputRecord::Terminated { code, signal } => (
            LogAction::ExitNotice { code, signal },
            true,
        ),
    }
}

/// Consume records in arrival order, mapping each to its log action,
/// and stop immediately after the first `Terminated`: anything a dead
/// process's channel might still hold is never observed.
pub fn drain(records: Vec<OutputRecord>) -> (log: Vec<LogAction>)
    ensures
        drained_correctly(records@, log@),
{
    let ghost all = records@;
    let mut rest = records;
    let mut log: Vec<LogAction> = Vec::new();
    loop
        invariant_except_break
            forall|i: int| 0 <= i < log@.len() ==> !(#[trigger] all[i] is Terminated),
        invariant
            log@.len() <= all.len(),
            rest@ == all.skip(log@.len() as int),
            forall|i: int| 0 <= i < log@.len() ==> action_matches(#[trigger] all[i], log@[i]),
        ensures
            drained_correctly(all, log@),
        decreases rest@.len(),
    {
        if rest.len() == 0 {
            assert(log@.len() == all.len());
            break;
        }
        let rec = rest.remove(0);
        assert(rec == all[log@.len() as int]);
        let (action, done) = drain_step(rec);
        log.push(action);
        if done {
            assert(all[log@.len() - 1] is Terminated);
            break;
        }
        assert(rest@ == all.skip(log@.len() as int));
    }
    log
}

} // verus!
