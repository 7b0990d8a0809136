//! Decisions of the long-polling loop.
use vstd::prelude::*;
use crate::dto::GetUpdResp;
use crate::parser::{parse_resp, update_kind};
use crate::types::{MsgType, PollingCommand, UpdateData};

verus! {

/// The HTTP status of a long poll that ran out of time at the gateway.
pub const STATUS_BAD_GATEWAY: u16 = 502;

/// The HTTP status of a successful `getUpdates`.
pub const STATUS_UPDATES: u16 = 200;

/// Whether a `getUpdates` reply with this status carries updates to read.
pub fn carries_updates(status: u16) -> (r: bool)
    ensures
        r == (status == STATUS_UPDATES),
{
    status == STATUS_UPDATES
}

/// What a `getUpdates` reply means for the loop: a gateway timeout polls
/// again, a success hands over its updates, anything else stops polling.
pub fn polling_command(status: u16, updates: Option<Vec<GetUpdResp>>) -> (r: PollingCommand)
    requires
        (status == STATUS_UPDATES) == updates is Some,
    ensures
        status == STATUS_BAD_GATEWAY ==> r matches PollingCommand::Continue(UpdateData::Timeout),
        status == STATUS_UPDATES ==> match r {
            PollingCommand::Continue(UpdateData::Data(d)) => *d == updates->0,
            _ => false,
        },
        status != STATUS_BAD_GATEWAY && status != STATUS_UPDATES ==> r is Stop,
{
    if status == STATUS_BAD_GATEWAY {
        PollingCommand::Continue(UpdateData::Timeout)
    } else if status == STATUS_UPDATES {
        PollingCommand::Continue(UpdateData::Data(Box::new(updates.unwrap())))
    } else {
        PollingCommand::Stop
    }
}

/// What the loop does after one poll.
pub enum PollStep {
    /// Stop polling.
    Stop,
    /// Poll again from `offset`, after handling `tasks`, one per update.
    Next { offset: i64, tasks: Vec<MsgType> },
}

/// One turn of the polling loop: after updates arrive, the next poll asks
/// for those after the last one, and each update becomes a task; a timeout
/// or an empty batch polls again from the same offset.
pub fn polling_step(offset: i64, cmd: PollingCommand) -> (r: PollStep)
    requires
        match cmd {
            PollingCommand::Continue(UpdateData::Data(d)) => d@.len() > 0 ==> d@.last().update_id
                < i64::MAX,
            _ => true,
        },
    ensures
        match cmd {
            PollingCommand::Stop => r is Stop,
            PollingCommand::Continue(UpdateData::Timeout) => match r {
                PollStep::Next { offset: o, tasks } => o == offset && tasks@.len() == 0,
                PollStep::Stop => false,
            },
            PollingCommand::Continue(UpdateData::Data(d)) => match r {
                PollStep::Next { offset: o, tasks } => {
                    &&& tasks@ == d@.map_values(|u: GetUpdResp| update_kind(u))
                    &&& if d@.len() == 0 {
                        o == offset
                    } else {
                        o == d@.last().update_id + 1
                    }
                },
                PollStep::Stop => false,
            },
        },
{
    match cmd {
        PollingCommand::Stop => PollStep::Stop,
        PollingCommand::Continue(UpdateData::Timeout) => PollStep::Next { offset, tasks: Vec::new() },
        PollingCommand::Continue(UpdateData::Data(d)) => {
            let updates: Vec<GetUpdResp> = *d;
            let n = updates.len();
            if n == 0 {
                let tasks: Vec<MsgType> = Vec::new();
                assert(tasks@ =~= updates@.map_values(|u: GetUpdResp| update_kind(u)));
                return PollStep::Next { offset, tasks };
            }
            let next_offset = updates[n - 1].update_id + 1;
            let ghost all = updates@;
            let mut tasks: Vec<MsgType> = Vec::new();
            let mut rest = updates;
            let mut i: usize = 0;
            while rest.len() > 0
                invariant
                    n == all.len(),
                    i + rest@.len() == all.len(),
                    rest@ == all.skip(i as int),
                    tasks@ == all.take(i as int).map_values(|u: GetUpdResp| update_kind(u)),
                decreases rest.len(),
            {
                let u = rest.remove(0);
                tasks.push(parse_resp(u));
                assert(all.take(i + 1) == all.take(i as int).push(all[i as int]));
                assert(rest@ =~= all.skip(i + 1));
                i = i + 1;
            }
            assert(all.take(i as int) =~= all);
            PollStep::Next { offset: next_offset, tasks }
        },
    }
}

} // verus!

verus! {

/// How one task of a batch ended.
pub enum TaskOutcome {
    /// The update was handled.
    Finished,
    /// Handling the update failed with this message.
    Failed(String),
    /// The task panicked or was cancelled, with this message.
    Aborted(String),
}

/// What the loop does once every task of a batch has ended.
pub struct BatchEnd {
    /// The offset of the next poll.
    pub next_offset: i64,
    /// The messages to report, one per task that did not finish, in task order.
    pub report: Vec<String>,
}

/// The messages of the tasks that did not finish, in task order.
pub open spec fn failure_reports(outcomes: Seq<TaskOutcome>) -> Seq<Seq<char>>
    decreases outcomes.len(),
{
    if outcomes.len() == 0 {
        Seq::empty()
    } else {
        let earlier = failure_reports(outcomes.drop_last());
        match outcomes.last() {
            TaskOutcome::Finished => earlier,
            TaskOutcome::Failed(m) => earlier.push(m@),
            TaskOutcome::Aborted(m) => earlier.push(m@),
        }
    }
}

/// Ends a batch: a task that failed or was aborted is only reported, and
/// polling goes on from the offset that was set before the tasks ran.
pub fn finish_batch(offset: i64, outcomes: &Vec<TaskOutcome>) -> (r: BatchEnd)
    ensures
        r.next_offset == offset,
        r.report.deep_view() == failure_reports(outcomes@),
{
    let mut report: Vec<String> = Vec::new();
    let mut i: usize = 0;
    while i < outcomes.len()
        invariant
            i <= outcomes.len(),
            report.deep_view() == failure_reports(outcomes@.take(i as int)),
        decreases outcomes.len() - i,
    {
        proof {
            assert(outcomes@.take(i + 1).drop_last() =~= outcomes@.take(i as int));
            assert(outcomes@.take(i + 1).last() == outcomes@[i as int]);
        }
        match &outcomes[i] {
            TaskOutcome::Finished => {},
            TaskOutcome::Failed(m) => {
                report.push(m.clone());
            },
            TaskOutcome::Aborted(m) => {
                report.push(m.clone());
            },
        }
        assert(report.deep_view() =~= failure_reports(outcomes@.take(i + 1)));
        i = i + 1;
    }
    assert(outcomes@.take(i as int) =~= outcomes@);
    BatchEnd { next_offset: offset, report }
}

} // verus!

verus! {

proof fn lemma_report_no_longer(a: Seq<TaskOutcome>)
    ensures
        failure_reports(a).len() <= a.len(),
    decreases a.len(),
{
    if a.len() > 0 {
        lemma_report_no_longer(a.drop_last());
    }
}

/// Reporting is done task by task: the report of two batches run one after
/// the other is the report of the first followed by that of the second, a
/// finished task adds nothing, and a failed or aborted task adds exactly its
/// own message. So every failure of a batch is reported, once, in task order.
pub proof fn lemma_every_failure_is_reported(a: Seq<TaskOutcome>, b: Seq<TaskOutcome>, m: String)
    ensures
        failure_reports(a + b) == failure_reports(a) + failure_reports(b),
        failure_reports(seq![TaskOutcome::Finished]) =~= Seq::<Seq<char>>::empty(),
        failure_reports(seq![TaskOutcome::Failed(m)]) =~= seq![m@],
        failure_reports(seq![TaskOutcome::Aborted(m)]) =~= seq![m@],
        failure_reports(a).len() <= a.len(),
    decreases b.len(),
{
    let f = seq![TaskOutcome::Finished];
    let x = seq![TaskOutcome::Failed(m)];
    let y = seq![TaskOutcome::Aborted(m)];
    assert(f.drop_last() =~= Seq::<TaskOutcome>::empty());
    assert(x.drop_last() =~= Seq::<TaskOutcome>::empty());
    assert(y.drop_last() =~= Seq::<TaskOutcome>::empty());
    assert(failure_reports(Seq::<TaskOutcome>::empty()) =~= Seq::<Seq<char>>::empty());
    if b.len() == 0 {
        assert(a + b =~= a);
        assert(failure_reports(a) + failure_reports(b) =~= failure_reports(a));
        lemma_report_no_longer(a);
    } else {
        lemma_every_failure_is_reported(a, b.drop_last(), m);
        assert((a + b).drop_last() =~= a + b.drop_last());
        assert((a + b).last() == b.last());
        assert(failure_reports(a + b) =~= failure_reports(a) + failure_reports(b));
    }
}

} // verus!
