use vstd::prelude::*;

use crate::entry::{EntryModel, PendingEntry};

verus! {

/// Everything one dispatch task carries after its entry leaves the store:
/// the identifier, the delivery arguments, and the delay it must wait out
/// from the moment it starts — that is, from the drain instant. Once
/// spawned, a task touches nothing shared; on waking it hands
/// `(id, fcm_token, message)` to the delivery collaborator, whose outcome
/// nothing in the core observes.
pub struct DispatchTask {
    pub id: u128,
    pub fcm_token: String,
    pub message: String,
    pub delay: u64,
}

/// Mathematical image of a `DispatchTask`.
pub ghost struct TaskModel {
    pub id: u128,
    pub fcm_token: Seq<char>,
    pub message: Seq<char>,
    pub delay: u64,
}

impl View for DispatchTask {
    type V = TaskModel;

    open spec fn view(&self) -> TaskModel {
        TaskModel {
            id: self.id,
            fcm_token: self.fcm_token@,
            message: self.message@,
            delay: self.delay,
        }
    }
}

/// The task an entry becomes: same identifier, same delivery arguments,
/// same delay — nothing added, nothing dropped.
pub open spec fn task_of(e: EntryModel) -> TaskModel {
    TaskModel {
        id: e.id,
        fcm_token: e.request.fcm_token,
        message: e.request.message,
        delay: e.request.delay,
    }
}

/// The images of a sequence of tasks, in order.
pub open spec fn task_models(s: Seq<DispatchTask>) -> Seq<TaskModel> {
    s.map(|i: int, t: DispatchTask| t@)
}

/// Turn a drained batch into dispatch tasks, one task per entry, in order,
/// each carrying exactly its entry's identifier, token, message and delay.
/// The entries move into the tasks: after planning, the tasks are the
/// entries' terminal owners.
#[verifier::loop_isolation(false)]
pub fn plan_dispatch(batch: Vec<PendingEntry>) -> (tasks: Vec<DispatchTask>)
    ensures
        task_models(tasks@) == crate::entry::entry_models(batch@).map(
            |i: int, e: EntryModel| task_of(e),
        ),
{
    let ghost orig = batch@;
    let ghost planned = crate::entry::entry_models(orig).map(|i: int, e: EntryModel| task_of(e));
    let mut rest = batch;
    let mut tasks: Vec<DispatchTask> = Vec::new();
    while rest.len() > 0
        invariant
            tasks@.len() + rest@.len() == orig.len(),
            task_models(tasks@) =~= planned.take(tasks@.len() as int),
            rest@ =~= orig.skip(tasks@.len() as int),
        decreases rest@.len(),
    {
        let ghost done = tasks@.len() as int;
        let e = rest.remove(0);
        let PendingEntry { request, id } = e;
        tasks.push(DispatchTask {
            id,
            fcm_token: request.fcm_token,
            message: request.message,
            delay: request.delay,
        });
        proof {
            assert(task_models(tasks@)[done] == tasks@[done]@);
            assert(task_models(tasks@) =~= planned.take(done + 1));
            assert(rest@ =~= orig.skip(done + 1));
        }
    }
    proof {
        assert(task_models(tasks@) =~= planned);
    }
    tasks
}

/// The instant a dispatch task's delivery fires, on a common clock in
/// seconds: its configured delay counted from the drain instant — not from
/// the submission instant.
pub open spec fn spec_fire_instant(drained_at: int, delay: int) -> int {
    drained_at + delay
}

/// The delivery instant of a task whose entry was drained at `drained_at`.
pub fn fire_instant(drained_at: u64, delay: u64) -> (t: u64)
    requires
        drained_at + delay <= u64::MAX,
    ensures
        t == spec_fire_instant(drained_at as int, delay as int),
{
    drained_at + delay
}

/// The delivery window. An entry submitted at `submitted_at` with delay
/// `delay` is taken by the first drain tick after submission, at some
/// `drained_at` less than one tick period later; its task then fires at
/// `drained_at + delay`. That instant is never before `submitted_at +
/// delay` and less than one full tick period after it: the effective delay
/// a caller observes is the configured delay inflated by up to one tick.
/// This inflation is a property of the design — delay is measured from the
/// drain instant — and is stated here rather than hidden.
pub proof fn lemma_delivery_window(submitted_at: int, drained_at: int, delay: int, tick: int)
    requires
        0 < tick,
        0 <= delay,
        submitted_at <= drained_at < submitted_at + tick,
    ensures
        submitted_at + delay <= spec_fire_instant(drained_at, delay) < submitted_at + delay + tick,
{
}

/// Delivery order between two tasks drained at the same tick follows their
/// delays alone: the task with the smaller delay fires no later, and the
/// spacing of their deliveries is exactly the difference of their delays.
pub proof fn lemma_same_tick_spacing(drained_at: int, delay_a: int, delay_b: int)
    requires
        0 <= delay_a <= delay_b,
    ensures
        spec_fire_instant(drained_at, delay_b) - spec_fire_instant(drained_at, delay_a) == delay_b
            - delay_a,
        spec_fire_instant(drained_at, delay_a) <= spec_fire_instant(drained_at, delay_b),
{
}

} // verus!
