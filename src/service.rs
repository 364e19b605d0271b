use vstd::prelude::*;

use crate::cache::{
    after_lookup, elapsed, fresh_record, hit, inserted, looked_up, Cache, CachedRecord,
    DEFAULT_TTL_MS,
};
use crate::errors::AppError;
use crate::schema::{
    assembled, rfc3339_text, DeliveryDTO, GetOrderDTO, OrderHeader, OrderItemDTO, PaymentDTO,
};

verus! {

/// The steps of writing one order, in the order in which they run inside one
/// transaction.
#[derive(Clone, Copy, PartialEq, Eq, Structural, Debug)]
pub enum CreateStep {
    Begin,
    Header,
    Delivery,
    Payment,
    Items,
    Commit,
}

impl CreateStep {
    /// The steps that write rows, and that a rollback must undo.
    pub open spec fn is_insert(self) -> bool {
        self is Header || self is Delivery || self is Payment || self is Items
    }

    /// The step that runs once this one has succeeded.
    pub open spec fn succ(self) -> CreateStep {
        match self {
            CreateStep::Begin => CreateStep::Header,
            CreateStep::Header => CreateStep::Delivery,
            CreateStep::Delivery => CreateStep::Payment,
            CreateStep::Payment => CreateStep::Items,
            _ => CreateStep::Commit,
        }
    }

    /// Text that names a failure of this step.
    pub open spec fn message_spec(self) -> Seq<char> {
        match self {
            CreateStep::Begin => "Begin transaction error"@,
            CreateStep::Header => "Create order error"@,
            CreateStep::Delivery => "Create delivery error"@,
            CreateStep::Payment => "Create payment error"@,
            CreateStep::Items => "Create items error"@,
            CreateStep::Commit => "Failed to commit transaction"@,
        }
    }

    pub fn message(&self) -> (r: &'static str)
        ensures
            r@ == self.message_spec(),
    {
        match self {
            CreateStep::Begin => "Begin transaction error",
            CreateStep::Header => "Create order error",
            CreateStep::Delivery => "Create delivery error",
            CreateStep::Payment => "Create payment error",
            CreateStep::Items => "Create items error",
            CreateStep::Commit => "Failed to commit transaction",
        }
    }
}

/// Where the writing of one order stands.
#[derive(Clone, Copy, PartialEq, Eq, Structural, Debug)]
pub enum CreateState {
    /// The step is under way; its outcome is awaited.
    Running(CreateStep),
    /// The step failed; the rollback that undoes the earlier ones is under way.
    RollingBack(CreateStep),
    Finished,
}

/// What the caller does next.
#[derive(Clone, Copy, PartialEq, Eq, Structural, Debug)]
pub enum CreateAction {
    /// Run this step.
    Run(CreateStep),
    /// Roll the transaction back.
    Rollback,
    /// The order is stored: put it in the cache and report success.
    Publish,
    /// Report the failure of this step; the store holds nothing of the order.
    Fail(CreateStep),
}

/// The decision taken when the awaited work of `state` ends, well (`ok`) or not.
pub open spec fn create_transition(state: CreateState, ok: bool) -> (CreateState, CreateAction) {
    match state {
        CreateState::Running(step) => if ok {
            if step is Commit {
                (CreateState::Finished, CreateAction::Publish)
            } else {
                (CreateState::Running(step.succ()), CreateAction::Run(step.succ()))
            }
        } else if step.is_insert() {
            (CreateState::RollingBack(step), CreateAction::Rollback)
        } else {
            (CreateState::Finished, CreateAction::Fail(step))
        },
        CreateState::RollingBack(step) => (CreateState::Finished, CreateAction::Fail(step)),
        CreateState::Finished => (CreateState::Finished, CreateAction::Fail(CreateStep::Commit)),
    }
}

/// The actions taken from `state` when the awaited works end as `outcomes` say.
pub open spec fn create_run(state: CreateState, outcomes: Seq<bool>) -> Seq<CreateAction>
    decreases outcomes.len(),
{
    if outcomes.len() == 0 || state is Finished {
        Seq::empty()
    } else {
        let (next, action) = create_transition(state, outcomes[0]);
        seq![action] + create_run(next, outcomes.drop_first())
    }
}

/// The first decision of a write: begin the transaction.
pub fn start_create() -> (r: (CreateState, CreateAction))
    ensures
        r == (CreateState::Running(CreateStep::Begin), CreateAction::Run(CreateStep::Begin)),
{
    (CreateState::Running(CreateStep::Begin), CreateAction::Run(CreateStep::Begin))
}

/// Decides what follows when the work awaited in `state` has ended. A failed
/// insert is rolled back before its failure is reported; a rollback's own
/// failure changes nothing in what is reported.
pub fn next_create(state: CreateState, ok: bool) -> (r: (CreateState, CreateAction))
    requires
        !(state is Finished),
    ensures
        r == create_transition(state, ok),
{
    match state {
        CreateState::Running(step) => {
            if ok {
                match step {
                    CreateStep::Begin => (CreateState::Running(CreateStep::Header), CreateAction::Run(CreateStep::Header)),
                    CreateStep::Header => (CreateState::Running(CreateStep::Delivery), CreateAction::Run(CreateStep::Delivery)),
                    CreateStep::Delivery => (CreateState::Running(CreateStep::Payment), CreateAction::Run(CreateStep::Payment)),
                    CreateStep::Payment => (CreateState::Running(CreateStep::Items), CreateAction::Run(CreateStep::Items)),
                    CreateStep::Items => (CreateState::Running(CreateStep::Commit), CreateAction::Run(CreateStep::Commit)),
                    CreateStep::Commit => (CreateState::Finished, CreateAction::Publish),
                }
            } else {
                match step {
                    CreateStep::Begin | CreateStep::Commit => (CreateState::Finished, CreateAction::Fail(step)),
                    _ => (CreateState::RollingBack(step), CreateAction::Rollback),
                }
            }
        },
        CreateState::RollingBack(step) => (CreateState::Finished, CreateAction::Fail(step)),
        CreateState::Finished => (CreateState::Finished, CreateAction::Fail(CreateStep::Commit)),
    }
}


/// The error reported when `step` failed with the store's message `detail`.
pub open spec fn create_error_spec(step: CreateStep, detail: String) -> AppError {
    if step is Commit {
        AppError::CommitError(detail)
    } else {
        AppError::PostgresError(detail)
    }
}

pub fn create_error(step: CreateStep, detail: String) -> (r: AppError)
    ensures
        r == create_error_spec(step, detail),
{
    match step {
        CreateStep::Commit => AppError::CommitError(detail),
        _ => AppError::PostgresError(detail),
    }
}

/// Puts an order that has just been stored in the cache, under its identifier.
pub fn publish_order(cache: &mut Cache<GetOrderDTO>, order_uid: u128, order: GetOrderDTO, now_ms: u64)
    ensures
        final(cache)@ == inserted(old(cache)@, order_uid, order, now_ms),
{
    cache.update_record(order_uid, order, now_ms);
}

/// The first half of a read: the cached copy of the order, if a live one is
/// held. Only where this is `None` is the store consulted; what the store then
/// returns is not written back, so only a write fills the cache.
pub fn cached_order(cache: &mut Cache<GetOrderDTO>, id: u128, now_ms: u64) -> (r: Option<GetOrderDTO>)
    ensures
        final(cache)@ == after_lookup(old(cache)@, id, now_ms),
        r is Some <==> hit(old(cache)@, id, now_ms),
        r matches Some(o) ==> cloned(old(cache)@[id].data, o),
{
    match cache.get_record(id, now_ms) {
        Some(record) => Some(record.data),
        None => None,
    }
}

/// What a read makes of the header row that the store returned.
pub open spec fn header_result(header: Option<OrderHeader>) -> Result<OrderHeader, AppError> {
    match header {
        Some(h) => Ok(h),
        None => Err(AppError::NotFound),
    }
}

/// A missing header row ends the read with `NotFound`; the other parts are
/// then not read.
pub fn header_found(header: Option<OrderHeader>) -> (r: Result<OrderHeader, AppError>)
    ensures
        r == header_result(header),
{
    match header {
        Some(h) => Ok(h),
        None => Err(AppError::NotFound),
    }
}

/// The second half of a read: the order assembled from the parts the store
/// returned. A creation time with no calendar form is a store failure.
pub fn assemble_order(
    header: OrderHeader,
    payment: PaymentDTO,
    delivery: DeliveryDTO,
    items: Vec<OrderItemDTO>,
) -> (r: Result<GetOrderDTO, AppError>)
    ensures
        r is Ok <==> rfc3339_text(header.date_created.secs, header.date_created.nanos) is Some,
        r matches Ok(o) ==> assembled(
            header,
            payment,
            delivery,
            items,
            rfc3339_text(header.date_created.secs, header.date_created.nanos).unwrap(),
            o,
        ),
        r matches Err(e) ==> e is PostgresError,
{
    match GetOrderDTO::from_row(header, payment, delivery, items) {
        Some(o) => Ok(o),
        None => Err(AppError::PostgresError("creation time out of range".to_string())),
    }
}

/// An order published at `t0` and read again within its lifetime comes from
/// the cache, as it was published, and the store is not consulted.
pub proof fn lemma_cache_aside(m: Map<u128, CachedRecord<GetOrderDTO>>, id: u128, order: GetOrderDTO, t0: u64, t: u64)
    requires
        elapsed(t, t0) < DEFAULT_TTL_MS,
    ensures
        hit(inserted(m, id, order, t0), id, t),
        looked_up(inserted(m, id, order, t0), id, t) == Some(fresh_record(order, t0)),
        inserted(m, id, order, t0)[id].data == order,
        after_lookup(inserted(m, id, order, t0), id, t) == inserted(m, id, order, t0),
{
}

/// An identifier that the cache holds no live order for goes to the store, and
/// where the store has no header row for it the read ends in `NotFound`.
pub proof fn lemma_unknown_id_not_found(m: Map<u128, CachedRecord<GetOrderDTO>>, id: u128, now: u64)
    requires
        !hit(m, id, now),
    ensures
        looked_up(m, id, now) is None,
        !after_lookup(m, id, now).contains_key(id),
        header_result(None) == Err::<OrderHeader, AppError>(AppError::NotFound),
{
}

/// Whether `acts` ever commits the transaction or publishes the order.
pub open spec fn commits(acts: Seq<CreateAction>) -> bool {
    exists|i: int| 0 <= i < acts.len() && (acts[i] == CreateAction::Run(CreateStep::Commit) || acts[i] == CreateAction::Publish)
}

proof fn lemma_run_shape(state: CreateState, outcomes: Seq<bool>)
    ensures
        ({
            let acts = create_run(state, outcomes);
            &&& state is RollingBack ==> !commits(acts) && acts.len() <= 1
            &&& state == CreateState::Running(CreateStep::Commit) ==> forall|i: int| 0 <= i < acts.len() ==> acts[i] != CreateAction::Rollback
            &&& state is Running ==> (outcomes.len() > 0 && !outcomes[0] && state->Running_0.is_insert() ==> !commits(acts))
            &&& state is Running ==> ((exists|i: int| 0 <= i < acts.len() && acts[i] == CreateAction::Rollback) ==> !commits(acts))
        }),
    decreases outcomes.len(),
{
    let acts = create_run(state, outcomes);
    if outcomes.len() == 0 || state is Finished {
        return;
    }
    let (next, action) = create_transition(state, outcomes[0]);
    let rest = create_run(next, outcomes.drop_first());
    lemma_run_shape(next, outcomes.drop_first());
    assert(acts == seq![action] + rest);
    assert forall|i: int| 0 < i < acts.len() implies acts[i] == rest[i - 1] by {}
    if next is Finished {
        assert(rest.len() == 0);
    }
    if state is Running && (exists|i: int| 0 <= i < acts.len() && acts[i] == CreateAction::Rollback) {
        let i = choose|i: int| 0 <= i < acts.len() && acts[i] == CreateAction::Rollback;
        if i > 0 {
            assert(rest[i - 1] == CreateAction::Rollback);
        }
    }
}

/// A write whose transaction begins and whose insert at `step` then fails is
/// never committed and its order never published: the rollback runs, and the
/// failure reported is that of `step`.
pub proof fn lemma_failed_insert_never_commits(step: CreateStep, outcomes: Seq<bool>)
    requires
        step.is_insert(),
    ensures
        create_run(CreateState::Running(step), seq![false] + outcomes) =~= (if outcomes.len() == 0 {
            seq![CreateAction::Rollback]
        } else {
            seq![CreateAction::Rollback, CreateAction::Fail(step)]
        }),
        !commits(create_run(CreateState::Running(step), seq![false] + outcomes)),
{
    let all = seq![false] + outcomes;
    assert(all.drop_first() =~= outcomes);
    lemma_run_shape(CreateState::Running(step), all);
    let tail = create_run(CreateState::RollingBack(step), outcomes);
    assert(create_run(CreateState::Running(step), all) == seq![CreateAction::Rollback] + tail);
    if outcomes.len() > 0 {
        assert(create_run(CreateState::Finished, outcomes.drop_first()) =~= Seq::<CreateAction>::empty());
        assert(tail =~= seq![CreateAction::Fail(step)]);
    } else {
        assert(tail =~= Seq::<CreateAction>::empty());
    }
}

/// In any run of a write, from its first step on, a rollback excludes both the
/// commit and the publication of the order: the store never holds part of an
/// order, and the cache never holds an order that the store lacks.
pub proof fn lemma_create_atomic(outcomes: Seq<bool>)
    ensures
        ({
            let acts = create_run(CreateState::Running(CreateStep::Begin), outcomes);
            (exists|i: int| 0 <= i < acts.len() && acts[i] == CreateAction::Rollback) ==> !commits(acts)
        }),
{
    lemma_run_shape(CreateState::Running(CreateStep::Begin), outcomes);
}

} // verus!
