//! The wait family: `wait`, `timedwait` and `wait_any` as one state machine.
//!
//! A wait runs in cycles. In each cycle it has the backend poll once, then
//! looks up the tokens in order. The first token whose operation has completed
//! is packed into its queue result and ends the wait. The handle of every
//! other token gives its key back, so that the operation stays in the
//! scheduler. After a cycle without a completion the wait checks its limit.
//!
//! The polling, the scheduler and the clocks are outside the library, so the
//! machine never loops by itself: each step takes the reply to the last
//! request and answers with the next request, or with the wait's end.
//! [`WaiterModel`] states the machine; [`Waiter`] runs it.

use crate::fail::Fail;
use crate::libos::{LibOS, Reply, Request, SchedulerHandle};
use crate::time::{Duration, Instant, SystemTime};
use crate::types::{demi_qresult_t, QToken};
use vstd::pervasive::unreached;
use vstd::prelude::*;
use vstd::slice::slice_to_vec;

verus! {

/// When a wait gives up.
#[derive(Clone, Copy, Debug, PartialEq, Eq)]
pub enum Limit {
    /// Never.
    Never,
    /// Once more than `timeout` has passed on the monotonic clock since
    /// `start`, the reading taken when the wait began.
    Within { timeout: Duration, start: Option<Instant> },
    /// Once the wall clock has reached `deadline`. Without a deadline the
    /// limit counts as reached.
    Until { deadline: Option<SystemTime> },
}

/// What a wait has asked for and not yet been told.
#[derive(Clone, Copy, Debug, PartialEq, Eq)]
pub enum Phase {
    /// The clock's reading at the start of the wait.
    Starting,
    /// That the backend has polled.
    Polling,
    /// The handle of the token at this index.
    Looking(usize),
    /// The queue result of the token at this index.
    Packing(usize),
    /// That the key is out of the handle of the token at this index.
    Releasing(usize),
    /// The clock's reading at the end of a cycle.
    Timing,
}

/// One step of a wait. `W` is the state of the wait: [`Waiter`] where the
/// machine runs, [`WaiterModel`] where contracts speak of it.
#[derive(Debug, PartialEq, Eq)]
pub enum WaitStep<W> {
    /// The wait goes on in the given state once this request has been carried
    /// out.
    Perform(W, Request),
    /// The operation of the token at this index has completed with this
    /// result.
    Ready(usize, demi_qresult_t),
    /// The scheduler refused a token or a result; the wait ends with its
    /// failure.
    Failed(Fail),
    /// The limit was reached before any operation completed.
    TimedOut,
}

/// The state of a wait.
pub ghost struct WaiterModel {
    /// The active backend.
    pub libos: LibOS,
    /// The tokens that are waited for, in the caller's order.
    pub qts: Seq<QToken>,
    /// When the wait gives up.
    pub limit: Limit,
    /// What the wait is waiting to be told.
    pub phase: Phase,
}

impl Limit {
    /// The limit of a wait with a relative timeout, or with none.
    pub open spec fn relative(timeout: Option<Duration>) -> Limit {
        match timeout {
            Some(timeout) => Limit::Within { timeout, start: None },
            None => Limit::Never,
        }
    }
}

impl WaiterModel {
    /// The state is one that a wait can be in.
    pub open spec fn wf(self) -> bool {
        &&& 0 < self.qts.len() <= usize::MAX
        &&& match self.phase {
            Phase::Starting => self.limit is Within,
            Phase::Polling => true,
            Phase::Looking(i) => i < self.qts.len(),
            Phase::Packing(i) => i < self.qts.len(),
            Phase::Releasing(i) => i < self.qts.len(),
            Phase::Timing => self.limit !is Never,
        }
        &&& (self.phase !is Starting ==> !(self.limit matches Limit::Within { start: None, .. }))
        &&& (self.phase is Timing ==> !(self.limit matches Limit::Until { deadline: None }))
    }

    /// `reply` is an answer to what the wait has asked for.
    pub open spec fn expects(self, reply: Reply) -> bool {
        match self.phase {
            Phase::Starting => reply is Instant,
            Phase::Polling => reply is Polled,
            Phase::Looking(_) => reply is Handle,
            Phase::Packing(_) => reply is QResult,
            Phase::Releasing(_) => reply is KeyTaken,
            Phase::Timing => match self.limit {
                Limit::Never => false,
                Limit::Within { .. } => reply is Instant,
                Limit::Until { .. } => reply is SystemTime,
            },
        }
    }

    /// The same wait in another phase.
    pub open spec fn at(self, phase: Phase) -> WaiterModel {
        WaiterModel { phase, ..self }
    }

    /// A new cycle: the backend is asked to poll.
    pub open spec fn poll(self) -> WaitStep<WaiterModel> {
        WaitStep::Perform(self.at(Phase::Polling), self.libos.polls())
    }

    /// The token at index `i` is looked up.
    pub open spec fn look(self, i: usize) -> WaitStep<WaiterModel> {
        WaitStep::Perform(self.at(Phase::Looking(i)), self.libos.schedules(self.qts[i as int]))
    }

    /// The handle of the token at index `i` has arrived: a completed operation
    /// is packed, any other has the key taken out of its handle.
    pub open spec fn found(self, i: usize, handle: SchedulerHandle) -> WaitStep<WaiterModel> {
        if handle.completed {
            WaitStep::Perform(
                self.at(Phase::Packing(i)),
                self.libos.packs(handle, self.qts[i as int]),
            )
        } else {
            WaitStep::Perform(self.at(Phase::Releasing(i)), Request::TakeKey(handle))
        }
    }

    /// A cycle has ended without a completion: the limit decides.
    pub open spec fn end_of_cycle(self) -> WaitStep<WaiterModel> {
        match self.limit {
            Limit::Never => self.poll(),
            Limit::Within { .. } => WaitStep::Perform(self.at(Phase::Timing), Request::Now),
            Limit::Until { deadline: Some(_) } => WaitStep::Perform(
                self.at(Phase::Timing),
                Request::SystemNow,
            ),
            Limit::Until { deadline: None } => WaitStep::TimedOut,
        }
    }

    /// The limit is reached at the clock reading that `reply` holds.
    pub open spec fn expired(self, reply: Reply) -> bool {
        match self.limit {
            Limit::Never => false,
            Limit::Within { timeout, start } => reply->Instant_0.elapsed_since(
                start->Some_0,
            ).nanos > timeout.nanos,
            Limit::Until { deadline } => reply->SystemTime_0.since_epoch.nanos
                >= deadline->Some_0.since_epoch.nanos,
        }
    }

    /// The step that the wait takes when it is told `reply`.
    pub open spec fn next(self, reply: Reply) -> WaitStep<WaiterModel>
        recommends
            self.wf(),
            self.expects(reply),
    {
        match self.phase {
            Phase::Starting => WaiterModel {
                limit: Limit::Within {
                    timeout: self.limit->Within_timeout,
                    start: Some(reply->Instant_0),
                },
                ..self
            }.poll(),
            Phase::Polling => self.look(0),
            Phase::Looking(i) => match reply->Handle_0 {
                Ok(handle) => self.found(i, handle),
                Err(fail) => WaitStep::Failed(fail),
            },
            Phase::Packing(i) => match reply->QResult_0 {
                Ok(qr) => WaitStep::Ready(i, qr),
                Err(fail) => WaitStep::Failed(fail),
            },
            Phase::Releasing(i) => if i + 1 < self.qts.len() {
                self.look((i + 1) as usize)
            } else {
                self.end_of_cycle()
            },
            Phase::Timing => if self.expired(reply) {
                WaitStep::TimedOut
            } else {
                self.poll()
            },
        }
    }

    /// The first step of a wait for `qts` under `limit`. A wait for no token
    /// at all has timed out at once.
    pub open spec fn begin(libos: LibOS, qts: Seq<QToken>, limit: Limit) -> WaitStep<WaiterModel> {
        if qts.len() == 0 {
            WaitStep::TimedOut
        } else if limit is Within {
            WaitStep::Perform(WaiterModel { libos, qts, limit, phase: Phase::Starting }, Request::Now)
        } else {
            WaiterModel { libos, qts, limit, phase: Phase::Polling }.poll()
        }
    }

    /// Where a cycle arrives when the scheduler hands out `handles[i]` for
    /// the token at index `i`, `handles[i + 1]` for the next, and so on, and
    /// every key is taken when the wait asks for it: the first step that is
    /// neither the taking of a key nor the next lookup. `self` has just asked
    /// for the handle at `i`.
    pub open spec fn scan(self, handles: Seq<SchedulerHandle>, i: int) -> WaitStep<WaiterModel>
        recommends
            self.wf(),
            0 <= i,
            self.phase == Phase::Looking(i as usize),
            handles.len() == self.qts.len(),
        decreases handles.len() - i,
    {
        let told = self.next(Reply::Handle(Ok(handles[i])));
        match told {
            WaitStep::Perform(releasing, Request::TakeKey(_)) => {
                let released = releasing.next(Reply::KeyTaken);
                match released {
                    WaitStep::Perform(looking, _) => if looking.phase is Looking && i + 1
                        < handles.len() {
                        looking.scan(handles, i + 1)
                    } else {
                        released
                    },
                    _ => released,
                }
            },
            _ => told,
        }
    }
}

impl WaitStep<WaiterModel> {
    /// A wait that goes on expects just the replies that answer its request.
    pub open spec fn expects_the_answer(self) -> bool {
        self matches WaitStep::Perform(w, request) ==> (forall|answer: Reply| #[trigger]
            w.expects(answer) <==> request.answered_by(answer))
    }

    /// `replies` are, one after the other, answers to what the wait asks for
    /// from this step on.
    pub open spec fn answered(self, replies: Seq<Reply>) -> bool
        decreases replies.len(),
    {
        replies.len() == 0 || (self matches WaitStep::Perform(w, _) && w.expects(replies[0])
            && w.next(replies[0]).answered(replies.drop_first()))
    }

    /// The step at which the wait stands after it has been told `replies` one
    /// after the other. A wait that has ended stays where it ended.
    pub open spec fn told(self, replies: Seq<Reply>) -> WaitStep<WaiterModel>
        decreases replies.len(),
    {
        if replies.len() == 0 {
            self
        } else {
            match self {
                WaitStep::Perform(w, _) => w.next(replies[0]).told(replies.drop_first()),
                _ => self,
            }
        }
    }

    /// The tokens of the operations whose queue results the wait asks for,
    /// from this step on and while it is told `replies`.
    pub open spec fn packed(self, replies: Seq<Reply>) -> Seq<QToken>
        decreases replies.len(),
    {
        match self {
            WaitStep::Perform(w, request) => {
                let now = match request.packed() {
                    Some(qt) => seq![qt],
                    None => seq![],
                };
                if replies.len() == 0 {
                    now
                } else {
                    now + w.next(replies[0]).packed(replies.drop_first())
                }
            },
            _ => seq![],
        }
    }

    /// The handles whose keys the wait asks to have taken out, from this step
    /// on and while it is told `replies`.
    pub open spec fn released(self, replies: Seq<Reply>) -> Seq<SchedulerHandle>
        decreases replies.len(),
    {
        match self {
            WaitStep::Perform(w, request) => {
                let now = match request.released() {
                    Some(handle) => seq![handle],
                    None => seq![],
                };
                if replies.len() == 0 {
                    now
                } else {
                    now + w.next(replies[0]).released(replies.drop_first())
                }
            },
            _ => seq![],
        }
    }

    /// The request of a wait that goes on is for a queue result just when the
    /// wait is waiting for one, and then for that of the token it has seen
    /// completed; it is for the taking of a key just when the wait is waiting
    /// for that.
    spec fn coherent(self, qts: Seq<QToken>) -> bool {
        self matches WaitStep::Perform(w, request) ==> {
            &&& w.wf()
            &&& w.qts == qts
            &&& request.packed() == match w.phase {
                Phase::Packing(i) => Some(qts[i as int]),
                _ => None,
            }
            &&& (request.released() is Some <==> w.phase is Releasing)
        }
    }
}

/// The handles of operations that have not completed, among those that
/// `replies` hand out, in their order.
pub open spec fn unfinished(replies: Seq<Reply>) -> Seq<SchedulerHandle>
    decreases replies.len(),
{
    if replies.len() == 0 {
        seq![]
    } else {
        (match replies[0].unfinished() {
            Some(handle) => seq![handle],
            None => seq![],
        }) + unfinished(replies.drop_first())
    }
}

/// Every step leaves the wait in a state that a wait can be in, with the same
/// tokens, backend and kind of limit.
pub proof fn lemma_step_keeps_wait(w: WaiterModel, reply: Reply)
    requires
        w.wf(),
        w.expects(reply),
    ensures
        w.next(reply) matches WaitStep::Perform(after, _) ==> {
            &&& after.wf()
            &&& after.qts == w.qts
            &&& after.libos == w.libos
            &&& (after.limit is Never <==> w.limit is Never)
            &&& (after.limit is Within <==> w.limit is Within)
        },
{
}

/// A wait that begins on at least one token begins in a state that a wait can
/// be in.
pub proof fn lemma_begin_is_well_formed(libos: LibOS, qts: Seq<QToken>, limit: Limit)
    requires
        0 < qts.len() <= usize::MAX,
        limit matches Limit::Within { start, .. } ==> start is None,
    ensures
        WaiterModel::begin(libos, qts, limit) matches WaitStep::Perform(w, _) && (w.wf() && w.qts
            == qts && w.limit == limit),
{
}

proof fn lemma_scan_finds_first_completed(
    w: WaiterModel,
    handles: Seq<SchedulerHandle>,
    i: int,
    m: int,
)
    requires
        w.wf(),
        handles.len() == w.qts.len(),
        0 <= i <= m < handles.len(),
        w.phase == Phase::Looking(i as usize),
        handles[m].completed,
        forall|j: int| i <= j < m ==> !handles[j].completed,
    ensures
        w.scan(handles, i) == WaitStep::Perform(
            w.at(Phase::Packing(m as usize)),
            w.libos.packs(handles[m], w.qts[m]),
        ),
    decreases m - i,
{
    if i < m {
        let looking = w.at(Phase::Looking((i + 1) as usize));
        lemma_scan_finds_first_completed(looking, handles, i + 1, m);
    }
}

proof fn lemma_scan_without_completion(w: WaiterModel, handles: Seq<SchedulerHandle>, i: int)
    requires
        w.wf(),
        handles.len() == w.qts.len(),
        0 <= i < handles.len(),
        w.phase == Phase::Looking(i as usize),
        forall|j: int| i <= j < handles.len() ==> !handles[j].completed,
    ensures
        w.scan(handles, i) == w.end_of_cycle(),
    decreases handles.len() - i,
{
    if i + 1 < handles.len() {
        let looking = w.at(Phase::Looking((i + 1) as usize));
        lemma_scan_without_completion(looking, handles, i + 1);
    }
}

/// Of the operations that have completed when a cycle looks at them, the one
/// whose token stands first in the caller's array is packed, and the wait
/// returns its result under that index. `w` is a wait that has asked the
/// backend to poll; `handles` is what the scheduler hands out for the tokens
/// in this cycle; `m` is the lowest index of a completed one.
pub proof fn lemma_lowest_completed_token_wins(
    w: WaiterModel,
    handles: Seq<SchedulerHandle>,
    m: int,
    qr: demi_qresult_t,
)
    requires
        w.wf(),
        w.phase is Polling,
        handles.len() == w.qts.len(),
        0 <= m < handles.len(),
        handles[m].completed,
        forall|j: int| 0 <= j < m ==> !handles[j].completed,
    ensures
        w.next(Reply::Polled) == WaitStep::Perform(
            w.at(Phase::Looking(0)),
            w.libos.schedules(w.qts[0]),
        ),
        w.at(Phase::Looking(0)).scan(handles, 0) == WaitStep::Perform(
            w.at(Phase::Packing(m as usize)),
            w.libos.packs(handles[m], w.qts[m]),
        ),
        w.at(Phase::Packing(m as usize)).next(Reply::QResult(Ok(qr))) == WaitStep::<
            WaiterModel,
        >::Ready(m as usize, qr),
{
    lemma_scan_finds_first_completed(w.at(Phase::Looking(0)), handles, 0, m);
}

/// A cycle in which no operation has completed takes the key out of every
/// handle and arrives at the end of the cycle, where the limit decides. `w`
/// is a wait that has asked the backend to poll.
pub proof fn lemma_cycle_without_completion(w: WaiterModel, handles: Seq<SchedulerHandle>)
    requires
        w.wf(),
        w.phase is Polling,
        handles.len() == w.qts.len(),
        forall|j: int| 0 <= j < handles.len() ==> !handles[j].completed,
    ensures
        w.next(Reply::Polled) == WaitStep::Perform(
            w.at(Phase::Looking(0)),
            w.libos.schedules(w.qts[0]),
        ),
        w.at(Phase::Looking(0)).scan(handles, 0) == w.end_of_cycle(),
{
    lemma_scan_without_completion(w.at(Phase::Looking(0)), handles, 0);
}

/// A wait without a limit never times out and never asks for the time.
pub proof fn lemma_unlimited_wait_never_times_out(w: WaiterModel, reply: Reply)
    requires
        w.wf(),
        w.expects(reply),
        w.limit is Never,
    ensures
        !(w.next(reply) is TimedOut),
        w.next(reply) matches WaitStep::Perform(after, request) ==> (after.limit is Never
            && !(request is Now) && !(request is SystemNow)),
{
}

/// At the end of a cycle a wait with a timeout gives up exactly when more
/// than the timeout has passed since it began, and a wait with a deadline
/// exactly when the wall clock has reached the deadline. Otherwise a new
/// cycle begins.
pub proof fn lemma_limit_decides(w: WaiterModel, reply: Reply)
    requires
        w.wf(),
        w.expects(reply),
        w.phase is Timing,
    ensures
        w.limit matches Limit::Within { timeout, start: Some(start) } ==> (w.next(reply)
            is TimedOut <==> reply->Instant_0.since_origin.nanos - start.since_origin.nanos
            > timeout.nanos),
        w.limit matches Limit::Until { deadline: Some(deadline) } ==> (w.next(reply)
            is TimedOut <==> reply->SystemTime_0.since_epoch.nanos
            >= deadline.since_epoch.nanos),
        !(w.next(reply) is TimedOut) ==> w.next(reply) == w.poll(),
{
}

/// A wait on one token whose deadline has passed runs one cycle and, if the
/// operation has not completed, times out: it polls, looks the token up,
/// takes the key out of the handle, reads the wall clock and gives up.
pub proof fn lemma_past_deadline_times_out_after_one_cycle(
    libos: LibOS,
    qt: QToken,
    deadline: SystemTime,
    handle: SchedulerHandle,
    now: SystemTime,
)
    requires
        !handle.completed,
        now.since_epoch.nanos >= deadline.since_epoch.nanos,
    ensures
        ({
            let limit = Limit::Until { deadline: Some(deadline) };
            let w = WaiterModel { libos, qts: seq![qt], limit, phase: Phase::Polling };
            &&& WaiterModel::begin(libos, seq![qt], limit) == WaitStep::Perform(w, libos.polls())
            &&& w.next(Reply::Polled) == WaitStep::Perform(
                w.at(Phase::Looking(0)),
                libos.schedules(qt),
            )
            &&& w.at(Phase::Looking(0)).next(Reply::Handle(Ok(handle))) == WaitStep::Perform(
                w.at(Phase::Releasing(0)),
                Request::TakeKey(handle),
            )
            &&& w.at(Phase::Releasing(0)).next(Reply::KeyTaken) == WaitStep::Perform(
                w.at(Phase::Timing),
                Request::SystemNow,
            )
            &&& w.at(Phase::Timing).next(Reply::SystemTime(now)) == WaitStep::<
                WaiterModel,
            >::TimedOut
        }),
{
}

/// A wait consumes at most one operation. It asks for a queue result only of
/// an operation whose handle it has just seen completed, and the reply to
/// that request ends the wait: with the result, under the index of its token,
/// or with the scheduler's failure.
pub proof fn lemma_wait_consumes_at_most_one(w: WaiterModel, reply: Reply)
    requires
        w.wf(),
        w.expects(reply),
    ensures
        w.next(reply) matches WaitStep::Perform(after, request) ==> (after.phase is Packing ==> {
            &&& w.phase matches Phase::Looking(i)
            &&& reply matches Reply::Handle(Ok(handle))
            &&& handle.completed
            &&& after.phase == Phase::Packing(i)
            &&& request == w.libos.packs(handle, w.qts[i as int])
        }),
        w.phase matches Phase::Packing(i) ==> match reply->QResult_0 {
            Ok(qr) => w.next(reply) == WaitStep::<WaiterModel>::Ready(i, qr),
            Err(fail) => w.next(reply) == WaitStep::<WaiterModel>::Failed(fail),
        },
        w.next(reply) matches WaitStep::Ready(i, _) ==> (w.phase == Phase::Packing(i) && i
            < w.qts.len()),
{
}

proof fn lemma_packed_from(step: WaitStep<WaiterModel>, qts: Seq<QToken>, replies: Seq<Reply>)
    requires
        step.coherent(qts),
        step.answered(replies),
    ensures
        step.packed(replies).len() <= 1,
        step is Perform ==> (step.told(replies) matches WaitStep::Ready(i, _) ==> i < qts.len()
            && step.packed(replies) == seq![qts[i as int]]),
        step.told(replies) is TimedOut ==> step.packed(replies) == Seq::<QToken>::empty(),
    decreases replies.len(),
{
    if let WaitStep::Perform(w, request) = step {
        if replies.len() > 0 {
            let after = w.next(replies[0]);
            lemma_step_keeps_wait(w, replies[0]);
            lemma_packed_from(after, qts, replies.drop_first());
            if !(w.phase is Packing) {
                assert(step.packed(replies) =~= after.packed(replies.drop_first()));
            }
        }
    }
}

/// From its beginning to its end a wait asks for the queue result of at most
/// one operation: of just the one that it returns, under the index of its
/// token, if it returns one, and of none if it times out. `replies` is
/// everything that the wait is told.
pub proof fn lemma_wait_consumes_what_it_returns(
    libos: LibOS,
    qts: Seq<QToken>,
    limit: Limit,
    replies: Seq<Reply>,
)
    requires
        qts.len() <= usize::MAX,
        limit matches Limit::Within { start, .. } ==> start is None,
        WaiterModel::begin(libos, qts, limit).answered(replies),
    ensures
        WaiterModel::begin(libos, qts, limit).packed(replies).len() <= 1,
        WaiterModel::begin(libos, qts, limit).told(replies) matches WaitStep::Ready(i, _) ==> (i
            < qts.len() && WaiterModel::begin(libos, qts, limit).packed(replies)
            == seq![qts[i as int]]),
        WaiterModel::begin(libos, qts, limit).told(replies) is TimedOut ==> WaiterModel::begin(
            libos,
            qts,
            limit,
        ).packed(replies) == Seq::<QToken>::empty(),
{
    let begun = WaiterModel::begin(libos, qts, limit);
    assert(begun.coherent(qts));
    lemma_packed_from(begun, qts, replies);
}

proof fn lemma_released_from(step: WaitStep<WaiterModel>, qts: Seq<QToken>, replies: Seq<Reply>)
    requires
        step.coherent(qts),
        step.answered(replies),
        !(step.told(replies) is Perform),
    ensures
        step.released(replies) == (match step {
            WaitStep::Perform(_, request) => match request.released() {
                Some(handle) => seq![handle],
                None => seq![],
            },
            _ => seq![],
        }) + unfinished(replies),
    decreases replies.len(),
{
    if let WaitStep::Perform(w, request) = step {
        let after = w.next(replies[0]);
        let rest = replies.drop_first();
        lemma_step_keeps_wait(w, replies[0]);
        lemma_released_from(after, qts, rest);
        let first = match request.released() {
            Some(handle) => seq![handle],
            None => seq![],
        };
        let handed = match replies[0].unfinished() {
            Some(handle) => seq![handle],
            None => seq![],
        };
        assert(after.released(rest) =~= handed + unfinished(rest));
        assert(first + (handed + unfinished(rest)) =~= first + unfinished(replies));
    } else {
        assert(step.released(replies) =~= Seq::<SchedulerHandle>::empty() + unfinished(replies));
    }
}

/// A wait that has ended has asked for the key to be taken out of every
/// handle that it was handed for an operation that had not completed, and of
/// no other. So every operation that the wait has looked at and found
/// unfinished is still in the scheduler when the wait ends, however it ends.
/// `replies` is everything that the wait was told.
pub proof fn lemma_wait_releases_what_it_does_not_return(
    libos: LibOS,
    qts: Seq<QToken>,
    limit: Limit,
    replies: Seq<Reply>,
)
    requires
        qts.len() <= usize::MAX,
        limit matches Limit::Within { start, .. } ==> start is None,
        WaiterModel::begin(libos, qts, limit).answered(replies),
        !(WaiterModel::begin(libos, qts, limit).told(replies) is Perform),
    ensures
        WaiterModel::begin(libos, qts, limit).released(replies) == unfinished(replies),
{
    let begun = WaiterModel::begin(libos, qts, limit);
    assert(begun.coherent(qts));
    lemma_released_from(begun, qts, replies);
    assert(Seq::<SchedulerHandle>::empty() + unfinished(replies) =~= unfinished(replies));
}

/// A wait that goes on expects just the replies that answer its request.
pub proof fn lemma_wait_expects_the_answer(w: WaiterModel, reply: Reply)
    requires
        w.wf(),
        w.expects(reply),
    ensures
        w.next(reply).expects_the_answer(),
{
}

/// A wait that has begun expects just the replies that answer its request.
pub proof fn lemma_begun_wait_expects_the_answer(libos: LibOS, qts: Seq<QToken>, limit: Limit)
    ensures
        WaiterModel::begin(libos, qts, limit).expects_the_answer(),
{
}

/// A wait on a single token reports its result under index 0.
pub proof fn lemma_single_token_is_at_index_zero(w: WaiterModel, reply: Reply)
    requires
        w.wf(),
        w.expects(reply),
        w.qts.len() == 1,
    ensures
        w.next(reply) matches WaitStep::Ready(i, _) ==> i == 0,
{
}

/// Every handle that the scheduler hands out is given back in the very next
/// request: in the request for its queue result if its operation has
/// completed, otherwise in the request to take its key out. So a wait that
/// times out or goes into another cycle holds no handle, and its operations
/// are still in the scheduler.
pub proof fn lemma_handle_is_packed_or_released(w: WaiterModel, reply: Reply)
    requires
        w.wf(),
        w.expects(reply),
    ensures
        reply matches Reply::Handle(Ok(handle)) ==> (w.next(reply) matches WaitStep::Perform(
            _,
            request,
        ) && (if handle.completed {
            request == w.libos.packs(handle, w.qts[w.phase->Looking_0 as int])
        } else {
            request == Request::TakeKey(handle)
        })),
        reply matches Reply::Handle(Err(fail)) ==> w.next(reply) == WaitStep::<
            WaiterModel,
        >::Failed(fail),
        w.next(reply) is TimedOut ==> w.phase is Releasing || w.phase is Timing,
        w.next(reply) matches WaitStep::Perform(_, request) ==> (request == w.libos.polls()
            ==> !(w.phase is Looking) && !(w.phase is Packing)),
{
}

/// The state of a wait in progress.
#[derive(Debug, PartialEq, Eq)]
pub struct Waiter {
    libos: LibOS,
    qts: Vec<QToken>,
    limit: Limit,
    phase: Phase,
}

impl View for Waiter {
    type V = WaiterModel;

    closed spec fn view(&self) -> WaiterModel {
        WaiterModel { libos: self.libos, qts: self.qts@, limit: self.limit, phase: self.phase }
    }
}

impl View for WaitStep<Waiter> {
    type V = WaitStep<WaiterModel>;

    open spec fn view(&self) -> WaitStep<WaiterModel> {
        match *self {
            WaitStep::Perform(waiter, request) => WaitStep::Perform(waiter@, request),
            WaitStep::Ready(i, qr) => WaitStep::Ready(i, qr),
            WaitStep::Failed(fail) => WaitStep::Failed(fail),
            WaitStep::TimedOut => WaitStep::TimedOut,
        }
    }
}

impl Waiter {
    #[verifier::type_invariant]
    spec fn inv(self) -> bool {
        self@.wf()
    }

    /// The first step of a wait for `qts` under `limit`.
    fn begin(libos: LibOS, qts: Vec<QToken>, limit: Limit) -> (step: WaitStep<Waiter>)
        requires
            limit matches Limit::Within { start, .. } ==> start is None,
        ensures
            step@ == WaiterModel::begin(libos, qts@, limit),
            step@ matches WaitStep::Perform(w, _) ==> w.wf(),
            step@.expects_the_answer(),
    {
        if qts.len() == 0 {
            return WaitStep::TimedOut;
        }
        match limit {
            Limit::Within { .. } => WaitStep::Perform(
                Waiter { libos, qts, limit, phase: Phase::Starting },
                Request::Now,
            ),
            _ => WaitStep::Perform(Waiter { libos, qts, limit, phase: Phase::Polling }, libos.poll()),
        }
    }

    /// Whether `reply` is an answer to what the wait has asked for.
    pub fn expects(&self, reply: &Reply) -> (expected: bool)
        ensures
            expected == self@.expects(*reply),
    {
        match self.phase {
            Phase::Starting => matches!(reply, Reply::Instant(_)),
            Phase::Polling => matches!(reply, Reply::Polled),
            Phase::Looking(_) => matches!(reply, Reply::Handle(_)),
            Phase::Packing(_) => matches!(reply, Reply::QResult(_)),
            Phase::Releasing(_) => matches!(reply, Reply::KeyTaken),
            Phase::Timing => match self.limit {
                Limit::Never => false,
                Limit::Within { .. } => matches!(reply, Reply::Instant(_)),
                Limit::Until { .. } => matches!(reply, Reply::SystemTime(_)),
            },
        }
    }

    /// Takes the step that follows `reply`.
    pub fn resume(self, reply: Reply) -> (step: WaitStep<Waiter>)
        requires
            self@.expects(reply),
        ensures
            step@ == self@.next(reply),
            step@ matches WaitStep::Perform(w, _) ==> w.wf(),
            step@.expects_the_answer(),
    {
        proof {
            use_type_invariant(&self);
            lemma_wait_expects_the_answer(self@, reply);
        }
        let Waiter { libos, qts, limit, phase } = self;
        match phase {
            Phase::Starting => match (reply, limit) {
                (Reply::Instant(now), Limit::Within { timeout, start: _ }) => {
                    let limit = Limit::Within { timeout, start: Some(now) };
                    WaitStep::Perform(Waiter { libos, qts, limit, phase: Phase::Polling }, libos.poll())
                },
                _ => unreached(),
            },
            Phase::Polling => {
                let request = libos.schedule(qts[0]);
                WaitStep::Perform(Waiter { libos, qts, limit, phase: Phase::Looking(0) }, request)
            },
            Phase::Looking(i) => match reply {
                Reply::Handle(Ok(handle)) => {
                    if handle.has_completed() {
                        let request = libos.pack_result(handle, qts[i]);
                        WaitStep::Perform(
                            Waiter { libos, qts, limit, phase: Phase::Packing(i) },
                            request,
                        )
                    } else {
                        WaitStep::Perform(
                            Waiter { libos, qts, limit, phase: Phase::Releasing(i) },
                            Request::TakeKey(handle),
                        )
                    }
                },
                Reply::Handle(Err(fail)) => WaitStep::Failed(fail),
                _ => unreached(),
            },
            Phase::Packing(i) => match reply {
                Reply::QResult(Ok(qr)) => WaitStep::Ready(i, qr),
                Reply::QResult(Err(fail)) => WaitStep::Failed(fail),
                _ => unreached(),
            },
            Phase::Releasing(i) => {
                if i + 1 < qts.len() {
                    let request = libos.schedule(qts[i + 1]);
                    WaitStep::Perform(
                        Waiter { libos, qts, limit, phase: Phase::Looking(i + 1) },
                        request,
                    )
                } else {
                    match limit {
                        Limit::Never => WaitStep::Perform(
                            Waiter { libos, qts, limit, phase: Phase::Polling },
                            libos.poll(),
                        ),
                        Limit::Within { .. } => WaitStep::Perform(
                            Waiter { libos, qts, limit, phase: Phase::Timing },
                            Request::Now,
                        ),
                        Limit::Until { deadline: Some(_) } => WaitStep::Perform(
                            Waiter { libos, qts, limit, phase: Phase::Timing },
                            Request::SystemNow,
                        ),
                        Limit::Until { deadline: None } => WaitStep::TimedOut,
                    }
                }
            },
            Phase::Timing => {
                let expired: bool = match (limit, reply) {
                    (Limit::Within { timeout, start: Some(start) }, Reply::Instant(now)) => {
                        now.duration_since(start).nanos > timeout.nanos
                    },
                    (Limit::Until { deadline: Some(deadline) }, Reply::SystemTime(now)) => {
                        now.since_epoch.nanos >= deadline.since_epoch.nanos
                    },
                    _ => unreached(),
                };
                if expired {
                    WaitStep::TimedOut
                } else {
                    WaitStep::Perform(Waiter { libos, qts, limit, phase: Phase::Polling }, libos.poll())
                }
            },
        }
    }
}

impl LibOS {
    /// Waits for a pending I/O operation to complete or a timeout to expire.
    /// This is just a single-token convenience wrapper for wait_any(): the
    /// operation's result comes under index 0.
    pub fn wait(&self, qt: QToken, timeout: Option<Duration>) -> (step: WaitStep<Waiter>)
        ensures
            step@ == WaiterModel::begin(*self, seq![qt], Limit::relative(timeout)),
            step@ matches WaitStep::Perform(w, _) ==> w.wf(),
            step@.expects_the_answer(),
    {
        let mut qts: Vec<QToken> = Vec::new();
        qts.push(qt);
        let limit = match timeout {
            Some(timeout) => Limit::Within { timeout, start: None },
            None => Limit::Never,
        };
        Waiter::begin(*self, qts, limit)
    }

    /// Waits for an I/O operation to complete or a deadline to be reached. The
    /// wait runs as `wait` does, but for its limit: it gives up at the end of
    /// a cycle once the wall clock has reached `abstime`, and without an
    /// `abstime` at the end of the first cycle.
    pub fn timedwait(&self, qt: QToken, abstime: Option<SystemTime>) -> (step: WaitStep<Waiter>)
        ensures
            step@ == WaiterModel::begin(*self, seq![qt], Limit::Until { deadline: abstime }),
            step@ matches WaitStep::Perform(w, _) ==> w.wf(),
            step@.expects_the_answer(),
    {
        let mut qts: Vec<QToken> = Vec::new();
        qts.push(qt);
        Waiter::begin(*self, qts, Limit::Until { deadline: abstime })
    }

    /// Waits for any of the given pending I/O operations to complete or a
    /// timeout to expire. Of several operations that have completed in one
    /// cycle the one whose token stands first in `qts` is returned; the others
    /// stay with the scheduler. A wait on no token times out at once.
    pub fn wait_any(&self, qts: &[QToken], timeout: Option<Duration>) -> (step: WaitStep<Waiter>)
        ensures
            step@ == WaiterModel::begin(*self, qts@, Limit::relative(timeout)),
            step@ matches WaitStep::Perform(w, _) ==> w.wf(),
            step@.expects_the_answer(),
    {
        let limit = match timeout {
            Some(timeout) => Limit::Within { timeout, start: None },
            None => Limit::Never,
        };
        Waiter::begin(*self, slice_to_vec(qts), limit)
    }
}

} // verus!
