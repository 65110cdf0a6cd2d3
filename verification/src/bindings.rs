//! The entry points of the facade, and the one instance that they share.
//!
//! An entry point checks its arguments, claims the instance, and has the
//! dispatcher route the operation. It answers with a [`Step`]. A
//! [`Step::Return`] is the call's return: the status, and what to write to the
//! caller's out-parameters. A [`Step::Perform`] is a request to carry out; the
//! instance stays claimed until [`demi_resume`], told the reply, has answered
//! with the return. While it is claimed every other call is turned away with
//! `EBUSY`.
//!
//! A pointer argument that may be null is an `Option`; `None` is the null
//! pointer.

use crate::errno::{ebusy, einval, enosys, etimedout, EBUSY, EINVAL, ENOSYS, ENOTSUP, ETIMEDOUT};
use crate::fail::Fail;
use crate::libos::{LibOS, LibOSName, MemoryCall, NetworkCall, Reply, Request};
use crate::net::{
    sockaddr_endpoint,
    sockaddr_in_size,
    sockaddr_to_socketaddrv4,
    SockAddr,
    SocketAddrV4,
    Socklen,
    AF_INET,
    SOCKADDR_IN_SIZE,
};
use crate::time::{
    timespec_deadline,
    timespec_duration,
    timespec_to_duration,
    timespec_to_systemtime,
    Duration,
    SystemTime,
    Timespec,
};
use crate::types::{demi_qresult_t, demi_sgarray_t, null_sgarray, QDesc, QToken};
use crate::wait::{
    lemma_step_keeps_wait,
    lemma_wait_expects_the_answer,
    Limit,
    WaitStep,
    Waiter,
    WaiterModel,
};
use vstd::pervasive::unreached;
use vstd::prelude::*;
use vstd::utf8::{decode_utf8, valid_utf8};

verus! {

/// What an entry point writes to the caller's out-parameters.
#[derive(Clone, Copy, Debug, PartialEq, Eq)]
pub enum Output {
    /// Nothing.
    Nothing,
    /// A queue descriptor.
    QDesc(i32),
    /// A queue token.
    QToken(u64),
    /// A queue result. The caller may have passed no place for it.
    QResult(demi_qresult_t),
    /// A queue result, and the index in the caller's array of the token that
    /// it belongs to.
    Ready { offset: i32, qr: demi_qresult_t },
    /// A scatter-gather array, which `demi_sgaalloc` returns in place of a
    /// status.
    Sgarray(demi_sgarray_t),
}

/// What the caller of an entry point does next.
#[derive(Debug, PartialEq, Eq)]
pub enum Step {
    /// Return `ret` to the application, after writing `out`.
    Return { ret: i32, out: Output },
    /// Carry out the request, then hand the reply to [`demi_resume`].
    Perform(Request),
}

/// How the reply to the call in flight will be reported. `W` is the state of a
/// wait, as in [`WaitStep`].
#[derive(Debug, PartialEq, Eq)]
pub enum Pending<W> {
    /// As a status.
    Unit,
    /// As a status and a queue descriptor.
    QDesc,
    /// As a status and a queue token.
    QToken,
    /// As a scatter-gather array.
    Sgarray,
    /// As the next step of a wait on one token.
    Wait(W),
    /// As the next step of a wait on an array of tokens.
    WaitAny(W),
}

/// The state of the instance.
pub ghost struct DemikernelModel {
    /// The active backend, once one is installed.
    pub libos: Option<LibOS>,
    /// The call in flight, if there is one.
    pub pending: Option<Pending<WaiterModel>>,
}

impl Step {
    /// The return that reports `errno` and writes nothing.
    pub open spec fn status(errno: i32) -> Step {
        Step::Return { ret: errno, out: Output::Nothing }
    }

    /// A return with a status other than zero writes nothing.
    pub open spec fn spares_outputs_on_failure(self) -> bool {
        self matches Step::Return { ret, out } ==> (ret != 0 ==> out is Nothing)
    }
}

impl<W> Pending<W> {
    /// The call in flight is a wait.
    pub open spec fn is_wait(self) -> bool {
        self is Wait || self is WaitAny
    }
}

impl DemikernelModel {
    /// The state is one that the instance can be in.
    pub open spec fn wf(self) -> bool {
        &&& self.pending is Some ==> self.libos is Some
        &&& self.pending matches Some(Pending::Wait(w)) ==> w.wf()
        &&& self.pending matches Some(Pending::WaitAny(w)) ==> w.wf() && w.qts.len() <= i32::MAX
    }

    /// Why a call cannot claim the instance: `EBUSY` while another call is in
    /// flight, `ENOSYS` while no backend is installed.
    pub open spec fn refusal(self) -> Option<i32> {
        if self.pending is Some {
            Some(EBUSY)
        } else if self.libos is None {
            Some(ENOSYS)
        } else {
            None
        }
    }

    /// The instance can be claimed and its backend is of the network family.
    pub open spec fn on_network(self) -> bool {
        self.refusal() is None && self.libos->Some_0 is NetworkLibOS
    }

    /// The instance can be claimed and its backend is of the memory family.
    pub open spec fn on_memory(self) -> bool {
        self.refusal() is None && self.libos->Some_0 is MemoryLibOS
    }

    /// The same instance with `pending` in flight.
    pub open spec fn awaiting(self, pending: Pending<WaiterModel>) -> DemikernelModel {
        DemikernelModel { pending: Some(pending), ..self }
    }

    /// The same instance with no call in flight.
    pub open spec fn idle(self) -> DemikernelModel {
        DemikernelModel { pending: None, ..self }
    }

    /// The call was turned away with `errno`: nothing was asked of the
    /// backend, nothing is written, and the instance `after` is as before.
    pub open spec fn rejects(self, after: DemikernelModel, step: Step, errno: i32) -> bool {
        step == Step::status(errno) && after == self
    }

    /// The call went out as `request`, and the reply will be reported as
    /// `pending` says.
    pub open spec fn forwards(
        self,
        after: DemikernelModel,
        step: Step,
        request: Request,
        pending: Pending<WaiterModel>,
    ) -> bool {
        step == Step::Perform(request) && after == self.awaiting(pending)
    }

    /// An operation of the socket vocabulary was submitted as `call`: it is
    /// turned away while the instance cannot be claimed, and with `ENOTSUP`
    /// on a memory backend; on a network backend it goes out.
    pub open spec fn submits_to_network(
        self,
        after: DemikernelModel,
        step: Step,
        call: NetworkCall,
        pending: Pending<WaiterModel>,
    ) -> bool {
        &&& self.refusal() matches Some(errno) ==> self.rejects(after, step, errno)
        &&& self.on_memory() ==> self.rejects(after, step, ENOTSUP)
        &&& self.on_network() ==> self.forwards(after, step, Request::Network(call), pending)
    }

    /// An operation that both families know was submitted, as `network` for a
    /// network backend and as `memory` for a memory backend: it is turned away
    /// while the instance cannot be claimed, and goes out otherwise.
    pub open spec fn submits_to_either(
        self,
        after: DemikernelModel,
        step: Step,
        network: NetworkCall,
        memory: MemoryCall,
        pending: Pending<WaiterModel>,
    ) -> bool {
        &&& self.refusal() matches Some(errno) ==> self.rejects(after, step, errno)
        &&& self.on_network() ==> self.forwards(after, step, Request::Network(network), pending)
        &&& self.on_memory() ==> self.forwards(after, step, Request::Memory(memory), pending)
    }

    /// The instance and the step that come of a step of a wait; `any` tells a
    /// wait on an array from a wait on one token. A wait that goes on stays in
    /// flight. A wait that ends frees the instance: a completed operation
    /// returns 0 and its result, a failure returns its error number, a
    /// timeout returns `ETIMEDOUT`.
    pub open spec fn waits(self, step: WaitStep<WaiterModel>, any: bool) -> (
        DemikernelModel,
        Step,
    ) {
        match step {
            WaitStep::Perform(w, request) => (
                self.awaiting(
                    if any {
                        Pending::WaitAny(w)
                    } else {
                        Pending::Wait(w)
                    },
                ),
                Step::Perform(request),
            ),
            WaitStep::Ready(i, qr) => (
                self.idle(),
                Step::Return {
                    ret: 0,
                    out: if any {
                        Output::Ready { offset: i as i32, qr }
                    } else {
                        Output::QResult(qr)
                    },
                },
            ),
            WaitStep::Failed(fail) => (self.idle(), Step::status(fail.errno)),
            WaitStep::TimedOut => (self.idle(), Step::status(ETIMEDOUT)),
        }
    }

    /// Where `step` is a request, the instance expects just the replies that
    /// answer it.
    pub open spec fn expects_the_answer_to(self, step: Step) -> bool {
        step matches Step::Perform(request) ==> (forall|answer: Reply| #[trigger]
            self.expects(answer) <==> request.answered_by(answer))
    }

    /// `reply` is an answer to the request of the call in flight.
    pub open spec fn expects(self, reply: Reply) -> bool {
        match self.pending {
            None => false,
            Some(Pending::Unit) => reply is Unit,
            Some(Pending::QDesc) => reply is QDesc,
            Some(Pending::QToken) => reply is QToken,
            Some(Pending::Sgarray) => reply is Sgarray,
            Some(Pending::Wait(w)) => w.expects(reply),
            Some(Pending::WaitAny(w)) => w.expects(reply),
        }
    }

    /// The instance and the step that come of `reply`. Outside a wait the
    /// reply ends the call: success returns 0 and what the backend handed
    /// over, failure returns the backend's error number and nothing else. A
    /// failed allocation returns the null scatter-gather array.
    pub open spec fn resume(self, reply: Reply) -> (DemikernelModel, Step)
        recommends
            self.wf(),
            self.expects(reply),
    {
        match self.pending->Some_0 {
            Pending::Unit => (
                self.idle(),
                match reply->Unit_0 {
                    Ok(_) => Step::status(0),
                    Err(fail) => Step::status(fail.errno),
                },
            ),
            Pending::QDesc => (
                self.idle(),
                match reply->QDesc_0 {
                    Ok(qd) => Step::Return { ret: 0, out: Output::QDesc(qd.0) },
                    Err(fail) => Step::status(fail.errno),
                },
            ),
            Pending::QToken => (
                self.idle(),
                match reply->QToken_0 {
                    Ok(qt) => Step::Return { ret: 0, out: Output::QToken(qt.0) },
                    Err(fail) => Step::status(fail.errno),
                },
            ),
            Pending::Sgarray => (
                self.idle(),
                match reply->Sgarray_0 {
                    Ok(sga) => Step::Return { ret: 0, out: Output::Sgarray(sga) },
                    Err(_) => Step::Return { ret: 0, out: Output::Sgarray(null_sgarray()) },
                },
            ),
            Pending::Wait(w) => self.waits(w.next(reply), false),
            Pending::WaitAny(w) => self.waits(w.next(reply), true),
        }
    }
}

/// A reply leaves the instance in a state that it can be in, with the same
/// backend. The instance stays claimed exactly until the call returns, and a
/// call that returns a status other than zero writes nothing.
pub proof fn lemma_claimed_until_return(m: DemikernelModel, reply: Reply)
    requires
        m.wf(),
        m.expects(reply),
    ensures
        m.resume(reply).0.wf(),
        m.resume(reply).0.libos == m.libos,
        m.resume(reply).1 is Return <==> m.resume(reply).0.pending is None,
        m.resume(reply).1.spares_outputs_on_failure(),
        m.resume(reply).0.expects_the_answer_to(m.resume(reply).1),
{
    match m.pending->Some_0 {
        Pending::Wait(w) => {
            lemma_step_keeps_wait(w, reply);
            lemma_wait_expects_the_answer(w, reply);
        },
        Pending::WaitAny(w) => {
            lemma_step_keeps_wait(w, reply);
            lemma_wait_expects_the_answer(w, reply);
        },
        _ => {},
    }
}

/// The instance of the facade: the backend that was installed, and the call in
/// flight.
#[derive(Debug, PartialEq, Eq)]
pub struct Demikernel {
    libos: Option<LibOS>,
    pending: Option<Pending<Waiter>>,
}

impl View for Pending<Waiter> {
    type V = Pending<WaiterModel>;

    open spec fn view(&self) -> Pending<WaiterModel> {
        match *self {
            Pending::Unit => Pending::Unit,
            Pending::QDesc => Pending::QDesc,
            Pending::QToken => Pending::QToken,
            Pending::Sgarray => Pending::Sgarray,
            Pending::Wait(w) => Pending::Wait(w@),
            Pending::WaitAny(w) => Pending::WaitAny(w@),
        }
    }
}

impl View for Demikernel {
    type V = DemikernelModel;

    closed spec fn view(&self) -> DemikernelModel {
        DemikernelModel {
            libos: self.libos,
            pending: match self.pending {
                Some(pending) => Some(pending@),
                None => None,
            },
        }
    }
}

impl Demikernel {
    #[verifier::type_invariant]
    spec fn inv(self) -> bool {
        self@.wf()
    }

    /// The instance as it is when the process starts: no backend, no call.
    pub fn new() -> (dk: Demikernel)
        ensures
            dk@ == (DemikernelModel { libos: None, pending: None }),
    {
        Demikernel { libos: None, pending: None }
    }

    /// Whether a backend is installed.
    pub fn is_initialized(&self) -> (initialized: bool)
        ensures
            initialized == self@.libos is Some,
    {
        self.libos.is_some()
    }

    /// Whether a call is in flight.
    pub fn is_busy(&self) -> (busy: bool)
        ensures
            busy == self@.pending is Some,
    {
        self.pending.is_some()
    }

    /// Whether `reply` is an answer to the request of the call in flight.
    pub fn expects(&self, reply: &Reply) -> (expected: bool)
        ensures
            expected == self@.expects(*reply),
    {
        match &self.pending {
            None => false,
            Some(Pending::Unit) => matches!(reply, Reply::Unit(_)),
            Some(Pending::QDesc) => matches!(reply, Reply::QDesc(_)),
            Some(Pending::QToken) => matches!(reply, Reply::QToken(_)),
            Some(Pending::Sgarray) => matches!(reply, Reply::Sgarray(_)),
            Some(Pending::Wait(w)) => w.expects(reply),
            Some(Pending::WaitAny(w)) => w.expects(reply),
        }
    }
}

/// Issues a system call: claims the instance for one call and hands out its
/// backend. The claim fails with `EBUSY` while another call is in flight, and
/// with `ENOSYS` while no backend is installed.
fn do_syscall(dk: &Demikernel) -> (r: Result<LibOS, Fail>)
    ensures
        dk@.wf(),
        dk@.refusal() matches Some(errno) ==> (r matches Err(fail) && fail.errno == errno),
        dk@.refusal() is None ==> r == Ok::<LibOS, Fail>(dk@.libos->Some_0),
        dk@.pending is Some ==> (r matches Err(fail) && fail.reports(EBUSY, "Demikernel is busy")),
        dk@.pending is None && dk@.libos is None ==> (r matches Err(fail) && fail.reports(
            ENOSYS,
            "Demikernel is not initialized",
        )),
{
    proof {
        use_type_invariant(dk);
    }
    if dk.pending.is_some() {
        return Err(Fail::new(ebusy(), "Demikernel is busy"));
    }
    match dk.libos {
        Some(libos) => Ok(libos),
        None => Err(Fail::new(enosys(), "Demikernel is not initialized")),
    }
}

/// The return that reports `errno` and writes nothing.
fn status(errno: i32) -> (step: Step)
    ensures
        step == Step::status(errno),
{
    Step::Return { ret: errno, out: Output::Nothing }
}

/// Installs the backend that `libos_name` selects. `config_path` is the value
/// of the environment variable `CONFIG_PATH`, if it is set; without it nothing
/// is installed and the call returns `EINVAL`. A backend that is already
/// installed is replaced, unless a call is in flight: then nothing changes and
/// the call returns `EBUSY`.
pub fn demi_init(dk: &mut Demikernel, libos_name: LibOSName, config_path: Option<&str>) -> (ret:
    i32)
    ensures
        config_path is None ==> ret == EINVAL && final(dk)@ == old(dk)@,
        config_path is Some && old(dk)@.pending is Some ==> ret == EBUSY && final(dk)@ == old(
            dk,
        )@,
        config_path is Some && old(dk)@.pending is None ==> ret == 0 && final(dk)@ == (
        DemikernelModel { libos: Some(LibOS::selected(libos_name)), pending: None }),
{
    let libos: LibOS = match LibOS::new(libos_name, config_path) {
        Ok(libos) => libos,
        Err(fail) => return fail.errno,
    };
    if dk.pending.is_some() {
        return ebusy();
    }
    dk.libos = Some(libos);
    0
}

/// Takes the step that follows `reply`, the answer to the request of the call
/// in flight.
pub fn demi_resume(dk: &mut Demikernel, reply: Reply) -> (step: Step)
    requires
        old(dk)@.expects(reply),
    ensures
        (final(dk)@, step) == old(dk)@.resume(reply),
        step.spares_outputs_on_failure(),
        final(dk)@.expects_the_answer_to(step),
{
    proof {
        use_type_invariant(&*dk);
    }
    let mut claimed = Demikernel { libos: dk.libos, pending: None };
    core::mem::swap(dk, &mut claimed);
    match claimed.pending {
        Some(Pending::Unit) => match reply {
            Reply::Unit(Ok(_)) => status(0),
            Reply::Unit(Err(fail)) => status(fail.errno),
            _ => unreached(),
        },
        Some(Pending::QDesc) => match reply {
            Reply::QDesc(Ok(qd)) => Step::Return { ret: 0, out: Output::QDesc(qd.into()) },
            Reply::QDesc(Err(fail)) => status(fail.errno),
            _ => unreached(),
        },
        Some(Pending::QToken) => match reply {
            Reply::QToken(Ok(qt)) => Step::Return { ret: 0, out: Output::QToken(qt.into()) },
            Reply::QToken(Err(fail)) => status(fail.errno),
            _ => unreached(),
        },
        Some(Pending::Sgarray) => match reply {
            Reply::Sgarray(Ok(sga)) => Step::Return { ret: 0, out: Output::Sgarray(sga) },
            Reply::Sgarray(Err(_)) => Step::Return {
                ret: 0,
                out: Output::Sgarray(demi_sgarray_t::null()),
            },
            _ => unreached(),
        },
        Some(Pending::Wait(waiter)) => {
            proof {
                lemma_step_keeps_wait(waiter@, reply);
            }
            let progress = waiter.resume(reply);
            report_wait(dk, progress, false)
        },
        Some(Pending::WaitAny(waiter)) => {
            proof {
                lemma_step_keeps_wait(waiter@, reply);
            }
            let progress = waiter.resume(reply);
            report_wait(dk, progress, true)
        },
        None => unreached(),
    }
}

/// Reports a step of a wait, and keeps a wait that goes on in flight.
fn report_wait(dk: &mut Demikernel, progress: WaitStep<Waiter>, any: bool) -> (step: Step)
    requires
        old(dk)@.pending is None,
        old(dk)@.libos is Some,
        progress@ matches WaitStep::Perform(w, _) ==> w.wf() && (any ==> w.qts.len() <= i32::MAX),
        progress@ matches WaitStep::Ready(i, _) ==> (any ==> i <= i32::MAX),
        progress@.expects_the_answer(),
    ensures
        (final(dk)@, step) == old(dk)@.waits(progress@, any),
        step.spares_outputs_on_failure(),
        final(dk)@.expects_the_answer_to(step),
{
    match progress {
        WaitStep::Perform(waiter, request) => {
            dk.pending = Some(
                if any {
                    Pending::WaitAny(waiter)
                } else {
                    Pending::Wait(waiter)
                },
            );
            Step::Perform(request)
        },
        WaitStep::Ready(i, qr) => {
            if any {
                Step::Return { ret: 0, out: Output::Ready { offset: i as i32, qr } }
            } else {
                Step::Return { ret: 0, out: Output::QResult(qr) }
            }
        },
        WaitStep::Failed(fail) => status(fail.errno),
        WaitStep::TimedOut => status(etimedout()),
    }
}

/// Asks `core::str::from_utf8` for the string that `bytes` spell. Trusted:
/// the call succeeds exactly on well-formed UTF-8, and the string it hands
/// out is made of the characters that the bytes encode.
#[verifier::external_body]
fn str_from_utf8(bytes: &[u8]) -> (r: Option<&str>)
    ensures
        r is Some <==> valid_utf8(bytes@),
        r matches Some(s) ==> s@ == decode_utf8(bytes@),
{
    core::str::from_utf8(bytes).ok()
}

/// Puts a call in flight: the request goes out, and the reply will be
/// reported as `pending` says.
fn submit(dk: &mut Demikernel, request: Request, pending: Pending<Waiter>) -> (step: Step)
    requires
        old(dk)@.refusal() is None,
        !pending@.is_wait(),
    ensures
        step == Step::Perform(request),
        final(dk)@ == old(dk)@.awaiting(pending@),
{
    dk.pending = Some(pending);
    Step::Perform(request)
}

/// The endpoint that the address arguments of a call stand for, or the error
/// number that they are refused with: `EINVAL` for a null address or a length
/// other than the size of `sockaddr_in`, `ENOTSUP` for a family other than
/// `AF_INET`.
pub open spec fn checked_endpoint(saddr: Option<&SockAddr>, size: Socklen) -> Result<
    SocketAddrV4,
    i32,
> {
    match saddr {
        None => Err(EINVAL),
        Some(saddr) => if size != SOCKADDR_IN_SIZE {
            Err(EINVAL)
        } else if saddr.sa_family != AF_INET {
            Err(ENOTSUP)
        } else {
            Ok(sockaddr_endpoint(*saddr))
        },
    }
}

/// Checks the address arguments of a call.
fn check_endpoint(saddr: Option<&SockAddr>, size: Socklen) -> (r: Result<SocketAddrV4, i32>)
    ensures
        r == checked_endpoint(saddr, size),
{
    let saddr: &SockAddr = match saddr {
        Some(saddr) => saddr,
        None => return Err(einval()),
    };
    if size as usize != sockaddr_in_size() {
        return Err(einval());
    }
    match sockaddr_to_socketaddrv4(saddr) {
        Ok(endpoint) => Ok(endpoint),
        Err(fail) => Err(fail.errno),
    }
}

/// The timeout that the argument of a wait stands for; a null pointer is no
/// timeout.
pub open spec fn relative_timeout(timeout: Option<&Timespec>) -> Option<Duration> {
    match timeout {
        Some(ts) => Some(timespec_duration(*ts)),
        None => None,
    }
}

/// Creates a memory queue named by the bytes of a C string. Bytes that are not
/// UTF-8 are refused with `EINVAL`. On success the queue descriptor is
/// written.
pub fn demi_create_pipe(dk: &mut Demikernel, name: &[u8]) -> (step: Step)
    ensures
        !valid_utf8(name@) ==> old(dk)@.rejects(final(dk)@, step, EINVAL),
        valid_utf8(name@) ==> {
            &&& old(dk)@.refusal() matches Some(errno) ==> old(dk)@.rejects(final(dk)@, step, errno)
            &&& old(dk)@.on_network() ==> old(dk)@.rejects(final(dk)@, step, ENOTSUP)
            &&& old(dk)@.on_memory() ==> {
                &&& step matches Step::Perform(Request::Memory(MemoryCall::CreatePipe { name: n }))
                &&& n@ == decode_utf8(name@)
                &&& final(dk)@ == old(dk)@.awaiting(Pending::QDesc)
            }
        },
        step.spares_outputs_on_failure(),
        final(dk)@.expects_the_answer_to(step),
{
    let name: &str = match str_from_utf8(name) {
        Some(name) => name,
        None => return status(einval()),
    };
    let libos = match do_syscall(dk) {
        Ok(libos) => libos,
        Err(fail) => return status(fail.errno),
    };
    match libos.create_pipe(name) {
        Ok(request) => submit(dk, request, Pending::QDesc),
        Err(fail) => status(fail.errno),
    }
}

/// Opens the memory queue named by the bytes of a C string. Bytes that are not
/// UTF-8 are refused with `EINVAL`. On success the queue descriptor is
/// written.
pub fn demi_open_pipe(dk: &mut Demikernel, name: &[u8]) -> (step: Step)
    ensures
        !valid_utf8(name@) ==> old(dk)@.rejects(final(dk)@, step, EINVAL),
        valid_utf8(name@) ==> {
            &&& old(dk)@.refusal() matches Some(errno) ==> old(dk)@.rejects(final(dk)@, step, errno)
            &&& old(dk)@.on_network() ==> old(dk)@.rejects(final(dk)@, step, ENOTSUP)
            &&& old(dk)@.on_memory() ==> {
                &&& step matches Step::Perform(Request::Memory(MemoryCall::OpenPipe { name: n }))
                &&& n@ == decode_utf8(name@)
                &&& final(dk)@ == old(dk)@.awaiting(Pending::QDesc)
            }
        },
        step.spares_outputs_on_failure(),
        final(dk)@.expects_the_answer_to(step),
{
    let name: &str = match str_from_utf8(name) {
        Some(name) => name,
        None => return status(einval()),
    };
    let libos = match do_syscall(dk) {
        Ok(libos) => libos,
        Err(fail) => return status(fail.errno),
    };
    match libos.open_pipe(name) {
        Ok(request) => submit(dk, request, Pending::QDesc),
        Err(fail) => status(fail.errno),
    }
}

/// Creates a socket. On success the queue descriptor is written.
pub fn demi_socket(dk: &mut Demikernel, domain: i32, socket_type: i32, protocol: i32) -> (step:
    Step)
    ensures
        old(dk)@.submits_to_network(
            final(dk)@,
            step,
            NetworkCall::Socket { domain, socket_type, protocol },
            Pending::QDesc,
        ),
        step.spares_outputs_on_failure(),
        final(dk)@.expects_the_answer_to(step),
{
    let libos = match do_syscall(dk) {
        Ok(libos) => libos,
        Err(fail) => return status(fail.errno),
    };
    match libos.socket(domain, socket_type, protocol) {
        Ok(request) => submit(dk, request, Pending::QDesc),
        Err(fail) => status(fail.errno),
    }
}

/// Binds a socket to a local address.
pub fn demi_bind(dk: &mut Demikernel, qd: i32, saddr: Option<&SockAddr>, size: Socklen) -> (step:
    Step)
    ensures
        match checked_endpoint(saddr, size) {
            Err(errno) => old(dk)@.rejects(final(dk)@, step, errno),
            Ok(local) => old(dk)@.submits_to_network(
                final(dk)@,
                step,
                NetworkCall::Bind { sockqd: QDesc(qd), local },
                Pending::Unit,
            ),
        },
        step.spares_outputs_on_failure(),
        final(dk)@.expects_the_answer_to(step),
{
    let local: SocketAddrV4 = match check_endpoint(saddr, size) {
        Ok(endpoint) => endpoint,
        Err(errno) => return status(errno),
    };
    let libos = match do_syscall(dk) {
        Ok(libos) => libos,
        Err(fail) => return status(fail.errno),
    };
    match libos.bind(qd.into(), local) {
        Ok(request) => submit(dk, request, Pending::Unit),
        Err(fail) => status(fail.errno),
    }
}

/// Marks a socket as passive. A backlog below 1 is refused with `EINVAL`.
pub fn demi_listen(dk: &mut Demikernel, sockqd: i32, backlog: i32) -> (step: Step)
    ensures
        backlog < 1 ==> old(dk)@.rejects(final(dk)@, step, EINVAL),
        backlog >= 1 ==> old(dk)@.submits_to_network(
            final(dk)@,
            step,
            NetworkCall::Listen { sockqd: QDesc(sockqd), backlog: backlog as usize },
            Pending::Unit,
        ),
        step.spares_outputs_on_failure(),
        final(dk)@.expects_the_answer_to(step),
{
    if backlog < 1 {
        return status(einval());
    }
    let libos = match do_syscall(dk) {
        Ok(libos) => libos,
        Err(fail) => return status(fail.errno),
    };
    match libos.listen(sockqd.into(), backlog as usize) {
        Ok(request) => submit(dk, request, Pending::Unit),
        Err(fail) => status(fail.errno),
    }
}

/// Accepts a connection on a passive socket. On success the queue token of
/// the operation is written.
pub fn demi_accept(dk: &mut Demikernel, sockqd: i32) -> (step: Step)
    ensures
        old(dk)@.submits_to_network(
            final(dk)@,
            step,
            NetworkCall::Accept { sockqd: QDesc(sockqd) },
            Pending::QToken,
        ),
        step.spares_outputs_on_failure(),
        final(dk)@.expects_the_answer_to(step),
{
    let libos = match do_syscall(dk) {
        Ok(libos) => libos,
        Err(fail) => return status(fail.errno),
    };
    match libos.accept(sockqd.into()) {
        Ok(request) => submit(dk, request, Pending::QToken),
        Err(fail) => status(fail.errno),
    }
}

/// Connects a socket to a remote address. On success the queue token of the
/// operation is written.
pub fn demi_connect(
    dk: &mut Demikernel,
    sockqd: i32,
    saddr: Option<&SockAddr>,
    size: Socklen,
) -> (step: Step)
    ensures
        match checked_endpoint(saddr, size) {
            Err(errno) => old(dk)@.rejects(final(dk)@, step, errno),
            Ok(remote) => old(dk)@.submits_to_network(
                final(dk)@,
                step,
                NetworkCall::Connect { sockqd: QDesc(sockqd), remote },
                Pending::QToken,
            ),
        },
        step.spares_outputs_on_failure(),
        final(dk)@.expects_the_answer_to(step),
{
    let remote: SocketAddrV4 = match check_endpoint(saddr, size) {
        Ok(endpoint) => endpoint,
        Err(errno) => return status(errno),
    };
    let libos = match do_syscall(dk) {
        Ok(libos) => libos,
        Err(fail) => return status(fail.errno),
    };
    match libos.connect(sockqd.into(), remote) {
        Ok(request) => submit(dk, request, Pending::QToken),
        Err(fail) => status(fail.errno),
    }
}

/// Closes a queue.
pub fn demi_close(dk: &mut Demikernel, qd: i32) -> (step: Step)
    ensures
        old(dk)@.submits_to_either(
            final(dk)@,
            step,
            NetworkCall::Close { qd: QDesc(qd) },
            MemoryCall::Close { qd: QDesc(qd) },
            Pending::Unit,
        ),
        step.spares_outputs_on_failure(),
        final(dk)@.expects_the_answer_to(step),
{
    let libos = match do_syscall(dk) {
        Ok(libos) => libos,
        Err(fail) => return status(fail.errno),
    };
    let request = libos.close(qd.into());
    submit(dk, request, Pending::Unit)
}

/// Pushes a scatter-gather array to a remote address. A null array is refused
/// with `EINVAL`, before the address is looked at. On success the queue token
/// of the operation is written.
pub fn demi_pushto(
    dk: &mut Demikernel,
    sockqd: i32,
    sga: Option<&demi_sgarray_t>,
    saddr: Option<&SockAddr>,
    size: Socklen,
) -> (step: Step)
    ensures
        sga is None ==> old(dk)@.rejects(final(dk)@, step, EINVAL),
        sga matches Some(sga) ==> match checked_endpoint(saddr, size) {
            Err(errno) => old(dk)@.rejects(final(dk)@, step, errno),
            Ok(to) => old(dk)@.submits_to_network(
                final(dk)@,
                step,
                NetworkCall::Pushto { qd: QDesc(sockqd), sga: *sga, to },
                Pending::QToken,
            ),
        },
        step.spares_outputs_on_failure(),
        final(dk)@.expects_the_answer_to(step),
{
    let sga: &demi_sgarray_t = match sga {
        Some(sga) => sga,
        None => return status(einval()),
    };
    let to: SocketAddrV4 = match check_endpoint(saddr, size) {
        Ok(endpoint) => endpoint,
        Err(errno) => return status(errno),
    };
    let libos = match do_syscall(dk) {
        Ok(libos) => libos,
        Err(fail) => return status(fail.errno),
    };
    match libos.pushto(sockqd.into(), sga, to) {
        Ok(request) => submit(dk, request, Pending::QToken),
        Err(fail) => status(fail.errno),
    }
}

/// Pushes a scatter-gather array to a queue. A null array is refused with
/// `EINVAL`. On success the queue token of the operation is written.
pub fn demi_push(dk: &mut Demikernel, qd: i32, sga: Option<&demi_sgarray_t>) -> (step: Step)
    ensures
        sga is None ==> old(dk)@.rejects(final(dk)@, step, EINVAL),
        sga matches Some(sga) ==> old(dk)@.submits_to_either(
            final(dk)@,
            step,
            NetworkCall::Push { qd: QDesc(qd), sga: *sga },
            MemoryCall::Push { qd: QDesc(qd), sga: *sga },
            Pending::QToken,
        ),
        step.spares_outputs_on_failure(),
        final(dk)@.expects_the_answer_to(step),
{
    let sga: &demi_sgarray_t = match sga {
        Some(sga) => sga,
        None => return status(einval()),
    };
    let libos = match do_syscall(dk) {
        Ok(libos) => libos,
        Err(fail) => return status(fail.errno),
    };
    let request = libos.push(qd.into(), sga);
    submit(dk, request, Pending::QToken)
}

/// Pops data from a queue. On success the queue token of the operation is
/// written.
pub fn demi_pop(dk: &mut Demikernel, qd: i32) -> (step: Step)
    ensures
        old(dk)@.submits_to_either(
            final(dk)@,
            step,
            NetworkCall::Pop { qd: QDesc(qd) },
            MemoryCall::Pop { qd: QDesc(qd) },
            Pending::QToken,
        ),
        step.spares_outputs_on_failure(),
        final(dk)@.expects_the_answer_to(step),
{
    let libos = match do_syscall(dk) {
        Ok(libos) => libos,
        Err(fail) => return status(fail.errno),
    };
    let request = libos.pop(qd.into());
    submit(dk, request, Pending::QToken)
}

/// Waits until the operation behind `qt` has completed or the wall clock has
/// reached the deadline `abstime`; `now` is the wall clock's present reading.
/// A null deadline and a deadline with a negative component are refused with
/// `EINVAL`. A deadline too far off to count in 64 bits of nanoseconds is
/// taken to be `now`. On success the queue result is written.
pub fn demi_timedwait(
    dk: &mut Demikernel,
    qt: u64,
    abstime: Option<&Timespec>,
    now: SystemTime,
) -> (step: Step)
    ensures
        abstime is None ==> old(dk)@.rejects(final(dk)@, step, EINVAL),
        abstime matches Some(ts) ==> match timespec_deadline(*ts, now) {
            None => old(dk)@.rejects(final(dk)@, step, EINVAL),
            Some(deadline) => match old(dk)@.refusal() {
                Some(errno) => old(dk)@.rejects(final(dk)@, step, errno),
                None => (final(dk)@, step) == old(dk)@.waits(
                    WaiterModel::begin(
                        old(dk)@.libos->Some_0,
                        seq![QToken(qt)],
                        Limit::Until { deadline: Some(deadline) },
                    ),
                    false,
                ),
            },
        },
        step.spares_outputs_on_failure(),
        final(dk)@.expects_the_answer_to(step),
{
    let abstime: &Timespec = match abstime {
        Some(abstime) => abstime,
        None => return status(einval()),
    };
    let deadline: SystemTime = match timespec_to_systemtime(abstime, now) {
        Some(deadline) => deadline,
        None => return status(einval()),
    };
    let libos = match do_syscall(dk) {
        Ok(libos) => libos,
        Err(fail) => return status(fail.errno),
    };
    let began = libos.timedwait(qt.into(), Some(deadline));
    report_wait(dk, began, false)
}

/// Waits until the operation behind `qt` has completed or more than `timeout`
/// has passed. A null timeout waits without limit. On success the queue
/// result is written.
pub fn demi_wait(dk: &mut Demikernel, qt: u64, timeout: Option<&Timespec>) -> (step: Step)
    ensures
        match old(dk)@.refusal() {
            Some(errno) => old(dk)@.rejects(final(dk)@, step, errno),
            None => (final(dk)@, step) == old(dk)@.waits(
                WaiterModel::begin(
                    old(dk)@.libos->Some_0,
                    seq![QToken(qt)],
                    Limit::relative(relative_timeout(timeout)),
                ),
                false,
            ),
        },
        step.spares_outputs_on_failure(),
        final(dk)@.expects_the_answer_to(step),
{
    let duration: Option<Duration> = match timeout {
        Some(timeout) => Some(timespec_to_duration(timeout)),
        None => None,
    };
    let libos = match do_syscall(dk) {
        Ok(libos) => libos,
        Err(fail) => return status(fail.errno),
    };
    let began = libos.wait(qt.into(), duration);
    report_wait(dk, began, false)
}

/// The queue tokens that an array of raw tokens stands for.
pub open spec fn tokens(qts: Seq<u64>) -> Seq<QToken> {
    qts.map_values(|qt: u64| QToken(qt))
}

/// Waits until the operation behind one of the first `num_qts` tokens of `qts`
/// has completed or more than `timeout` has passed. A negative `num_qts` is
/// refused with `EINVAL`. A null timeout waits without limit. A wait on no
/// token at all returns `ETIMEDOUT` at once. On success the queue result and
/// the index of its token are written.
pub fn demi_wait_any(
    dk: &mut Demikernel,
    qts: &[u64],
    num_qts: i32,
    timeout: Option<&Timespec>,
) -> (step: Step)
    requires
        num_qts >= 0 ==> qts@.len() == num_qts,
    ensures
        num_qts < 0 ==> old(dk)@.rejects(final(dk)@, step, EINVAL),
        num_qts >= 0 ==> match old(dk)@.refusal() {
            Some(errno) => old(dk)@.rejects(final(dk)@, step, errno),
            None => (final(dk)@, step) == old(dk)@.waits(
                WaiterModel::begin(
                    old(dk)@.libos->Some_0,
                    tokens(qts@),
                    Limit::relative(relative_timeout(timeout)),
                ),
                true,
            ),
        },
        step.spares_outputs_on_failure(),
        final(dk)@.expects_the_answer_to(step),
{
    if num_qts < 0 {
        return status(einval());
    }
    let mut tokens: Vec<QToken> = Vec::new();
    for i in 0..qts.len()
        invariant
            tokens@ == self::tokens(qts@.take(i as int)),
    {
        tokens.push(QToken::from(qts[i]));
    }
    assert(qts@.take(qts@.len() as int) == qts@);
    let duration: Option<Duration> = match timeout {
        Some(timeout) => Some(timespec_to_duration(timeout)),
        None => None,
    };
    let libos = match do_syscall(dk) {
        Ok(libos) => libos,
        Err(fail) => return status(fail.errno),
    };
    let began = libos.wait_any(tokens.as_slice(), duration);
    report_wait(dk, began, true)
}

/// Allocates a scatter-gather array of `size` bytes. The call has no status:
/// it returns the array, and the null array when it cannot be made.
pub fn demi_sgaalloc(dk: &mut Demikernel, size: usize) -> (step: Step)
    ensures
        old(dk)@.refusal() is Some ==> step == (Step::Return {
            ret: 0,
            out: Output::Sgarray(null_sgarray()),
        }) && final(dk)@ == old(dk)@,
        old(dk)@.on_network() ==> old(dk)@.forwards(
            final(dk)@,
            step,
            Request::Network(NetworkCall::Sgaalloc { size }),
            Pending::Sgarray,
        ),
        old(dk)@.on_memory() ==> old(dk)@.forwards(
            final(dk)@,
            step,
            Request::Memory(MemoryCall::Sgaalloc { size }),
            Pending::Sgarray,
        ),
        step.spares_outputs_on_failure(),
        final(dk)@.expects_the_answer_to(step),
{
    let libos = match do_syscall(dk) {
        Ok(libos) => libos,
        Err(_) => return Step::Return { ret: 0, out: Output::Sgarray(demi_sgarray_t::null()) },
    };
    let request = libos.sgaalloc(size);
    submit(dk, request, Pending::Sgarray)
}

/// Releases a scatter-gather array. A null array is refused with `EINVAL`.
pub fn demi_sgafree(dk: &mut Demikernel, sga: Option<&demi_sgarray_t>) -> (step: Step)
    ensures
        sga is None ==> old(dk)@.rejects(final(dk)@, step, EINVAL),
        sga matches Some(sga) ==> old(dk)@.submits_to_either(
            final(dk)@,
            step,
            NetworkCall::Sgafree { sga: *sga },
            MemoryCall::Sgafree { sga: *sga },
            Pending::Unit,
        ),
        step.spares_outputs_on_failure(),
        final(dk)@.expects_the_answer_to(step),
{
    let sga: &demi_sgarray_t = match sga {
        Some(sga) => sga,
        None => return status(einval()),
    };
    let libos = match do_syscall(dk) {
        Ok(libos) => libos,
        Err(fail) => return status(fail.errno),
    };
    let request = libos.sgafree(*sga);
    submit(dk, request, Pending::Unit)
}

/// Not implemented: always `ENOSYS`.
pub fn demi_getsockname(qd: i32) -> (ret: i32)
    ensures
        ret == ENOSYS,
{
    enosys()
}

/// Not implemented: always `ENOSYS`.
pub fn demi_setsockopt(qd: i32, level: i32, optname: i32, optlen: Socklen) -> (ret: i32)
    ensures
        ret == ENOSYS,
{
    enosys()
}

/// Not implemented: always `ENOSYS`.
pub fn demi_getsockopt(qd: i32, level: i32, optname: i32) -> (ret: i32)
    ensures
        ret == ENOSYS,
{
    enosys()
}

} // verus!
