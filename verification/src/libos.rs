//! The dispatcher: which family of backend is active, and what each operation
//! asks of it.
//!
//! A backend is outside the library. The dispatcher does not call it: each
//! method answers with the [`Request`] to carry out on the active backend, or
//! with the failure that the dispatcher itself reports when the operation
//! belongs to the other family. What the backend answers comes back as a
//! [`Reply`].

use crate::errno::{einval, enotsup, EINVAL, ENOTSUP};
use crate::fail::Fail;
use crate::net::SocketAddrV4;
use crate::time::{Instant, SystemTime};
use crate::types::{demi_qresult_t, demi_sgarray_t, QDesc, QToken};
use vstd::prelude::*;

verus! {

/// The name of a backend, as the environment selects it.
#[derive(Clone, Copy, Debug, PartialEq, Eq)]
pub enum LibOSName {
    /// Raw Ethernet through a packet socket.
    Catpowder,
    /// Host-kernel sockets on Linux.
    Catnap,
    /// Host-kernel sockets on Windows.
    CatnapW,
    /// Host-kernel sockets through an asynchronous ring.
    Catcollar,
    /// A userspace TCP/IP stack.
    Catnip,
    /// Shared-memory queues.
    Catmem,
}

/// The backends of the network family.
#[derive(Clone, Copy, Debug, PartialEq, Eq)]
pub enum NetworkLibOS {
    /// Raw Ethernet through a packet socket.
    Catpowder,
    /// Host-kernel sockets on Linux.
    Catnap,
    /// Host-kernel sockets on Windows.
    CatnapW,
    /// Host-kernel sockets through an asynchronous ring.
    Catcollar,
    /// A userspace TCP/IP stack.
    Catnip,
}

/// The backends of the memory family.
#[derive(Clone, Copy, Debug, PartialEq, Eq)]
pub enum MemoryLibOS {
    /// Shared-memory queues.
    Catmem,
}

/// The active backend, by family.
#[derive(Clone, Copy, Debug, PartialEq, Eq)]
pub enum LibOS {
    /// Network LibOS
    NetworkLibOS(NetworkLibOS),
    /// Memory LibOS
    MemoryLibOS(MemoryLibOS),
}

/// What the scheduler hands out when a queue token is looked up: the key that
/// keeps the operation alive, and whether the operation has completed.
#[derive(Clone, Copy, Debug, PartialEq, Eq)]
pub struct SchedulerHandle {
    /// The key of the operation in the scheduler.
    pub key: u64,
    /// Whether the operation has completed.
    pub completed: bool,
}

impl SchedulerHandle {
    /// Whether the operation behind the handle has completed.
    pub fn has_completed(&self) -> (completed: bool)
        ensures
            completed == self.completed,
    {
        self.completed
    }
}

/// A call on a backend of the network family.
#[derive(Clone, Copy, Debug, PartialEq, Eq)]
pub enum NetworkCall {
    /// Create a socket.
    Socket { domain: i32, socket_type: i32, protocol: i32 },
    /// Bind a socket to a local address.
    Bind { sockqd: QDesc, local: SocketAddrV4 },
    /// Mark a socket as passive.
    Listen { sockqd: QDesc, backlog: usize },
    /// Accept a connection on a passive socket.
    Accept { sockqd: QDesc },
    /// Connect a socket to a remote address.
    Connect { sockqd: QDesc, remote: SocketAddrV4 },
    /// Close a queue.
    Close { qd: QDesc },
    /// Push a scatter-gather array to a queue.
    Push { qd: QDesc, sga: demi_sgarray_t },
    /// Push a scatter-gather array to a remote address.
    Pushto { qd: QDesc, sga: demi_sgarray_t, to: SocketAddrV4 },
    /// Pop data from a queue.
    Pop { qd: QDesc },
    /// Allocate a scatter-gather array.
    Sgaalloc { size: usize },
    /// Release a scatter-gather array.
    Sgafree { sga: demi_sgarray_t },
    /// Look up the operation behind a queue token.
    Schedule { qt: QToken },
    /// Turn a completed operation into its queue result, consuming it.
    PackResult { handle: SchedulerHandle, qt: QToken },
    /// Drive pending operations one step.
    Poll,
}

/// A call on a backend of the memory family.
#[derive(Debug, PartialEq, Eq)]
pub enum MemoryCall {
    /// Create a memory queue.
    CreatePipe { name: String },
    /// Open an existing memory queue.
    OpenPipe { name: String },
    /// Close a queue.
    Close { qd: QDesc },
    /// Push a scatter-gather array to a queue.
    Push { qd: QDesc, sga: demi_sgarray_t },
    /// Pop data from a queue.
    Pop { qd: QDesc },
    /// Allocate a scatter-gather array.
    Sgaalloc { size: usize },
    /// Release a scatter-gather array.
    Sgafree { sga: demi_sgarray_t },
    /// Look up the operation behind a queue token.
    Schedule { qt: QToken },
    /// Turn a completed operation into its queue result, consuming it.
    PackResult { handle: SchedulerHandle, qt: QToken },
    /// Drive pending operations one step.
    Poll,
}

/// One piece of outside work that the library asks for.
#[derive(Debug, PartialEq, Eq)]
pub enum Request {
    /// Make this call on the network backend.
    Network(NetworkCall),
    /// Make this call on the memory backend.
    Memory(MemoryCall),
    /// Take the key out of this handle, so that letting go of the handle
    /// leaves its operation in the scheduler.
    TakeKey(SchedulerHandle),
    /// Read the monotonic clock.
    Now,
    /// Read the wall clock.
    SystemNow,
}

/// What came of a piece of outside work.
#[derive(Debug, PartialEq, Eq)]
pub enum Reply {
    /// A call that hands nothing back has returned: bind, listen, close,
    /// sgafree.
    Unit(Result<(), Fail>),
    /// A call that makes a queue has returned: socket, create_pipe, open_pipe.
    QDesc(Result<QDesc, Fail>),
    /// A call that starts an operation has returned: accept, connect, push,
    /// pushto, pop.
    QToken(Result<QToken, Fail>),
    /// `sgaalloc` has returned.
    Sgarray(Result<demi_sgarray_t, Fail>),
    /// `schedule` has returned.
    Handle(Result<SchedulerHandle, Fail>),
    /// `pack_result` has returned.
    QResult(Result<demi_qresult_t, Fail>),
    /// `poll` has returned.
    Polled,
    /// The key was taken out of the handle.
    KeyTaken,
    /// The monotonic clock's reading.
    Instant(Instant),
    /// The wall clock's reading.
    SystemTime(SystemTime),
}

impl NetworkCall {
    /// `reply` is of the kind that answers this call.
    pub open spec fn answered_by(self, reply: Reply) -> bool {
        match self {
            NetworkCall::Socket { .. } => reply is QDesc,
            NetworkCall::Bind { .. } => reply is Unit,
            NetworkCall::Listen { .. } => reply is Unit,
            NetworkCall::Accept { .. } => reply is QToken,
            NetworkCall::Connect { .. } => reply is QToken,
            NetworkCall::Close { .. } => reply is Unit,
            NetworkCall::Push { .. } => reply is QToken,
            NetworkCall::Pushto { .. } => reply is QToken,
            NetworkCall::Pop { .. } => reply is QToken,
            NetworkCall::Sgaalloc { .. } => reply is Sgarray,
            NetworkCall::Sgafree { .. } => reply is Unit,
            NetworkCall::Schedule { .. } => reply is Handle,
            NetworkCall::PackResult { .. } => reply is QResult,
            NetworkCall::Poll => reply is Polled,
        }
    }
}

impl MemoryCall {
    /// `reply` is of the kind that answers this call.
    pub open spec fn answered_by(self, reply: Reply) -> bool {
        match self {
            MemoryCall::CreatePipe { .. } => reply is QDesc,
            MemoryCall::OpenPipe { .. } => reply is QDesc,
            MemoryCall::Close { .. } => reply is Unit,
            MemoryCall::Push { .. } => reply is QToken,
            MemoryCall::Pop { .. } => reply is QToken,
            MemoryCall::Sgaalloc { .. } => reply is Sgarray,
            MemoryCall::Sgafree { .. } => reply is Unit,
            MemoryCall::Schedule { .. } => reply is Handle,
            MemoryCall::PackResult { .. } => reply is QResult,
            MemoryCall::Poll => reply is Polled,
        }
    }
}

impl Request {
    /// The token of the operation that this request turns into its queue
    /// result, where it is such a request.
    pub open spec fn packed(self) -> Option<QToken> {
        match self {
            Request::Network(NetworkCall::PackResult { qt, .. }) => Some(qt),
            Request::Memory(MemoryCall::PackResult { qt, .. }) => Some(qt),
            _ => None,
        }
    }

    /// The handle whose key this request takes out, where it is such a
    /// request.
    pub open spec fn released(self) -> Option<SchedulerHandle> {
        match self {
            Request::TakeKey(handle) => Some(handle),
            _ => None,
        }
    }

    /// `reply` is of the kind that answers this request.
    pub open spec fn answered_by(self, reply: Reply) -> bool {
        match self {
            Request::Network(call) => call.answered_by(reply),
            Request::Memory(call) => call.answered_by(reply),
            Request::TakeKey(_) => reply is KeyTaken,
            Request::Now => reply is Instant,
            Request::SystemNow => reply is SystemTime,
        }
    }
}

impl Reply {
    /// The handle of an operation that has not completed, where the reply
    /// hands one out.
    pub open spec fn unfinished(self) -> Option<SchedulerHandle> {
        match self {
            Reply::Handle(Ok(handle)) => if handle.completed {
                None
            } else {
                Some(handle)
            },
            _ => None,
        }
    }
}

impl LibOSName {
    /// The backend that is spelled `name`, in lower case.
    pub open spec fn named(name: Seq<char>) -> Option<LibOSName> {
        if name == "catpowder"@ {
            Some(LibOSName::Catpowder)
        } else if name == "catnap"@ {
            Some(LibOSName::Catnap)
        } else if name == "catnapw"@ {
            Some(LibOSName::CatnapW)
        } else if name == "catcollar"@ {
            Some(LibOSName::Catcollar)
        } else if name == "catnip"@ {
            Some(LibOSName::Catnip)
        } else if name == "catmem"@ {
            Some(LibOSName::Catmem)
        } else {
            None
        }
    }

    /// Reads the name of a backend, spelled in lower case.
    pub fn from_name(name: &str) -> (libos_name: Option<LibOSName>)
        ensures
            libos_name == LibOSName::named(name@),
    {
        let name: String = name.to_owned();
        if name == "catpowder".to_owned() {
            Some(LibOSName::Catpowder)
        } else if name == "catnap".to_owned() {
            Some(LibOSName::Catnap)
        } else if name == "catnapw".to_owned() {
            Some(LibOSName::CatnapW)
        } else if name == "catcollar".to_owned() {
            Some(LibOSName::Catcollar)
        } else if name == "catnip".to_owned() {
            Some(LibOSName::Catnip)
        } else if name == "catmem".to_owned() {
            Some(LibOSName::Catmem)
        } else {
            None
        }
    }
}

impl LibOS {
    /// The backend that a name selects, under its family.
    pub open spec fn selected(libos_name: LibOSName) -> LibOS {
        match libos_name {
            LibOSName::Catpowder => LibOS::NetworkLibOS(NetworkLibOS::Catpowder),
            LibOSName::Catnap => LibOS::NetworkLibOS(NetworkLibOS::Catnap),
            LibOSName::CatnapW => LibOS::NetworkLibOS(NetworkLibOS::CatnapW),
            LibOSName::Catcollar => LibOS::NetworkLibOS(NetworkLibOS::Catcollar),
            LibOSName::Catnip => LibOS::NetworkLibOS(NetworkLibOS::Catnip),
            LibOSName::Catmem => LibOS::MemoryLibOS(MemoryLibOS::Catmem),
        }
    }

    /// Instantiates a new LibOS. `config_path` is the value of the environment
    /// variable `CONFIG_PATH`, if it is set.
    pub fn new(libos_name: LibOSName, config_path: Option<&str>) -> (r: Result<LibOS, Fail>)
        ensures
            config_path is Some ==> r == Ok::<LibOS, Fail>(LibOS::selected(libos_name)),
            config_path is None ==> (r matches Err(e) && e.reports(
                EINVAL,
                "missing value for CONFIG_PATH environment variable",
            )),
    {
        if config_path.is_none() {
            return Err(
                Fail::new(einval(), "missing value for CONFIG_PATH environment variable"),
            );
        }
        let libos: LibOS = match libos_name {
            LibOSName::Catpowder => LibOS::NetworkLibOS(NetworkLibOS::Catpowder),
            LibOSName::Catnap => LibOS::NetworkLibOS(NetworkLibOS::Catnap),
            LibOSName::CatnapW => LibOS::NetworkLibOS(NetworkLibOS::CatnapW),
            LibOSName::Catcollar => LibOS::NetworkLibOS(NetworkLibOS::Catcollar),
            LibOSName::Catnip => LibOS::NetworkLibOS(NetworkLibOS::Catnip),
            LibOSName::Catmem => LibOS::MemoryLibOS(MemoryLibOS::Catmem),
        };
        Ok(libos)
    }

    /// Creates a new memory queue.
    pub fn create_pipe(&self, name: &str) -> (r: Result<Request, Fail>)
        ensures
            *self is MemoryLibOS ==> (r matches Ok(Request::Memory(MemoryCall::CreatePipe { name: n }))
                && n@ == name@),
            *self is NetworkLibOS ==> (r matches Err(e) && e.reports(
                ENOTSUP,
                "create_pipe() is not supported on network liboses",
            )),
    {
        match self {
            LibOS::NetworkLibOS(_) => Err(
                Fail::new(enotsup(), "create_pipe() is not supported on network liboses"),
            ),
            LibOS::MemoryLibOS(_) => Ok(
                Request::Memory(MemoryCall::CreatePipe { name: name.to_owned() }),
            ),
        }
    }

    /// Opens an existing memory queue.
    pub fn open_pipe(&self, name: &str) -> (r: Result<Request, Fail>)
        ensures
            *self is MemoryLibOS ==> (r matches Ok(Request::Memory(MemoryCall::OpenPipe { name: n }))
                && n@ == name@),
            *self is NetworkLibOS ==> (r matches Err(e) && e.reports(
                ENOTSUP,
                "open_pipe() is not supported on network liboses",
            )),
    {
        match self {
            LibOS::NetworkLibOS(_) => Err(
                Fail::new(enotsup(), "open_pipe() is not supported on network liboses"),
            ),
            LibOS::MemoryLibOS(_) => Ok(
                Request::Memory(MemoryCall::OpenPipe { name: name.to_owned() }),
            ),
        }
    }

    /// Creates a socket.
    pub fn socket(&self, domain: i32, socket_type: i32, protocol: i32) -> (r: Result<
        Request,
        Fail,
    >)
        ensures
            *self is NetworkLibOS ==> r == Ok::<Request, Fail>(
                Request::Network(NetworkCall::Socket { domain, socket_type, protocol }),
            ),
            *self is MemoryLibOS ==> (r matches Err(e) && e.reports(
                ENOTSUP,
                "socket() is not supported on memory liboses",
            )),
    {
        match self {
            LibOS::NetworkLibOS(_) => Ok(
                Request::Network(NetworkCall::Socket { domain, socket_type, protocol }),
            ),
            LibOS::MemoryLibOS(_) => Err(
                Fail::new(enotsup(), "socket() is not supported on memory liboses"),
            ),
        }
    }

    /// Binds a socket to a local address.
    pub fn bind(&self, sockqd: QDesc, local: SocketAddrV4) -> (r: Result<Request, Fail>)
        ensures
            *self is NetworkLibOS ==> r == Ok::<Request, Fail>(
                Request::Network(NetworkCall::Bind { sockqd, local }),
            ),
            *self is MemoryLibOS ==> (r matches Err(e) && e.reports(
                ENOTSUP,
                "bind() is not supported on memory liboses",
            )),
    {
        match self {
            LibOS::NetworkLibOS(_) => Ok(Request::Network(NetworkCall::Bind { sockqd, local })),
            LibOS::MemoryLibOS(_) => Err(
                Fail::new(enotsup(), "bind() is not supported on memory liboses"),
            ),
        }
    }

    /// Marks a socket as a passive one.
    pub fn listen(&self, sockqd: QDesc, backlog: usize) -> (r: Result<Request, Fail>)
        ensures
            *self is NetworkLibOS ==> r == Ok::<Request, Fail>(
                Request::Network(NetworkCall::Listen { sockqd, backlog }),
            ),
            *self is MemoryLibOS ==> (r matches Err(e) && e.reports(
                ENOTSUP,
                "listen() is not supported on memory liboses",
            )),
    {
        match self {
            LibOS::NetworkLibOS(_) => Ok(
                Request::Network(NetworkCall::Listen { sockqd, backlog }),
            ),
            LibOS::MemoryLibOS(_) => Err(
                Fail::new(enotsup(), "listen() is not supported on memory liboses"),
            ),
        }
    }

    /// Accepts an incoming connection on a TCP socket.
    pub fn accept(&self, sockqd: QDesc) -> (r: Result<Request, Fail>)
        ensures
            *self is NetworkLibOS ==> r == Ok::<Request, Fail>(
                Request::Network(NetworkCall::Accept { sockqd }),
            ),
            *self is MemoryLibOS ==> (r matches Err(e) && e.reports(
                ENOTSUP,
                "accept() is not supported on memory liboses",
            )),
    {
        match self {
            LibOS::NetworkLibOS(_) => Ok(Request::Network(NetworkCall::Accept { sockqd })),
            LibOS::MemoryLibOS(_) => Err(
                Fail::new(enotsup(), "accept() is not supported on memory liboses"),
            ),
        }
    }

    /// Initiates a connection with a remote TCP socket.
    pub fn connect(&self, sockqd: QDesc, remote: SocketAddrV4) -> (r: Result<Request, Fail>)
        ensures
            *self is NetworkLibOS ==> r == Ok::<Request, Fail>(
                Request::Network(NetworkCall::Connect { sockqd, remote }),
            ),
            *self is MemoryLibOS ==> (r matches Err(e) && e.reports(
                ENOTSUP,
                "connect() is not supported on memory liboses",
            )),
    {
        match self {
            LibOS::NetworkLibOS(_) => Ok(
                Request::Network(NetworkCall::Connect { sockqd, remote }),
            ),
            LibOS::MemoryLibOS(_) => Err(
                Fail::new(enotsup(), "connect() is not supported on memory liboses"),
            ),
        }
    }

    /// Closes an I/O queue.
    pub fn close(&self, qd: QDesc) -> (r: Request)
        ensures
            r == match *self {
                LibOS::NetworkLibOS(_) => Request::Network(NetworkCall::Close { qd }),
                LibOS::MemoryLibOS(_) => Request::Memory(MemoryCall::Close { qd }),
            },
    {
        match self {
            LibOS::NetworkLibOS(_) => Request::Network(NetworkCall::Close { qd }),
            LibOS::MemoryLibOS(_) => Request::Memory(MemoryCall::Close { qd }),
        }
    }

    /// Pushes a scatter-gather array to an I/O queue.
    pub fn push(&self, qd: QDesc, sga: &demi_sgarray_t) -> (r: Request)
        ensures
            r == match *self {
                LibOS::NetworkLibOS(_) => Request::Network(NetworkCall::Push { qd, sga: *sga }),
                LibOS::MemoryLibOS(_) => Request::Memory(MemoryCall::Push { qd, sga: *sga }),
            },
    {
        match self {
            LibOS::NetworkLibOS(_) => Request::Network(NetworkCall::Push { qd, sga: *sga }),
            LibOS::MemoryLibOS(_) => Request::Memory(MemoryCall::Push { qd, sga: *sga }),
        }
    }

    /// Pushes a scatter-gather array to a UDP socket.
    pub fn pushto(&self, qd: QDesc, sga: &demi_sgarray_t, to: SocketAddrV4) -> (r: Result<
        Request,
        Fail,
    >)
        ensures
            *self is NetworkLibOS ==> r == Ok::<Request, Fail>(
                Request::Network(NetworkCall::Pushto { qd, sga: *sga, to }),
            ),
            *self is MemoryLibOS ==> (r matches Err(e) && e.reports(
                ENOTSUP,
                "pushto() is not supported on memory liboses",
            )),
    {
        match self {
            LibOS::NetworkLibOS(_) => Ok(
                Request::Network(NetworkCall::Pushto { qd, sga: *sga, to }),
            ),
            LibOS::MemoryLibOS(_) => Err(
                Fail::new(enotsup(), "pushto() is not supported on memory liboses"),
            ),
        }
    }

    /// Pops data from a an I/O queue.
    pub fn pop(&self, qd: QDesc) -> (r: Request)
        ensures
            r == match *self {
                LibOS::NetworkLibOS(_) => Request::Network(NetworkCall::Pop { qd }),
                LibOS::MemoryLibOS(_) => Request::Memory(MemoryCall::Pop { qd }),
            },
    {
        match self {
            LibOS::NetworkLibOS(_) => Request::Network(NetworkCall::Pop { qd }),
            LibOS::MemoryLibOS(_) => Request::Memory(MemoryCall::Pop { qd }),
        }
    }

    /// Allocates a scatter-gather array.
    pub fn sgaalloc(&self, size: usize) -> (r: Request)
        ensures
            r == match *self {
                LibOS::NetworkLibOS(_) => Request::Network(NetworkCall::Sgaalloc { size }),
                LibOS::MemoryLibOS(_) => Request::Memory(MemoryCall::Sgaalloc { size }),
            },
    {
        match self {
            LibOS::NetworkLibOS(_) => Request::Network(NetworkCall::Sgaalloc { size }),
            LibOS::MemoryLibOS(_) => Request::Memory(MemoryCall::Sgaalloc { size }),
        }
    }

    /// Releases a scatter-gather array.
    pub fn sgafree(&self, sga: demi_sgarray_t) -> (r: Request)
        ensures
            r == match *self {
                LibOS::NetworkLibOS(_) => Request::Network(NetworkCall::Sgafree { sga }),
                LibOS::MemoryLibOS(_) => Request::Memory(MemoryCall::Sgafree { sga }),
            },
    {
        match self {
            LibOS::NetworkLibOS(_) => Request::Network(NetworkCall::Sgafree { sga }),
            LibOS::MemoryLibOS(_) => Request::Memory(MemoryCall::Sgafree { sga }),
        }
    }

    /// The request that looks up the operation behind `qt`.
    pub open spec fn schedules(self, qt: QToken) -> Request {
        match self {
            LibOS::NetworkLibOS(_) => Request::Network(NetworkCall::Schedule { qt }),
            LibOS::MemoryLibOS(_) => Request::Memory(MemoryCall::Schedule { qt }),
        }
    }

    /// The request that turns the completed operation behind `handle` into its
    /// queue result.
    pub open spec fn packs(self, handle: SchedulerHandle, qt: QToken) -> Request {
        match self {
            LibOS::NetworkLibOS(_) => Request::Network(NetworkCall::PackResult { handle, qt }),
            LibOS::MemoryLibOS(_) => Request::Memory(MemoryCall::PackResult { handle, qt }),
        }
    }

    /// The request that drives pending operations one step.
    pub open spec fn polls(self) -> Request {
        match self {
            LibOS::NetworkLibOS(_) => Request::Network(NetworkCall::Poll),
            LibOS::MemoryLibOS(_) => Request::Memory(MemoryCall::Poll),
        }
    }

    /// Waits for any operation in an I/O queue.
    pub fn schedule(&self, qt: QToken) -> (r: Request)
        ensures
            r == self.schedules(qt),
    {
        match self {
            LibOS::NetworkLibOS(_) => Request::Network(NetworkCall::Schedule { qt }),
            LibOS::MemoryLibOS(_) => Request::Memory(MemoryCall::Schedule { qt }),
        }
    }

    /// Asks for the queue result of a completed operation.
    pub fn pack_result(&self, handle: SchedulerHandle, qt: QToken) -> (r: Request)
        ensures
            r == self.packs(handle, qt),
    {
        match self {
            LibOS::NetworkLibOS(_) => Request::Network(NetworkCall::PackResult { handle, qt }),
            LibOS::MemoryLibOS(_) => Request::Memory(MemoryCall::PackResult { handle, qt }),
        }
    }

    /// Asks the backend to drive pending operations one step.
    pub fn poll(&self) -> (r: Request)
        ensures
            r == self.polls(),
    {
        match self {
            LibOS::NetworkLibOS(_) => Request::Network(NetworkCall::Poll),
            LibOS::MemoryLibOS(_) => Request::Memory(MemoryCall::Poll),
        }
    }
}

} // verus!
