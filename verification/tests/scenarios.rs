use demikernel::bindings::{
    demi_accept, demi_bind, demi_close, demi_create_pipe, demi_init, demi_listen, demi_open_pipe,
    demi_pop, demi_push, demi_pushto, demi_resume, demi_sgaalloc, demi_sgafree, demi_socket,
    demi_wait, Demikernel, Output, Step,
};
use demikernel::libos::{LibOSName, MemoryCall, NetworkCall, Reply, Request, SchedulerHandle};
use demikernel::net::{
    sockaddr_to_socketaddrv4, socketaddrv4_to_sockaddr, Ipv4Addr, SockAddr, SocketAddrV4,
};
use demikernel::time::{Duration, Instant, Timespec};
use demikernel::types::{
    demi_accept_result_t, demi_opcode_t, demi_qr_value_t, demi_qresult_t, demi_sgarray_t,
    demi_sgaseg_t, QDesc, QToken,
};

const SOCKLEN: u32 = 16;

fn done(ret: i32) -> Step {
    Step::Return { ret, out: Output::Nothing }
}

fn initialized(name: LibOSName) -> Demikernel {
    let mut dk = Demikernel::new();
    assert_eq!(demi_init(&mut dk, name, Some("/etc/demikernel.yaml")), 0);
    dk
}

fn local(port: u16) -> SocketAddrV4 {
    SocketAddrV4::new(Ipv4Addr::new(127, 0, 0, 1), port)
}

fn c_address(port: u16) -> SockAddr {
    socketaddrv4_to_sockaddr(&local(port))
}

fn array(buf: usize, len: u32, addr: SockAddr) -> demi_sgarray_t {
    demi_sgarray_t {
        sga_buf: buf,
        sga_numsegs: 1,
        sga_segs: [demi_sgaseg_t { sgaseg_buf: buf, sgaseg_len: len }],
        sga_addr: addr,
    }
}

fn net(call: NetworkCall) -> Step {
    Step::Perform(Request::Network(call))
}

fn mem(call: MemoryCall) -> Step {
    Step::Perform(Request::Memory(call))
}

/// Checks that the instance asks for what `asked` says, and answers with
/// `reply`.
fn answer(dk: &mut Demikernel, step: Step, asked: Step, reply: Reply) -> Step {
    assert_eq!(step, asked);
    assert!(dk.expects(&reply));
    demi_resume(dk, reply)
}

/// A cycle of a wait on `qt` over a network backend in which the operation has
/// not completed; `step` is the request to poll.
fn network_cycle_without_completion(dk: &mut Demikernel, step: Step, qt: u64) -> Step {
    let handle = SchedulerHandle { key: qt, completed: false };
    let step = answer(dk, step, net(NetworkCall::Poll), Reply::Polled);
    let step = answer(
        dk,
        step,
        net(NetworkCall::Schedule { qt: QToken(qt) }),
        Reply::Handle(Ok(handle)),
    );
    answer(dk, step, Step::Perform(Request::TakeKey(handle)), Reply::KeyTaken)
}

/// A cycle of a wait on `qt` over a network backend in which the operation has
/// completed with `qr`; `step` is the request to poll.
fn network_cycle_with_completion(
    dk: &mut Demikernel,
    step: Step,
    qt: u64,
    qr: demi_qresult_t,
) -> Step {
    let handle = SchedulerHandle { key: qt, completed: true };
    let step = answer(dk, step, net(NetworkCall::Poll), Reply::Polled);
    let step = answer(
        dk,
        step,
        net(NetworkCall::Schedule { qt: QToken(qt) }),
        Reply::Handle(Ok(handle)),
    );
    answer(
        dk,
        step,
        net(NetworkCall::PackResult { handle, qt: QToken(qt) }),
        Reply::QResult(Ok(qr)),
    )
}

#[test]
fn udp_echo() {
    let mut dk = initialized(LibOSName::Catnap);

    // socket(AF_INET, DGRAM, 0)
    let step = demi_socket(&mut dk, libc::AF_INET, libc::SOCK_DGRAM, 0);
    let asked = net(NetworkCall::Socket {
        domain: libc::AF_INET,
        socket_type: libc::SOCK_DGRAM,
        protocol: 0,
    });
    let step = answer(&mut dk, step, asked, Reply::QDesc(Ok(QDesc(1))));
    assert_eq!(step, Step::Return { ret: 0, out: Output::QDesc(1) });

    // bind(127.0.0.1:9000)
    let step = demi_bind(&mut dk, 1, Some(&c_address(9000)), SOCKLEN);
    let asked = net(NetworkCall::Bind { sockqd: QDesc(1), local: local(9000) });
    let step = answer(&mut dk, step, asked, Reply::Unit(Ok(())));
    assert_eq!(step, done(0));

    // pop
    let step = demi_pop(&mut dk, 1);
    let step = answer(
        &mut dk,
        step,
        net(NetworkCall::Pop { qd: QDesc(1) }),
        Reply::QToken(Ok(QToken(100))),
    );
    assert_eq!(step, Step::Return { ret: 0, out: Output::QToken(100) });

    // wait: the peer at 127.0.0.1:9001 has sent 5 bytes.
    let received = array(0x7000, 5, c_address(9001));
    let popped = demi_qresult_t {
        qr_opcode: demi_opcode_t::DEMI_OPC_POP,
        qr_qd: 1,
        qr_qt: 100,
        qr_value: demi_qr_value_t::Sga(received),
    };
    let step = demi_wait(&mut dk, 100, None);
    let step = network_cycle_without_completion(&mut dk, step, 100);
    let step = network_cycle_with_completion(&mut dk, step, 100, popped);
    assert_eq!(step, Step::Return { ret: 0, out: Output::QResult(popped) });
    let (sga, from) = match step {
        Step::Return { out: Output::QResult(qr), .. } => {
            assert_eq!(qr.qr_opcode, demi_opcode_t::DEMI_OPC_POP);
            match qr.qr_value {
                demi_qr_value_t::Sga(sga) => (sga, sga.sga_addr),
                other => panic!("not a scatter-gather array: {:?}", other),
            }
        },
        other => panic!("not a return: {:?}", other),
    };
    assert_eq!(sga.sga_segs[0].sgaseg_len, 5);
    assert_eq!(sockaddr_to_socketaddrv4(&from).unwrap(), local(9001));

    // pushto(payload.sga, 127.0.0.1:9001)
    let step = demi_pushto(&mut dk, 1, Some(&sga), Some(&from), SOCKLEN);
    let asked = net(NetworkCall::Pushto { qd: QDesc(1), sga, to: local(9001) });
    let step = answer(&mut dk, step, asked, Reply::QToken(Ok(QToken(101))));
    assert_eq!(step, Step::Return { ret: 0, out: Output::QToken(101) });

    // wait
    let pushed = demi_qresult_t {
        qr_opcode: demi_opcode_t::DEMI_OPC_PUSH,
        qr_qd: 1,
        qr_qt: 101,
        qr_value: demi_qr_value_t::Empty,
    };
    let step = demi_wait(&mut dk, 101, None);
    let step = network_cycle_with_completion(&mut dk, step, 101, pushed);
    assert_eq!(step, Step::Return { ret: 0, out: Output::QResult(pushed) });

    // sgafree, close
    let step = demi_sgafree(&mut dk, Some(&sga));
    let step = answer(&mut dk, step, net(NetworkCall::Sgafree { sga }), Reply::Unit(Ok(())));
    assert_eq!(step, done(0));
    let step = demi_close(&mut dk, 1);
    let step = answer(&mut dk, step, net(NetworkCall::Close { qd: QDesc(1) }), Reply::Unit(Ok(())));
    assert_eq!(step, done(0));
    assert!(!dk.is_busy());
}

#[test]
fn tcp_accept() {
    let mut dk = initialized(LibOSName::Catnip);

    let step = demi_socket(&mut dk, libc::AF_INET, libc::SOCK_STREAM, 0);
    let asked = net(NetworkCall::Socket {
        domain: libc::AF_INET,
        socket_type: libc::SOCK_STREAM,
        protocol: 0,
    });
    assert_eq!(
        answer(&mut dk, step, asked, Reply::QDesc(Ok(QDesc(1)))),
        Step::Return { ret: 0, out: Output::QDesc(1) }
    );

    let step = demi_bind(&mut dk, 1, Some(&c_address(9100)), SOCKLEN);
    let asked = net(NetworkCall::Bind { sockqd: QDesc(1), local: local(9100) });
    assert_eq!(answer(&mut dk, step, asked, Reply::Unit(Ok(()))), done(0));

    let step = demi_listen(&mut dk, 1, 128);
    let asked = net(NetworkCall::Listen { sockqd: QDesc(1), backlog: 128 });
    assert_eq!(answer(&mut dk, step, asked, Reply::Unit(Ok(()))), done(0));

    let step = demi_accept(&mut dk, 1);
    let asked = net(NetworkCall::Accept { sockqd: QDesc(1) });
    assert_eq!(
        answer(&mut dk, step, asked, Reply::QToken(Ok(QToken(1)))),
        Step::Return { ret: 0, out: Output::QToken(1) }
    );

    // The peer connects while the application waits.
    let accepted = demi_qresult_t {
        qr_opcode: demi_opcode_t::DEMI_OPC_ACCEPT,
        qr_qd: 1,
        qr_qt: 1,
        qr_value: demi_qr_value_t::Ares(demi_accept_result_t { qd: 2, addr: c_address(50_000) }),
    };
    let step = demi_wait(&mut dk, 1, None);
    let step = network_cycle_without_completion(&mut dk, step, 1);
    let step = network_cycle_without_completion(&mut dk, step, 1);
    let step = network_cycle_with_completion(&mut dk, step, 1, accepted);
    match step {
        Step::Return { ret, out: Output::QResult(qr) } => {
            assert_eq!(ret, 0);
            assert_eq!(qr.qr_opcode, demi_opcode_t::DEMI_OPC_ACCEPT);
            assert_eq!(
                qr.qr_value,
                demi_qr_value_t::Ares(demi_accept_result_t { qd: 2, addr: c_address(50_000) })
            );
        },
        other => panic!("not a queue result: {:?}", other),
    }
}

#[test]
fn memory_pipe() {
    // One instance, used by two threads in turn.
    let mut dk = initialized(LibOSName::Catmem);

    let step = demi_create_pipe(&mut dk, b"p");
    let asked = mem(MemoryCall::CreatePipe { name: "p".to_string() });
    assert_eq!(
        answer(&mut dk, step, asked, Reply::QDesc(Ok(QDesc(1)))),
        Step::Return { ret: 0, out: Output::QDesc(1) }
    );
    let step = demi_open_pipe(&mut dk, b"p");
    let asked = mem(MemoryCall::OpenPipe { name: "p".to_string() });
    assert_eq!(
        answer(&mut dk, step, asked, Reply::QDesc(Ok(QDesc(2)))),
        Step::Return { ret: 0, out: Output::QDesc(2) }
    );

    // A 64-byte array goes in at one end.
    let step = demi_sgaalloc(&mut dk, 64);
    let sent = array(0x9000, 64, SockAddr { sa_family: 0, sa_data: [0; 14] });
    let step = answer(&mut dk, step, mem(MemoryCall::Sgaalloc { size: 64 }), Reply::Sgarray(Ok(sent)));
    assert_eq!(step, Step::Return { ret: 0, out: Output::Sgarray(sent) });
    let step = demi_push(&mut dk, 1, Some(&sent));
    let step = answer(
        &mut dk,
        step,
        mem(MemoryCall::Push { qd: QDesc(1), sga: sent }),
        Reply::QToken(Ok(QToken(10))),
    );
    assert_eq!(step, Step::Return { ret: 0, out: Output::QToken(10) });

    // And comes out at the other.
    let step = demi_pop(&mut dk, 2);
    let step = answer(
        &mut dk,
        step,
        mem(MemoryCall::Pop { qd: QDesc(2) }),
        Reply::QToken(Ok(QToken(11))),
    );
    assert_eq!(step, Step::Return { ret: 0, out: Output::QToken(11) });

    let received = array(0xa000, 64, SockAddr { sa_family: 0, sa_data: [0; 14] });
    let popped = demi_qresult_t {
        qr_opcode: demi_opcode_t::DEMI_OPC_POP,
        qr_qd: 2,
        qr_qt: 11,
        qr_value: demi_qr_value_t::Sga(received),
    };
    let handle = SchedulerHandle { key: 11, completed: true };
    let step = demi_wait(&mut dk, 11, None);
    let step = answer(&mut dk, step, mem(MemoryCall::Poll), Reply::Polled);
    let step = answer(
        &mut dk,
        step,
        mem(MemoryCall::Schedule { qt: QToken(11) }),
        Reply::Handle(Ok(handle)),
    );
    let step = answer(
        &mut dk,
        step,
        mem(MemoryCall::PackResult { handle, qt: QToken(11) }),
        Reply::QResult(Ok(popped)),
    );
    assert_eq!(step, Step::Return { ret: 0, out: Output::QResult(popped) });
}

#[test]
fn wrong_family() {
    let mut dk = initialized(LibOSName::Catmem);
    assert_eq!(demi_socket(&mut dk, libc::AF_INET, libc::SOCK_STREAM, 0), done(libc::ENOTSUP));
    assert!(!dk.is_busy());
}

#[test]
fn reentry() {
    let mut dk = initialized(LibOSName::Catnap);
    let step = demi_wait(&mut dk, 7, None);
    let step = network_cycle_without_completion(&mut dk, step, 7);
    assert_eq!(step, net(NetworkCall::Poll));
    // A signal handler calls into the library while the wait is polling.
    assert_eq!(demi_close(&mut dk, 1), done(libc::EBUSY));
    assert_eq!(demi_wait(&mut dk, 7, None), done(libc::EBUSY));
    // The wait goes on undisturbed.
    let pushed = demi_qresult_t {
        qr_opcode: demi_opcode_t::DEMI_OPC_PUSH,
        qr_qd: 1,
        qr_qt: 7,
        qr_value: demi_qr_value_t::Empty,
    };
    let step = network_cycle_with_completion(&mut dk, step, 7, pushed);
    assert_eq!(step, Step::Return { ret: 0, out: Output::QResult(pushed) });
    // And the handler's call goes through once the wait has returned.
    assert_eq!(demi_close(&mut dk, 1), net(NetworkCall::Close { qd: QDesc(1) }));
}

#[test]
fn timeout_leaves_the_token_for_a_later_wait() {
    let mut dk = initialized(LibOSName::Catnap);
    let step = demi_accept(&mut dk, 1);
    let step = answer(
        &mut dk,
        step,
        net(NetworkCall::Accept { sockqd: QDesc(1) }),
        Reply::QToken(Ok(QToken(5))),
    );
    assert_eq!(step, Step::Return { ret: 0, out: Output::QToken(5) });

    // wait(QT, 10 ms) with no peer.
    let ten_ms = Timespec { tv_sec: 0, tv_nsec: 10_000_000 };
    let start = Instant { since_origin: Duration { nanos: 1_000_000_000 } };
    let later = Instant { since_origin: Duration { nanos: 1_011_000_000 } };
    let step = demi_wait(&mut dk, 5, Some(&ten_ms));
    let step = answer(&mut dk, step, Step::Perform(Request::Now), Reply::Instant(start));
    // The key goes back before the clock is read: the token stays with the
    // scheduler.
    let step = network_cycle_without_completion(&mut dk, step, 5);
    let step = answer(&mut dk, step, Step::Perform(Request::Now), Reply::Instant(later));
    assert_eq!(step, done(libc::ETIMEDOUT));
    assert!(!dk.is_busy());

    // wait(QT, forever): the peer connects.
    let accepted = demi_qresult_t {
        qr_opcode: demi_opcode_t::DEMI_OPC_ACCEPT,
        qr_qd: 1,
        qr_qt: 5,
        qr_value: demi_qr_value_t::Ares(demi_accept_result_t { qd: 2, addr: c_address(40_000) }),
    };
    let step = demi_wait(&mut dk, 5, None);
    let step = network_cycle_without_completion(&mut dk, step, 5);
    let step = network_cycle_with_completion(&mut dk, step, 5, accepted);
    assert_eq!(step, Step::Return { ret: 0, out: Output::QResult(accepted) });
}

#[test]
fn an_allocated_array_goes_back_to_the_backend_unchanged() {
    let mut dk = initialized(LibOSName::Catnap);
    let step = demi_sgaalloc(&mut dk, 128);
    let made = array(0x4000, 128, SockAddr { sa_family: 0, sa_data: [0; 14] });
    let step = answer(&mut dk, step, net(NetworkCall::Sgaalloc { size: 128 }), Reply::Sgarray(Ok(made)));
    let sga = match step {
        Step::Return { out: Output::Sgarray(sga), .. } => sga,
        other => panic!("not an array: {:?}", other),
    };
    let step = demi_sgafree(&mut dk, Some(&sga));
    let step = answer(&mut dk, step, net(NetworkCall::Sgafree { sga: made }), Reply::Unit(Ok(())));
    assert_eq!(step, done(0));
}
