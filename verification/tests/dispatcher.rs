use demikernel::libos::{
    LibOS, LibOSName, MemoryCall, MemoryLibOS, NetworkCall, NetworkLibOS, Request, SchedulerHandle,
};
use demikernel::net::{Ipv4Addr, SockAddr, SocketAddrV4};
use demikernel::types::{demi_sgarray_t, demi_sgaseg_t, QDesc, QToken};

fn network() -> LibOS {
    LibOS::NetworkLibOS(NetworkLibOS::Catnap)
}

fn memory() -> LibOS {
    LibOS::MemoryLibOS(MemoryLibOS::Catmem)
}

fn some_sga() -> demi_sgarray_t {
    demi_sgarray_t {
        sga_buf: 0x1000,
        sga_numsegs: 1,
        sga_segs: [demi_sgaseg_t { sgaseg_buf: 0x1040, sgaseg_len: 64 }],
        sga_addr: SockAddr { sa_family: 0, sa_data: [0; 14] },
    }
}

fn some_endpoint() -> SocketAddrV4 {
    SocketAddrV4::new(Ipv4Addr::new(127, 0, 0, 1), 9000)
}

#[test]
fn backend_names_are_read_in_lower_case() {
    assert_eq!(LibOSName::from_name("catpowder"), Some(LibOSName::Catpowder));
    assert_eq!(LibOSName::from_name("catnap"), Some(LibOSName::Catnap));
    assert_eq!(LibOSName::from_name("catnapw"), Some(LibOSName::CatnapW));
    assert_eq!(LibOSName::from_name("catcollar"), Some(LibOSName::Catcollar));
    assert_eq!(LibOSName::from_name("catnip"), Some(LibOSName::Catnip));
    assert_eq!(LibOSName::from_name("catmem"), Some(LibOSName::Catmem));
    assert_eq!(LibOSName::from_name("Catnap"), None);
    assert_eq!(LibOSName::from_name("catna"), None);
    assert_eq!(LibOSName::from_name(""), None);
}

#[test]
fn new_selects_the_family_of_the_named_backend() {
    let path = Some("/etc/demikernel.yaml");
    assert_eq!(
        LibOS::new(LibOSName::Catpowder, path),
        Ok(LibOS::NetworkLibOS(NetworkLibOS::Catpowder))
    );
    assert_eq!(LibOS::new(LibOSName::Catnap, path), Ok(LibOS::NetworkLibOS(NetworkLibOS::Catnap)));
    assert_eq!(
        LibOS::new(LibOSName::CatnapW, path),
        Ok(LibOS::NetworkLibOS(NetworkLibOS::CatnapW))
    );
    assert_eq!(
        LibOS::new(LibOSName::Catcollar, path),
        Ok(LibOS::NetworkLibOS(NetworkLibOS::Catcollar))
    );
    assert_eq!(LibOS::new(LibOSName::Catnip, path), Ok(LibOS::NetworkLibOS(NetworkLibOS::Catnip)));
    assert_eq!(LibOS::new(LibOSName::Catmem, path), Ok(LibOS::MemoryLibOS(MemoryLibOS::Catmem)));
}

#[test]
fn new_without_a_configuration_path_fails() {
    let fail = LibOS::new(LibOSName::Catnap, None).unwrap_err();
    assert_eq!(fail.errno, libc::EINVAL);
    assert_eq!(fail.cause, "missing value for CONFIG_PATH environment variable");
}

#[test]
fn socket_vocabulary_goes_to_a_network_backend() {
    let libos = network();
    let (qd, sga, to) = (QDesc(3), some_sga(), some_endpoint());
    assert_eq!(
        libos.socket(2, 1, 0),
        Ok(Request::Network(NetworkCall::Socket { domain: 2, socket_type: 1, protocol: 0 }))
    );
    assert_eq!(
        libos.bind(qd, to),
        Ok(Request::Network(NetworkCall::Bind { sockqd: qd, local: to }))
    );
    assert_eq!(
        libos.listen(qd, 128),
        Ok(Request::Network(NetworkCall::Listen { sockqd: qd, backlog: 128 }))
    );
    assert_eq!(libos.accept(qd), Ok(Request::Network(NetworkCall::Accept { sockqd: qd })));
    assert_eq!(
        libos.connect(qd, to),
        Ok(Request::Network(NetworkCall::Connect { sockqd: qd, remote: to }))
    );
    assert_eq!(
        libos.pushto(qd, &sga, to),
        Ok(Request::Network(NetworkCall::Pushto { qd, sga, to }))
    );
}

#[test]
fn socket_vocabulary_is_not_supported_on_a_memory_backend() {
    let libos = memory();
    let (qd, sga, to) = (QDesc(3), some_sga(), some_endpoint());
    let refusals = [
        (libos.socket(2, 1, 0), "socket() is not supported on memory liboses"),
        (libos.bind(qd, to), "bind() is not supported on memory liboses"),
        (libos.listen(qd, 128), "listen() is not supported on memory liboses"),
        (libos.accept(qd), "accept() is not supported on memory liboses"),
        (libos.connect(qd, to), "connect() is not supported on memory liboses"),
        (libos.pushto(qd, &sga, to), "pushto() is not supported on memory liboses"),
    ];
    for (routed, cause) in refusals {
        let fail = routed.unwrap_err();
        assert_eq!(fail.errno, libc::ENOTSUP);
        assert_eq!(fail.cause, cause);
    }
}

#[test]
fn pipe_vocabulary_goes_to_a_memory_backend() {
    let libos = memory();
    assert_eq!(
        libos.create_pipe("p"),
        Ok(Request::Memory(MemoryCall::CreatePipe { name: "p".to_string() }))
    );
    assert_eq!(
        libos.open_pipe("queue-7"),
        Ok(Request::Memory(MemoryCall::OpenPipe { name: "queue-7".to_string() }))
    );
}

#[test]
fn pipe_vocabulary_is_not_supported_on_a_network_backend() {
    let libos = network();
    let fail = libos.create_pipe("p").unwrap_err();
    assert_eq!(fail.errno, libc::ENOTSUP);
    assert_eq!(fail.cause, "create_pipe() is not supported on network liboses");
    let fail = libos.open_pipe("p").unwrap_err();
    assert_eq!(fail.errno, libc::ENOTSUP);
    assert_eq!(fail.cause, "open_pipe() is not supported on network liboses");
}

#[test]
fn common_vocabulary_goes_to_the_active_backend() {
    let (qd, sga) = (QDesc(5), some_sga());
    let net = network();
    assert_eq!(net.close(qd), Request::Network(NetworkCall::Close { qd }));
    assert_eq!(net.push(qd, &sga), Request::Network(NetworkCall::Push { qd, sga }));
    assert_eq!(net.pop(qd), Request::Network(NetworkCall::Pop { qd }));
    assert_eq!(net.sgaalloc(64), Request::Network(NetworkCall::Sgaalloc { size: 64 }));
    assert_eq!(net.sgafree(sga), Request::Network(NetworkCall::Sgafree { sga }));
    let mem = memory();
    assert_eq!(mem.close(qd), Request::Memory(MemoryCall::Close { qd }));
    assert_eq!(mem.push(qd, &sga), Request::Memory(MemoryCall::Push { qd, sga }));
    assert_eq!(mem.pop(qd), Request::Memory(MemoryCall::Pop { qd }));
    assert_eq!(mem.sgaalloc(64), Request::Memory(MemoryCall::Sgaalloc { size: 64 }));
    assert_eq!(mem.sgafree(sga), Request::Memory(MemoryCall::Sgafree { sga }));
}

#[test]
fn scheduler_vocabulary_goes_to_the_active_backend() {
    let qt = QToken(11);
    let handle = SchedulerHandle { key: 11, completed: true };
    assert!(handle.has_completed());
    assert!(!SchedulerHandle { key: 11, completed: false }.has_completed());
    let net = network();
    assert_eq!(net.schedule(qt), Request::Network(NetworkCall::Schedule { qt }));
    assert_eq!(net.pack_result(handle, qt), Request::Network(NetworkCall::PackResult { handle, qt }));
    assert_eq!(net.poll(), Request::Network(NetworkCall::Poll));
    let mem = memory();
    assert_eq!(mem.schedule(qt), Request::Memory(MemoryCall::Schedule { qt }));
    assert_eq!(mem.pack_result(handle, qt), Request::Memory(MemoryCall::PackResult { handle, qt }));
    assert_eq!(mem.poll(), Request::Memory(MemoryCall::Poll));
}

#[test]
fn descriptors_and_tokens_keep_their_raw_value() {
    assert_eq!(i32::from(QDesc::from(-7)), -7);
    assert_eq!(QDesc::from(12), QDesc(12));
    assert_eq!(u64::from(QToken::from(u64::MAX)), u64::MAX);
    assert_eq!(QToken::from(3), QToken(3));
}
