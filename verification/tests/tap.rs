use std::collections::BTreeMap;
use std::io::Error;

use tap::ifreq::{build_terminated_if_name, queue_flags, read_if_name, IFACE_NAME_MAX_LEN};
use tap::ioctl::{tungetiff, tunsetiff, tunsetoffload, tunsetvnethdrsz};
use tap::{IfReq, IfReqBuilder, Pending, Reply, Step, Syscall, Tap, TapError};

const ENOENT: i32 = 2;
const EBADF: i32 = 9;
const EBUSY: i32 = 16;
const ENOTTY: i32 = 25;

const NO_IFREQ: IfReq = IfReq { name: [0; 16], flags: 0 };

/// A kernel with open descriptors, some of them attached to an interface.
struct Kernel {
    descriptors: BTreeMap<i32, Option<IfReq>>,
    calls: Vec<Syscall>,
    closed: Vec<i32>,
}

impl Kernel {
    fn new() -> Kernel {
        let mut descriptors = BTreeMap::new();
        for fd in 0..3 {
            descriptors.insert(fd, None);
        }
        Kernel { descriptors, calls: Vec::new(), closed: Vec::new() }
    }

    fn lowest_free(&self, min_fd: i32) -> i32 {
        (min_fd..).find(|fd| !self.descriptors.contains_key(fd)).unwrap()
    }

    fn open_other_file(&mut self) -> i32 {
        let fd = self.lowest_free(0);
        self.descriptors.insert(fd, None);
        fd
    }

    fn is_open(&self, fd: i32) -> bool {
        self.descriptors.contains_key(&fd)
    }

    fn attach(&mut self, fd: i32, asked: IfReq) -> Result<IfReq, i32> {
        let text = read_if_name(&asked.name).to_owned();
        let text = if text.is_empty() { "tap0".to_owned() } else { text.replace("%d", "7") };
        let given = IfReq { name: build_terminated_if_name(&text).unwrap(), flags: asked.flags };
        if self.descriptors.values().flatten().any(|other| other.name == given.name) {
            return Err(EBUSY);
        }
        match self.descriptors.get_mut(&fd) {
            Some(slot) => *slot = Some(given),
            None => return Err(EBADF),
        }
        Ok(given)
    }

    fn query(&self, fd: i32) -> Result<IfReq, i32> {
        match self.descriptors.get(&fd) {
            Some(Some(ifreq)) => Ok(*ifreq),
            Some(None) => Err(ENOTTY),
            None => Err(EBADF),
        }
    }

    fn make(&mut self, call: Syscall) -> Reply {
        self.calls.push(call);
        let outcome: Result<(i32, IfReq), i32> = match call {
            Syscall::Open { path, read_write, nonblock, cloexec } => {
                assert_eq!(path, "/dev/net/tun");
                assert!(read_write && nonblock && cloexec);
                Ok((self.open_other_file(), NO_IFREQ))
            }
            Syscall::DupFdCloexec { fd, min_fd } => {
                assert_eq!(min_fd, 3);
                match self.descriptors.get(&fd).copied() {
                    Some(slot) => {
                        let dup = self.lowest_free(min_fd);
                        self.descriptors.insert(dup, slot);
                        Ok((dup, NO_IFREQ))
                    }
                    None => Err(EBADF),
                }
            }
            Syscall::IoctlIfreq { fd, request, ifreq } if request == tunsetiff() => {
                self.attach(fd, ifreq).map(|given| (0, given))
            }
            Syscall::IoctlIfreq { fd, request, ifreq } if request == tungetiff() => {
                assert_eq!((ifreq.name, ifreq.flags), ([0; 16], 0));
                self.query(fd).map(|given| (0, given))
            }
            Syscall::IoctlVal { fd, .. } | Syscall::IoctlRef { fd, .. } => {
                self.query(fd).map(|_| (0, NO_IFREQ))
            }
            other => panic!("{other:?}"),
        };
        match outcome {
            Ok((ret, ifreq)) => Reply { ret, ifreq, error: Error::from_raw_os_error(0) },
            Err(code) => Reply {
                ret: -1,
                ifreq: NO_IFREQ,
                error: Error::from_raw_os_error(code),
            },
        }
    }

    fn open(&mut self, step: Step<'_>) -> Result<Tap, TapError> {
        let mut step = step;
        loop {
            match step {
                Step::Call { call, next } => step = next.resume(self.make(call)),
                Step::Opened(tap) => return Ok(tap),
                Step::Failed { error, close } => {
                    if let Some(fd) = close {
                        assert!(self.descriptors.remove(&fd).is_some());
                        self.closed.push(fd);
                    }
                    return Err(error);
                }
            }
        }
    }
}

#[test]
fn test_tap_name() {
    // Sanity check that the assumed max iface name length is correct.
    assert_eq!(IFACE_NAME_MAX_LEN, libc::IFNAMSIZ);

    // Empty name - The tap should be named "tap0" by default
    let mut kernel = Kernel::new();
    let tap = kernel.open(Tap::open_named("")).unwrap();
    assert_eq!(b"tap0\0\0\0\0\0\0\0\0\0\0\0\0", &tap.if_name);
    assert_eq!("tap0", tap.if_name_as_str());

    // Test using '%d' to have the kernel assign an unused name,
    // and that we correctly copy back that generated name
    let tap = kernel.open(Tap::open_named("tap%d")).unwrap();
    assert_ne!(b"tap%d", &tap.if_name[..5]);

    // 16 characters - too long.
    let name = "a123456789abcdef";
    match kernel.open(Tap::open_named(name)) {
        Err(TapError::InvalidIfname) => (),
        _ => panic!("Expected Error::InvalidIfname"),
    };
    assert_eq!(kernel.closed.len(), 1);

    // 15 characters - OK.
    let name = "a123456789abcde";
    let tap = kernel.open(Tap::open_named(name)).unwrap();
    assert_eq!(&format!("{}\0", name).as_bytes(), &tap.if_name);
    assert_eq!(name, tap.if_name_as_str());
}

#[test]
fn test_tap_exclusive_open() {
    let mut kernel = Kernel::new();
    let _tap1 = kernel.open(Tap::open_named("exclusivetap")).unwrap();
    // Opening same tap device a second time should not be permitted.
    match kernel.open(Tap::open_named("exclusivetap")).unwrap_err() {
        TapError::IfreqExecuteError(error, provider) => {
            assert_eq!(error.raw_os_error(), Some(EBUSY));
            assert_eq!(provider, "exclusivetap");
        }
        other => panic!("{other:?}"),
    }
}

#[test]
fn test_set_options() {
    let mut kernel = Kernel::new();
    let tap = kernel.open(Tap::open_named("")).unwrap();
    let call = tap.set_vnet_hdr_size(16);
    assert!(matches!(
        call,
        Syscall::IoctlRef { fd: 3, request: 0x4004_54d8, value: 16 }
    ));
    Tap::vnet_hdr_size_outcome(kernel.make(call)).unwrap();
    let call = tap.set_offload(0);
    assert!(matches!(
        call,
        Syscall::IoctlVal { fd: 3, request: 0x4004_54d0, arg: 0 }
    ));
    Tap::offload_outcome(kernel.make(call)).unwrap();
}

#[test]
fn test_raw_fd() {
    let mut kernel = Kernel::new();
    let tap = kernel.open(Tap::open_named("")).unwrap();
    assert_eq!(tap.as_raw_fd(), tap.fd);
    assert_eq!(tap.as_raw_fd(), 3);
}

#[test]
fn test_from_fd_wraps_open_named_queue() {
    let mut kernel = Kernel::new();
    let tap = kernel.open(Tap::open_named("preopenedtap")).unwrap();
    let dup_fd = kernel.make(Syscall::DupFdCloexec { fd: tap.as_raw_fd(), min_fd: 3 }).ret;
    assert!(dup_fd >= 0);

    let restored_tap = kernel.open(Tap::from_fd(dup_fd)).unwrap();
    assert_eq!(tap.if_name_as_str(), "preopenedtap");
    assert_eq!(restored_tap.if_name_as_str(), "preopenedtap");
    assert_eq!(restored_tap.as_raw_fd(), dup_fd);
}

#[test]
fn test_from_fd_rejects_non_tap_descriptor() {
    let mut kernel = Kernel::new();
    let fd = kernel.open_other_file();
    match kernel.open(Tap::from_fd(fd)) {
        Err(TapError::IfreqExecuteError(error, provider)) => {
            assert_eq!(error.raw_os_error(), Some(ENOTTY));
            assert_eq!(provider, "pre-opened descriptor");
        }
        other => panic!("{other:?}"),
    }
    assert!(!kernel.is_open(fd));
}

#[test]
fn test_from_inherited_fd_dups_and_validates() {
    let mut kernel = Kernel::new();
    let tap = kernel.open(Tap::open_named("inheritedtap")).unwrap();
    // The inherited descriptor stays open; from_inherited_fd works off a dup.
    let inherited = kernel
        .open(Tap::from_inherited_fd(tap.as_raw_fd(), "inheritedtap"))
        .unwrap();
    assert_eq!(inherited.if_name_as_str(), "inheritedtap");
    assert_ne!(inherited.as_raw_fd(), tap.as_raw_fd());
    assert!(!inherited.vnet_hdr_size_preset);
    assert!(kernel.is_open(tap.as_raw_fd()));

    // A queue parked on a different interface than the spec claims is a hard error.
    match kernel.open(Tap::from_inherited_fd(tap.as_raw_fd(), "othertap")) {
        Err(TapError::InheritedTapNameMismatch { expected, actual }) => {
            assert_eq!((expected.as_str(), actual.as_str()), ("othertap", "inheritedtap"));
        }
        other => panic!("{other:?}"),
    }
    assert_eq!(kernel.closed, [5]);

    // A descriptor that is not a TAP queue fails the TUNGETIFF check.
    let file = kernel.open_other_file();
    assert!(matches!(
        kernel.open(Tap::from_inherited_fd(file, "inheritedtap")),
        Err(TapError::IfreqExecuteError(_, _))
    ));
    assert!(kernel.is_open(file));

    // A closed descriptor cannot be dup'd.
    match kernel.open(Tap::from_inherited_fd(-1, "inheritedtap")) {
        Err(TapError::DupInheritedTap(error)) => assert_eq!(error.raw_os_error(), Some(EBADF)),
        other => panic!("{other:?}"),
    }
}

#[test]
fn test_from_preconfigured_fd_trusts_spec() {
    let mut kernel = Kernel::new();
    let tap = kernel.open(Tap::open_named("preconftap")).unwrap();
    // The preconfigured path skips TUNGETIFF entirely; the wrapped queue
    // carries the spec name and is marked as having its vnet header size
    // preset.
    let made = kernel.calls.len();
    let preconf = kernel
        .open(Tap::from_preconfigured_fd(tap.as_raw_fd(), "preconftap"))
        .unwrap();
    assert_eq!(kernel.calls.len(), made + 1);
    assert_eq!(preconf.if_name_as_str(), "preconftap");
    assert!(preconf.vnet_hdr_size_preset);
    assert_ne!(preconf.as_raw_fd(), tap.as_raw_fd());
    assert!(kernel.is_open(tap.as_raw_fd()));

    // A closed descriptor cannot be dup'd.
    assert!(matches!(
        kernel.open(Tap::from_preconfigured_fd(-1, "preconftap")),
        Err(TapError::DupInheritedTap(_))
    ));

    // An invalid name is still rejected.
    assert!(matches!(
        kernel.open(Tap::from_preconfigured_fd(tap.as_raw_fd(), "a123456789abcdef")),
        Err(TapError::InvalidIfname)
    ));
    assert_eq!(kernel.closed, [5]);
}

#[test]
fn test_open_named_or_fd_marks_only_fdp_as_preset() {
    let mut kernel = Kernel::new();
    let tap = kernel.open(Tap::open_named("fdpspectap")).unwrap();
    let fdp_spec = format!("fdp:{}:fdpspectap", tap.as_raw_fd());
    let opened = kernel.open(Tap::open_named_or_fd(&fdp_spec)).unwrap();
    assert!(opened.vnet_hdr_size_preset);
    assert_eq!(opened.if_name_as_str(), "fdpspectap");

    let fd_spec = format!("fd:{}:fdpspectap", tap.as_raw_fd());
    let opened = kernel.open(Tap::open_named_or_fd(&fd_spec)).unwrap();
    assert!(!opened.vnet_hdr_size_preset);
    assert_eq!(opened.if_name_as_str(), "fdpspectap");

    let opened = kernel.open(Tap::open_named_or_fd("plaintap")).unwrap();
    assert!(!opened.vnet_hdr_size_preset);
    assert_eq!(opened.if_name_as_str(), "plaintap");
}

#[test]
fn an_invalid_spec_makes_no_call() {
    let mut kernel = Kernel::new();
    match kernel.open(Tap::open_named_or_fd("fd:2:tap0")) {
        Err(TapError::InvalidFdSpec(spec)) => assert_eq!(spec, "fd:2:tap0"),
        other => panic!("{other:?}"),
    }
    assert!(kernel.calls.is_empty());
}

#[test]
fn a_parked_descriptor_can_be_consumed_again() {
    let mut kernel = Kernel::new();
    let tap = kernel.open(Tap::open_named("parked")).unwrap();
    let spec = format!("fd:{}:parked", tap.as_raw_fd());
    let first = kernel.open(Tap::open_named_or_fd(&spec)).unwrap();
    let second = kernel.open(Tap::open_named_or_fd(&spec)).unwrap();
    assert_eq!((tap.as_raw_fd(), first.as_raw_fd(), second.as_raw_fd()), (3, 4, 5));
    assert_eq!(first.if_name, second.if_name);
    assert!(kernel.closed.is_empty());

    // Refused twice, for the same reason, with each copy closed again.
    for closed in [vec![6], vec![6, 6]] {
        assert!(matches!(
            kernel.open(Tap::from_inherited_fd(3, "other")),
            Err(TapError::InheritedTapNameMismatch { .. })
        ));
        assert_eq!(kernel.closed, closed);
        assert!(kernel.is_open(3));
    }

    let third = kernel.open(Tap::from_preconfigured_fd(3, "parked")).unwrap();
    let fourth = kernel.open(Tap::from_preconfigured_fd(3, "parked")).unwrap();
    assert_eq!((third.as_raw_fd(), fourth.as_raw_fd()), (6, 7));
    assert_eq!(third.if_name, fourth.if_name);
    assert!(third.vnet_hdr_size_preset && fourth.vnet_hdr_size_preset);
    assert!(kernel.is_open(3));
}

#[test]
fn the_device_fails_before_the_name_is_looked_at() {
    let step = Tap::open_named("a123456789abcdef");
    let next = match step {
        Step::Call { next, .. } => next,
        other => panic!("{other:?}"),
    };
    assert!(matches!(next, Pending::OpenTun { if_name: "a123456789abcdef" }));
    let reply = Reply { ret: -1, ifreq: NO_IFREQ, error: Error::from_raw_os_error(ENOENT) };
    match next.resume(reply) {
        Step::Failed { error: TapError::OpenTun(error), close: None } => {
            assert_eq!(error.raw_os_error(), Some(ENOENT));
        }
        other => panic!("{other:?}"),
    }
}

#[test]
fn a_queue_without_the_needed_flags_is_refused() {
    for (flags, ok) in [
        (0x5002, true),
        (0x5902, true),
        (-0x2ffe, true),
        (0x5001, false),
        (0x1002, false),
        (0x4002, false),
        (0, false),
    ] {
        let next = Pending::Query { fd: 8, required: None };
        let ifreq = IfReq { name: *b"q\0\0\0\0\0\0\0\0\0\0\0\0\0\0\0", flags };
        let reply = Reply { ret: 0, ifreq, error: Error::from_raw_os_error(0) };
        match next.resume(reply) {
            Step::Opened(tap) => {
                assert!(ok);
                assert_eq!((tap.as_raw_fd(), tap.if_name_as_str()), (8, "q"));
            }
            Step::Failed {
                error: TapError::IncompatiblePreopenedTapFlags(reported),
                close: Some(8),
            } => {
                assert!(!ok);
                assert_eq!(reported, i32::from(flags));
            }
            other => panic!("{other:?}"),
        }
    }
    assert_eq!(queue_flags(), 0x5002);
}

#[test]
fn the_attach_request_holds_the_name_and_the_flags() {
    let next = Pending::OpenTun { if_name: "\u{e9}th" };
    let reply = Reply { ret: 11, ifreq: NO_IFREQ, error: Error::from_raw_os_error(0) };
    match next.resume(reply) {
        Step::Call { call: Syscall::IoctlIfreq { fd, request, ifreq }, .. } => {
            assert_eq!((fd, request, ifreq.flags), (11, 0x4004_54ca, 0x5002));
            assert_eq!(&ifreq.name, b"\xc3\xa9th\0\0\0\0\0\0\0\0\0\0\0\0");
        }
        other => panic!("{other:?}"),
    }
}

#[test]
fn names_are_read_up_to_the_first_null() {
    let name = build_terminated_if_name("ta\0p").unwrap();
    assert_eq!(&name, b"ta\0p\0\0\0\0\0\0\0\0\0\0\0\0");
    assert_eq!(read_if_name(&name), "ta");
    assert_eq!(read_if_name(b"0123456789abcdef"), "0123456789abcdef");
    assert_eq!(read_if_name(b"\xff\0\0\0\0\0\0\0\0\0\0\0\0\0\0\0"), "");
    assert_eq!(read_if_name(&[0; 16]), "");
    for name in ["", "x", "tap0", "\u{20ac}\u{20ac}\u{20ac}\u{20ac}\u{20ac}"] {
        assert_eq!(read_if_name(&build_terminated_if_name(name).unwrap()), name);
    }
    // Five characters of three bytes fit, and four of four bytes do not.
    assert!(matches!(
        build_terminated_if_name("\u{10ffff}\u{10ffff}\u{10ffff}\u{10ffff}"),
        Err(TapError::InvalidIfname)
    ));
}

#[test]
fn a_builder_changes_one_part_at_a_time() {
    let name = *b"tap9\0\0\0\0\0\0\0\0\0\0\0\0";
    let ifreq = IfReqBuilder::new().flags(-5).if_name(&name).build();
    assert_eq!((ifreq.name, ifreq.flags), (name, -5));
    let ifreq = IfReqBuilder::new().if_name(&name).flags(6).flags(7).build();
    assert_eq!((ifreq.name, ifreq.flags), (name, 7));
    match IfReqBuilder::new().flags(3).execute(21, 22) {
        Syscall::IoctlIfreq { fd: 21, request: 22, ifreq } => {
            assert_eq!((ifreq.name, ifreq.flags), ([0; 16], 3));
        }
        other => panic!("{other:?}"),
    }
}

#[test]
fn a_builder_is_printed_without_its_request() {
    let name = *b"tap9\0\0\0\0\0\0\0\0\0\0\0\0";
    for builder in [IfReqBuilder::new(), IfReqBuilder::new().if_name(&name).flags(7)] {
        assert_eq!(format!("{:?}", builder), "IfReqBuilder { .. }");
        assert_eq!(format!("{:#?}", builder), "IfReqBuilder { .. }");
        assert_eq!(format!("{:>40?}", builder), "IfReqBuilder { .. }");
        assert_eq!(builder.debug_text(), "IfReqBuilder { .. }");
    }
}

#[test]
fn request_numbers_are_those_of_the_driver() {
    assert_eq!(tunsetiff(), 0x4004_54ca);
    assert_eq!(tunsetoffload(), 0x4004_54d0);
    assert_eq!(tunsetvnethdrsz(), 0x4004_54d8);
    assert_eq!(tungetiff(), 0x8004_54d2);
}

#[test]
fn refused_options_are_reported() {
    let refused = || Reply {
        ret: -1,
        ifreq: NO_IFREQ,
        error: Error::from_raw_os_error(ENOTTY),
    };
    match Tap::offload_outcome(refused()) {
        Err(TapError::SetOffloadFlags(error)) => assert_eq!(error.raw_os_error(), Some(ENOTTY)),
        other => panic!("{other:?}"),
    }
    match Tap::vnet_hdr_size_outcome(refused()) {
        Err(TapError::SetSizeOfVnetHdr(error)) => assert_eq!(error.raw_os_error(), Some(ENOTTY)),
        other => panic!("{other:?}"),
    }
    assert_eq!(refused().checked().unwrap_err().raw_os_error(), Some(ENOTTY));
    assert_eq!(refused().filled().unwrap_err().raw_os_error(), Some(ENOTTY));
}

#[test]
fn transfers_count_their_bytes() {
    let mut kernel = Kernel::new();
    let tap = kernel.open(Tap::open_named("")).unwrap();
    assert!(matches!(tap.write_iovec(3), Syscall::Writev { fd: 3, iovcnt: 3 }));
    assert!(matches!(tap.read_iovec(2), Syscall::Readv { fd: 3, iovcnt: 2 }));
    let error = || Error::from_raw_os_error(EBADF);
    assert_eq!(Tap::transfer_outcome(1536, error()).unwrap(), 1536);
    assert_eq!(Tap::transfer_outcome(0, error()).unwrap(), 0);
    assert_eq!(Tap::transfer_outcome(-1, error()).unwrap_err().raw_os_error(), Some(EBADF));
}
