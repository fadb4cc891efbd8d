//! Taps: how one is opened, call by call, and what can be done with it.

use vstd::prelude::*;
use vstd::utf8::*;
use crate::error::{TapError, TapErrorView};
use crate::ifreq;
use crate::ifreq::{
    build_terminated_if_name, queue_flags, read_if_name, IfReqBuilder, IfReqView,
    IFACE_NAME_MAX_LEN,
};
use crate::ioctl::{tungetiff, tunsetiff, tunsetoffload, tunsetvnethdrsz};
use crate::open_spec;
use crate::open_spec::{parse_tap_open_spec, TapOpenSpec, TapOpenSpecView};
use crate::syscall::{Reply, ReplyView, Syscall, SyscallView};

verus! {

/// The device that each new queue comes from.
pub const TUN_PATH: &'static str = "/dev/net/tun";

/// The lowest number that the copy of a descriptor may get: the first one above
/// those of the standard streams.
pub const MIN_DUP_FD: i32 = 3;

/// Who is named as the provider of a queue that was handed over already open.
pub const PREOPENED: &'static str = "pre-opened descriptor";

/// Handle for a network tap interface.
#[derive(Debug)]
pub struct Tap {
    /// The descriptor of the queue, which the tap owns.
    pub fd: i32,
    /// The name of the interface, null-terminated where it is shorter than the array.
    pub if_name: [u8; IFACE_NAME_MAX_LEN],
    /// Whether the queue arrived via an `fdp:` spec with its vnet header size already
    /// set, so that this step of its configuration can be skipped.
    pub vnet_hdr_size_preset: bool,
}

/// A [`Tap`] with its name as a sequence of bytes.
pub struct TapView {
    pub fd: i32,
    pub if_name: Seq<u8>,
    pub vnet_hdr_size_preset: bool,
}

impl View for Tap {
    type V = TapView;

    open spec fn view(&self) -> TapView {
        TapView {
            fd: self.fd,
            if_name: self.if_name@,
            vnet_hdr_size_preset: self.vnet_hdr_size_preset,
        }
    }
}

/// A tap that is being opened, while a system call is made for it. It is no more to be
/// copied than the descriptor that it may hold.
#[derive(Debug)]
pub enum Pending<'a> {
    /// The device is being opened, for the interface of that name.
    OpenTun { if_name: &'a str },
    /// The new queue `fd` is being attached to the interface of that name.
    Attach { fd: i32, if_name: &'a str },
    /// The kernel is being asked what the queue `fd` is. Where a name is required, it has
    /// to be attached to the interface of that name.
    Query { fd: i32, required: Option<&'a str> },
    /// An inherited descriptor is being copied, which should be attached to the interface
    /// of that name.
    DupInherited { expected: &'a str },
    /// The descriptor of a pre-configured queue is being copied.
    DupPreconfigured { if_name: &'a str },
}

/// A [`Pending`] with its names as sequences of characters.
pub enum PendingView {
    OpenTun { if_name: Seq<char> },
    Attach { fd: i32, if_name: Seq<char> },
    Query { fd: i32, required: Option<Seq<char>> },
    DupInherited { expected: Seq<char> },
    DupPreconfigured { if_name: Seq<char> },
}

impl<'a> View for Pending<'a> {
    type V = PendingView;

    open spec fn view(&self) -> PendingView {
        match *self {
            Pending::OpenTun { if_name } => PendingView::OpenTun { if_name: if_name@ },
            Pending::Attach { fd, if_name } => PendingView::Attach { fd, if_name: if_name@ },
            Pending::Query { fd, required } => PendingView::Query {
                fd,
                required: match required {
                    Some(name) => Some(name@),
                    None => None,
                },
            },
            Pending::DupInherited { expected } => PendingView::DupInherited {
                expected: expected@,
            },
            Pending::DupPreconfigured { if_name } => PendingView::DupPreconfigured {
                if_name: if_name@,
            },
        }
    }
}

/// How the opening of a tap goes on.
#[derive(Debug)]
pub enum Step<'a> {
    /// The call is to be made, and its reply handed to [`Pending::resume`].
    Call { call: Syscall, next: Pending<'a> },
    /// The tap is open.
    Opened(Tap),
    /// The tap cannot be opened. The descriptor in `close`, if there is one, has no owner
    /// any more and is to be closed.
    Failed { error: TapError, close: Option<i32> },
}

/// A [`Step`] with what it holds as it is viewed.
pub enum StepView {
    Call { call: SyscallView, next: PendingView },
    Opened(TapView),
    Failed { error: TapErrorView, close: Option<i32> },
}

impl<'a> View for Step<'a> {
    type V = StepView;

    open spec fn view(&self) -> StepView {
        match *self {
            Step::Call { call, next } => StepView::Call { call: call@, next: next@ },
            Step::Opened(tap) => StepView::Opened(tap@),
            Step::Failed { error, close } => StepView::Failed { error: error@, close },
        }
    }
}

impl StepView {
    /// Opening the interface of that name starts with a queue from the device.
    pub open spec fn open_named(if_name: Seq<char>) -> StepView {
        StepView::Call {
            call: SyscallView::Open {
                path: TUN_PATH@,
                read_write: true,
                nonblock: true,
                cloexec: true,
            },
            next: PendingView::OpenTun { if_name },
        }
    }

    /// A queue that is open already is asked what it is.
    pub open spec fn query(fd: i32, required: Option<Seq<char>>) -> StepView {
        StepView::Call {
            call: SyscallView::IoctlIfreq {
                fd,
                request: tungetiff(),
                ifreq: IfReqView { name: ifreq::no_name(), flags: 0 },
            },
            next: PendingView::Query { fd, required },
        }
    }

    /// A descriptor of the launcher process is copied before anything else.
    pub open spec fn dup(fd: i32, next: PendingView) -> StepView {
        StepView::Call { call: SyscallView::DupFdCloexec { fd, min_fd: MIN_DUP_FD }, next }
    }

    /// Opening what a tap open spec stands for starts as its shape says, and an invalid
    /// spec is refused before any call is made.
    pub open spec fn open_named_or_fd(spec: Seq<char>) -> StepView {
        match open_spec::tap_open_spec(spec) {
            Some(TapOpenSpecView::Name(name)) => StepView::open_named(name),
            Some(TapOpenSpecView::Fd { fd, if_name }) => StepView::dup(
                fd,
                PendingView::DupInherited { expected: if_name },
            ),
            Some(TapOpenSpecView::Fdp { fd, if_name }) => StepView::dup(
                fd,
                PendingView::DupPreconfigured { if_name },
            ),
            None => StepView::Failed { error: TapErrorView::InvalidFdSpec(spec), close: None },
        }
    }

    /// Whether no further call is to be made.
    pub open spec fn is_final(self) -> bool {
        !(self is Call)
    }

    /// Where the opening of a tap has come to after these replies.
    pub open spec fn run(self, replies: Seq<ReplyView>) -> StepView
        decreases replies.len(),
    {
        match self {
            StepView::Call { call, next } if replies.len() > 0 => next.resumed(replies[0]).run(
                replies.drop_first(),
            ),
            _ => self,
        }
    }

    /// The calls that the opening of a tap makes while these replies come back.
    pub open spec fn calls(self, replies: Seq<ReplyView>) -> Seq<SyscallView>
        decreases replies.len(),
    {
        match self {
            StepView::Call { call, next } => if replies.len() > 0 {
                seq![call] + next.resumed(replies[0]).calls(replies.drop_first())
            } else {
                seq![call]
            },
            _ => Seq::empty(),
        }
    }
}

/// Whether the flags of a queue hold all that each queue is opened with.
pub open spec fn compatible(flags: i16) -> bool {
    (flags as i32) & (queue_flags() as i32) == queue_flags() as i32
}

/// Whether the name that a queue is attached to is another than the one required, if one is.
pub open spec fn is_mismatch(name: Seq<u8>, required: Option<Seq<char>>) -> bool {
    required matches Some(expected) && ifreq::if_name_text(name) != expected
}

impl PendingView {
    /// How the opening of a tap goes on after a reply.
    pub open spec fn resumed(self, reply: ReplyView) -> StepView {
        match self {
            PendingView::OpenTun { if_name } => if reply.ret < 0 {
                StepView::Failed { error: TapErrorView::OpenTun(reply.error), close: None }
            } else if !ifreq::fits(if_name) {
                StepView::Failed { error: TapErrorView::InvalidIfname, close: Some(reply.ret) }
            } else {
                StepView::Call {
                    call: SyscallView::IoctlIfreq {
                        fd: reply.ret,
                        request: tunsetiff(),
                        ifreq: IfReqView {
                            name: ifreq::terminated(encode_utf8(if_name)),
                            flags: queue_flags(),
                        },
                    },
                    next: PendingView::Attach { fd: reply.ret, if_name },
                }
            },
            PendingView::Attach { fd, if_name } => if reply.ret < 0 {
                StepView::Failed {
                    error: TapErrorView::IfreqExecuteError(reply.error, if_name),
                    close: Some(fd),
                }
            } else {
                StepView::Opened(
                    TapView { fd, if_name: reply.ifreq.name, vnet_hdr_size_preset: false },
                )
            },
            PendingView::Query { fd, required } => if reply.ret < 0 {
                StepView::Failed {
                    error: TapErrorView::IfreqExecuteError(reply.error, PREOPENED@),
                    close: Some(fd),
                }
            } else if !compatible(reply.ifreq.flags) {
                StepView::Failed {
                    error: TapErrorView::IncompatiblePreopenedTapFlags(reply.ifreq.flags as i32),
                    close: Some(fd),
                }
            } else if is_mismatch(reply.ifreq.name, required) {
                StepView::Failed {
                    error: TapErrorView::InheritedTapNameMismatch {
                        expected: required->0,
                        actual: ifreq::if_name_text(reply.ifreq.name),
                    },
                    close: Some(fd),
                }
            } else {
                StepView::Opened(
                    TapView { fd, if_name: reply.ifreq.name, vnet_hdr_size_preset: false },
                )
            },
            PendingView::DupInherited { expected } => if reply.ret < 0 {
                StepView::Failed { error: TapErrorView::DupInheritedTap(reply.error), close: None }
            } else {
                StepView::query(reply.ret, Some(expected))
            },
            PendingView::DupPreconfigured { if_name } => if reply.ret < 0 {
                StepView::Failed { error: TapErrorView::DupInheritedTap(reply.error), close: None }
            } else if !ifreq::fits(if_name) {
                StepView::Failed { error: TapErrorView::InvalidIfname, close: Some(reply.ret) }
            } else {
                StepView::Opened(
                    TapView {
                        fd: reply.ret,
                        if_name: ifreq::terminated(encode_utf8(if_name)),
                        vnet_hdr_size_preset: true,
                    },
                )
            },
        }
    }
}

/// Asks the kernel what the queue `fd` is.
fn query<'a>(fd: i32, required: Option<&'a str>) -> (step: Step<'a>)
    ensures
        step@ == StepView::query(
            fd,
            match required {
                Some(name) => Some(name@),
                None => None,
            },
        ),
{
    Step::Call {
        call: IfReqBuilder::new().execute(fd, tungetiff()),
        next: Pending::Query { fd, required },
    }
}

impl<'a> Pending<'a> {
    /// Goes on after the reply to the call that was made.
    pub fn resume(self, reply: Reply) -> (step: Step<'a>)
        ensures
            step@ == self@.resumed(reply@),
    {
        match self {
            Pending::OpenTun { if_name } => {
                let fd: i32 = match reply.checked() {
                    Ok(fd) => fd,
                    Err(error) => {
                        return Step::Failed { error: TapError::OpenTun(error), close: None };
                    },
                };
                match build_terminated_if_name(if_name) {
                    Ok(terminated_if_name) => Step::Call {
                        call: IfReqBuilder::new().if_name(&terminated_if_name).flags(
                            queue_flags(),
                        ).execute(fd, tunsetiff()),
                        next: Pending::Attach { fd, if_name },
                    },
                    Err(error) => Step::Failed { error, close: Some(fd) },
                }
            },
            Pending::Attach { fd, if_name } => match reply.filled() {
                Ok(ifreq) => Step::Opened(
                    Tap { fd, if_name: ifreq.name, vnet_hdr_size_preset: false },
                ),
                Err(error) => Step::Failed {
                    error: TapError::IfreqExecuteError(error, if_name.to_owned()),
                    close: Some(fd),
                },
            },
            Pending::Query { fd, required } => {
                let ifreq = match reply.filled() {
                    Ok(ifreq) => ifreq,
                    Err(error) => {
                        return Step::Failed {
                            error: TapError::IfreqExecuteError(error, PREOPENED.to_owned()),
                            close: Some(fd),
                        };
                    },
                };
                let flags: i32 = ifreq.flags as i32;
                let needed: i32 = queue_flags() as i32;
                if flags & needed != needed {
                    return Step::Failed {
                        error: TapError::IncompatiblePreopenedTapFlags(flags),
                        close: Some(fd),
                    };
                }
                if let Some(expected) = required {
                    let actual = read_if_name(&ifreq.name).to_owned();
                    let expected = expected.to_owned();
                    if !(actual == expected) {
                        return Step::Failed {
                            error: TapError::InheritedTapNameMismatch { expected, actual },
                            close: Some(fd),
                        };
                    }
                }
                Step::Opened(Tap { fd, if_name: ifreq.name, vnet_hdr_size_preset: false })
            },
            Pending::DupInherited { expected } => match reply.checked() {
                Ok(dup) => query(dup, Some(expected)),
                Err(error) => Step::Failed {
                    error: TapError::DupInheritedTap(error),
                    close: None,
                },
            },
            Pending::DupPreconfigured { if_name } => {
                let dup: i32 = match reply.checked() {
                    Ok(dup) => dup,
                    Err(error) => {
                        return Step::Failed {
                            error: TapError::DupInheritedTap(error),
                            close: None,
                        };
                    },
                };
                match build_terminated_if_name(if_name) {
                    Ok(if_name) => Step::Opened(
                        Tap { fd: dup, if_name, vnet_hdr_size_preset: true },
                    ),
                    Err(error) => Step::Failed { error, close: Some(dup) },
                }
            },
        }
    }
}

impl Tap {
    /// Starts to create a TUN/TAP device given the interface name.
    pub fn open_named(if_name: &str) -> (step: Step<'_>)
        ensures
            step@ == StepView::open_named(if_name@),
    {
        Step::Call {
            call: Syscall::Open { path: TUN_PATH, read_write: true, nonblock: true, cloexec: true },
            next: Pending::OpenTun { if_name },
        }
    }

    /// Starts to wrap a pre-opened TAP queue descriptor inherited from the launcher
    /// process, which the tap takes over. The descriptor must be a TAP queue opened with
    /// the same flags [`Tap::open_named`] uses, which the reply to the call shows. No
    /// descriptor is `-1`.
    pub fn from_fd(fd: i32) -> (step: Step<'static>)
        requires
            fd != -1,
        ensures
            step@ == StepView::query(fd, None),
    {
        query(fd, None)
    }

    /// Starts to open the tap described by `host_dev_name`: a plain interface name, an
    /// `fd:<fd>:<if_name>` spec naming a queue descriptor inherited from the launcher
    /// process, or an `fdp:<fd>:<if_name>` spec naming a queue the launcher
    /// pre-configured (see [`Tap::from_preconfigured_fd`]).
    pub fn open_named_or_fd(spec: &str) -> (step: Step<'_>)
        ensures
            step@ == StepView::open_named_or_fd(spec@),
    {
        match parse_tap_open_spec(spec) {
            Ok(TapOpenSpec::Name(name)) => Tap::open_named(name),
            Ok(TapOpenSpec::Fd { fd, if_name }) => Tap::from_inherited_fd(fd, if_name),
            Ok(TapOpenSpec::Fdp { fd, if_name }) => Tap::from_preconfigured_fd(fd, if_name),
            Err(error) => Step::Failed { error, close: None },
        }
    }

    /// Starts to wrap a queue descriptor inherited from the launcher process. The fd is
    /// dup'd rather than taken over, so consumption is idempotent and the parked
    /// descriptor stays valid for the process lifetime. The queue kind and flags are
    /// validated as in [`Tap::from_fd`], and the attached interface name must match
    /// `expected_if_name`.
    pub fn from_inherited_fd(fd: i32, expected_if_name: &str) -> (step: Step<'_>)
        ensures
            step@ == StepView::dup(fd, PendingView::DupInherited { expected: expected_if_name@ }),
    {
        Step::Call {
            call: Syscall::DupFdCloexec { fd, min_fd: MIN_DUP_FD },
            next: Pending::DupInherited { expected: expected_if_name },
        }
    }

    /// Starts to wrap a pre-opened, pre-configured queue descriptor inherited from the
    /// launcher process. The launcher contract for the `fdp:` spec is that the queue was
    /// attached with the flags [`Tap::open_named`] uses and its vnet header size already
    /// set, so the kernel is not asked about either. The fd is dup'd rather than taken
    /// over, so consumption is idempotent and the parked descriptor stays valid for the
    /// process lifetime.
    pub fn from_preconfigured_fd(fd: i32, if_name: &str) -> (step: Step<'_>)
        ensures
            step@ == StepView::dup(fd, PendingView::DupPreconfigured { if_name: if_name@ }),
    {
        Step::Call {
            call: Syscall::DupFdCloexec { fd, min_fd: MIN_DUP_FD },
            next: Pending::DupPreconfigured { if_name },
        }
    }

    /// Retrieve the interface's name as a str.
    pub fn if_name_as_str(&self) -> (name: &str)
        ensures
            name@ == ifreq::if_name_text(self@.if_name),
    {
        read_if_name(&self.if_name)
    }

    /// The call that sets the offload flags for the tap interface.
    pub fn set_offload(&self, flags: u32) -> (call: Syscall)
        ensures
            call@ == (SyscallView::IoctlVal {
                fd: self@.fd,
                request: tunsetoffload(),
                arg: flags as u64,
            }),
    {
        Syscall::IoctlVal { fd: self.fd, request: tunsetoffload(), arg: flags as u64 }
    }

    /// What came of [`Tap::set_offload`].
    pub fn offload_outcome(reply: Reply) -> (res: Result<(), TapError>)
        ensures
            match res {
                Ok(()) => reply@.ret >= 0,
                Err(error) => {
                    &&& reply@.ret < 0
                    &&& error@ == TapErrorView::SetOffloadFlags(reply@.error)
                },
            },
    {
        match reply.checked() {
            Ok(_) => Ok(()),
            Err(error) => Err(TapError::SetOffloadFlags(error)),
        }
    }

    /// The call that sets the size of the vnet hdr.
    pub fn set_vnet_hdr_size(&self, size: i32) -> (call: Syscall)
        ensures
            call@ == (SyscallView::IoctlRef {
                fd: self@.fd,
                request: tunsetvnethdrsz(),
                value: size,
            }),
    {
        Syscall::IoctlRef { fd: self.fd, request: tunsetvnethdrsz(), value: size }
    }

    /// What came of [`Tap::set_vnet_hdr_size`].
    pub fn vnet_hdr_size_outcome(reply: Reply) -> (res: Result<(), TapError>)
        ensures
            match res {
                Ok(()) => reply@.ret >= 0,
                Err(error) => {
                    &&& reply@.ret < 0
                    &&& error@ == TapErrorView::SetSizeOfVnetHdr(reply@.error)
                },
            },
    {
        match reply.checked() {
            Ok(_) => Ok(()),
            Err(error) => Err(TapError::SetSizeOfVnetHdr(error)),
        }
    }

    /// The call that writes that many buffers to the tap. The kernel counts them in a C
    /// `int`.
    pub fn write_iovec(&self, iovec_count: usize) -> (call: Syscall)
        requires
            iovec_count <= i32::MAX,
        ensures
            call@ == (SyscallView::Writev { fd: self@.fd, iovcnt: iovec_count as i32 }),
    {
        Syscall::Writev { fd: self.fd, iovcnt: iovec_count as i32 }
    }

    /// The call that reads from the tap into that many buffers. The kernel counts them in
    /// a C `int`.
    pub fn read_iovec(&self, iovec_count: usize) -> (call: Syscall)
        requires
            iovec_count <= i32::MAX,
        ensures
            call@ == (SyscallView::Readv { fd: self@.fd, iovcnt: iovec_count as i32 }),
    {
        Syscall::Readv { fd: self.fd, iovcnt: iovec_count as i32 }
    }

    /// What came of [`Tap::write_iovec`] or [`Tap::read_iovec`]: the number of bytes
    /// that were moved, or the error where the call returned `-1`. It returns no other
    /// negative number.
    pub fn transfer_outcome(ret: isize, error: std::io::Error) -> (res: Result<
        usize,
        std::io::Error,
    >)
        requires
            ret >= -1,
        ensures
            match res {
                Ok(moved) => ret != -1 && moved == ret,
                Err(reported) => ret == -1 && reported == error,
            },
    {
        if ret == -1 {
            return Err(error);
        }
        Ok(ret as usize)
    }

    /// The descriptor of the queue.
    pub fn as_raw_fd(&self) -> (fd: i32)
        ensures
            fd == self@.fd,
    {
        self.fd
    }
}

} // verus!
