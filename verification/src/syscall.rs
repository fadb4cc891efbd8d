//! System calls as values: what is to be called, and what came back.

use vstd::prelude::*;
use crate::ifreq::{IfReq, IfReqBuilder, IfReqView};

verus! {

/// A system call that is to be made, with its arguments.
#[derive(Debug, Clone, Copy)]
pub enum Syscall {
    /// `open`, with one of `O_RDWR`, `O_NONBLOCK` and `O_CLOEXEC` for each flag that
    /// is set.
    Open { path: &'static str, read_write: bool, nonblock: bool, cloexec: bool },
    /// `fcntl` with `F_DUPFD_CLOEXEC`.
    DupFdCloexec { fd: i32, min_fd: i32 },
    /// `ioctl` with a pointer to an interface request that the kernel may change.
    IoctlIfreq { fd: i32, request: u64, ifreq: IfReq },
    /// `ioctl` with a value.
    IoctlVal { fd: i32, request: u64, arg: u64 },
    /// `ioctl` with a pointer to a C `int`.
    IoctlRef { fd: i32, request: u64, value: i32 },
    /// `writev` of that many buffers.
    Writev { fd: i32, iovcnt: i32 },
    /// `readv` into that many buffers.
    Readv { fd: i32, iovcnt: i32 },
}

/// A [`Syscall`] with its texts and names as sequences.
pub enum SyscallView {
    Open { path: Seq<char>, read_write: bool, nonblock: bool, cloexec: bool },
    DupFdCloexec { fd: i32, min_fd: i32 },
    IoctlIfreq { fd: i32, request: u64, ifreq: IfReqView },
    IoctlVal { fd: i32, request: u64, arg: u64 },
    IoctlRef { fd: i32, request: u64, value: i32 },
    Writev { fd: i32, iovcnt: i32 },
    Readv { fd: i32, iovcnt: i32 },
}

impl View for Syscall {
    type V = SyscallView;

    open spec fn view(&self) -> SyscallView {
        match *self {
            Syscall::Open { path, read_write, nonblock, cloexec } => SyscallView::Open {
                path: path@,
                read_write,
                nonblock,
                cloexec,
            },
            Syscall::DupFdCloexec { fd, min_fd } => SyscallView::DupFdCloexec { fd, min_fd },
            Syscall::IoctlIfreq { fd, request, ifreq } => SyscallView::IoctlIfreq {
                fd,
                request,
                ifreq: ifreq@,
            },
            Syscall::IoctlVal { fd, request, arg } => SyscallView::IoctlVal { fd, request, arg },
            Syscall::IoctlRef { fd, request, value } => SyscallView::IoctlRef { fd, request, value },
            Syscall::Writev { fd, iovcnt } => SyscallView::Writev { fd, iovcnt },
            Syscall::Readv { fd, iovcnt } => SyscallView::Readv { fd, iovcnt },
        }
    }
}

/// What came back from a system call.
#[derive(Debug)]
pub struct Reply {
    /// What the call returned: a negative number where it failed.
    pub ret: i32,
    /// The interface request as the kernel left it, where the call has one.
    pub ifreq: IfReq,
    /// The error that the operating system reported last.
    pub error: std::io::Error,
}

/// A [`Reply`] with the name in its interface request as a sequence.
pub struct ReplyView {
    pub ret: i32,
    pub ifreq: IfReqView,
    pub error: std::io::Error,
}

impl View for Reply {
    type V = ReplyView;

    open spec fn view(&self) -> ReplyView {
        ReplyView { ret: self.ret, ifreq: self.ifreq@, error: self.error }
    }
}

impl Reply {
    /// The number that the call returned, or the error if it failed.
    pub fn checked(self) -> (res: Result<i32, std::io::Error>)
        ensures
            match res {
                Ok(ret) => self@.ret >= 0 && ret == self@.ret,
                Err(error) => self@.ret < 0 && error == self@.error,
            },
    {
        if self.ret < 0 {
            return Err(self.error);
        }
        Ok(self.ret)
    }

    /// The interface request as the kernel left it, or the error if the call failed.
    pub fn filled(self) -> (res: Result<IfReq, std::io::Error>)
        ensures
            match res {
                Ok(ifreq) => self@.ret >= 0 && ifreq@ == self@.ifreq,
                Err(error) => self@.ret < 0 && error == self@.error,
            },
    {
        if self.ret < 0 {
            return Err(self.error);
        }
        Ok(self.ifreq)
    }
}

impl IfReqBuilder {
    /// The `ioctl` that hands the request built so far to the kernel. What comes of it
    /// is for [`Reply::filled`] to say.
    pub fn execute(self, fd: i32, ioctl: u64) -> (call: Syscall)
        ensures
            call@ == (SyscallView::IoctlIfreq { fd, request: ioctl, ifreq: self@ }),
    {
        Syscall::IoctlIfreq { fd, request: ioctl, ifreq: self.build() }
    }
}

} // verus!
