//! What holds of every way in which the opening of a tap can go.

use vstd::prelude::*;
use vstd::utf8::*;
use crate::error::TapErrorView;
use crate::ifreq;
use crate::ifreq::{queue_flags, IfReqView, IFF_NO_PI, IFF_TAP, IFF_VNET_HDR};
use crate::ioctl::{tungetiff, tunsetiff};
use crate::open_spec;
use crate::open_spec::TapOpenSpecView;
use crate::syscall::{ReplyView, SyscallView};
use crate::tap;
use crate::tap::{PendingView, StepView, TapView, MIN_DUP_FD, PREOPENED, TUN_PATH};
use crate::text;

verus! {

/// After two replies at most, the opening of a tap is over.
pub proof fn law_opening_ends(spec: Seq<char>, replies: Seq<ReplyView>)
    requires
        replies.len() >= 2,
    ensures
        StepView::open_named_or_fd(spec).run(replies).is_final(),
{
    reveal_with_fuel(StepView::run, 3);
}

/// Once the opening of a tap is over, further replies change nothing.
pub proof fn law_final_step_stays(step: StepView, replies: Seq<ReplyView>)
    requires
        step.is_final(),
    ensures
        step.run(replies) == step,
        step.calls(replies) == Seq::<SyscallView>::empty(),
{
}

/// What opening the interface of that name comes to. Where the device cannot be opened,
/// that is the error, however long the name is; a name that does not fit is refused next,
/// and the kernel has the last word. The tap has the name that the kernel gave it.
pub proof fn law_open_named_outcome(if_name: Seq<char>, opened: ReplyView, attached: ReplyView)
    ensures
        StepView::open_named(if_name).run(seq![opened, attached]) == (if opened.ret < 0 {
            StepView::Failed { error: TapErrorView::OpenTun(opened.error), close: None }
        } else if !ifreq::fits(if_name) {
            StepView::Failed { error: TapErrorView::InvalidIfname, close: Some(opened.ret) }
        } else if attached.ret < 0 {
            StepView::Failed {
                error: TapErrorView::IfreqExecuteError(attached.error, if_name),
                close: Some(opened.ret),
            }
        } else {
            StepView::Opened(
                TapView {
                    fd: opened.ret,
                    if_name: attached.ifreq.name,
                    vnet_hdr_size_preset: false,
                },
            )
        }),
{
    reveal_with_fuel(StepView::run, 3);
    assert(seq![opened, attached].drop_first() =~= seq![attached]);
}

/// What wrapping a descriptor that is handed over comes to. It is closed unless it becomes
/// the tap's.
pub proof fn law_from_fd_outcome(fd: i32, queried: ReplyView)
    ensures
        StepView::query(fd, None).run(seq![queried]) == (if queried.ret < 0 {
            StepView::Failed {
                error: TapErrorView::IfreqExecuteError(queried.error, PREOPENED@),
                close: Some(fd),
            }
        } else if !tap::compatible(queried.ifreq.flags) {
            StepView::Failed {
                error: TapErrorView::IncompatiblePreopenedTapFlags(queried.ifreq.flags as i32),
                close: Some(fd),
            }
        } else {
            StepView::Opened(
                TapView { fd, if_name: queried.ifreq.name, vnet_hdr_size_preset: false },
            )
        }),
{
    reveal_with_fuel(StepView::run, 2);
}

/// What wrapping an inherited descriptor comes to: what wrapping its copy comes to, but that
/// a tap on another interface than the expected one is closed and refused.
pub proof fn law_from_inherited_fd_outcome(
    fd: i32,
    expected: Seq<char>,
    copied: ReplyView,
    queried: ReplyView,
)
    ensures
        StepView::dup(fd, PendingView::DupInherited { expected }).run(seq![copied, queried]) == (
        if copied.ret < 0 {
            StepView::Failed { error: TapErrorView::DupInheritedTap(copied.error), close: None }
        } else {
            let wrapped = StepView::query(copied.ret, None).run(seq![queried]);
            match wrapped {
                StepView::Opened(tap) if ifreq::if_name_text(tap.if_name) != expected =>
                    StepView::Failed {
                        error: TapErrorView::InheritedTapNameMismatch {
                            expected,
                            actual: ifreq::if_name_text(tap.if_name),
                        },
                        close: Some(tap.fd),
                    },
                _ => wrapped,
            }
        }),
{
    reveal_with_fuel(StepView::run, 3);
    assert(seq![copied, queried].drop_first() =~= seq![queried]);
}

/// What wrapping a pre-configured descriptor comes to. Nothing but the copying of the
/// descriptor and the length of the name decides.
pub proof fn law_from_preconfigured_fd_outcome(fd: i32, if_name: Seq<char>, copied: ReplyView)
    ensures
        StepView::dup(fd, PendingView::DupPreconfigured { if_name }).run(seq![copied]) == (
        if copied.ret < 0 {
            StepView::Failed { error: TapErrorView::DupInheritedTap(copied.error), close: None }
        } else if !ifreq::fits(if_name) {
            StepView::Failed { error: TapErrorView::InvalidIfname, close: Some(copied.ret) }
        } else {
            StepView::Opened(
                TapView {
                    fd: copied.ret,
                    if_name: ifreq::terminated(encode_utf8(if_name)),
                    vnet_hdr_size_preset: true,
                },
            )
        }),
{
    reveal_with_fuel(StepView::run, 2);
}

/// An invalid spec is refused without a single call, and no other spec is.
pub proof fn law_invalid_spec_makes_no_call(spec: Seq<char>, replies: Seq<ReplyView>)
    ensures
        open_spec::tap_open_spec(spec) is None <==> StepView::open_named_or_fd(spec).calls(
            replies,
        ).len() == 0,
        open_spec::tap_open_spec(spec) is None ==> StepView::open_named_or_fd(spec).run(replies)
            == (StepView::Failed { error: TapErrorView::InvalidFdSpec(spec), close: None }),
{
}

/// Of the taps that a spec opens, exactly those of an `fdp:` spec have their vnet header size
/// preset.
pub proof fn law_only_fdp_is_preset(spec: Seq<char>, replies: Seq<ReplyView>)
    ensures
        StepView::open_named_or_fd(spec).run(replies) matches StepView::Opened(tap) ==> (
        tap.vnet_hdr_size_preset <==> open_spec::tap_open_spec(spec) is Some
            && open_spec::tap_open_spec(spec)->0 is Fdp),
{
    reveal_with_fuel(StepView::run, 3);
}

/// Whether the first call of an opening is the one that gets a descriptor: all openings but that
/// of a descriptor that is handed over.
pub open spec fn gets_descriptor(start: StepView) -> bool {
    start matches StepView::Call { call, next } && (next is OpenTun || next is DupInherited
        || next is DupPreconfigured)
}

/// Opening by name, inheriting, wrapping a pre-configured queue and opening by a valid spec all
/// start with the call that gets a descriptor.
pub proof fn law_openings_get_a_descriptor(fd: i32, if_name: Seq<char>, spec: Seq<char>)
    ensures
        gets_descriptor(StepView::open_named(if_name)),
        gets_descriptor(StepView::dup(fd, PendingView::DupInherited { expected: if_name })),
        gets_descriptor(StepView::dup(fd, PendingView::DupPreconfigured { if_name })),
        open_spec::tap_open_spec(spec) is Some <==> gets_descriptor(
            StepView::open_named_or_fd(spec),
        ),
{
}

/// The descriptor that the first call returns is never lost: when the opening of a tap is
/// over, it is either the tap's or to be closed. No other descriptor ever is.
pub proof fn law_descriptor_is_accounted_for(start: StepView, replies: Seq<ReplyView>)
    requires
        gets_descriptor(start),
        start.run(replies).is_final(),
    ensures
        replies.len() > 0,
        match start.run(replies) {
            StepView::Opened(tap) => replies[0].ret >= 0 && tap.fd == replies[0].ret,
            StepView::Failed { error, close: Some(fd) } => replies[0].ret >= 0 && fd
                == replies[0].ret,
            _ => replies[0].ret < 0,
        },
{
    reveal_with_fuel(StepView::run, 3);
}

/// The calls that are made for an `fd:` spec: the parked descriptor is copied, and it is the
/// copy that the kernel is asked about.
pub proof fn law_inherited_calls(spec: Seq<char>, fd: i32, if_name: Seq<char>, replies: Seq<ReplyView>)
    requires
        open_spec::tap_open_spec(spec) == Some(TapOpenSpecView::Fd { fd, if_name }),
    ensures
        StepView::open_named_or_fd(spec).calls(replies) == (if replies.len() == 0 || replies[0].ret
            < 0 {
            seq![SyscallView::DupFdCloexec { fd, min_fd: MIN_DUP_FD }]
        } else {
            seq![
                SyscallView::DupFdCloexec { fd, min_fd: MIN_DUP_FD },
                SyscallView::IoctlIfreq {
                    fd: replies[0].ret,
                    request: tungetiff(),
                    ifreq: IfReqView { name: ifreq::no_name(), flags: 0 },
                },
            ]
        }),
{
    reveal_with_fuel(StepView::calls, 3);
}

/// The one call that is made for an `fdp:` spec is the copying of the parked descriptor: the
/// kernel is asked for nothing and told nothing.
pub proof fn law_preconfigured_calls(
    spec: Seq<char>,
    fd: i32,
    if_name: Seq<char>,
    replies: Seq<ReplyView>,
)
    requires
        open_spec::tap_open_spec(spec) == Some(TapOpenSpecView::Fdp { fd, if_name }),
    ensures
        StepView::open_named_or_fd(spec).calls(replies) == seq![
            SyscallView::DupFdCloexec { fd, min_fd: MIN_DUP_FD },
        ],
{
    reveal_with_fuel(StepView::calls, 3);
}

/// The calls that are made for a plain name: the device is opened, and where that succeeds
/// and the name fits, the new queue is attached to the interface of that name with the flags
/// that each queue has.
pub proof fn law_named_calls(if_name: Seq<char>, replies: Seq<ReplyView>)
    ensures
        StepView::open_named(if_name).calls(replies) == ({
            let open = SyscallView::Open {
                path: TUN_PATH@,
                read_write: true,
                nonblock: true,
                cloexec: true,
            };
            if replies.len() == 0 || replies[0].ret < 0 || !ifreq::fits(if_name) {
                seq![open]
            } else {
                seq![
                    open,
                    SyscallView::IoctlIfreq {
                        fd: replies[0].ret,
                        request: tunsetiff(),
                        ifreq: IfReqView {
                            name: ifreq::terminated(encode_utf8(if_name)),
                            flags: queue_flags(),
                        },
                    },
                ]
            }
        }),
{
    reveal_with_fuel(StepView::calls, 3);
}

/// The parked descriptor stays valid, however an opening that copies it goes: it is never to be
/// closed and never becomes a tap's. A copy of it has another number than it has.
pub proof fn law_parked_descriptor_stays(
    fd: i32,
    if_name: Seq<char>,
    next: PendingView,
    replies: Seq<ReplyView>,
)
    requires
        next == (PendingView::DupInherited { expected: if_name }) || next == (
        PendingView::DupPreconfigured { if_name }),
        replies.len() > 0 ==> replies[0].ret != fd,
    ensures
        match StepView::dup(fd, next).run(replies) {
            StepView::Opened(tap) => tap.fd != fd,
            StepView::Failed { error, close } => close != Some(fd),
            StepView::Call { call, next } => true,
        },
{
    let start = StepView::dup(fd, next);
    if start.run(replies).is_final() {
        law_descriptor_is_accounted_for(start, replies);
    }
}

/// The parked descriptor that a spec names stays valid, so that the spec can be consumed again.
pub proof fn law_parked_descriptor_of_a_spec_stays(
    spec: Seq<char>,
    fd: i32,
    replies: Seq<ReplyView>,
)
    requires
        match open_spec::tap_open_spec(spec) {
            Some(TapOpenSpecView::Fd { fd: parked, if_name }) => parked == fd,
            Some(TapOpenSpecView::Fdp { fd: parked, if_name }) => parked == fd,
            _ => false,
        },
        replies.len() > 0 ==> replies[0].ret != fd,
    ensures
        match StepView::open_named_or_fd(spec).run(replies) {
            StepView::Opened(tap) => tap.fd != fd,
            StepView::Failed { error, close } => close != Some(fd),
            StepView::Call { call, next } => true,
        },
{
    if StepView::open_named_or_fd(spec).run(replies).is_final() {
        law_descriptor_is_accounted_for(StepView::open_named_or_fd(spec), replies);
    }
}

/// Whether two copies of a parked descriptor are both made or both refused. Those that are made
/// have numbers of their own, as long as all three descriptors are open.
pub open spec fn copied_alike(fd: i32, first: ReplyView, second: ReplyView) -> bool {
    &&& first.ret < 0 <==> second.ret < 0
    &&& first.ret >= 0 ==> first.ret != fd && second.ret != fd && first.ret != second.ret
}

/// Whether the kernel answers alike when it is asked about two copies of a queue.
pub open spec fn answered_alike(first: ReplyView, second: ReplyView) -> bool {
    &&& first.ret < 0 <==> second.ret < 0
    &&& first.ret >= 0 ==> first.ifreq == second.ifreq
}

/// Whether two consumptions of the parked descriptor `fd` come to the same: two taps of the same
/// name, alike preset, each with its own copy, or two errors of the same kind, with each copy
/// that was made to be closed again. Either way `fd` is left alone.
pub open spec fn consumed_alike(
    fd: i32,
    first: StepView,
    first_copied: ReplyView,
    second: StepView,
    second_copied: ReplyView,
) -> bool {
    match (first, second) {
        (StepView::Opened(a), StepView::Opened(b)) => {
            &&& a.if_name == b.if_name
            &&& a.vnet_hdr_size_preset == b.vnet_hdr_size_preset
            &&& a.fd == first_copied.ret && b.fd == second_copied.ret
            &&& a.fd != fd && b.fd != fd && a.fd != b.fd
        },
        (
            StepView::Failed { error: a, close: close_a },
            StepView::Failed { error: b, close: close_b },
        ) => {
            &&& a.same_variant(b)
            &&& close_a == (if first_copied.ret >= 0 {
                Some(first_copied.ret)
            } else {
                None
            })
            &&& close_b == (if second_copied.ret >= 0 {
                Some(second_copied.ret)
            } else {
                None
            })
            &&& close_a != Some(fd) && close_b != Some(fd)
        },
        _ => false,
    }
}

/// Consuming an inherited descriptor is idempotent: where the kernel answers alike about both
/// copies, inheriting it twice comes to the same, and the parked descriptor is left alone.
pub proof fn law_inheriting_is_idempotent(
    fd: i32,
    expected: Seq<char>,
    first_copied: ReplyView,
    first_queried: ReplyView,
    second_copied: ReplyView,
    second_queried: ReplyView,
)
    requires
        copied_alike(fd, first_copied, second_copied),
        answered_alike(first_queried, second_queried),
    ensures
        ({
            let start = StepView::dup(fd, PendingView::DupInherited { expected });
            consumed_alike(
                fd,
                start.run(seq![first_copied, first_queried]),
                first_copied,
                start.run(seq![second_copied, second_queried]),
                second_copied,
            )
        }),
{
    law_from_inherited_fd_outcome(fd, expected, first_copied, first_queried);
    law_from_inherited_fd_outcome(fd, expected, second_copied, second_queried);
    law_from_fd_outcome(first_copied.ret, first_queried);
    law_from_fd_outcome(second_copied.ret, second_queried);
}

/// Consuming a pre-configured descriptor is idempotent: wrapping it twice comes to the same, and
/// the parked descriptor is left alone.
pub proof fn law_wrapping_preconfigured_is_idempotent(
    fd: i32,
    if_name: Seq<char>,
    first_copied: ReplyView,
    second_copied: ReplyView,
)
    requires
        copied_alike(fd, first_copied, second_copied),
    ensures
        ({
            let start = StepView::dup(fd, PendingView::DupPreconfigured { if_name });
            consumed_alike(
                fd,
                start.run(seq![first_copied]),
                first_copied,
                start.run(seq![second_copied]),
                second_copied,
            )
        }),
{
    law_from_preconfigured_fd_outcome(fd, if_name, first_copied);
    law_from_preconfigured_fd_outcome(fd, if_name, second_copied);
}

/// A tap that an `fd:` spec opens has the flags that each queue is opened with, and is attached
/// to the interface that the spec names, as the kernel says.
pub proof fn law_inherited_tap_is_checked(
    spec: Seq<char>,
    fd: i32,
    if_name: Seq<char>,
    replies: Seq<ReplyView>,
)
    requires
        open_spec::tap_open_spec(spec) == Some(TapOpenSpecView::Fd { fd, if_name }),
    ensures
        StepView::open_named_or_fd(spec).run(replies) matches StepView::Opened(tap) ==> {
            &&& replies.len() >= 2
            &&& tap::compatible(replies[1].ifreq.flags)
            &&& tap.if_name == replies[1].ifreq.name
            &&& ifreq::if_name_text(tap.if_name) == if_name
        },
{
    reveal_with_fuel(StepView::run, 3);
}

/// A tap that an `fdp:` spec opens carries the name in the spec, up to its first null
/// character.
pub proof fn law_preconfigured_tap_has_the_spec_name(
    spec: Seq<char>,
    fd: i32,
    if_name: Seq<char>,
    replies: Seq<ReplyView>,
)
    requires
        open_spec::tap_open_spec(spec) == Some(TapOpenSpecView::Fdp { fd, if_name }),
    ensures
        StepView::open_named_or_fd(spec).run(replies) matches StepView::Opened(tap) ==> {
            &&& ifreq::if_name_text(tap.if_name) == text::before_first(if_name, '\0')
            &&& !if_name.contains('\0') ==> ifreq::if_name_text(tap.if_name) == if_name
        },
{
    reveal_with_fuel(StepView::run, 3);
    if ifreq::fits(if_name) {
        ifreq::law_name_round_trip_up_to_null(if_name);
        if !if_name.contains('\0') {
            ifreq::law_name_round_trip(if_name);
        }
    }
}

/// A queue that was opened by name can be inherited: where the kernel reports of its copy the
/// name that it gave and the flags that were asked for, a spec with that name opens a tap with
/// that name.
pub proof fn law_named_queue_can_be_inherited(
    if_name: Seq<char>,
    opened: ReplyView,
    attached: ReplyView,
    parked: TapView,
    copied: ReplyView,
    queried: ReplyView,
)
    requires
        StepView::open_named(if_name).run(seq![opened, attached]) == StepView::Opened(parked),
        copied.ret >= 0,
        queried.ret >= 0,
        queried.ifreq == (IfReqView { name: parked.if_name, flags: queue_flags() }),
    ensures
        ({
            let expected = ifreq::if_name_text(parked.if_name);
            StepView::dup(parked.fd, PendingView::DupInherited { expected }).run(
                seq![copied, queried],
            )
        }) == StepView::Opened(
            TapView { fd: copied.ret, if_name: parked.if_name, vnet_hdr_size_preset: false },
        ),
{
    law_compatible_flags(queue_flags());
    law_from_fd_outcome(copied.ret, queried);
    law_from_inherited_fd_outcome(
        parked.fd,
        ifreq::if_name_text(parked.if_name),
        copied,
        queried,
    );
}

/// The flags of a queue are compatible exactly where it is a TAP queue, has no packet
/// information and has a vnet header, whatever other flags it has.
pub proof fn law_compatible_flags(flags: i16)
    ensures
        tap::compatible(flags) <==> flags & IFF_TAP != 0 && flags & IFF_NO_PI != 0 && flags
            & IFF_VNET_HDR != 0,
        tap::compatible(queue_flags()),
{
    assert((flags as i32) & ((0x0002i16 | 0x1000i16 | 0x4000i16) as i32) == ((0x0002i16 | 0x1000i16
        | 0x4000i16) as i32) <==> flags & 0x0002i16 != 0 && flags & 0x1000i16 != 0 && flags
        & 0x4000i16 != 0) by (bit_vector);
    assert(((0x0002i16 | 0x1000i16 | 0x4000i16) as i32) & ((0x0002i16 | 0x1000i16 | 0x4000i16) as i32)
        == ((0x0002i16 | 0x1000i16 | 0x4000i16) as i32)) by (bit_vector);
}

} // verus!
