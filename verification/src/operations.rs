//! What each operation does, in terms of what is handed to it and what comes back.
//!
//! Each law speaks of values that the operations themselves took and returned:
//! `call_ensures(f, args, result)` says that `result` came back from `f` on `args`.

use vstd::prelude::*;
use vstd::utf8::*;
use crate::error::TapError;
use crate::ifreq;
use crate::ifreq::{
    build_terminated_if_name, read_if_name, IfReq, IfReqBuilder, IFACE_NAME_MAX_LEN,
};
use crate::ioctl;
use crate::laws;
use crate::open_spec;
use crate::open_spec::{parse_fd_spec_body, parse_tap_open_spec, TapOpenSpec};
use crate::syscall::{Reply, Syscall};
use crate::tap::{Pending, Step, Tap};
use crate::text;
use crate::text::parse_i32;

verus! {

/// A name is built exactly where its encoding has at most 15 bytes: its bytes, and null bytes
/// behind them. All longer names are invalid.
pub proof fn law_name_is_built(if_name: &str, res: Result<[u8; IFACE_NAME_MAX_LEN], TapError>)
    requires
        call_ensures(build_terminated_if_name, (if_name,), res),
    ensures
        match res {
            Ok(name) => {
                let bytes = encode_utf8(if_name@);
                &&& bytes.len() <= 15
                &&& name@.len() == 16
                &&& forall|i: int| 0 <= i < bytes.len() ==> name@[i] == bytes[i]
                &&& forall|i: int| bytes.len() <= i < 16 ==> name@[i] == 0
            },
            Err(error) => encode_utf8(if_name@).len() > 15 && error is InvalidIfname,
        },
{
}

/// Every text of at most 15 ASCII characters is built, character by character, and no longer
/// one is.
pub proof fn law_ascii_name_is_built(
    if_name: &str,
    res: Result<[u8; IFACE_NAME_MAX_LEN], TapError>,
)
    requires
        call_ensures(build_terminated_if_name, (if_name,), res),
        is_ascii_chars(if_name@),
    ensures
        res is Ok <==> if_name@.len() <= 15,
        res matches Ok(name) ==> forall|i: int|
            0 <= i < 16 ==> name@[i] == (if i < if_name@.len() {
                if_name@[i] as u8
            } else {
                0u8
            }),
{
    law_name_is_built(if_name, res);
    is_ascii_chars_encode_utf8(if_name@);
}

/// What is read of a name is encoded by exactly the bytes before its first null, or by all of
/// them if there is none; it is empty where those bytes are no UTF-8.
pub proof fn law_name_is_read(name: &[u8; IFACE_NAME_MAX_LEN], len: int, res: &str)
    requires
        call_ensures(read_if_name, (name,), res),
        0 <= len <= 16,
        forall|i: int| 0 <= i < len ==> name@[i] != 0,
        len < 16 ==> name@[len] == 0,
    ensures
        valid_utf8(name@.take(len)) ==> encode_utf8(res@) == name@.take(len),
        !valid_utf8(name@.take(len)) ==> res@.len() == 0,
{
    text::lemma_before_first(name@, 0u8, len);
    if valid_utf8(name@.take(len)) {
        decode_utf8_encode_utf8(name@.take(len));
    }
}

/// A tap is named as its bytes are read.
pub proof fn law_tap_is_named(tap: &Tap, len: int, res: &str)
    requires
        call_ensures(Tap::if_name_as_str, (tap,), res),
        0 <= len <= 16,
        forall|i: int| 0 <= i < len ==> tap.if_name@[i] != 0,
        len < 16 ==> tap.if_name@[len] == 0,
    ensures
        valid_utf8(tap.if_name@.take(len)) ==> encode_utf8(res@) == tap.if_name@.take(len),
        !valid_utf8(tap.if_name@.take(len)) ==> res@.len() == 0,
{
    text::lemma_before_first(tap.if_name@, 0u8, len);
    if valid_utf8(tap.if_name@.take(len)) {
        decode_utf8_encode_utf8(tap.if_name@.take(len));
    }
}

/// A name without a null character that is built and then read comes back.
pub proof fn law_built_name_is_read_back(
    if_name: &str,
    name: [u8; IFACE_NAME_MAX_LEN],
    res: &str,
)
    requires
        call_ensures(build_terminated_if_name, (if_name,), Ok::<_, TapError>(name)),
        call_ensures(read_if_name, (&name,), res),
        !if_name@.contains('\0'),
    ensures
        res@ == if_name@,
{
    ifreq::law_name_round_trip(if_name@);
}

/// A new builder builds a request of null bytes without flags.
pub proof fn law_new_builder_is_empty(builder: IfReqBuilder, built: IfReq)
    requires
        call_ensures(IfReqBuilder::new, (), builder),
        call_ensures(IfReqBuilder::build, (builder,), built),
    ensures
        forall|i: int| 0 <= i < 16 ==> built.name@[i] == 0,
        built.flags == 0,
{
}

/// Setting the name sets it, and leaves the flags as they were.
pub proof fn law_builder_takes_the_name(
    before: IfReqBuilder,
    built_before: IfReq,
    if_name: &[u8; IFACE_NAME_MAX_LEN],
    after: IfReqBuilder,
    built_after: IfReq,
)
    requires
        call_ensures(IfReqBuilder::build, (before,), built_before),
        call_ensures(IfReqBuilder::if_name, (before, if_name), after),
        call_ensures(IfReqBuilder::build, (after,), built_after),
    ensures
        built_after.name@ == if_name@,
        built_after.flags == built_before.flags,
{
}

/// Setting the flags sets them, and leaves the name as it was.
pub proof fn law_builder_takes_the_flags(
    before: IfReqBuilder,
    built_before: IfReq,
    flags: i16,
    after: IfReqBuilder,
    built_after: IfReq,
)
    requires
        call_ensures(IfReqBuilder::build, (before,), built_before),
        call_ensures(IfReqBuilder::flags, (before, flags), after),
        call_ensures(IfReqBuilder::build, (after,), built_after),
    ensures
        built_after.name@ == built_before.name@,
        built_after.flags == flags,
{
}

/// A builder hands what it builds to the descriptor and the request that it is given.
pub proof fn law_builder_is_executed(
    builder: IfReqBuilder,
    built: IfReq,
    fd: i32,
    ioctl: u64,
    call: Syscall,
)
    requires
        call_ensures(IfReqBuilder::build, (builder,), built),
        call_ensures(IfReqBuilder::execute, (builder, fd, ioctl), call),
    ensures
        call matches Syscall::IoctlIfreq { fd: asked, request, ifreq } && asked == fd && request
            == ioctl && ifreq.name@ == built.name@ && ifreq.flags == built.flags,
{
}

/// A reply is a failure exactly where a negative number was returned, and is handed on as it
/// came.
pub proof fn law_reply_is_checked(
    reply: Reply,
    checked: Result<i32, std::io::Error>,
    filled: Result<IfReq, std::io::Error>,
)
    requires
        call_ensures(Reply::checked, (reply,), checked),
        call_ensures(Reply::filled, (reply,), filled),
    ensures
        match checked {
            Ok(ret) => reply.ret >= 0 && ret == reply.ret,
            Err(error) => reply.ret < 0 && error == reply.error,
        },
        match filled {
            Ok(ifreq) => reply.ret >= 0 && ifreq.name@ == reply.ifreq.name@ && ifreq.flags
                == reply.ifreq.flags,
            Err(error) => reply.ret < 0 && error == reply.error,
        },
{
}

/// What stands for a number is one digit or more, with nothing before them but one sign.
pub proof fn law_numbers_are_digits(number: &str, res: Option<i32>)
    requires
        call_ensures(parse_i32, (number,), res),
        res is Some,
    ensures
        number@.len() > 0,
        '0' <= number@.last() <= '9',
        forall|i: int|
            0 <= i < number@.len() ==> '0' <= #[trigger] number@[i] <= '9' || i == 0 && (number@[i]
                == '-' || number@[i] == '+'),
        number@[0] == '-' ==> res->0 <= 0,
        number@[0] != '-' ==> res->0 >= 0,
{
    let digits = text::unsigned_part(number@);
    assert(text::is_digit(digits.last()));
    assert forall|i: int| 0 <= i < number@.len() implies '0' <= #[trigger] number@[i] <= '9' || i
        == 0 && (number@[i] == '-' || number@[i] == '+') by {
        if digits.len() == number@.len() {
            assert(text::is_digit(digits[i]));
        } else if i > 0 {
            assert(text::is_digit(digits[i - 1]));
        }
    }
}

/// The shortest texts: none stands for a number without a digit, and a digit stands for itself,
/// or for its negative behind a minus sign.
pub proof fn law_shortest_numbers(number: &str, res: Option<i32>)
    requires
        call_ensures(parse_i32, (number,), res),
    ensures
        number@.len() == 0 ==> res is None,
        number@.len() == 1 ==> res == (if '0' <= number@[0] <= '9' {
            Some((number@[0] as int - '0' as int) as i32)
        } else {
            None
        }),
        number@.len() == 2 && (number@[0] == '-' || number@[0] == '+') ==> res == (if '0'
            <= number@[1] <= '9' {
            let digit = number@[1] as int - '0' as int;
            Some(
                (if number@[0] == '-' {
                    -digit
                } else {
                    digit
                }) as i32,
            )
        } else {
            None
        }),
{
    let digits = text::unsigned_part(number@);
    if digits.len() == 1 {
        assert(digits.drop_last() =~= Seq::<char>::empty());
        assert(text::digits_value(digits.drop_last()) == 0);
        assert(text::is_digits(digits) <==> text::is_digit(digits[0]));
    }
}

/// One character more: a digit makes ten times the number and that digit of it, as long as an
/// `i32` can hold it, and any other character makes it no number. What stands for no number
/// does not become one, unless it is empty or a mere sign.
pub proof fn law_number_with_one_more_character(
    head: &str,
    head_res: Option<i32>,
    c: char,
    number: &str,
    res: Option<i32>,
)
    requires
        call_ensures(parse_i32, (head,), head_res),
        call_ensures(parse_i32, (number,), res),
        number@ == head@.push(c),
    ensures
        head_res matches Some(value) ==> res == ({
            let digit = c as int - '0' as int;
            let grown = if head@[0] == '-' {
                10 * value - digit
            } else {
                10 * value + digit
            };
            if 0 <= digit <= 9 && i32::MIN <= grown <= i32::MAX {
                Some(grown as i32)
            } else {
                None
            }
        }),
        head_res is None && head@.len() > 0 && head@ != seq!['-'] && head@ != seq!['+'] ==> res
            is None,
{
    let digits = text::unsigned_part(number@);
    if head@.len() > 0 {
        let head_digits = text::unsigned_part(head@);
        assert(number@[0] == head@[0]);
        assert(digits =~= head_digits.push(c));
        assert(digits.drop_last() =~= head_digits);
        assert(digits.last() == c);
        if head_digits.len() == 0 {
            assert(head@ =~= seq![head@[0]]);
        }
        if text::is_digits(digits) {
            assert(text::is_digit(digits.last()));
            assert forall|i: int| 0 <= i < head_digits.len() implies text::is_digit(
                #[trigger] head_digits[i],
            ) by {
                assert(text::is_digit(digits[i]));
            }
        }
        if text::is_digits(head_digits) && text::is_digit(c) {
            assert forall|i: int| 0 <= i < digits.len() implies text::is_digit(
                #[trigger] digits[i],
            ) by {
                if i < head_digits.len() {
                    assert(text::is_digit(head_digits[i]));
                }
            }
        }
    }
}

/// The text behind a prefix is taken apart at its first colon: before it stands a descriptor
/// above those of the standard streams, as a number, and behind it a name that is not empty. All
/// else is refused, and the whole spec is told.
pub proof fn law_fd_spec_body_is_parsed<'a>(
    spec: &'a str,
    rest: &'a str,
    number: &str,
    fd: Option<i32>,
    if_name: Seq<char>,
    res: Result<(i32, &'a str), TapError>,
)
    requires
        call_ensures(parse_fd_spec_body, (spec, rest), res),
        call_ensures(parse_i32, (number,), fd),
        !number@.contains(':'),
        rest@ == number@ + seq![':'] + if_name,
    ensures
        match res {
            Ok((parsed, name)) => {
                &&& fd == Some(parsed)
                &&& parsed > 2
                &&& if_name.len() > 0
                &&& name@ == if_name
            },
            Err(TapError::InvalidFdSpec(told)) => {
                &&& told@ == spec@
                &&& !(fd is Some && fd->0 > 2 && if_name.len() > 0)
            },
            _ => false,
        },
{
    open_spec::lemma_body_parts(number@, if_name);
}

/// A text behind a prefix that holds no colon is refused.
pub proof fn law_fd_spec_body_needs_a_colon<'a>(
    spec: &'a str,
    rest: &'a str,
    res: Result<(i32, &'a str), TapError>,
)
    requires
        call_ensures(parse_fd_spec_body, (spec, rest), res),
        !rest@.contains(':'),
    ensures
        res matches Err(TapError::InvalidFdSpec(told)) && told@ == spec@,
{
    text::lemma_before_first(rest@, ':', rest@.len() as int);
}

/// A spec with a prefix, a text without a colon, a colon and a name is the inherited or the
/// pre-configured queue of that descriptor and that name, exactly where the text is a number
/// above those of the standard streams and the name is not empty. All others are refused, and the
/// whole spec is told.
pub proof fn law_queue_spec_is_parsed<'a>(
    spec: &'a str,
    number: &str,
    fd: Option<i32>,
    if_name: Seq<char>,
    res: Result<TapOpenSpec<'a>, TapError>,
)
    requires
        call_ensures(parse_tap_open_spec, (spec,), res),
        call_ensures(parse_i32, (number,), fd),
        !number@.contains(':'),
    ensures
        spec@ == "fd:"@ + number@ + seq![':'] + if_name ==> match res {
            Ok(TapOpenSpec::Fd { fd: parsed, if_name: name }) => {
                &&& fd == Some(parsed)
                &&& parsed > 2
                &&& if_name.len() > 0
                &&& name@ == if_name
            },
            Err(TapError::InvalidFdSpec(told)) => {
                &&& told@ == spec@
                &&& !(fd is Some && fd->0 > 2 && if_name.len() > 0)
            },
            _ => false,
        },
        spec@ == "fdp:"@ + number@ + seq![':'] + if_name ==> match res {
            Ok(TapOpenSpec::Fdp { fd: parsed, if_name: name }) => {
                &&& fd == Some(parsed)
                &&& parsed > 2
                &&& if_name.len() > 0
                &&& name@ == if_name
            },
            Err(TapError::InvalidFdSpec(told)) => {
                &&& told@ == spec@
                &&& !(fd is Some && fd->0 > 2 && if_name.len() > 0)
            },
            _ => false,
        },
{
    let rest = number@ + seq![':'] + if_name;
    open_spec::lemma_body_parts(number@, if_name);
    if spec@ == "fd:"@ + number@ + seq![':'] + if_name {
        assert(spec@ =~= "fd:"@ + rest);
        open_spec::lemma_fd_spec_is_no_fdp_spec(rest);
        assert(spec@.skip("fd:"@.len() as int) =~= rest);
        assert(spec@.take("fd:"@.len() as int) =~= "fd:"@);
    }
    if spec@ == "fdp:"@ + number@ + seq![':'] + if_name {
        assert(spec@ =~= "fdp:"@ + rest);
        assert(spec@.skip("fdp:"@.len() as int) =~= rest);
        assert(spec@.take("fdp:"@.len() as int) =~= "fdp:"@);
    }
}

/// A spec with a prefix and no colon behind it is refused.
pub proof fn law_queue_spec_needs_a_second_colon<'a>(
    spec: &'a str,
    rest: Seq<char>,
    res: Result<TapOpenSpec<'a>, TapError>,
)
    requires
        call_ensures(parse_tap_open_spec, (spec,), res),
        !rest.contains(':'),
        spec@ == "fd:"@ + rest || spec@ == "fdp:"@ + rest,
    ensures
        res matches Err(TapError::InvalidFdSpec(told)) && told@ == spec@,
{
    text::lemma_before_first(rest, ':', rest.len() as int);
    if spec@ == "fdp:"@ + rest {
        assert(spec@.skip("fdp:"@.len() as int) =~= rest);
        assert(spec@.take("fdp:"@.len() as int) =~= "fdp:"@);
    } else {
        open_spec::lemma_fd_spec_is_no_fdp_spec(rest);
        assert(spec@.skip("fd:"@.len() as int) =~= rest);
        assert(spec@.take("fd:"@.len() as int) =~= "fd:"@);
    }
}

/// A spec without a prefix is the name that its whole text is, and no other spec is a name.
pub proof fn law_plain_spec_is_a_name<'a>(spec: &'a str, res: Result<TapOpenSpec<'a>, TapError>)
    requires
        call_ensures(parse_tap_open_spec, (spec,), res),
    ensures
        res is Ok && res->Ok_0 is Name <==> !"fd:"@.is_prefix_of(spec@) && !"fdp:"@.is_prefix_of(
            spec@,
        ),
        res matches Ok(TapOpenSpec::Name(name)) ==> name@ == spec@,
{
}

/// Whatever spec is taken for a queue is a prefix, a decimal number that stands for the
/// descriptor, a colon, and the name.
pub proof fn law_accepted_queue_spec<'a>(
    spec: &'a str,
    fd: i32,
    if_name: &'a str,
    number: Seq<char>,
    res: Result<TapOpenSpec<'a>, TapError>,
)
    requires
        call_ensures(parse_tap_open_spec, (spec,), res),
        ({
            ||| res == Ok::<_, TapError>(TapOpenSpec::Fd { fd, if_name }) && number
                == spec@.subrange(3, spec@.len() - if_name@.len() - 1)
            ||| res == Ok::<_, TapError>(TapOpenSpec::Fdp { fd, if_name }) && number
                == spec@.subrange(4, spec@.len() - if_name@.len() - 1)
        }),
    ensures
        fd > 2,
        if_name@.len() > 0,
        res->Ok_0 is Fd ==> spec@ == "fd:"@ + number + seq![':'] + if_name@,
        res->Ok_0 is Fdp ==> spec@ == "fdp:"@ + number + seq![':'] + if_name@,
        number.len() > 0,
        '0' <= number.last() <= '9',
        forall|i: int|
            0 <= i < number.len() ==> '0' <= #[trigger] number[i] <= '9' || i == 0 && number[i]
                == '+',
        text::decimal_value(number) == fd,
{
    reveal_strlit("fd:");
    reveal_strlit("fdp:");
    let prefix = if res->Ok_0 is Fd {
        "fd:"@
    } else {
        "fdp:"@
    };
    let rest = spec@.skip(prefix.len() as int);
    let text_number = open_spec::body_number(rest);
    text::lemma_before_first_cuts(rest, ':');
    assert(rest.take(text_number.len() as int) =~= text_number);
    assert(if_name@ == open_spec::body_name(rest));
    assert(number =~= text_number);
    assert(spec@.take(prefix.len() as int) =~= prefix);
    assert(spec@ =~= prefix + number + seq![':'] + if_name@);
    let digits = text::unsigned_part(number);
    assert(text::is_digit(digits.last()));
    assert forall|i: int| 0 <= i < number.len() implies '0' <= #[trigger] number[i] <= '9' || i == 0
        && number[i] == '+' by {
        if digits.len() == number.len() {
            assert(text::is_digit(digits[i]));
        } else if i > 0 {
            assert(text::is_digit(digits[i - 1]));
        }
    }
}

/// Opening by name opens `/dev/net/tun` for reading and writing, without blocking and closed on
/// exec, and keeps the name.
pub proof fn law_open_named_starts<'a>(if_name: &'a str, step: Step<'a>)
    requires
        call_ensures(Tap::open_named, (if_name,), step),
    ensures
        step matches Step::Call { call, next } && {
            &&& call matches Syscall::Open { path, read_write, nonblock, cloexec }
            &&& path@ == "/dev/net/tun"@
            &&& read_write && nonblock && cloexec
            &&& next matches Pending::OpenTun { if_name: kept }
            &&& kept@ == if_name@
        },
{
}

/// Wrapping a descriptor that is handed over asks the kernel, by one call on that very
/// descriptor, with an empty request, and keeps that descriptor.
pub proof fn law_from_fd_starts(fd: i32, step: Step<'static>)
    requires
        call_ensures(Tap::from_fd, (fd,), step),
    ensures
        step matches Step::Call { call, next } && {
            &&& call matches Syscall::IoctlIfreq { fd: asked, request, ifreq }
            &&& asked == fd
            &&& request == 0x8004_54d2
            &&& forall|i: int| 0 <= i < 16 ==> ifreq.name@[i] == 0
            &&& ifreq.flags == 0
            &&& next matches Pending::Query { fd: kept, required }
            &&& kept == fd
            &&& required is None
        },
{
    ioctl::law_request_numbers();
}

/// Inheriting a descriptor copies that very descriptor, to a number of 3 or more, and keeps the
/// expected name.
pub proof fn law_from_inherited_fd_starts<'a>(fd: i32, if_name: &'a str, step: Step<'a>)
    requires
        call_ensures(Tap::from_inherited_fd, (fd, if_name), step),
    ensures
        step matches Step::Call { call, next } && {
            &&& call matches Syscall::DupFdCloexec { fd: copied, min_fd }
            &&& copied == fd
            &&& min_fd == 3
            &&& next matches Pending::DupInherited { expected }
            &&& expected@ == if_name@
        },
{
}

/// Wrapping a pre-configured descriptor copies that very descriptor, to a number of 3 or more,
/// and keeps the name.
pub proof fn law_from_preconfigured_fd_starts<'a>(fd: i32, if_name: &'a str, step: Step<'a>)
    requires
        call_ensures(Tap::from_preconfigured_fd, (fd, if_name), step),
    ensures
        step matches Step::Call { call, next } && {
            &&& call matches Syscall::DupFdCloexec { fd: copied, min_fd }
            &&& copied == fd
            &&& min_fd == 3
            &&& next matches Pending::DupPreconfigured { if_name: kept }
            &&& kept@ == if_name@
        },
{
}

/// Opening by spec starts as the parsed spec says: by name, by a copy of the descriptor to
/// inherit, or by a copy of the pre-configured one. A spec that is refused makes no call.
pub proof fn law_open_named_or_fd_starts<'a>(
    spec: &'a str,
    parsed: Result<TapOpenSpec<'a>, TapError>,
    step: Step<'a>,
)
    requires
        call_ensures(parse_tap_open_spec, (spec,), parsed),
        call_ensures(Tap::open_named_or_fd, (spec,), step),
    ensures
        match parsed {
            Ok(TapOpenSpec::Name(if_name)) => step matches Step::Call { call, next } && {
                &&& call matches Syscall::Open { path, read_write, nonblock, cloexec }
                &&& path@ == "/dev/net/tun"@
                &&& read_write && nonblock && cloexec
                &&& next matches Pending::OpenTun { if_name: kept }
                &&& kept@ == if_name@
            },
            Ok(TapOpenSpec::Fd { fd, if_name }) => step matches Step::Call { call, next } && {
                &&& call matches Syscall::DupFdCloexec { fd: copied, min_fd }
                &&& copied == fd
                &&& min_fd == 3
                &&& next matches Pending::DupInherited { expected }
                &&& expected@ == if_name@
            },
            Ok(TapOpenSpec::Fdp { fd, if_name }) => step matches Step::Call { call, next } && {
                &&& call matches Syscall::DupFdCloexec { fd: copied, min_fd }
                &&& copied == fd
                &&& min_fd == 3
                &&& next matches Pending::DupPreconfigured { if_name: kept }
                &&& kept@ == if_name@
            },
            Err(_) => step matches Step::Failed { error: TapError::InvalidFdSpec(told), close }
                && told@ == spec@ && close is None,
        },
{
}

/// The reply to the opening of the device: its failure comes first, then a name whose encoding
/// has more than 15 bytes, with the new descriptor closed. Else the new queue is attached to
/// the interface of that name as a TAP queue without packet information and with a vnet header.
pub proof fn law_device_is_opened<'a>(if_name: &'a str, reply: Reply, step: Step<'a>)
    requires
        call_ensures(Pending::resume, (Pending::OpenTun { if_name }, reply), step),
    ensures
        reply.ret < 0 ==> (step matches Step::Failed { error: TapError::OpenTun(error), close }
            && error == reply.error && close is None),
        reply.ret >= 0 && encode_utf8(if_name@).len() > 15 ==> (step matches Step::Failed {
            error: TapError::InvalidIfname,
            close,
        } && close == Some(reply.ret)),
        reply.ret >= 0 && encode_utf8(if_name@).len() <= 15 ==> (step matches Step::Call {
            call,
            next,
        } && {
            let bytes = encode_utf8(if_name@);
            &&& call matches Syscall::IoctlIfreq { fd, request, ifreq }
            &&& fd == reply.ret
            &&& request == 0x4004_54ca
            &&& forall|i: int| 0 <= i < bytes.len() ==> ifreq.name@[i] == bytes[i]
            &&& forall|i: int| bytes.len() <= i < 16 ==> ifreq.name@[i] == 0
            &&& ifreq.flags == 0x5002
            &&& next matches Pending::Attach { fd: kept_fd, if_name: kept }
            &&& kept_fd == reply.ret
            &&& kept@ == if_name@
        }),
{
    ioctl::law_request_numbers();
    ifreq::law_queue_flags();
}

/// The reply to the attaching of a queue: where it failed, the queue is closed and the error told
/// with the name that was asked for. Else the tap has that queue and the name that the kernel
/// gave.
pub proof fn law_queue_is_attached<'a>(fd: i32, if_name: &'a str, reply: Reply, step: Step<'a>)
    requires
        call_ensures(Pending::resume, (Pending::Attach { fd, if_name }, reply), step),
    ensures
        reply.ret < 0 ==> (step matches Step::Failed {
            error: TapError::IfreqExecuteError(error, provider),
            close,
        } && error == reply.error && provider@ == if_name@ && close == Some(fd)),
        reply.ret >= 0 ==> (step matches Step::Opened(tap) && tap.fd == fd && tap.if_name@
            == reply.ifreq.name@ && !tap.vnet_hdr_size_preset),
{
}

/// The reply to the question what a queue is. Its failure comes first, then flags that lack one of
/// the three that are needed, then a name that reads otherwise than the required one, if one is;
/// each time the queue is closed. Else the tap has that queue and the name that the kernel told.
pub proof fn law_queue_is_queried<'a>(
    fd: i32,
    required: Option<&'a str>,
    reply: Reply,
    read: &str,
    step: Step<'a>,
)
    requires
        call_ensures(read_if_name, (&reply.ifreq.name,), read),
        call_ensures(Pending::resume, (Pending::Query { fd, required }, reply), step),
    ensures
        ({
            let flags = reply.ifreq.flags;
            let needed = flags & 0x0002 != 0 && flags & 0x1000 != 0 && flags & 0x4000 != 0;
            let other = required is Some && required->0@ != read@;
            &&& reply.ret < 0 ==> (step matches Step::Failed {
                error: TapError::IfreqExecuteError(error, provider),
                close,
            } && error == reply.error && provider@ == "pre-opened descriptor"@ && close == Some(fd))
            &&& reply.ret >= 0 && !needed ==> (step matches Step::Failed {
                error: TapError::IncompatiblePreopenedTapFlags(told),
                close,
            } && told == flags && close == Some(fd))
            &&& reply.ret >= 0 && needed && other ==> (step matches Step::Failed {
                error: TapError::InheritedTapNameMismatch { expected, actual },
                close,
            } && expected@ == required->0@ && actual@ == read@ && close == Some(fd))
            &&& reply.ret >= 0 && needed && !other ==> (step matches Step::Opened(tap) && tap.fd == fd
                && tap.if_name@ == reply.ifreq.name@ && !tap.vnet_hdr_size_preset)
        }),
{
    laws::law_compatible_flags(reply.ifreq.flags);
}

/// The reply to the copying of an inherited descriptor: it is the copy that the kernel is asked
/// about, with an empty request, and nothing is closed where there is none.
pub proof fn law_inherited_descriptor_is_copied<'a>(
    expected: &'a str,
    reply: Reply,
    step: Step<'a>,
)
    requires
        call_ensures(Pending::resume, (Pending::DupInherited { expected }, reply), step),
    ensures
        reply.ret < 0 ==> (step matches Step::Failed {
            error: TapError::DupInheritedTap(error),
            close,
        } && error == reply.error && close is None),
        reply.ret >= 0 ==> (step matches Step::Call { call, next } && {
            &&& call matches Syscall::IoctlIfreq { fd: asked, request, ifreq }
            &&& asked == reply.ret
            &&& request == 0x8004_54d2
            &&& forall|i: int| 0 <= i < 16 ==> ifreq.name@[i] == 0
            &&& ifreq.flags == 0
            &&& next matches Pending::Query { fd: kept, required }
            &&& kept == reply.ret
            &&& required is Some && required->0@ == expected@
        }),
{
    ioctl::law_request_numbers();
}

/// The reply to the copying of a pre-configured descriptor: the tap has the copy and the name in
/// the spec, and its vnet header size is preset, unless the encoding of the name has more than 15
/// bytes: then the copy is closed.
pub proof fn law_preconfigured_descriptor_is_copied<'a>(
    if_name: &'a str,
    reply: Reply,
    step: Step<'a>,
)
    requires
        call_ensures(Pending::resume, (Pending::DupPreconfigured { if_name }, reply), step),
    ensures
        reply.ret < 0 ==> (step matches Step::Failed {
            error: TapError::DupInheritedTap(error),
            close,
        } && error == reply.error && close is None),
        reply.ret >= 0 && encode_utf8(if_name@).len() > 15 ==> (step matches Step::Failed {
            error: TapError::InvalidIfname,
            close,
        } && close == Some(reply.ret)),
        reply.ret >= 0 && encode_utf8(if_name@).len() <= 15 ==> (step matches Step::Opened(tap) && {
            let bytes = encode_utf8(if_name@);
            &&& tap.fd == reply.ret
            &&& forall|i: int| 0 <= i < bytes.len() ==> tap.if_name@[i] == bytes[i]
            &&& forall|i: int| bytes.len() <= i < 16 ==> tap.if_name@[i] == 0
            &&& tap.vnet_hdr_size_preset
        }),
{
}

/// A spec without a prefix opens the interface that its whole text names: `/dev/net/tun` is
/// opened, the new queue is attached with that name where it fits, and what comes of it is told.
pub proof fn law_plain_spec_opens_that_interface<'a>(
    spec: &'a str,
    start: Step<'a>,
    pending: Pending<'a>,
    opened: Reply,
    attach: Step<'a>,
    attaching: Pending<'a>,
    attached: Reply,
    end: Step<'a>,
)
    requires
        !"fd:"@.is_prefix_of(spec@),
        !"fdp:"@.is_prefix_of(spec@),
        call_ensures(Tap::open_named_or_fd, (spec,), start),
        start matches Step::Call { call, next } ==> next == pending,
        call_ensures(Pending::resume, (pending, opened), attach),
        attach matches Step::Call { call, next } ==> next == attaching,
        call_ensures(Pending::resume, (attaching, attached), end),
    ensures
        start matches Step::Call { call: Syscall::Open { path, .. }, next } && path@
            == "/dev/net/tun"@,
        opened.ret < 0 ==> attach matches Step::Failed { error: TapError::OpenTun(error), close },
        opened.ret >= 0 && encode_utf8(spec@).len() > 15 ==> attach matches Step::Failed {
            error: TapError::InvalidIfname,
            close,
        },
        opened.ret >= 0 && encode_utf8(spec@).len() <= 15 ==> {
            let bytes = encode_utf8(spec@);
            &&& attach matches Step::Call {
                call: Syscall::IoctlIfreq { fd, request, ifreq },
                next,
            }
            &&& fd == opened.ret
            &&& request == 0x4004_54ca
            &&& forall|i: int| 0 <= i < bytes.len() ==> ifreq.name@[i] == bytes[i]
            &&& forall|i: int| bytes.len() <= i < 16 ==> ifreq.name@[i] == 0
            &&& ifreq.flags == 0x5002
            &&& attached.ret < 0 ==> (end matches Step::Failed {
                error: TapError::IfreqExecuteError(error, provider),
                close,
            } && error == attached.error && provider@ == spec@ && close == Some(opened.ret))
            &&& attached.ret >= 0 ==> (end matches Step::Opened(tap) && tap.fd == opened.ret
                && tap.if_name@ == attached.ifreq.name@ && !tap.vnet_hdr_size_preset)
        },
{
    ioctl::law_request_numbers();
    ifreq::law_queue_flags();
}

/// Opening by a spec without a prefix and opening by the name that the spec is are the same.
pub proof fn law_plain_spec_opens_as_its_name<'a>(
    spec: &'a str,
    by_spec: Step<'a>,
    by_name: Step<'a>,
)
    requires
        !"fd:"@.is_prefix_of(spec@),
        !"fdp:"@.is_prefix_of(spec@),
        call_ensures(Tap::open_named_or_fd, (spec,), by_spec),
        call_ensures(Tap::open_named, (spec,), by_name),
    ensures
        by_spec@ == by_name@,
        by_spec@ is Call,
{
}

/// Opening by a spec that names a queue and wrapping that queue directly are the same.
pub proof fn law_queue_spec_opens_as_its_queue<'a>(
    spec: &'a str,
    parsed: TapOpenSpec<'a>,
    fd: i32,
    if_name: &'a str,
    by_spec: Step<'a>,
    inherited: Step<'a>,
    preconfigured: Step<'a>,
)
    requires
        call_ensures(parse_tap_open_spec, (spec,), Ok::<_, TapError>(parsed)),
        call_ensures(Tap::open_named_or_fd, (spec,), by_spec),
        call_ensures(Tap::from_inherited_fd, (fd, if_name), inherited),
        call_ensures(Tap::from_preconfigured_fd, (fd, if_name), preconfigured),
    ensures
        parsed == (TapOpenSpec::Fd { fd, if_name }) ==> by_spec@ == inherited@,
        parsed == (TapOpenSpec::Fdp { fd, if_name }) ==> by_spec@ == preconfigured@,
{
}

/// Setting the offload flags is one `ioctl` on the descriptor of the tap with these flags, and
/// fails exactly where the call does.
pub proof fn law_offload_is_set(
    tap: &Tap,
    flags: u32,
    call: Syscall,
    reply: Reply,
    res: Result<(), TapError>,
)
    requires
        call_ensures(Tap::set_offload, (tap, flags), call),
        call_ensures(Tap::offload_outcome, (reply,), res),
    ensures
        call matches Syscall::IoctlVal { fd, request, arg } && fd == tap.fd && request
            == 0x4004_54d0 && arg == flags,
        match res {
            Ok(()) => reply.ret >= 0,
            Err(TapError::SetOffloadFlags(error)) => reply.ret < 0 && error == reply.error,
            Err(_) => false,
        },
{
    ioctl::law_request_numbers();
}

/// Setting the size of the vnet header is one `ioctl` on the descriptor of the tap with that size,
/// and fails exactly where the call does.
pub proof fn law_vnet_hdr_size_is_set(
    tap: &Tap,
    size: i32,
    call: Syscall,
    reply: Reply,
    res: Result<(), TapError>,
)
    requires
        call_ensures(Tap::set_vnet_hdr_size, (tap, size), call),
        call_ensures(Tap::vnet_hdr_size_outcome, (reply,), res),
    ensures
        call matches Syscall::IoctlRef { fd, request, value } && fd == tap.fd && request
            == 0x4004_54d8 && value == size,
        match res {
            Ok(()) => reply.ret >= 0,
            Err(TapError::SetSizeOfVnetHdr(error)) => reply.ret < 0 && error == reply.error,
            Err(_) => false,
        },
{
    ioctl::law_request_numbers();
}

/// Buffers are written to and read from the descriptor of the tap, as many as there are, and the
/// number of bytes that were moved is told unless it is `-1`.
pub proof fn law_buffers_are_moved(
    tap: &Tap,
    count: usize,
    write: Syscall,
    read: Syscall,
    ret: isize,
    error: std::io::Error,
    res: Result<usize, std::io::Error>,
    fd: i32,
)
    requires
        count <= i32::MAX,
        call_ensures(Tap::write_iovec, (tap, count), write),
        call_ensures(Tap::read_iovec, (tap, count), read),
        ret >= -1,
        call_ensures(Tap::transfer_outcome, (ret, error), res),
        call_ensures(Tap::as_raw_fd, (tap,), fd),
    ensures
        fd == tap.fd,
        write matches Syscall::Writev { fd: to, iovcnt } && to == tap.fd && iovcnt == count,
        read matches Syscall::Readv { fd: from, iovcnt } && from == tap.fd && iovcnt == count,
        match res {
            Ok(moved) => ret >= 0 && moved == ret,
            Err(told) => ret == -1 && told == error,
        },
{
}

} // verus!
