//! Tap open specs: the texts that say which tap to open.

use vstd::prelude::*;
use crate::error::{TapError, TapErrorView};
use crate::text;

verus! {

/// The shapes a tap open spec (`host_dev_name`) can take: a plain interface
/// name, an `fd:<fd>:<if_name>` spec naming a queue descriptor inherited from
/// the launcher process, or an `fdp:<fd>:<if_name>` spec naming a queue the
/// launcher additionally pre-configured.
#[derive(Debug, Clone, Copy)]
pub enum TapOpenSpec<'a> {
    Name(&'a str),
    Fd { fd: i32, if_name: &'a str },
    Fdp { fd: i32, if_name: &'a str },
}

/// A [`TapOpenSpec`] with its name as a sequence of characters.
pub enum TapOpenSpecView {
    Name(Seq<char>),
    Fd { fd: i32, if_name: Seq<char> },
    Fdp { fd: i32, if_name: Seq<char> },
}

impl<'a> View for TapOpenSpec<'a> {
    type V = TapOpenSpecView;

    open spec fn view(&self) -> TapOpenSpecView {
        match *self {
            TapOpenSpec::Name(name) => TapOpenSpecView::Name(name@),
            TapOpenSpec::Fd { fd, if_name } => TapOpenSpecView::Fd { fd, if_name: if_name@ },
            TapOpenSpec::Fdp { fd, if_name } => TapOpenSpecView::Fdp { fd, if_name: if_name@ },
        }
    }
}

/// What the spec of an inherited queue starts with.
pub const FD_SPEC_PREFIX: &'static str = "fd:";

/// What the spec of a pre-configured queue starts with.
pub const FDP_SPEC_PREFIX: &'static str = "fdp:";

/// The number in the text behind the prefix: what stands before the first colon.
pub open spec fn body_number(rest: Seq<char>) -> Seq<char> {
    text::before_first(rest, ':')
}

/// The interface name in the text behind the prefix: all that stands behind the
/// first colon.
pub open spec fn body_name(rest: Seq<char>) -> Seq<char> {
    rest.skip(body_number(rest).len() as int + 1)
}

/// Whether the text behind the prefix names a queue: the number of a descriptor
/// above those of the standard streams, a colon, and a name that is not empty.
pub open spec fn is_fd_body(rest: Seq<char>) -> bool {
    let number = body_number(rest);
    &&& number.len() + 1 < rest.len()
    &&& text::is_i32(number)
    &&& text::decimal_value(number) > 2
}

/// The descriptor in the text behind the prefix.
pub open spec fn body_fd(rest: Seq<char>) -> i32
    recommends
        is_fd_body(rest),
{
    text::decimal_value(body_number(rest)) as i32
}

/// What a tap open spec stands for, or nothing if it has the prefix of an inherited
/// or a pre-configured queue and names none.
pub open spec fn tap_open_spec(spec: Seq<char>) -> Option<TapOpenSpecView> {
    if FDP_SPEC_PREFIX@.is_prefix_of(spec) {
        let rest = spec.skip(FDP_SPEC_PREFIX@.len() as int);
        if is_fd_body(rest) {
            Some(TapOpenSpecView::Fdp { fd: body_fd(rest), if_name: body_name(rest) })
        } else {
            None
        }
    } else if FD_SPEC_PREFIX@.is_prefix_of(spec) {
        let rest = spec.skip(FD_SPEC_PREFIX@.len() as int);
        if is_fd_body(rest) {
            Some(TapOpenSpecView::Fd { fd: body_fd(rest), if_name: body_name(rest) })
        } else {
            None
        }
    } else {
        Some(TapOpenSpecView::Name(spec))
    }
}

/// Parses a tap open spec.
pub fn parse_tap_open_spec(spec: &str) -> (res: Result<TapOpenSpec<'_>, TapError>)
    ensures
        match res {
            Ok(parsed) => tap_open_spec(spec@) == Some(parsed@),
            Err(error) => {
                &&& tap_open_spec(spec@) is None
                &&& error@ == TapErrorView::InvalidFdSpec(spec@)
            },
        },
{
    if let Some(rest) = text::strip_prefix(spec, FDP_SPEC_PREFIX) {
        assert(spec@.skip(FDP_SPEC_PREFIX@.len() as int) =~= rest@);
        return match parse_fd_spec_body(spec, rest) {
            Ok((fd, if_name)) => Ok(TapOpenSpec::Fdp { fd, if_name }),
            Err(error) => Err(error),
        };
    }
    match text::strip_prefix(spec, FD_SPEC_PREFIX) {
        None => Ok(TapOpenSpec::Name(spec)),
        Some(rest) => {
            assert(spec@.skip(FD_SPEC_PREFIX@.len() as int) =~= rest@);
            match parse_fd_spec_body(spec, rest) {
                Ok((fd, if_name)) => Ok(TapOpenSpec::Fd { fd, if_name }),
                Err(error) => Err(error),
            }
        },
    }
}

/// Parses `rest`, the text behind the prefix of `spec`.
pub fn parse_fd_spec_body<'a>(spec: &'a str, rest: &'a str) -> (res: Result<
    (i32, &'a str),
    TapError,
>)
    ensures
        match res {
            Ok((fd, if_name)) => {
                &&& is_fd_body(rest@)
                &&& fd == body_fd(rest@)
                &&& if_name@ == body_name(rest@)
            },
            Err(error) => {
                &&& !is_fd_body(rest@)
                &&& error@ == TapErrorView::InvalidFdSpec(spec@)
            },
        },
{
    match text::split_once(rest, ':') {
        None => {
            proof {
                text::lemma_before_first(rest@, ':', rest@.len() as int);
            }
            Err(TapError::InvalidFdSpec(spec.to_owned()))
        },
        Some((number, if_name)) => {
            proof {
                text::lemma_before_first(rest@, ':', number@.len() as int);
                assert(rest@.take(number@.len() as int) =~= number@);
                assert(body_name(rest@) =~= if_name@);
            }
            match text::parse_i32(number) {
                None => Err(TapError::InvalidFdSpec(spec.to_owned())),
                Some(fd) => {
                    // Stdio descriptors are never valid, and an empty name always
                    // fails the later checks; reject both up front.
                    if fd <= 2 || if_name.is_empty() {
                        Err(TapError::InvalidFdSpec(spec.to_owned()))
                    } else {
                        Ok((fd, if_name))
                    }
                },
            }
        },
    }
}

/// A spec that names a queue by its descriptor never names one of the standard
/// streams, and always names an interface.
pub proof fn law_fd_specs_name_a_queue(spec: Seq<char>)
    ensures
        match tap_open_spec(spec) {
            Some(TapOpenSpecView::Fd { fd, if_name }) => fd > 2 && if_name.len() > 0,
            Some(TapOpenSpecView::Fdp { fd, if_name }) => fd > 2 && if_name.len() > 0,
            _ => true,
        },
{
}

/// A spec is a plain interface name, namely all of its text, exactly where it has
/// neither prefix. So no spec with a prefix is ever taken for a name.
pub proof fn law_names_have_no_prefix(spec: Seq<char>)
    ensures
        tap_open_spec(spec) == Some(TapOpenSpecView::Name(spec)) <==> !"fd:"@.is_prefix_of(spec)
            && !"fdp:"@.is_prefix_of(spec),
        tap_open_spec(spec) matches Some(TapOpenSpecView::Name(name)) ==> name == spec,
{
}

/// A decimal number holds no colon.
proof fn lemma_decimal_has_no_colon(number: Seq<char>)
    requires
        text::is_decimal(number),
    ensures
        !number.contains(':'),
{
    if number.contains(':') {
        let at = number.index_of(':');
        let digits = text::unsigned_part(number);
        if digits.len() == number.len() {
            assert(text::is_digit(digits[at]));
        } else if at > 0 {
            assert(text::is_digit(digits[at - 1]));
        }
    }
}

/// A text without a colon, a colon and a name are taken apart as they were put together, whatever
/// the name holds.
pub proof fn lemma_body_parts(number: Seq<char>, if_name: Seq<char>)
    requires
        !number.contains(':'),
    ensures
        body_number(number + seq![':'] + if_name) == number,
        body_name(number + seq![':'] + if_name) == if_name,
{
    let rest = number + seq![':'] + if_name;
    assert forall|i: int| 0 <= i < number.len() implies rest[i] != ':' by {
        assert(number.contains(number[i]));
    }
    text::lemma_before_first(rest, ':', number.len() as int);
    assert(rest.take(number.len() as int) =~= number);
    assert(rest.skip(number.len() as int + 1) =~= if_name);
}

/// A number, a colon and a name are read back as that number and that name, whatever
/// the name holds.
proof fn lemma_body_read_back(number: Seq<char>, if_name: Seq<char>)
    requires
        text::is_decimal(number),
    ensures
        body_number(number + seq![':'] + if_name) == number,
        body_name(number + seq![':'] + if_name) == if_name,
{
    lemma_decimal_has_no_colon(number);
    lemma_body_parts(number, if_name);
}

/// A spec that starts with the shorter prefix does not start with the longer one.
pub proof fn lemma_fd_spec_is_no_fdp_spec(rest: Seq<char>)
    ensures
        !FDP_SPEC_PREFIX@.is_prefix_of(FD_SPEC_PREFIX@ + rest),
{
    reveal_strlit("fd:");
    reveal_strlit("fdp:");
    let spec = FD_SPEC_PREFIX@ + rest;
    if FDP_SPEC_PREFIX@.is_prefix_of(spec) {
        assert(spec[2] == ':');
        assert(FDP_SPEC_PREFIX@[2] == 'p');
        assert(spec.take(4)[2] == spec[2]);
    }
}

/// An `fd:<fd>:<if_name>` spec, with the descriptor as a decimal number, is read back
/// as that descriptor and that name, whatever the name holds.
pub proof fn law_fd_spec_read_back(fd: i32, if_name: Seq<char>)
    requires
        fd > 2,
        if_name.len() > 0,
    ensures
        tap_open_spec("fd:"@ + text::decimal_text(fd as nat) + seq![':'] + if_name) == Some(
            TapOpenSpecView::Fd { fd, if_name },
        ),
{
    let number = text::decimal_text(fd as nat);
    let rest = number + seq![':'] + if_name;
    text::lemma_decimal_text(fd as nat);
    lemma_body_read_back(number, if_name);
    lemma_fd_spec_is_no_fdp_spec(rest);
    assert("fd:"@ + number + seq![':'] + if_name =~= FD_SPEC_PREFIX@ + rest);
    assert((FD_SPEC_PREFIX@ + rest).skip(FD_SPEC_PREFIX@.len() as int) =~= rest);
}

/// An `fdp:<fd>:<if_name>` spec, with the descriptor as a decimal number, is read back
/// as that descriptor and that name, whatever the name holds.
pub proof fn law_fdp_spec_read_back(fd: i32, if_name: Seq<char>)
    requires
        fd > 2,
        if_name.len() > 0,
    ensures
        tap_open_spec("fdp:"@ + text::decimal_text(fd as nat) + seq![':'] + if_name) == Some(
            TapOpenSpecView::Fdp { fd, if_name },
        ),
{
    let number = text::decimal_text(fd as nat);
    let rest = number + seq![':'] + if_name;
    text::lemma_decimal_text(fd as nat);
    lemma_body_read_back(number, if_name);
    assert("fdp:"@ + number + seq![':'] + if_name =~= FDP_SPEC_PREFIX@ + rest);
    assert((FDP_SPEC_PREFIX@ + rest).skip(FDP_SPEC_PREFIX@.len() as int) =~= rest);
}

} // verus!
