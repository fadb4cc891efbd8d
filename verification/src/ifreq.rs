//! Interface requests: the record that names an interface and holds its flags.

use vstd::prelude::*;
use vstd::string::*;
use vstd::utf8::*;
use crate::error::{TapError, TapErrorView};
use crate::text;

verus! {

/// The number of bytes of an interface name, the terminating null included, as
/// the Linux user-space API defines it.
pub const IFACE_NAME_MAX_LEN: usize = 16;

/// The flag of a queue that carries Ethernet frames.
pub const IFF_TAP: i16 = 0x0002;

/// The flag of a queue whose packets have no packet information before them.
pub const IFF_NO_PI: i16 = 0x1000;

/// The flag of a queue whose packets have a vnet header before them.
pub const IFF_VNET_HDR: i16 = 0x4000;

/// The flags that each queue is opened with, and that a pre-opened queue needs.
pub open spec fn spec_queue_flags() -> i16 {
    IFF_TAP | IFF_NO_PI | IFF_VNET_HDR
}

/// The flags that each queue is opened with, and that a pre-opened queue needs.
#[verifier::when_used_as_spec(spec_queue_flags)]
pub fn queue_flags() -> (flags: i16)
    ensures
        flags == queue_flags(),
        flags == 0x5002,
{
    proof {
        assert(0x0002i16 | 0x1000i16 | 0x4000i16 == 0x5002i16) by (bit_vector);
    }
    IFF_TAP | IFF_NO_PI | IFF_VNET_HDR
}

/// A name with null bytes behind it, up to the full length.
pub open spec fn terminated(name: Seq<u8>) -> Seq<u8> {
    name + Seq::new((IFACE_NAME_MAX_LEN - name.len()) as nat, |i: int| 0u8)
}

/// Whether the encoding of a name leaves room for the terminating null.
pub open spec fn fits(if_name: Seq<char>) -> bool {
    encode_utf8(if_name).len() < IFACE_NAME_MAX_LEN
}

/// The bytes of a null-terminated C string that holds `if_name`. A name that leaves no
/// room for the null is refused.
pub fn build_terminated_if_name(if_name: &str) -> (res: Result<
    [u8; IFACE_NAME_MAX_LEN],
    TapError,
>)
    ensures
        match res {
            Ok(name) => fits(if_name@) && name@ == terminated(encode_utf8(if_name@)),
            Err(error) => !fits(if_name@) && error@ == TapErrorView::InvalidIfname,
        },
        res is Ok <==> encode_utf8(if_name@).len() <= 15,
{
    let bytes = if_name.as_bytes();
    if bytes.len() >= IFACE_NAME_MAX_LEN {
        return Err(TapError::InvalidIfname);
    }
    let mut name = [0u8; IFACE_NAME_MAX_LEN];
    let mut i: usize = 0;
    while i < bytes.len()
        invariant
            i <= bytes.len() < IFACE_NAME_MAX_LEN,
            bytes@ == encode_utf8(if_name@),
            forall|k: int| 0 <= k < i ==> name@[k] == bytes@[k],
            forall|k: int| i <= k < IFACE_NAME_MAX_LEN ==> name@[k] == 0,
        decreases bytes.len() - i,
    {
        name[i] = bytes[i];
        i = i + 1;
    }
    assert(name@ =~= terminated(encode_utf8(if_name@)));
    Ok(name)
}

/// An interface request: the name of an interface and the flags of a queue.
#[derive(Debug, Clone, Copy)]
pub struct IfReq {
    pub name: [u8; IFACE_NAME_MAX_LEN],
    pub flags: i16,
}

/// An [`IfReq`] with its name as a sequence of bytes.
pub struct IfReqView {
    pub name: Seq<u8>,
    pub flags: i16,
}

impl View for IfReq {
    type V = IfReqView;

    open spec fn view(&self) -> IfReqView {
        IfReqView { name: self.name@, flags: self.flags }
    }
}

/// The name that is all null bytes.
pub open spec fn no_name() -> Seq<u8> {
    Seq::new(IFACE_NAME_MAX_LEN as nat, |i: int| 0u8)
}

/// Builds an interface request, one part at a time.
#[derive(Clone, Copy)]
pub struct IfReqBuilder(IfReq);

impl View for IfReqBuilder {
    type V = IfReqView;

    /// The request built so far.
    closed spec fn view(&self) -> IfReqView {
        self.0@
    }
}

impl IfReqBuilder {
    /// A request without a name and without flags.
    pub fn new() -> (builder: Self)
        ensures
            builder@ == (IfReqView { name: no_name(), flags: 0 }),
    {
        let name = [0u8; IFACE_NAME_MAX_LEN];
        assert(name@ =~= no_name());
        IfReqBuilder(IfReq { name, flags: 0 })
    }

    /// Sets the name, and leaves the flags as they are.
    pub fn if_name(self, if_name: &[u8; IFACE_NAME_MAX_LEN]) -> (builder: Self)
        ensures
            builder@ == (IfReqView { name: if_name@, flags: self@.flags }),
    {
        IfReqBuilder(IfReq { name: *if_name, flags: self.0.flags })
    }

    /// Sets the flags, and leaves the name as it is.
    pub fn flags(self, flags: i16) -> (builder: Self)
        ensures
            builder@ == (IfReqView { name: self@.name, flags }),
    {
        IfReqBuilder(IfReq { name: self.0.name, flags })
    }

    /// What a builder is printed as: a text that shows nothing of the request.
    pub fn debug_text(&self) -> (text: &'static str)
        ensures
            text@ == "IfReqBuilder { .. }"@,
    {
        "IfReqBuilder { .. }"
    }

    /// The request built so far.
    pub fn build(self) -> (ifreq: IfReq)
        ensures
            ifreq@ == self@,
    {
        self.0
    }
}

/// `std::fmt::Formatter`, where a text to print goes.
#[verifier::external_type_specification]
#[verifier::external_body]
pub struct ExFormatter<'a>(std::fmt::Formatter<'a>);

/// `std::fmt::Error`, which says that a text could not be printed.
#[verifier::external_type_specification]
#[verifier::external_body]
pub struct ExFmtError(std::fmt::Error);

/// `std::fmt::Formatter::write_str`: hands a text to the writer below the formatter. Nothing is
/// claimed of it, since what becomes of the text, and whether it is taken, is for that writer to
/// decide.
pub assume_specification<'a>[ std::fmt::Formatter::<'a>::write_str ](
    f: &mut std::fmt::Formatter<'a>,
    data: &str,
) -> (res: std::fmt::Result)
;

impl std::fmt::Debug for IfReqBuilder {
    /// Prints [`IfReqBuilder::debug_text`], and nothing else.
    fn fmt(&self, f: &mut std::fmt::Formatter<'_>) -> (res: std::fmt::Result) {
        f.write_str(self.debug_text())
    }
}

/// `std::str::Utf8Error`, which tells why bytes are no UTF-8.
#[verifier::external_type_specification]
#[verifier::external_body]
pub struct ExUtf8Error(std::str::Utf8Error);

/// `std::str::from_utf8`: bytes that are valid UTF-8 are handed back as the string
/// that they encode, and all others are refused.
pub assume_specification[ std::str::from_utf8 ](v: &[u8]) -> (res: Result<
    &str,
    std::str::Utf8Error,
>)
    ensures
        match res {
            Ok(text) => valid_utf8(v@) && text.spec_bytes() == v@,
            Err(_) => !valid_utf8(v@),
        },
;

/// The text of an interface name: the bytes before the first null, or all of them
/// if there is none. Bytes that are no UTF-8 have the empty text.
pub open spec fn if_name_text(name: Seq<u8>) -> Seq<char> {
    let bytes = text::before_first(name, 0u8);
    if valid_utf8(bytes) {
        decode_utf8(bytes)
    } else {
        Seq::empty()
    }
}

/// The text of an interface name.
pub fn read_if_name(name: &[u8; IFACE_NAME_MAX_LEN]) -> (res: &str)
    ensures
        res@ == if_name_text(name@),
{
    let mut len: usize = 0;
    while len < IFACE_NAME_MAX_LEN && name[len] != 0
        invariant
            len <= IFACE_NAME_MAX_LEN,
            forall|i: int| 0 <= i < len ==> name@[i] != 0,
        decreases IFACE_NAME_MAX_LEN - len,
    {
        len = len + 1;
    }
    proof {
        text::lemma_before_first(name@, 0u8, len as int);
    }
    let bytes: &[u8] = vstd::slice::slice_subrange(name.as_slice(), 0, len);
    match std::str::from_utf8(bytes) {
        Ok(res) => {
            proof {
                encode_utf8_decode_utf8(res@);
            }
            res
        },
        Err(_) => {
            proof {
                reveal_strlit("");
                assert(""@ =~= Seq::<char>::empty());
            }
            ""
        },
    }
}

/// A name that is built and then read is the same up to its first null character.
pub proof fn law_name_round_trip_up_to_null(if_name: Seq<char>)
    requires
        fits(if_name),
    ensures
        if_name_text(terminated(encode_utf8(if_name))) == text::before_first(if_name, '\0'),
{
    let head = text::before_first(if_name, '\0');
    text::lemma_before_first_cuts(if_name, '\0');
    let tail = if_name.skip(head.len() as int);
    assert(if_name =~= head + tail);
    text::lemma_encode_concat(head, tail);
    let bytes = encode_utf8(head);
    let name = terminated(encode_utf8(if_name));
    assert forall|i: int| 0 <= i < bytes.len() implies name[i] != 0 by {
        assert(name[i] == bytes[i]);
        if bytes[i] == 0 {
            text::lemma_ascii_byte_is_char(head, i, '\0');
        }
    }
    if tail.len() > 0 {
        text::lemma_first_ascii(tail, '\0');
    }
    text::lemma_before_first(name, 0u8, bytes.len() as int);
    assert(name.take(bytes.len() as int) =~= bytes);
    encode_utf8_valid_utf8(head);
    encode_utf8_decode_utf8(head);
}

/// A name without a null character that is built and then read is unchanged.
pub proof fn law_name_round_trip(if_name: Seq<char>)
    requires
        fits(if_name),
        !if_name.contains('\0'),
    ensures
        if_name_text(terminated(encode_utf8(if_name))) == if_name,
{
    law_name_round_trip_up_to_null(if_name);
    text::lemma_before_first(if_name, '\0', if_name.len() as int);
    assert(if_name.take(if_name.len() as int) =~= if_name);
}

/// The flags of a queue are the three bits of the Linux user-space API.
pub proof fn law_queue_flags()
    ensures
        queue_flags() == 0x5002,
{
    assert(0x0002i16 | 0x1000i16 | 0x4000i16 == 0x5002i16) by (bit_vector);
}

} // verus!
