//! The request numbers of the tun/tap `ioctl` calls.

use vstd::prelude::*;

verus! {

/// The `ioctl` type of the tun/tap driver.
pub const TUNTAP: u32 = 84;

/// The direction of an `ioctl` whose argument the kernel reads.
pub const IOC_WRITE: u32 = 1;

/// The direction of an `ioctl` whose argument the kernel fills in.
pub const IOC_READ: u32 = 2;

/// The number of bytes of a C `int` or `unsigned int`.
pub const C_INT_SIZE: u32 = 4;

/// The number that stands for an `ioctl`: the direction in the bits from 30 on,
/// the size of the argument in those from 16 on, the type in those from 8 on and
/// the number of the command in the lowest ones.
pub open spec fn request_number(dir: u32, ty: u32, nr: u32, size: u32) -> u64 {
    ((dir << 30) | (ty << 8) | nr | (size << 16)) as u64
}

/// Calls `vmm_sys_util::ioctl::ioctl_expr`, of which it claims that the four
/// parts are shifted to their places as 32-bit numbers, the bits that do not fit
/// being lost, and joined by `or`.
#[verifier::external_body]
fn ioctl_expr(dir: u32, ty: u32, nr: u32, size: u32) -> (number: u64)
    ensures
        number == request_number(dir, ty, nr, size),
{
    u64::from(vmm_sys_util::ioctl::ioctl_expr(dir, ty, nr, size))
}

/// The request that attaches a queue to an interface.
pub open spec fn spec_tunsetiff() -> u64 {
    request_number(IOC_WRITE, TUNTAP, 202, C_INT_SIZE)
}

/// The request that attaches a queue to an interface.
#[verifier::when_used_as_spec(spec_tunsetiff)]
pub fn tunsetiff() -> (number: u64)
    ensures
        number == tunsetiff(),
        number == 0x4004_54ca,
{
    proof {
        assert(request_number(1, 84, 202, 4) == 0x4004_54ca) by (bit_vector);
    }
    ioctl_expr(IOC_WRITE, TUNTAP, 202, C_INT_SIZE)
}

/// The request that sets the offload flags of a queue.
pub open spec fn spec_tunsetoffload() -> u64 {
    request_number(IOC_WRITE, TUNTAP, 208, C_INT_SIZE)
}

/// The request that sets the offload flags of a queue.
#[verifier::when_used_as_spec(spec_tunsetoffload)]
pub fn tunsetoffload() -> (number: u64)
    ensures
        number == tunsetoffload(),
        number == 0x4004_54d0,
{
    proof {
        assert(request_number(1, 84, 208, 4) == 0x4004_54d0) by (bit_vector);
    }
    ioctl_expr(IOC_WRITE, TUNTAP, 208, C_INT_SIZE)
}

/// The request that sets the size of the vnet header of a queue.
pub open spec fn spec_tunsetvnethdrsz() -> u64 {
    request_number(IOC_WRITE, TUNTAP, 216, C_INT_SIZE)
}

/// The request that sets the size of the vnet header of a queue.
#[verifier::when_used_as_spec(spec_tunsetvnethdrsz)]
pub fn tunsetvnethdrsz() -> (number: u64)
    ensures
        number == tunsetvnethdrsz(),
        number == 0x4004_54d8,
{
    proof {
        assert(request_number(1, 84, 216, 4) == 0x4004_54d8) by (bit_vector);
    }
    ioctl_expr(IOC_WRITE, TUNTAP, 216, C_INT_SIZE)
}

/// The request that asks for the interface and the flags of a queue.
pub open spec fn spec_tungetiff() -> u64 {
    request_number(IOC_READ, TUNTAP, 210, C_INT_SIZE)
}

/// The request that asks for the interface and the flags of a queue.
#[verifier::when_used_as_spec(spec_tungetiff)]
pub fn tungetiff() -> (number: u64)
    ensures
        number == tungetiff(),
        number == 0x8004_54d2,
{
    proof {
        assert(request_number(2, 84, 210, 4) == 0x8004_54d2) by (bit_vector);
    }
    ioctl_expr(IOC_READ, TUNTAP, 210, C_INT_SIZE)
}

/// The request numbers are those of the Linux user-space API.
pub proof fn law_request_numbers()
    ensures
        tunsetiff() == 0x4004_54ca,
        tunsetoffload() == 0x4004_54d0,
        tunsetvnethdrsz() == 0x4004_54d8,
        tungetiff() == 0x8004_54d2,
{
    assert(request_number(1, 84, 202, 4) == 0x4004_54ca) by (bit_vector);
    assert(request_number(1, 84, 208, 4) == 0x4004_54d0) by (bit_vector);
    assert(request_number(1, 84, 216, 4) == 0x4004_54d8) by (bit_vector);
    assert(request_number(2, 84, 210, 4) == 0x8004_54d2) by (bit_vector);
}

} // verus!
