//! Request numbers of the `/dev/tuxedo_io` Uniwill interface.
//!
//! A request is encoded as Linux encodes every ioctl: direction, argument size, type and
//! number, in 2, 14, 8 and 8 bits. The driver declares its arguments as pointers, so the
//! encoded size is that of a pointer on a 64-bit machine.

use vstd::prelude::*;

verus! {

/// The call carries no argument.
pub const DIR_NONE: u32 = 0;

/// The driver reads the argument.
pub const DIR_WRITE: u32 = 1;

/// The driver fills the argument.
pub const DIR_READ: u32 = 2;

/// Size of the argument: a pointer.
pub const PTR: u32 = 8;

/// Type of the general requests.
pub const MAGIC: u32 = 0xEC;

/// Type of the Uniwill requests that read.
pub const RD_UW: u32 = 0xEF;

/// Type of the Uniwill requests that write.
pub const WR_UW: u32 = 0xF0;

/// Module version string.
pub const R_MOD_VERSION: u64 = 0x8008_EC00;

/// 1 on Uniwill hardware.
pub const R_HWCHECK_UW: u64 = 0x8008_EC06;

/// Model id (EC RAM 0x0740).
pub const R_UW_MODEL_ID: u64 = 0x8008_EF01;

/// CPU fan duty, raw.
pub const R_UW_FANSPEED: u64 = 0x8008_EF10;

/// GPU fan duty, raw.
pub const R_UW_FANSPEED2: u64 = 0x8008_EF11;

/// CPU temperature in degrees Celsius.
pub const R_UW_FAN_TEMP: u64 = 0x8008_EF12;

/// GPU temperature in degrees Celsius.
pub const R_UW_FAN_TEMP2: u64 = 0x8008_EF13;

/// EC RAM 0x0751: fan ownership and performance bits.
pub const R_UW_MODE: u64 = 0x8008_EF14;

/// Whether the fans may be switched off.
pub const R_UW_FANS_OFF_AVAILABLE: u64 = 0x8008_EF16;

/// Lowest duty in percent at which a fan runs.
pub const R_UW_FANS_MIN_SPEED: u64 = 0x8008_EF17;

/// Number of performance profiles.
pub const R_UW_PROFS_AVAILABLE: u64 = 0x8008_EF21;

/// Sets the CPU fan duty, raw.
pub const W_UW_FANSPEED: u64 = 0x4008_F010;

/// Sets the GPU fan duty, raw.
pub const W_UW_FANSPEED2: u64 = 0x4008_F011;

/// Writes EC RAM 0x0751.
pub const W_UW_MODE: u64 = 0x4008_F012;

/// Hands the fans back to the EC.
pub const W_UW_FANAUTO: u64 = 0xF014;

/// Sets the performance profile.
pub const W_UW_PERF_PROF: u64 = 0x4008_F018;

/// The number of a request whose fields fit their bits.
pub open spec fn request(dir: u32, ty: u32, nr: u32, size: u32) -> int {
    dir * 0x4000_0000 + size * 0x1_0000 + ty * 0x100 + nr
}

/// Encodes a request.
pub fn ioc(dir: u32, ty: u32, nr: u32, size: u32) -> (r: u64)
    ensures
        r == ((dir << 30u32) | (ty << 8u32) | nr | (size << 16u32)),
        dir < 4 && ty < 0x100 && nr < 0x100 && size < 0x4000 ==> r == request(dir, ty, nr, size),
{
    let r: u32 = (dir << 30u32) | (ty << 8u32) | nr | (size << 16u32);
    assert(dir < 4 && ty < 0x100 && nr < 0x100 && size < 0x4000 ==> ((dir << 30u32) | (ty << 8u32)
        | nr | (size << 16u32)) == dir * 0x4000_0000 + size * 0x1_0000 + ty * 0x100 + nr)
        by (bit_vector);
    r as u64
}

/// Encodes a request that reads.
pub fn ior(ty: u32, nr: u32) -> (r: u64)
    ensures
        r == ((DIR_READ << 30u32) | (ty << 8u32) | nr | (PTR << 16u32)),
        ty < 0x100 && nr < 0x100 ==> r == request(DIR_READ, ty, nr, PTR),
{
    ioc(DIR_READ, ty, nr, PTR)
}

/// Encodes a request that writes.
pub fn iow(ty: u32, nr: u32) -> (r: u64)
    ensures
        r == ((DIR_WRITE << 30u32) | (ty << 8u32) | nr | (PTR << 16u32)),
        ty < 0x100 && nr < 0x100 ==> r == request(DIR_WRITE, ty, nr, PTR),
{
    ioc(DIR_WRITE, ty, nr, PTR)
}

/// Every request constant is the encoding of its direction, type and number.
pub proof fn request_numbers()
    ensures
        RD_UW == MAGIC + 3,
        WR_UW == MAGIC + 4,
        R_MOD_VERSION == request(DIR_READ, MAGIC, 0x00, PTR),
        R_HWCHECK_UW == request(DIR_READ, MAGIC, 0x06, PTR),
        R_UW_MODEL_ID == request(DIR_READ, RD_UW, 0x01, PTR),
        R_UW_FANSPEED == request(DIR_READ, RD_UW, 0x10, PTR),
        R_UW_FANSPEED2 == request(DIR_READ, RD_UW, 0x11, PTR),
        R_UW_FAN_TEMP == request(DIR_READ, RD_UW, 0x12, PTR),
        R_UW_FAN_TEMP2 == request(DIR_READ, RD_UW, 0x13, PTR),
        R_UW_MODE == request(DIR_READ, RD_UW, 0x14, PTR),
        R_UW_FANS_OFF_AVAILABLE == request(DIR_READ, RD_UW, 0x16, PTR),
        R_UW_FANS_MIN_SPEED == request(DIR_READ, RD_UW, 0x17, PTR),
        R_UW_PROFS_AVAILABLE == request(DIR_READ, RD_UW, 0x21, PTR),
        W_UW_FANSPEED == request(DIR_WRITE, WR_UW, 0x10, PTR),
        W_UW_FANSPEED2 == request(DIR_WRITE, WR_UW, 0x11, PTR),
        W_UW_MODE == request(DIR_WRITE, WR_UW, 0x12, PTR),
        W_UW_FANAUTO == request(DIR_NONE, WR_UW, 0x14, 0),
        W_UW_PERF_PROF == request(DIR_WRITE, WR_UW, 0x18, PTR),
{
}

/// The fields of a request can be read back from its number: two requests with one number are
/// one request.
pub proof fn fields_are_recoverable(dir: u32, ty: u32, nr: u32, size: u32)
    requires
        dir < 4,
        ty < 0x100,
        nr < 0x100,
        size < 0x4000,
    ensures
        0 <= request(dir, ty, nr, size) <= 0xFFFF_FFFF,
        request(dir, ty, nr, size) % 0x100 == nr,
        request(dir, ty, nr, size) / 0x100 % 0x100 == ty,
        request(dir, ty, nr, size) / 0x1_0000 % 0x4000 == size,
        request(dir, ty, nr, size) / 0x4000_0000 == dir,
{
}

/// The fields that every request is put together from.
pub proof fn request_fields()
    ensures
        DIR_NONE == 0 && DIR_WRITE == 1 && DIR_READ == 2,
        PTR == 8,
        MAGIC == 0xEC,
{
}

} // verus!
