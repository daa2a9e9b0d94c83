//! Driver for the ICM-42670-P six-axis inertial unit.
//!
//! The driver owns one bus handle and one device address, chosen by the
//! AD0 strap pin. Every operation is built from the register protocol:
//! a register read is one combined transaction that writes the one-byte
//! register offset and reads one byte back; a register write is one
//! transaction that writes the offset and the value. Multi-byte samples
//! are read one register at a time and combined least-significant byte
//! first.
//!
//! Constructing a driver never touches the bus, so construction cannot
//! fail on a transient bus error. Whether the device at the address is
//! really the expected part is the caller's check: read the identity
//! register and compare against [`DEVICE_ID`]. No operation retries
//! internally; every bus failure propagates at once to the caller, who
//! owns any retry policy.

use vstd::prelude::*;

use crate::bus::BusArbiter;
use crate::bus::BusHandle;
use crate::bus::Channel;
use crate::bus::Transaction;
use crate::bus::TransportError;

verus! {

/// The identity byte the device reports from its `WhoAmI` register. A
/// different byte means wrong wiring or a different part; the driver
/// does not check this itself.
pub const DEVICE_ID: u8 = 0x67;

/// The largest raw magnitude of one axis; a physical value is the raw
/// sample times the full-scale range divided by this.
pub const MAX_RAW_MAGNITUDE: u16 = 32767;

/// The two 7-bit device addresses, selected by the AD0 strap pin.
#[derive(Clone, Copy, Debug, PartialEq, Eq, Structural)]
pub enum DeviceAddr {
    /// AD0 strapped low: address 0x68.
    AD0,
    /// AD0 strapped high: address 0x69.
    AD1,
}

impl DeviceAddr {
    /// The 7-bit address on the wire.
    pub open spec fn value_spec(&self) -> u8 {
        match self {
            DeviceAddr::AD0 => 0x68,
            DeviceAddr::AD1 => 0x69,
        }
    }

    /// The 7-bit address on the wire.
    pub fn value(&self) -> (r: u8)
        ensures
            r == self.value_spec(),
    {
        match self {
            DeviceAddr::AD0 => 0x68,
            DeviceAddr::AD1 => 0x69,
        }
    }
}

/// The device's registers. Each variant is one byte wide and has
/// exactly one offset; adding a register is a compiler-checked change
/// because the offset map matches on every variant.
#[derive(Clone, Copy, Debug, PartialEq, Eq, Structural)]
pub enum Register {
    /// Clock-ready status.
    MclkRdy,
    /// Identity register; reads as [`DEVICE_ID`] on the expected part.
    WhoAmI,
    /// Accelerometer configuration; holds the range-select field.
    AccelConfig0,
    /// Interrupt pin configuration.
    IntConfig,
    /// Temperature, high byte.
    TempData1,
    /// Temperature, low byte.
    TempData0,
    /// Accelerometer X axis, high byte.
    AccelDataX1,
    /// Accelerometer X axis, low byte.
    AccelDataX0,
    /// Accelerometer Y axis, high byte.
    AccelDataY1,
    /// Accelerometer Y axis, low byte.
    AccelDataY0,
    /// Accelerometer Z axis, high byte.
    AccelDataZ1,
    /// Accelerometer Z axis, low byte.
    AccelDataZ0,
    /// Gyroscope X axis, high byte.
    GyroDataX1,
    /// Gyroscope X axis, low byte.
    GyroDataX0,
    /// Gyroscope Y axis, high byte.
    GyroDataY1,
    /// Gyroscope Y axis, low byte.
    GyroDataY0,
    /// Gyroscope Z axis, high byte.
    GyroDataZ1,
    /// Gyroscope Z axis, low byte.
    GyroDataZ0,
}

impl Register {
    /// The register's offset within the device.
    pub open spec fn addr_spec(&self) -> u8 {
        match self {
            Register::MclkRdy => 0x00,
            Register::WhoAmI => 0x75,
            Register::AccelConfig0 => 0x21,
            Register::IntConfig => 0x06,
            Register::TempData1 => 0x09,
            Register::TempData0 => 0x0A,
            Register::AccelDataX1 => 0x0B,
            Register::AccelDataX0 => 0x0C,
            Register::AccelDataY1 => 0x0D,
            Register::AccelDataY0 => 0x0E,
            Register::AccelDataZ1 => 0x0F,
            Register::AccelDataZ0 => 0x10,
            Register::GyroDataX1 => 0x11,
            Register::GyroDataX0 => 0x12,
            Register::GyroDataY1 => 0x13,
            Register::GyroDataY0 => 0x14,
            Register::GyroDataZ1 => 0x15,
            Register::GyroDataZ0 => 0x16,
        }
    }

    /// The register's offset within the device.
    pub fn address(&self) -> (r: u8)
        ensures
            r == self.addr_spec(),
    {
        match self {
            Register::MclkRdy => 0x00,
            Register::WhoAmI => 0x75,
            Register::AccelConfig0 => 0x21,
            Register::IntConfig => 0x06,
            Register::TempData1 => 0x09,
            Register::TempData0 => 0x0A,
            Register::AccelDataX1 => 0x0B,
            Register::AccelDataX0 => 0x0C,
            Register::AccelDataY1 => 0x0D,
            Register::AccelDataY0 => 0x0E,
            Register::AccelDataZ1 => 0x0F,
            Register::AccelDataZ0 => 0x10,
            Register::GyroDataX1 => 0x11,
            Register::GyroDataX0 => 0x12,
            Register::GyroDataY1 => 0x13,
            Register::GyroDataY0 => 0x14,
            Register::GyroDataZ1 => 0x15,
            Register::GyroDataZ0 => 0x16,
        }
    }
}

/// The accelerometer's full-scale range, decoded from the two
/// range-select bits of `AccelConfig0`. Every byte the register can
/// hold maps to exactly one variant: the mapping is total, with no
/// sentinel for impossible patterns.
#[derive(Clone, Copy, Debug, PartialEq, Eq, Structural)]
pub enum RangeSetting {
    /// Full scale plus or minus 2 g.
    G2,
    /// Full scale plus or minus 4 g.
    G4,
    /// Full scale plus or minus 8 g.
    G8,
    /// Full scale plus or minus 16 g.
    G16,
}

/// The total decoding of a configuration byte's range-select bits
/// (mask 0x30).
pub open spec fn range_of(cfg: u8) -> RangeSetting {
    if cfg & 0x30 == 0x00 {
        RangeSetting::G16
    } else if cfg & 0x30 == 0x10 {
        RangeSetting::G8
    } else if cfg & 0x30 == 0x20 {
        RangeSetting::G4
    } else {
        RangeSetting::G2
    }
}

impl RangeSetting {
    /// The full-scale magnitude in g.
    pub open spec fn full_scale_spec(&self) -> u8 {
        match self {
            RangeSetting::G2 => 2,
            RangeSetting::G4 => 4,
            RangeSetting::G8 => 8,
            RangeSetting::G16 => 16,
        }
    }

    /// The full-scale magnitude in g.
    pub fn full_scale(&self) -> (r: u8)
        ensures
            r == self.full_scale_spec(),
    {
        match self {
            RangeSetting::G2 => 2,
            RangeSetting::G4 => 4,
            RangeSetting::G8 => 8,
            RangeSetting::G16 => 16,
        }
    }

    /// Decode a configuration byte. The four possible patterns of the
    /// range-select field each map to their documented full scale; no
    /// other pattern exists, as [`lemma_range_decode_total`] shows.
    pub fn from_config(cfg: u8) -> (r: RangeSetting)
        ensures
            r == range_of(cfg),
            cfg & 0x30 == 0x00 ==> r == RangeSetting::G16,
            cfg & 0x30 == 0x10 ==> r == RangeSetting::G8,
            cfg & 0x30 == 0x20 ==> r == RangeSetting::G4,
            cfg & 0x30 == 0x30 ==> r == RangeSetting::G2,
    {
        let bits = cfg & 0x30;
        if bits == 0x00 {
            RangeSetting::G16
        } else if bits == 0x10 {
            RangeSetting::G8
        } else if bits == 0x20 {
            RangeSetting::G4
        } else {
            RangeSetting::G2
        }
    }
}

/// The range-select field can only hold one of its four patterns, so
/// the decoding in [`range_of`] covers every byte the register can
/// produce: totality is by exhaustiveness, not by a runtime sentinel.
pub proof fn lemma_range_decode_total(cfg: u8)
    ensures
        cfg & 0x30 == 0x00 || cfg & 0x30 == 0x10 || cfg & 0x30 == 0x20 || cfg & 0x30 == 0x30,
{
    assert(cfg & 0x30 == 0x00 || cfg & 0x30 == 0x10 || cfg & 0x30 == 0x20 || cfg & 0x30 == 0x30)
        by (bit_vector);
}

/// One signed 16-bit sample per axis, assembled from a low and a high
/// register byte each.
#[derive(Clone, Copy, Debug, PartialEq, Eq, Structural)]
pub struct RawSample {
    /// X axis.
    pub x: i16,
    /// Y axis.
    pub y: i16,
    /// Z axis.
    pub z: i16,
}

/// A raw sample together with the full-scale range that was current
/// when it was read. The physical value of an axis, in g, is its
/// scaled numerator divided by [`MAX_RAW_MAGNITUDE`]; the numerators
/// are exact, so no precision is lost inside the library.
#[derive(Clone, Copy, Debug, PartialEq, Eq, Structural)]
pub struct PhysicalSample {
    /// The raw axis samples.
    pub raw: RawSample,
    /// The range they are to be scaled by.
    pub range: RangeSetting,
}

/// The exact numerator of an axis's physical value: raw times full
/// scale, over the implicit denominator [`MAX_RAW_MAGNITUDE`].
pub open spec fn scaled_num_spec(raw: i16, range: RangeSetting) -> int {
    raw * range.full_scale_spec()
}

/// A raw axis value scaled by a full-scale magnitude of at most 16
/// stays well within 32 bits.
proof fn lemma_scaled_num_fits(a: int, b: int)
    requires
        -32768 <= a <= 32767,
        0 <= b <= 16,
    ensures
        -524288 <= a * b <= 524272,
{
    assert(-524288 <= a * b <= 524272) by (nonlinear_arith)
        requires
            -32768 <= a <= 32767,
            0 <= b <= 16,
    ;
}

impl PhysicalSample {
    /// The X axis numerator over [`MAX_RAW_MAGNITUDE`].
    pub fn x_numerator(&self) -> (r: i32)
        ensures
            r == scaled_num_spec(self.raw.x, self.range),
    {
        proof {
            lemma_scaled_num_fits(self.raw.x as int, self.range.full_scale_spec() as int);
        }
        (self.raw.x as i32) * (self.range.full_scale() as i32)
    }

    /// The Y axis numerator over [`MAX_RAW_MAGNITUDE`].
    pub fn y_numerator(&self) -> (r: i32)
        ensures
            r == scaled_num_spec(self.raw.y, self.range),
    {
        proof {
            lemma_scaled_num_fits(self.raw.y as int, self.range.full_scale_spec() as int);
        }
        (self.raw.y as i32) * (self.range.full_scale() as i32)
    }

    /// The Z axis numerator over [`MAX_RAW_MAGNITUDE`].
    pub fn z_numerator(&self) -> (r: i32)
        ensures
            r == scaled_num_spec(self.raw.z, self.range),
    {
        proof {
            lemma_scaled_num_fits(self.raw.z as int, self.range.full_scale_spec() as int);
        }
        (self.raw.z as i32) * (self.range.full_scale() as i32)
    }
}

/// The signed 16-bit value whose little-endian bytes are `lo`, `hi`.
pub open spec fn i16_le_spec(lo: u8, hi: u8) -> i16 {
    if hi < 128 {
        (lo + 256 * hi) as i16
    } else {
        (lo + 256 * hi - 65536) as i16
    }
}

/// Combine a low and a high byte, little endian, into a signed 16-bit
/// value.
pub fn i16_from_le(lo: u8, hi: u8) -> (r: i16)
    ensures
        r == i16_le_spec(lo, hi),
        r as int == if hi < 128 {
            lo + 256 * hi
        } else {
            lo + 256 * hi - 65536
        },
{
    let v: i32 = lo as i32 + 256 * (hi as i32);
    if hi < 128 {
        v as i16
    } else {
        (v - 65536) as i16
    }
}

/// The record of one register read on the wire: write the one-byte
/// offset, read one byte back.
pub open spec fn read_txn(
    dev: u8,
    off: u8,
    outcome: Result<Seq<u8>, TransportError>,
) -> Transaction {
    Transaction { addr: dev, wrote: seq![off], read_len: 1, outcome }
}

/// The record of one register write on the wire: write the offset and
/// the value as a single two-byte payload, read nothing.
pub open spec fn write_txn(
    dev: u8,
    off: u8,
    value: u8,
    outcome: Result<Seq<u8>, TransportError>,
) -> Transaction {
    Transaction { addr: dev, wrote: seq![off, value], read_len: 0, outcome }
}

/// The sample decoded from the six axis bytes and the configuration
/// byte read along with them.
pub open spec fn sample_spec(
    x0: u8,
    x1: u8,
    y0: u8,
    y1: u8,
    z0: u8,
    z1: u8,
    cfg: u8,
) -> PhysicalSample {
    PhysicalSample {
        raw: RawSample {
            x: i16_le_spec(x0, x1),
            y: i16_le_spec(y0, y1),
            z: i16_le_spec(z0, z1),
        },
        range: range_of(cfg),
    }
}

/// The trace of a successful sample read: the six axis registers, low
/// byte before high byte for X, Y and Z in turn, then the
/// configuration register for the freshest range, each in one
/// transaction; the result is exactly the decoding of the bytes the
/// channel answered.
pub open spec fn accel_read_trace(
    dev: u8,
    pre: Seq<Transaction>,
    post: Seq<Transaction>,
    s: PhysicalSample,
) -> bool {
    exists|x0: u8, x1: u8, y0: u8, y1: u8, z0: u8, z1: u8, cfg: u8|
        post == pre + seq![
            read_txn(dev, Register::AccelDataX0.addr_spec(), Ok(seq![x0])),
            read_txn(dev, Register::AccelDataX1.addr_spec(), Ok(seq![x1])),
            read_txn(dev, Register::AccelDataY0.addr_spec(), Ok(seq![y0])),
            read_txn(dev, Register::AccelDataY1.addr_spec(), Ok(seq![y1])),
            read_txn(dev, Register::AccelDataZ0.addr_spec(), Ok(seq![z0])),
            read_txn(dev, Register::AccelDataZ1.addr_spec(), Ok(seq![z1])),
            read_txn(dev, Register::AccelConfig0.addr_spec(), Ok(seq![cfg])),
        ] && s == #[trigger] sample_spec(x0, x1, y0, y1, z0, z1, cfg)
}

/// The driver: one bus handle, one device address, both fixed at
/// construction.
#[derive(Clone, Copy, Debug, PartialEq, Eq, Structural)]
pub struct ICM42670P {
    /// The capability onto the shared bus.
    pub handle: BusHandle,
    /// The device address chosen by the AD0 strap pin.
    pub address: DeviceAddr,
}

impl ICM42670P {
    /// Create a driver for the device at `address`, taking ownership of
    /// the handle. The bus is not touched, so this cannot fail on a bus
    /// error; verifying the device's identity is the caller's explicit
    /// step.
    pub fn new(handle: BusHandle, address: DeviceAddr) -> (r: Result<Self, TransportError>)
        ensures
            r == Ok::<ICM42670P, TransportError>((ICM42670P { handle, address })),
    {
        Ok(ICM42670P { handle, address })
    }

    /// Read one register: a single combined transaction that writes the
    /// register's offset and reads one byte.
    pub fn read_register<C: Channel>(
        &self,
        bus: &mut BusArbiter<C>,
        register: Register,
    ) -> (r: Result<u8, TransportError>)
        requires
            old(bus).inv(),
        ensures
            final(bus).inv(),
            final(bus).handles_issued() == old(bus).handles_issued(),
            match r {
                Ok(b) => final(bus).history() == old(bus).history().push(
                    read_txn(self.address.value_spec(), register.addr_spec(), Ok(seq![b])),
                ),
                Err(e) => final(bus).history() == old(bus).history().push(
                    read_txn(self.address.value_spec(), register.addr_spec(), Err(e)),
                ),
            },
    {
        let mut offset: Vec<u8> = Vec::new();
        offset.push(register.address());
        proof {
            assert(offset@ =~= seq![register.addr_spec()]);
        }
        match bus.transact(&self.handle, self.address.value(), &offset, 1) {
            Ok(data) => {
                let b = data[0];
                proof {
                    assert(data@ =~= seq![b]);
                }
                Ok(b)
            },
            Err(e) => Err(e),
        }
    }

    /// Write one register: a single transaction whose payload is the
    /// register's offset followed by the value.
    pub fn write_register<C: Channel>(
        &self,
        bus: &mut BusArbiter<C>,
        register: Register,
        value: u8,
    ) -> (r: Result<(), TransportError>)
        requires
            old(bus).inv(),
        ensures
            final(bus).inv(),
            final(bus).handles_issued() == old(bus).handles_issued(),
            match r {
                Ok(_) => final(bus).history() == old(bus).history().push(
                    write_txn(
                        self.address.value_spec(),
                        register.addr_spec(),
                        value,
                        Ok(Seq::<u8>::empty()),
                    ),
                ),
                Err(e) => final(bus).history() == old(bus).history().push(
                    write_txn(self.address.value_spec(), register.addr_spec(), value, Err(e)),
                ),
            },
    {
        let mut payload: Vec<u8> = Vec::new();
        payload.push(register.address());
        payload.push(value);
        proof {
            assert(payload@ =~= seq![register.addr_spec(), value]);
        }
        match bus.transact(&self.handle, self.address.value(), &payload, 0) {
            Ok(data) => {
                proof {
                    assert(data@ =~= Seq::<u8>::empty());
                }
                Ok(())
            },
            Err(e) => Err(e),
        }
    }

    /// Read the identity register. The caller compares the byte against
    /// [`DEVICE_ID`]; a mismatch is the caller's initialization failure,
    /// not an error raised here.
    pub fn read_device_id_register<C: Channel>(&self, bus: &mut BusArbiter<C>) -> (r: Result<
        u8,
        TransportError,
    >)
        requires
            old(bus).inv(),
        ensures
            final(bus).inv(),
            final(bus).handles_issued() == old(bus).handles_issued(),
            match r {
                Ok(b) => final(bus).history() == old(bus).history().push(
                    read_txn(
                        self.address.value_spec(),
                        Register::WhoAmI.addr_spec(),
                        Ok(seq![b]),
                    ),
                ),
                Err(e) => final(bus).history() == old(bus).history().push(
                    read_txn(self.address.value_spec(), Register::WhoAmI.addr_spec(), Err(e)),
                ),
            },
    {
        self.read_register(bus, Register::WhoAmI)
    }

    /// Read the configuration register and decode the current
    /// full-scale range. Whatever byte the device answers decodes to
    /// exactly one range.
    pub fn read_accel_range<C: Channel>(&self, bus: &mut BusArbiter<C>) -> (r: Result<
        RangeSetting,
        TransportError,
    >)
        requires
            old(bus).inv(),
        ensures
            final(bus).inv(),
            final(bus).handles_issued() == old(bus).handles_issued(),
            match r {
                Ok(rs) => exists|cfg: u8|
                    final(bus).history() == old(bus).history().push(
                        read_txn(
                            self.address.value_spec(),
                            Register::AccelConfig0.addr_spec(),
                            Ok(seq![cfg]),
                        ),
                    ) && rs == #[trigger] range_of(cfg),
                Err(e) => final(bus).history() == old(bus).history().push(
                    read_txn(
                        self.address.value_spec(),
                        Register::AccelConfig0.addr_spec(),
                        Err(e),
                    ),
                ),
            },
    {
        match self.read_register(bus, Register::AccelConfig0) {
            Ok(cfg) => {
                let rs = RangeSetting::from_config(cfg);
                proof {
                    assert(rs == range_of(cfg));
                }
                Ok(rs)
            },
            Err(e) => Err(e),
        }
    }

    /// Read one full sample: the six axis registers, low byte then high
    /// byte per axis, then the configuration register, so the scale
    /// used is whatever range is current at the moment of the read —
    /// the range is never cached. On success the result is exactly the
    /// little-endian decoding of the six bytes, scaled by the decoded
    /// range; on failure the error of the failing transaction is
    /// returned at once, with at most seven transactions on the wire.
    pub fn read_accel<C: Channel>(&self, bus: &mut BusArbiter<C>) -> (r: Result<
        PhysicalSample,
        TransportError,
    >)
        requires
            old(bus).inv(),
        ensures
            final(bus).inv(),
            final(bus).handles_issued() == old(bus).handles_issued(),
            r matches Ok(s) ==> accel_read_trace(
                self.address.value_spec(),
                old(bus).history(),
                final(bus).history(),
                s,
            ),
            r matches Err(e) ==> old(bus).history().len() < final(bus).history().len()
                <= old(bus).history().len() + 7 && final(bus).history().last().outcome
                == Err::<Seq<u8>, TransportError>(e),
    {
        let ghost pre = old(bus).history();
        let x0 = self.read_register(bus, Register::AccelDataX0)?;
        let x1 = self.read_register(bus, Register::AccelDataX1)?;
        let y0 = self.read_register(bus, Register::AccelDataY0)?;
        let y1 = self.read_register(bus, Register::AccelDataY1)?;
        let z0 = self.read_register(bus, Register::AccelDataZ0)?;
        let z1 = self.read_register(bus, Register::AccelDataZ1)?;
        let cfg = self.read_register(bus, Register::AccelConfig0)?;
        let raw = RawSample {
            x: i16_from_le(x0, x1),
            y: i16_from_le(y0, y1),
            z: i16_from_le(z0, z1),
        };
        let sample = PhysicalSample { raw, range: RangeSetting::from_config(cfg) };
        proof {
            let dev = self.address.value_spec();
            assert(final(bus).history() =~= pre + seq![
                read_txn(dev, Register::AccelDataX0.addr_spec(), Ok(seq![x0])),
                read_txn(dev, Register::AccelDataX1.addr_spec(), Ok(seq![x1])),
                read_txn(dev, Register::AccelDataY0.addr_spec(), Ok(seq![y0])),
                read_txn(dev, Register::AccelDataY1.addr_spec(), Ok(seq![y1])),
                read_txn(dev, Register::AccelDataZ0.addr_spec(), Ok(seq![z0])),
                read_txn(dev, Register::AccelDataZ1.addr_spec(), Ok(seq![z1])),
                read_txn(dev, Register::AccelConfig0.addr_spec(), Ok(seq![cfg])),
            ]);
            assert(sample == sample_spec(x0, x1, y0, y1, z0, z1, cfg));
        }
        Ok(sample)
    }
}

/// Whether an identity byte read from the device is the documented
/// identity of this part. The check belongs to the caller's
/// initialization, which fails its own way on a mismatch.
pub fn identity_matches(byte: u8) -> (r: bool)
    ensures
        r == (byte == DEVICE_ID),
{
    byte == DEVICE_ID
}

} // verus!
