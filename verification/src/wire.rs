//! The payload that carries a configuration from the settings window to the
//! simulation: every quantity in the order of its field, a scalar as eight
//! bytes and the particle count as four, least significant byte first, with
//! no length and no version in front.
use vstd::prelude::*;
use vstd::slice::slice_subrange;
use crate::parameters::{BoundingBoxUniform, ParameterStore, SimulationParameters};
use crate::vector::Vector3;

verus! {

/// The length of a payload in bytes: 32 scalars and one count.
pub const PAYLOAD_LEN: usize = 260;

/// Why a payload was not taken.
#[derive(Clone, Copy, Debug, PartialEq, Eq, Structural)]
pub enum DecodeError {
    /// The payload does not have `PAYLOAD_LEN` bytes.
    WrongLength,
    /// The bytes end before the quantity that was asked for.
    Truncated,
    /// The payload decodes to a configuration that is not valid.
    Invalid,
}

/// The kind of error that the codec reports.
#[verifier::external_type_specification]
#[verifier::external_body]
pub struct ExErrorKind(bincode::ErrorKind);

/// The number that bytes spell, least significant byte first.
pub open spec fn little_endian(bytes: Seq<u8>) -> nat
    decreases bytes.len(),
{
    if bytes.len() == 0 {
        0
    } else {
        (bytes[0] as nat) + 256 * little_endian(bytes.drop_first())
    }
}

/// The scalar of a number below 2^64 read as two's complement.
pub open spec fn signed(n: nat) -> int {
    if n >= 0x8000_0000_0000_0000 {
        n - 0x1_0000_0000_0000_0000
    } else {
        n as int
    }
}

/// The scalar that the eight bytes from `offset` spell.
pub open spec fn scalar_at(bytes: Seq<u8>, offset: int) -> i64 {
    signed(little_endian(bytes.subrange(offset, offset + 8))) as i64
}

/// The count that the four bytes from `offset` spell.
pub open spec fn count_at(bytes: Seq<u8>, offset: int) -> u32 {
    little_endian(bytes.subrange(offset, offset + 4)) as u32
}

/// The configuration that a payload of `PAYLOAD_LEN` bytes spells.
pub open spec fn decoded(bytes: Seq<u8>) -> SimulationParameters {
    SimulationParameters {
        bounding_box: BoundingBoxUniform {
            position1: Vector3 {
                x: scalar_at(bytes, 0),
                y: scalar_at(bytes, 8),
                z: scalar_at(bytes, 16),
            },
            position2: Vector3 {
                x: scalar_at(bytes, 24),
                y: scalar_at(bytes, 32),
                z: scalar_at(bytes, 40),
            },
        },
        gravity: Vector3 {
            x: scalar_at(bytes, 48),
            y: scalar_at(bytes, 56),
            z: scalar_at(bytes, 64),
        },
        particle_mass: scalar_at(bytes, 72),
        particle_radius: scalar_at(bytes, 80),
        particles_amount: count_at(bytes, 88),
        collision_damping: scalar_at(bytes, 92),
        poly_kernel_radius: scalar_at(bytes, 100),
        pressure_kernel_radius: scalar_at(bytes, 108),
        near_pressure_kernel_radius: scalar_at(bytes, 116),
        viscosity_kernel_radius: scalar_at(bytes, 124),
        viscosity: scalar_at(bytes, 132),
        cohesion_coef: scalar_at(bytes, 140),
        curvature_cef: scalar_at(bytes, 148),
        adhesion_cef: scalar_at(bytes, 156),
        rest_density: scalar_at(bytes, 164),
        pressure_multiplier: scalar_at(bytes, 172),
        near_pressure_multiplier: scalar_at(bytes, 180),
        grid_size: scalar_at(bytes, 188),
        scene_scale_factor: scalar_at(bytes, 196),
        vorticity_kernel_radius: scalar_at(bytes, 204),
        vorticity_inensity: scalar_at(bytes, 212),
        cohesion_kernel_radius: scalar_at(bytes, 220),
        adhesion_kernel_radius: scalar_at(bytes, 228),
        surface_normal_kernel_radius: scalar_at(bytes, 236),
        time_scale: scalar_at(bytes, 244),
        velocity_smoothing_scale: scalar_at(bytes, 252),
    }
}

/// Calls `bincode::deserialize` for an `i64`. With its fixed-width,
/// little-endian encoding the function reads the first eight bytes as a
/// two's complement number and ignores what follows them; on fewer than
/// eight bytes it reports an error.
#[verifier::external_body]
fn read_scalar(bytes: &[u8]) -> (r: Result<i64, Box<bincode::ErrorKind>>)
    ensures
        bytes@.len() >= 8 ==> r is Ok && r->Ok_0 == scalar_at(bytes@, 0),
        bytes@.len() < 8 ==> r is Err,
{
    bincode::deserialize::<i64>(bytes)
}

/// Calls `bincode::deserialize` for a `u32`. The function reads the first
/// four bytes as a little-endian number and ignores what follows them; on
/// fewer than four bytes it reports an error.
#[verifier::external_body]
fn read_count(bytes: &[u8]) -> (r: Result<u32, Box<bincode::ErrorKind>>)
    ensures
        bytes@.len() >= 4 ==> r is Ok && r->Ok_0 == count_at(bytes@, 0),
        bytes@.len() < 4 ==> r is Err,
{
    bincode::deserialize::<u32>(bytes)
}

/// Calls `bincode::serialize` for an `i64`. The function never fails on an
/// integer and gives its eight bytes in two's complement, least significant
/// first.
#[verifier::external_body]
fn write_scalar(value: i64) -> (r: Result<Vec<u8>, Box<bincode::ErrorKind>>)
    ensures
        r is Ok,
        r->Ok_0@.len() == 8,
        scalar_at(r->Ok_0@, 0) == value,
{
    bincode::serialize(&value)
}

/// Calls `bincode::serialize` for a `u32`. The function never fails on an
/// integer and gives its four bytes, least significant first.
#[verifier::external_body]
fn write_count(value: u32) -> (r: Result<Vec<u8>, Box<bincode::ErrorKind>>)
    ensures
        r is Ok,
        r->Ok_0@.len() == 4,
        count_at(r->Ok_0@, 0) == value,
{
    bincode::serialize(&value)
}

/// Reads the scalar at `offset`, or reports that the bytes end before it does.
pub fn take_scalar(bytes: &[u8], offset: usize) -> (r: Result<i64, DecodeError>)
    ensures
        offset + 8 <= bytes@.len() ==> r == Ok::<i64, DecodeError>(
            scalar_at(bytes@, offset as int),
        ),
        offset + 8 > bytes@.len() ==> r == Err::<i64, DecodeError>(DecodeError::Truncated),
{
    if offset > bytes.len() {
        return Err(DecodeError::Truncated);
    }
    let rest = slice_subrange(bytes, offset, bytes.len());
    proof {
        if offset + 8 <= bytes@.len() {
            assert(rest@.subrange(0, 8) =~= bytes@.subrange(offset as int, offset + 8));
        }
    }
    match read_scalar(rest) {
        Ok(value) => Ok(value),
        Err(_) => Err(DecodeError::Truncated),
    }
}

/// Reads the count at `offset`, or reports that the bytes end before it does.
pub fn take_count(bytes: &[u8], offset: usize) -> (r: Result<u32, DecodeError>)
    ensures
        offset + 4 <= bytes@.len() ==> r == Ok::<u32, DecodeError>(count_at(bytes@, offset as int)),
        offset + 4 > bytes@.len() ==> r == Err::<u32, DecodeError>(DecodeError::Truncated),
{
    if offset > bytes.len() {
        return Err(DecodeError::Truncated);
    }
    let rest = slice_subrange(bytes, offset, bytes.len());
    proof {
        if offset + 4 <= bytes@.len() {
            assert(rest@.subrange(0, 4) =~= bytes@.subrange(offset as int, offset + 4));
        }
    }
    match read_count(rest) {
        Ok(value) => Ok(value),
        Err(_) => Err(DecodeError::Truncated),
    }
}

/// Decodes a payload. A payload of any other length than `PAYLOAD_LEN` is
/// refused; one of that length always decodes.
pub fn decode(bytes: &[u8]) -> (r: Result<SimulationParameters, DecodeError>)
    ensures
        bytes@.len() != PAYLOAD_LEN ==> r == Err::<SimulationParameters, DecodeError>(
            DecodeError::WrongLength,
        ),
        bytes@.len() == PAYLOAD_LEN ==> r == Ok::<SimulationParameters, DecodeError>(
            decoded(bytes@),
        ),
{
    if bytes.len() != PAYLOAD_LEN {
        return Err(DecodeError::WrongLength);
    }
    let field_0 = match take_scalar(bytes, 0) {
        Ok(v) => v,
        Err(e) => {
            return Err(e);
        },
    };
    let field_1 = match take_scalar(bytes, 8) {
        Ok(v) => v,
        Err(e) => {
            return Err(e);
        },
    };
    let field_2 = match take_scalar(bytes, 16) {
        Ok(v) => v,
        Err(e) => {
            return Err(e);
        },
    };
    let field_3 = match take_scalar(bytes, 24) {
        Ok(v) => v,
        Err(e) => {
            return Err(e);
        },
    };
    let field_4 = match take_scalar(bytes, 32) {
        Ok(v) => v,
        Err(e) => {
            return Err(e);
        },
    };
    let field_5 = match take_scalar(bytes, 40) {
        Ok(v) => v,
        Err(e) => {
            return Err(e);
        },
    };
    let field_6 = match take_scalar(bytes, 48) {
        Ok(v) => v,
        Err(e) => {
            return Err(e);
        },
    };
    let field_7 = match take_scalar(bytes, 56) {
        Ok(v) => v,
        Err(e) => {
            return Err(e);
        },
    };
    let field_8 = match take_scalar(bytes, 64) {
        Ok(v) => v,
        Err(e) => {
            return Err(e);
        },
    };
    let field_9 = match take_scalar(bytes, 72) {
        Ok(v) => v,
        Err(e) => {
            return Err(e);
        },
    };
    let field_10 = match take_scalar(bytes, 80) {
        Ok(v) => v,
        Err(e) => {
            return Err(e);
        },
    };
    let field_11 = match take_count(bytes, 88) {
        Ok(v) => v,
        Err(e) => {
            return Err(e);
        },
    };
    let field_12 = match take_scalar(bytes, 92) {
        Ok(v) => v,
        Err(e) => {
            return Err(e);
        },
    };
    let field_13 = match take_scalar(bytes, 100) {
        Ok(v) => v,
        Err(e) => {
            return Err(e);
        },
    };
    let field_14 = match take_scalar(bytes, 108) {
        Ok(v) => v,
        Err(e) => {
            return Err(e);
        },
    };
    let field_15 = match take_scalar(bytes, 116) {
        Ok(v) => v,
        Err(e) => {
            return Err(e);
        },
    };
    let field_16 = match take_scalar(bytes, 124) {
        Ok(v) => v,
        Err(e) => {
            return Err(e);
        },
    };
    let field_17 = match take_scalar(bytes, 132) {
        Ok(v) => v,
        Err(e) => {
            return Err(e);
        },
    };
    let field_18 = match take_scalar(bytes, 140) {
        Ok(v) => v,
        Err(e) => {
            return Err(e);
        },
    };
    let field_19 = match take_scalar(bytes, 148) {
        Ok(v) => v,
        Err(e) => {
            return Err(e);
        },
    };
    let field_20 = match take_scalar(bytes, 156) {
        Ok(v) => v,
        Err(e) => {
            return Err(e);
        },
    };
    let field_21 = match take_scalar(bytes, 164) {
        Ok(v) => v,
        Err(e) => {
            return Err(e);
        },
    };
    let field_22 = match take_scalar(bytes, 172) {
        Ok(v) => v,
        Err(e) => {
            return Err(e);
        },
    };
    let field_23 = match take_scalar(bytes, 180) {
        Ok(v) => v,
        Err(e) => {
            return Err(e);
        },
    };
    let field_24 = match take_scalar(bytes, 188) {
        Ok(v) => v,
        Err(e) => {
            return Err(e);
        },
    };
    let field_25 = match take_scalar(bytes, 196) {
        Ok(v) => v,
        Err(e) => {
            return Err(e);
        },
    };
    let field_26 = match take_scalar(bytes, 204) {
        Ok(v) => v,
        Err(e) => {
            return Err(e);
        },
    };
    let field_27 = match take_scalar(bytes, 212) {
        Ok(v) => v,
        Err(e) => {
            return Err(e);
        },
    };
    let field_28 = match take_scalar(bytes, 220) {
        Ok(v) => v,
        Err(e) => {
            return Err(e);
        },
    };
    let field_29 = match take_scalar(bytes, 228) {
        Ok(v) => v,
        Err(e) => {
            return Err(e);
        },
    };
    let field_30 = match take_scalar(bytes, 236) {
        Ok(v) => v,
        Err(e) => {
            return Err(e);
        },
    };
    let field_31 = match take_scalar(bytes, 244) {
        Ok(v) => v,
        Err(e) => {
            return Err(e);
        },
    };
    let field_32 = match take_scalar(bytes, 252) {
        Ok(v) => v,
        Err(e) => {
            return Err(e);
        },
    };
    Ok(
        SimulationParameters {
            bounding_box: BoundingBoxUniform {
                position1: Vector3 { x: field_0, y: field_1, z: field_2 },
                position2: Vector3 { x: field_3, y: field_4, z: field_5 },
            },
            gravity: Vector3 { x: field_6, y: field_7, z: field_8 },
            particle_mass: field_9,
            particle_radius: field_10,
            particles_amount: field_11,
            collision_damping: field_12,
            poly_kernel_radius: field_13,
            pressure_kernel_radius: field_14,
            near_pressure_kernel_radius: field_15,
            viscosity_kernel_radius: field_16,
            viscosity: field_17,
            cohesion_coef: field_18,
            curvature_cef: field_19,
            adhesion_cef: field_20,
            rest_density: field_21,
            pressure_multiplier: field_22,
            near_pressure_multiplier: field_23,
            grid_size: field_24,
            scene_scale_factor: field_25,
            vorticity_kernel_radius: field_26,
            vorticity_inensity: field_27,
            cohesion_kernel_radius: field_28,
            adhesion_kernel_radius: field_29,
            surface_normal_kernel_radius: field_30,
            time_scale: field_31,
            velocity_smoothing_scale: field_32,
        },
    )
}

/// Appends the eight bytes of a scalar.
fn append_scalar(bytes: &mut Vec<u8>, value: i64)
    ensures
        final(bytes)@.len() == old(bytes)@.len() + 8,
        scalar_at(final(bytes)@, old(bytes)@.len() as int) == value,
        forall|offset: int|
            0 <= offset && offset + 8 <= old(bytes)@.len() ==> #[trigger] scalar_at(
                final(bytes)@,
                offset,
            ) == scalar_at(old(bytes)@, offset),
        forall|offset: int|
            0 <= offset && offset + 4 <= old(bytes)@.len() ==> #[trigger] count_at(
                final(bytes)@,
                offset,
            ) == count_at(old(bytes)@, offset),
{
    let ghost before = bytes@;
    match write_scalar(value) {
        Ok(piece) => {
            bytes.extend_from_slice(piece.as_slice());
            proof {
                assert(bytes@.subrange(before.len() as int, before.len() as int + 8)
                    =~= piece@.subrange(0, 8));
                assert forall|offset: int|
                    0 <= offset && offset + 8 <= before.len() implies #[trigger] scalar_at(
                    bytes@,
                    offset,
                ) == scalar_at(before, offset) by {
                    assert(bytes@.subrange(offset, offset + 8) =~= before.subrange(
                        offset,
                        offset + 8,
                    ));
                }
                assert forall|offset: int|
                    0 <= offset && offset + 4 <= before.len() implies #[trigger] count_at(
                    bytes@,
                    offset,
                ) == count_at(before, offset) by {
                    assert(bytes@.subrange(offset, offset + 4) =~= before.subrange(
                        offset,
                        offset + 4,
                    ));
                }
            }
        },
        Err(_) => {
            vstd::pervasive::unreached()
        },
    }
}

/// Appends the four bytes of a count.
fn append_count(bytes: &mut Vec<u8>, value: u32)
    ensures
        final(bytes)@.len() == old(bytes)@.len() + 4,
        count_at(final(bytes)@, old(bytes)@.len() as int) == value,
        forall|offset: int|
            0 <= offset && offset + 8 <= old(bytes)@.len() ==> #[trigger] scalar_at(
                final(bytes)@,
                offset,
            ) == scalar_at(old(bytes)@, offset),
{
    let ghost before = bytes@;
    match write_count(value) {
        Ok(piece) => {
            bytes.extend_from_slice(piece.as_slice());
            proof {
                assert(bytes@.subrange(before.len() as int, before.len() as int + 4)
                    =~= piece@.subrange(0, 4));
                assert forall|offset: int|
                    0 <= offset && offset + 8 <= before.len() implies #[trigger] scalar_at(
                    bytes@,
                    offset,
                ) == scalar_at(before, offset) by {
                    assert(bytes@.subrange(offset, offset + 8) =~= before.subrange(
                        offset,
                        offset + 8,
                    ));
                }
            }
        },
        Err(_) => {
            vstd::pervasive::unreached()
        },
    }
}

/// Encodes a configuration as a payload: the bytes that `decode` reads the
/// same configuration from.
pub fn encode(params: &SimulationParameters) -> (bytes: Vec<u8>)
    ensures
        bytes@.len() == PAYLOAD_LEN,
        decoded(bytes@) == *params,
{
    let mut bytes: Vec<u8> = Vec::new();
    append_scalar(&mut bytes, params.bounding_box.position1.x);
    append_scalar(&mut bytes, params.bounding_box.position1.y);
    append_scalar(&mut bytes, params.bounding_box.position1.z);
    append_scalar(&mut bytes, params.bounding_box.position2.x);
    append_scalar(&mut bytes, params.bounding_box.position2.y);
    append_scalar(&mut bytes, params.bounding_box.position2.z);
    append_scalar(&mut bytes, params.gravity.x);
    append_scalar(&mut bytes, params.gravity.y);
    append_scalar(&mut bytes, params.gravity.z);
    append_scalar(&mut bytes, params.particle_mass);
    append_scalar(&mut bytes, params.particle_radius);
    append_count(&mut bytes, params.particles_amount);
    append_scalar(&mut bytes, params.collision_damping);
    append_scalar(&mut bytes, params.poly_kernel_radius);
    append_scalar(&mut bytes, params.pressure_kernel_radius);
    append_scalar(&mut bytes, params.near_pressure_kernel_radius);
    append_scalar(&mut bytes, params.viscosity_kernel_radius);
    append_scalar(&mut bytes, params.viscosity);
    append_scalar(&mut bytes, params.cohesion_coef);
    append_scalar(&mut bytes, params.curvature_cef);
    append_scalar(&mut bytes, params.adhesion_cef);
    append_scalar(&mut bytes, params.rest_density);
    append_scalar(&mut bytes, params.pressure_multiplier);
    append_scalar(&mut bytes, params.near_pressure_multiplier);
    append_scalar(&mut bytes, params.grid_size);
    append_scalar(&mut bytes, params.scene_scale_factor);
    append_scalar(&mut bytes, params.vorticity_kernel_radius);
    append_scalar(&mut bytes, params.vorticity_inensity);
    append_scalar(&mut bytes, params.cohesion_kernel_radius);
    append_scalar(&mut bytes, params.adhesion_kernel_radius);
    append_scalar(&mut bytes, params.surface_normal_kernel_radius);
    append_scalar(&mut bytes, params.time_scale);
    append_scalar(&mut bytes, params.velocity_smoothing_scale);
    bytes
}

impl ParameterStore {
    /// Takes a payload from the settings channel. A payload of the right
    /// length that spells a valid configuration replaces the current one; any
    /// other is refused with the reason, and the store keeps the
    /// configuration it had.
    pub fn apply_payload(&mut self, bytes: &[u8]) -> (r: Result<(), DecodeError>)
        ensures
            bytes@.len() != PAYLOAD_LEN ==> r == Err::<(), DecodeError>(DecodeError::WrongLength),
            bytes@.len() == PAYLOAD_LEN && !decoded(bytes@).valid() ==> r == Err::<(), DecodeError>(
                DecodeError::Invalid,
            ),
            bytes@.len() == PAYLOAD_LEN && decoded(bytes@).valid() ==> r == Ok::<(), DecodeError>(
                (),
            ),
            final(self).snapshot() == if r is Ok {
                decoded(bytes@)
            } else {
                old(self).snapshot()
            },
    {
        match decode(bytes) {
            Ok(params) => {
                if self.write(params) {
                    Ok(())
                } else {
                    Err(DecodeError::Invalid)
                }
            },
            Err(e) => Err(e),
        }
    }
}

} // verus!
