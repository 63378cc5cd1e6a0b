//! Checks that the overlay operations make on their arguments and on the
//! runtime's answers, and the resolution of interface version identifiers.
use vstd::prelude::*;

use crate::controller::{expand_matrix, expanded_matrix};
use crate::error::{Argument, Capability, NativeOp, OverlayError};

verus! {

/// Whether a byte string holds a zero byte, which a C string cannot carry.
pub open spec fn has_nul(s: Seq<u8>) -> bool {
    exists|i: int| 0 <= i < s.len() && s[i] == 0u8
}

/// Fails with `EmbeddedNul(argument)` when a string argument holds a zero
/// byte.
pub fn check_no_nul(s: &[u8], argument: Argument) -> (r: Result<(), OverlayError>)
    ensures
        !has_nul(s@) ==> r == Ok::<(), OverlayError>(()),
        has_nul(s@) ==> r == Err::<(), OverlayError>(OverlayError::EmbeddedNul(argument)),
{
    let mut i: usize = 0;
    while i < s.len()
        invariant
            0 <= i <= s@.len(),
            forall|j: int| 0 <= j < i ==> s@[j] != 0u8,
        decreases s@.len() - i,
    {
        if s[i] == 0 {
            assert(s@[i as int] == 0u8);
            return Err(OverlayError::EmbeddedNul(argument));
        }
        i = i + 1;
    }
    Ok(())
}

/// The version identifier to request: a non-empty override wins over the
/// default.
pub open spec fn chosen_version(override_value: Option<Seq<u8>>, default: Seq<u8>) -> Seq<u8> {
    match override_value {
        Some(v) => if v.len() > 0 {
            v
        } else {
            default
        },
        None => default,
    }
}

pub open spec fn bytes_view(o: Option<Vec<u8>>) -> Option<Seq<u8>> {
    match o {
        Some(v) => Some(v@),
        None => None,
    }
}

/// Picks the interface version identifier for `capability` from an
/// optional override and the default, and rejects one that holds a zero
/// byte.
pub fn resolve_interface_version(override_value: Option<Vec<u8>>, default: Vec<u8>, capability: Capability) -> (r:
    Result<Vec<u8>, OverlayError>)
    ensures
        ({
            let chosen = chosen_version(bytes_view(override_value), default@);
            &&& !has_nul(chosen) ==> r is Ok && r.unwrap()@ == chosen
            &&& has_nul(chosen) ==> r == Err::<Vec<u8>, OverlayError>(
                OverlayError::InvalidConfiguration(capability),
            )
        }),
{
    let ghost requested = bytes_view(override_value);
    let chosen: Vec<u8> = match override_value {
        Some(v) => if v.len() > 0 {
            v
        } else {
            default
        },
        None => default,
    };
    let mut i: usize = 0;
    while i < chosen.len()
        invariant
            0 <= i <= chosen@.len(),
            chosen@ == chosen_version(requested, default@),
            requested == bytes_view(override_value),
            forall|j: int| 0 <= j < i ==> chosen@[j] != 0u8,
        decreases chosen@.len() - i,
    {
        if chosen[i] == 0 {
            assert(chosen@[i as int] == 0u8);
            return Err(OverlayError::InvalidConfiguration(capability));
        }
        i = i + 1;
    }
    Ok(chosen)
}

/// Whether an interface lookup produced a usable table: a non-null pointer
/// and a success status.
pub fn interface_usable(non_null: bool, status: u32) -> (r: bool)
    ensures
        r == (non_null && status == 0),
{
    non_null && status == 0
}

/// Validates an overlay handle received from the host.
pub fn overlay_handle(handle: i64) -> (r: Result<u64, OverlayError>)
    ensures
        handle >= 0 ==> r == Ok::<u64, OverlayError>(handle as u64),
        handle < 0 ==> r == Err::<u64, OverlayError>(OverlayError::InvalidOverlayHandle),
{
    if handle < 0 {
        return Err(OverlayError::InvalidOverlayHandle);
    }
    Ok(handle as u64)
}

/// Converts a runtime overlay handle for the host, which holds it as `i64`.
pub fn handle_to_i64(handle: u64) -> (r: Result<i64, OverlayError>)
    ensures
        handle <= i64::MAX ==> r == Ok::<i64, OverlayError>(handle as i64),
        handle > i64::MAX ==> r == Err::<i64, OverlayError>(OverlayError::InvalidOverlayHandle),
{
    if handle > i64::MAX as u64 {
        return Err(OverlayError::InvalidOverlayHandle);
    }
    Ok(handle as i64)
}

/// Maps the status of a native overlay operation.
pub fn check_status(op: NativeOp, status: u32) -> (r: Result<(), OverlayError>)
    ensures
        status == 0 ==> r == Ok::<(), OverlayError>(()),
        status != 0 ==> r == Err::<(), OverlayError>(OverlayError::NativeOperationFailed(op, status)),
{
    if status == 0 {
        Ok(())
    } else {
        Err(OverlayError::NativeOperationFailed(op, status))
    }
}

/// A three-component vector from a host array, which must have length 3.
pub fn vec3<A: Copy>(values: &[A], argument: Argument) -> (r: Result<[A; 3], OverlayError>)
    ensures
        values@.len() == 3 ==> r is Ok && r.unwrap()@ == values@,
        values@.len() != 3 ==> r == Err::<[A; 3], OverlayError>(
            OverlayError::InvalidArgumentLength { argument, expected: 3, actual: values@.len() as usize },
        ),
{
    if values.len() != 3 {
        return Err(OverlayError::InvalidArgumentLength { argument, expected: 3, actual: values.len() });
    }
    let v = [values[0], values[1], values[2]];
    assert(v@ =~= values@);
    Ok(v)
}

/// The first three rows of a row-major 4x4 matrix of 16 elements, as the
/// runtime's 3x4 transform.
pub fn matrix34_from_row_major<A: Copy>(values: &[A]) -> (r: Result<[[A; 4]; 3], OverlayError>)
    ensures
        values@.len() == 16 ==> r is Ok && (forall|i: int, j: int|
            0 <= i < 3 && 0 <= j < 4 ==> #[trigger] r.unwrap()[i][j] == values@[4 * i + j]),
        values@.len() != 16 ==> r == Err::<[[A; 4]; 3], OverlayError>(
            OverlayError::InvalidArgumentLength {
                argument: Argument::Matrix,
                expected: 16,
                actual: values@.len() as usize,
            },
        ),
{
    if values.len() != 16 {
        return Err(
            OverlayError::InvalidArgumentLength {
                argument: Argument::Matrix,
                expected: 16,
                actual: values.len(),
            },
        );
    }
    let m = [
        [values[0], values[1], values[2], values[3]],
        [values[4], values[5], values[6], values[7]],
        [values[8], values[9], values[10], values[11]],
    ];
    Ok(m)
}

/// Transform that places an overlay straight ahead of the headset: the
/// identity rotation with translation `(zero, zero, forward_z)`.
pub fn head_relative_transform<A: Copy>(zero: A, one: A, forward_z: A) -> (r: [[A; 4]; 3])
    ensures
        forall|i: int, j: int|
            0 <= i < 3 && 0 <= j < 4 ==> #[trigger] r[i][j] == if j == 3 {
                if i == 2 {
                    forward_z
                } else {
                    zero
                }
            } else if i == j {
                one
            } else {
                zero
            },
{
    [[one, zero, zero, zero], [zero, one, zero, zero], [zero, zero, one, forward_z]]
}

/// An overlay's transform relative to a tracked device.
#[derive(Clone, Debug)]
pub struct OverlayRelativeTransform<A> {
    pub tracked_device_index: u32,
    /// Row-major 4x4 matrix.
    pub transform: Vec<A>,
}

pub fn relative_transform<A: Copy>(tracked_device_index: u32, m: &[[A; 4]; 3], zero: A, one: A) -> (r:
    OverlayRelativeTransform<A>)
    ensures
        r.tracked_device_index == tracked_device_index,
        r.transform@ == expanded_matrix(*m, zero, one),
{
    OverlayRelativeTransform { tracked_device_index, transform: expand_matrix(m, zero, one) }
}

/// Where a ray meets an overlay.
#[derive(Clone, Copy, Debug, PartialEq)]
pub struct IntersectionResult<A> {
    pub x: A,
    pub y: A,
    pub z: A,
    pub u: A,
    pub v: A,
    pub distance: A,
}

/// The intersection the runtime reported, `None` when the ray misses.
pub fn intersection_result<A: Copy>(hit: bool, point: [A; 3], uv: [A; 2], distance: A) -> (r: Option<
    IntersectionResult<A>,
>)
    ensures
        !hit ==> r.is_none(),
        hit ==> r == Some(
            IntersectionResult { x: point[0], y: point[1], z: point[2], u: uv[0], v: uv[1], distance },
        ),
{
    if !hit {
        return None;
    }
    Some(IntersectionResult { x: point[0], y: point[1], z: point[2], u: uv[0], v: uv[1], distance })
}

} // verus!
