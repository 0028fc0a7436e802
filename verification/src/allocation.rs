//! Checked host allocation.

use crate::error::Error;
use std::collections::TryReserveError;
use vstd::prelude::*;

verus! {

/// Calls `Vec::try_reserve_exact` and hands on its result.
///
/// The call leaves the elements as they are. It always succeeds where no room is
/// asked for, and never where the vector's contents would exceed `isize::MAX`
/// bytes. In between the allocator decides.
#[verifier::external_body]
fn try_reserve_exact<T>(values: &mut Vec<T>, additional: usize) -> (reserved: Result<
    (),
    TryReserveError,
>)
    ensures
        final(values)@ == old(values)@,
        additional == 0 ==> reserved is Ok,
        reserved is Ok ==> (old(values)@.len() + additional) * vstd::layout::size_of::<T>()
            <= isize::MAX,
{
    values.try_reserve_exact(additional)
}

/// Allocate an empty vector with room for `length` elements, or hand on why not.
///
/// No room is always granted, and room that exceeds `isize::MAX` bytes is always
/// refused; in between the allocator decides.
pub fn allocate<T>(length: usize) -> (values: Result<Vec<T>, TryReserveError>)
    ensures
        match values {
            Ok(values) => {
                &&& values@.len() == 0
                &&& length * vstd::layout::size_of::<T>() <= isize::MAX
            },
            Err(_) => length > 0,
        },
{
    let mut values: Vec<T> = Vec::new();
    match try_reserve_exact(&mut values, length) {
        Ok(_) => Ok(values),
        Err(source) => Err(source),
    }
}

/// Name what an execution allocation was for. A refusal keeps the allocator's answer as
/// its source.
pub fn execution_room<T>(
    room: Result<Vec<T>, TryReserveError>,
    target: &'static str,
    length: usize,
) -> (values: Result<Vec<T>, Error>)
    ensures
        values == (match room {
            Ok(values) => Ok::<Vec<T>, Error>(values),
            Err(source) => Err(Error::ExecutionAllocation { target, length, source }),
        }),
{
    match room {
        Ok(values) => Ok(values),
        Err(source) => Err(Error::ExecutionAllocation { target, length, source }),
    }
}

/// Name what a recurrent allocation was for. A refusal keeps the allocator's answer as
/// its source.
pub fn recurrent_room<T>(
    room: Result<Vec<T>, TryReserveError>,
    target: &'static str,
    length: usize,
) -> (values: Result<Vec<T>, Error>)
    ensures
        values == (match room {
            Ok(values) => Ok::<Vec<T>, Error>(values),
            Err(source) => Err(Error::RecurrentAllocation { target, length, source }),
        }),
{
    match room {
        Ok(values) => Ok(values),
        Err(source) => Err(Error::RecurrentAllocation { target, length, source }),
    }
}

/// Name what a Qwen3 allocation was for. A refusal keeps the allocator's answer as its
/// source.
pub fn qwen3_room<T>(
    room: Result<Vec<T>, TryReserveError>,
    target: &'static str,
    length: usize,
) -> (values: Result<Vec<T>, Error>)
    ensures
        values == (match room {
            Ok(values) => Ok::<Vec<T>, Error>(values),
            Err(source) => Err(Error::Qwen3Allocation { target, length, source }),
        }),
{
    match room {
        Ok(values) => Ok(values),
        Err(source) => Err(Error::Qwen3Allocation { target, length, source }),
    }
}

/// Name the matrix that a projection allocation was for. A refusal keeps the allocator's
/// answer as its source.
pub fn projection_room<T>(
    room: Result<Vec<T>, TryReserveError>,
    name: &String,
    output_width: usize,
) -> (values: Result<Vec<T>, Error>)
    ensures
        match room {
            Ok(room) => values == Ok::<Vec<T>, Error>(room),
            Err(refused) => values matches Err(error) && {
                &&& error is ProjectionAllocation
                &&& error->ProjectionAllocation_name@ == name@
                &&& error->ProjectionAllocation_output_width == output_width
                &&& error->ProjectionAllocation_source == refused
            },
        },
{
    match room {
        Ok(values) => Ok(values),
        Err(source) => Err(
            Error::ProjectionAllocation { name: name.clone(), output_width, source },
        ),
    }
}

/// Allocate an empty vector with room for `length` elements, or refuse with the
/// allocator's answer.
///
/// No room is always granted, and room that exceeds `isize::MAX` bytes is always
/// refused; in between the allocator decides.
pub fn reserve<T>(target: &'static str, length: usize) -> (values: Result<Vec<T>, Error>)
    ensures
        match values {
            Ok(values) => {
                &&& values@.len() == 0
                &&& length * vstd::layout::size_of::<T>() <= isize::MAX
            },
            Err(error) => length > 0 && error.execution_allocation(target, length),
        },
{
    execution_room(allocate(length), target, length)
}

} // verus!
