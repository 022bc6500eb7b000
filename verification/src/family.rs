//! What a loaded kernel family is, and the checks made while loading one.

use crate::arith::{is_power_of_two, power_of_two};
use crate::device::{ContextId, Probe};
use crate::error::{Checked, KernelError};
use vstd::prelude::*;

verus! {

/// A loaded kernel family: the context its functions belong to and its
/// thread-block width (for tiled products, its tile side).
#[derive(Clone, Copy, Debug, PartialEq, Eq, Structural)]
pub struct Family {
    pub context: ContextId,
    pub width: u32,
}

/// The first of two checks decides where it fails.
pub open spec fn both(first: Checked, second: Checked) -> Checked {
    if first is Err {
        first
    } else {
        second
    }
}

/// Whether loading ended as the checks say: with the family where all pass,
/// with the first failure otherwise.
pub open spec fn loads<K: View<V = Family>>(
    result: Result<K, KernelError>,
    check: Checked,
    family: Family,
) -> bool {
    match result {
        Ok(kernels) => check is Ok && kernels@ == family,
        Err(error) => check == Checked::Err(error),
    }
}

/// The block width must be a power of two.
pub open spec fn block_check(family: &'static str, width: u32) -> Checked {
    if power_of_two(width as nat) {
        Ok(())
    } else {
        Err(KernelError::BlockSize { family, size: width })
    }
}

/// The block width must not be zero.
pub open spec fn nonzero_check(message: &'static str, width: u32) -> Checked {
    if width != 0 {
        Ok(())
    } else {
        Err(KernelError::Fixed(message))
    }
}

/// `bytes` of shared memory per thread must be expressible in 32 bits.
pub open spec fn bytes_check(message: &'static str, width: u32, bytes: u32) -> Checked {
    if width * bytes <= u32::MAX {
        Ok(())
    } else {
        Err(KernelError::Fixed(message))
    }
}

/// The driver must have reported the attributes.
pub open spec fn probe_check(probe: Probe) -> Checked {
    match probe {
        Ok(_) => Ok(()),
        Err(failure) => Err(KernelError::Device(failure)),
    }
}

/// The block width must be within the function's limit.
pub open spec fn threads_check(family: &'static str, width: u32, probe: Probe) -> Checked {
    match probe {
        Err(failure) => Err(KernelError::Device(failure)),
        Ok(attributes) => if width > attributes.max_threads_per_block {
            Err(
                KernelError::BlockLimit {
                    family,
                    size: width,
                    limit: attributes.max_threads_per_block,
                },
            )
        } else {
            Ok(())
        },
    }
}

/// The dynamic shared memory must be within the function's limit.
pub open spec fn shared_check(family: &'static str, bytes: u32, probe: Probe) -> Checked {
    match probe {
        Err(failure) => Err(KernelError::Device(failure)),
        Ok(attributes) => if bytes > attributes.max_dynamic_shared_memory_bytes {
            Err(
                KernelError::SharedMemoryLimit {
                    family,
                    bytes,
                    limit: attributes.max_dynamic_shared_memory_bytes,
                },
            )
        } else {
            Ok(())
        },
    }
}

/// Both function limits, the thread limit first.
pub open spec fn limits_check(
    family: &'static str,
    width: u32,
    bytes: u32,
    probe: Probe,
) -> Checked {
    both(threads_check(family, width, probe), shared_check(family, bytes, probe))
}

/// Checks that the block width is a power of two.
pub fn check_block(family: &'static str, width: u32) -> (check: Checked)
    ensures
        check == block_check(family, width),
{
    if is_power_of_two(width) {
        Ok(())
    } else {
        Err(KernelError::BlockSize { family, size: width })
    }
}

/// Checks that the block width is not zero.
pub fn check_nonzero(message: &'static str, width: u32) -> (check: Checked)
    ensures
        check == nonzero_check(message, width),
{
    if width != 0 {
        Ok(())
    } else {
        Err(KernelError::Fixed(message))
    }
}

/// The shared memory of a block that takes `bytes` per thread.
pub fn shared_bytes(
    message: &'static str,
    width: u32,
    bytes: u32,
) -> (total: Result<u32, KernelError>)
    ensures
        bytes_check(message, width, bytes) is Ok ==> total == Result::<u32, KernelError>::Ok(
            (width * bytes) as u32,
        ),
        bytes_check(message, width, bytes) is Err ==> total == Result::<u32, KernelError>::Err(
            KernelError::Fixed(message),
        ),
{
    match width.checked_mul(bytes) {
        Some(total) => Ok(total),
        None => Err(KernelError::Fixed(message)),
    }
}

/// Checks that the driver reported the attributes.
pub fn check_probe(probe: Probe) -> (check: Checked)
    ensures
        check == probe_check(probe),
{
    match probe {
        Ok(_) => Ok(()),
        Err(failure) => Err(KernelError::Device(failure)),
    }
}

/// Checks the block width against the function's limit.
pub fn check_threads(family: &'static str, width: u32, probe: Probe) -> (check: Checked)
    ensures
        check == threads_check(family, width, probe),
{
    match probe {
        Err(failure) => Err(KernelError::Device(failure)),
        Ok(attributes) => {
            if width > attributes.max_threads_per_block {
                Err(
                    KernelError::BlockLimit {
                        family,
                        size: width,
                        limit: attributes.max_threads_per_block,
                    },
                )
            } else {
                Ok(())
            }
        },
    }
}

/// Checks the dynamic shared memory against the function's limit.
pub fn check_shared(family: &'static str, bytes: u32, probe: Probe) -> (check: Checked)
    ensures
        check == shared_check(family, bytes, probe),
{
    match probe {
        Err(failure) => Err(KernelError::Device(failure)),
        Ok(attributes) => {
            if bytes > attributes.max_dynamic_shared_memory_bytes {
                Err(
                    KernelError::SharedMemoryLimit {
                        family,
                        bytes,
                        limit: attributes.max_dynamic_shared_memory_bytes,
                    },
                )
            } else {
                Ok(())
            }
        },
    }
}

/// Checks both function limits, the thread limit first.
pub fn check_limits(family: &'static str, width: u32, bytes: u32, probe: Probe) -> (check: Checked)
    ensures
        check == limits_check(family, width, bytes, probe),
{
    check_threads(family, width, probe)?;
    check_shared(family, bytes, probe)
}

} // verus!
