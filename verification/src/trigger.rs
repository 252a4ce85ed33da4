//! Triggers: the check made on the trigger the IIO core allocates.
use vstd::prelude::*;

use crate::error::{Error, EINVAL_NUM};

verus! {

/// The check after `__devm_iio_trigger_alloc`: a null trigger is refused with `-EINVAL`;
/// `None` means the trigger exists and setting it up may go on.
pub fn trigger_alloc_check(is_null: bool) -> (r: Option<Error>)
    ensures
        r is Some <==> is_null,
        r matches Some(e) ==> e.errno() == -EINVAL_NUM,
{
    if is_null {
        Some(Error::einval())
    } else {
        None
    }
}

} // verus!
