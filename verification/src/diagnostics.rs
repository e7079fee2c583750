//! Diagnostic records: `SQLGetDiagRecW`.

use crate::codes::ReturnCode;
use vstd::prelude::*;

verus! {

/// `SQLGetDiagRecW`: the driver keeps no diagnostic records, so every record
/// number is answered with `NoData`. An application that reads records until
/// `NoData` therefore stops at once instead of looping.
pub fn sql_get_diag_rec(record_number: i16) -> (r: ReturnCode)
    ensures
        r == ReturnCode::NoData,
{
    ReturnCode::NoData
}

} // verus!
