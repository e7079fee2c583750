//! The bitmap of supported ODBC functions that `SQLGetFunctions` fills in.
//!
//! Function `api` is recorded in bit `api % 16` of word `api / 16`.

use vstd::prelude::*;

verus! {

/// The `FunctionId` by which an application asks for the whole ODBC 3 bitmap.
pub const SQL_API_ODBC3_ALL_FUNCTIONS: u16 = 999;

/// The number of 16-bit words in the ODBC 3 bitmap.
pub const SQL_API_ODBC3_ALL_FUNCTIONS_SIZE: usize = 250;

/// The number of function ids that the driver reports as supported: `0..SUPPORTED_FUNCTION_COUNT`.
pub const SUPPORTED_FUNCTION_COUNT: usize = 1500;

/// Whether the bitmap `words` records function `api` as supported.
pub open spec fn function_supported(words: Seq<u16>, api: int) -> bool {
    words[api / 16] & (1u16 << ((api % 16) as u16)) != 0
}

/// The bitmap `words` with function `api` recorded as supported.
pub open spec fn with_function(words: Seq<u16>, api: int) -> Seq<u16> {
    words.update(api / 16, words[api / 16] | (1u16 << ((api % 16) as u16)))
}

proof fn lemma_bits(w: u16, b: u16, c: u16)
    requires
        b < 16,
        c < 16,
    ensures
        (w | (1u16 << b)) & (1u16 << b) != 0,
        b != c ==> (((w | (1u16 << b)) & (1u16 << c) != 0) == (w & (1u16 << c) != 0)),
{
    assert((w | (1u16 << b)) & (1u16 << b) != 0) by (bit_vector)
        requires
            b < 16,
    ;
    assert(b != c ==> (((w | (1u16 << b)) & (1u16 << c) != 0) == (w & (1u16 << c) != 0)))
        by (bit_vector)
        requires
            b < 16,
            c < 16,
    ;
}

/// Setting a function's bit records it as supported and leaves every other
/// function as it was.
pub proof fn lemma_with_function(words: Seq<u16>, api: int, other: int)
    requires
        0 <= api,
        0 <= other,
        api / 16 < words.len(),
        other / 16 < words.len(),
    ensures
        function_supported(with_function(words, api), api),
        other != api ==> function_supported(with_function(words, api), other)
            == function_supported(words, other),
{
    let b = (api % 16) as u16;
    let c = (other % 16) as u16;
    lemma_bits(words[api / 16], b, c);
    if other != api && other / 16 == api / 16 {
        assert(b != c);
    }
}

/// Records function `uw_api` as supported in the bitmap `pf_exists`.
pub fn sql_func_eset(pf_exists: &mut [u16], uw_api: usize)
    requires
        uw_api / 16 < old(pf_exists)@.len(),
    ensures
        final(pf_exists)@ == with_function(old(pf_exists)@, uw_api as int),
{
    assert(uw_api >> 4 == uw_api / 16) by (bit_vector);
    assert(uw_api & 0x000F == uw_api % 16) by (bit_vector);
    let idx = uw_api >> 4;
    let bit = (uw_api & 0x000F) as u16;
    pf_exists[idx] = pf_exists[idx] | (1u16 << bit);
}

/// Whether the bitmap `pf_exists` records function `uw_api` as supported.
pub fn sql_func_exists(pf_exists: &[u16], uw_api: usize) -> (r: bool)
    requires
        uw_api / 16 < pf_exists@.len(),
    ensures
        r == function_supported(pf_exists@, uw_api as int),
{
    assert(uw_api >> 4 == uw_api / 16) by (bit_vector);
    assert(uw_api & 0x000F == uw_api % 16) by (bit_vector);
    let idx = uw_api >> 4;
    let bit = (uw_api & 0x000F) as u16;
    (pf_exists[idx] & (1u16 << bit)) != 0
}

/// Whether `SQLGetFunctions` with this `function_id` fills in the ODBC 3 bitmap.
/// For every other id the driver writes nothing and reports success.
pub fn requests_all_functions(function_id: u16) -> (r: bool)
    ensures
        r == (function_id == SQL_API_ODBC3_ALL_FUNCTIONS),
{
    function_id == SQL_API_ODBC3_ALL_FUNCTIONS
}

/// Records every function id below `SUPPORTED_FUNCTION_COUNT` as supported in the
/// ODBC 3 bitmap, keeping whatever the bitmap already recorded for the others.
pub fn mark_all_functions(supported: &mut [u16])
    requires
        old(supported)@.len() == SQL_API_ODBC3_ALL_FUNCTIONS_SIZE,
    ensures
        final(supported)@.len() == old(supported)@.len(),
        forall|api: int|
            0 <= api < SUPPORTED_FUNCTION_COUNT ==> #[trigger] function_supported(
                final(supported)@,
                api,
            ),
        forall|api: int|
            SUPPORTED_FUNCTION_COUNT <= api < 16 * SQL_API_ODBC3_ALL_FUNCTIONS_SIZE
                ==> #[trigger] function_supported(final(supported)@, api) == function_supported(
                old(supported)@,
                api,
            ),
{
    let ghost start = supported@;
    let mut i: usize = 0;
    while i < SUPPORTED_FUNCTION_COUNT
        invariant
            i <= SUPPORTED_FUNCTION_COUNT,
            supported@.len() == SQL_API_ODBC3_ALL_FUNCTIONS_SIZE,
            forall|api: int| 0 <= api < i ==> #[trigger] function_supported(supported@, api),
            forall|api: int|
                i <= api < 16 * SQL_API_ODBC3_ALL_FUNCTIONS_SIZE ==> #[trigger] function_supported(
                    supported@,
                    api,
                ) == function_supported(start, api),
        decreases SUPPORTED_FUNCTION_COUNT - i,
    {
        let ghost before = supported@;
        sql_func_eset(supported, i);
        proof {
            assert forall|api: int| 0 <= api < 16 * SQL_API_ODBC3_ALL_FUNCTIONS_SIZE implies
                #[trigger] function_supported(supported@, api) == (if api == i {
                    true
                } else {
                    function_supported(before, api)
                }) by {
                lemma_with_function(before, i as int, api);
            }
        }
        i = i + 1;
    }
}

} // verus!
