//! Presents of Mantle.

use vstd::prelude::*;

verus! {

/// The library: the first of the two that is loaded.
pub fn mantle_module(mantle32: Option<usize>, mantle64: impl FnOnce() -> Option<usize>) -> (module:
    Option<usize>)
    requires
        mantle32 is None ==> call_requires(mantle64, ()),
    ensures
        mantle32 is Some ==> module == mantle32,
        mantle32 is None ==> call_ensures(mantle64, (), module),
{
    match mantle32 {
        Some(module) => Some(module),
        None => mantle64(),
    }
}

/// The window of a present, the first field of what the present is told; 0
/// where it is told nothing.
pub fn hwnd_from_present_info(info: Option<usize>) -> (hwnd: usize)
    ensures
        hwnd == match info {
            Some(first) => first,
            None => 0,
        },
{
    match info {
        Some(first) => first,
        None => 0,
    }
}

/// The first of the two libraries that is loaded counts, and a present names its window
/// first.
pub proof fn law_first_loaded_library_counts<F: FnOnce() -> Option<usize>>(
    first: Option<usize>,
    second: F,
    module: Option<usize>,
    info: Option<usize>,
    hwnd: usize,
)
    requires
        call_ensures(mantle_module, (first, second), module),
        call_ensures(hwnd_from_present_info, (info,), hwnd),
    ensures
        first is Some ==> module == first,
        first is None ==> call_ensures(second, (), module),
        info is Some ==> hwnd == info->0,
        info is None ==> hwnd == 0,
{
}

} // verus!
