//! Reports of human interface devices.
//!
//! While the overlay is interactive, reports look empty to the game.

use vstd::prelude::*;

verus! {

/// The answer of a successful parse.
pub const HIDP_STATUS_SUCCESS: i32 = 0x0011_0000;

/// Empties a count, if there is a place for it.
pub fn empty_count(len: Option<&mut u32>)
    ensures
        len matches Some(len) ==> *final(len) == 0,
{
    if let Some(len) = len {
        *len = 0;
    }
}

/// Empties a value, if there is a place for it.
pub fn empty_value(val: Option<&mut u32>)
    ensures
        val matches Some(val) ==> *final(val) == 0,
{
    if let Some(val) = val {
        *val = 0;
    }
}

/// Parses a report: the answer, and what stands in the place for the count or
/// the value, if there is one. While the overlay is interactive nothing is
/// parsed, successfully.
pub fn parse(
    place: Option<u32>,
    interactive: bool,
    call: impl FnOnce(Option<u32>) -> (i32, Option<u32>),
) -> (outcome: (i32, Option<u32>))
    requires
        !interactive ==> call_requires(call, (place,)),
    ensures
        interactive ==> outcome.0 == HIDP_STATUS_SUCCESS && outcome.1 == if place is Some {
            Some(0u32)
        } else {
            None
        },
        !interactive ==> call_ensures(call, (place,), outcome),
{
    if interactive {
        match place {
            Some(_) => (HIDP_STATUS_SUCCESS, Some(0)),
            None => (HIDP_STATUS_SUCCESS, None),
        }
    } else {
        call(place)
    }
}

/// The functions that are detoured.
#[derive(Debug, Clone, Copy, PartialEq, Eq, Structural)]
pub enum Export {
    Attrs,
    Preparsed,
    Free,
    Product,
    Caps,
    ButtonCaps,
    ValueCaps,
    MaxData,
    GetData,
    GetUsages,
    GetUsageValue,
}

/// The real functions behind the detours, each where it could be detoured.
#[derive(Debug, Clone, Copy, PartialEq, Eq, Structural)]
pub struct Hooks {
    pub attrs: Option<usize>,
    pub preparsed: Option<usize>,
    pub free: Option<usize>,
    pub product: Option<usize>,
    pub caps: Option<usize>,
    pub button_caps: Option<usize>,
    pub value_caps: Option<usize>,
    pub max_data: Option<usize>,
    pub get_data: Option<usize>,
    pub get_usages: Option<usize>,
    pub get_usage_value: Option<usize>,
}

impl Hooks {
    /// The real function behind a detour.
    pub open spec fn original(self, export: Export) -> Option<usize> {
        match export {
            Export::Attrs => self.attrs,
            Export::Preparsed => self.preparsed,
            Export::Free => self.free,
            Export::Product => self.product,
            Export::Caps => self.caps,
            Export::ButtonCaps => self.button_caps,
            Export::ValueCaps => self.value_caps,
            Export::MaxData => self.max_data,
            Export::GetData => self.get_data,
            Export::GetUsages => self.get_usages,
            Export::GetUsageValue => self.get_usage_value,
        }
    }

    /// Nothing is detoured.
    pub fn empty() -> (hooks: Hooks)
        ensures
            hooks == (Hooks {
                attrs: None,
                preparsed: None,
                free: None,
                product: None,
                caps: None,
                button_caps: None,
                value_caps: None,
                max_data: None,
                get_data: None,
                get_usages: None,
                get_usage_value: None,
            }),
    {
        Hooks {
            attrs: None,
            preparsed: None,
            free: None,
            product: None,
            caps: None,
            button_caps: None,
            value_caps: None,
            max_data: None,
            get_data: None,
            get_usages: None,
            get_usage_value: None,
        }
    }

    /// Whether any of the functions that parse reports is detoured.
    pub fn any_attached(&self) -> (attached: bool)
        ensures
            attached == (self.get_data is Some || self.get_usages is Some || self.get_usage_value
                is Some),
    {
        self.get_data.is_some() || self.get_usages.is_some() || self.get_usage_value.is_some()
    }
}

/// Detours the functions of the library, where it is loaded. Those that the
/// library lacks are left out.
pub fn hook<F: Fn(Export, usize) -> Option<usize>>(module: Option<usize>, attach: F) -> (hooks:
    Hooks)
    requires
        module matches Some(module) ==> forall|export: Export| #[trigger]
            call_requires(attach, (export, module)),
    ensures
        module is None ==> forall|export: Export| (#[trigger] hooks.original(export)) is None,
        module is Some ==> forall|export: Export|
            call_ensures(attach, (export, module->0), #[trigger] hooks.original(export)),
{
    match module {
        None => Hooks::empty(),
        Some(module) => Hooks {
            attrs: attach(Export::Attrs, module),
            preparsed: attach(Export::Preparsed, module),
            free: attach(Export::Free, module),
            product: attach(Export::Product, module),
            caps: attach(Export::Caps, module),
            button_caps: attach(Export::ButtonCaps, module),
            value_caps: attach(Export::ValueCaps, module),
            max_data: attach(Export::MaxData, module),
            get_data: attach(Export::GetData, module),
            get_usages: attach(Export::GetUsages, module),
            get_usage_value: attach(Export::GetUsageValue, module),
        },
    }
}

/// A report that is parsed while the overlay is interactive has nothing in it,
/// successfully, where there is a place for what it has; else the real function
/// parses it into that place.
pub proof fn law_reports_look_empty_while_interactive<
    F: FnOnce(Option<u32>) -> (i32, Option<u32>),
>(place: Option<u32>, interactive: bool, call: F, outcome: (i32, Option<u32>))
    requires
        call_ensures(parse, (place, interactive, call), outcome),
    ensures
        interactive ==> outcome.0 == 0x0011_0000 && (outcome.1 is Some <==> place is Some) && (
        outcome.1 is Some ==> outcome.1->0 == 0),
        !interactive ==> call_ensures(call, (place,), outcome),
{
}

/// Only the functions that parse reports count as detoured.
pub proof fn law_parsing_detours_count(hooks: Hooks, fresh: Hooks, attached: bool, none: bool)
    requires
        call_ensures(Hooks::any_attached, (&hooks,), attached),
        call_ensures(Hooks::empty, (), fresh),
        call_ensures(Hooks::any_attached, (&fresh,), none),
    ensures
        !attached <==> (hooks.get_data is None && hooks.get_usages is None && hooks.get_usage_value
            is None),
        !none,
        fresh.attrs is None && fresh.preparsed is None && fresh.free is None && fresh.product
            is None && fresh.caps is None && fresh.button_caps is None && fresh.value_caps is None
            && fresh.max_data is None,
{
}

/// Each function of a loaded library is detoured under its own place; without
/// the library nothing is.
pub proof fn law_each_export_has_its_place<F: Fn(Export, usize) -> Option<usize>>(
    module: Option<usize>,
    attach: F,
    hooks: Hooks,
)
    requires
        call_ensures(hook::<F>, (module, attach), hooks),
    ensures
        module is Some ==> call_ensures(attach, (Export::Attrs, module->0), hooks.attrs)
            && call_ensures(attach, (Export::Preparsed, module->0), hooks.preparsed)
            && call_ensures(attach, (Export::Free, module->0), hooks.free) && call_ensures(
            attach,
            (Export::Product, module->0),
            hooks.product,
        ) && call_ensures(attach, (Export::Caps, module->0), hooks.caps) && call_ensures(
            attach,
            (Export::ButtonCaps, module->0),
            hooks.button_caps,
        ) && call_ensures(attach, (Export::ValueCaps, module->0), hooks.value_caps)
            && call_ensures(attach, (Export::MaxData, module->0), hooks.max_data) && call_ensures(
            attach,
            (Export::GetData, module->0),
            hooks.get_data,
        ) && call_ensures(attach, (Export::GetUsages, module->0), hooks.get_usages)
            && call_ensures(attach, (Export::GetUsageValue, module->0), hooks.get_usage_value),
        module is None ==> hooks.attrs is None && hooks.preparsed is None && hooks.free is None
            && hooks.product is None && hooks.caps is None && hooks.button_caps is None
            && hooks.value_caps is None && hooks.max_data is None && hooks.get_data is None
            && hooks.get_usages is None && hooks.get_usage_value is None,
{
    assert(hooks.original(Export::Attrs) == hooks.attrs);
    assert(hooks.original(Export::Preparsed) == hooks.preparsed);
    assert(hooks.original(Export::Free) == hooks.free);
    assert(hooks.original(Export::Product) == hooks.product);
    assert(hooks.original(Export::Caps) == hooks.caps);
    assert(hooks.original(Export::ButtonCaps) == hooks.button_caps);
    assert(hooks.original(Export::ValueCaps) == hooks.value_caps);
    assert(hooks.original(Export::MaxData) == hooks.max_data);
    assert(hooks.original(Export::GetData) == hooks.get_data);
    assert(hooks.original(Export::GetUsages) == hooks.get_usages);
    assert(hooks.original(Export::GetUsageValue) == hooks.get_usage_value);
}

/// A count and a value that have a place are zero once they are emptied.
pub proof fn law_emptied_numbers_are_zero(len: Option<&mut u32>, val: Option<&mut u32>)
    requires
        call_ensures(empty_count, (len,), ()),
        call_ensures(empty_value, (val,), ()),
    ensures
        len is Some ==> *final(len->0) == 0,
        val is Some ==> *final(val->0) == 0,
{
}

} // verus!
