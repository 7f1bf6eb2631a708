//! Sets of devices that the game asks the system for.
//!
//! While the overlay is interactive, the game finds no human interface devices.

use vstd::prelude::*;

verus! {

/// The error that ends an enumeration.
pub const ERROR_NO_MORE_ITEMS: u32 = 0x103;

/// The interface of human interface devices.
pub const GUID_DEVINTERFACE_HID: u128 = 0x4D1E55B2_F16F_11CF_88CB_001111000030;

/// The class of human interface devices.
pub const GUID_DEVCLASS_HIDCLASS: u128 = 0x745A17A0_74D3_11D0_B6FE_00A0C90F57DA;

/// Whether a name stands for human interface devices.
pub open spec fn hid(guid: Option<u128>) -> bool {
    guid == Some(GUID_DEVINTERFACE_HID) || guid == Some(GUID_DEVCLASS_HIDCLASS)
}

/// Whether a name stands for human interface devices.
pub fn is_hid_guid(guid: Option<u128>) -> (is_hid: bool)
    ensures
        is_hid == hid(guid),
{
    match guid {
        Some(guid) => guid == GUID_DEVINTERFACE_HID || guid == GUID_DEVCLASS_HIDCLASS,
        None => false,
    }
}

/// Whether a handle stands for a set.
pub open spec fn is_set(handle: usize) -> bool {
    handle != 0 && handle != usize::MAX
}

/// Tells the handles apart from one of them.
pub open spec fn is_not(handle: usize) -> spec_fn(usize) -> bool {
    |other: usize| other != handle
}

/// The known sets of human interface devices after the game got a set: it is
/// among them exactly if it was asked for by the name of such devices.
pub open spec fn noted(sets: Seq<usize>, handle: usize, guid: Option<u128>) -> Seq<usize> {
    if !is_set(handle) {
        sets
    } else if hid(guid) {
        sets.filter(is_not(handle)).push(handle)
    } else {
        sets.filter(is_not(handle))
    }
}

/// The sets of human interface devices that the game got.
pub struct HidSets {
    pub sets: Vec<usize>,
}

impl View for HidSets {
    type V = Seq<usize>;

    open spec fn view(&self) -> Seq<usize> {
        self.sets@
    }
}

/// Whether an enumeration is cut off.
pub open spec fn blocks(
    sets: Seq<usize>,
    handle: usize,
    iface: Option<u128>,
    interactive: bool,
) -> bool {
    interactive && (hid(iface) || sets.contains(handle))
}

impl HidSets {
    /// No sets.
    pub fn new() -> (sets: HidSets)
        ensures
            sets@.len() == 0,
    {
        HidSets { sets: Vec::new() }
    }

    /// Notes a set that the game got for a name.
    pub fn note_class_devs(&mut self, handle: usize, guid: Option<u128>)
        ensures
            final(self)@ == noted(old(self)@, handle, guid),
    {
        if handle == 0 || handle == usize::MAX {
            return ;
        }
        let mut kept: Vec<usize> = Vec::new();
        let mut i: usize = 0;
        assert(self.sets@.take(0).filter(is_not(handle)) =~= Seq::empty()) by {
            assert(self.sets@.take(0) =~= Seq::empty());
            reveal(Seq::filter);
        }
        while i < self.sets.len()
            invariant
                i <= self.sets@.len(),
                kept@ == self.sets@.take(i as int).filter(is_not(handle)),
            decreases self.sets@.len() - i,
        {
            proof {
                assert(self.sets@.take(i + 1) =~= self.sets@.take(i as int).push(
                    self.sets@[i as int],
                ));
                crate::tables::lemma_filter_push(
                    self.sets@.take(i as int),
                    self.sets@[i as int],
                    is_not(handle),
                );
            }
            if self.sets[i] != handle {
                kept.push(self.sets[i]);
            }
            i += 1;
        }
        assert(self.sets@.take(i as int) =~= self.sets@);
        if is_hid_guid(guid) {
            kept.push(handle);
        }
        self.sets = kept;
    }

    /// Whether an enumeration of a set, or of an interface in it, is cut off.
    pub fn hid_enum_blocks(&self, handle: usize, iface: Option<u128>, interactive: bool) -> (cut:
        bool)
        ensures
            cut == blocks(self@, handle, iface, interactive),
    {
        if !interactive {
            return false;
        }
        if is_hid_guid(iface) {
            return true;
        }
        let mut i: usize = 0;
        while i < self.sets.len()
            invariant
                i <= self.sets@.len(),
                interactive,
                forall|k: int| 0 <= k < i ==> self.sets@[k] != handle,
            decreases self.sets@.len() - i,
        {
            if self.sets[i] == handle {
                assert(self@.contains(self@[i as int]));
                return true;
            }
            i += 1;
        }
        false
    }

    /// Enumerates a set, or an interface in it: the answer, and the error that
    /// is set for it. An enumeration that is cut off ends at once.
    pub fn enumerate(
        &self,
        handle: usize,
        iface: Option<u128>,
        interactive: bool,
        call: impl FnOnce() -> i32,
    ) -> (outcome: (i32, Option<u32>))
        requires
            !blocks(self@, handle, iface, interactive) ==> call_requires(call, ()),
        ensures
            blocks(self@, handle, iface, interactive) ==> outcome.0 == 0 && outcome.1 == Some(
                ERROR_NO_MORE_ITEMS,
            ),
            !blocks(self@, handle, iface, interactive) ==> call_ensures(call, (), outcome.0)
                && outcome.1 is None,
    {
        if self.hid_enum_blocks(handle, iface, interactive) {
            (0, Some(ERROR_NO_MORE_ITEMS))
        } else {
            (call(), None)
        }
    }
}

/// The functions that are detoured.
#[derive(Debug, Clone, Copy, PartialEq, Eq, Structural)]
pub enum Export {
    ClassA,
    ClassW,
    EnumIf,
    EnumInfo,
    EnumDrvA,
    EnumDrvW,
}

/// The real functions behind the detours, each where it could be detoured.
#[derive(Debug, Clone, Copy, PartialEq, Eq, Structural)]
pub struct Hooks {
    pub class_a: Option<usize>,
    pub class_w: Option<usize>,
    pub enum_if: Option<usize>,
    pub enum_info: Option<usize>,
    pub enum_drv_a: Option<usize>,
    pub enum_drv_w: Option<usize>,
}

impl Hooks {
    /// The real function behind a detour.
    pub open spec fn original(self, export: Export) -> Option<usize> {
        match export {
            Export::ClassA => self.class_a,
            Export::ClassW => self.class_w,
            Export::EnumIf => self.enum_if,
            Export::EnumInfo => self.enum_info,
            Export::EnumDrvA => self.enum_drv_a,
            Export::EnumDrvW => self.enum_drv_w,
        }
    }

    /// Nothing is detoured.
    pub fn empty() -> (hooks: Hooks)
        ensures
            hooks == (Hooks {
                class_a: None,
                class_w: None,
                enum_if: None,
                enum_info: None,
                enum_drv_a: None,
                enum_drv_w: None,
            }),
    {
        Hooks {
            class_a: None,
            class_w: None,
            enum_if: None,
            enum_info: None,
            enum_drv_a: None,
            enum_drv_w: None,
        }
    }

    /// Whether the functions that get and walk sets are detoured.
    pub fn any_attached(&self) -> (attached: bool)
        ensures
            attached == (self.class_a is Some || self.enum_if is Some),
    {
        self.class_a.is_some() || self.enum_if.is_some()
    }
}

/// Detours the functions of the library, where it is loaded. Those that the
/// library lacks are left out.
pub fn hook<F: Fn(Export, usize) -> Option<usize>>(module: Option<usize>, attach: F) -> (hooks:
    Hooks)
    requires
        module matches Some(module) ==> forall|export: Export| #[trigger]
            call_requires(attach, (export, module)),
    ensures
        module is None ==> forall|export: Export| (#[trigger] hooks.original(export)) is None,
        module is Some ==> forall|export: Export|
            call_ensures(attach, (export, module->0), #[trigger] hooks.original(export)),
{
    match module {
        None => Hooks::empty(),
        Some(module) => Hooks {
            class_a: attach(Export::ClassA, module),
            class_w: attach(Export::ClassW, module),
            enum_if: attach(Export::EnumIf, module),
            enum_info: attach(Export::EnumInfo, module),
            enum_drv_a: attach(Export::EnumDrvA, module),
            enum_drv_w: attach(Export::EnumDrvW, module),
        },
    }
}

/// A set is cut off while the overlay is interactive exactly if it was last got
/// by the name of human interface devices, and getting it leaves the other sets
/// as they were.
pub proof fn law_last_name_decides(
    sets: Seq<usize>,
    handle: usize,
    guid: Option<u128>,
    other: usize,
)
    requires
        is_set(handle),
        other != handle,
    ensures
        blocks(noted(sets, handle, guid), handle, None, true) == hid(guid),
        blocks(noted(sets, handle, guid), other, None, true) == blocks(sets, other, None, true),
        !blocks(noted(sets, handle, guid), handle, guid, false),
{
    broadcast use vstd::seq_lib::group_filter_ensures;

    let kept = sets.filter(is_not(handle));
    assert(!kept.contains(handle)) by {
        if kept.contains(handle) {
            let k = kept.index_of(handle);
            assert(is_not(handle)(kept[k]));
        }
    }
    if sets.contains(other) {
        let k = sets.index_of(other);
        assert(is_not(handle)(sets[k]));
        assert(kept.contains(sets[k]));
    }
    if kept.contains(other) {
        sets.lemma_filter_contains_rev(is_not(handle), other);
    }
    let after = noted(sets, handle, guid);
    if hid(guid) {
        assert(after.last() == handle);
        assert(after.contains(other) == kept.contains(other)) by {
            if after.contains(other) {
                let k = after.index_of(other);
                assert(kept[k] == other);
            }
            if kept.contains(other) {
                let k = kept.index_of(other);
                assert(after[k] == other);
            }
        }
    }
}

/// Two names stand for human interface devices: that of their interface,
/// `4D1E55B2-F16F-11CF-88CB-001111000030`, and that of their class,
/// `745A17A0-74D3-11D0-B6FE-00A0C90F57DA`.
pub proof fn law_two_names_stand_for_hid(guid: Option<u128>, is_hid: bool)
    requires
        call_ensures(is_hid_guid, (guid,), is_hid),
    ensures
        is_hid <==> (guid == Some(0x4D1E55B2_F16F_11CF_88CB_001111000030u128) || guid == Some(
            0x745A17A0_74D3_11D0_B6FE_00A0C90F57DAu128,
        )),
{
}

/// While the overlay is interactive an enumeration is cut off if it asks for
/// the interface by name, or if its set was last got by such a name; what
/// happens to another set does not count. Else none is.
pub proof fn law_hid_sets_are_cut_off(
    sets: &mut HidSets,
    handle: usize,
    guid: Option<u128>,
    later: HidSets,
    is_hid: bool,
    iface: Option<u128>,
    asked: bool,
    interactive: bool,
    cut: bool,
    other: usize,
    before: bool,
    after: bool,
)
    requires
        call_ensures(HidSets::note_class_devs, (sets, handle, guid), ()),
        handle != 0 && handle != usize::MAX,
        later == *final(sets),
        call_ensures(is_hid_guid, (guid,), is_hid),
        call_ensures(is_hid_guid, (iface,), asked),
        call_ensures(HidSets::hid_enum_blocks, (&later, handle, iface, interactive), cut),
        other != handle,
        call_ensures(HidSets::hid_enum_blocks, (&*sets, other, iface, interactive), before),
        call_ensures(HidSets::hid_enum_blocks, (&later, other, iface, interactive), after),
    ensures
        cut <==> (interactive && (is_hid || asked)),
        after == before,
        !interactive ==> !after,
        asked && interactive ==> after,
{
    law_last_name_decides(sets@, handle, guid, other);
    assert(blocks(later@, handle, None, true) == later@.contains(handle));
    assert(blocks(later@, other, None, true) == later@.contains(other));
    assert(blocks(sets@, other, None, true) == sets@.contains(other));
}

/// A set that is none changes nothing, and no set is known at first.
pub proof fn law_no_set_is_not_noted(
    sets: &mut HidSets,
    handle: usize,
    guid: Option<u128>,
    fresh: HidSets,
    interactive: bool,
    cut: bool,
)
    requires
        call_ensures(HidSets::note_class_devs, (sets, handle, guid), ()),
        handle == 0 || handle == usize::MAX,
        call_ensures(HidSets::new, (), fresh),
        call_ensures(HidSets::hid_enum_blocks, (&fresh, handle, None::<u128>, interactive), cut),
    ensures
        final(sets)@ == old(sets)@,
        !cut,
{
}

/// An enumeration that is cut off fails with 259, as one that is at its end;
/// another is the real one, and sets no error.
pub proof fn law_cut_enumeration_is_at_its_end<F: FnOnce() -> i32>(
    sets: HidSets,
    handle: usize,
    iface: Option<u128>,
    interactive: bool,
    call: F,
    outcome: (i32, Option<u32>),
    cut: bool,
)
    requires
        call_ensures(HidSets::enumerate, (&sets, handle, iface, interactive, call), outcome),
        call_ensures(HidSets::hid_enum_blocks, (&sets, handle, iface, interactive), cut),
    ensures
        cut ==> outcome.0 == 0 && outcome.1 == Some(259u32),
        !cut ==> call_ensures(call, (), outcome.0) && outcome.1 is None,
{
}

/// Each function of a loaded library is detoured under its own place; without
/// the library nothing is. Those that get sets by bytes and walk interfaces
/// count.
pub proof fn law_each_export_has_its_place<F: Fn(Export, usize) -> Option<usize>>(
    module: Option<usize>,
    attach: F,
    hooks: Hooks,
    attached: bool,
)
    requires
        call_ensures(hook::<F>, (module, attach), hooks),
        call_ensures(Hooks::any_attached, (&hooks,), attached),
    ensures
        module is Some ==> call_ensures(attach, (Export::ClassA, module->0), hooks.class_a)
            && call_ensures(attach, (Export::ClassW, module->0), hooks.class_w) && call_ensures(
            attach,
            (Export::EnumIf, module->0),
            hooks.enum_if,
        ) && call_ensures(attach, (Export::EnumInfo, module->0), hooks.enum_info) && call_ensures(
            attach,
            (Export::EnumDrvA, module->0),
            hooks.enum_drv_a,
        ) && call_ensures(attach, (Export::EnumDrvW, module->0), hooks.enum_drv_w),
        module is None ==> hooks.class_a is None && hooks.class_w is None && hooks.enum_if is None
            && hooks.enum_info is None && hooks.enum_drv_a is None && hooks.enum_drv_w is None,
        !attached <==> (hooks.class_a is None && hooks.enum_if is None),
{
    assert(hooks.original(Export::ClassA) == hooks.class_a);
    assert(hooks.original(Export::ClassW) == hooks.class_w);
    assert(hooks.original(Export::EnumIf) == hooks.enum_if);
    assert(hooks.original(Export::EnumInfo) == hooks.enum_info);
    assert(hooks.original(Export::EnumDrvA) == hooks.enum_drv_a);
    assert(hooks.original(Export::EnumDrvW) == hooks.enum_drv_w);
}

/// Nothing is detoured at first.
pub proof fn law_nothing_is_detoured_at_first(hooks: Hooks, attached: bool)
    requires
        call_ensures(Hooks::empty, (), hooks),
        call_ensures(Hooks::any_attached, (&hooks,), attached),
    ensures
        !attached,
        hooks.class_a is None && hooks.class_w is None && hooks.enum_if is None && hooks.enum_info
            is None && hooks.enum_drv_a is None && hooks.enum_drv_w is None,
{
}

} // verus!
