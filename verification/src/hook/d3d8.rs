//! Presents of Direct3D 8.

use crate::hook::late::attach_vtbl;
use crate::int_map::WordTable;
use vstd::prelude::*;

verus! {

/// Where `CreateDevice` stands in the table of the interface.
pub const CREATE_DEVICE_VTBL: usize = 15;

/// Where `Present` stands in the table of a device.
pub const PRESENT_VTBL: usize = 15;

/// Where the window stands in the parameters of a present: after six fields of
/// four bytes.
pub const D3D8_PARAMS_HWND: usize = 24;

/// The parameters that a device presents with, as far as the window.
#[derive(Debug, Clone, Copy, PartialEq, Eq, Structural)]
pub struct PresentParams {
    pub device_window: usize,
}

/// The window that a device presents in.
pub open spec fn params_window(params: Option<PresentParams>, focus: usize) -> usize {
    if params is Some && params->0.device_window != 0 {
        params->0.device_window
    } else {
        focus
    }
}

/// The window that a device presents in: that of its parameters, else that of
/// the focus.
pub fn hwnd_from_d3d8_params(params: Option<PresentParams>, focus: usize) -> (hwnd: usize)
    ensures
        hwnd == params_window(params, focus),
{
    if let Some(params) = params {
        if params.device_window != 0 {
            return params.device_window;
        }
    }
    focus
}

/// The devices and their windows, and the real functions behind the detours.
pub struct Devices {
    pub windows: WordTable,
    pub create_device: Option<usize>,
    pub present: Option<usize>,
}

impl View for Devices {
    type V = Map<usize, usize>;

    open spec fn view(&self) -> Map<usize, usize> {
        self.windows@
    }
}

/// The windows of devices once one of them was created for `hwnd`.
pub open spec fn wrapped(windows: Map<usize, usize>, device: usize, hwnd: usize) -> Map<
    usize,
    usize,
> {
    if device != 0 && hwnd != 0 {
        windows.insert(device, hwnd)
    } else {
        windows
    }
}

/// The window of a present: the one that it names, else that of its device.
pub open spec fn presented_window(windows: Map<usize, usize>, device: usize, named: usize) -> usize {
    if named != 0 {
        named
    } else if windows.contains_key(device) {
        windows[device]
    } else {
        0
    }
}

impl Devices {
    /// No devices, nothing detoured.
    pub fn new() -> (devices: Devices)
        ensures
            devices@ == Map::<usize, usize>::empty(),
            devices.create_device is None,
            devices.present is None,
    {
        Devices { windows: WordTable::new(), create_device: None, present: None }
    }

    /// Remembers the window of a device, and detours the device's present; it
    /// is there unless the device has no table.
    pub fn wrap_device<F: FnOnce() -> Option<usize>>(
        &mut self,
        device: usize,
        hwnd: usize,
        has_present: bool,
        attach: F,
    )
        requires
            device != 0 && has_present && old(self).present is None ==> call_requires(attach, ()),
        ensures
            final(self)@ == wrapped(old(self)@, device, hwnd),
            final(self).create_device == old(self).create_device,
            if device != 0 && has_present && old(self).present is None {
                call_ensures(attach, (), final(self).present)
            } else {
                final(self).present == old(self).present
            },
    {
        if device == 0 {
            return ;
        }
        if hwnd != 0 {
            let _replaced = self.windows.insert(device, hwnd);
        }
        if has_present {
            attach_vtbl(&mut self.present, attach);
        }
    }

    /// What is done about a device that was created with `hr`: `place` is the
    /// device, where there is a place for it.
    pub fn after_create_device<F: FnOnce() -> Option<usize>>(
        &mut self,
        hr: i32,
        place: Option<usize>,
        params: Option<PresentParams>,
        focus: usize,
        has_present: bool,
        attach: F,
    )
        requires
            hr >= 0 && place is Some && place->0 != 0 && has_present && old(self).present is None
                ==> call_requires(attach, ()),
        ensures
            final(self)@ == if hr >= 0 && place is Some {
                wrapped(old(self)@, place->0, params_window(params, focus))
            } else {
                old(self)@
            },
            final(self).create_device == old(self).create_device,
            if hr >= 0 && place is Some && place->0 != 0 && has_present && old(
                self,
            ).present is None {
                call_ensures(attach, (), final(self).present)
            } else {
                final(self).present == old(self).present
            },
    {
        if hr >= 0 {
            if let Some(device) = place {
                self.wrap_device(
                    device,
                    hwnd_from_d3d8_params(params, focus),
                    has_present,
                    attach,
                );
            }
        }
    }

    /// The window of a present.
    pub fn present_hwnd(&self, device: usize, named: usize) -> (hwnd: usize)
        ensures
            hwnd == presented_window(self@, device, named),
    {
        if named != 0 {
            return named;
        }
        match self.windows.get(device) {
            Some(hwnd) => hwnd,
            None => 0,
        }
    }
}

/// A device presents in the window that it was created for, unless the present
/// names another.
pub proof fn law_device_presents_in_its_window(
    windows: Map<usize, usize>,
    device: usize,
    hwnd: usize,
    named: usize,
)
    requires
        device != 0,
        hwnd != 0,
    ensures
        presented_window(wrapped(windows, device, hwnd), device, 0) == hwnd,
        named != 0 ==> presented_window(wrapped(windows, device, hwnd), device, named) == named,
{
}

/// A device presents in the window of its parameters if they name one, else in
/// that of the focus.
pub proof fn law_parameters_name_the_window(
    params: Option<PresentParams>,
    focus: usize,
    hwnd: usize,
)
    requires
        call_ensures(hwnd_from_d3d8_params, (params, focus), hwnd),
    ensures
        params is None || params->0.device_window == 0 ==> hwnd == focus,
        params is Some && params->0.device_window != 0 ==> hwnd == params->0.device_window,
{
}

/// A device that was created for a window presents in it from then on, unless
/// the present names another; the windows of all other devices stay.
pub proof fn law_created_device_presents_in_its_window<F: FnOnce() -> Option<usize>>(
    devices: &mut Devices,
    device: usize,
    hwnd: usize,
    has_present: bool,
    attach: F,
    later: Devices,
    other: usize,
    named: usize,
    shown: usize,
    before: usize,
    after: usize,
)
    requires
        call_ensures(Devices::wrap_device::<F>, (devices, device, hwnd, has_present, attach), ()),
        device != 0 && hwnd != 0,
        later == *final(devices),
        call_ensures(Devices::present_hwnd, (&later, device, named), shown),
        other != device,
        call_ensures(Devices::present_hwnd, (&*devices, other, named), before),
        call_ensures(Devices::present_hwnd, (&later, other, named), after),
    ensures
        shown == (if named != 0 {
            named
        } else {
            hwnd
        }),
        after == before,
        named != 0 ==> after == named,
{
}

/// A device that is none, or that has no window, leaves the windows as they
/// are. The present is detoured once, and only through a device that has one.
pub proof fn law_present_is_detoured_once<F: FnOnce() -> Option<usize>>(
    devices: &mut Devices,
    device: usize,
    hwnd: usize,
    has_present: bool,
    attach: F,
)
    requires
        call_ensures(Devices::wrap_device::<F>, (devices, device, hwnd, has_present, attach), ()),
    ensures
        device == 0 || hwnd == 0 ==> final(devices)@ == old(devices)@,
        final(devices).create_device == old(devices).create_device,
        old(devices).present is Some || !has_present || device == 0 ==> final(devices).present
            == old(devices).present,
        old(devices).present is None && has_present && device != 0 ==> call_ensures(
            attach,
            (),
            final(devices).present,
        ),
{
}

/// A creation that failed, or that had no place for the device, changes
/// nothing. Else the device is remembered with the window of its parameters,
/// or of the focus.
pub proof fn law_created_device_is_remembered<F: FnOnce() -> Option<usize>>(
    devices: &mut Devices,
    hr: i32,
    place: Option<usize>,
    params: Option<PresentParams>,
    focus: usize,
    has_present: bool,
    attach: F,
    hwnd: usize,
    device: usize,
)
    requires
        call_ensures(
            Devices::after_create_device::<F>,
            (devices, hr, place, params, focus, has_present, attach),
            (),
        ),
        call_ensures(hwnd_from_d3d8_params, (params, focus), hwnd),
    ensures
        final(devices).create_device == old(devices).create_device,
        hr < 0 || place is None ==> final(devices)@ == old(devices)@ && final(devices).present
            == old(devices).present,
        hr >= 0 && place == Some(device) && device != 0 && hwnd != 0 ==> final(devices)@.contains_key(device) && final(devices)@[device] == hwnd,
        place != Some(device) ==> (final(devices)@.contains_key(device) <==> old(devices)@.contains_key(device)) && (old(devices)@.contains_key(device) ==> final(devices)@[device] == old(devices)@[device]),
        hr >= 0 && place is Some && place->0 != 0 && has_present && old(devices).present is None
            ==> call_ensures(attach, (), final(devices).present),
        old(devices).present is Some ==> final(devices).present == old(devices).present,
{
}

/// Without a device no present has a window but the one that it names.
pub proof fn law_no_device_has_a_window(devices: Devices, device: usize, named: usize, hwnd: usize)
    requires
        call_ensures(Devices::new, (), devices),
        call_ensures(Devices::present_hwnd, (&devices, device, named), hwnd),
    ensures
        hwnd == named,
        devices.create_device is None && devices.present is None,
{
}

/// A device is created, and presents, through the sixteenth function of its
/// table; its window stands in the parameters behind six fields of four bytes.
pub proof fn law_places_in_tables()
    ensures
        CREATE_DEVICE_VTBL + 1 == 16,
        PRESENT_VTBL == CREATE_DEVICE_VTBL,
        D3D8_PARAMS_HWND == 6 * 4,
{
}

} // verus!
