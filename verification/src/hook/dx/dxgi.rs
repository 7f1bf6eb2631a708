//! Swap chains of the graphics infrastructure.

use crate::compositor::independent_active;
use crate::hook::dx::dx12::{QueueState, Queues};
use crate::hook::dx::Api;
use crate::int_map::WordTable;
use crate::renderer::hdr::ColorSpaces;
use vstd::prelude::*;

pub mod factory;

verus! {

/// A present that only asks whether it would work.
pub const DXGI_PRESENT_TEST: u32 = 1;

/// The interface through which a device is drawn with; without it the version
/// is skipped.
pub fn dxgi_device_qi<T, E>(qi: Result<T, E>) -> (device: Option<T>)
    ensures
        device == match qi {
            Ok(device) => Some(device),
            Err(_) => None,
        },
{
    match qi {
        Ok(device) => Some(device),
        Err(_) => None,
    }
}

/// The same for a device of version 11.
pub fn dx11_device_qi<T, E>(qi: Result<T, E>) -> (device: Option<T>)
    ensures
        device == match qi {
            Ok(device) => Some(device),
            Err(_) => None,
        },
{
    dxgi_device_qi(qi)
}

/// The versions that are asked to draw before a present, in this order.
pub fn present_draw_apis() -> (apis: [&'static str; 3])
    ensures
        apis@[0]@ == "d3d10"@,
        apis@[1]@ == "d3d11"@,
        apis@[2]@ == "d3d12"@,
{
    ["d3d10", "d3d11", "d3d12"]
}

/// The versions that draw before a present of a swap chain, in this order.
pub fn present_apis() -> (apis: [Api; 3])
    ensures
        apis@ == seq![Api::Dx10, Api::Dx11, Api::Dx12],
{
    let apis = [Api::Dx10, Api::Dx11, Api::Dx12];
    assert(apis@ =~= seq![Api::Dx10, Api::Dx11, Api::Dx12]);
    apis
}

/// Whether the overlay is drawn into the game's buffers: it has no plane of its
/// own.
pub fn should_blit() -> (blit: bool)
    ensures
        blit,
{
    !independent_active()
}

/// Whether the overlay is drawn before a present with these flags.
pub open spec fn overlays(flags: u32) -> bool {
    flags & DXGI_PRESENT_TEST != DXGI_PRESENT_TEST
}

/// Whether the overlay is drawn before a present with these flags: not before
/// one that only asks whether it would work.
pub fn should_overlay(flags: u32) -> (overlay: bool)
    ensures
        overlay == overlays(flags),
{
    flags & DXGI_PRESENT_TEST != DXGI_PRESENT_TEST
}

/// Whether an answer counts as a lost device: it is at most that of a device
/// that hangs, or so large that adding the distance wraps around.
pub open spec fn lost(hr: i32) -> bool {
    hr <= -2005270522 || hr > 142213124
}

/// Whether an answer counts as a lost device.
pub fn present_hung_or_removed(hr: i32) -> (is_lost: bool)
    ensures
        is_lost == lost(hr),
{
    hr.wrapping_add(2005270523) <= 1
}

/// What is known of swap chains: which one a window presents through, the real
/// functions behind those of their tables, their queues and color spaces, and
/// the renderers that draw in them.
pub struct Chains {
    pub queues: Queues,
    pub colors: ColorSpaces,
    pub windows: WordTable,
    pub originals: WordTable,
    pub dx10: WordTable,
    pub dx11: WordTable,
    pub dx12: WordTable,
}

/// What is known of swap chains.
#[verifier::ext_equal]
pub ghost struct ChainState {
    pub queues: QueueState,
    pub colors: Map<usize, i32>,
    pub windows: Map<usize, usize>,
    pub originals: Map<usize, usize>,
    pub dx10: Map<usize, usize>,
    pub dx11: Map<usize, usize>,
    pub dx12: Map<usize, usize>,
}

impl View for Chains {
    type V = ChainState;

    open spec fn view(&self) -> ChainState {
        ChainState {
            queues: self.queues@,
            colors: self.colors@,
            windows: self.windows@,
            originals: self.originals@,
            dx10: self.dx10@,
            dx11: self.dx11@,
            dx12: self.dx12@,
        }
    }
}

/// The key of a window.
pub open spec fn window_key(hwnd: usize) -> usize {
    (hwnd as u32) as usize
}

impl ChainState {
    /// What is known after a version's renderer of a swap chain is torn down.
    pub open spec fn torn_down(self, api: Api, swapchain: usize) -> ChainState {
        match api {
            Api::Dx10 => ChainState {
                colors: self.colors.remove(swapchain),
                dx10: self.dx10.remove(swapchain),
                ..self
            },
            Api::Dx11 => ChainState {
                colors: self.colors.remove(swapchain),
                dx11: self.dx11.remove(swapchain),
                ..self
            },
            Api::Dx12 => ChainState {
                colors: self.colors.remove(swapchain),
                queues: self.queues.without(swapchain),
                dx12: self.dx12.remove(swapchain),
                ..self
            },
        }
    }

    /// What is known after all renderers of a swap chain are torn down.
    pub open spec fn all_torn_down(self, swapchain: usize) -> ChainState {
        self.torn_down(Api::Dx10, swapchain).torn_down(Api::Dx11, swapchain).torn_down(
            Api::Dx12,
            swapchain,
        )
    }

    /// What is known after a window was seen to present through a swap chain.
    pub open spec fn remembering(self, hwnd: Option<usize>, swapchain: usize) -> ChainState {
        if hwnd is Some && hwnd->0 != 0 {
            ChainState { windows: self.windows.insert(window_key(hwnd->0), swapchain), ..self }
        } else {
            self
        }
    }

    /// What is known after a swap chain, which a window presented through, is
    /// destroyed.
    pub open spec fn destroyed(self, hwnd: usize, swapchain: usize) -> ChainState {
        ChainState {
            queues: self.queues.without(swapchain),
            windows: if self.windows.get(window_key(hwnd)) == Some(swapchain) {
                self.windows.remove(window_key(hwnd))
            } else {
                self.windows
            },
            ..self
        }
    }
}

impl Chains {
    /// Nothing is known.
    pub fn new() -> (chains: Chains)
        ensures
            chains@ == (ChainState {
                queues: QueueState { present: Map::empty(), wrap: Map::empty() },
                colors: Map::empty(),
                windows: Map::empty(),
                originals: Map::empty(),
                dx10: Map::empty(),
                dx11: Map::empty(),
                dx12: Map::empty(),
            }),
    {
        Chains {
            queues: Queues::new(),
            colors: ColorSpaces::new(),
            windows: WordTable::new(),
            originals: WordTable::new(),
            dx10: WordTable::new(),
            dx11: WordTable::new(),
            dx12: WordTable::new(),
        }
    }

    /// Remembers the real function behind a detoured one.
    pub fn remember_orig(&mut self, target: usize, trampoline: usize)
        ensures
            final(self)@ == (ChainState {
                originals: old(self)@.originals.insert(target, trampoline),
                ..old(self)@
            }),
    {
        let _replaced = self.originals.insert(target, trampoline);
    }

    /// Detours a function of a swap chain's table, unless it already is.
    /// Detouring may fail.
    pub fn attach_if_new(&mut self, target: usize, attach: impl FnOnce(usize) -> Option<usize>)
        requires
            !old(self)@.originals.contains_key(target) ==> call_requires(attach, (target,)),
        ensures
            old(self)@.originals.contains_key(target) ==> final(self)@ == old(self)@,
            !old(self)@.originals.contains_key(target) ==> exists|made: Option<usize>| #[trigger]
                call_ensures(attach, (target,), made) && final(self)@ == match made {
                    Some(trampoline) => ChainState {
                        originals: old(self)@.originals.insert(target, trampoline),
                        ..old(self)@
                    },
                    None => old(self)@,
                },
    {
        if self.originals.get(target).is_some() {
            return ;
        }
        let made = attach(target);
        assert(call_ensures(attach, (target,), made));
        if let Some(trampoline) = made {
            self.remember_orig(target, trampoline);
        }
    }

    /// The real function behind a detoured one. Only detoured functions ask.
    pub fn original(&self, target: usize) -> (trampoline: usize)
        requires
            self@.originals.contains_key(target),
        ensures
            trampoline == self@.originals[target],
    {
        match self.originals.get(target) {
            Some(trampoline) => trampoline,
            None => 0,
        }
    }

    /// Remembers which swap chain a window presents through. Tells whether it is
    /// to be told when the swap chain is destroyed: that is the case when this
    /// was not known before.
    pub fn remember_hwnd_swapchain(&mut self, hwnd: Option<usize>, swapchain: usize) -> (watch: bool)
        ensures
            final(self)@ == old(self)@.remembering(hwnd, swapchain),
            watch == (hwnd is Some && hwnd->0 != 0 && old(self)@.windows.get(window_key(hwnd->0))
                != Some(swapchain)),
    {
        let hwnd: usize = match hwnd {
            Some(hwnd) => hwnd,
            None => {
                return false;
            },
        };
        if hwnd == 0 {
            return false;
        }
        let key: usize = (hwnd as u32) as usize;
        if self.windows.get(key) == Some(swapchain) {
            assert(self@.windows =~= self@.windows.insert(key, swapchain));
            return false;
        }
        let _replaced = self.windows.insert(key, swapchain);
        true
    }

    /// What is done when a swap chain is destroyed that a window presented
    /// through.
    pub fn on_destroyed(&mut self, hwnd: usize, swapchain: usize)
        ensures
            final(self)@ == old(self)@.destroyed(hwnd, swapchain),
    {
        self.queues.clear_present_queues(swapchain);
        self.queues.clear_wrap_queue(swapchain);
        let key: usize = (hwnd as u32) as usize;
        if self.windows.get(key) == Some(swapchain) {
            let _removed = self.windows.remove(key);
        }
    }

    /// The swap chain that a window is known to present through.
    pub fn swapchain_for_hwnd(&self, hwnd: usize) -> (swapchain: Option<usize>)
        ensures
            swapchain == self@.windows.get(window_key(hwnd)),
    {
        self.windows.get((hwnd as u32) as usize)
    }

    /// Forgets a version's renderer of a swap chain; the renderer is returned,
    /// to be dropped.
    pub fn teardown_swapchain(&mut self, api: Api, swapchain: usize) -> (gone: Option<usize>)
        ensures
            final(self)@ == old(self)@.torn_down(api, swapchain),
            gone == match api {
                Api::Dx10 => old(self)@.dx10.get(swapchain),
                Api::Dx11 => old(self)@.dx11.get(swapchain),
                Api::Dx12 => old(self)@.dx12.get(swapchain),
            },
    {
        self.colors.forget_swapchain_color_space(swapchain);
        match api {
            Api::Dx10 => self.dx10.remove(swapchain),
            Api::Dx11 => self.dx11.remove(swapchain),
            Api::Dx12 => {
                self.queues.clear_present_queues(swapchain);
                self.queues.clear_wrap_queue(swapchain);
                self.dx12.remove(swapchain)
            },
        }
    }

    /// Forgets all renderers of a swap chain; they are returned, to be dropped.
    pub fn teardown_present_renderers(&mut self, swapchain: usize) -> (gone: [Option<usize>; 3])
        ensures
            final(self)@ == old(self)@.all_torn_down(swapchain),
            gone@ == seq![
                old(self)@.dx10.get(swapchain),
                old(self)@.dx11.get(swapchain),
                old(self)@.dx12.get(swapchain),
            ],
    {
        let dx10 = self.teardown_swapchain(Api::Dx10, swapchain);
        let dx11 = self.teardown_swapchain(Api::Dx11, swapchain);
        let dx12 = self.teardown_swapchain(Api::Dx12, swapchain);
        let gone = [dx10, dx11, dx12];
        assert(gone@ =~= seq![
            old(self)@.dx10.get(swapchain),
            old(self)@.dx11.get(swapchain),
            old(self)@.dx12.get(swapchain),
        ]);
        gone
    }

    /// What is done before a present: the window's swap chain is remembered.
    /// Tells whether it is to be told when the swap chain is destroyed, and
    /// whether the overlay is drawn.
    pub fn before_present(
        &mut self,
        hwnd: Option<usize>,
        swapchain: usize,
        flags: u32,
        connected: bool,
    ) -> (outcome: (bool, bool))
        ensures
            final(self)@ == old(self)@.remembering(hwnd, swapchain),
            outcome.0 == (hwnd is Some && hwnd->0 != 0 && old(self)@.windows.get(
                window_key(hwnd->0),
            ) != Some(swapchain)),
            outcome.1 == (overlays(flags) && connected),
    {
        let watch = self.remember_hwnd_swapchain(hwnd, swapchain);
        (watch, should_overlay(flags) && connected)
    }

    /// What is done after a present: the renderers of a swap chain whose device
    /// is lost are torn down, and returned, to be dropped.
    pub fn after_present(&mut self, swapchain: usize, hr: i32) -> (gone: Option<[Option<usize>; 3]>)
        ensures
            final(self)@ == if lost(hr) {
                old(self)@.all_torn_down(swapchain)
            } else {
                old(self)@
            },
            gone is Some <==> lost(hr),
            gone matches Some(gone) ==> gone@ == seq![
                old(self)@.dx10.get(swapchain),
                old(self)@.dx11.get(swapchain),
                old(self)@.dx12.get(swapchain),
            ],
    {
        if present_hung_or_removed(hr) {
            Some(self.teardown_present_renderers(swapchain))
        } else {
            None
        }
    }
}

/// Once the renderers of a swap chain are torn down nothing of them is left:
/// neither a renderer nor a queue nor a color space. Other swap chains keep what
/// they had.
pub proof fn law_teardown_leaves_nothing(state: ChainState, swapchain: usize, other: usize)
    requires
        other != swapchain,
    ensures
        ({
            let after = state.all_torn_down(swapchain);
            &&& !after.dx10.contains_key(swapchain)
            &&& !after.dx11.contains_key(swapchain)
            &&& !after.dx12.contains_key(swapchain)
            &&& !after.colors.contains_key(swapchain)
            &&& forall|index: u32| (#[trigger] after.queues.queue_for(swapchain, index)) is None
            &&& after.dx10.get(other) == state.dx10.get(other)
            &&& after.dx11.get(other) == state.dx11.get(other)
            &&& after.dx12.get(other) == state.dx12.get(other)
            &&& after.colors.get(other) == state.colors.get(other)
            &&& forall|index: u32|
                (#[trigger] after.queues.queue_for(other, index)) == state.queues.queue_for(
                    other,
                    index,
                )
        }),
{
}

/// A window's swap chain is the one that it was last seen to present through,
/// until that one is destroyed; the end of an earlier one changes nothing.
pub proof fn law_last_swapchain_counts(
    state: ChainState,
    hwnd: usize,
    earlier: usize,
    swapchain: usize,
)
    requires
        hwnd != 0,
        earlier != swapchain,
    ensures
        ({
            let seen = state.remembering(Some(hwnd), earlier).remembering(Some(hwnd), swapchain);
            &&& seen.windows.get(window_key(hwnd)) == Some(swapchain)
            &&& seen.destroyed(hwnd, earlier).windows.get(window_key(hwnd)) == Some(swapchain)
            &&& seen.destroyed(hwnd, swapchain).windows.get(window_key(hwnd)) is None
        }),
{
}

/// An interface that a device has is used as it is, for either version; without
/// it there is none.
pub proof fn law_interface_is_used_as_it_is<T, E>(
    qi: Result<T, E>,
    device: Option<T>,
    older: Option<T>,
)
    requires
        call_ensures(dxgi_device_qi::<T, E>, (qi,), device),
        call_ensures(dx11_device_qi::<T, E>, (qi,), older),
    ensures
        qi is Ok ==> device == Some(qi->Ok_0),
        qi is Err ==> device is None,
        older == device,
{
}

/// The versions draw before a present from the oldest to the newest, and are
/// named so.
pub proof fn law_versions_draw_in_order(apis: [Api; 3], names: [&'static str; 3])
    requires
        call_ensures(present_apis, (), apis),
        call_ensures(present_draw_apis, (), names),
    ensures
        apis@[0] is Dx10 && apis@[1] is Dx11 && apis@[2] is Dx12,
        names@[0]@ == "d3d10"@ && names@[1]@ == "d3d11"@ && names@[2]@ == "d3d12"@,
{
}

/// The overlay is drawn into the game's buffers, unless a present has its
/// lowest flag set.
pub proof fn law_test_presents_are_not_drawn(flags: u32, overlay: bool, blit: bool)
    requires
        call_ensures(should_overlay, (flags,), overlay),
        call_ensures(should_blit, (), blit),
    ensures
        blit,
        overlay <==> flags % 2 == 0,
{
    assert((flags & 1 != 1) == (flags % 2 == 0)) by (bit_vector);
}

/// A device counts as lost by the two answers for a removed and a hung one and
/// by all below them, and by answers so large that their distance from the
/// former does not fit.
pub proof fn law_lost_devices_are_told_by_their_answer(hr: i32, is_lost: bool)
    requires
        call_ensures(present_hung_or_removed, (hr,), is_lost),
    ensures
        hr == 0x887A_0005 - 0x1_0000_0000 ==> is_lost,
        hr == 0x887A_0006 - 0x1_0000_0000 ==> is_lost,
        hr < 0x887A_0005 - 0x1_0000_0000 ==> is_lost,
        0x887A_0006 - 0x1_0000_0000 < hr && hr + 0x7785_FFFB <= 0x7FFF_FFFF ==> !is_lost,
        hr + 0x7785_FFFB > 0x7FFF_FFFF ==> is_lost,
{
}

/// A real function is found behind the function that it was remembered for, and
/// the others stay.
pub proof fn law_real_functions_are_found(
    chains: &mut Chains,
    target: usize,
    trampoline: usize,
    later: Chains,
    found: usize,
    other: usize,
)
    requires
        call_ensures(Chains::remember_orig, (chains, target, trampoline), ()),
        later == *final(chains),
        call_ensures(Chains::original, (&later, target), found),
        other != target,
    ensures
        found == trampoline,
        final(chains)@.originals.get(other) == old(chains)@.originals.get(other),
        final(chains)@.windows == old(chains)@.windows && final(chains)@.queues == old(chains)@.queues && final(chains)@.colors == old(chains)@.colors,
{
}

/// A function of a table is detoured once; a failure is not remembered.
pub proof fn law_table_function_is_detoured_once<F: FnOnce(usize) -> Option<usize>>(
    chains: &mut Chains,
    target: usize,
    attach: F,
)
    requires
        call_ensures(Chains::attach_if_new, (chains, target, attach), ()),
    ensures
        old(chains)@.originals.contains_key(target) ==> final(chains)@ == old(chains)@,
        !old(chains)@.originals.contains_key(target) ==> exists|made: Option<usize>| #[trigger]
            call_ensures(attach, (target,), made) && final(chains)@.originals.get(target) == made
                && (made is None ==> final(chains)@ == old(chains)@),
{
    if !old(chains)@.originals.contains_key(target) {
        let made = choose|made: Option<usize>| #[trigger]
            call_ensures(attach, (target,), made) && final(chains)@ == match made {
                Some(trampoline) => ChainState {
                    originals: old(chains)@.originals.insert(target, trampoline),
                    ..old(chains)@
                },
                None => old(chains)@,
            };
        assert(call_ensures(attach, (target,), made));
    }
}

/// A window's swap chain is the one that it was last remembered with. It is
/// watched once, when it is first remembered; a window that is none, or that
/// was not found, changes nothing.
pub proof fn law_windows_swapchain_is_remembered(
    chains: &mut Chains,
    hwnd: Option<usize>,
    swapchain: usize,
    watch: bool,
    next: &mut Chains,
    again: bool,
    later: Chains,
    found: Option<usize>,
)
    requires
        call_ensures(Chains::remember_hwnd_swapchain, (chains, hwnd, swapchain), watch),
        *next == *final(chains),
        call_ensures(Chains::remember_hwnd_swapchain, (next, hwnd, swapchain), again),
        later == *final(next),
        hwnd is Some ==> call_ensures(Chains::swapchain_for_hwnd, (&later, hwnd->0), found),
    ensures
        hwnd is None || hwnd == Some(0usize) ==> !watch && final(chains)@ == old(chains)@,
        hwnd is Some && hwnd->0 != 0 ==> found == Some(swapchain),
        !again,
        final(chains)@.queues == old(chains)@.queues && final(chains)@.dx12 == old(chains)@.dx12
            && final(chains)@.originals == old(chains)@.originals,
{
}

/// A swap chain that was watched for a window and is destroyed has neither
/// queue nor window left; a window that presents through another by then keeps
/// that, and so does every other swap chain its queues.
pub proof fn law_destroyed_swapchain_is_forgotten(
    chains: &mut Chains,
    hwnd: usize,
    swapchain: usize,
    before: Option<usize>,
    later: Chains,
    after: Option<usize>,
    other: usize,
    index: u32,
)
    requires
        call_ensures(Chains::swapchain_for_hwnd, (&*chains, hwnd), before),
        call_ensures(Chains::on_destroyed, (chains, hwnd, swapchain), ()),
        later == *final(chains),
        call_ensures(Chains::swapchain_for_hwnd, (&later, hwnd), after),
        other != swapchain,
    ensures
        before == Some(swapchain) ==> after is None,
        before != Some(swapchain) ==> after == before,
        final(chains)@.queues.present.get(swapchain) is None,
        final(chains)@.queues.wrap.get(swapchain) is None,
        final(chains)@.queues.queue_for(other, index) == old(chains)@.queues.queue_for(
            other,
            index,
        ),
        final(chains)@.dx10 == old(chains)@.dx10 && final(chains)@.dx11 == old(chains)@.dx11
            && final(chains)@.dx12 == old(chains)@.dx12,
{
}

/// A version's renderer of a swap chain is handed back and forgotten, with the
/// color space of the swap chain, and for version 12 with its queues. Other
/// versions and other swap chains keep what they have.
pub proof fn law_torn_down_renderer_is_handed_back(
    chains: &mut Chains,
    api: Api,
    swapchain: usize,
    gone: Option<usize>,
    other: usize,
)
    requires
        call_ensures(Chains::teardown_swapchain, (chains, api, swapchain), gone),
        other != swapchain,
    ensures
        final(chains)@.colors.get(swapchain) is None,
        api is Dx10 ==> gone == old(chains)@.dx10.get(swapchain) && final(chains)@.dx10.get(
            swapchain,
        ) is None && final(chains)@.dx11 == old(chains)@.dx11 && final(chains)@.dx12 == old(chains)@.dx12 && final(chains)@.queues == old(chains)@.queues,
        api is Dx11 ==> gone == old(chains)@.dx11.get(swapchain) && final(chains)@.dx11.get(
            swapchain,
        ) is None && final(chains)@.dx10 == old(chains)@.dx10 && final(chains)@.dx12 == old(chains)@.dx12 && final(chains)@.queues == old(chains)@.queues,
        api is Dx12 ==> gone == old(chains)@.dx12.get(swapchain) && final(chains)@.dx12.get(
            swapchain,
        ) is None && final(chains)@.dx10 == old(chains)@.dx10 && final(chains)@.dx11 == old(chains)@.dx11 && final(chains)@.queues.wrap.get(swapchain) is None && final(chains)@.queues.present.get(swapchain) is None,
        final(chains)@.dx10.get(other) == old(chains)@.dx10.get(other),
        final(chains)@.dx11.get(other) == old(chains)@.dx11.get(other),
        final(chains)@.dx12.get(other) == old(chains)@.dx12.get(other),
        final(chains)@.colors.get(other) == old(chains)@.colors.get(other),
        final(chains)@.queues.wrap.get(other) == old(chains)@.queues.wrap.get(other),
        final(chains)@.windows == old(chains)@.windows,
        final(chains)@.originals == old(chains)@.originals,
{
}

/// After a present on a lost device the swap chain's three renderers are handed
/// back, the oldest version's first, and none of them is left; after any other
/// nothing changes.
pub proof fn law_lost_device_takes_its_renderers(
    chains: &mut Chains,
    swapchain: usize,
    hr: i32,
    gone: Option<[Option<usize>; 3]>,
    is_lost: bool,
    other: usize,
)
    requires
        call_ensures(Chains::after_present, (chains, swapchain, hr), gone),
        call_ensures(present_hung_or_removed, (hr,), is_lost),
        other != swapchain,
    ensures
        !is_lost ==> gone is None && final(chains)@ == old(chains)@,
        is_lost ==> gone is Some && (gone->0)@[0] == old(chains)@.dx10.get(swapchain) && (
        gone->0)@[1] == old(chains)@.dx11.get(swapchain) && (gone->0)@[2] == old(chains)@.dx12.get(
            swapchain,
        ),
        is_lost ==> final(chains)@.dx10.get(swapchain) is None && final(chains)@.dx11.get(
            swapchain,
        ) is None && final(chains)@.dx12.get(swapchain) is None && final(chains)@.colors.get(
            swapchain,
        ) is None && final(chains)@.queues.wrap.get(swapchain) is None,
        final(chains)@.dx10.get(other) == old(chains)@.dx10.get(other),
        final(chains)@.dx11.get(other) == old(chains)@.dx11.get(other),
        final(chains)@.dx12.get(other) == old(chains)@.dx12.get(other),
        final(chains)@.windows == old(chains)@.windows,
{
}

/// Before a present the window's swap chain is remembered, whoever is there;
/// the overlay is drawn for clients only, and not for a present that only asks.
pub proof fn law_present_is_drawn_for_clients(
    chains: &mut Chains,
    hwnd: Option<usize>,
    swapchain: usize,
    flags: u32,
    connected: bool,
    outcome: (bool, bool),
    overlay: bool,
    later: Chains,
    found: Option<usize>,
)
    requires
        call_ensures(Chains::before_present, (chains, hwnd, swapchain, flags, connected), outcome),
        call_ensures(should_overlay, (flags,), overlay),
        later == *final(chains),
        hwnd is Some ==> call_ensures(Chains::swapchain_for_hwnd, (&later, hwnd->0), found),
    ensures
        outcome.1 <==> (overlay && connected),
        hwnd is Some && hwnd->0 != 0 ==> found == Some(swapchain),
        outcome.0 ==> hwnd is Some && hwnd->0 != 0 && final(chains)@.windows != old(chains)@.windows,
        !outcome.0 ==> final(chains)@.windows == old(chains)@.windows,
{
    if hwnd is Some && hwnd->0 != 0 {
        let key = window_key(hwnd->0);
        if old(chains)@.windows.get(key) == Some(swapchain) {
            assert(old(chains)@.windows.insert(key, swapchain) =~= old(chains)@.windows);
        } else {
            assert(final(chains)@.windows.get(key) == Some(swapchain));
        }
    }
}

/// Nothing is known at first.
pub proof fn law_nothing_is_known_at_first(chains: Chains, hwnd: usize, found: Option<usize>)
    requires
        call_ensures(Chains::new, (), chains),
        call_ensures(Chains::swapchain_for_hwnd, (&chains, hwnd), found),
    ensures
        found is None,
        chains@.originals.get(hwnd) is None && chains@.dx10.get(hwnd) is None && chains@.dx11.get(
            hwnd,
        ) is None && chains@.dx12.get(hwnd) is None,
{
}

/// All renderers of a swap chain are handed back, the oldest version's first, and
/// none is left, nor a queue or a color space; other swap chains keep theirs.
pub proof fn law_all_renderers_are_handed_back(
    chains: &mut Chains,
    swapchain: usize,
    gone: [Option<usize>; 3],
    other: usize,
)
    requires
        call_ensures(Chains::teardown_present_renderers, (chains, swapchain), gone),
        other != swapchain,
    ensures
        gone@[0] == old(chains)@.dx10.get(swapchain),
        gone@[1] == old(chains)@.dx11.get(swapchain),
        gone@[2] == old(chains)@.dx12.get(swapchain),
        final(chains)@.dx10.get(swapchain) is None && final(chains)@.dx11.get(swapchain) is None
            && final(chains)@.dx12.get(swapchain) is None,
        final(chains)@.colors.get(swapchain) is None,
        final(chains)@.queues.wrap.get(swapchain) is None && final(chains)@.queues.present.get(
            swapchain,
        ) is None,
        final(chains)@.dx10.get(other) == old(chains)@.dx10.get(other),
        final(chains)@.dx11.get(other) == old(chains)@.dx11.get(other),
        final(chains)@.dx12.get(other) == old(chains)@.dx12.get(other),
        final(chains)@.colors.get(other) == old(chains)@.colors.get(other),
        final(chains)@.windows == old(chains)@.windows,
{
}

} // verus!
