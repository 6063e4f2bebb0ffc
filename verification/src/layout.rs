//! Which context is active: the one made for the window that has the focus and
//! for the layout that is chosen, and how the layout advances to the next one
//! that has a context.
use vstd::prelude::*;
use crate::config::Config;
use crate::udev_monitor::Client;

verus! {

/// The number of layout slots: layouts run from 0 to 3.
pub const LAYOUT_SLOTS: u16 = 4;

/// The place of the context for `window` and `layout` among `configs`: that of the
/// first one, should there be several.
pub open spec fn context_index(configs: Seq<Config>, window: Option<Seq<char>>, layout: u16)
    -> Option<int>
    decreases configs.len(),
{
    if configs.len() == 0 {
        None
    } else {
        match context_index(configs.drop_last(), window, layout) {
            Some(i) => Some(i),
            None => if configs.last().associations@ == (window, layout) {
                Some(configs.len() - 1)
            } else {
                None
            },
        }
    }
}

/// `context_index` gives the first context that is made for the window and the
/// layout, and none exactly where no context is made for them.
pub proof fn lemma_context_index(configs: Seq<Config>, window: Option<Seq<char>>, layout: u16)
    ensures
        match context_index(configs, window, layout) {
            Some(i) => 0 <= i < configs.len() && configs[i].associations@ == (window, layout)
                && forall|j: int| 0 <= j < i ==> (#[trigger] configs[j]).associations@ != (
                    window,
                    layout,
                ),
            None => forall|j: int|
                0 <= j < configs.len() ==> (#[trigger] configs[j]).associations@ != (
                    window,
                    layout,
                ),
        },
    decreases configs.len(),
{
    if configs.len() > 0 {
        let c0 = configs.drop_last();
        lemma_context_index(c0, window, layout);
        assert(forall|j: int| 0 <= j < c0.len() ==> c0[j] == configs[j]);
    }
}

/// Looks up the context for `window` and `layout`.
pub fn find_context(configs: &Vec<Config>, window: &Client, layout: u16) -> (r: Option<usize>)
    ensures
        match r {
            Some(i) => context_index(configs@, window@, layout) == Some(i as int) && i
                < configs@.len(),
            None => context_index(configs@, window@, layout) is None,
        },
{
    let mut i: usize = 0;
    while i < configs.len()
        invariant
            i <= configs@.len(),
            forall|j: int|
                0 <= j < i ==> (#[trigger] configs@[j]).associations@ != (window@, layout),
        decreases configs@.len() - i,
    {
        if configs[i].associations.layout == layout && configs[i].associations.client.same(
            window,
        ) {
            proof {
                lemma_context_index(configs@, window@, layout);
            }
            return Some(i);
        }
        i += 1;
    }
    proof {
        lemma_context_index(configs@, window@, layout);
    }
    None
}

/// The layout slot after `layout`: 0 comes after the last slot.
pub open spec fn next_layout(layout: u16) -> u16 {
    if layout >= 3 {
        0
    } else {
        (layout + 1) as u16
    }
}

/// The layout that advancing from `layout` lands on, for the window `window`: the
/// first of the next `steps` slots, taken in order and around the end, for which
/// a context is made. `None` where none of them has a context.
pub open spec fn advanced(
    configs: Seq<Config>,
    window: Option<Seq<char>>,
    layout: u16,
    steps: nat,
) -> Option<u16>
    decreases steps,
{
    if steps == 0 {
        None
    } else if context_index(configs, window, next_layout(layout)) is Some {
        Some(next_layout(layout))
    } else {
        advanced(configs, window, next_layout(layout), (steps - 1) as nat)
    }
}

/// Advances the layout to the next slot that has a context for `window`. All four
/// slots are tried, the last of them being `layout` itself where it is a slot;
/// `None` where no slot has a context for the window.
pub fn change_active_layout(configs: &Vec<Config>, window: &Client, layout: u16) -> (r: Option<
    u16,
>)
    ensures
        r == advanced(configs@, window@, layout, LAYOUT_SLOTS as nat),
{
    let mut slot: u16 = layout;
    let mut tried: u16 = 0;
    while tried < LAYOUT_SLOTS
        invariant
            tried <= LAYOUT_SLOTS,
            advanced(configs@, window@, layout, LAYOUT_SLOTS as nat) == advanced(
                configs@,
                window@,
                slot,
                (LAYOUT_SLOTS - tried) as nat,
            ),
        decreases LAYOUT_SLOTS - tried,
    {
        slot = if slot >= 3 {
            0
        } else {
            slot + 1
        };
        if find_context(configs, window, slot).is_some() {
            return Some(slot);
        }
        tried += 1;
    }
    None
}

/// The context that becomes active, and the layout.
#[derive(Debug, PartialEq, Eq, Structural, Hash, Clone, Copy)]
pub struct Selection {
    /// The place of the context among the contexts of the device.
    pub context: usize,
    pub layout: u16,
    /// Whether the layout had to advance to find the context.
    pub switched: bool,
}

/// The context for the window `window` under the layout `layout`. Where one is
/// made for exactly the two, it is the one. Else the layout advances, and the
/// context is the one for the window and the layout that this lands on. Where no
/// slot has a context for the window, the context is that at `fallback`, under
/// layout 0.
pub open spec fn selected(
    configs: Seq<Config>,
    window: Option<Seq<char>>,
    layout: u16,
    fallback: usize,
) -> Selection {
    match context_index(configs, window, layout) {
        Some(i) => Selection { context: i as usize, layout, switched: false },
        None => match advanced(configs, window, layout, LAYOUT_SLOTS as nat) {
            Some(slot) => Selection {
                context: context_index(configs, window, slot)->0 as usize,
                layout: slot,
                switched: true,
            },
            None => Selection { context: fallback, layout: 0, switched: false },
        },
    }
}

/// Every layout that advancing lands on has a context for the window.
pub proof fn lemma_advanced(
    configs: Seq<Config>,
    window: Option<Seq<char>>,
    layout: u16,
    steps: nat,
)
    ensures
        advanced(configs, window, layout, steps) matches Some(slot) ==> slot <= 3
            && context_index(configs, window, slot) is Some,
    decreases steps,
{
    if steps > 0 && context_index(configs, window, next_layout(layout)) is None {
        lemma_advanced(configs, window, next_layout(layout), (steps - 1) as nat);
    }
}

/// Layout wraparound. Where a window has contexts for the layouts 0 and 2 and
/// for no other slot, advancing from layout 0 lands on layout 2, which skips
/// layout 1, and advancing from layout 2 or from layout 3 lands on layout 0.
pub proof fn lemma_layout_wraparound(configs: Seq<Config>, window: Option<Seq<char>>)
    requires
        context_index(configs, window, 0) is Some,
        context_index(configs, window, 1) is None,
        context_index(configs, window, 2) is Some,
        context_index(configs, window, 3) is None,
    ensures
        advanced(configs, window, 0, LAYOUT_SLOTS as nat) == Some(2u16),
        advanced(configs, window, 2, LAYOUT_SLOTS as nat) == Some(0u16),
        advanced(configs, window, 3, LAYOUT_SLOTS as nat) == Some(0u16),
{
    reveal_with_fuel(advanced, 3);
}

/// Selects the context for `window` under `layout`.
pub fn update_config(configs: &Vec<Config>, window: &Client, layout: u16, fallback: usize) -> (r:
    Selection)
    requires
        fallback < configs@.len(),
    ensures
        r == selected(configs@, window@, layout, fallback),
        r.context < configs@.len(),
{
    match find_context(configs, window, layout) {
        Some(i) => Selection { context: i, layout, switched: false },
        None => match change_active_layout(configs, window, layout) {
            Some(slot) => {
                proof {
                    lemma_advanced(configs@, window@, layout, LAYOUT_SLOTS as nat);
                }
                match find_context(configs, window, slot) {
                    Some(i) => Selection { context: i, layout: slot, switched: true },
                    None => Selection { context: fallback, layout: 0, switched: false },
                }
            },
            None => Selection { context: fallback, layout: 0, switched: false },
        },
    }
}

} // verus!
