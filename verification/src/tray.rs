//! The symbol beside the clock. It shows the colour of the traffic light.

use vstd::arithmetic::power2::pow2;
use vstd::prelude::*;

use crate::app::rgb;
use crate::app::zone_rgb;
use crate::level::Zone;
use crate::single::whole_of;
use crate::single::Single;
use crate::text::same;

verus! {

/// Pixels along a side of the symbol.
pub const ICON_SIZE: u32 = 32;

#[derive(Clone, Copy, Debug, PartialEq, Eq, Structural)]
pub enum TrayAction {
    OpenSettings,
    ToggleMute,
    Quit,
}

/// The entries of the menu, by their ids.
pub struct Menu {
    pub settings_id: String,
    pub mute_id: String,
    pub quit_id: String,
}

impl Menu {
    /// What a click on an entry means; entries that are not ours mean nothing.
    pub open spec fn meaning(self, id: Seq<char>) -> Option<TrayAction> {
        if id == self.settings_id@ {
            Some(TrayAction::OpenSettings)
        } else if id == self.mute_id@ {
            Some(TrayAction::ToggleMute)
        } else if id == self.quit_id@ {
            Some(TrayAction::Quit)
        } else {
            None
        }
    }

    pub fn action(&self, id: &str) -> (r: Option<TrayAction>)
        ensures
            r == self.meaning(id@),
    {
        if same(id, self.settings_id.as_str()) {
            Some(TrayAction::OpenSettings)
        } else if same(id, self.mute_id.as_str()) {
            Some(TrayAction::ToggleMute)
        } else if same(id, self.quit_id.as_str()) {
            Some(TrayAction::Quit)
        } else {
            None
        }
    }

    /// What the clicks on entries mean, one after another.
    pub open spec fn meanings(self, ids: Seq<String>) -> Seq<TrayAction>
        decreases ids.len(),
    {
        if ids.len() == 0 {
            Seq::empty()
        } else {
            match self.meaning(ids.last()@) {
                Some(action) => self.meanings(ids.drop_last()).push(action),
                None => self.meanings(ids.drop_last()),
            }
        }
    }

    /// What there is to do: first the clicks in the menu in their order, then one opening of the
    /// settings for each left click on the symbol.
    pub fn poll(&self, ids: &Vec<String>, clicks: usize) -> (actions: Vec<TrayAction>)
        ensures
            actions@ == self.meanings(ids@) + Seq::new(clicks as nat, |i: int| TrayAction::OpenSettings),
    {
        let mut actions: Vec<TrayAction> = Vec::new();
        let mut n: usize = 0;
        while n < ids.len()
            invariant
                n <= ids@.len(),
                actions@ == self.meanings(ids@.take(n as int)),
            decreases ids@.len() - n,
        {
            let action = self.action(ids[n].as_str());
            proof {
                let more = ids@.take(n + 1);
                assert(more.drop_last() =~= ids@.take(n as int));
                assert(more.last() == ids@[n as int]);
            }
            if let Some(a) = action {
                actions.push(a);
            }
            n = n + 1;
        }
        assert(ids@.take(n as int) =~= ids@);
        let ghost menu = actions@;
        let mut c: usize = 0;
        while c < clicks
            invariant
                c <= clicks,
                actions@ == menu + Seq::new(c as nat, |i: int| TrayAction::OpenSettings),
            decreases clicks - c,
        {
            actions.push(TrayAction::OpenSettings);
            assert(actions@ =~= menu + Seq::new((c + 1) as nat, |i: int| TrayAction::OpenSettings));
            c = c + 1;
        }
        assert(actions@ =~= menu + Seq::new(clicks as nat, |i: int| TrayAction::OpenSettings));
        actions
    }
}

/// What the symbol shows.
#[derive(Clone, Copy, Debug, PartialEq, Eq, Structural)]
pub struct TrayState {
    pub zone: Zone,
    pub muted: bool,
}

impl TrayState {
    pub fn new() -> (s: TrayState)
        ensures
            s == (TrayState { zone: Zone::Green, muted: false }),
    {
        TrayState { zone: Zone::Green, muted: false }
    }

    /// Shows this from now on. Says whether it is something new, so that the symbol has to be
    /// drawn again.
    pub fn set_state(&mut self, zone: Zone, muted: bool) -> (changed: bool)
        ensures
            *final(self) == (TrayState { zone, muted }),
            changed == (*old(self) != (TrayState { zone, muted })),
    {
        let changed = zone != self.zone || muted != self.muted;
        self.zone = zone;
        self.muted = muted;
        changed
    }
}

/// The colour inside the circle: grey when muted, else that of the traffic light.
pub fn icon_rgb(zone: Zone, muted: bool) -> (r: [u8; 3])
    ensures
        r@ == if muted {
            seq![120u8, 120u8, 126u8]
        } else {
            rgb(zone)
        },
{
    if muted {
        let grey: [u8; 3] = [120, 120, 126];
        assert(grey@ =~= seq![120u8, 120u8, 126u8]);
        grey
    } else {
        zone_rgb(zone)
    }
}

/// The circle has a radius of 14 pixels; muted, its outer 4 are a ring.
pub fn in_ring(muted: bool, distance: Single) -> (r: bool)
    ensures
        r == (muted && whole_of(10).less(distance)),
{
    muted && Single::whole(10).lt(distance)
}

/// Each entry of the menu means what it says, whatever else was clicked; entries of others mean
/// nothing.
pub proof fn law_entries_mean_what_they_say(m: &Menu, id: &str, r: Option<TrayAction>)
    requires
        call_ensures(Menu::action, (m, id), r),
        m.settings_id@ != m.mute_id@,
        m.settings_id@ != m.quit_id@,
        m.mute_id@ != m.quit_id@,
    ensures
        r == Some(TrayAction::OpenSettings) <==> id@ == m.settings_id@,
        r == Some(TrayAction::ToggleMute) <==> id@ == m.mute_id@,
        r == Some(TrayAction::Quit) <==> id@ == m.quit_id@,
        r is None <==> id@ != m.settings_id@ && id@ != m.mute_id@ && id@ != m.quit_id@,
{
}

/// Clicks are done one after another, those in the menu before those on the symbol, and none is
/// lost: one click more is one thing more to do.
pub proof fn law_no_click_is_lost(
    m: &Menu,
    ids: &Vec<String>,
    clicks: usize,
    actions: Vec<TrayAction>,
    fewer: &Vec<String>,
    before: Vec<TrayAction>,
    last: &str,
    meant: Option<TrayAction>,
)
    requires
        call_ensures(Menu::poll, (m, ids, 0usize), actions),
        call_ensures(Menu::poll, (m, fewer, 0usize), before),
        call_ensures(Menu::action, (m, last), meant),
        ids@.len() > 0,
        fewer@ == ids@.drop_last(),
        ids@.last()@ == last@,
    ensures
        meant matches Some(action) ==> actions@ == before@.push(action),
        meant is None ==> actions@ == before@,
{
    assert(actions@ =~= m.meanings(ids@));
    assert(before@ =~= m.meanings(fewer@));
}

/// Every left click on the symbol opens the settings.
pub proof fn law_left_clicks_open_the_settings(m: &Menu, ids: &Vec<String>, clicks: usize, actions: Vec<TrayAction>)
    requires
        call_ensures(Menu::poll, (m, ids, clicks), actions),
        ids@.len() == 0,
    ensures
        actions@.len() == clicks,
        forall|i: int| 0 <= i < actions@.len() ==> #[trigger] actions@[i] == TrayAction::OpenSettings,
{
}

/// The symbol is drawn again exactly when it shows something else; muted it is grey with a ring
/// outside of 10 pixels, else it has the colour of the light.
pub proof fn law_symbol_shows_the_light(
    s: &mut TrayState,
    zone: Zone,
    muted: bool,
    changed: bool,
    colour: [u8; 3],
    light: [u8; 3],
    distance: Single,
    ring: bool,
)
    requires
        call_ensures(TrayState::set_state, (s, zone, muted), changed),
        call_ensures(icon_rgb, (zone, muted), colour),
        call_ensures(zone_rgb, (zone,), light),
        call_ensures(in_ring, (muted, distance), ring),
        !distance.nan(),
    ensures
        changed <==> old(s).zone != zone || old(s).muted != muted,
        final(s).zone == zone && final(s).muted == muted,
        !muted ==> colour@ == light@,
        muted ==> colour@ == seq![120u8, 120u8, 126u8],
        ring <==> muted && distance.val() > 10 * pow2(149),
{
    crate::single::lemma_whole_val(10);
}

/// The symbol has 32 pixels along a side, and begins green and not muted.
pub proof fn law_how_the_symbol_begins(s: TrayState)
    requires
        call_ensures(TrayState::new, (), s),
    ensures
        ICON_SIZE == 32,
        s.zone == Zone::Green && !s.muted,
{
}

} // verus!
