//! The screen that touches go to, and keeping the profile in line with it.

use vstd::prelude::*;
use vstd::string::*;
use crate::control::ControlClient;
use crate::engine::Shared;
use crate::keymap::{self, CoordUnit, Mapper, Profile, ProfileView};
use crate::text;

verus! {

/// The size assumed for display while none is known.
pub const ASSUMED_W: u32 = 1080;

pub const ASSUMED_H: u32 = 2400;

/// The size of the screen: that of the control channel, else that of the screenshot.
pub open spec fn known_size(control: Option<ControlClient>, shot: Option<(u32, u32)>) -> Option<
    (u32, u32),
> {
    if control is Some && control->0.screen_w > 0 && control->0.screen_h > 0 {
        Some((control->0.screen_w, control->0.screen_h))
    } else {
        shot
    }
}

/// The size of the screen, as far as it is known.
pub fn screen_size(control: &Option<ControlClient>, shot: Option<(u32, u32)>) -> (r: Option<
    (u32, u32),
>)
    ensures
        r == known_size(*control, shot),
{
    if let Some(c) = control {
        if c.screen_w > 0 && c.screen_h > 0 {
            return Some((c.screen_w, c.screen_h));
        }
    }
    shot
}

/// The mapper for display: from a unit to the screen, or to an assumed one.
pub fn display_mapper(unit: CoordUnit, size: Option<(u32, u32)>) -> (m: Mapper)
    ensures
        m == keymap::mapper_for(
            unit,
            match size {
                Some(s) => s,
                None => (ASSUMED_W, ASSUMED_H),
            },
        ),
{
    match size {
        Some(s) => Mapper::new(unit, s),
        None => Mapper::new(unit, (ASSUMED_W, ASSUMED_H)),
    }
}

/// Notes in a profile about to be saved which screen it was made on. A profile in pixels is
/// left alone: its screen is not known until it is turned into fractions.
pub fn stamp_profile_meta<C>(profile: &mut Profile<C>, size: Option<(u32, u32)>)
    ensures
        final(profile)@ == (ProfileView {
            screen: if size is Some && old(profile)@.format_version >= keymap::PROFILE_VERSION {
                size
            } else {
                old(profile)@.screen
            },
            ..old(profile)@
        }),
{
    if let Some(s) = size {
        if profile.format_version >= keymap::PROFILE_VERSION {
            profile.screen = Some(s);
        }
    }
}

/// What changed with the screen.
#[derive(Debug, Clone, Copy, PartialEq, Eq, Structural)]
pub struct Synced {
    /// The control channel had another size.
    pub moved: bool,
    /// The profile went from pixels to fractions.
    pub upgraded: bool,
}

/// A control channel that aims at a screen of another size.
pub open spec fn aimed_at(c: ControlClient, w: u32, h: u32) -> ControlClient {
    ControlClient { screen_w: w, screen_h: h, ..c }
}

/// Brings the control channel in line with the size of the screen, and turns a profile in
/// pixels into fractions of it. A size without area is ignored. Nothing in a profile in
/// fractions changes, whatever way the screen is turned.
pub fn sync_display_space<
    C: Copy,
    F: Fn(C, C) -> bool,
    X: Fn(C) -> C,
    Y: Fn(C) -> C,
    A: Fn((C, C)) -> Option<(C, C)>,
>(
    shared: &mut Shared<C>,
    w: u32,
    h: u32,
    fits: &F,
    rel_x: &X,
    rel_y: &Y,
    rel_anchor: &A,
) -> (r: Synced)
    requires
        forall|x: C, y: C| #[trigger] call_requires(*fits, (x, y)),
        forall|v: C| #[trigger] call_requires(*rel_x, (v,)),
        forall|v: C| #[trigger] call_requires(*rel_y, (v,)),
        forall|p: (C, C)| #[trigger] call_requires(*rel_anchor, (p,)),
    ensures
        w == 0 || h == 0 ==> *final(shared) == *old(shared) && r == (Synced {
            moved: false,
            upgraded: false,
        }),
        w > 0 && h > 0 ==> keymap::upgrade_outcome(
            old(shared).profile,
            final(shared).profile,
            (w, h),
            *fits,
            *rel_x,
            *rel_y,
            *rel_anchor,
            r.upgraded,
        ),
        w > 0 && h > 0 ==> final(shared).control == (match old(shared).control {
            Some(c) => Some(aimed_at(c, w, h)),
            None => None,
        }),
        w > 0 && h > 0 ==> r.moved == (old(shared).control is Some && (
        old(shared).control->0.screen_w != w || old(shared).control->0.screen_h != h)),
        old(shared).profile.format_version >= keymap::PROFILE_VERSION ==> final(shared).profile
            == old(shared).profile,
        final(shared).enabled == old(shared).enabled,
        final(shared).aim_live == old(shared).aim_live,
        final(shared).live == old(shared).live,
        final(shared).toolbar_release == old(shared).toolbar_release,
{
    if w == 0 || h == 0 {
        return Synced { moved: false, upgraded: false };
    }
    let mut moved: bool = false;
    let control = shared.control.take();
    match control {
        Some(c) => {
            let mut c = c;
            if c.screen_w != w || c.screen_h != h {
                c.screen_w = w;
                c.screen_h = h;
                moved = true;
            }
            shared.control = Some(c);
        },
        None => {
            shared.control = None;
        },
    }
    let upgraded: bool = keymap::upgrade_profile(
        &mut shared.profile,
        (w, h),
        fits,
        rel_x,
        rel_y,
        rel_anchor,
    );
    Synced { moved, upgraded }
}

/// `WxH`
pub open spec fn size_text(w: u32, h: u32) -> Seq<char> {
    text::dec(w as nat) + "x"@ + text::dec(h as nat)
}

fn push_size(s: &mut String, w: u32, h: u32)
    ensures
        final(s)@ == old(s)@ + size_text(w, h),
{
    text::push_dec(s, w as u64);
    s.append("x");
    text::push_dec(s, h as u64);
    assert(s@ =~= old(s)@ + size_text(w, h));
}

/// What is reported of a change.
pub open spec fn sync_texts(r: Synced, w: u32, h: u32) -> Seq<Seq<char>> {
    let a = if r.moved {
        seq!["触摸坐标空间已更新为 "@ + size_text(w, h)]
    } else {
        Seq::<Seq<char>>::empty()
    };
    if r.upgraded {
        a.push("配置已升级为相对坐标(按 "@ + size_text(w, h) + " 换算),换分辨率/换手机后键位不再错位"@)
    } else {
        a
    }
}

/// The lines to report of a change.
pub fn sync_notes(r: Synced, w: u32, h: u32) -> (notes: Vec<String>)
    ensures
        text::texts(notes@) == sync_texts(r, w, h),
{
    let mut v: Vec<String> = Vec::new();
    assert(text::texts(v@) =~= Seq::<Seq<char>>::empty());
    if r.moved {
        let mut s = String::new();
        s.append("触摸坐标空间已更新为 ");
        push_size(&mut s, w, h);
        assert(s@ =~= "触摸坐标空间已更新为 "@ + size_text(w, h));
        let ghost t = s@;
        v.push(s);
        assert(text::texts(v@) =~= seq![t]);
    }
    if r.upgraded {
        let mut s = String::new();
        s.append("配置已升级为相对坐标(按 ");
        push_size(&mut s, w, h);
        s.append(" 换算),换分辨率/换手机后键位不再错位");
        assert(s@ =~= "配置已升级为相对坐标(按 "@ + size_text(w, h)
            + " 换算),换分辨率/换手机后键位不再错位"@);
        let ghost before = v@;
        let ghost t = s@;
        v.push(s);
        assert(text::texts(v@) =~= text::texts(before).push(t));
    }
    v
}

/// Whether a pixel lies off a screen.
pub fn off_screen(at: (i32, i32), w: u32, h: u32) -> (r: bool)
    ensures
        r == (at.0 < 0 || at.1 < 0 || at.0 >= w || at.1 >= h),
{
    at.0 < 0 || at.1 < 0 || at.0 as u32 >= w || at.1 as u32 >= h
}

/// The size of the screen is that of the channel where it has one, and that of the screenshot
/// otherwise.
pub proof fn the_channel_knows_the_size(c: ControlClient, shot: Option<(u32, u32)>)
    ensures
        c.screen_w > 0 && c.screen_h > 0 ==> known_size(Some(c), shot) == Some(
            (c.screen_w, c.screen_h),
        ),
        c.screen_w == 0 || c.screen_h == 0 ==> known_size(Some(c), shot) == shot,
        known_size(None, shot) == shot,
{
}

/// Aiming a channel at another screen changes its size and nothing else: what is queued stays
/// queued.
pub proof fn aiming_keeps_the_queue(c: ControlClient, w: u32, h: u32)
    ensures
        ({
            let d = aimed_at(c, w, h);
            d.screen_w == w && d.screen_h == h && d@ == c@ && d.connected == c.connected
        }),
{
}

/// Each change is reported once, the new size before the upgrade, and no change in silence.
pub proof fn changes_are_reported(r: Synced, w: u32, h: u32)
    ensures
        ({
            let n = sync_texts(r, w, h);
            &&& n.len() == (if r.moved {
                1int
            } else {
                0
            }) + (if r.upgraded {
                1int
            } else {
                0
            })
            &&& r.moved ==> "触摸坐标空间已更新为 "@.is_prefix_of(n[0])
            &&& r.upgraded ==> "配置已升级为相对坐标(按 "@.is_prefix_of(n.last())
        }),
{
    let size = size_text(w, h);
    let tail = " 换算),换分辨率/换手机后键位不再错位"@;
    assert("配置已升级为相对坐标(按 "@ + size + tail =~= "配置已升级为相对坐标(按 "@ + (size
        + tail));
}

} // verus!
