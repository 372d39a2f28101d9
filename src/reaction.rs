//! The fixed table from a trigram to the physical effects it sets off.
use vstd::prelude::*;
use vstd::string::*;

verus! {

/// A sound clip the installation can play.
#[derive(Clone, Copy, Debug, PartialEq, Eq, Structural)]
pub enum Clip {
    Thunder,
    Mountain,
}

/// A command for the actuators.
#[derive(Clone, Copy, Debug, PartialEq, Eq, Structural)]
pub enum Effect {
    ActivatePin(u8),
    ReleasePin(u8),
    PlaySound(Clip),
    TriggerFire,
}

/// Pin driven for Heaven.
pub const PIN_HEAVEN: u8 = 5;
/// Pin driven for Cloud; feeds a pump.
pub const PIN_CLOUD: u8 = 8;
/// Pin driven for Wind.
pub const PIN_WIND: u8 = 20;
/// Pin driven for Water; feeds a pump.
pub const PIN_WATER: u8 = 6;
/// Pin driven for Mountain; feeds a pump.
pub const PIN_MOUNTAIN: u8 = 7;

/// `t` is the three-character trigram `a b c`.
pub open spec fn is_trigram(t: Seq<char>, a: char, b: char, c: char) -> bool {
    t.len() == 3 && t[0] == a && t[1] == b && t[2] == c
}

/// The pin that a trigram activates, if any.
pub open spec fn pin_of(t: Seq<char>) -> Option<u8> {
    if is_trigram(t, '1', '1', '1') {
        Some(PIN_HEAVEN)
    } else if is_trigram(t, '1', '1', '0') {
        Some(PIN_CLOUD)
    } else if is_trigram(t, '0', '1', '1') {
        Some(PIN_WIND)
    } else if is_trigram(t, '0', '1', '0') {
        Some(PIN_WATER)
    } else if is_trigram(t, '0', '0', '1') {
        Some(PIN_MOUNTAIN)
    } else {
        None
    }
}

/// The effects of a trigram, in the order they are issued.
pub open spec fn effects_of(t: Seq<char>) -> Seq<Effect> {
    if is_trigram(t, '1', '1', '1') {
        seq![Effect::ActivatePin(PIN_HEAVEN)]
    } else if is_trigram(t, '1', '1', '0') {
        seq![Effect::ActivatePin(PIN_CLOUD)]
    } else if is_trigram(t, '1', '0', '1') {
        seq![Effect::TriggerFire]
    } else if is_trigram(t, '0', '1', '1') {
        seq![Effect::ActivatePin(PIN_WIND)]
    } else if is_trigram(t, '1', '0', '0') {
        seq![Effect::PlaySound(Clip::Thunder)]
    } else if is_trigram(t, '0', '1', '0') {
        seq![Effect::ActivatePin(PIN_WATER)]
    } else if is_trigram(t, '0', '0', '1') {
        seq![Effect::ActivatePin(PIN_MOUNTAIN), Effect::PlaySound(Clip::Mountain)]
    } else if is_trigram(t, '0', '0', '0') {
        seq![Effect::PlaySound(Clip::Mountain)]
    } else {
        seq![]
    }
}

/// The release requests that follow a trigram's related-line pass.
pub open spec fn releases_of(t: Seq<char>) -> Seq<Effect> {
    match pin_of(t) {
        Some(p) => seq![Effect::ReleasePin(p)],
        None => seq![],
    }
}

/// Pins whose activation draws on the pumps' supply.
pub open spec fn is_pump_pin(pin: u8) -> bool {
    pin == PIN_WATER || pin == PIN_MOUNTAIN || pin == PIN_CLOUD
}

/// Pins driven by a self-timed script rather than held on a GPIO line.
pub open spec fn is_scripted_pin(pin: u8) -> bool {
    pin == PIN_MOUNTAIN || pin == PIN_CLOUD
}

fn trigram_is(t: &str, a: char, b: char, c: char) -> (r: bool)
    ensures
        r == is_trigram(t@, a, b, c),
{
    if t.unicode_len() != 3 {
        return false;
    }
    t.get_char(0) == a && t.get_char(1) == b && t.get_char(2) == c
}

/// The effects that a trigram sets off.
pub fn dispatch(trigram: &str) -> (effects: Vec<Effect>)
    ensures
        effects@ == effects_of(trigram@),
{
    if trigram_is(trigram, '1', '1', '1') {
        vec![Effect::ActivatePin(PIN_HEAVEN)]
    } else if trigram_is(trigram, '1', '1', '0') {
        vec![Effect::ActivatePin(PIN_CLOUD)]
    } else if trigram_is(trigram, '1', '0', '1') {
        vec![Effect::TriggerFire]
    } else if trigram_is(trigram, '0', '1', '1') {
        vec![Effect::ActivatePin(PIN_WIND)]
    } else if trigram_is(trigram, '1', '0', '0') {
        vec![Effect::PlaySound(Clip::Thunder)]
    } else if trigram_is(trigram, '0', '1', '0') {
        vec![Effect::ActivatePin(PIN_WATER)]
    } else if trigram_is(trigram, '0', '0', '1') {
        vec![Effect::ActivatePin(PIN_MOUNTAIN), Effect::PlaySound(Clip::Mountain)]
    } else if trigram_is(trigram, '0', '0', '0') {
        vec![Effect::PlaySound(Clip::Mountain)]
    } else {
        vec![]
    }
}

/// The release requests for every pin that `dispatch` activated for this trigram.
pub fn releases(trigram: &str) -> (effects: Vec<Effect>)
    ensures
        effects@ == releases_of(trigram@),
{
    if trigram_is(trigram, '1', '1', '1') {
        vec![Effect::ReleasePin(PIN_HEAVEN)]
    } else if trigram_is(trigram, '1', '1', '0') {
        vec![Effect::ReleasePin(PIN_CLOUD)]
    } else if trigram_is(trigram, '0', '1', '1') {
        vec![Effect::ReleasePin(PIN_WIND)]
    } else if trigram_is(trigram, '0', '1', '0') {
        vec![Effect::ReleasePin(PIN_WATER)]
    } else if trigram_is(trigram, '0', '0', '1') {
        vec![Effect::ReleasePin(PIN_MOUNTAIN)]
    } else {
        vec![]
    }
}

/// How an activation request for one pin is carried out.
#[derive(Clone, Copy, Debug, PartialEq, Eq, Structural)]
pub struct PinPlan {
    /// The pin is pulsed by its own timed script instead of being held high.
    pub scripted: bool,
    /// The activation counts against the pumps' usage counter.
    pub uses_pump: bool,
}

/// Decides how `pin` is driven when it is switched on.
pub fn pin_on(pin: u8) -> (plan: PinPlan)
    ensures
        plan.scripted == is_scripted_pin(pin),
        plan.uses_pump == is_pump_pin(pin),
{
    PinPlan {
        scripted: pin == PIN_MOUNTAIN || pin == PIN_CLOUD,
        uses_pump: pin == PIN_WATER || pin == PIN_MOUNTAIN || pin == PIN_CLOUD,
    }
}

/// Every pin that a trigram activates gets a release request, and nothing else is released.
pub proof fn lemma_activated_pins_released(t: Seq<char>, p: u8)
    ensures
        effects_of(t).contains(Effect::ActivatePin(p)) <==> releases_of(t).contains(
            Effect::ReleasePin(p),
        ),
{
    if effects_of(t).contains(Effect::ActivatePin(p)) {
        let i = choose|i: int| 0 <= i < effects_of(t).len() && effects_of(t)[i] == Effect::ActivatePin(p);
        assert(releases_of(t)[0] == Effect::ReleasePin(p));
    }
    if releases_of(t).contains(Effect::ReleasePin(p)) {
        assert(effects_of(t)[0] == Effect::ActivatePin(p));
    }
}

} // verus!
