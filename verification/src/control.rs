//! The changes that actions make to the strip.
use vstd::prelude::*;
use crate::action::Action;
use crate::color::{nearest_color, PALETTE};
use crate::state::State;

verus! {

/// A value in a request.
#[derive(Clone, Copy, PartialEq, Eq, Debug, Structural)]
pub enum Scalar {
    Bool(bool),
    Int(u16),
}

/// A change to the strip. What is `None` stays as it is.
#[derive(Clone, Copy, PartialEq, Eq, Debug, Structural)]
pub struct Payload {
    pub device_on: bool,
    pub brightness: Option<u16>,
    pub color_temp: Option<u16>,
    pub hue: Option<u16>,
    pub saturation: Option<u16>,
}

/// The member `key` of a request, if it has a value.
pub open spec fn number_field(key: Seq<char>, value: Option<u16>) -> Seq<(Seq<char>, Scalar)> {
    match value {
        Some(v) => seq![(key, Scalar::Int(v))],
        None => seq![],
    }
}

impl Payload {
    /// The members of the JSON object that requests the change.
    pub open spec fn members(self) -> Seq<(Seq<char>, Scalar)> {
        seq![("device_on"@, Scalar::Bool(self.device_on))] + number_field(
            "brightness"@,
            self.brightness,
        ) + number_field("color_temp"@, self.color_temp) + number_field("hue"@, self.hue)
            + number_field("saturation"@, self.saturation)
    }

    /// Lists the members of the JSON object that requests the change.
    pub fn fields(&self) -> (r: Vec<(&'static str, Scalar)>)
        ensures
            r@.map_values(|f: (&'static str, Scalar)| (f.0@, f.1)) == self.members(),
    {
        let mut fields: Vec<(&'static str, Scalar)> = Vec::new();
        fields.push(("device_on", Scalar::Bool(self.device_on)));
        if let Some(v) = self.brightness {
            fields.push(("brightness", Scalar::Int(v)));
        }
        if let Some(v) = self.color_temp {
            fields.push(("color_temp", Scalar::Int(v)));
        }
        if let Some(v) = self.hue {
            fields.push(("hue", Scalar::Int(v)));
        }
        if let Some(v) = self.saturation {
            fields.push(("saturation", Scalar::Int(v)));
        }
        fields
    }
}

/// `v`, brought into the range from 1 to 100.
pub open spec fn percent(v: int) -> u16 {
    if v < 1 {
        1
    } else if v > 100 {
        100
    } else {
        v as u16
    }
}

/// The change that sets the power and nothing else.
pub open spec fn power(on: bool) -> Payload {
    Payload { device_on: on, brightness: None, color_temp: None, hue: None, saturation: None }
}

/// The change that turns the strip on at a brightness.
pub open spec fn lit(brightness: int) -> Payload {
    Payload { brightness: Some(percent(brightness)), ..power(true) }
}

/// The change that turns the strip on in a palette color, at a brightness.
pub open spec fn colored(index: int, brightness: int) -> Payload {
    Payload {
        device_on: true,
        brightness: Some(percent(brightness)),
        color_temp: Some(0),
        hue: Some(crate::color::palette_color(index).0 as u16),
        saturation: Some(crate::color::palette_color(index).1 as u16),
    }
}

/// The change that an action makes to a strip in a state, or the reason why it makes none.
pub open spec fn change(state: &State, action: Action) -> Result<Payload, Seq<char>> {
    if action == Action::Toggle {
        Ok(power(!state.device_on))
    } else if state.spec_effect() {
        Err("Pause the active effect in the Tapo app before adjusting color or brightness."@)
    } else {
        match action {
            Action::Brighter => Ok(lit(state.brightness + 5)),
            Action::Dimmer => Ok(lit(state.brightness - 5)),
            Action::Warm => Ok(colored(0, state.brightness as int)),
            Action::Color => match state.spec_color() {
                Some((h, s)) => Ok(
                    colored(
                        (crate::color::nearest(h as int, s as int) + 1) % 2,
                        state.brightness as int,
                    ),
                ),
                None => Err("Device did not report a usable color."@),
            },
            _ => Err("Status does not change the device."@),
        }
    }
}

/// The model of a result whose error is a message.
pub open spec fn outcome<T>(r: Result<T, &'static str>) -> Result<T, Seq<char>> {
    match r {
        Ok(v) => Ok(v),
        Err(e) => Err(e@),
    }
}

/// Brings `v` into the range from 1 to 100.
fn clamp_percent(v: i16) -> (r: u16)
    ensures
        r == percent(v as int),
{
    if v < 1 {
        1
    } else if v > 100 {
        100
    } else {
        v as u16
    }
}

/// Works out the change that an action makes to a strip in a state.
pub fn payload(state: &State, action: Action) -> (r: Result<Payload, &'static str>)
    ensures
        outcome(r) == change(state, action),
{
    if action == Action::Toggle {
        return Ok(
            Payload {
                device_on: !state.device_on,
                brightness: None,
                color_temp: None,
                hue: None,
                saturation: None,
            },
        );
    }
    if state.effect() {
        return Err(
            "Pause the active effect in the Tapo app before adjusting color or brightness.",
        );
    }
    match action {
        Action::Brighter | Action::Dimmer => {
            let delta: i16 = if action == Action::Brighter {
                5
            } else {
                -5
            };
            Ok(
                Payload {
                    device_on: true,
                    brightness: Some(clamp_percent(state.brightness as i16 + delta)),
                    color_temp: None,
                    hue: None,
                    saturation: None,
                },
            )
        },
        Action::Color | Action::Warm => {
            let index: usize = if action == Action::Warm {
                0
            } else {
                match state.color() {
                    Some((h, s)) => (nearest_color(h, s) + 1) % PALETTE.len(),
                    None => return Err("Device did not report a usable color."),
                }
            };
            proof {
                crate::color::palette_colors();
            }
            let (_, hue, saturation): (&'static str, u16, u8) = PALETTE[index];
            // A saturation of 0 gives the white of the colored LEDs.
            Ok(
                Payload {
                    device_on: true,
                    brightness: Some(clamp_percent(state.brightness as i16)),
                    color_temp: Some(0),
                    hue: Some(hue),
                    saturation: Some(saturation as u16),
                },
            )
        },
        _ => Err("Status does not change the device."),
    }
}

/// The state of a strip after a change.
pub open spec fn applied(state: State, p: Payload) -> State {
    State {
        device_on: p.device_on,
        brightness: match p.brightness {
            Some(b) => b as u8,
            None => state.brightness,
        },
        color_temp: match p.color_temp {
            Some(k) => k,
            None => state.color_temp,
        },
        hue: match p.hue {
            Some(h) => Some(h),
            None => state.hue,
        },
        saturation: match p.saturation {
            Some(s) => Some(s),
            None => state.saturation,
        },
        ..state
    }
}

/// The state of a strip after an action; a refused action changes nothing.
pub open spec fn after(state: State, action: Action) -> State {
    match change(&state, action) {
        Ok(p) => applied(state, p),
        Err(_) => state,
    }
}

/// No change names a key twice.
pub proof fn keys_are_distinct(p: Payload, i: int, j: int)
    requires
        0 <= i < j < p.members().len(),
    ensures
        p.members()[i].0 != p.members()[j].0,
{
    reveal_strlit("device_on");
    reveal_strlit("brightness");
    reveal_strlit("color_temp");
    reveal_strlit("hue");
    reveal_strlit("saturation");
    assert("device_on"@[0] == 'd');
    assert("brightness"@[0] == 'b');
    assert("color_temp"@[0] == 'c');
    assert("hue"@[0] == 'h');
    assert("saturation"@[0] == 's');
}

/// No change asks for a brightness outside 1 to 100 percent.
pub proof fn brightness_stays_in_range(state: State, action: Action)
    ensures
        change(&state, action) matches Ok(p) ==> (p.brightness matches Some(b) ==> 1 <= b <= 100),
{
}

/// Color and brightness actions turn the strip on.
pub proof fn controls_turn_the_strip_on(state: State, action: Action)
    requires
        action != Action::Toggle,
    ensures
        change(&state, action) matches Ok(p) ==> p.device_on,
        change(&state, action) is Ok ==> after(state, action).device_on,
{
}

/// While an effect runs only the power can be changed.
pub proof fn effect_guards_the_strip(state: State, action: Action)
    requires
        state.spec_effect(),
    ensures
        change(&state, action) is Ok <==> action == Action::Toggle,
{
}

/// Asking for the status changes nothing.
pub proof fn status_changes_nothing(state: State)
    ensures
        change(&state, Action::Status) is Err,
        after(state, Action::Status) == state,
{
}

/// Toggling changes the power and nothing else; toggling twice changes nothing.
pub proof fn toggle_undoes_itself(state: State)
    ensures
        after(state, Action::Toggle) == (State { device_on: !state.device_on, ..state }),
        after(after(state, Action::Toggle), Action::Toggle) == state,
{
}

/// `color` and `warm` keep a brightness that is in range.
pub proof fn colors_preserve_brightness(state: State, action: Action)
    requires
        action == Action::Color || action == Action::Warm,
        1 <= state.brightness <= 100,
    ensures
        after(state, action).brightness == state.brightness,
{
}

/// `brighter` and `dimmer` move the brightness by five points, as far as the range allows, and
/// keep the color.
pub proof fn brightness_moves_by_five(state: State)
    requires
        !state.spec_effect(),
    ensures
        after(state, Action::Brighter).brightness == percent(state.brightness + 5),
        after(state, Action::Dimmer).brightness == percent(state.brightness - 5),
        after(state, Action::Brighter).spec_color() == state.spec_color(),
        after(state, Action::Dimmer).spec_color() == state.spec_color(),
        after(state, Action::Brighter).color_temp == state.color_temp,
        after(state, Action::Dimmer).color_temp == state.color_temp,
{
}

/// A step up and a step down undo each other where neither meets the end of the range.
pub proof fn brightness_steps_undo_each_other(state: State)
    requires
        !state.spec_effect(),
    ensures
        1 <= state.brightness <= 95 ==> after(
            after(state, Action::Brighter),
            Action::Dimmer,
        ).brightness == state.brightness,
        6 <= state.brightness <= 100 ==> after(
            after(state, Action::Dimmer),
            Action::Brighter,
        ).brightness == state.brightness,
{
}

/// Whether a state shows a palette color.
pub open spec fn shows(state: State, index: int) -> bool {
    &&& state.color_temp == 0
    &&& state.spec_color() == Some(
        (
            crate::color::palette_color(index).0 as u16,
            crate::color::palette_color(index).1 as u16,
        ),
    )
}

/// Each palette color is nearest to itself and is described by its own label.
pub proof fn palette_is_recognized(index: int)
    requires
        0 <= index < PALETTE@.len(),
    ensures
        crate::color::nearest(PALETTE@[index].1 as int, PALETTE@[index].2 as int) == index,
        crate::state::color_label(PALETTE@[index].1, PALETTE@[index].2 as u16)
            == PALETTE@[index].0@,
{
    crate::color::palette_points_are_nearest_to_themselves(index);
    crate::color::palette_colors();
    assert(PALETTE@[0].0 == "1800K");
    assert(PALETTE@[1].0 == "White");
}

/// `warm` selects the warm color from any state without an effect.
pub proof fn warm_selects_the_warm_color(state: State)
    requires
        !state.spec_effect(),
    ensures
        change(&state, Action::Warm) is Ok,
        shows(after(state, Action::Warm), 0),
{
}

/// `color` selects a palette color and, from then on, switches between the two.
pub proof fn color_alternates(state: State)
    requires
        !state.spec_effect(),
        state.spec_color() is Some,
    ensures
        ({
            let first = after(state, Action::Color);
            let second = after(first, Action::Color);
            let third = after(second, Action::Color);
            ||| shows(first, 0) && shows(second, 1) && shows(third, 0)
            ||| shows(first, 1) && shows(second, 0) && shows(third, 1)
        }),
{
    crate::color::palette_colors();
    crate::color::palette_points_are_nearest_to_themselves(0);
    crate::color::palette_points_are_nearest_to_themselves(1);
    let first = after(state, Action::Color);
    let second = after(first, Action::Color);
    assert(!first.spec_effect());
    assert(!second.spec_effect());
}

/// From white, and from any color nearer to white, `color` selects the warm color; from any other
/// usable color it selects white.
pub proof fn color_leaves_the_nearest(state: State)
    requires
        !state.spec_effect(),
        state.spec_color() is Some,
    ensures
        ({
            let (h, s) = state.spec_color()->0;
            shows(
                after(state, Action::Color),
                1 - crate::color::nearest(h as int, s as int),
            )
        }),
{
}

/// `toggle` asks for the other power and for nothing else, in every state.
pub proof fn toggle_asks_for_the_other_power(state: State)
    ensures
        change(&state, Action::Toggle) == Ok::<Payload, Seq<char>>(
            Payload {
                device_on: !state.device_on,
                brightness: None,
                color_temp: None,
                hue: None,
                saturation: None,
            },
        ),
{
}

/// `brighter` and `dimmer` ask for five points more and five points less, or for the end of the
/// range from 1 to 100 if that lies beyond it, and turn the strip on. They leave the color alone.
pub proof fn brightness_actions_ask_for_five_points(state: State)
    requires
        !state.spec_effect(),
    ensures
        change(&state, Action::Brighter) == Ok::<Payload, Seq<char>>(
            Payload {
                device_on: true,
                brightness: Some(
                    if state.brightness <= 95 {
                        (state.brightness + 5) as u16
                    } else {
                        100
                    },
                ),
                color_temp: None,
                hue: None,
                saturation: None,
            },
        ),
        change(&state, Action::Dimmer) == Ok::<Payload, Seq<char>>(
            Payload {
                device_on: true,
                brightness: Some(
                    if state.brightness <= 6 {
                        1
                    } else if state.brightness <= 105 {
                        (state.brightness - 5) as u16
                    } else {
                        100
                    },
                ),
                color_temp: None,
                hue: None,
                saturation: None,
            },
        ),
{
}

/// `warm` asks for hue 24 at full saturation, out of white mode, at the brightness that the strip
/// has, and turns it on.
pub proof fn warm_asks_for_the_warm_color(state: State)
    requires
        !state.spec_effect(),
    ensures
        change(&state, Action::Warm) == Ok::<Payload, Seq<char>>(
            Payload {
                device_on: true,
                brightness: Some(
                    if state.brightness < 1 {
                        1
                    } else if state.brightness > 100 {
                        100
                    } else {
                        state.brightness as u16
                    },
                ),
                color_temp: Some(0),
                hue: Some(24),
                saturation: Some(100),
            },
        ),
{
}

/// Whenever the strip reports a hue of at most 360 degrees and a saturation of at most 100
/// percent, `color` succeeds: it asks for white if the reported color is nearest to the warm one
/// and for the warm one otherwise, out of white mode, at the brightness that the strip has, and
/// turns it on.
pub proof fn color_asks_for_the_other_color(state: State, h: u16, s: u16)
    requires
        !state.spec_effect(),
        state.hue == Some(h),
        state.saturation == Some(s),
        h <= 360,
        s <= 100,
    ensures
        change(&state, Action::Color) == Ok::<Payload, Seq<char>>(
            Payload {
                device_on: true,
                brightness: Some(
                    if state.brightness < 1 {
                        1
                    } else if state.brightness > 100 {
                        100
                    } else {
                        state.brightness as u16
                    },
                ),
                color_temp: Some(0),
                hue: Some(
                    if crate::color::nearest(h as int, s as int) == 0 {
                        0
                    } else {
                        24
                    },
                ),
                saturation: Some(
                    if crate::color::nearest(h as int, s as int) == 0 {
                        0
                    } else {
                        100
                    },
                ),
            },
        ),
{
}

/// An action is refused for one of three reasons only: an effect runs and the action is not
/// `toggle`; or the strip reports no usable color for `color`; or it is the status that is asked
/// for.
pub proof fn reasons_for_refusal(state: State, action: Action)
    ensures
        action != Action::Toggle && state.spec_effect() ==> change(&state, action) == Err::<
            Payload,
            Seq<char>,
        >("Pause the active effect in the Tapo app before adjusting color or brightness."@),
        !state.spec_effect() && (state.hue is None || state.saturation is None || state.hue->0
            > 360 || state.saturation->0 > 100) ==> change(&state, Action::Color) == Err::<
            Payload,
            Seq<char>,
        >("Device did not report a usable color."@),
        !state.spec_effect() ==> change(&state, Action::Status) == Err::<Payload, Seq<char>>(
            "Status does not change the device."@,
        ),
        change(&state, action) is Err ==> {
            ||| action == Action::Status
            ||| state.spec_effect() && action != Action::Toggle
            ||| action == Action::Color && (state.hue is None || state.saturation is None
                || state.hue->0 > 360 || state.saturation->0 > 100)
        },
{
}

/// A request names the power, and each other value that the change sets under its own name, and
/// nothing else.
pub proof fn requests_name_each_value(p: Payload, key: Seq<char>, value: Scalar)
    ensures
        p.members().contains((key, value)) <==> {
            ||| key == "device_on"@ && value == Scalar::Bool(p.device_on)
            ||| key == "brightness"@ && p.brightness is Some && value == Scalar::Int(
                p.brightness->0,
            )
            ||| key == "color_temp"@ && p.color_temp is Some && value == Scalar::Int(
                p.color_temp->0,
            )
            ||| key == "hue"@ && p.hue is Some && value == Scalar::Int(p.hue->0)
            ||| key == "saturation"@ && p.saturation is Some && value == Scalar::Int(
                p.saturation->0,
            )
        },
{
    let power = seq![("device_on"@, Scalar::Bool(p.device_on))];
    let brightness = number_field("brightness"@, p.brightness);
    let color_temp = number_field("color_temp"@, p.color_temp);
    let hue = number_field("hue"@, p.hue);
    let saturation = number_field("saturation"@, p.saturation);
    let field = (key, value);
    assert(power.contains(field) <==> field == power[0]) by {
        assert(power[0] == power[0]);
    }
    field_holds_its_value("brightness"@, p.brightness, field);
    field_holds_its_value("color_temp"@, p.color_temp, field);
    field_holds_its_value("hue"@, p.hue, field);
    field_holds_its_value("saturation"@, p.saturation, field);
    concat_contains(power, brightness, field);
    concat_contains(power + brightness, color_temp, field);
    concat_contains(power + brightness + color_temp, hue, field);
    concat_contains(power + brightness + color_temp + hue, saturation, field);
}

proof fn field_holds_its_value(key: Seq<char>, value: Option<u16>, field: (Seq<char>, Scalar))
    ensures
        number_field(key, value).contains(field) <==> value is Some && field == (
            key,
            Scalar::Int(value->0),
        ),
{
    if value is Some {
        assert(number_field(key, value)[0] == (key, Scalar::Int(value->0)));
    }
}

proof fn concat_contains<T>(a: Seq<T>, b: Seq<T>, x: T)
    ensures
        (a + b).contains(x) <==> a.contains(x) || b.contains(x),
{
    if a.contains(x) {
        let i = choose|i: int| 0 <= i < a.len() && a[i] == x;
        assert((a + b)[i] == x);
    }
    if b.contains(x) {
        let i = choose|i: int| 0 <= i < b.len() && b[i] == x;
        assert((a + b)[a.len() + i] == x);
    }
    if (a + b).contains(x) {
        let i = choose|i: int| 0 <= i < (a + b).len() && (a + b)[i] == x;
        if i < a.len() {
            assert(a[i] == x);
        } else {
            assert(b[i - a.len()] == x);
        }
    }
}

/// The model of a result holds its value, or the text of its message.
pub proof fn results_are_what_they_hold(p: Payload, reason: &'static str)
    ensures
        outcome(Ok(p)) == Ok::<Payload, Seq<char>>(p),
        outcome(Err::<Payload, &'static str>(reason)) == Err::<Payload, Seq<char>>(reason@),
{
}

} // verus!
