//! What the strip reports about itself, and how it is shown.
use vstd::prelude::*;
use crate::color::color_hex;
use crate::json::{Json, Member, Number};
use crate::nickname::{display_name, nickname_bytes};
use crate::output::{output, Output, OutputView, CONTROLS};
use crate::text::push_decimal;

verus! {

/// A report of the strip.
#[derive(Debug)]
pub struct State {
    pub device_on: bool,
    /// Brightness in percent.
    pub brightness: u8,
    pub model: String,
    /// The name of the strip, in base64.
    pub nickname: String,
    pub hue: Option<u16>,
    pub saturation: Option<u16>,
    /// The color temperature in kelvin, or 0 when the strip shows a color.
    pub color_temp: u16,
    pub dynamic_light_effect_enable: bool,
    pub dynamic_light_effect_id: Option<String>,
    pub lighting_effect: Option<Json>,
}

/// The palette label nearest to a reported color, for the tooltip.
pub open spec fn color_label(h: u16, s: u16) -> Seq<char> {
    if s == 0 {
        "White"@
    } else if h == 24 && s == 100 {
        "1800K"@
    } else {
        "Custom"@
    }
}

/// A dot in the color at hue `h` and saturation `s`, in markup.
pub open spec fn colored_dot(h: u16, s: u16) -> Seq<char> {
    "<span foreground=\""@ + crate::color::hex_color(h as nat, s as nat) + "\">●</span>"@
}

/// Builds the markup of a dot in a color.
pub fn dot(h: u16, s: u16) -> (r: String)
    ensures
        r@ == colored_dot(h, s),
{
    let mut text: String = "<span foreground=\"".to_owned();
    text.append(color_hex(h, s).as_str());
    text.append("\">●</span>");
    text
}

impl State {
    /// The reported hue and saturation, if both are there and in range.
    pub open spec fn spec_color(&self) -> Option<(u16, u16)> {
        match (self.hue, self.saturation) {
            (Some(h), Some(s)) if h <= 360 && s <= 100 => Some((h, s)),
            _ => None,
        }
    }

    /// Whether an effect is running: a dynamic one, or a lighting effect whose `enable` is 1 or
    /// true.
    pub open spec fn spec_effect(&self) -> bool {
        ||| self.dynamic_light_effect_enable
        ||| self.lighting_effect matches Some(e) && e.spec_get("enable"@) matches Some(v) && (
        v.spec_as_i64() == Some(1int) || v == Json::Bool(true))
    }

    /// The first line of the tooltip: name and model.
    pub open spec fn title(&self, name: Seq<char>) -> Seq<char> {
        name + " · "@ + self.model@
    }

    /// The first two lines of the tooltip while the strip is on.
    pub open spec fn on_detail(&self, name: Seq<char>) -> Seq<char> {
        self.title(name) + "\nConnected · On · "@ + crate::text::decimal(self.brightness as nat)
            + "%"@
    }

    /// The identifier of the running effect.
    pub open spec fn effect_id(&self) -> Seq<char> {
        match self.dynamic_light_effect_id {
            Some(id) => id@,
            None => "active"@,
        }
    }

    /// The status line of a strip under a name.
    pub open spec fn description(&self, name: Seq<char>) -> OutputView {
        let detail = self.on_detail(name);
        if !self.device_on {
            crate::output::shown("○"@, "off"@, self.title(name) + "\nConnected · Off"@)
        } else if self.spec_effect() {
            crate::output::shown(
                "✦"@,
                "effect"@,
                detail + "\nEffect: "@ + self.effect_id()
                    + "\nPause the effect in the Tapo app before adjusting color or brightness."@,
            )
        } else if self.color_temp > 0 {
            crate::output::shown(
                "●"@,
                "on"@,
                detail + "\nWhite mode: "@ + crate::text::decimal(self.color_temp as nat) + " K"@,
            )
        } else {
            match self.spec_color() {
                Some((h, s)) => crate::output::shown(
                    colored_dot(h, s),
                    "on"@,
                    detail + "\nColor: near "@ + color_label(h, s) + " · HSV("@
                        + crate::text::decimal(h as nat) + ", "@ + crate::text::decimal(s as nat)
                        + ", "@ + crate::text::decimal(self.brightness as nat) + ")"@,
                ),
                None => crate::output::shown("●"@, "on"@, detail + "\nColor unavailable"@),
            }
        }
    }

    /// The status line of a strip under the name it reports.
    pub open spec fn status(&self) -> OutputView {
        self.description(
            crate::nickname::shown_name(crate::nickname::base64_bytes(self.nickname@)),
        )
    }

    /// The reported color, if it is usable.
    pub fn color(&self) -> (r: Option<(u16, u16)>)
        ensures
            r == self.spec_color(),
    {
        match (self.hue, self.saturation) {
            (Some(h), Some(s)) => if h <= 360 && s <= 100 {
                Some((h, s))
            } else {
                None
            },
            _ => None,
        }
    }

    /// Whether an effect is running.
    pub fn effect(&self) -> (r: bool)
        ensures
            r == self.spec_effect(),
    {
        if self.dynamic_light_effect_enable {
            return true;
        }
        match &self.lighting_effect {
            Some(e) => match e.get("enable") {
                Some(v) => v.is_number(1) || v.is_true(),
                None => false,
            },
            None => false,
        }
    }

    /// Describes the strip under a given name.
    pub fn describe_as(&self, name: &str) -> (r: Output)
        ensures
            r@ == self.description(name@),
    {
        let mut detail: String = name.to_owned();
        detail.append(" · ");
        detail.append(self.model.as_str());
        if !self.device_on {
            detail.append("\nConnected · Off");
            return output("○", "off", detail.as_str());
        }
        detail.append("\nConnected · On · ");
        push_decimal(&mut detail, self.brightness as u16);
        detail.append("%");
        if self.effect() {
            detail.append("\nEffect: ");
            match &self.dynamic_light_effect_id {
                Some(id) => detail.append(id.as_str()),
                None => detail.append("active"),
            }
            detail.append(
                "\nPause the effect in the Tapo app before adjusting color or brightness.",
            );
            return output("✦", "effect", detail.as_str());
        }
        if self.color_temp > 0 {
            detail.append("\nWhite mode: ");
            push_decimal(&mut detail, self.color_temp);
            detail.append(" K");
            return output("●", "on", detail.as_str());
        }
        if let Some((h, s)) = self.color() {
            detail.append("\nColor: near ");
            let label: &str = if s == 0 {
                "White"
            } else if h == 24 && s == 100 {
                "1800K"
            } else {
                "Custom"
            };
            detail.append(label);
            detail.append(" · HSV(");
            push_decimal(&mut detail, h);
            detail.append(", ");
            push_decimal(&mut detail, s);
            detail.append(", ");
            push_decimal(&mut detail, self.brightness as u16);
            detail.append(")");
            output(dot(h, s).as_str(), "on", detail.as_str())
        } else {
            detail.append("\nColor unavailable");
            output("●", "on", detail.as_str())
        }
    }

    /// Describes the strip under the name it reports.
    pub fn describe(&self) -> (r: Output)
        ensures
            r@ == self.status(),
    {
        let name: String = display_name(nickname_bytes(self.nickname.as_str()));
        self.describe_as(name.as_str())
    }
}

/// The class of a description tells whether the strip is off, runs an effect or is on; it never
/// reports a failure.
pub proof fn description_class(state: State, name: Seq<char>)
    ensures
        ({
            let class = state.description(name).class;
            &&& !state.device_on ==> class == "off"@
            &&& state.device_on && state.spec_effect() ==> class == "effect"@
            &&& state.device_on && !state.spec_effect() ==> class == "on"@
        }),
        !crate::output::reports_failure(state.description(name)),
{
    reveal_strlit("off");
    reveal_strlit("effect");
    reveal_strlit("on");
    reveal_strlit("error");
    reveal_strlit("offline");
    assert("off"@.len() == 3);
    assert("effect"@.len() == 6);
    assert("on"@.len() == 2);
    assert("error"@.len() == 5);
    assert("offline"@.len() == 7);
}

/// The text of a description is one of three signs, or a dot in the color that the strip reports.
pub proof fn description_text(state: State, name: Seq<char>)
    ensures
        ({
            let text = state.description(name).text;
            ||| text == "○"@
            ||| text == "✦"@
            ||| text == "●"@
            ||| state.spec_color() matches Some((h, s)) && text == colored_dot(h, s)
        }),
{
}

/// The strip reports a usable color exactly when it reports both a hue of at most 360 degrees and
/// a saturation of at most 100 percent, and the color is just those two.
pub proof fn usable_colors(state: State, h: u16, s: u16)
    ensures
        state.spec_color() == Some((h, s)) <==> state.hue == Some(h) && state.saturation == Some(s)
            && h <= 360 && s <= 100,
        state.spec_color() is None <==> state.hue is None || state.saturation is None
            || state.hue->0 > 360 || state.saturation->0 > 100,
{
}

/// An effect runs when the strip reports a dynamic one as enabled, or a lighting effect: an
/// object whose member `enable` is 1 or true. Nothing else counts.
pub proof fn running_effects(state: State, members: Vec<Member>, i: int)
    ensures
        state.dynamic_light_effect_enable ==> state.spec_effect(),
        !state.dynamic_light_effect_enable ==> {
            &&& state.lighting_effect is None ==> !state.spec_effect()
            &&& state.lighting_effect is Some && !(state.lighting_effect->0 is Object)
                ==> !state.spec_effect()
            &&& state.lighting_effect == Some(Json::Object(members)) && (forall|j: int|
                0 <= j < members@.len() ==> (#[trigger] members@[j]).key@ != "enable"@)
                ==> !state.spec_effect()
            &&& state.lighting_effect == Some(Json::Object(members)) && 0 <= i < members@.len()
                && members@[i].key@ == "enable"@ && (forall|j: int|
                0 <= j < i ==> (#[trigger] members@[j]).key@ != "enable"@) ==> (
            state.spec_effect() <==> {
                ||| members@[i].value == Json::Bool(true)
                ||| members@[i].value == Json::Number(Number::Unsigned(1))
                ||| members@[i].value == Json::Number(Number::Negative(1))
            })
        },
{
    if forall|j: int| 0 <= j < members@.len() ==> (#[trigger] members@[j]).key@ != "enable"@ {
        crate::json::absent_member_is_not_found(members@, "enable"@);
    }
    if 0 <= i < members@.len() && members@[i].key@ == "enable"@ && (forall|j: int|
        0 <= j < i ==> (#[trigger] members@[j]).key@ != "enable"@) {
        crate::json::member_is_the_first_of_its_name(members@, "enable"@, i);
        crate::json::whole_numbers(members@[i].value, 1);
    }
}

/// A strip that is off is shown by an empty circle, whatever else it reports.
pub proof fn off_is_shown_by_a_circle(state: State, name: Seq<char>)
    requires
        !state.device_on,
    ensures
        state.description(name).text == "○"@,
        state.description(name).class == "off"@,
        state.description(name).tooltip == crate::output::escaped(
            name + " · "@ + state.model@ + "\nConnected · Off"@ + "\n\n"@ + CONTROLS@,
        ),
{
}

/// A running effect is shown by a star and named, whatever color the strip reports.
pub proof fn effects_are_shown_by_a_star(state: State, name: Seq<char>)
    requires
        state.device_on,
        state.spec_effect(),
    ensures
        state.description(name).text == "✦"@,
        state.description(name).class == "effect"@,
        state.description(name).tooltip == crate::output::escaped(
            name + " · "@ + state.model@ + "\nConnected · On · "@ + crate::text::decimal(
                state.brightness as nat,
            ) + "%"@ + "\nEffect: "@ + (if state.dynamic_light_effect_id is Some {
                state.dynamic_light_effect_id->0@
            } else {
                "active"@
            }) + "\nPause the effect in the Tapo app before adjusting color or brightness."@
                + "\n\n"@ + CONTROLS@,
        ),
{
}

/// A color temperature alone decides that the strip is in white mode: it is then shown by a plain
/// dot and that temperature, whatever hue and saturation it reports.
pub proof fn white_mode_is_shown_by_a_plain_dot(state: State, name: Seq<char>)
    requires
        state.device_on,
        !state.spec_effect(),
        state.color_temp > 0,
    ensures
        state.description(name).text == "●"@,
        state.description(name).class == "on"@,
        state.description(name).tooltip == crate::output::escaped(
            name + " · "@ + state.model@ + "\nConnected · On · "@ + crate::text::decimal(
                state.brightness as nat,
            ) + "%"@ + "\nWhite mode: "@ + crate::text::decimal(state.color_temp as nat) + " K"@
                + "\n\n"@ + CONTROLS@,
        ),
{
}

/// Without a color temperature, every hue of at most 360 degrees with a saturation of at most 100
/// percent is shown by a dot of that color, with its hue, its saturation and the brightness. It is
/// called white without saturation, 1800K at that point of the palette, and custom elsewhere.
pub proof fn colors_are_shown_by_a_colored_dot(state: State, name: Seq<char>, h: u16, s: u16)
    requires
        state.device_on,
        !state.spec_effect(),
        state.color_temp == 0,
        state.hue == Some(h),
        state.saturation == Some(s),
        h <= 360,
        s <= 100,
    ensures
        state.description(name).text == "<span foreground=\""@ + crate::color::hex_color(
            h as nat,
            s as nat,
        ) + "\">●</span>"@,
        state.description(name).class == "on"@,
        state.description(name).tooltip == crate::output::escaped(
            name + " · "@ + state.model@ + "\nConnected · On · "@ + crate::text::decimal(
                state.brightness as nat,
            ) + "%"@ + "\nColor: near "@ + (if s == 0 {
                "White"@
            } else if h == 24 && s == 100 {
                "1800K"@
            } else {
                "Custom"@
            }) + " · HSV("@ + crate::text::decimal(h as nat) + ", "@ + crate::text::decimal(
                s as nat,
            ) + ", "@ + crate::text::decimal(state.brightness as nat) + ")"@ + "\n\n"@ + CONTROLS@,
        ),
{
}

/// Without a color temperature and a usable color the strip is shown by a plain dot.
pub proof fn unusable_color_is_shown_by_a_plain_dot(state: State, name: Seq<char>)
    requires
        state.device_on,
        !state.spec_effect(),
        state.color_temp == 0,
        state.hue is None || state.saturation is None || state.hue->0 > 360 || state.saturation->0
            > 100,
    ensures
        state.description(name).text == "●"@,
        state.description(name).class == "on"@,
        state.description(name).tooltip == crate::output::escaped(
            name + " · "@ + state.model@ + "\nConnected · On · "@ + crate::text::decimal(
                state.brightness as nat,
            ) + "%"@ + "\nColor unavailable"@ + "\n\n"@ + CONTROLS@,
        ),
{
}

/// The dot is colored only for a strip that is on, runs no effect, has no color temperature and
/// reports a usable color; in all other cases one sign is shown.
pub proof fn only_a_color_colors_the_dot(state: State, name: Seq<char>)
    ensures
        state.description(name).text.len() != 1 <==> {
            &&& state.device_on
            &&& !state.spec_effect()
            &&& state.color_temp == 0
            &&& state.hue is Some && state.hue->0 <= 360
            &&& state.saturation is Some && state.saturation->0 <= 100
        },
{
    reveal_strlit("○");
    reveal_strlit("✦");
    reveal_strlit("●");
    reveal_strlit("\">●</span>");
    assert("○"@.len() == 1 && "✦"@.len() == 1 && "●"@.len() == 1);
    assert("\">●</span>"@.len() == 10);
}

/// The name of a strip stands in the tooltip alone: text and class are the same under any name.
pub proof fn names_stand_in_the_tooltip(state: State, name1: Seq<char>, name2: Seq<char>)
    ensures
        state.description(name1).text == state.description(name2).text,
        state.description(name1).class == state.description(name2).class,
{
}

/// A strip is described under the name whose encoded form it reports, trimmed; under a general
/// name if that name is blank, or if what it reports is not the encoded form of any.
pub proof fn strips_go_by_the_reported_name(state: State, name: Seq<char>)
    ensures
        state.nickname@ == crate::nickname::base64_text(vstd::utf8::encode_utf8(name)) ==> {
            &&& !crate::text::blank(name) ==> state.status() == state.description(
                crate::text::trimmed(name),
            )
            &&& crate::text::blank(name) ==> state.status() == state.description("Tapo LED"@)
        },
        (forall|b: Seq<u8>|
            vstd::utf8::valid_utf8(b) ==> #[trigger] crate::nickname::base64_text(b)
                != state.nickname@) ==> state.status() == state.description("Tapo LED"@),
{
    crate::nickname::encoded_name_is_shown(name);
}

} // verus!
