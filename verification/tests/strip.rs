use base64::engine::general_purpose::STANDARD;
use base64::Engine;
use waybar_tapo::action::Action;
use waybar_tapo::address::{set_ip, SetIpStep};
use waybar_tapo::color::{color_hex, nearest_color};
use waybar_tapo::control::{payload, Payload, Scalar};
use waybar_tapo::disk::{Next, Outcome, Task};
use waybar_tapo::json::{Json, Member, Number};
use waybar_tapo::paths::Environment;
use waybar_tapo::session::{api_error, Error, TapoResponseError};
use waybar_tapo::state::State;

fn state() -> State {
    State {
        device_on: true,
        brightness: 50,
        model: "L900".to_string(),
        nickname: "TEVEIDxob21lPiY=".to_string(),
        hue: Some(240),
        saturation: Some(100),
        color_temp: 0,
        dynamic_light_effect_enable: false,
        dynamic_light_effect_id: None,
        lighting_effect: None,
    }
}

fn field(p: &Payload, key: &str) -> Option<Scalar> {
    p.fields().into_iter().find(|f| f.0 == key).map(|f| f.1)
}

#[test]
fn render_states_and_escape() {
    let mut s = state();
    let out = s.describe();
    assert!(out.text.contains("#0000ff"));
    assert!(out.tooltip.contains("LED &lt;home&gt;&amp;"));
    s.device_on = false;
    assert_eq!(s.describe().class, "off");
    s.device_on = true;
    s.dynamic_light_effect_enable = true;
    assert_eq!(s.describe().class, "effect");
    s.dynamic_light_effect_enable = false;
    s.hue = None;
    assert!(s.describe().tooltip.contains("Color unavailable"));
}

#[test]
fn color_math() {
    assert_eq!(color_hex(0, 100), "#ff0000");
    assert_eq!(color_hex(120, 100), "#00ff00");
    assert_eq!(color_hex(240, 100), "#0000ff");
    assert_eq!(color_hex(360, 100), "#ff0000");
    assert_eq!(color_hex(240, 0), "#ffffff");
    assert_eq!(nearest_color(123, 0), 1);
}

#[test]
fn actions_preserve_brightness_and_white() {
    let mut s = state();
    assert_eq!(field(&payload(&s, Action::Color).unwrap(), "hue"), Some(Scalar::Int(24)));
    assert_eq!(field(&payload(&s, Action::Warm).unwrap(), "brightness"), Some(Scalar::Int(50)));
    s.hue = Some(24);
    s.saturation = Some(100);
    let p = payload(&s, Action::Color).unwrap();
    assert_eq!(field(&p, "saturation"), Some(Scalar::Int(0)));
    assert_eq!(field(&p, "color_temp"), Some(Scalar::Int(0)));
    s.hue = Some(0);
    s.saturation = Some(0);
    let p = payload(&s, Action::Color).unwrap();
    assert_eq!(field(&p, "hue"), Some(Scalar::Int(24)));
    assert_eq!(field(&p, "saturation"), Some(Scalar::Int(100)));
}

#[test]
fn bounds_power_and_effect_guard() {
    let mut s = state();
    s.brightness = 99;
    assert_eq!(
        field(&payload(&s, Action::Brighter).unwrap(), "brightness"),
        Some(Scalar::Int(100))
    );
    s.brightness = 1;
    s.device_on = false;
    let p = payload(&s, Action::Dimmer).unwrap();
    assert_eq!(field(&p, "brightness"), Some(Scalar::Int(1)));
    assert_eq!(field(&p, "device_on"), Some(Scalar::Bool(true)));
    assert_eq!(
        field(&payload(&s, Action::Toggle).unwrap(), "device_on"),
        Some(Scalar::Bool(true))
    );
    s.dynamic_light_effect_enable = true;
    assert!(payload(&s, Action::Color).is_err());
    assert!(payload(&s, Action::Toggle).is_ok());
    assert!(payload(&s, Action::Status).is_err());
}

#[test]
fn errors_do_not_expose_secrets() {
    let out = api_error(Error::Tapo(TapoResponseError::Unauthorized {
        kind: "test".to_string(),
        description: "secret".to_string(),
    }));
    assert_eq!(out.class, "error");
    assert!(!out.tooltip.contains("secret"));
}

#[test]
fn set_ip_rejects_invalid_addresses_before_reading_config() {
    let step = SetIpStep::first("not-an-address");
    let env = Environment { config_home: None, cache_home: None, home: None };
    assert!(matches!(step.task(&env), Task::CheckAddress(text) if text == "not-an-address"));
    assert!(matches!(
        set_ip(step, Outcome::Failed),
        Next::Finish(Err("Invalid IP address."))
    ));
}

const CONTROLS: &str = "Left: white / 1800K · Middle: 1800K\nRight: on/off · Scroll: brightness ±5%\nColor and brightness controls turn the LED on.";

#[test]
fn descriptions_are_exact() {
    let mut s = state();
    let out = s.describe();
    assert_eq!(out.text, "<span foreground=\"#0000ff\">●</span>");
    assert_eq!(out.class, "on");
    assert_eq!(
        out.tooltip,
        format!(
            "LED &lt;home&gt;&amp; · L900\nConnected · On · 50%\nColor: near Custom · HSV(240, 100, 50)\n\n{CONTROLS}"
        )
    );
    s.hue = Some(24);
    assert!(s.describe().tooltip.contains("near 1800K · HSV(24, 100, 50)"));
    s.saturation = Some(0);
    assert!(s.describe().tooltip.contains("near White · HSV(24, 0, 50)"));
    assert_eq!(s.describe().text, "<span foreground=\"#ffffff\">●</span>");
    s.color_temp = 2700;
    let out = s.describe();
    assert_eq!((out.text.as_str(), out.class), ("●", "on"));
    assert!(out.tooltip.contains("\nWhite mode: 2700 K\n\n"));
    s.dynamic_light_effect_enable = true;
    let out = s.describe();
    assert_eq!((out.text.as_str(), out.class), ("✦", "effect"));
    assert!(out.tooltip.contains(
        "\nEffect: active\nPause the effect in the Tapo app before adjusting color or brightness.\n\n"
    ));
    s.dynamic_light_effect_id = Some("L'1".to_string());
    assert!(s.describe().tooltip.contains("\nEffect: L&apos;1\n"));
    s.device_on = false;
    let out = s.describe();
    assert_eq!((out.text.as_str(), out.class), ("○", "off"));
    assert_eq!(
        out.tooltip,
        format!("LED &lt;home&gt;&amp; · L900\nConnected · Off\n\n{CONTROLS}")
    );
}

#[test]
fn colors_out_of_range_are_unusable() {
    let mut s = state();
    s.hue = Some(360);
    assert_eq!(s.color(), Some((360, 100)));
    s.hue = Some(361);
    assert_eq!(s.color(), None);
    assert_eq!(s.describe().text, "●");
    assert_eq!(
        payload(&s, Action::Color),
        Err("Device did not report a usable color.")
    );
    assert!(payload(&s, Action::Warm).is_ok());
    s.hue = Some(0);
    s.saturation = Some(101);
    assert_eq!(s.color(), None);
    s.saturation = None;
    assert_eq!(s.color(), None);
}

fn shown(nickname: &str) -> String {
    let mut s = state();
    s.device_on = false;
    s.nickname = nickname.to_string();
    let tooltip = s.describe().tooltip;
    tooltip[..tooltip.find(" · ").unwrap()].to_string()
}

#[test]
fn nicknames_are_decoded() {
    for name in ["a", "ab", "abc", "abcd", "Küche", "居間", "x \u{1F4A1} y"] {
        assert_eq!(shown(&STANDARD.encode(name)), name);
    }
    assert_eq!(shown(&STANDARD.encode("\u{3000} a b\t\n")), "a b");
}

#[test]
fn unusable_nicknames_get_a_default() {
    assert_eq!(shown(""), "Tapo LED");
    assert_eq!(shown(&STANDARD.encode(" \u{a0}\r\n")), "Tapo LED");
    // Not in the alphabet, not padded, wrongly padded, stray bits, a line end.
    for text in ["YW=j", "YQ", "YQ=", "YWI", "YR==", "YWJ=", "YWJj\n", "YWJj YWJj", "Y", "ü==="] {
        assert_eq!(shown(text), "Tapo LED", "{text}");
    }
    // Not UTF-8.
    assert_eq!(shown(&STANDARD.encode([0x66u8, 0xff, 0x66])), "Tapo LED");
    assert_eq!(shown(&STANDARD.encode([0xc0u8, 0x80])), "Tapo LED");
    assert_eq!(shown(&STANDARD.encode([0xedu8, 0xa0, 0x80])), "Tapo LED");
}

fn effect(enable: Json) -> bool {
    let mut s = state();
    s.lighting_effect = Some(Json::Object(vec![
        Member { key: "name".to_string(), value: Json::Text("enable".to_string()) },
        Member { key: "enable".to_string(), value: enable },
    ]));
    s.effect()
}

#[test]
fn lighting_effects_run_when_enabled() {
    assert!(effect(Json::Number(Number::Unsigned(1))));
    assert!(effect(Json::Bool(true)));
    assert!(!effect(Json::Number(Number::Unsigned(0))));
    assert!(!effect(Json::Number(Number::Unsigned(2))));
    assert!(!effect(Json::Number(Number::Unsigned(u64::MAX))));
    assert!(!effect(Json::Number(Number::Negative(-1))));
    assert!(!effect(Json::Number(Number::Fractional(1.0f64.to_bits()))));
    assert!(!effect(Json::Bool(false)));
    assert!(!effect(Json::Null));
    assert!(!effect(Json::Text("1".to_string())));
    assert!(!effect(Json::Array(vec![Json::Number(Number::Unsigned(1))])));
    let mut s = state();
    s.lighting_effect = Some(Json::Object(vec![]));
    assert!(!s.effect());
    s.lighting_effect = Some(Json::Bool(true));
    assert!(!s.effect());
    s.lighting_effect = None;
    assert!(!s.effect());
    s.dynamic_light_effect_enable = true;
    assert!(s.effect());
}

#[test]
fn payloads_are_exact() {
    let mut s = state();
    assert_eq!(
        payload(&s, Action::Toggle).unwrap().fields(),
        vec![("device_on", Scalar::Bool(false))]
    );
    assert_eq!(
        payload(&s, Action::Brighter).unwrap().fields(),
        vec![("device_on", Scalar::Bool(true)), ("brightness", Scalar::Int(55))]
    );
    assert_eq!(
        payload(&s, Action::Dimmer).unwrap().fields(),
        vec![("device_on", Scalar::Bool(true)), ("brightness", Scalar::Int(45))]
    );
    assert_eq!(
        payload(&s, Action::Warm).unwrap().fields(),
        vec![
            ("device_on", Scalar::Bool(true)),
            ("brightness", Scalar::Int(50)),
            ("color_temp", Scalar::Int(0)),
            ("hue", Scalar::Int(24)),
            ("saturation", Scalar::Int(100)),
        ]
    );
    assert_eq!(payload(&s, Action::Status), Err("Status does not change the device."));
    s.brightness = 0;
    assert_eq!(payload(&s, Action::Warm).unwrap().brightness, Some(1));
    s.brightness = 255;
    assert_eq!(payload(&s, Action::Warm).unwrap().brightness, Some(100));
    assert_eq!(payload(&s, Action::Dimmer).unwrap().brightness, Some(100));
    s.dynamic_light_effect_enable = true;
    for action in [Action::Status, Action::Color, Action::Warm, Action::Brighter, Action::Dimmer] {
        assert_eq!(
            payload(&s, action),
            Err("Pause the active effect in the Tapo app before adjusting color or brightness.")
        );
    }
}

fn apply(s: &mut State, action: Action) {
    let p = payload(s, action).unwrap();
    s.device_on = p.device_on;
    if let Some(b) = p.brightness {
        s.brightness = b as u8;
    }
    if let Some(k) = p.color_temp {
        s.color_temp = k;
    }
    s.hue = p.hue.or(s.hue);
    s.saturation = p.saturation.or(s.saturation);
}

#[test]
fn actions_undo_each_other() {
    let mut s = state();
    apply(&mut s, Action::Toggle);
    assert!(!s.device_on);
    apply(&mut s, Action::Toggle);
    assert!(s.device_on);
    apply(&mut s, Action::Brighter);
    apply(&mut s, Action::Dimmer);
    assert_eq!(s.brightness, 50);
    apply(&mut s, Action::Color);
    assert_eq!(s.color(), Some((24, 100)));
    apply(&mut s, Action::Color);
    assert_eq!(s.color(), Some((0, 0)));
    apply(&mut s, Action::Color);
    assert_eq!(s.color(), Some((24, 100)));
    apply(&mut s, Action::Warm);
    assert_eq!(s.color(), Some((24, 100)));
    assert_eq!(s.brightness, 50);
}
