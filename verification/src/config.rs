//! The connection settings.
use vstd::prelude::*;
use crate::text::trim;

verus! {

/// The file mode of the configuration and of the lock: readable by their owner alone.
pub const PRIVATE_MODE: u32 = 0o600;

/// How to reach the strip.
pub struct Config {
    pub device_ip: String,
    pub username: String,
    pub password: String,
}

/// The model of a [`Config`].
#[verifier::ext_equal]
pub struct ConfigView {
    pub device_ip: Seq<char>,
    pub username: Seq<char>,
    pub password: Seq<char>,
}

impl View for Config {
    type V = ConfigView;

    open spec fn view(&self) -> ConfigView {
        ConfigView {
            device_ip: self.device_ip@,
            username: self.username@,
            password: self.password@,
        }
    }
}

/// What came of reading a configuration file.
pub enum ConfigSource {
    /// The file could not be read.
    Unreadable,
    /// The file is not a JSON object with the three settings.
    Malformed,
    /// The settings in the file.
    Parsed(Config),
}

/// The model of a [`ConfigSource`].
pub enum ConfigSourceView {
    Unreadable,
    Malformed,
    Parsed(ConfigView),
}

impl View for ConfigSource {
    type V = ConfigSourceView;

    open spec fn view(&self) -> ConfigSourceView {
        match self {
            ConfigSource::Unreadable => ConfigSourceView::Unreadable,
            ConfigSource::Malformed => ConfigSourceView::Malformed,
            ConfigSource::Parsed(cfg) => ConfigSourceView::Parsed(cfg@),
        }
    }
}

/// The message for a configuration file that cannot be read.
pub const UNREADABLE: &'static str = "Cannot read waybar/tapo.json. Run tapo-setup.sh first.";

impl ConfigView {
    /// Whether every setting holds something besides white space.
    pub open spec fn complete(self) -> bool {
        &&& !crate::text::blank(self.device_ip)
        &&& !crate::text::blank(self.username)
        &&& !crate::text::blank(self.password)
    }

    /// The settings with another address.
    pub open spec fn at_address(self, value: Seq<char>) -> ConfigView {
        ConfigView { device_ip: value, username: self.username, password: self.password }
    }
}

/// The settings that a configuration file gives, or the reason why it gives none.
pub open spec fn accepted(source: ConfigSourceView) -> Result<ConfigView, Seq<char>> {
    match source {
        ConfigSourceView::Unreadable => Err(UNREADABLE@),
        ConfigSourceView::Malformed => Err(
            "Invalid Tapo config; required: device_ip, username, password."@,
        ),
        ConfigSourceView::Parsed(cfg) => if cfg.complete() {
            Ok(cfg)
        } else {
            Err("Tapo connection settings cannot be empty."@)
        },
    }
}

/// The model of settings or a reason.
pub open spec fn settings_view(r: Result<Config, &'static str>) -> Result<ConfigView, Seq<char>> {
    match r {
        Ok(cfg) => Ok(cfg@),
        Err(reason) => Err(reason@),
    }
}

impl Config {
    /// Takes the settings from a configuration file.
    pub fn read(source: ConfigSource) -> (r: Result<Config, &'static str>)
        ensures
            settings_view(r) == accepted(source@),
    {
        match source {
            ConfigSource::Unreadable => Err(UNREADABLE),
            ConfigSource::Malformed => Err(
                "Invalid Tapo config; required: device_ip, username, password.",
            ),
            ConfigSource::Parsed(cfg) => {
                proof {
                    crate::text::trimmed_empty_iff_blank(cfg.device_ip@);
                    crate::text::trimmed_empty_iff_blank(cfg.username@);
                    crate::text::trimmed_empty_iff_blank(cfg.password@);
                }
                if trim(cfg.device_ip.as_str()).is_empty() || trim(
                    cfg.username.as_str(),
                ).is_empty() || trim(cfg.password.as_str()).is_empty() {
                    Err("Tapo connection settings cannot be empty.")
                } else {
                    Ok(cfg)
                }
            },
        }
    }

    /// Changes the address and keeps the credentials.
    pub fn readdressed(self, value: &str) -> (r: Config)
        ensures
            r@ == self@.at_address(value@),
    {
        Config { device_ip: value.to_owned(), username: self.username, password: self.password }
    }

    /// Copies the settings.
    pub fn copy(&self) -> (r: Config)
        ensures
            r@ == self@,
    {
        Config {
            device_ip: self.device_ip.clone(),
            username: self.username.clone(),
            password: self.password.clone(),
        }
    }
}

/// Settings that were accepted once are accepted again, unchanged, also at another address that
/// is not blank.
pub proof fn accepted_settings_stay_accepted(
    source: ConfigSourceView,
    cfg: ConfigView,
    value: Seq<char>,
)
    requires
        accepted(source) == Ok::<ConfigView, Seq<char>>(cfg),
    ensures
        accepted(ConfigSourceView::Parsed(cfg)) == Ok::<ConfigView, Seq<char>>(cfg),
        !crate::text::blank(value) ==> accepted(ConfigSourceView::Parsed(cfg.at_address(value)))
            == Ok::<ConfigView, Seq<char>>(cfg.at_address(value)),
{
}

/// Settings are accepted exactly when each of the three holds a character that is not white
/// space, and then as they are. Any other file is refused with its own reason.
pub proof fn settings_are_taken_verbatim(cfg: ConfigView)
    ensures
        accepted(ConfigSourceView::Parsed(cfg)) == (if (exists|i: int|
            0 <= i < cfg.device_ip.len() && !crate::text::white_space(#[trigger] cfg.device_ip[i]))
            && (exists|i: int|
            0 <= i < cfg.username.len() && !crate::text::white_space(#[trigger] cfg.username[i]))
            && (exists|i: int|
            0 <= i < cfg.password.len() && !crate::text::white_space(#[trigger] cfg.password[i])) {
            Ok::<ConfigView, Seq<char>>(cfg)
        } else {
            Err::<ConfigView, Seq<char>>("Tapo connection settings cannot be empty."@)
        }),
        accepted(ConfigSourceView::Malformed) == Err::<ConfigView, Seq<char>>(
            "Invalid Tapo config; required: device_ip, username, password."@,
        ),
        accepted(ConfigSourceView::Unreadable) == Err::<ConfigView, Seq<char>>(
            "Cannot read waybar/tapo.json. Run tapo-setup.sh first."@,
        ),
{
}

/// Another address replaces the address, verbatim, and keeps the credentials.
pub proof fn another_address_keeps_the_credentials(cfg: ConfigView, value: Seq<char>)
    ensures
        cfg.at_address(value).device_ip == value,
        cfg.at_address(value).username == cfg.username,
        cfg.at_address(value).password == cfg.password,
{
}

/// The model of settings is that of its fields.
pub proof fn settings_are_their_fields(cfg: Config)
    ensures
        cfg@.device_ip == cfg.device_ip@,
        cfg@.username == cfg.username@,
        cfg@.password == cfg.password@,
        ConfigSource::Parsed(cfg)@ == ConfigSourceView::Parsed(cfg@),
        ConfigSource::Malformed@ == ConfigSourceView::Malformed,
        ConfigSource::Unreadable@ == ConfigSourceView::Unreadable,
        settings_view(Ok(cfg)) == Ok::<ConfigView, Seq<char>>(cfg@),
        forall|reason: &'static str| #[trigger]
            settings_view(Err(reason)) == Err::<ConfigView, Seq<char>>(reason@),
{
}

} // verus!
