//! The two settings a reminder needs, read from a TOML document.
use vstd::prelude::*;

verus! {

/// The document written on first run, for the user to edit.
pub const DEFAULT_CONFIG: &'static str = "[sound]\nfile = \"path/to/sounds/new-message.wav\"\n\n[notification]\nbody = \"Time for a break! Stretch, hydrate, or take a short walk.\"\n";

/// The settings of one reminder.
#[derive(Clone, Debug, PartialEq, Eq)]
pub struct Config {
    /// Path of the audio file played after the notification.
    pub sound_file: String,
    /// Text shown in the notification.
    pub notification_body: String,
}

#[derive(Clone, Copy, Debug, PartialEq, Eq, Structural)]
pub enum ConfigError {
    /// The text is not a TOML document.
    Unparsable,
    /// `sound.file` is absent or not a string.
    MissingSoundFile,
    /// `notification.body` is absent or not a string.
    MissingNotificationBody,
}

impl Config {
    /// The settings as plain sequences: sound file, then notification body.
    pub open spec fn view_pair(self) -> (Seq<char>, Seq<char>) {
        (self.sound_file@, self.notification_body@)
    }
}

pub open spec fn opt_view(o: Option<String>) -> Option<Seq<char>> {
    match o {
        Some(s) => Some(s@),
        None => None,
    }
}

pub open spec fn result_view(r: Result<Config, ConfigError>) -> Result<(Seq<char>, Seq<char>), ConfigError> {
    match r {
        Ok(c) => Ok(c.view_pair()),
        Err(e) => Err(e),
    }
}

/// The settings made of the two looked-up values; the sound file is required
/// first, then the notification body.
pub open spec fn settings_of(sound: Option<Seq<char>>, body: Option<Seq<char>>) -> Result<(Seq<char>, Seq<char>), ConfigError> {
    match (sound, body) {
        (None, _) => Err(ConfigError::MissingSoundFile),
        (Some(_), None) => Err(ConfigError::MissingNotificationBody),
        (Some(s), Some(b)) => Ok((s, b)),
    }
}

/// Whether a text is a TOML document, as the toml crate parses it.
pub uninterp spec fn toml_accepts(text: Seq<char>) -> bool;

/// The string stored under `key` in table `table` of a TOML document; `None`
/// where the table or key is absent or the value is not a string.
pub uninterp spec fn toml_string_at(text: Seq<char>, table: Seq<char>, key: Seq<char>) -> Option<Seq<char>>;

/// The settings a document holds.
pub open spec fn settings_in(text: Seq<char>) -> Result<(Seq<char>, Seq<char>), ConfigError> {
    if !toml_accepts(text) {
        Err(ConfigError::Unparsable)
    } else {
        settings_of(
            toml_string_at(text, "sound"@, "file"@),
            toml_string_at(text, "notification"@, "body"@),
        )
    }
}

#[verifier::external_type_specification]
#[verifier::external_body]
pub struct ExTomlError(toml::de::Error);

/// Relies on toml's `FromStr` for `Value` (which is `toml::from_str`), then
/// `Value::get` twice and `Value::as_str`: parses the document and reads the
/// string at `table.key`.
#[verifier::external_body]
fn toml_string(text: &str, table: &str, key: &str) -> (r: Result<Option<String>, toml::de::Error>)
    ensures
        r is Ok <==> toml_accepts(text@),
        r matches Ok(v) ==> opt_view(v) == toml_string_at(text@, table@, key@),
{
    let doc = text.parse::<toml::Value>()?;
    Ok(doc.get(table).and_then(|t| t.get(key)).and_then(|v| v.as_str()).map(|s| s.to_string()))
}

/// Builds the settings from the two looked-up values.
pub fn config_from_fields(sound: Option<String>, body: Option<String>) -> (r: Result<Config, ConfigError>)
    ensures
        result_view(r) == settings_of(opt_view(sound), opt_view(body)),
{
    match sound {
        None => Err(ConfigError::MissingSoundFile),
        Some(sound_file) => match body {
            None => Err(ConfigError::MissingNotificationBody),
            Some(notification_body) => Ok(Config { sound_file, notification_body }),
        },
    }
}

impl Config {
    /// Reads `sound.file` and `notification.body` from a TOML document.
    pub fn from_toml_str(text: &str) -> (r: Result<Config, ConfigError>)
        ensures
            result_view(r) == settings_in(text@),
    {
        let sound = match toml_string(text, "sound", "file") {
            Ok(v) => v,
            Err(_) => return Err(ConfigError::Unparsable),
        };
        let body = match toml_string(text, "notification", "body") {
            Ok(v) => v,
            Err(_) => return Err(ConfigError::Unparsable),
        };
        proof {
            reveal_strlit("sound");
            reveal_strlit("file");
            reveal_strlit("notification");
            reveal_strlit("body");
        }
        config_from_fields(sound, body)
    }
}

} // verus!
