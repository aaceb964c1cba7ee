//! The commands of the tool and the words of the bridge command line that
//! each of them stands for.

use vstd::prelude::*;
use vstd::string::*;
use crate::words::texts;

verus! {

/// A top-level verb with its sub-verb.
#[derive(Debug, Clone, PartialEq, Eq)]
pub enum Commands {
    /// Get files from the device.
    Pull(Pull),
    /// Push files to the device.
    Push(Push),
    /// Remove files from the device.
    Clear(Clear),
    /// Send something to the device's activity manager.
    AM(AM),
}

#[derive(Debug, Clone, Copy, PartialEq, Eq)]
pub enum Pull {
    /// Get the configuration file from the device and open it.
    Config,
    /// Get all logs from the device into a fresh local directory.
    Log,
}

#[derive(Debug, Clone, Copy, PartialEq, Eq)]
pub enum Push {
    /// Push the local configuration file to the device and announce it.
    Config,
}

#[derive(Debug, Clone, Copy, PartialEq, Eq)]
pub enum Clear {
    /// Remove all logs from the device.
    Log,
}

#[derive(Debug, Clone, PartialEq, Eq)]
pub enum AM {
    /// Register the device with a phone number and a one-time token.
    Register { phone: String, token: String },
    /// Simulate a received sensor packet; an omitted value takes its default.
    RX { dui: Option<String>, address: Option<String>, signal: Option<String> },
    /// Start a video call.
    Call(Call),
}

#[derive(Debug, Clone, PartialEq, Eq)]
pub enum Call {
    /// A Vidyo call into `room`.
    Vidyo {
        room: String,
        pin: Option<String>,
        display_name: Option<String>,
        end_point: Option<String>,
    },
    /// A Zoom call, by `link` or else by `number` and `password`.
    Zoom { number: Option<String>, password: Option<String>, link: Option<String> },
}

/// A command that lacks a parameter it cannot do without.
#[derive(Debug, Clone, Copy, PartialEq, Eq)]
pub enum ConfigError {
    MeetingNumberRequired,
    PasswordRequired,
}

impl ConfigError {
    /// The text shown to the user for this error.
    pub open spec fn message_text(self) -> Seq<char> {
        match self {
            ConfigError::MeetingNumberRequired => "Meeting number is required."@,
            ConfigError::PasswordRequired => "Password is required."@,
        }
    }

    /// The text shown to the user for this error.
    pub fn message(&self) -> (text: String)
        ensures
            text@ == self.message_text(),
    {
        match self {
            ConfigError::MeetingNumberRequired => String::from_str("Meeting number is required."),
            ConfigError::PasswordRequired => String::from_str("Password is required."),
        }
    }
}

/// The value of a parameter that must be present, or `missing` where it is
/// absent.
pub fn required(value: &Option<String>, missing: ConfigError) -> (r: Result<&String, ConfigError>)
    ensures
        match *value {
            Some(v) => r == Ok::<&String, ConfigError>(&v),
            None => r == Err::<&String, ConfigError>(missing),
        },
{
    match value {
        Some(v) => Ok(v),
        None => Err(missing),
    }
}

/// The default device identifier of a simulated sensor packet.
pub open spec fn default_dui() -> Seq<char> {
    "32"@
}

/// The default pendant address of a simulated sensor packet.
pub open spec fn default_address() -> Seq<char> {
    "1"@
}

/// The default signal of a simulated sensor packet.
pub open spec fn default_signal() -> Seq<char> {
    "5"@
}

/// The text of an optional parameter, or `default` where it was omitted.
pub open spec fn text_or(value: Option<String>, default: Seq<char>) -> Seq<char> {
    match value {
        Some(v) => v@,
        None => default,
    }
}

/// The words that pass `value` under `key` as a string extra.
pub open spec fn string_extra(key: Seq<char>, value: Seq<char>) -> Seq<Seq<char>> {
    seq!["--es"@, key, value]
}

/// The words that pass `value` under `key` as an integer extra.
pub open spec fn int_extra(key: Seq<char>, value: Seq<char>) -> Seq<Seq<char>> {
    seq!["--ei"@, key, value]
}

/// A string extra for a parameter that was supplied, nothing for one that
/// was not.
pub open spec fn optional_extra(key: Seq<char>, value: Option<String>) -> Seq<Seq<char>> {
    match value {
        Some(v) => string_extra(key, v@),
        None => Seq::<Seq<char>>::empty(),
    }
}

/// `text` between two double quotes.
pub open spec fn quoted(text: Seq<char>) -> Seq<char> {
    seq!['"'] + text + seq!['"']
}

/// The display-name extra of a Vidyo call: the name goes out quoted.
pub open spec fn display_name_extra(name: Option<String>) -> Seq<Seq<char>> {
    match name {
        Some(n) => string_extra("displayName"@, quoted(n@)),
        None => Seq::<Seq<char>>::empty(),
    }
}

/// Pulling the configuration file from the device.
pub open spec fn pull_config_words() -> Seq<Seq<char>> {
    seq!["adb"@, "pull"@, "/sdcard/TBS/config.json"@]
}

/// Pulling the log directory from the device.
pub open spec fn pull_log_words() -> Seq<Seq<char>> {
    seq!["adb"@, "pull"@, "/sdcard/TBS/Log"@]
}

/// Pushing the local configuration file to the device.
pub open spec fn push_config_words() -> Seq<Seq<char>> {
    seq!["adb"@, "push"@, "config.json"@, "/sdcard/TBS/"@]
}

/// Broadcasting on the device that the configuration was updated.
pub open spec fn config_updated_words() -> Seq<Seq<char>> {
    seq![
        "adb"@,
        "shell"@,
        "am"@,
        "broadcast"@,
        "-a"@,
        "com.mobilehelp.action.config.updated"@,
    ]
}

/// Removing everything under the log directory on the device.
pub open spec fn clear_log_words() -> Seq<Seq<char>> {
    seq!["adb"@, "shell"@, "rm"@, "-rf"@, "/sdcard/TBS/Log/*"@]
}

/// The fixed words of the registration request, before its extras.
pub open spec fn register_base() -> Seq<Seq<char>> {
    seq![
        "adb"@,
        "shell"@,
        "am"@,
        "start"@,
        "-n"@,
        "com.mobilehelp.alert/.ui.registration.WelcomeActivity"@,
        "-a"@,
        "com.mobilehelp.auto.register"@,
    ]
}

/// Registration: the phone number and the token as string extras, in that
/// order.
pub open spec fn register_words(phone: Seq<char>, token: Seq<char>) -> Seq<Seq<char>> {
    register_base() + string_extra("phone"@, phone) + string_extra("token"@, token)
}

/// The fixed words of the sensor simulation, before its extras.
pub open spec fn rx_base() -> Seq<Seq<char>> {
    seq![
        "adb"@,
        "shell"@,
        "am"@,
        "startservice"@,
        "-n"@,
        "com.mobilehelp.stub.i2c/.services.I2CService"@,
        "-a"@,
        "fake"@,
    ]
}

/// Sensor simulation: device identifier, address and signal as integer
/// extras.
pub open spec fn rx_words(dui: Seq<char>, address: Seq<char>, signal: Seq<char>) -> Seq<
    Seq<char>,
> {
    rx_base() + int_extra("dui"@, dui) + int_extra("address"@, address) + int_extra(
        "signal"@,
        signal,
    )
}

/// The fixed words that launch the activity `component` from the launcher.
pub open spec fn launcher_words(component: Seq<char>) -> Seq<Seq<char>> {
    seq![
        "adb"@,
        "shell"@,
        "am"@,
        "start"@,
        "-n"@,
        component,
        "-c"@,
        "android.intent.category.LAUNCHER"@,
        "-a"@,
        "android.intent.action.MAIN"@,
        "--activity-single-top"@,
    ]
}

/// A Vidyo call: the room always, then pin, display name and host, each
/// only where it was supplied.
pub open spec fn vidyo_words(
    room: Seq<char>,
    pin: Option<String>,
    display_name: Option<String>,
    end_point: Option<String>,
) -> Seq<Seq<char>> {
    launcher_words("com.mobilehelp.vidyomeeting/.MainActivity"@) + string_extra("room"@, room)
        + optional_extra("pin"@, pin) + display_name_extra(display_name) + optional_extra(
        "host"@,
        end_point,
    )
}

/// The fixed words of a Zoom call, before its extras.
pub open spec fn zoom_base() -> Seq<Seq<char>> {
    launcher_words("com.mobilehelp.zoom/.activities.StartMeetingActivity"@)
}

/// A Zoom call: the link alone where there is one; else the meeting number
/// and the password, both of which must then be there. The number is looked
/// for first.
pub open spec fn zoom_words(
    number: Option<String>,
    password: Option<String>,
    link: Option<String>,
) -> Result<Seq<Seq<char>>, ConfigError> {
    match link {
        Some(l) => Ok(zoom_base() + string_extra("meetingLink"@, l@)),
        None => match number {
            None => Err(ConfigError::MeetingNumberRequired),
            Some(n) => match password {
                None => Err(ConfigError::PasswordRequired),
                Some(p) => Ok(
                    zoom_base() + string_extra("meetingNumber"@, n@) + string_extra(
                        "password"@,
                        p@,
                    ),
                ),
            },
        },
    }
}

/// An empty word list.
pub(crate) fn no_words() -> (words: Vec<String>)
    ensures
        texts(words@) == Seq::<Seq<char>>::empty(),
{
    let words: Vec<String> = Vec::new();
    proof {
        assert(texts(words@) =~= Seq::<Seq<char>>::empty());
    }
    words
}

/// Appends one word.
pub(crate) fn push_word(words: &mut Vec<String>, word: &str)
    ensures
        texts(final(words)@) == texts(old(words)@).push(word@),
{
    words.push(String::from_str(word));
    proof {
        assert(texts(words@) =~= texts(old(words)@).push(word@));
    }
}

/// Appends the three words of a string extra.
pub(crate) fn push_string_extra(words: &mut Vec<String>, key: &str, value: &str)
    ensures
        texts(final(words)@) == texts(old(words)@) + string_extra(key@, value@),
{
    push_word(words, "--es");
    push_word(words, key);
    push_word(words, value);
    proof {
        assert(texts(words@) =~= texts(old(words)@) + string_extra(key@, value@));
    }
}

/// Appends the three words of an integer extra.
pub(crate) fn push_int_extra(words: &mut Vec<String>, key: &str, value: &str)
    ensures
        texts(final(words)@) == texts(old(words)@) + int_extra(key@, value@),
{
    push_word(words, "--ei");
    push_word(words, key);
    push_word(words, value);
    proof {
        assert(texts(words@) =~= texts(old(words)@) + int_extra(key@, value@));
    }
}

/// Appends a string extra where `value` was supplied.
pub(crate) fn push_optional_extra(words: &mut Vec<String>, key: &str, value: &Option<String>)
    ensures
        texts(final(words)@) == texts(old(words)@) + optional_extra(key@, *value),
{
    match value {
        Some(v) => {
            push_string_extra(words, key, v.as_str());
        },
        None => {
            proof {
                assert(texts(words@) =~= texts(words@) + Seq::<Seq<char>>::empty());
            }
        },
    }
}

/// The words that launch the activity `component` from the launcher.
pub(crate) fn launcher(component: &str) -> (words: Vec<String>)
    ensures
        texts(words@) == launcher_words(component@),
{
    let mut words: Vec<String> = no_words();
    push_word(&mut words, "adb");
    push_word(&mut words, "shell");
    push_word(&mut words, "am");
    push_word(&mut words, "start");
    push_word(&mut words, "-n");
    push_word(&mut words, component);
    push_word(&mut words, "-c");
    push_word(&mut words, "android.intent.category.LAUNCHER");
    push_word(&mut words, "-a");
    push_word(&mut words, "android.intent.action.MAIN");
    push_word(&mut words, "--activity-single-top");
    proof {
        assert(texts(words@) =~= launcher_words(component@));
    }
    words
}

} // verus!
