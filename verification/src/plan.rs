//! The plan of a command: the ordered steps that carry it out.

use vstd::prelude::*;
use vstd::string::*;
use crate::command::{
    clear_log_words, config_updated_words, default_address, default_dui, default_signal,
    display_name_extra, launcher, no_words, pull_config_words, pull_log_words, push_config_words,
    push_int_extra, push_optional_extra, push_string_extra, push_word, quoted, register_words,
    required, rx_words, text_or, vidyo_words, zoom_words, Call, Clear, Commands, ConfigError, Pull,
    Push, AM,
};
use crate::invocation::{invocation_of, Invocation, InvocationModel};
use crate::words::{join_spaces, join_words, texts};

verus! {

/// One step of a plan.
#[derive(Debug, Clone, PartialEq, Eq)]
pub enum Step {
    /// Remove a local directory with all it holds. Whether this works does
    /// not matter to the plan.
    RemoveDir(String),
    /// Create a local directory. Whether this works does not matter to the
    /// plan.
    CreateDir(String),
    /// Start a program and wait for it to end.
    Spawn(Invocation),
    /// Open a local file with the handler the system has for it.
    Open(String),
}

/// What a [`Step`] stands for.
pub enum StepModel {
    RemoveDir(Seq<char>),
    CreateDir(Seq<char>),
    Spawn(InvocationModel),
    Open(Seq<char>),
}

impl StepModel {
    /// Whether the plan goes on when this step fails.
    pub open spec fn tolerated(self) -> bool {
        self is RemoveDir || self is CreateDir
    }
}

impl View for Step {
    type V = StepModel;

    open spec fn view(&self) -> StepModel {
        match *self {
            Step::RemoveDir(path) => StepModel::RemoveDir(path@),
            Step::CreateDir(path) => StepModel::CreateDir(path@),
            Step::Spawn(inv) => StepModel::Spawn(inv@),
            Step::Open(path) => StepModel::Open(path@),
        }
    }
}

impl Step {
    /// Whether the plan goes on when this step fails.
    pub fn failure_tolerated(&self) -> (t: bool)
        ensures
            t == self@.tolerated(),
    {
        match self {
            Step::RemoveDir(_) => true,
            Step::CreateDir(_) => true,
            Step::Spawn(_) => false,
            Step::Open(_) => false,
        }
    }
}

/// What the steps of a plan stand for, in order.
pub open spec fn step_models(steps: Seq<Step>) -> Seq<StepModel> {
    Seq::new(steps.len(), |i: int| steps[i]@)
}

/// The step that runs the command line made of `words`: the words are
/// joined by single spaces and the line is then read as an invocation. A
/// parameter value that holds a space therefore reaches the program as
/// several arguments; one that holds none arrives as it is.
pub open spec fn spawn_of(words: Seq<Seq<char>>) -> StepModel {
    StepModel::Spawn(invocation_of(join_spaces(words)))
}

/// The steps that carry out `cmd`, in order, or the parameter that `cmd`
/// lacks. Only a Zoom call without a link can lack one.
pub open spec fn plan_of(cmd: Commands) -> Result<Seq<StepModel>, ConfigError> {
    match cmd {
        Commands::Pull(Pull::Config) => Ok(
            seq![spawn_of(pull_config_words()), StepModel::Open("config.json"@)],
        ),
        Commands::Pull(Pull::Log) => Ok(
            seq![
                StepModel::RemoveDir("Log"@),
                StepModel::CreateDir("Log"@),
                spawn_of(pull_log_words()),
            ],
        ),
        Commands::Push(Push::Config) => Ok(
            seq![spawn_of(push_config_words()), spawn_of(config_updated_words())],
        ),
        Commands::Clear(Clear::Log) => Ok(seq![spawn_of(clear_log_words())]),
        Commands::AM(AM::Register { phone, token }) => Ok(
            seq![spawn_of(register_words(phone@, token@))],
        ),
        Commands::AM(AM::RX { dui, address, signal }) => Ok(
            seq![
                spawn_of(
                    rx_words(
                        text_or(dui, default_dui()),
                        text_or(address, default_address()),
                        text_or(signal, default_signal()),
                    ),
                ),
            ],
        ),
        Commands::AM(AM::Call(Call::Vidyo { room, pin, display_name, end_point })) => Ok(
            seq![spawn_of(vidyo_words(room@, pin, display_name, end_point))],
        ),
        Commands::AM(AM::Call(Call::Zoom { number, password, link })) => match zoom_words(
            number,
            password,
            link,
        ) {
            Ok(words) => Ok(seq![spawn_of(words)]),
            Err(e) => Err(e),
        },
    }
}

/// The step that runs the command line made of `words`.
fn spawn(words: &Vec<String>) -> (step: Step)
    ensures
        step@ == spawn_of(texts(words@)),
{
    let line: String = join_words(words);
    Step::Spawn(Invocation::from_line(line.as_str()))
}

/// A plan of one step.
fn single(step: Step) -> (steps: Vec<Step>)
    ensures
        step_models(steps@) == seq![step@],
{
    let mut steps: Vec<Step> = Vec::new();
    steps.push(step);
    proof {
        assert(step_models(steps@) =~= seq![step@]);
    }
    steps
}

/// The text of an optional parameter, or `default` where it was omitted.
fn or_default<'a>(value: &'a Option<String>, default: &'a str) -> (text: &'a str)
    ensures
        text@ == text_or(*value, default@),
{
    match value {
        Some(v) => v.as_str(),
        None => default,
    }
}

fn pull_config() -> (steps: Vec<Step>)
    ensures
        Ok::<Seq<StepModel>, ConfigError>(step_models(steps@)) == plan_of(
            Commands::Pull(Pull::Config),
        ),
{
    let mut words: Vec<String> = no_words();
    push_word(&mut words, "adb");
    push_word(&mut words, "pull");
    push_word(&mut words, "/sdcard/TBS/config.json");
    proof {
        assert(texts(words@) =~= pull_config_words());
    }
    let mut steps: Vec<Step> = Vec::new();
    steps.push(spawn(&words));
    steps.push(Step::Open(String::from_str("config.json")));
    proof {
        assert(step_models(steps@) =~= seq![
            spawn_of(pull_config_words()),
            StepModel::Open("config.json"@),
        ]);
    }
    steps
}

fn pull_log() -> (steps: Vec<Step>)
    ensures
        Ok::<Seq<StepModel>, ConfigError>(step_models(steps@)) == plan_of(
            Commands::Pull(Pull::Log),
        ),
{
    let mut words: Vec<String> = no_words();
    push_word(&mut words, "adb");
    push_word(&mut words, "pull");
    push_word(&mut words, "/sdcard/TBS/Log");
    proof {
        assert(texts(words@) =~= pull_log_words());
    }
    let mut steps: Vec<Step> = Vec::new();
    steps.push(Step::RemoveDir(String::from_str("Log")));
    steps.push(Step::CreateDir(String::from_str("Log")));
    steps.push(spawn(&words));
    proof {
        assert(step_models(steps@) =~= seq![
            StepModel::RemoveDir("Log"@),
            StepModel::CreateDir("Log"@),
            spawn_of(pull_log_words()),
        ]);
    }
    steps
}

fn push_config() -> (steps: Vec<Step>)
    ensures
        Ok::<Seq<StepModel>, ConfigError>(step_models(steps@)) == plan_of(
            Commands::Push(Push::Config),
        ),
{
    let mut words: Vec<String> = no_words();
    push_word(&mut words, "adb");
    push_word(&mut words, "push");
    push_word(&mut words, "config.json");
    push_word(&mut words, "/sdcard/TBS/");
    proof {
        assert(texts(words@) =~= push_config_words());
    }
    let mut notice: Vec<String> = no_words();
    push_word(&mut notice, "adb");
    push_word(&mut notice, "shell");
    push_word(&mut notice, "am");
    push_word(&mut notice, "broadcast");
    push_word(&mut notice, "-a");
    push_word(&mut notice, "com.mobilehelp.action.config.updated");
    proof {
        assert(texts(notice@) =~= config_updated_words());
    }
    let mut steps: Vec<Step> = Vec::new();
    steps.push(spawn(&words));
    steps.push(spawn(&notice));
    proof {
        assert(step_models(steps@) =~= seq![
            spawn_of(push_config_words()),
            spawn_of(config_updated_words()),
        ]);
    }
    steps
}

fn clear_log() -> (steps: Vec<Step>)
    ensures
        Ok::<Seq<StepModel>, ConfigError>(step_models(steps@)) == plan_of(
            Commands::Clear(Clear::Log),
        ),
{
    let mut words: Vec<String> = no_words();
    push_word(&mut words, "adb");
    push_word(&mut words, "shell");
    push_word(&mut words, "rm");
    push_word(&mut words, "-rf");
    push_word(&mut words, "/sdcard/TBS/Log/*");
    proof {
        assert(texts(words@) =~= clear_log_words());
    }
    single(spawn(&words))
}

fn register(phone: &String, token: &String) -> (steps: Vec<Step>)
    ensures
        step_models(steps@) == seq![spawn_of(register_words(phone@, token@))],
{
    let mut words: Vec<String> = no_words();
    push_word(&mut words, "adb");
    push_word(&mut words, "shell");
    push_word(&mut words, "am");
    push_word(&mut words, "start");
    push_word(&mut words, "-n");
    push_word(&mut words, "com.mobilehelp.alert/.ui.registration.WelcomeActivity");
    push_word(&mut words, "-a");
    push_word(&mut words, "com.mobilehelp.auto.register");
    proof {
        assert(texts(words@) =~= crate::command::register_base());
    }
    push_string_extra(&mut words, "phone", phone.as_str());
    push_string_extra(&mut words, "token", token.as_str());
    single(spawn(&words))
}

fn simulate_sensor(dui: &Option<String>, address: &Option<String>, signal: &Option<String>) -> (steps:
    Vec<Step>)
    ensures
        step_models(steps@) == seq![
            spawn_of(
                rx_words(
                    text_or(*dui, default_dui()),
                    text_or(*address, default_address()),
                    text_or(*signal, default_signal()),
                ),
            ),
        ],
{
    let mut words: Vec<String> = no_words();
    push_word(&mut words, "adb");
    push_word(&mut words, "shell");
    push_word(&mut words, "am");
    push_word(&mut words, "startservice");
    push_word(&mut words, "-n");
    push_word(&mut words, "com.mobilehelp.stub.i2c/.services.I2CService");
    push_word(&mut words, "-a");
    push_word(&mut words, "fake");
    proof {
        assert(texts(words@) =~= crate::command::rx_base());
    }
    push_int_extra(&mut words, "dui", or_default(dui, "32"));
    push_int_extra(&mut words, "address", or_default(address, "1"));
    push_int_extra(&mut words, "signal", or_default(signal, "5"));
    single(spawn(&words))
}

fn vidyo(
    room: &String,
    pin: &Option<String>,
    display_name: &Option<String>,
    end_point: &Option<String>,
) -> (steps: Vec<Step>)
    ensures
        step_models(steps@) == seq![
            spawn_of(vidyo_words(room@, *pin, *display_name, *end_point)),
        ],
{
    let mut words: Vec<String> = launcher("com.mobilehelp.vidyomeeting/.MainActivity");
    push_string_extra(&mut words, "room", room.as_str());
    push_optional_extra(&mut words, "pin", pin);
    match display_name {
        Some(name) => {
            let mut shown: String = String::from_str("\"");
            shown.append(name.as_str());
            shown.append("\"");
            proof {
                reveal_strlit("\"");
                assert(shown@ =~= quoted(name@));
            }
            push_string_extra(&mut words, "displayName", shown.as_str());
        },
        None => {
            proof {
                assert(texts(words@) =~= texts(words@) + display_name_extra(*display_name));
            }
        },
    }
    push_optional_extra(&mut words, "host", end_point);
    single(spawn(&words))
}

fn zoom(number: &Option<String>, password: &Option<String>, link: &Option<String>) -> (r: Result<
    Vec<Step>,
    ConfigError,
>)
    ensures
        match zoom_words(*number, *password, *link) {
            Ok(words) => r is Ok && step_models(r->Ok_0@) == seq![spawn_of(words)],
            Err(e) => r == Err::<Vec<Step>, ConfigError>(e),
        },
{
    let mut words: Vec<String> = launcher("com.mobilehelp.zoom/.activities.StartMeetingActivity");
    match link {
        Some(l) => {
            push_string_extra(&mut words, "meetingLink", l.as_str());
        },
        None => {
            let n: &String = match required(number, ConfigError::MeetingNumberRequired) {
                Ok(n) => n,
                Err(e) => {
                    return Err(e);
                },
            };
            let p: &String = match required(password, ConfigError::PasswordRequired) {
                Ok(p) => p,
                Err(e) => {
                    return Err(e);
                },
            };
            push_string_extra(&mut words, "meetingNumber", n.as_str());
            push_string_extra(&mut words, "password", p.as_str());
        },
    }
    Ok(single(spawn(&words)))
}

/// Plans `cmd`: the steps that carry it out, in order. Nothing has run when
/// this returns, and a command that lacks a parameter gets no plan at all.
pub fn plan(cmd: &Commands) -> (r: Result<Vec<Step>, ConfigError>)
    ensures
        match plan_of(*cmd) {
            Ok(steps) => r is Ok && step_models(r->Ok_0@) == steps,
            Err(e) => r == Err::<Vec<Step>, ConfigError>(e),
        },
{
    match cmd {
        Commands::Pull(Pull::Config) => Ok(pull_config()),
        Commands::Pull(Pull::Log) => Ok(pull_log()),
        Commands::Push(Push::Config) => Ok(push_config()),
        Commands::Clear(Clear::Log) => Ok(clear_log()),
        Commands::AM(AM::Register { phone, token }) => Ok(register(phone, token)),
        Commands::AM(AM::RX { dui, address, signal }) => Ok(simulate_sensor(dui, address, signal)),
        Commands::AM(AM::Call(Call::Vidyo { room, pin, display_name, end_point })) => Ok(
            vidyo(room, pin, display_name, end_point),
        ),
        Commands::AM(AM::Call(Call::Zoom { number, password, link })) => zoom(
            number,
            password,
            link,
        ),
    }
}

} // verus!
