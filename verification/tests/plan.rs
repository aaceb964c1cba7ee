use tbs::command::{required, Call, Clear, Commands, ConfigError, Pull, Push, AM};
use tbs::invocation::Invocation;
use tbs::plan::{plan, Step};

fn adb(args: &[&str]) -> Step {
    Step::Spawn(Invocation {
        program: "adb".to_string(),
        args: args.iter().map(|a| a.to_string()).collect(),
    })
}

fn some(text: &str) -> Option<String> {
    Some(text.to_string())
}

fn zoom(number: Option<String>, password: Option<String>, link: Option<String>) -> Commands {
    Commands::AM(AM::Call(Call::Zoom { number, password, link }))
}

fn only_args(steps: &[Step]) -> Vec<String> {
    assert_eq!(steps.len(), 1);
    match &steps[0] {
        Step::Spawn(inv) => inv.args.clone(),
        other => panic!("not an invocation: {:?}", other),
    }
}

#[test]
fn pull_config_pulls_then_opens() {
    let steps = plan(&Commands::Pull(Pull::Config)).unwrap();
    assert_eq!(
        steps,
        vec![adb(&["pull", "/sdcard/TBS/config.json"]), Step::Open("config.json".to_string())]
    );
}

#[test]
fn pull_log_resets_the_directory_before_the_pull() {
    let steps = plan(&Commands::Pull(Pull::Log)).unwrap();
    assert_eq!(
        steps,
        vec![
            Step::RemoveDir("Log".to_string()),
            Step::CreateDir("Log".to_string()),
            adb(&["pull", "/sdcard/TBS/Log"]),
        ]
    );
}

#[test]
fn push_config_pushes_then_broadcasts() {
    let steps = plan(&Commands::Push(Push::Config)).unwrap();
    assert_eq!(
        steps,
        vec![
            adb(&["push", "config.json", "/sdcard/TBS/"]),
            adb(&["shell", "am", "broadcast", "-a", "com.mobilehelp.action.config.updated"]),
        ]
    );
}

#[test]
fn clear_log_removes_the_remote_logs() {
    let steps = plan(&Commands::Clear(Clear::Log)).unwrap();
    assert_eq!(steps, vec![adb(&["shell", "rm", "-rf", "/sdcard/TBS/Log/*"])]);
}

#[test]
fn register_passes_phone_then_token() {
    let cmd = Commands::AM(AM::Register {
        phone: "5550100".to_string(),
        token: "123456".to_string(),
    });
    let steps = plan(&cmd).unwrap();
    assert_eq!(
        steps,
        vec![adb(&[
            "shell",
            "am",
            "start",
            "-n",
            "com.mobilehelp.alert/.ui.registration.WelcomeActivity",
            "-a",
            "com.mobilehelp.auto.register",
            "--es",
            "phone",
            "5550100",
            "--es",
            "token",
            "123456",
        ])]
    );
}

#[test]
fn register_with_a_space_in_the_phone_number_splits_it() {
    let cmd = Commands::AM(AM::Register {
        phone: "555 0100".to_string(),
        token: "1".to_string(),
    });
    let args = only_args(&plan(&cmd).unwrap());
    assert_eq!(&args[7..], &["--es", "phone", "555", "0100", "--es", "token", "1"]);
}

#[test]
fn rx_without_values_uses_the_defaults() {
    let cmd = Commands::AM(AM::RX { dui: None, address: None, signal: None });
    let steps = plan(&cmd).unwrap();
    assert_eq!(
        steps,
        vec![adb(&[
            "shell",
            "am",
            "startservice",
            "-n",
            "com.mobilehelp.stub.i2c/.services.I2CService",
            "-a",
            "fake",
            "--ei",
            "dui",
            "32",
            "--ei",
            "address",
            "1",
            "--ei",
            "signal",
            "5",
        ])]
    );
}

#[test]
fn rx_with_values_passes_them() {
    let cmd = Commands::AM(AM::RX { dui: some("30"), address: some("7"), signal: some("2") });
    let args = only_args(&plan(&cmd).unwrap());
    assert_eq!(&args[7..], &["--ei", "dui", "30", "--ei", "address", "7", "--ei", "signal", "2"]);
}

#[test]
fn rx_defaults_each_value_on_its_own() {
    let cmd = Commands::AM(AM::RX { dui: None, address: some("9"), signal: None });
    let args = only_args(&plan(&cmd).unwrap());
    assert_eq!(&args[7..], &["--ei", "dui", "32", "--ei", "address", "9", "--ei", "signal", "5"]);
}

#[test]
fn vidyo_with_room_alone() {
    let cmd = Commands::AM(AM::Call(Call::Vidyo {
        room: "lobby".to_string(),
        pin: None,
        display_name: None,
        end_point: None,
    }));
    let steps = plan(&cmd).unwrap();
    assert_eq!(
        steps,
        vec![adb(&[
            "shell",
            "am",
            "start",
            "-n",
            "com.mobilehelp.vidyomeeting/.MainActivity",
            "-c",
            "android.intent.category.LAUNCHER",
            "-a",
            "android.intent.action.MAIN",
            "--activity-single-top",
            "--es",
            "room",
            "lobby",
        ])]
    );
}

#[test]
fn vidyo_with_every_option() {
    let cmd = Commands::AM(AM::Call(Call::Vidyo {
        room: "lobby".to_string(),
        pin: some("4321"),
        display_name: some("Pat"),
        end_point: some("host.example"),
    }));
    let args = only_args(&plan(&cmd).unwrap());
    assert_eq!(
        &args[10..],
        &[
            "--es",
            "room",
            "lobby",
            "--es",
            "pin",
            "4321",
            "--es",
            "displayName",
            "\"Pat\"",
            "--es",
            "host",
            "host.example",
        ]
    );
}

#[test]
fn vidyo_with_host_alone_skips_the_other_extras() {
    let cmd = Commands::AM(AM::Call(Call::Vidyo {
        room: "r".to_string(),
        pin: None,
        display_name: None,
        end_point: some("h"),
    }));
    let args = only_args(&plan(&cmd).unwrap());
    assert_eq!(&args[10..], &["--es", "room", "r", "--es", "host", "h"]);
}

#[test]
fn vidyo_display_name_with_a_space_is_split() {
    let cmd = Commands::AM(AM::Call(Call::Vidyo {
        room: "r".to_string(),
        pin: None,
        display_name: some("Pat Doe"),
        end_point: None,
    }));
    let args = only_args(&plan(&cmd).unwrap());
    assert_eq!(&args[10..], &["--es", "room", "r", "--es", "displayName", "\"Pat", "Doe\""]);
}

#[test]
fn zoom_with_link_passes_the_link_alone() {
    let steps = plan(&zoom(some("77"), some("secret"), some("https://zoom.example/j/1"))).unwrap();
    assert_eq!(
        steps,
        vec![adb(&[
            "shell",
            "am",
            "start",
            "-n",
            "com.mobilehelp.zoom/.activities.StartMeetingActivity",
            "-c",
            "android.intent.category.LAUNCHER",
            "-a",
            "android.intent.action.MAIN",
            "--activity-single-top",
            "--es",
            "meetingLink",
            "https://zoom.example/j/1",
        ])]
    );
    let args = only_args(&steps);
    assert!(!args.iter().any(|a| a == "meetingNumber" || a == "password"));
}

#[test]
fn zoom_with_link_needs_neither_number_nor_password() {
    let args = only_args(&plan(&zoom(None, None, some("l"))).unwrap());
    assert_eq!(&args[10..], &["--es", "meetingLink", "l"]);
}

#[test]
fn zoom_without_link_passes_number_and_password() {
    let args = only_args(&plan(&zoom(some("77"), some("secret"), None)).unwrap());
    assert_eq!(&args[10..], &["--es", "meetingNumber", "77", "--es", "password", "secret"]);
}

#[test]
fn zoom_without_link_and_number_is_refused() {
    assert_eq!(plan(&zoom(None, some("secret"), None)), Err(ConfigError::MeetingNumberRequired));
    assert_eq!(plan(&zoom(None, None, None)), Err(ConfigError::MeetingNumberRequired));
}

#[test]
fn zoom_without_link_and_password_is_refused() {
    assert_eq!(plan(&zoom(some("77"), None, None)), Err(ConfigError::PasswordRequired));
}

#[test]
fn config_error_messages() {
    assert_eq!(ConfigError::MeetingNumberRequired.message(), "Meeting number is required.");
    assert_eq!(ConfigError::PasswordRequired.message(), "Password is required.");
}

#[test]
fn required_hands_out_the_value_or_the_error() {
    let present = some("v");
    assert_eq!(required(&present, ConfigError::PasswordRequired), Ok(&"v".to_string()));
    assert_eq!(
        required(&None, ConfigError::PasswordRequired),
        Err(ConfigError::PasswordRequired)
    );
    assert_eq!(
        required(&None, ConfigError::MeetingNumberRequired),
        Err(ConfigError::MeetingNumberRequired)
    );
}

#[test]
fn only_the_directory_steps_tolerate_failure() {
    assert!(Step::RemoveDir("Log".to_string()).failure_tolerated());
    assert!(Step::CreateDir("Log".to_string()).failure_tolerated());
    assert!(!Step::Open("config.json".to_string()).failure_tolerated());
    assert!(!adb(&["pull"]).failure_tolerated());
}
