//! What reaches the bridge: the argument vector of each command line, for
//! parameter values that hold no space.

use vstd::prelude::*;
use crate::command::{
    clear_log_words, config_updated_words, default_address, default_dui, default_signal,
    display_name_extra, int_extra, launcher_words, optional_extra, pull_config_words,
    pull_log_words, push_config_words, quoted, register_base, register_words, rx_base, rx_words,
    string_extra, text_or, vidyo_words, zoom_base, zoom_words, ConfigError,
};
use crate::invocation::{invocation_of, InvocationModel};
use crate::words::{all_space_free, join_spaces, lemma_split_join, space_free, split_spaces};

verus! {

/// A command line made of space-free words is read back as exactly those
/// words: the first is the program, the others are its arguments.
pub proof fn lemma_words_are_arguments(words: Seq<Seq<char>>)
    requires
        words.len() >= 1,
        all_space_free(words),
    ensures
        invocation_of(join_spaces(words)) == (InvocationModel {
            program: words[0],
            args: words.skip(1),
        }),
{
    lemma_split_join(words);
}

/// Two lists of space-free words make a list of space-free words.
pub proof fn lemma_space_free_concat(a: Seq<Seq<char>>, b: Seq<Seq<char>>)
    requires
        all_space_free(a),
        all_space_free(b),
    ensures
        all_space_free(a + b),
{
    assert forall|k: int| 0 <= k < (a + b).len() implies space_free(#[trigger] (a + b)[k]) by {
        if k < a.len() {
            assert((a + b)[k] == a[k]);
        } else {
            assert((a + b)[k] == b[k - a.len()]);
        }
    }
}

/// The words of a string extra hold no space where its key and value hold
/// none.
pub proof fn lemma_string_extra_space_free(key: Seq<char>, value: Seq<char>)
    requires
        space_free(key),
        space_free(value),
    ensures
        all_space_free(string_extra(key, value)),
{
    reveal_strlit("--es");
    assert(space_free("--es"@));
    let e = string_extra(key, value);
    assert forall|k: int| 0 <= k < e.len() implies space_free(#[trigger] e[k]) by {
        if k == 0 {
        } else if k == 1 {
        } else {
        }
    }
}

/// The words of an integer extra hold no space where its key and value hold
/// none.
pub proof fn lemma_int_extra_space_free(key: Seq<char>, value: Seq<char>)
    requires
        space_free(key),
        space_free(value),
    ensures
        all_space_free(int_extra(key, value)),
{
    reveal_strlit("--ei");
    assert(space_free("--ei"@));
    let e = int_extra(key, value);
    assert forall|k: int| 0 <= k < e.len() implies space_free(#[trigger] e[k]) by {
        if k == 0 {
        } else if k == 1 {
        } else {
        }
    }
}

/// The fixed words of the registration request hold no space.
pub proof fn lemma_register_base_space_free()
    ensures
        all_space_free(register_base()),
{
    reveal_strlit("adb");
    reveal_strlit("shell");
    reveal_strlit("am");
    reveal_strlit("start");
    reveal_strlit("-n");
    reveal_strlit("com.mobilehelp.alert/.ui.registration.WelcomeActivity");
    reveal_strlit("-a");
    reveal_strlit("com.mobilehelp.auto.register");
    assert(space_free("adb"@));
    assert(space_free("shell"@));
    assert(space_free("am"@));
    assert(space_free("start"@));
    assert(space_free("-n"@));
    assert(space_free("com.mobilehelp.alert/.ui.registration.WelcomeActivity"@));
    assert(space_free("-a"@));
    assert(space_free("com.mobilehelp.auto.register"@));
    let w = register_base();
    assert forall|k: int| 0 <= k < w.len() implies space_free(#[trigger] w[k]) by {
        if k == 0 {
        } else if k == 1 {
        } else if k == 2 {
        } else if k == 3 {
        } else if k == 4 {
        } else if k == 5 {
        } else if k == 6 {
        } else {
        }
    }
}

/// Registration hands the bridge exactly the phone number and the token as
/// string extras, the phone number first, behind the fixed words that name
/// the activity.
pub proof fn lemma_register_arguments(phone: Seq<char>, token: Seq<char>)
    requires
        space_free(phone),
        space_free(token),
    ensures
        invocation_of(join_spaces(register_words(phone, token))) == (InvocationModel {
            program: "adb"@,
            args: seq![
                "shell"@,
                "am"@,
                "start"@,
                "-n"@,
                "com.mobilehelp.alert/.ui.registration.WelcomeActivity"@,
                "-a"@,
                "com.mobilehelp.auto.register"@,
                "--es"@,
                "phone"@,
                phone,
                "--es"@,
                "token"@,
                token,
            ],
        }),
{
    reveal_strlit("phone");
    reveal_strlit("token");
    assert(space_free("phone"@));
    assert(space_free("token"@));
    lemma_register_base_space_free();
    lemma_string_extra_space_free("phone"@, phone);
    lemma_string_extra_space_free("token"@, token);
    lemma_space_free_concat(register_base(), string_extra("phone"@, phone));
    lemma_space_free_concat(
        register_base() + string_extra("phone"@, phone),
        string_extra("token"@, token),
    );
    let words = register_words(phone, token);
    lemma_words_are_arguments(words);
    assert(words.skip(1) =~= seq![
        "shell"@,
        "am"@,
        "start"@,
        "-n"@,
        "com.mobilehelp.alert/.ui.registration.WelcomeActivity"@,
        "-a"@,
        "com.mobilehelp.auto.register"@,
        "--es"@,
        "phone"@,
        phone,
        "--es"@,
        "token"@,
        token,
    ]);
}

/// The fixed words of the sensor simulation hold no space.
pub proof fn lemma_rx_base_space_free()
    ensures
        all_space_free(rx_base()),
{
    reveal_strlit("adb");
    reveal_strlit("shell");
    reveal_strlit("am");
    reveal_strlit("startservice");
    reveal_strlit("-n");
    reveal_strlit("com.mobilehelp.stub.i2c/.services.I2CService");
    reveal_strlit("-a");
    reveal_strlit("fake");
    assert(space_free("adb"@));
    assert(space_free("shell"@));
    assert(space_free("am"@));
    assert(space_free("startservice"@));
    assert(space_free("-n"@));
    assert(space_free("com.mobilehelp.stub.i2c/.services.I2CService"@));
    assert(space_free("-a"@));
    assert(space_free("fake"@));
    let w = rx_base();
    assert forall|k: int| 0 <= k < w.len() implies space_free(#[trigger] w[k]) by {
        if k == 0 {
        } else if k == 1 {
        } else if k == 2 {
        } else if k == 3 {
        } else if k == 4 {
        } else if k == 5 {
        } else if k == 6 {
        } else {
        }
    }
}

/// The sensor simulation hands the bridge the device identifier, the
/// address and the signal as integer extras, in that order, and each value
/// that was omitted as its default: 32, 1 and 5.
pub proof fn lemma_rx_arguments(
    dui: Option<String>,
    address: Option<String>,
    signal: Option<String>,
)
    requires
        dui is Some ==> space_free(dui->Some_0@),
        address is Some ==> space_free(address->Some_0@),
        signal is Some ==> space_free(signal->Some_0@),
    ensures
        invocation_of(
            join_spaces(
                rx_words(
                    text_or(dui, default_dui()),
                    text_or(address, default_address()),
                    text_or(signal, default_signal()),
                ),
            ),
        ) == (InvocationModel {
            program: "adb"@,
            args: seq![
                "shell"@,
                "am"@,
                "startservice"@,
                "-n"@,
                "com.mobilehelp.stub.i2c/.services.I2CService"@,
                "-a"@,
                "fake"@,
                "--ei"@,
                "dui"@,
                if dui is Some { dui->Some_0@ } else { "32"@ },
                "--ei"@,
                "address"@,
                if address is Some { address->Some_0@ } else { "1"@ },
                "--ei"@,
                "signal"@,
                if signal is Some { signal->Some_0@ } else { "5"@ },
            ],
        }),
{
    reveal_strlit("dui");
    reveal_strlit("address");
    reveal_strlit("signal");
    reveal_strlit("32");
    reveal_strlit("1");
    reveal_strlit("5");
    assert(space_free("dui"@));
    assert(space_free("address"@));
    assert(space_free("signal"@));
    assert(space_free("32"@));
    assert(space_free("1"@));
    assert(space_free("5"@));
    let d = text_or(dui, default_dui());
    let a = text_or(address, default_address());
    let s = text_or(signal, default_signal());
    lemma_rx_base_space_free();
    lemma_int_extra_space_free("dui"@, d);
    lemma_int_extra_space_free("address"@, a);
    lemma_int_extra_space_free("signal"@, s);
    lemma_space_free_concat(rx_base(), int_extra("dui"@, d));
    lemma_space_free_concat(rx_base() + int_extra("dui"@, d), int_extra("address"@, a));
    lemma_space_free_concat(
        rx_base() + int_extra("dui"@, d) + int_extra("address"@, a),
        int_extra("signal"@, s),
    );
    let words = rx_words(d, a, s);
    lemma_words_are_arguments(words);
    assert(words.skip(1) =~= seq![
        "shell"@,
        "am"@,
        "startservice"@,
        "-n"@,
        "com.mobilehelp.stub.i2c/.services.I2CService"@,
        "-a"@,
        "fake"@,
        "--ei"@,
        "dui"@,
        d,
        "--ei"@,
        "address"@,
        a,
        "--ei"@,
        "signal"@,
        s,
    ]);
}

/// The fixed words that launch an activity hold no space where the name of
/// the activity holds none.
pub proof fn lemma_launcher_space_free(component: Seq<char>)
    requires
        space_free(component),
    ensures
        all_space_free(launcher_words(component)),
{
    reveal_strlit("adb");
    reveal_strlit("shell");
    reveal_strlit("am");
    reveal_strlit("start");
    reveal_strlit("-n");
    reveal_strlit("-c");
    reveal_strlit("android.intent.category.LAUNCHER");
    reveal_strlit("-a");
    reveal_strlit("android.intent.action.MAIN");
    reveal_strlit("--activity-single-top");
    assert(space_free("adb"@));
    assert(space_free("shell"@));
    assert(space_free("am"@));
    assert(space_free("start"@));
    assert(space_free("-n"@));
    assert(space_free("-c"@));
    assert(space_free("android.intent.category.LAUNCHER"@));
    assert(space_free("-a"@));
    assert(space_free("android.intent.action.MAIN"@));
    assert(space_free("--activity-single-top"@));
    let w = launcher_words(component);
    assert forall|k: int| 0 <= k < w.len() implies space_free(#[trigger] w[k]) by {
        if k == 0 {
        } else if k == 1 {
        } else if k == 2 {
        } else if k == 3 {
        } else if k == 4 {
        } else if k == 5 {
        } else if k == 6 {
        } else if k == 7 {
        } else if k == 8 {
        } else if k == 9 {
        } else {
        }
    }
}

/// Whether `args` pass a string extra under `key`: the marker of a string
/// extra with `key` right behind it.
pub open spec fn has_string_extra(args: Seq<Seq<char>>, key: Seq<char>) -> bool {
    exists|i: int| 0 <= i && i + 1 < args.len() && #[trigger] args[i] == "--es"@ && args[i + 1] == key
}

/// Where a Zoom call has a link, its words do not depend on the meeting
/// number or the password, and the call is never refused.
pub proof fn lemma_zoom_link_decides(
    number: Option<String>,
    password: Option<String>,
    link: String,
)
    ensures
        zoom_words(number, password, Some(link)) == zoom_words(None, None, Some(link)),
        zoom_words(number, password, Some(link)) is Ok,
{
}

/// A Zoom call by link needs neither meeting number nor password, and hands
/// the bridge the link alone: whatever number and password are, the
/// arguments are the fixed words and the link as a string extra, and no
/// extra passes a meeting number or a password.
pub proof fn lemma_zoom_link_alone(
    number: Option<String>,
    password: Option<String>,
    link: String,
)
    requires
        space_free(link@),
    ensures
        zoom_words(number, password, Some(link)) == Ok::<Seq<Seq<char>>, ConfigError>(
            zoom_base() + string_extra("meetingLink"@, link@),
        ),
        invocation_of(join_spaces(zoom_base() + string_extra("meetingLink"@, link@)))
            == (InvocationModel {
            program: "adb"@,
            args: seq![
                "shell"@,
                "am"@,
                "start"@,
                "-n"@,
                "com.mobilehelp.zoom/.activities.StartMeetingActivity"@,
                "-c"@,
                "android.intent.category.LAUNCHER"@,
                "-a"@,
                "android.intent.action.MAIN"@,
                "--activity-single-top"@,
                "--es"@,
                "meetingLink"@,
                link@,
            ],
        }),
        !has_string_extra(
            invocation_of(join_spaces(zoom_base() + string_extra("meetingLink"@, link@))).args,
            "meetingNumber"@,
        ),
        !has_string_extra(
            invocation_of(join_spaces(zoom_base() + string_extra("meetingLink"@, link@))).args,
            "password"@,
        ),
{
    reveal_strlit("com.mobilehelp.zoom/.activities.StartMeetingActivity");
    reveal_strlit("meetingLink");
    assert(space_free("com.mobilehelp.zoom/.activities.StartMeetingActivity"@));
    assert(space_free("meetingLink"@));
    lemma_launcher_space_free("com.mobilehelp.zoom/.activities.StartMeetingActivity"@);
    lemma_string_extra_space_free("meetingLink"@, link@);
    lemma_space_free_concat(zoom_base(), string_extra("meetingLink"@, link@));
    let words = zoom_base() + string_extra("meetingLink"@, link@);
    lemma_words_are_arguments(words);
    let args = invocation_of(join_spaces(words)).args;
    assert(args =~= seq![
        "shell"@,
        "am"@,
        "start"@,
        "-n"@,
        "com.mobilehelp.zoom/.activities.StartMeetingActivity"@,
        "-c"@,
        "android.intent.category.LAUNCHER"@,
        "-a"@,
        "android.intent.action.MAIN"@,
        "--activity-single-top"@,
        "--es"@,
        "meetingLink"@,
        link@,
    ]);
    reveal_strlit("shell");
    reveal_strlit("am");
    reveal_strlit("start");
    reveal_strlit("-n");
    reveal_strlit("-c");
    reveal_strlit("android.intent.category.LAUNCHER");
    reveal_strlit("-a");
    reveal_strlit("android.intent.action.MAIN");
    reveal_strlit("--activity-single-top");
    reveal_strlit("--es");
    reveal_strlit("meetingNumber");
    reveal_strlit("password");
    assert forall|i: int| 0 <= i && i + 1 < args.len() && #[trigger] args[i] == "--es"@ implies i
        == 10 by {
        if i != 10 {
            assert(args[i].len() != 4);
        }
    }
    assert(args[11].len() == 11);
}

/// The command lines without parameters are made of space-free words.
pub proof fn lemma_fixed_lines_space_free()
    ensures
        all_space_free(pull_config_words()),
        all_space_free(pull_log_words()),
        all_space_free(push_config_words()),
        all_space_free(config_updated_words()),
        all_space_free(clear_log_words()),
{
    reveal_strlit("adb");
    reveal_strlit("pull");
    reveal_strlit("push");
    reveal_strlit("shell");
    reveal_strlit("am");
    reveal_strlit("broadcast");
    reveal_strlit("-a");
    reveal_strlit("rm");
    reveal_strlit("-rf");
    reveal_strlit("config.json");
    reveal_strlit("/sdcard/TBS/");
    reveal_strlit("/sdcard/TBS/config.json");
    reveal_strlit("/sdcard/TBS/Log");
    reveal_strlit("/sdcard/TBS/Log/*");
    reveal_strlit("com.mobilehelp.action.config.updated");
    assert(space_free("adb"@));
    assert(space_free("pull"@));
    assert(space_free("push"@));
    assert(space_free("shell"@));
    assert(space_free("am"@));
    assert(space_free("broadcast"@));
    assert(space_free("-a"@));
    assert(space_free("rm"@));
    assert(space_free("-rf"@));
    assert(space_free("config.json"@));
    assert(space_free("/sdcard/TBS/"@));
    assert(space_free("/sdcard/TBS/config.json"@));
    assert(space_free("/sdcard/TBS/Log"@));
    assert(space_free("/sdcard/TBS/Log/*"@));
    assert(space_free("com.mobilehelp.action.config.updated"@));
    let a = pull_config_words();
    assert forall|k: int| 0 <= k < a.len() implies space_free(#[trigger] a[k]) by {
        if k == 0 {
        } else if k == 1 {
        } else {
        }
    }
    let b = pull_log_words();
    assert forall|k: int| 0 <= k < b.len() implies space_free(#[trigger] b[k]) by {
        if k == 0 {
        } else if k == 1 {
        } else {
        }
    }
    let c = push_config_words();
    assert forall|k: int| 0 <= k < c.len() implies space_free(#[trigger] c[k]) by {
        if k == 0 {
        } else if k == 1 {
        } else if k == 2 {
        } else {
        }
    }
    let d = config_updated_words();
    assert forall|k: int| 0 <= k < d.len() implies space_free(#[trigger] d[k]) by {
        if k == 0 {
        } else if k == 1 {
        } else if k == 2 {
        } else if k == 3 {
        } else if k == 4 {
        } else {
        }
    }
    let e = clear_log_words();
    assert forall|k: int| 0 <= k < e.len() implies space_free(#[trigger] e[k]) by {
        if k == 0 {
        } else if k == 1 {
        } else if k == 2 {
        } else if k == 3 {
        } else {
        }
    }
}

/// An optional extra is made of space-free words where its key and, if it
/// is there, its value hold no space.
pub proof fn lemma_optional_extra_space_free(key: Seq<char>, value: Option<String>)
    requires
        space_free(key),
        value is Some ==> space_free(value->Some_0@),
    ensures
        all_space_free(optional_extra(key, value)),
{
    if value is Some {
        lemma_string_extra_space_free(key, value->Some_0@);
    }
}

/// The words of a Vidyo call hold no space where none of its parameters
/// does.
pub proof fn lemma_vidyo_space_free(
    room: Seq<char>,
    pin: Option<String>,
    display_name: Option<String>,
    end_point: Option<String>,
)
    requires
        space_free(room),
        pin is Some ==> space_free(pin->Some_0@),
        display_name is Some ==> space_free(display_name->Some_0@),
        end_point is Some ==> space_free(end_point->Some_0@),
    ensures
        all_space_free(vidyo_words(room, pin, display_name, end_point)),
{
    reveal_strlit("com.mobilehelp.vidyomeeting/.MainActivity");
    reveal_strlit("room");
    reveal_strlit("pin");
    reveal_strlit("displayName");
    reveal_strlit("host");
    assert(space_free("com.mobilehelp.vidyomeeting/.MainActivity"@));
    assert(space_free("room"@));
    assert(space_free("pin"@));
    assert(space_free("displayName"@));
    assert(space_free("host"@));
    let base = launcher_words("com.mobilehelp.vidyomeeting/.MainActivity"@);
    lemma_launcher_space_free("com.mobilehelp.vidyomeeting/.MainActivity"@);
    lemma_string_extra_space_free("room"@, room);
    lemma_optional_extra_space_free("pin"@, pin);
    if display_name is Some {
        let name = display_name->Some_0@;
        assert(space_free(quoted(name)));
        lemma_string_extra_space_free("displayName"@, quoted(name));
    }
    lemma_optional_extra_space_free("host"@, end_point);
    lemma_space_free_concat(base, string_extra("room"@, room));
    lemma_space_free_concat(base + string_extra("room"@, room), optional_extra("pin"@, pin));
    lemma_space_free_concat(
        base + string_extra("room"@, room) + optional_extra("pin"@, pin),
        display_name_extra(display_name),
    );
    lemma_space_free_concat(
        base + string_extra("room"@, room) + optional_extra("pin"@, pin) + display_name_extra(
            display_name,
        ),
        optional_extra("host"@, end_point),
    );
}

/// A Zoom call by number starts the bridge with the fixed words that
/// launch the activity, then the meeting number and the password as string
/// extras, in that order.
pub proof fn lemma_zoom_number_arguments(number: String, password: String)
    requires
        space_free(number@),
        space_free(password@),
    ensures
        zoom_words(Some(number), Some(password), None) == Ok::<Seq<Seq<char>>, ConfigError>(
            zoom_base() + string_extra("meetingNumber"@, number@) + string_extra(
                "password"@,
                password@,
            ),
        ),
        all_space_free(
            zoom_base() + string_extra("meetingNumber"@, number@) + string_extra(
                "password"@,
                password@,
            ),
        ),
        invocation_of(
            join_spaces(
                zoom_base() + string_extra("meetingNumber"@, number@) + string_extra(
                    "password"@,
                    password@,
                ),
            ),
        ) == (InvocationModel {
            program: "adb"@,
            args: seq![
                "shell"@,
                "am"@,
                "start"@,
                "-n"@,
                "com.mobilehelp.zoom/.activities.StartMeetingActivity"@,
                "-c"@,
                "android.intent.category.LAUNCHER"@,
                "-a"@,
                "android.intent.action.MAIN"@,
                "--activity-single-top"@,
                "--es"@,
                "meetingNumber"@,
                number@,
                "--es"@,
                "password"@,
                password@,
            ],
        }),
{
    reveal_strlit("com.mobilehelp.zoom/.activities.StartMeetingActivity");
    reveal_strlit("meetingNumber");
    reveal_strlit("password");
    assert(space_free("com.mobilehelp.zoom/.activities.StartMeetingActivity"@));
    assert(space_free("meetingNumber"@));
    assert(space_free("password"@));
    lemma_launcher_space_free("com.mobilehelp.zoom/.activities.StartMeetingActivity"@);
    lemma_string_extra_space_free("meetingNumber"@, number@);
    lemma_string_extra_space_free("password"@, password@);
    lemma_space_free_concat(zoom_base(), string_extra("meetingNumber"@, number@));
    lemma_space_free_concat(
        zoom_base() + string_extra("meetingNumber"@, number@),
        string_extra("password"@, password@),
    );
    let words = zoom_base() + string_extra("meetingNumber"@, number@) + string_extra(
        "password"@,
        password@,
    );
    lemma_words_are_arguments(words);
    assert(words.skip(1) =~= seq![
        "shell"@,
        "am"@,
        "start"@,
        "-n"@,
        "com.mobilehelp.zoom/.activities.StartMeetingActivity"@,
        "-c"@,
        "android.intent.category.LAUNCHER"@,
        "-a"@,
        "android.intent.action.MAIN"@,
        "--activity-single-top"@,
        "--es"@,
        "meetingNumber"@,
        number@,
        "--es"@,
        "password"@,
        password@,
    ]);
}

/// Each command line without parameters starts the bridge with exactly the
/// arguments written here.
pub proof fn lemma_fixed_lines_arguments()
    ensures
        invocation_of(join_spaces(pull_config_words())) == (InvocationModel {
            program: "adb"@,
            args: seq!["pull"@, "/sdcard/TBS/config.json"@],
        }),
        invocation_of(join_spaces(pull_log_words())) == (InvocationModel {
            program: "adb"@,
            args: seq!["pull"@, "/sdcard/TBS/Log"@],
        }),
        invocation_of(join_spaces(push_config_words())) == (InvocationModel {
            program: "adb"@,
            args: seq!["push"@, "config.json"@, "/sdcard/TBS/"@],
        }),
        invocation_of(join_spaces(config_updated_words())) == (InvocationModel {
            program: "adb"@,
            args: seq![
                "shell"@,
                "am"@,
                "broadcast"@,
                "-a"@,
                "com.mobilehelp.action.config.updated"@,
            ],
        }),
        invocation_of(join_spaces(clear_log_words())) == (InvocationModel {
            program: "adb"@,
            args: seq!["shell"@, "rm"@, "-rf"@, "/sdcard/TBS/Log/*"@],
        }),
{
    lemma_fixed_lines_space_free();
    lemma_words_are_arguments(pull_config_words());
    lemma_words_are_arguments(pull_log_words());
    lemma_words_are_arguments(push_config_words());
    lemma_words_are_arguments(config_updated_words());
    lemma_words_are_arguments(clear_log_words());
    assert(pull_config_words().skip(1) =~= seq!["pull"@, "/sdcard/TBS/config.json"@]);
    assert(pull_log_words().skip(1) =~= seq!["pull"@, "/sdcard/TBS/Log"@]);
    assert(push_config_words().skip(1) =~= seq!["push"@, "config.json"@, "/sdcard/TBS/"@]);
    assert(config_updated_words().skip(1) =~= seq![
        "shell"@,
        "am"@,
        "broadcast"@,
        "-a"@,
        "com.mobilehelp.action.config.updated"@,
    ]);
    assert(clear_log_words().skip(1) =~= seq!["shell"@, "rm"@, "-rf"@, "/sdcard/TBS/Log/*"@]);
}

/// A Vidyo call starts the bridge with the fixed words that launch the
/// activity, then the room as a string extra, then pin, quoted display name
/// and host as string extras, each only where it was supplied.
pub proof fn lemma_vidyo_arguments(
    room: Seq<char>,
    pin: Option<String>,
    display_name: Option<String>,
    end_point: Option<String>,
)
    requires
        space_free(room),
        pin is Some ==> space_free(pin->Some_0@),
        display_name is Some ==> space_free(display_name->Some_0@),
        end_point is Some ==> space_free(end_point->Some_0@),
    ensures
        invocation_of(join_spaces(vidyo_words(room, pin, display_name, end_point))) == (
        InvocationModel {
            program: "adb"@,
            args: seq![
                "shell"@,
                "am"@,
                "start"@,
                "-n"@,
                "com.mobilehelp.vidyomeeting/.MainActivity"@,
                "-c"@,
                "android.intent.category.LAUNCHER"@,
                "-a"@,
                "android.intent.action.MAIN"@,
                "--activity-single-top"@,
                "--es"@,
                "room"@,
                room,
            ] + optional_extra("pin"@, pin) + display_name_extra(display_name) + optional_extra(
                "host"@,
                end_point,
            ),
        }),
{
    lemma_vidyo_space_free(room, pin, display_name, end_point);
    let words = vidyo_words(room, pin, display_name, end_point);
    lemma_words_are_arguments(words);
    assert(words.skip(1) =~= seq![
        "shell"@,
        "am"@,
        "start"@,
        "-n"@,
        "com.mobilehelp.vidyomeeting/.MainActivity"@,
        "-c"@,
        "android.intent.category.LAUNCHER"@,
        "-a"@,
        "android.intent.action.MAIN"@,
        "--activity-single-top"@,
        "--es"@,
        "room"@,
        room,
    ] + optional_extra("pin"@, pin) + display_name_extra(display_name) + optional_extra(
        "host"@,
        end_point,
    ));
}

} // verus!
