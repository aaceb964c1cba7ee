use tbs::invocation::{Ending, Invocation};
use tbs::words::{join_words, split_line};

fn strings(words: &[&str]) -> Vec<String> {
    words.iter().map(|w| w.to_string()).collect()
}

#[test]
fn split_line_of_empty_line_is_one_empty_piece() {
    assert_eq!(split_line(""), strings(&[""]));
}

#[test]
fn split_line_without_space_is_one_piece() {
    assert_eq!(split_line("adb"), strings(&["adb"]));
}

#[test]
fn split_line_at_every_space() {
    assert_eq!(
        split_line("adb pull /sdcard/TBS/Log"),
        strings(&["adb", "pull", "/sdcard/TBS/Log"])
    );
}

#[test]
fn split_line_keeps_empty_pieces() {
    assert_eq!(split_line("a  b"), strings(&["a", "", "b"]));
    assert_eq!(split_line(" a"), strings(&["", "a"]));
    assert_eq!(split_line("a "), strings(&["a", ""]));
    assert_eq!(split_line(" "), strings(&["", ""]));
}

#[test]
fn split_line_agrees_with_std_split() {
    for line in ["", " ", "a", "a b", "  a  b  ", "adb shell rm -rf /sdcard/TBS/Log/*", "é ü"] {
        let expected: Vec<String> = line.split(' ').map(|p| p.to_string()).collect();
        assert_eq!(split_line(line), expected);
    }
}

#[test]
fn split_line_counts_characters_not_bytes() {
    assert_eq!(split_line("né à"), strings(&["né", "à"]));
}

#[test]
fn join_words_puts_one_space_between_neighbours() {
    assert_eq!(join_words(&strings(&["adb", "pull", "x"])), "adb pull x");
}

#[test]
fn join_words_of_nothing_and_of_one_word() {
    assert_eq!(join_words(&strings(&[])), "");
    assert_eq!(join_words(&strings(&["adb"])), "adb");
}

#[test]
fn join_words_keeps_empty_words() {
    assert_eq!(join_words(&strings(&["a", "", "b"])), "a  b");
}

#[test]
fn joining_the_pieces_gives_the_line_back() {
    for line in ["", " ", "a", "a b", "  a  b  ", "adb shell am start -n x"] {
        assert_eq!(join_words(&split_line(line)), line);
    }
}

#[test]
fn splitting_joined_space_free_words_gives_the_words_back() {
    let words = strings(&["adb", "shell", "", "--es", "phone", "5550100"]);
    assert_eq!(split_line(&join_words(&words)), words);
}

#[test]
fn a_word_with_a_space_falls_apart() {
    let words = strings(&["adb", "John Doe"]);
    assert_eq!(split_line(&join_words(&words)), strings(&["adb", "John", "Doe"]));
}

#[test]
fn from_line_takes_the_first_piece_as_program() {
    let inv = Invocation::from_line("adb pull /sdcard/TBS/config.json");
    assert_eq!(inv.program, "adb");
    assert_eq!(inv.args, strings(&["pull", "/sdcard/TBS/config.json"]));
}

#[test]
fn from_line_of_a_bare_program_has_no_arguments() {
    let inv = Invocation::from_line("adb");
    assert_eq!(inv.program, "adb");
    assert!(inv.args.is_empty());
}

#[test]
fn from_line_of_an_empty_line_has_an_empty_program() {
    let inv = Invocation::from_line("");
    assert_eq!(inv.program, "");
    assert!(inv.args.is_empty());
}

#[test]
fn only_a_zero_exit_counts_as_success() {
    assert_eq!(Ending::Exited { success: true }.outcome(), Ok(()));
    assert_eq!(Ending::Exited { success: false }.outcome(), Err(()));
    assert_eq!(Ending::NotStarted.outcome(), Err(()));
    assert_eq!(Ending::WaitFailed.outcome(), Err(()));
}
