use tablet_utils::launcher::split_command;

#[test]
fn splits_program_and_arguments() {
    assert_eq!(split_command("flameshot gui"), vec!["flameshot".to_string(), "gui".to_string()]);
    assert_eq!(
        split_command("obsidian-cli create Untitled --open"),
        vec!["obsidian-cli", "create", "Untitled", "--open"]
    );
    assert_eq!(split_command("xournalpp"), vec!["xournalpp"]);
}

#[test]
fn keeps_empty_pieces() {
    assert_eq!(split_command(""), vec![""]);
    assert_eq!(split_command("a  b"), vec!["a", "", "b"]);
    assert_eq!(split_command(" a "), vec!["", "a", ""]);
}

#[test]
fn splits_non_ascii_words() {
    assert_eq!(split_command("ñandú café"), vec!["ñandú", "café"]);
}
