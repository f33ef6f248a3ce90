use chunker::IoArgs;

fn args(filepath: Option<&str>, input: Option<&str>, output: Option<&str>) -> IoArgs {
    IoArgs {
        filepath: filepath.map(String::from),
        input: input.map(String::from),
        output: output.map(String::from),
    }
}

#[test]
fn input_flag_overrides_positional_path() {
    let a = args(Some("pos.json"), Some("flag.json"), None);
    assert_eq!(a.file_override(), Some("flag.json".to_string()));
}

#[test]
fn positional_path_used_without_input_flag() {
    let a = args(Some("pos.json"), None, Some("out.json"));
    assert_eq!(a.file_override(), Some("pos.json".to_string()));
}

#[test]
fn input_flag_alone() {
    let a = args(None, Some("flag.json"), None);
    assert_eq!(a.file_override(), Some("flag.json".to_string()));
}

#[test]
fn no_path_means_standard_input() {
    let a = args(None, None, Some("out.json"));
    assert_eq!(a.file_override(), None);
}
