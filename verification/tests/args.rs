use zkwasm::args::{get_k_from_args, DEFAULT_K};

fn args(words: &[&str]) -> Vec<String> {
    words.iter().map(|w| String::from(*w)).collect()
}

#[test]
fn the_default_is_taken_without_an_argument() {
    assert_eq!(DEFAULT_K, 23);
    assert_eq!(get_k_from_args(args(&[])), 23);
    assert_eq!(get_k_from_args(args(&["key_tool"])), 23);
}

#[test]
fn the_number_behind_the_option_name_is_taken() {
    assert_eq!(get_k_from_args(args(&["key_tool", "--k=22"])), 22);
    assert_eq!(get_k_from_args(args(&["key_tool", "--k=23"])), 23);
    assert_eq!(get_k_from_args(args(&["key_tool", "--k=+7"])), 7);
    assert_eq!(get_k_from_args(args(&["key_tool", "--k=0"])), 0);
    assert_eq!(get_k_from_args(args(&["key_tool", "--k=4294967295"])), u32::MAX);
    assert_eq!(get_k_from_args(args(&["key_tool", "--k=22", "--k=18"])), 22);
}

#[test]
fn the_option_name_itself_is_not_looked_at() {
    assert_eq!(get_k_from_args(args(&["key_tool", "abcd19"])), 19);
}

#[test]
fn the_default_is_taken_where_no_number_follows() {
    assert_eq!(get_k_from_args(args(&["key_tool", "--k="])), 23);
    assert_eq!(get_k_from_args(args(&["key_tool", "--k=abc"])), 23);
    assert_eq!(get_k_from_args(args(&["key_tool", "--k=22 "])), 23);
    assert_eq!(get_k_from_args(args(&["key_tool", "--k=-1"])), 23);
    assert_eq!(get_k_from_args(args(&["key_tool", "--k=4294967296"])), 23);
    assert_eq!(get_k_from_args(args(&["key_tool", "--k=\u{e9}"])), 23);
}
