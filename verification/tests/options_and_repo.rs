use git_builder::find_repo_name;
use git_builder::find_repo_path;
use git_builder::find_repo_path_command;
use git_builder::GitCommand;

fn strings(v: &[&str]) -> Vec<String> {
    v.iter().map(|s| String::from(*s)).collect()
}

#[test]
fn single_dash_characters_join_into_one_token() {
    let b = GitCommand::create(false).options().single('a').single('b').done();
    assert_eq!(b.command_list(), strings(&["git", "-ab"]));
}

#[test]
fn single_dash_duplicates_and_order_are_preserved() {
    let b = GitCommand::create(false).options().single('b').single('a').single('a').done();
    assert_eq!(b.command_list(), strings(&["git", "-baa"]));
}

#[test]
fn long_option_without_value_is_one_token() {
    let b = GitCommand::create(false)
        .options()
        .double(String::from("show-toplevel"), None, None)
        .done();
    assert_eq!(b.command_list(), strings(&["git", "--show-toplevel"]));
}

#[test]
fn long_option_with_value_and_equals_style() {
    let b = GitCommand::create(false)
        .options()
        .double(String::from("depth"), Some(String::from("1")), Some(true))
        .done();
    assert_eq!(b.command_list(), strings(&["git", "--depth", "=1"]));
}

#[test]
fn long_option_with_value_without_equals_style() {
    let b = GitCommand::create(false)
        .options()
        .double(String::from("depth"), Some(String::from("1")), Some(false))
        .done();
    assert_eq!(b.command_list(), strings(&["git", "--depth", "1"]));
}

#[test]
fn long_option_with_empty_value_emits_no_value_token() {
    let b = GitCommand::create(false)
        .options()
        .double(String::from("force"), Some(String::from("")), Some(true))
        .done();
    assert_eq!(b.command_list(), strings(&["git", "--force"]));
}

#[test]
fn long_options_keep_insertion_order() {
    let b = GitCommand::create(false)
        .options()
        .double(String::from("b"), None, None)
        .double(String::from("a"), Some(String::from("v")), None)
        .done();
    assert_eq!(b.command_list(), strings(&["git", "--b", "--a", "v"]));
}

#[test]
fn single_dash_token_precedes_long_options() {
    let b = GitCommand::create(false)
        .options()
        .double(String::from("depth"), Some(String::from("2")), Some(false))
        .single('x')
        .done();
    assert_eq!(b.command_list(), strings(&["git", "-x", "--depth", "2"]));
}

#[test]
fn empty_options_chain_appends_nothing() {
    let b = GitCommand::create(false).status().options().done();
    assert_eq!(b.command_list(), strings(&["git", "status"]));
}

#[test]
fn options_flush_after_the_tokens_already_present() {
    let b = GitCommand::create(false)
        .commit()
        .options()
        .single('m')
        .done()
        .text("msg");
    assert_eq!(b.command_list(), strings(&["git", "commit", "-m", "msg"]));
}

#[test]
fn end_to_end_rev_parse_scenario() {
    let b = GitCommand::create(false)
        .rev_parse()
        .options()
        .double(String::from("show-toplevel"), None, None)
        .done();
    assert_eq!(b.command_list(), strings(&["git", "rev-parse", "--show-toplevel"]));
    assert_eq!(b.describe(), "git rev-parse --show-toplevel");
}

#[test]
fn repo_path_command_is_the_rev_parse_invocation() {
    let b = find_repo_path_command();
    assert_eq!(b.command_list(), strings(&["git", "rev-parse", "--show-toplevel"]));
    assert_eq!(b.describe(), "git rev-parse --show-toplevel");
}

#[test]
fn repo_path_is_the_captured_output_or_empty() {
    assert_eq!(find_repo_path(Some(String::from("/srv/repo\n"))), "/srv/repo\n");
    assert_eq!(find_repo_path(None), "");
}

#[test]
fn repo_name_is_the_last_path_segment() {
    assert_eq!(find_repo_name("/home/user/projects/myrepo"), "myrepo");
}

#[test]
fn repo_name_ignores_trailing_slashes() {
    assert_eq!(find_repo_name("/home/user/projects/myrepo/"), "myrepo");
    assert_eq!(find_repo_name("a/b//"), "b");
}

#[test]
fn repo_name_of_a_bare_name_is_itself() {
    assert_eq!(find_repo_name("myrepo"), "myrepo");
}

#[test]
fn repo_name_of_empty_or_root_paths_is_empty() {
    assert_eq!(find_repo_name(""), "");
    assert_eq!(find_repo_name("/"), "");
    assert_eq!(find_repo_name("///"), "");
}
