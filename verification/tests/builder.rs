use git_builder::GitCommand;

fn strings(v: &[&str]) -> Vec<String> {
    v.iter().map(|s| String::from(*s)).collect()
}

#[test]
fn fresh_builder_holds_program_name() {
    let b = GitCommand::create(false);
    assert_eq!(b.command_list(), strings(&["git"]));
    assert_eq!(b.describe(), "git");
}

#[test]
fn factory_calls_append_in_call_order() {
    let b = GitCommand::create(false).master().status().upstream();
    assert_eq!(b.command_list(), strings(&["git", "master", "status", "upstream"]));
    assert_eq!(b.describe(), "git master status upstream");
}

#[test]
fn first_main_command_wins_over_a_different_one() {
    let b = GitCommand::create(false).status().commit();
    assert_eq!(b.command_list(), strings(&["git", "status"]));
}

#[test]
fn repeating_the_same_main_command_appends_once() {
    let b = GitCommand::create(false).status().status();
    assert_eq!(b.command_list(), strings(&["git", "status"]));
}

#[test]
fn two_token_main_commands_append_both_tokens() {
    let b = GitCommand::create(false).pull_origin();
    assert_eq!(b.command_list(), strings(&["git", "pull", "origin"]));
    let b = GitCommand::create(false).push_origin();
    assert_eq!(b.command_list(), strings(&["git", "push", "origin"]));
}

#[test]
fn two_token_main_command_still_first_wins() {
    let b = GitCommand::create(false).pull_origin().push_origin();
    assert_eq!(b.command_list(), strings(&["git", "pull", "origin"]));
    let b = GitCommand::create(false).status().push_origin();
    assert_eq!(b.command_list(), strings(&["git", "status"]));
}

#[test]
fn always_append_modifier_repeats_each_call() {
    let b = GitCommand::create(false).master().master().master();
    assert_eq!(b.command_list(), strings(&["git", "master", "master", "master"]));
}

#[test]
fn modifier_does_not_claim_the_main_command() {
    let b = GitCommand::create(false).upstream().commit();
    assert_eq!(b.command_list(), strings(&["git", "upstream", "commit"]));
}

#[test]
fn text_without_repo_name_is_appended_unchanged() {
    let b = GitCommand::create(false).text("hello_%%repo_name%%");
    assert_eq!(b.command_list(), strings(&["git", "hello_%%repo_name%%"]));
}

#[test]
fn text_with_repo_name_substitutes_the_placeholder() {
    let mut b = GitCommand::create(true);
    b.set_repo_name(String::from("myrepo"));
    let b = b.text("hello_%%repo_name%%");
    assert_eq!(b.command_list(), strings(&["git", "hello_myrepo"]));
}

#[test]
fn every_placeholder_occurrence_is_substituted() {
    let mut b = GitCommand::create(true);
    b.set_repo_name(String::from("r"));
    let b = b.text("%%repo_name%%/%%repo_name%%");
    assert_eq!(b.command_list(), strings(&["git", "r/r"]));
}

#[test]
fn empty_repo_name_substitutes_emptiness() {
    let mut b = GitCommand::create(true);
    b.set_repo_name(String::from(""));
    let b = b.text("a%%repo_name%%b");
    assert_eq!(b.command_list(), strings(&["git", "ab"]));
}

#[test]
fn url_and_branch_name_sanitize_too() {
    let mut b = GitCommand::create(true);
    b.set_repo_name(String::from("proj"));
    let b = b.clone().url("git@host:%%repo_name%%.git").branch_name("%%repo_name%%-wip");
    assert_eq!(
        b.command_list(),
        strings(&["git", "clone", "git@host:proj.git", "proj-wip"])
    );
}

#[test]
fn describe_joins_tokens_with_single_spaces() {
    let b = GitCommand::create(false)
        .status()
        .options()
        .double(String::from("short"), None, None)
        .done();
    assert_eq!(b.describe(), "git status --short");
}

#[test]
fn reset_reinitializes_tokens_and_main_command() {
    let mut b = GitCommand::create(false).status().master();
    b._reset();
    assert_eq!(b.command_list(), strings(&["git"]));
    let b = b.commit();
    assert_eq!(b.command_list(), strings(&["git", "commit"]));
}

#[test]
fn all_single_token_main_commands_append_their_token() {
    let cases: Vec<(fn(GitCommand) -> GitCommand, &str)> = vec![
        (GitCommand::status, "status"),
        (GitCommand::reset, "reset"),
        (GitCommand::add, "add"),
        (GitCommand::rev_parse, "rev-parse"),
        (GitCommand::init, "init"),
        (GitCommand::log, "log"),
        (GitCommand::checkout, "checkout"),
        (GitCommand::branch, "branch"),
        (GitCommand::clone, "clone"),
        (GitCommand::commit, "commit"),
        (GitCommand::config, "config"),
        (GitCommand::submodule, "submodule"),
        (GitCommand::fetch, "fetch"),
        (GitCommand::merge, "merge"),
        (GitCommand::mv, "mv"),
        (GitCommand::pull, "pull"),
        (GitCommand::rebase, "rebase"),
        (GitCommand::remote, "remote"),
        (GitCommand::rm, "rm"),
        (GitCommand::restore, "restore"),
        (GitCommand::show, "show"),
        (GitCommand::switch, "switch"),
        (GitCommand::tag, "tag"),
        (GitCommand::worktree, "worktree"),
    ];
    for (method, token) in cases {
        let b = method(GitCommand::create(false));
        assert_eq!(b.command_list(), strings(&["git", token]));
    }
}
