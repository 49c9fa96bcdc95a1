use git_cmd::Git;
use git_cmd::Shared;

fn strs(v: &[String]) -> Vec<&str> {
    v.iter().map(|s| s.as_str()).collect()
}

#[test]
fn empty_subset_emits_only_subcommand() {
    let args = Git::init().make_args();
    assert_eq!(strs(&args), vec!["init"]);
}

#[test]
fn directory_only() {
    let args = Git::init().directory("/tmp/repo").make_args();
    assert_eq!(strs(&args), vec!["init", "/tmp/repo"]);
}

#[test]
fn quiet_bare_directory() {
    let args = Git::init().quiet().bare().directory("/tmp/repo").make_args();
    assert_eq!(strs(&args), vec!["init", "--quiet", "--bare", "/tmp/repo"]);
}

#[test]
fn object_format_sha256_pair() {
    let args = Git::init().object_format(git_cmd::init::Hash::Sha256).make_args();
    assert_eq!(strs(&args), vec!["init", "--object-format", "sha256"]);
    let flag_at = args.iter().position(|t| t == "--object-format").unwrap();
    assert_eq!(args[flag_at + 1], "sha256");
}

#[test]
fn object_format_sha1() {
    let args = Git::init().object_format(git_cmd::init::Hash::Sha1).make_args();
    assert_eq!(strs(&args), vec!["init", "--object-format", "sha1"]);
}

#[test]
fn shared_octal_formatting() {
    let args = Git::init().shared(Shared::Octal(511)).make_args();
    assert_eq!(strs(&args), vec!["init", "--shared=0777"]);
    let args = Git::init().shared(Shared::Octal(416)).make_args();
    assert_eq!(strs(&args), vec!["init", "--shared=0640"]);
}

#[test]
fn shared_octal_single_token() {
    let args = Git::init().shared(Shared::Octal(0o640)).directory("/tmp/repo").make_args();
    assert_eq!(strs(&args), vec!["init", "--shared=0640", "/tmp/repo"]);
}

#[test]
fn shared_octal_bounds() {
    let args = Git::init().shared(Shared::Octal(0)).make_args();
    assert_eq!(strs(&args), vec!["init", "--shared=0000"]);
    let args = Git::init().shared(Shared::Octal(0o777)).make_args();
    assert_eq!(strs(&args), vec!["init", "--shared=0777"]);
    // Values wider than four octal digits are passed through unpadded.
    let args = Git::init().shared(Shared::Octal(0o1000)).make_args();
    assert_eq!(strs(&args), vec!["init", "--shared=1000"]);
    let args = Git::init().shared(Shared::Octal(u16::MAX)).make_args();
    assert_eq!(strs(&args), vec!["init", "--shared=177777"]);
}

#[test]
fn shared_alias_umask_false() {
    let a = Git::init().shared(Shared::Umask).make_args();
    let b = Git::init().shared(Shared::False).make_args();
    assert_eq!(a, b);
    assert_eq!(strs(&a), vec!["init", "--shared=umask"]);
}

#[test]
fn shared_alias_group_true() {
    let a = Git::init().shared(Shared::Group).make_args();
    let b = Git::init().shared(Shared::True).make_args();
    assert_eq!(a, b);
    assert_eq!(strs(&a), vec!["init", "--shared=group"]);
}

#[test]
fn shared_alias_all_world_everybody() {
    let a = Git::init().shared(Shared::All).make_args();
    let b = Git::init().shared(Shared::World).make_args();
    let c = Git::init().shared(Shared::Everybody).make_args();
    assert_eq!(a, b);
    assert_eq!(a, c);
    assert_eq!(strs(&a), vec!["init", "--shared=all"]);
}

#[test]
fn template_tokens() {
    let args = Git::init().template("/tmp/hooks").make_args();
    assert_eq!(strs(&args), vec!["init", "--template", "/tmp/hooks"]);
}

#[test]
fn separate_git_dir_tokens() {
    let args = Git::init().separate_git_dir("/tmp/gitdir").make_args();
    assert_eq!(strs(&args), vec!["init", "--separate-git-dir", "/tmp/gitdir"]);
}

#[test]
fn initial_branch_tokens() {
    let args = Git::init().initial_branch("main").make_args();
    assert_eq!(strs(&args), vec!["init", "--initial-branch", "main"]);
}

#[test]
fn call_order_does_not_change_token_order() {
    let scrambled = Git::init()
        .directory("/tmp/repo")
        .shared(Shared::Group)
        .initial_branch("trunk")
        .bare()
        .template("/tpl")
        .quiet()
        .make_args();
    let canonical = Git::init()
        .quiet()
        .bare()
        .template("/tpl")
        .initial_branch("trunk")
        .shared(Shared::Group)
        .directory("/tmp/repo")
        .make_args();
    assert_eq!(scrambled, canonical);
    assert_eq!(
        strs(&scrambled),
        vec![
            "init",
            "--quiet",
            "--bare",
            "--template",
            "/tpl",
            "--initial-branch",
            "trunk",
            "--shared=group",
            "/tmp/repo",
        ]
    );
}

#[test]
fn every_field_in_fixed_order() {
    let args = Git::init()
        .shared(Shared::Octal(0o660))
        .object_format(git_cmd::init::Hash::Sha256)
        .separate_git_dir("/gd")
        .initial_branch("trunk")
        .template("/tpl")
        .bare()
        .quiet()
        .directory("/repo")
        .make_args();
    assert_eq!(
        strs(&args),
        vec![
            "init",
            "--quiet",
            "--bare",
            "--template",
            "/tpl",
            "--separate-git-dir",
            "/gd",
            "--initial-branch",
            "trunk",
            "--object-format",
            "sha256",
            "--shared=0660",
            "/repo",
        ]
    );
}

#[test]
fn repeated_call_overwrites() {
    let args = Git::init().initial_branch("main").initial_branch("trunk").make_args();
    assert_eq!(strs(&args), vec!["init", "--initial-branch", "trunk"]);
    let args = Git::init().template("/a").template("/b").make_args();
    assert_eq!(strs(&args), vec!["init", "--template", "/b"]);
    let args = Git::init().object_format(git_cmd::init::Hash::Sha1).object_format(git_cmd::init::Hash::Sha256).make_args();
    assert_eq!(strs(&args), vec!["init", "--object-format", "sha256"]);
    let args = Git::init().shared(Shared::All).shared(Shared::Umask).make_args();
    assert_eq!(strs(&args), vec!["init", "--shared=umask"]);
    let args = Git::init().directory("/a").directory("/b").make_args();
    assert_eq!(strs(&args), vec!["init", "/b"]);
}

#[test]
fn directory_is_always_last() {
    let args = Git::init()
        .directory("/repo")
        .quiet()
        .bare()
        .shared(Shared::Group)
        .object_format(git_cmd::init::Hash::Sha1)
        .make_args();
    assert_eq!(args.last().unwrap(), "/repo");
}

#[test]
fn unset_fields_emit_no_token() {
    let args = Git::init().bare().make_args();
    assert_eq!(strs(&args), vec!["init", "--bare"]);
    assert!(!args.iter().any(|t| t == "--quiet"));
    assert!(!args.iter().any(|t| t == "--template"));
    assert!(!args.iter().any(|t| t == "--separate-git-dir"));
    assert!(!args.iter().any(|t| t == "--initial-branch"));
    assert!(!args.iter().any(|t| t == "--object-format"));
    assert!(!args.iter().any(|t| t.starts_with("--shared=")));
}
