//! The builder for the `git init` subcommand and its token-emission logic.
//!
//! A [`GitInitBuilder`] accumulates a set of optional fields; finalizing it
//! with [`GitInitBuilder::make_args`] emits the corresponding argument tokens
//! in one fixed order, independent of the order in which the fields were set.

use vstd::prelude::*;
use vstd::string::StringExecFns;

verus! {

/// Options for the `shared` field. The wrapped tool's default is `Umask`.
#[derive(Clone, Copy, PartialEq, Eq, Structural)]
pub enum Shared {
    /// Use permissions reported by umask(2).
    Umask,
    /// Equivalent to `Umask`.
    False,
    /// Make the repository group-writable.
    Group,
    /// Equivalent to `Group`.
    True,
    /// Make the repository readable by all users.
    All,
    /// Equivalent to `All`.
    World,
    /// Equivalent to `All`.
    Everybody,
    /// An exact permission mode, emitted as a four-digit zero-padded octal
    /// number. Modes from 0o000 to 0o777 are meaningful to the wrapped tool;
    /// anything else is passed through for the tool itself to reject.
    Octal(u16),
}

/// The hash algorithm a repository uses for its objects. `Sha1` is the
/// wrapped tool's default; `Sha256` may be unavailable if the tool was built
/// without it.
#[derive(Clone, Copy, PartialEq, Eq, Structural)]
pub enum Hash {
    /// Objects use a sha1 hash.
    Sha1,
    /// Objects use a sha256 hash.
    Sha256,
}

/// The character for a single octal digit.
pub open spec fn octal_digit(d: nat) -> char
    recommends
        d < 8,
{
    if d == 0 {
        '0'
    } else if d == 1 {
        '1'
    } else if d == 2 {
        '2'
    } else if d == 3 {
        '3'
    } else if d == 4 {
        '4'
    } else if d == 5 {
        '5'
    } else if d == 6 {
        '6'
    } else {
        '7'
    }
}

/// The base-8 digits of `n`, most significant first, with no leading zeros
/// (a lone zero for `n == 0`).
pub open spec fn octal_rep(n: nat) -> Seq<char>
    decreases n,
{
    if n < 8 {
        seq![octal_digit(n)]
    } else {
        octal_rep(n / 8) + seq![octal_digit(n % 8)]
    }
}

/// `s` left-padded with `'0'` up to width `w`; `s` unchanged if already that
/// wide.
pub open spec fn zero_pad(s: Seq<char>, w: nat) -> Seq<char> {
    if s.len() >= w {
        s
    } else {
        Seq::new((w - s.len()) as nat, |i: int| '0') + s
    }
}

/// `n` written in octal, zero-padded to at least four digits: the form the
/// wrapped tool expects for a permission mode (`0o640` becomes `"0640"`).
pub open spec fn octal4(n: nat) -> Seq<char> {
    zero_pad(octal_rep(n), 4)
}

/// How many octal digits a `u16` value has.
proof fn lemma_octal_rep_len(n: nat)
    requires
        n < 65536,
    ensures
        octal_rep(n).len() == if n < 8 {
            1nat
        } else if n < 64 {
            2nat
        } else if n < 512 {
            3nat
        } else if n < 4096 {
            4nat
        } else if n < 32768 {
            5nat
        } else {
            6nat
        },
    decreases n,
{
    if n >= 8 {
        lemma_octal_rep_len(n / 8);
    }
}

/// The single-character string for one octal digit.
fn octal_digit_str(d: u16) -> (r: &'static str)
    requires
        d < 8,
    ensures
        r@ == seq![octal_digit(d as nat)],
{
    proof {
        reveal_strlit("0");
        reveal_strlit("1");
        reveal_strlit("2");
        reveal_strlit("3");
        reveal_strlit("4");
        reveal_strlit("5");
        reveal_strlit("6");
        reveal_strlit("7");
    }
    let r = match d {
        0 => "0",
        1 => "1",
        2 => "2",
        3 => "3",
        4 => "4",
        5 => "5",
        6 => "6",
        _ => "7",
    };
    proof {
        assert(r@ =~= seq![octal_digit(d as nat)]);
    }
    r
}

/// The octal digits of `n`, most significant first.
fn octal_rep_exec(n: u16) -> (r: String)
    ensures
        r@ == octal_rep(n as nat),
    decreases n,
{
    if n < 8 {
        String::from_str(octal_digit_str(n))
    } else {
        let mut s = octal_rep_exec(n / 8);
        s.append(octal_digit_str(n % 8));
        s
    }
}

/// `n` in octal, zero-padded to at least four digits.
fn format_octal4(n: u16) -> (r: String)
    ensures
        r@ == octal4(n as nat),
{
    let pad = if n < 8 {
        "000"
    } else if n < 64 {
        "00"
    } else if n < 512 {
        "0"
    } else {
        ""
    };
    let digits = octal_rep_exec(n);
    let r = String::from_str(pad).concat(digits.as_str());
    proof {
        lemma_octal_rep_len(n as nat);
        reveal_strlit("000");
        reveal_strlit("00");
        reveal_strlit("0");
        reveal_strlit("");
        assert(r@ =~= octal4(n as nat));
    }
    r
}

/// The mathematical state of a builder: each optional field, with string
/// values abstracted to character sequences.
#[verifier::ext_equal]
pub ghost struct BuilderModel {
    pub quiet: bool,
    pub bare: bool,
    pub template: Option<Seq<char>>,
    pub separate_git_dir: Option<Seq<char>>,
    pub initial_branch: Option<Seq<char>>,
    pub object_format: Option<Hash>,
    pub shared: Option<Shared>,
    pub directory: Option<Seq<char>>,
}

/// The state of a freshly created builder: nothing set.
pub open spec fn empty_model() -> BuilderModel {
    BuilderModel {
        quiet: false,
        bare: false,
        template: None,
        separate_git_dir: None,
        initial_branch: None,
        object_format: None,
        shared: None,
        directory: None,
    }
}

/// The value part of the combined `--shared=<value>` token. The variant
/// groups {Umask, False}, {Group, True} and {All, World, Everybody} are
/// aliases and map to "umask", "group" and "all" respectively; `Octal(n)`
/// maps to `n` in four-digit zero-padded octal.
pub open spec fn shared_value(s: Shared) -> Seq<char> {
    match s {
        Shared::Umask => "umask"@,
        Shared::False => "umask"@,
        Shared::Group => "group"@,
        Shared::True => "group"@,
        Shared::All => "all"@,
        Shared::World => "all"@,
        Shared::Everybody => "all"@,
        Shared::Octal(n) => octal4(n as nat),
    }
}

/// The single combined token the `shared` field emits.
pub open spec fn shared_token(s: Shared) -> Seq<char> {
    "--shared="@ + shared_value(s)
}

/// The string for a hash algorithm.
pub open spec fn hash_value(h: Hash) -> Seq<char> {
    match h {
        Hash::Sha1 => "sha1"@,
        Hash::Sha256 => "sha256"@,
    }
}

/// The tokens a boolean flag contributes: the flag alone if set, nothing
/// otherwise.
pub open spec fn flag_tokens(set: bool, flag: Seq<char>) -> Seq<Seq<char>> {
    if set {
        seq![flag]
    } else {
        seq![]
    }
}

/// The tokens a flag-plus-value field contributes: the flag then the value if
/// set, nothing otherwise.
pub open spec fn valued_tokens(v: Option<Seq<char>>, flag: Seq<char>) -> Seq<Seq<char>> {
    match v {
        Some(s) => seq![flag, s],
        None => seq![],
    }
}

/// The tokens the `object_format` field contributes.
pub open spec fn object_format_tokens(v: Option<Hash>) -> Seq<Seq<char>> {
    match v {
        Some(h) => seq!["--object-format"@, hash_value(h)],
        None => seq![],
    }
}

/// The tokens the `shared` field contributes.
pub open spec fn shared_tokens(v: Option<Shared>) -> Seq<Seq<char>> {
    match v {
        Some(s) => seq![shared_token(s)],
        None => seq![],
    }
}

/// The token the positional `directory` field contributes.
pub open spec fn directory_tokens(v: Option<Seq<char>>) -> Seq<Seq<char>> {
    match v {
        Some(d) => seq![d],
        None => seq![],
    }
}

/// The full token sequence a builder state finalizes to: the subcommand name
/// first, then each field's tokens in one fixed order, the positional
/// directory last. Each field's contribution depends on that field alone.
pub open spec fn tokens(m: BuilderModel) -> Seq<Seq<char>> {
    seq!["init"@] + flag_tokens(m.quiet, "--quiet"@) + flag_tokens(m.bare, "--bare"@)
        + valued_tokens(m.template, "--template"@) + valued_tokens(
        m.separate_git_dir,
        "--separate-git-dir"@,
    ) + valued_tokens(m.initial_branch, "--initial-branch"@) + object_format_tokens(
        m.object_format,
    ) + shared_tokens(m.shared) + directory_tokens(m.directory)
}

/// The state after setting the `quiet` flag.
pub open spec fn with_quiet(m: BuilderModel) -> BuilderModel {
    (BuilderModel { quiet: true, ..m })
}

/// The state after setting the `bare` flag.
pub open spec fn with_bare(m: BuilderModel) -> BuilderModel {
    (BuilderModel { bare: true, ..m })
}

/// The state after setting the `template` field to `p`, overwriting any
/// earlier value.
pub open spec fn with_template(m: BuilderModel, p: Seq<char>) -> BuilderModel {
    (BuilderModel { template: Some(p), ..m })
}

/// The state after setting the `separate_git_dir` field to `p`, overwriting
/// any earlier value.
pub open spec fn with_separate_git_dir(m: BuilderModel, p: Seq<char>) -> BuilderModel {
    (BuilderModel { separate_git_dir: Some(p), ..m })
}

/// The state after setting the `initial_branch` field to `n`, overwriting any
/// earlier value.
pub open spec fn with_initial_branch(m: BuilderModel, n: Seq<char>) -> BuilderModel {
    (BuilderModel { initial_branch: Some(n), ..m })
}

/// The state after setting the `object_format` field to `h`, overwriting any
/// earlier value.
pub open spec fn with_object_format(m: BuilderModel, h: Hash) -> BuilderModel {
    (BuilderModel { object_format: Some(h), ..m })
}

/// The state after setting the `shared` field to `s`, overwriting any earlier
/// value.
pub open spec fn with_shared(m: BuilderModel, s: Shared) -> BuilderModel {
    (BuilderModel { shared: Some(s), ..m })
}

/// The state after setting the positional `directory` field to `d`,
/// overwriting any earlier value.
pub open spec fn with_directory(m: BuilderModel, d: Seq<char>) -> BuilderModel {
    (BuilderModel { directory: Some(d), ..m })
}

/// The builder for the `git init` command, created by calling `Git::init()`.
pub struct GitInitBuilder {
    quiet: bool,
    bare: bool,
    template: Option<String>,
    separate_git_dir: Option<String>,
    initial_branch: Option<String>,
    object_format: Option<Hash>,
    shared: Option<Shared>,
    directory: Option<String>,
}

impl View for GitInitBuilder {
    type V = BuilderModel;

    closed spec fn view(&self) -> BuilderModel {
        BuilderModel {
            quiet: self.quiet,
            bare: self.bare,
            template: self.template.deep_view(),
            separate_git_dir: self.separate_git_dir.deep_view(),
            initial_branch: self.initial_branch.deep_view(),
            object_format: self.object_format,
            shared: self.shared,
            directory: self.directory.deep_view(),
        }
    }
}

impl GitInitBuilder {
    /// A builder with every optional field unset. `Git::init()` is a wrapper
    /// around this function.
    pub(crate) fn new() -> (r: Self)
        ensures
            r@ == empty_model(),
    {
        GitInitBuilder {
            quiet: false,
            bare: false,
            template: None,
            separate_git_dir: None,
            initial_branch: None,
            object_format: None,
            shared: None,
            directory: None,
        }
    }

    /// Only print error and warning messages; all other output will be
    /// suppressed.
    pub fn quiet(self) -> (r: Self)
        ensures
            r@ == with_quiet(self@),
    {
        GitInitBuilder { quiet: true, ..self }
    }

    /// Create a bare repository.
    pub fn bare(self) -> (r: Self)
        ensures
            r@ == with_bare(self@),
    {
        GitInitBuilder { bare: true, ..self }
    }

    /// Specify the directory from which templates will be used: anything in
    /// it is copied into the `.git` directory of the newly initialized
    /// repository.
    pub fn template(self, path: &str) -> (r: Self)
        ensures
            r@ == with_template(self@, path@),
    {
        GitInitBuilder { template: Some(String::from_str(path)), ..self }
    }

    /// Use the specified name for the initial branch in the newly created
    /// repository instead of the wrapped tool's default.
    pub fn initial_branch(self, name: &str) -> (r: Self)
        ensures
            r@ == with_initial_branch(self@, name@),
    {
        GitInitBuilder { initial_branch: Some(String::from_str(name)), ..self }
    }

    /// Instead of placing the repository at `$GIT_DIR` or `./.git/`, create a
    /// text file there containing the path to the actual repository.
    pub fn separate_git_dir(self, path: &str) -> (r: Self)
        ensures
            r@ == with_separate_git_dir(self@, path@),
    {
        GitInitBuilder { separate_git_dir: Some(String::from_str(path)), ..self }
    }

    /// Specify the object format (hash algorithm) for the repository.
    pub fn object_format(self, obj: Hash) -> (r: Self)
        ensures
            r@ == with_object_format(self@, obj),
    {
        GitInitBuilder { object_format: Some(obj), ..self }
    }

    /// Specify that the repository is to be shared amongst several users,
    /// with the given permission scheme.
    pub fn shared(self, shared: Shared) -> (r: Self)
        ensures
            r@ == with_shared(self@, shared),
    {
        GitInitBuilder { shared: Some(shared), ..self }
    }

    /// Set the directory the command runs on, emitted as the final positional
    /// token.
    pub fn directory(self, path: &str) -> (r: Self)
        ensures
            r@ == with_directory(self@, path@),
    {
        GitInitBuilder { directory: Some(String::from_str(path)), ..self }
    }

    /// Consume the builder and emit the argument tokens of the configured
    /// invocation, in the fixed order: the subcommand name, each flag that
    /// was set, the positional directory last.
    #[verifier::rlimit(60)]
    pub fn make_args(self) -> (r: Vec<String>)
        ensures
            r.deep_view() == tokens(self@),
    {
        let ghost m = self@;
        let GitInitBuilder {
            quiet,
            bare,
            template,
            separate_git_dir,
            initial_branch,
            object_format,
            shared,
            directory,
        } = self;
        let mut args: Vec<String> = Vec::new();
        args.push(String::from_str("init"));
        proof {
            assert(args.deep_view() =~= seq!["init"@]);
        }
        if quiet {
            args.push(String::from_str("--quiet"));
        }
        proof {
            assert(args.deep_view() =~= seq!["init"@] + flag_tokens(m.quiet, "--quiet"@));
        }
        if bare {
            args.push(String::from_str("--bare"));
        }
        proof {
            assert(args.deep_view() =~= seq!["init"@] + flag_tokens(m.quiet, "--quiet"@)
                + flag_tokens(m.bare, "--bare"@));
        }
        match template {
            Some(path) => {
                args.push(String::from_str("--template"));
                args.push(path);
            },
            None => {},
        }
        proof {
            assert(args.deep_view() =~= seq!["init"@] + flag_tokens(m.quiet, "--quiet"@)
                + flag_tokens(m.bare, "--bare"@) + valued_tokens(m.template, "--template"@));
        }
        match separate_git_dir {
            Some(path) => {
                args.push(String::from_str("--separate-git-dir"));
                args.push(path);
            },
            None => {},
        }
        proof {
            assert(args.deep_view() =~= seq!["init"@] + flag_tokens(m.quiet, "--quiet"@)
                + flag_tokens(m.bare, "--bare"@) + valued_tokens(m.template, "--template"@)
                + valued_tokens(m.separate_git_dir, "--separate-git-dir"@));
        }
        match initial_branch {
            Some(name) => {
                args.push(String::from_str("--initial-branch"));
                args.push(name);
            },
            None => {},
        }
        proof {
            assert(args.deep_view() =~= seq!["init"@] + flag_tokens(m.quiet, "--quiet"@)
                + flag_tokens(m.bare, "--bare"@) + valued_tokens(m.template, "--template"@)
                + valued_tokens(m.separate_git_dir, "--separate-git-dir"@) + valued_tokens(
                m.initial_branch,
                "--initial-branch"@,
            ));
        }
        match object_format {
            Some(obj) => {
                args.push(String::from_str("--object-format"));
                args.push(hash_arg(obj));
            },
            None => {},
        }
        proof {
            assert(args.deep_view() =~= seq!["init"@] + flag_tokens(m.quiet, "--quiet"@)
                + flag_tokens(m.bare, "--bare"@) + valued_tokens(m.template, "--template"@)
                + valued_tokens(m.separate_git_dir, "--separate-git-dir"@) + valued_tokens(
                m.initial_branch,
                "--initial-branch"@,
            ) + object_format_tokens(m.object_format));
        }
        match shared {
            Some(s) => {
                args.push(shared_arg(s));
            },
            None => {},
        }
        proof {
            assert(args.deep_view() =~= seq!["init"@] + flag_tokens(m.quiet, "--quiet"@)
                + flag_tokens(m.bare, "--bare"@) + valued_tokens(m.template, "--template"@)
                + valued_tokens(m.separate_git_dir, "--separate-git-dir"@) + valued_tokens(
                m.initial_branch,
                "--initial-branch"@,
            ) + object_format_tokens(m.object_format) + shared_tokens(m.shared));
        }
        match directory {
            Some(path) => {
                args.push(path);
            },
            None => {},
        }
        proof {
            assert(args.deep_view() =~= tokens(m));
        }
        args
    }
}

/// The string for a hash algorithm, as `--object-format` takes it.
fn hash_arg(h: Hash) -> (r: String)
    ensures
        r@ == hash_value(h),
{
    match h {
        Hash::Sha1 => String::from_str("sha1"),
        Hash::Sha256 => String::from_str("sha256"),
    }
}

/// The combined `--shared=<value>` token for a permission scheme.
fn shared_arg(s: Shared) -> (r: String)
    ensures
        r@ == shared_token(s),
{
    let value = match s {
        Shared::Umask => String::from_str("umask"),
        Shared::False => String::from_str("umask"),
        Shared::Group => String::from_str("group"),
        Shared::True => String::from_str("group"),
        Shared::All => String::from_str("all"),
        Shared::World => String::from_str("all"),
        Shared::Everybody => String::from_str("all"),
        Shared::Octal(n) => format_octal4(n),
    };
    String::from_str("--shared=").concat(value.as_str())
}

/// Configuration calls on distinct fields commute: for every starting state,
/// applying any two of them in either order yields the same state. Since the
/// finalized token sequence is a function of the state alone, the emitted
/// tokens — and so their fixed relative order — do not depend on the order in
/// which the fields were configured.
pub proof fn lemma_setters_commute(
    m: BuilderModel,
    t: Seq<char>,
    g: Seq<char>,
    n: Seq<char>,
    h: Hash,
    s: Shared,
    d: Seq<char>,
)
    ensures
        with_bare(with_quiet(m)) == with_quiet(with_bare(m)),
        with_template(with_quiet(m), t) == with_quiet(with_template(m, t)),
        with_separate_git_dir(with_quiet(m), g) == with_quiet(with_separate_git_dir(m, g)),
        with_initial_branch(with_quiet(m), n) == with_quiet(with_initial_branch(m, n)),
        with_object_format(with_quiet(m), h) == with_quiet(with_object_format(m, h)),
        with_shared(with_quiet(m), s) == with_quiet(with_shared(m, s)),
        with_directory(with_quiet(m), d) == with_quiet(with_directory(m, d)),
        with_template(with_bare(m), t) == with_bare(with_template(m, t)),
        with_separate_git_dir(with_bare(m), g) == with_bare(with_separate_git_dir(m, g)),
        with_initial_branch(with_bare(m), n) == with_bare(with_initial_branch(m, n)),
        with_object_format(with_bare(m), h) == with_bare(with_object_format(m, h)),
        with_shared(with_bare(m), s) == with_bare(with_shared(m, s)),
        with_directory(with_bare(m), d) == with_bare(with_directory(m, d)),
        with_separate_git_dir(with_template(m, t), g) == with_template(
            with_separate_git_dir(m, g),
            t,
        ),
        with_initial_branch(with_template(m, t), n) == with_template(
            with_initial_branch(m, n),
            t,
        ),
        with_object_format(with_template(m, t), h) == with_template(with_object_format(m, h), t),
        with_shared(with_template(m, t), s) == with_template(with_shared(m, s), t),
        with_directory(with_template(m, t), d) == with_template(with_directory(m, d), t),
        with_initial_branch(with_separate_git_dir(m, g), n) == with_separate_git_dir(
            with_initial_branch(m, n),
            g,
        ),
        with_object_format(with_separate_git_dir(m, g), h) == with_separate_git_dir(
            with_object_format(m, h),
            g,
        ),
        with_shared(with_separate_git_dir(m, g), s) == with_separate_git_dir(
            with_shared(m, s),
            g,
        ),
        with_directory(with_separate_git_dir(m, g), d) == with_separate_git_dir(
            with_directory(m, d),
            g,
        ),
        with_object_format(with_initial_branch(m, n), h) == with_initial_branch(
            with_object_format(m, h),
            n,
        ),
        with_shared(with_initial_branch(m, n), s) == with_initial_branch(with_shared(m, s), n),
        with_directory(with_initial_branch(m, n), d) == with_initial_branch(
            with_directory(m, d),
            n,
        ),
        with_shared(with_object_format(m, h), s) == with_object_format(with_shared(m, s), h),
        with_directory(with_object_format(m, h), d) == with_object_format(with_directory(m, d), h),
        with_directory(with_shared(m, s), d) == with_shared(with_directory(m, d), s),
{
}

/// Configuration calls overwrite: setting the same field twice leaves only
/// the last value in the state, and so only the last value in the finalized
/// token sequence.
pub proof fn lemma_setters_overwrite(
    m: BuilderModel,
    t1: Seq<char>,
    t2: Seq<char>,
    g1: Seq<char>,
    g2: Seq<char>,
    n1: Seq<char>,
    n2: Seq<char>,
    h1: Hash,
    h2: Hash,
    s1: Shared,
    s2: Shared,
    d1: Seq<char>,
    d2: Seq<char>,
)
    ensures
        with_quiet(with_quiet(m)) == with_quiet(m),
        with_bare(with_bare(m)) == with_bare(m),
        with_template(with_template(m, t1), t2) == with_template(m, t2),
        with_separate_git_dir(with_separate_git_dir(m, g1), g2) == with_separate_git_dir(m, g2),
        with_initial_branch(with_initial_branch(m, n1), n2) == with_initial_branch(m, n2),
        with_object_format(with_object_format(m, h1), h2) == with_object_format(m, h2),
        with_shared(with_shared(m, s1), s2) == with_shared(m, s2),
        with_directory(with_directory(m, d1), d2) == with_directory(m, d2),
{
}

/// The alias groups of the `shared` variants emit identical tokens: `Umask`
/// and `False` agree, `Group` and `True` agree, and `All`, `World` and
/// `Everybody` agree.
pub proof fn lemma_shared_aliases()
    ensures
        shared_token(Shared::Umask) == shared_token(Shared::False),
        shared_token(Shared::Group) == shared_token(Shared::True),
        shared_token(Shared::All) == shared_token(Shared::World),
        shared_token(Shared::All) == shared_token(Shared::Everybody),
{
}

/// Whenever the `directory` field is set, its token is the last of the
/// finalized sequence, whatever else is set.
pub proof fn lemma_directory_token_is_last(m: BuilderModel, d: Seq<char>)
    requires
        m.directory == Some(d),
    ensures
        tokens(m).len() > 0,
        tokens(m).last() == d,
{
}

/// The fixed tokens the builder itself can emit: the subcommand name and the
/// flag words.
pub open spec fn is_builder_token(t: Seq<char>) -> bool {
    t == "init"@ || t == "--quiet"@ || t == "--bare"@ || t == "--template"@
        || t == "--separate-git-dir"@ || t == "--initial-branch"@ || t == "--object-format"@
}

/// The caller-supplied strings of `m` (paths and branch name) do not
/// themselves spell one of the builder's own flag tokens, nor carry the
/// `--shared=` prefix. Any ordinary path or branch name satisfies this.
pub open spec fn plain_values(m: BuilderModel) -> bool {
    &&& (m.template matches Some(p) ==> !is_builder_token(p) && !"--shared="@.is_prefix_of(p))
    &&& (m.separate_git_dir matches Some(p) ==> !is_builder_token(p) && !"--shared="@.is_prefix_of(
        p,
    ))
    &&& (m.initial_branch matches Some(p) ==> !is_builder_token(p) && !"--shared="@.is_prefix_of(
        p,
    ))
    &&& (m.directory matches Some(p) ==> !is_builder_token(p) && !"--shared="@.is_prefix_of(p))
}

/// Every `--shared=<value>` token is at least twelve characters long and
/// begins with the `--shared=` prefix.
proof fn lemma_shared_token_shape(s: Shared)
    ensures
        shared_token(s).len() >= 12,
        shared_token(s)[2] == 's',
        shared_token(s)[3] == 'h',
{
    reveal_strlit("--shared=");
    reveal_strlit("umask");
    reveal_strlit("group");
    reveal_strlit("all");
}

/// Every token of a finalized sequence is accounted for: it is the
/// subcommand name, the flag word or value of a field that is set, or the
/// positional directory.
#[verifier::rlimit(60)]
proof fn lemma_token_cases(m: BuilderModel, x: Seq<char>)
    requires
        tokens(m).contains(x),
    ensures
        x == "init"@ || (m.quiet && x == "--quiet"@) || (m.bare && x == "--bare"@) || (m.template
            matches Some(p) && (x == "--template"@ || x == p)) || (m.separate_git_dir matches Some(
            p,
        ) && (x == "--separate-git-dir"@ || x == p)) || (m.initial_branch matches Some(p) && (x
            == "--initial-branch"@ || x == p)) || (m.object_format matches Some(h) && (x
            == "--object-format"@ || x == hash_value(h))) || (m.shared matches Some(s) && x
            == shared_token(s)) || (m.directory matches Some(p) && x == p),
{
    let s0 = seq!["init"@];
    let f1 = flag_tokens(m.quiet, "--quiet"@);
    let f2 = flag_tokens(m.bare, "--bare"@);
    let v3 = valued_tokens(m.template, "--template"@);
    let v4 = valued_tokens(m.separate_git_dir, "--separate-git-dir"@);
    let v5 = valued_tokens(m.initial_branch, "--initial-branch"@);
    let o6 = object_format_tokens(m.object_format);
    let s7 = shared_tokens(m.shared);
    let d8 = directory_tokens(m.directory);
    vstd::seq_lib::lemma_seq_concat_contains_all_elements(
        s0 + f1 + f2 + v3 + v4 + v5 + o6 + s7,
        d8,
        x,
    );
    vstd::seq_lib::lemma_seq_concat_contains_all_elements(s0 + f1 + f2 + v3 + v4 + v5 + o6, s7, x);
    vstd::seq_lib::lemma_seq_concat_contains_all_elements(s0 + f1 + f2 + v3 + v4 + v5, o6, x);
    vstd::seq_lib::lemma_seq_concat_contains_all_elements(s0 + f1 + f2 + v3 + v4, v5, x);
    vstd::seq_lib::lemma_seq_concat_contains_all_elements(s0 + f1 + f2 + v3, v4, x);
    vstd::seq_lib::lemma_seq_concat_contains_all_elements(s0 + f1 + f2, v3, x);
    vstd::seq_lib::lemma_seq_concat_contains_all_elements(s0 + f1, f2, x);
    vstd::seq_lib::lemma_seq_concat_contains_all_elements(s0, f1, x);
    assert(s0.contains(x) ==> x == "init"@);
    assert(f1.contains(x) ==> m.quiet && x == "--quiet"@);
    assert(f2.contains(x) ==> m.bare && x == "--bare"@);
    assert(v3.contains(x) ==> (m.template matches Some(p) && (x == "--template"@ || x == p)));
    assert(v4.contains(x) ==> (m.separate_git_dir matches Some(p) && (x == "--separate-git-dir"@
        || x == p)));
    assert(v5.contains(x) ==> (m.initial_branch matches Some(p) && (x == "--initial-branch"@ || x
        == p)));
    assert(o6.contains(x) ==> (m.object_format matches Some(h) && (x == "--object-format"@ || x
        == hash_value(h))));
    assert(s7.contains(x) ==> (m.shared matches Some(s) && x == shared_token(s)));
    assert(d8.contains(x) ==> (m.directory matches Some(p) && x == p));
}

/// A token that differs from the subcommand name and from every token of a
/// set field does not appear in the finalized sequence.
proof fn lemma_token_absent(m: BuilderModel, x: Seq<char>)
    requires
        x != "init"@,
        m.quiet ==> x != "--quiet"@,
        m.bare ==> x != "--bare"@,
        m.template matches Some(p) ==> x != "--template"@ && x != p,
        m.separate_git_dir matches Some(p) ==> x != "--separate-git-dir"@ && x != p,
        m.initial_branch matches Some(p) ==> x != "--initial-branch"@ && x != p,
        m.object_format matches Some(h) ==> x != "--object-format"@ && x != hash_value(h),
        m.shared matches Some(s) ==> x != shared_token(s),
        m.directory matches Some(p) ==> x != p,
    ensures
        !tokens(m).contains(x),
{
    if tokens(m).contains(x) {
        lemma_token_cases(m, x);
    }
}

/// The length and leading characters of every builder token and field value,
/// for telling them apart.
proof fn lemma_literal_shapes()
    ensures
        "init"@.len() == 4 && "init"@[0] == 'i',
        "--quiet"@.len() == 7,
        "--bare"@.len() == 6 && "--bare"@[0] == '-',
        "--template"@.len() == 10 && "--template"@[2] == 't',
        "--separate-git-dir"@.len() == 18 && "--separate-git-dir"@[3] == 'e',
        "--initial-branch"@.len() == 16 && "--initial-branch"@[2] == 'i',
        "--object-format"@.len() == 15 && "--object-format"@[2] == 'o',
        "sha1"@.len() == 4 && "sha1"@[0] == 's',
        "sha256"@.len() == 6 && "sha256"@[0] == 's',
        "--shared="@.len() == 9 && "--shared="@[2] == 's' && "--shared="@[3] == 'h',
{
    reveal_strlit("init");
    reveal_strlit("--quiet");
    reveal_strlit("--bare");
    reveal_strlit("--template");
    reveal_strlit("--separate-git-dir");
    reveal_strlit("--initial-branch");
    reveal_strlit("--object-format");
    reveal_strlit("sha1");
    reveal_strlit("sha256");
    reveal_strlit("--shared=");
}

/// A field that is left unset contributes no token: its flag word appears
/// nowhere in the finalized sequence, and no `--shared=` token appears while
/// `shared` is unset. (The positional `directory` needs no clause of its own:
/// an unset directory contributes no token by the definition of `tokens`.)
/// The precondition only rules out caller-supplied strings that themselves
/// spell a builder token.
pub proof fn lemma_unset_field_emits_no_token(m: BuilderModel)
    requires
        plain_values(m),
    ensures
        !m.quiet ==> !tokens(m).contains("--quiet"@),
        !m.bare ==> !tokens(m).contains("--bare"@),
        m.template is None ==> !tokens(m).contains("--template"@),
        m.separate_git_dir is None ==> !tokens(m).contains("--separate-git-dir"@),
        m.initial_branch is None ==> !tokens(m).contains("--initial-branch"@),
        m.object_format is None ==> !tokens(m).contains("--object-format"@),
        m.shared is None ==> forall|x: Seq<char>| #[trigger]
            tokens(m).contains(x) ==> !("--shared="@.is_prefix_of(x)),
{
    lemma_literal_shapes();
    match m.shared {
        Some(s) => lemma_shared_token_shape(s),
        None => (),
    }
    if !m.quiet {
        lemma_token_absent(m, "--quiet"@);
    }
    if !m.bare {
        lemma_token_absent(m, "--bare"@);
    }
    if m.template is None {
        lemma_token_absent(m, "--template"@);
    }
    if m.separate_git_dir is None {
        lemma_token_absent(m, "--separate-git-dir"@);
    }
    if m.initial_branch is None {
        lemma_token_absent(m, "--initial-branch"@);
    }
    if m.object_format is None {
        lemma_token_absent(m, "--object-format"@);
    }
    if m.shared is None {
        assert forall|x: Seq<char>| #[trigger]
            tokens(m).contains(x) implies !("--shared="@.is_prefix_of(x)) by {
            lemma_literal_shapes();
            lemma_token_cases(m, x);
            if "--shared="@.is_prefix_of(x) {
                assert(x.len() >= 9);
                assert(x[2] == 's' && x[3] == 'h') by {
                    assert(x.subrange(0, 9)[2] == x[2]);
                    assert(x.subrange(0, 9)[3] == x[3]);
                }
            }
        }
    }
}

} // verus!
