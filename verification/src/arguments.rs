//! The classification of the command line: one scan from left to right
//! that sorts each token into launcher directives, runtime flags and
//! arguments of the program.

use vstd::prelude::*;
use crate::environment::Environment;
use crate::launch_options::{
    CacheOptionsView, LaunchError, LaunchErrorKind, LaunchOptions, LaunchOptionsView,
    NAILGUN_SERVER_CLASS,
};
use crate::os_string_ext::{split_words, words};
use crate::text::{
    begins_with, chars_of, concat, extend_texts, extend_texts_from, has_prefix, is_lower,
    opt_text, push_text, same_text, text_between, texts,
};

verus! {

/// The runtime flags that development mode stands for.
pub open spec fn dev_mode_flags() -> Seq<Seq<char>> {
    seq![
        "-XX:+TieredCompilation"@,
        "-XX:TieredStopAtLevel=1"@,
        "-Djruby.compile.mode=OFF"@,
        "-Djruby.compile.invokedynamic=false"@,
    ]
}

/// The token after which nothing is classified any more.
pub open spec fn is_terminator(token: Seq<char>) -> bool {
    token == "--"@
}

/// The options after a directive that takes the next token as its value;
/// `None` where `token` is no such directive.
pub open spec fn with_value(o: LaunchOptionsView, token: Seq<char>, value: Seq<char>) -> Option<
    LaunchOptionsView,
> {
    if token == "-Xtrace"@ {
        Some(LaunchOptionsView { launcher_logfile: Some(value), ..o })
    } else if token == "-Xbootclass"@ {
        Some(LaunchOptionsView { boot_class: Some(value), ..o })
    } else if token == "-Xjdkhome"@ {
        Some(LaunchOptionsView { jdk_home: Some(value), ..o })
    } else if token == "-Xcp:p"@ {
        Some(LaunchOptionsView { classpath_before: o.classpath_before.push(value), ..o })
    } else if token == "-Xcp:a"@ {
        Some(LaunchOptionsView { classpath_after: o.classpath_after.push(value), ..o })
    } else if token == "-J-cp"@ || token == "-J-classpath"@ {
        Some(LaunchOptionsView { classpath_explicit: o.classpath_explicit.push(value), ..o })
    } else {
        None
    }
}

/// Whether `token` is a directive that takes the next token as its value.
pub open spec fn takes_value(token: Seq<char>) -> bool {
    token == "-Xtrace"@ || token == "-Xbootclass"@ || token == "-Xjdkhome"@ || token == "-Xcp:p"@
        || token == "-Xcp:a"@ || token == "-J-cp"@ || token == "-J-classpath"@
}

/// The options after a directive of the launcher that stands alone; `None`
/// where `token` is no such directive.
pub open spec fn with_directive(o: LaunchOptionsView, token: Seq<char>) -> Option<
    LaunchOptionsView,
> {
    if token == "-Xfork-java"@ {
        Some(LaunchOptionsView { fork_java: true, ..o })
    } else if token == "-Xcommand"@ {
        Some(LaunchOptionsView { command_only: true, ..o })
    } else if token == "-Xnobootclasspath"@ || token == "--no-bootclasspath"@ {
        Some(LaunchOptionsView { no_boot_classpath: true, ..o })
    } else if token == "--ng"@ {
        Some(LaunchOptionsView { nailgun_client: true, ..o })
    } else if token == "--ng-server"@ {
        Some(
            LaunchOptionsView {
                boot_class: Some(NAILGUN_SERVER_CLASS@),
                java_args: o.java_args.push("-server"@),
                no_boot_classpath: true,
                ..o
            },
        )
    } else if token == "--cache"@ {
        Some(
            LaunchOptionsView {
                cache: CacheOptionsView { regenerate_jsa_file: true, ..o.cache },
                ..o
            },
        )
    } else if token == "--nocache"@ {
        Some(
            LaunchOptionsView {
                cache: CacheOptionsView {
                    disable_jsa_file: true,
                    use_jsa_file: false,
                    ..o.cache
                },
                ..o
            },
        )
    } else if token == "--rmcache"@ {
        Some(
            LaunchOptionsView {
                cache: CacheOptionsView { remove_jsa_files: true, ..o.cache },
                ..o
            },
        )
    } else if token == "--logcache"@ {
        Some(LaunchOptionsView { cache: CacheOptionsView { log_cds: true, ..o.cache }, ..o })
    } else {
        None
    }
}

/// The options after a token that stands for fixed runtime flags; `None`
/// where `token` is no such token.
pub open spec fn with_translation(o: LaunchOptionsView, token: Seq<char>) -> Option<
    LaunchOptionsView,
> {
    if token == "--server"@ {
        Some(LaunchOptionsView { java_args: o.java_args.push("-server"@), ..o })
    } else if token == "--client"@ {
        Some(LaunchOptionsView { java_args: o.java_args.push("-client"@), ..o })
    } else if token == "--dev"@ {
        Some(LaunchOptionsView { java_args: o.java_args + dev_mode_flags(), ..o })
    } else if token == "--sample"@ {
        Some(LaunchOptionsView { java_args: o.java_args.push("-Xprof"@), ..o })
    } else if token == "--manage"@ {
        Some(
            LaunchOptionsView {
                java_args: o.java_args.push("-Dcom.sun.management.jmxremote"@).push(
                    "-Djruby.management.enabled=true"@,
                ),
                ..o
            },
        )
    } else if token == "--headless"@ {
        Some(LaunchOptionsView { java_args: o.java_args.push("-Djava.awt.headless=true"@), ..o })
    } else if token == "-Jea"@ {
        Some(
            LaunchOptionsView {
                java_args: o.java_args.push("-ea"@),
                no_boot_classpath: true,
                ..o
            },
        )
    } else {
        None
    }
}

/// The options after a token that is none of the fixed ones.
///
/// Of the tokens longer than two characters, `-Xxss...` is kept whole as
/// the stack size, `-X` before a lowercase letter becomes the property
/// `-Djruby.` with the rest of the token, and `-J` hands the rest of the
/// token to the runtime as it is. Every other token is an argument of the
/// program.
pub open spec fn with_other(o: LaunchOptionsView, token: Seq<char>) -> LaunchOptionsView {
    if token.len() > 2 && has_prefix(token, "-Xxss"@) {
        LaunchOptionsView { xss: Some(token), ..o }
    } else if token.len() > 2 && has_prefix(token, "-X"@) && is_lower(token[2]) {
        LaunchOptionsView { java_args: o.java_args.push("-Djruby."@ + token.skip(2)), ..o }
    } else if token.len() > 2 && has_prefix(token, "-J"@) {
        LaunchOptionsView { java_args: o.java_args.push(token.skip(2)), ..o }
    } else {
        LaunchOptionsView { program_args: o.program_args.push(token), ..o }
    }
}

/// The options after a token that takes no value and ends nothing.
pub open spec fn with_token(o: LaunchOptionsView, token: Seq<char>) -> LaunchOptionsView {
    match with_directive(o, token) {
        Some(next) => next,
        None => match with_translation(o, token) {
            Some(next) => next,
            None => with_other(o, token),
        },
    }
}

/// What a scan ends with: the options as far as they got, and the error
/// that stopped it, if one did.
pub struct Scan {
    pub options: LaunchOptionsView,
    pub error: Option<LaunchErrorKind>,
}

/// The scan of `tokens[from..]`, starting with the options `o`.
///
/// The terminator hands itself and everything after it to the program. A
/// directive that takes a value consumes the next token, and fails where
/// there is none. Nothing else fails.
pub open spec fn scanned(o: LaunchOptionsView, tokens: Seq<Seq<char>>, from: int) -> Scan
    decreases tokens.len() - from,
{
    if from < 0 || from >= tokens.len() {
        Scan { options: o, error: None }
    } else if is_terminator(tokens[from]) {
        Scan {
            options: LaunchOptionsView { program_args: o.program_args + tokens.skip(from), ..o },
            error: None,
        }
    } else if takes_value(tokens[from]) {
        if from + 1 >= tokens.len() {
            Scan { options: o, error: Some(LaunchErrorKind::MissingArgumentValue) }
        } else {
            scanned(with_value(o, tokens[from], tokens[from + 1])->0, tokens, from + 2)
        }
    } else {
        scanned(with_token(o, tokens[from]), tokens, from + 1)
    }
}

/// Whether the scan of `tokens[from..]` comes to a directive that takes a
/// value and is the last token. A token that was consumed as a value is not
/// looked at again, and nothing after the terminator is looked at.
pub open spec fn value_missing(tokens: Seq<Seq<char>>, from: int) -> bool
    decreases tokens.len() - from,
{
    if from < 0 || from >= tokens.len() {
        false
    } else if is_terminator(tokens[from]) {
        false
    } else if takes_value(tokens[from]) {
        from + 1 >= tokens.len() || value_missing(tokens, from + 2)
    } else {
        value_missing(tokens, from + 1)
    }
}

/// `list` with `extra` at its end where there is one.
pub open spec fn with_optional(list: Seq<Seq<char>>, extra: Option<Seq<char>>) -> Seq<Seq<char>> {
    match extra {
        Some(s) => list.push(s),
        None => list,
    }
}

/// The words of an optional value of the environment.
pub open spec fn optional_words(value: Option<Seq<char>>) -> Seq<Seq<char>> {
    match value {
        Some(s) => words(s),
        None => Seq::empty(),
    }
}

/// The runtime flags that the platform forces: the file encoding where the
/// platform needs it and `JAVA_ENCODING` names none, then the source of
/// random numbers where `/dev/urandom` can be read.
pub open spec fn platform_flags(env: Environment) -> Seq<Seq<char>> {
    let encoding: Seq<Seq<char>> = if env.encoding_sensitive && env.java_encoding is None {
        seq!["-Dfile.encoding=UTF-8"@]
    } else {
        Seq::empty()
    };
    let random: Seq<Seq<char>> = if env.urandom_readable {
        seq!["-Djava.security.egd=file:/dev/urandom"@]
    } else {
        Seq::empty()
    };
    encoding + random
}

/// The options before the scan begins: the words of `JAVA_OPTS` and of
/// `JRUBY_OPTS` are taken up, then the flags that the platform forces, then
/// `JAVA_MEM` and `JAVA_STACK`, each as one token.
pub open spec fn prepared(o: LaunchOptionsView, env: Environment) -> LaunchOptionsView {
    LaunchOptionsView {
        java_opts: with_optional(
            o.java_opts + optional_words(opt_text(env.java_opts)) + platform_flags(env),
            opt_text(env.java_stack),
        ),
        jruby_opts: o.jruby_opts + optional_words(opt_text(env.jruby_opts)),
        java_args: with_optional(o.java_args, opt_text(env.java_mem)),
        ..o
    }
}

/// The whole of parsing: the environment is taken up, then the arguments
/// after the launcher's own name are scanned.
pub open spec fn parsed(o: LaunchOptionsView, env: Environment) -> Scan {
    scanned(prepared(o, env), texts(env.args@), 1)
}

impl LaunchOptions {
    /// The words of a value of the environment.
    pub fn env_as_iter(value: &String) -> (r: Vec<String>)
        ensures
            texts(r@) == words(value@),
    {
        split_words(value.as_str())
    }

    /// Takes up what the environment gives before the scan.
    fn prepare(&mut self, env: &Environment)
        ensures
            final(self)@ == prepared(old(self)@, *env),
    {
        if let Some(java_opts) = &env.java_opts {
            let more = LaunchOptions::env_as_iter(java_opts);
            extend_texts(&mut self.java_opts, &more);
        } else {
            assert(texts(self.java_opts@) + Seq::<Seq<char>>::empty() =~= texts(self.java_opts@));
        }
        if let Some(jruby_opts) = &env.jruby_opts {
            let more = LaunchOptions::env_as_iter(jruby_opts);
            extend_texts(&mut self.jruby_opts, &more);
        } else {
            assert(texts(self.jruby_opts@) + Seq::<Seq<char>>::empty() =~= texts(
                self.jruby_opts@,
            ));
        }
        self.parse_os(env);
        if let Some(java_mem) = &env.java_mem {
            push_text(&mut self.java_args, java_mem.as_str());
        }
        if let Some(java_stack) = &env.java_stack {
            push_text(&mut self.java_opts, java_stack.as_str());
        }
    }

    /// Adds the runtime flags that the platform forces.
    fn parse_os(&mut self, env: &Environment)
        ensures
            final(self)@ == (LaunchOptionsView {
                java_opts: old(self)@.java_opts + platform_flags(*env),
                ..old(self)@
            }),
    {
        let ghost before = texts(self.java_opts@);
        if env.encoding_sensitive && env.java_encoding.is_none() {
            push_text(&mut self.java_opts, "-Dfile.encoding=UTF-8");
        }
        self.check_urandom(env.urandom_readable);
        proof {
            assert(texts(self.java_opts@) =~= before + platform_flags(*env));
        }
    }

    /// Force OpenJDK-based JVMs to use /dev/urandom for random number
    /// generation, where it can be read.
    fn check_urandom(&mut self, readable: bool)
        ensures
            final(self)@ == (LaunchOptionsView {
                java_opts: if readable {
                    old(self)@.java_opts.push("-Djava.security.egd=file:/dev/urandom"@)
                } else {
                    old(self)@.java_opts
                },
                ..old(self)@
            }),
    {
        if readable {
            push_text(&mut self.java_opts, "-Djava.security.egd=file:/dev/urandom");
        }
    }

    /// Applies a directive that takes `value`; tells whether `token` is one.
    fn apply_value(&mut self, token: &str, value: &str) -> (known: bool)
        ensures
            known == takes_value(token@),
            known ==> Some(final(self)@) == with_value(old(self)@, token@, value@),
            !known ==> final(self)@ == old(self)@,
    {
        if same_text(token, "-Xtrace") {
            self.launcher_logfile = Some(value.to_owned());
            true
        } else if same_text(token, "-Xbootclass") {
            self.boot_class = Some(value.to_owned());
            true
        } else if same_text(token, "-Xjdkhome") {
            self.jdk_home = Some(value.to_owned());
            true
        } else if same_text(token, "-Xcp:p") {
            push_text(&mut self.classpath_before, value);
            true
        } else if same_text(token, "-Xcp:a") {
            push_text(&mut self.classpath_after, value);
            true
        } else if same_text(token, "-J-cp") || same_text(token, "-J-classpath") {
            push_text(&mut self.classpath_explicit, value);
            true
        } else {
            false
        }
    }

    /// Whether `token` is a directive that takes the next token as its value.
    fn wants_value(token: &str) -> (r: bool)
        ensures
            r == takes_value(token@),
    {
        same_text(token, "-Xtrace") || same_text(token, "-Xbootclass") || same_text(
            token,
            "-Xjdkhome",
        ) || same_text(token, "-Xcp:p") || same_text(token, "-Xcp:a") || same_text(token, "-J-cp")
            || same_text(token, "-J-classpath")
    }

    /// Applies a directive that stands alone; tells whether `token` is one.
    fn apply_directive(&mut self, token: &str) -> (known: bool)
        ensures
            known == (with_directive(old(self)@, token@) is Some),
            known ==> Some(final(self)@) == with_directive(old(self)@, token@),
            !known ==> final(self)@ == old(self)@,
    {
        if same_text(token, "-Xfork-java") {
            self.fork_java = true;
            true
        } else if same_text(token, "-Xcommand") {
            self.command_only = true;
            true
        } else if same_text(token, "-Xnobootclasspath") || same_text(token, "--no-bootclasspath") {
            self.no_boot_classpath = true;
            true
        } else if same_text(token, "--ng") {
            self.nailgun_client = true;
            true
        } else if same_text(token, "--ng-server") {
            self.boot_class = Some(NAILGUN_SERVER_CLASS.to_owned());
            push_text(&mut self.java_args, "-server");
            self.no_boot_classpath = true;
            true
        } else if same_text(token, "--cache") {
            self.cache.regenerate_jsa_file = true;
            true
        } else if same_text(token, "--nocache") {
            self.cache.disable_jsa_file = true;
            self.cache.use_jsa_file = false;
            true
        } else if same_text(token, "--rmcache") {
            self.cache.remove_jsa_files = true;
            true
        } else if same_text(token, "--logcache") {
            self.cache.log_cds = true;
            true
        } else {
            false
        }
    }

    /// Applies a token that stands for fixed runtime flags; tells whether
    /// `token` is one.
    fn apply_translation(&mut self, token: &str) -> (known: bool)
        ensures
            known == (with_translation(old(self)@, token@) is Some),
            known ==> Some(final(self)@) == with_translation(old(self)@, token@),
            !known ==> final(self)@ == old(self)@,
    {
        let ghost before = texts(self.java_args@);
        if same_text(token, "--server") {
            push_text(&mut self.java_args, "-server");
            true
        } else if same_text(token, "--client") {
            push_text(&mut self.java_args, "-client");
            true
        } else if same_text(token, "--dev") {
            push_text(&mut self.java_args, "-XX:+TieredCompilation");
            push_text(&mut self.java_args, "-XX:TieredStopAtLevel=1");
            push_text(&mut self.java_args, "-Djruby.compile.mode=OFF");
            push_text(&mut self.java_args, "-Djruby.compile.invokedynamic=false");
            assert(texts(self.java_args@) =~= before + dev_mode_flags());
            true
        } else if same_text(token, "--sample") {
            push_text(&mut self.java_args, "-Xprof");
            true
        } else if same_text(token, "--manage") {
            push_text(&mut self.java_args, "-Dcom.sun.management.jmxremote");
            push_text(&mut self.java_args, "-Djruby.management.enabled=true");
            true
        } else if same_text(token, "--headless") {
            push_text(&mut self.java_args, "-Djava.awt.headless=true");
            true
        } else if same_text(token, "-Jea") {
            push_text(&mut self.java_args, "-ea");
            self.no_boot_classpath = true;
            true
        } else {
            false
        }
    }

    /// Applies a token that is none of the fixed ones.
    fn apply_other(&mut self, token: &str)
        ensures
            final(self)@ == with_other(old(self)@, token@),
    {
        let v = chars_of(token);
        if v.len() > 2 && begins_with(token, "-Xxss") {
            self.xss = Some(token.to_owned());
        } else if v.len() > 2 && begins_with(token, "-X") && is_lowercase(v[2]) {
            let rest = text_between(&v, 2, v.len());
            assert(v@.subrange(2, v.len() as int) =~= token@.skip(2));
            let flag = concat("-Djruby.", rest.as_str());
            push_text(&mut self.java_args, flag.as_str());
        } else if v.len() > 2 && begins_with(token, "-J") {
            let rest = text_between(&v, 2, v.len());
            assert(v@.subrange(2, v.len() as int) =~= token@.skip(2));
            push_text(&mut self.java_args, rest.as_str());
        } else {
            push_text(&mut self.program_args, token);
        }
    }

    /// Applies a token that takes no value and ends nothing.
    fn apply_token(&mut self, token: &str)
        ensures
            final(self)@ == with_token(old(self)@, token@),
    {
        if self.apply_directive(token) {
        } else if self.apply_translation(token) {
        } else {
            self.apply_other(token);
        }
    }

    /// Classifies the command line of `env` into these options.
    ///
    /// First the environment is taken up: the words of `JAVA_OPTS` and
    /// `JRUBY_OPTS`, the flags that the platform forces, `JAVA_MEM` and
    /// `JAVA_STACK`. Then the arguments after the launcher's own name are
    /// scanned once from left to right. A token that the launcher does not
    /// know is no error: it is handed on to the program.
    ///
    /// The one error is a directive that takes a value and has none after
    /// it. The options then hold what was taken up before that directive.
    pub fn parse(&mut self, env: &Environment) -> (r: Result<(), LaunchError>)
        ensures
            final(self)@ == parsed(old(self)@, *env).options,
            match parsed(old(self)@, *env).error {
                Some(kind) => r is Err && r->Err_0.kind == kind,
                None => r is Ok,
            },
            r is Err <==> value_missing(texts(env.args@), 1),
            r is Err ==> r->Err_0.kind == LaunchErrorKind::MissingArgumentValue,
    {
        self.prepare(env);
        let ghost start = self@;
        let ghost tokens = texts(env.args@);
        proof {
            law_only_a_missing_value_fails(start, tokens, 1);
        }
        let mut i: usize = 1;
        while i < env.args.len()
            invariant
                1 <= i,
                tokens == texts(env.args@),
                start == prepared(old(self)@, *env),
                scanned(self@, tokens, i as int) == scanned(start, tokens, 1),
                scanned(start, tokens, 1).error == missing_value_error(tokens, 1),
            decreases env.args.len() - i,
        {
            let token = env.args[i].as_str();
            assert(tokens[i as int] == token@);
            if same_text(token, "--") {
                extend_texts_from(&mut self.program_args, &env.args, i);
                return Ok(());
            } else if LaunchOptions::wants_value(token) {
                if i + 1 >= env.args.len() {
                    return Err(LaunchError::new(LaunchErrorKind::MissingArgumentValue));
                }
                let value = env.args[i + 1].as_str();
                assert(tokens[i + 1] == value@);
                self.apply_value(token, value);
                i += 2;
            } else {
                self.apply_token(token);
                i += 1;
            }
        }
        Ok(())
    }
}

/// Whether `c` is a lowercase ASCII letter.
pub fn is_lowercase(c: char) -> (r: bool)
    ensures
        r == is_lower(c),
{
    'a' <= c && c <= 'z'
}

/// The error of a scan of `tokens[from..]`: that of the missing value
/// where the scan comes to a directive without its value, else none.
pub open spec fn missing_value_error(tokens: Seq<Seq<char>>, from: int) -> Option<
    LaunchErrorKind,
> {
    if value_missing(tokens, from) {
        Some(LaunchErrorKind::MissingArgumentValue)
    } else {
        None
    }
}

/// A directive that takes a value is not the terminator.
pub proof fn lemma_value_directives_stand_apart(token: Seq<char>)
    requires
        takes_value(token),
    ensures
        !is_terminator(token),
{
    reveal_strlit("--");
    reveal_strlit("-Xtrace");
    reveal_strlit("-Xbootclass");
    reveal_strlit("-Xjdkhome");
    reveal_strlit("-Xcp:p");
    reveal_strlit("-Xcp:a");
    reveal_strlit("-J-cp");
    reveal_strlit("-J-classpath");
    assert("--"@.len() == 2);
    assert("-Xtrace"@.len() == 7 && "-Xbootclass"@.len() == 11 && "-Xjdkhome"@.len() == 9);
    assert("-Xcp:p"@.len() == 6 && "-Xcp:a"@.len() == 6);
    assert("-J-cp"@.len() == 5 && "-J-classpath"@.len() == 12);
}

/// A directive that takes a value and is the last token has none to take:
/// the scan stops there with the error for a missing value and leaves the
/// options as they were.
pub proof fn law_missing_value_is_an_error(
    o: LaunchOptionsView,
    tokens: Seq<Seq<char>>,
    from: int,
)
    requires
        0 <= from,
        from == tokens.len() - 1,
        takes_value(tokens[from]),
    ensures
        scanned(o, tokens, from).error == Some(LaunchErrorKind::MissingArgumentValue),
        scanned(o, tokens, from).options == o,
{
    lemma_value_directives_stand_apart(tokens[from]);
}

/// A scan fails exactly where it comes to a directive that takes a value
/// and is the last token, and then with the error for a missing value. In
/// every other case it succeeds: no token is refused for what it is.
pub proof fn law_only_a_missing_value_fails(
    o: LaunchOptionsView,
    tokens: Seq<Seq<char>>,
    from: int,
)
    ensures
        scanned(o, tokens, from).error == missing_value_error(tokens, from),
    decreases tokens.len() - from,
{
    if 0 <= from < tokens.len() && !is_terminator(tokens[from]) {
        if takes_value(tokens[from]) {
            if from + 1 < tokens.len() {
                law_only_a_missing_value_fails(
                    with_value(o, tokens[from], tokens[from + 1])->0,
                    tokens,
                    from + 2,
                );
            }
        } else {
            law_only_a_missing_value_fails(with_token(o, tokens[from]), tokens, from + 1);
        }
    }
}

/// Whether `token` is one that the launcher gives no meaning to: not the
/// terminator, no directive, no token that stands for runtime flags, and,
/// where it is longer than two characters, neither `-J` with something
/// after it nor `-X` before a lowercase letter.
pub open spec fn is_unknown(token: Seq<char>) -> bool {
    &&& !is_terminator(token)
    &&& !takes_value(token)
    &&& with_directive(crate::launch_options::empty_options(), token) is None
    &&& with_translation(crate::launch_options::empty_options(), token) is None
    &&& !(token.len() > 2 && has_prefix(token, "-J"@))
    &&& !(token.len() > 2 && has_prefix(token, "-X"@) && is_lower(token[2]))
}

/// A token that the launcher gives no meaning to is handed on to the
/// program and changes nothing else, however short it is.
pub proof fn lemma_unknown_token(o: LaunchOptionsView, token: Seq<char>)
    requires
        is_unknown(token),
    ensures
        with_token(o, token) == (LaunchOptionsView {
            program_args: o.program_args.push(token),
            ..o
        }),
{
    reveal_strlit("-Xxss");
    reveal_strlit("-X");
    if has_prefix(token, "-Xxss"@) {
        assert(token.take(5)[0] == '-' && token.take(5)[1] == 'X' && token.take(5)[2] == 'x');
        assert(token.take(2) =~= "-X"@);
    }
}

/// Tokens that the launcher gives no meaning to are no error: a command
/// line made of them alone is handed on to the program in its order, and
/// nothing else of the options changes.
pub proof fn law_unknown_tokens_go_to_the_program(
    o: LaunchOptionsView,
    tokens: Seq<Seq<char>>,
    from: int,
)
    requires
        0 <= from <= tokens.len(),
        forall|i: int| from <= i < tokens.len() ==> is_unknown(#[trigger] tokens[i]),
    ensures
        scanned(o, tokens, from) == (Scan {
            options: LaunchOptionsView { program_args: o.program_args + tokens.skip(from), ..o },
            error: None,
        }),
    decreases tokens.len() - from,
{
    if from < tokens.len() {
        let token = tokens[from];
        lemma_unknown_token(o, token);
        let next = with_token(o, token);
        law_unknown_tokens_go_to_the_program(next, tokens, from + 1);
        assert(o.program_args.push(token) + tokens.skip(from + 1) =~= o.program_args
            + tokens.skip(from));
    } else {
        assert(o.program_args + tokens.skip(from) =~= o.program_args);
    }
}

} // verus!
