//! The two historical launch-argument document shapes and their unified
//! argument-building contract: a legacy shape holding one whitespace-joined
//! string, and a structured shape holding ordered JVM and game token lists
//! whose entries may be guarded by conditional rules.

use vstd::prelude::*;
use crate::error::LauncherError;
use crate::rules::{eval_rules, evaluate, HostInfo, Rule};
use crate::strutil::{
    bool_rep, bool_to_string, decimal_rep, lemma_seq_views_push, nonempty_tokens, seq_views,
    split_char, split_string_nonempty, u64_to_string,
};

verus! {

/// The value of one structured argument entry: a single token or an ordered
/// token list.
pub enum ArgumentValue {
    SINGLE(String),
    VEC(Vec<String>),
}

/// One structured argument entry, optionally guarded by a rule list.
pub struct Argument {
    pub rules: Option<Vec<Rule>>,
    pub value: ArgumentValue,
}

/// The two ordered token lists of the structured shape.
pub struct Arguments {
    pub game: Vec<Argument>,
    pub jvm: Vec<Argument>,
}

/// The structured argument shape used by newer version documents.
pub struct V21ArgumentDeclaration {
    pub arguments: Arguments,
}

/// The legacy argument shape used by older version documents: one flat
/// whitespace-joined string of game arguments.
pub struct V14ArgumentDeclaration {
    pub minecraft_arguments: Option<String>,
}

/// A version document's argument schema, fixed at parse time from the
/// document's shape.
pub enum ArgumentDeclaration {
    V21(V21ArgumentDeclaration),
    V14(V14ArgumentDeclaration),
}

/// The runtime context arguments are built for.
pub struct LaunchingParameter {
    /// Heap size handed to the JVM, in megabytes.
    pub memory: u64,
    pub dev_mode: bool,
    /// Extra whitespace-joined JVM arguments configured by the user.
    pub custom_java_args: String,
}

/// The tokens one argument entry contributes when its guard allows it.
pub open spec fn value_tokens(v: ArgumentValue) -> Seq<Seq<char>> {
    match v {
        ArgumentValue::SINGLE(s) => seq![s@],
        ArgumentValue::VEC(vs) => seq_views(vs@),
    }
}

/// Whether an entry applies: an absent rule list always allows; a present
/// one is evaluated last-match-wins.
pub open spec fn argument_included(a: Argument, host: HostInfo, features: Seq<String>) -> bool {
    match a.rules {
        Option::Some(rs) => eval_rules(rs@, host, features),
        Option::None => true,
    }
}

/// The tokens a structured argument list expands to: surviving entries in
/// order, list-valued entries expanding to their tokens in order.
pub open spec fn expand_arguments(
    args: Seq<Argument>,
    host: HostInfo,
    features: Seq<String>,
) -> Seq<Seq<char>>
    decreases args.len(),
{
    if args.len() == 0 {
        Seq::empty()
    } else {
        (if argument_included(args[0], host, features) {
            value_tokens(args[0].value)
        } else {
            Seq::empty()
        }) + expand_arguments(args.skip(1), host, features)
    }
}

fn push_one(cmd: &mut Vec<String>, t: String)
    ensures
        seq_views(final(cmd)@) == seq_views(old(cmd)@) + seq![t@],
{
    let ghost o = cmd@;
    let ghost tv = t@;
    cmd.push(t);
    proof {
        lemma_seq_views_push(o, cmd@.last());
        assert(seq_views(cmd@) =~= seq_views(o) + seq![tv]);
    }
}

fn push_all(cmd: &mut Vec<String>, vs: &Vec<String>)
    ensures
        seq_views(final(cmd)@) == seq_views(old(cmd)@) + seq_views(vs@),
{
    let n = vs.len();
    proof {
        assert(seq_views(cmd@) =~= seq_views(cmd@) + seq_views(vs@.take(0)));
    }
    for j in 0..n
        invariant
            n == vs@.len(),
            seq_views(cmd@) == seq_views(old(cmd)@) + seq_views(vs@.take(j as int)),
    {
        let ghost o = cmd@;
        cmd.push(vs[j].clone());
        proof {
            lemma_seq_views_push(o, cmd@.last());
            assert(seq_views(cmd@) =~= seq_views(old(cmd)@) + seq_views(vs@.take(j as int + 1)));
        }
    }
    proof {
        assert(vs@.take(n as int) =~= vs@);
    }
}

impl ArgumentDeclaration {
    /// Append to `command_arguments` the tokens of the structured entries in
    /// `args` whose rule guards allow them for this host and feature set.
    pub fn check_rules_and_add(
        command_arguments: &mut Vec<String>,
        args: &Vec<Argument>,
        host: &HostInfo,
        features: &Vec<String>,
    ) -> (r: Result<(), LauncherError>)
        ensures
            r is Ok,
            seq_views(final(command_arguments)@) == seq_views(old(command_arguments)@)
                + expand_arguments(args@, *host, features@),
    {
        let n = args.len();
        proof {
            assert(args@.skip(0) =~= args@);
            assert(seq_views(command_arguments@) + expand_arguments(args@, *host, features@)
                =~= seq_views(old(command_arguments)@) + expand_arguments(
                args@,
                *host,
                features@,
            ));
        }
        for i in 0..n
            invariant
                n == args@.len(),
                seq_views(command_arguments@) + expand_arguments(
                    args@.skip(i as int),
                    *host,
                    features@,
                ) == seq_views(old(command_arguments)@) + expand_arguments(
                    args@,
                    *host,
                    features@,
                ),
        {
            proof {
                assert(args@.skip(i as int).skip(1) =~= args@.skip(i as int + 1));
                assert(args@.skip(i as int)[0] == args@[i as int]);
            }
            let argument = &args[i];
            let included = match &argument.rules {
                Option::Some(rs) => evaluate(rs, host, features),
                Option::None => true,
            };
            let ghost before = seq_views(command_arguments@);
            if included {
                match &argument.value {
                    ArgumentValue::SINGLE(v) => {
                        push_one(command_arguments, v.clone());
                    },
                    ArgumentValue::VEC(vs) => {
                        push_all(command_arguments, vs);
                    },
                }
                proof {
                    assert(before + value_tokens(args@[i as int].value) + expand_arguments(
                        args@.skip(i as int + 1),
                        *host,
                        features@,
                    ) =~= before + expand_arguments(args@.skip(i as int), *host, features@));
                }
            } else {
                proof {
                    assert(before + expand_arguments(args@.skip(i as int + 1), *host, features@)
                        =~= before + expand_arguments(args@.skip(i as int), *host, features@));
                }
            }
        }
        proof {
            assert(args@.skip(n as int) =~= Seq::<Argument>::empty());
            assert(seq_views(command_arguments@) + Seq::<Seq<char>>::empty() =~= seq_views(
                command_arguments@,
            ));
        }
        Ok(())
    }
}

/// The fixed, unconditional JVM preamble for a runtime context: heap size,
/// garbage-collector tuning, the bearer-token and dev-mode system
/// properties, then each non-empty token of the user's custom JVM argument
/// string.
pub open spec fn jvm_preamble(token: Seq<char>, parameter: LaunchingParameter) -> Seq<Seq<char>> {
    seq![
        "-Xmx"@ + decimal_rep(parameter.memory as int) + "M"@,
        "-XX:+UnlockExperimentalVMOptions"@,
        "-XX:+UseG1GC"@,
        "-XX:G1NewSizePercent=20"@,
        "-XX:G1ReservePercent=20"@,
        "-XX:MaxGCPauseMillis=50"@,
        "-XX:G1HeapRegionSize=32M"@,
        "-Dnorisk.token="@ + token,
        "-Dnorisk.experimental="@ + bool_rep(parameter.dev_mode),
    ] + nonempty_tokens(split_char(parameter.custom_java_args@, ' '))
}

/// What follows the preamble: the legacy shape appends the fixed native-path
/// and classpath placeholders; the structured shape appends its surviving
/// JVM tokens.
pub open spec fn jvm_tail(
    decl: ArgumentDeclaration,
    host: HostInfo,
    features: Seq<String>,
) -> Seq<Seq<char>> {
    match decl {
        ArgumentDeclaration::V14(_) => seq![
            "-Djava.library.path=${natives_directory}"@,
            "-cp"@,
            "${classpath}"@,
        ],
        ArgumentDeclaration::V21(d) => expand_arguments(d.arguments.jvm@, host, features),
    }
}

/// The game arguments of a schema: the legacy shape's non-empty
/// whitespace-separated tokens, or the structured shape's surviving game
/// tokens.
pub open spec fn game_args(
    decl: ArgumentDeclaration,
    host: HostInfo,
    features: Seq<String>,
) -> Seq<Seq<char>>
    recommends
        decl matches ArgumentDeclaration::V14(d) ==> d.minecraft_arguments is Some,
{
    match decl {
        ArgumentDeclaration::V14(d) => nonempty_tokens(
            split_char(d.minecraft_arguments.unwrap()@, ' '),
        ),
        ArgumentDeclaration::V21(d) => expand_arguments(d.arguments.game@, host, features),
    }
}

impl ArgumentDeclaration {
    /// Append the JVM arguments for this schema and context: the fixed
    /// preamble, then the schema's own JVM tokens.
    pub fn add_jvm_args_to_vec(
        &self,
        norisk_token: &str,
        command_arguments: &mut Vec<String>,
        parameter: &LaunchingParameter,
        host: &HostInfo,
        features: &Vec<String>,
    ) -> (r: Result<(), LauncherError>)
        ensures
            r is Ok,
            seq_views(final(command_arguments)@) == seq_views(old(command_arguments)@)
                + jvm_preamble(norisk_token@, *parameter) + jvm_tail(*self, *host, features@),
    {
        let mut xmx = String::from_str("-Xmx");
        xmx.append(u64_to_string(parameter.memory).as_str());
        xmx.append("M");
        push_one(command_arguments, xmx);
        push_one(command_arguments, String::from_str("-XX:+UnlockExperimentalVMOptions"));
        push_one(command_arguments, String::from_str("-XX:+UseG1GC"));
        push_one(command_arguments, String::from_str("-XX:G1NewSizePercent=20"));
        push_one(command_arguments, String::from_str("-XX:G1ReservePercent=20"));
        push_one(command_arguments, String::from_str("-XX:MaxGCPauseMillis=50"));
        push_one(command_arguments, String::from_str("-XX:G1HeapRegionSize=32M"));
        let mut token_prop = String::from_str("-Dnorisk.token=");
        token_prop.append(norisk_token);
        push_one(command_arguments, token_prop);
        let mut dev_prop = String::from_str("-Dnorisk.experimental=");
        dev_prop.append(bool_to_string(parameter.dev_mode).as_str());
        push_one(command_arguments, dev_prop);
        let custom = split_string_nonempty(&parameter.custom_java_args, ' ');
        push_all(command_arguments, &custom);
        proof {
            assert(seq_views(command_arguments@) =~= seq_views(old(command_arguments)@)
                + jvm_preamble(norisk_token@, *parameter));
        }
        let ghost after_preamble = seq_views(command_arguments@);
        match self {
            ArgumentDeclaration::V14(_) => {
                push_one(
                    command_arguments,
                    String::from_str("-Djava.library.path=${natives_directory}"),
                );
                push_one(command_arguments, String::from_str("-cp"));
                push_one(command_arguments, String::from_str("${classpath}"));
                proof {
                    assert(seq_views(command_arguments@) =~= after_preamble + jvm_tail(
                        *self,
                        *host,
                        features@,
                    ));
                }
            },
            ArgumentDeclaration::V21(decl) => {
                let res = ArgumentDeclaration::check_rules_and_add(
                    command_arguments,
                    &decl.arguments.jvm,
                    host,
                    features,
                );
                match res {
                    Ok(()) => (),
                    Err(e) => {
                        return Err(e);
                    },
                }
            },
        }
        proof {
            assert(seq_views(command_arguments@) =~= seq_views(old(command_arguments)@)
                + jvm_preamble(norisk_token@, *parameter) + jvm_tail(*self, *host, features@));
        }
        Ok(())
    }

    /// Append the game arguments for this schema. The legacy shape fails
    /// with a "no game arguments specified" condition when its argument
    /// string is absent, leaving the token list unchanged.
    pub fn add_game_args_to_vec(
        &self,
        command_arguments: &mut Vec<String>,
        host: &HostInfo,
        features: &Vec<String>,
    ) -> (r: Result<(), LauncherError>)
        ensures
            match *self {
                ArgumentDeclaration::V14(d) => r is Ok <==> d.minecraft_arguments is Some,
                ArgumentDeclaration::V21(_) => r is Ok,
            },
            r is Ok ==> seq_views(final(command_arguments)@) == seq_views(
                old(command_arguments)@,
            ) + game_args(*self, *host, features@),
            r is Err ==> *final(command_arguments) == *old(command_arguments),
            r matches Err(e) ==> e matches LauncherError::InvalidVersionProfile(m)
                && m@ == "no game arguments specified"@,
    {
        match self {
            ArgumentDeclaration::V14(decl) => {
                match &decl.minecraft_arguments {
                    Option::Some(line) => {
                        let tokens = split_string_nonempty(line, ' ');
                        push_all(command_arguments, &tokens);
                        Ok(())
                    },
                    Option::None => {
                        Err(
                            LauncherError::InvalidVersionProfile(
                                String::from_str("no game arguments specified"),
                            ),
                        )
                    },
                }
            },
            ArgumentDeclaration::V21(decl) => {
                ArgumentDeclaration::check_rules_and_add(
                    command_arguments,
                    &decl.arguments.game,
                    host,
                    features,
                )
            },
        }
    }
}

} // verus!
