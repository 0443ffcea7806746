use nh::{
    Argument, CleanArgs, CleanArgsInput, CleanInput, CleanMode, CleanProfileArgs,
    CleanProfileInput, CleanProxy, CompletionArgs, CompletionInput, Duration, Environment,
    FlakeRef, ParseError, SearchArgs, SearchInput, Shell,
};
use std::path::PathBuf;

fn text(s: &str) -> Option<String> {
    Some(String::from(s))
}

fn search(query: &str) -> SearchInput {
    SearchInput { limit: None, channel: None, query: text(query), flake: None }
}

fn clean() -> CleanArgsInput {
    CleanArgsInput {
        keep: None,
        keep_since: None,
        dry: false,
        ask: false,
        nogc: false,
        nogcroots: false,
    }
}

fn invalid(argument: Argument, value: &str) -> ParseError {
    ParseError::InvalidValue { argument, value: String::from(value) }
}

#[test]
fn search_defaults_to_thirty_results_of_any_channel() {
    let args = SearchArgs::resolve(search("foo"), &Environment::empty()).unwrap();
    assert_eq!(
        args,
        SearchArgs { limit: 30, channel: None, query: String::from("foo"), flake: None }
    );
}

#[test]
fn search_takes_what_it_is_given() {
    let input = SearchInput {
        limit: text("5"),
        channel: text("nixos-unstable"),
        query: text("ripgrep"),
        flake: text("."),
    };
    let args = SearchArgs::resolve(input, &Environment::empty()).unwrap();
    assert_eq!(args.limit, 5);
    assert_eq!(args.channel.as_deref(), Some("nixos-unstable"));
    assert_eq!(args.query, "ripgrep");
    assert_eq!(args.flake, Some(FlakeRef::from(".")));
}

#[test]
fn search_reads_the_flake_of_the_environment() {
    let mut env = Environment::empty();
    env.flake = text("/etc/nixos");
    let args = SearchArgs::resolve(search("foo"), &env).unwrap();
    assert_eq!(args.flake, Some(FlakeRef::from("/etc/nixos")));
    let mut input = search("foo");
    input.flake = text("github:me/flake");
    let args = SearchArgs::resolve(input, &env).unwrap();
    assert_eq!(args.flake, Some(FlakeRef::from("github:me/flake")));
}

#[test]
fn search_limit_is_a_number_of_64_bits() {
    let mut input = search("foo");
    input.limit = text("18446744073709551615");
    assert_eq!(SearchArgs::resolve(input, &Environment::empty()).unwrap().limit, u64::MAX);
    let mut input = search("foo");
    input.limit = text("0");
    assert_eq!(SearchArgs::resolve(input, &Environment::empty()).unwrap().limit, 0);
    for bad in ["18446744073709551616", "many", "", "-3", "3.0"] {
        let mut input = search("foo");
        input.limit = text(bad);
        assert_eq!(
            SearchArgs::resolve(input, &Environment::empty()),
            Err(invalid(Argument::Limit, bad))
        );
    }
}

#[test]
fn search_needs_a_query() {
    let mut input = search("foo");
    input.query = None;
    assert_eq!(
        SearchArgs::resolve(input.clone(), &Environment::empty()),
        Err(ParseError::MissingArgument { argument: Argument::Query })
    );
    input.limit = text("x");
    assert_eq!(
        SearchArgs::resolve(input, &Environment::empty()),
        Err(invalid(Argument::Limit, "x"))
    );
}

#[test]
fn clean_profile_defaults_to_one_generation_of_any_age() {
    let input = CleanProfileInput {
        common: clean(),
        profile: Some(PathBuf::from("/nix/var/nix/profiles/system")),
    };
    let args = CleanProfileArgs::resolve(input).unwrap();
    assert_eq!(args.common.keep, 1);
    assert_eq!(args.common.keep_since, Duration { secs: 0, subsec_nanos: 0 });
    assert!(args.common.keep_since.is_zero());
    assert_eq!(args.profile, PathBuf::from("/nix/var/nix/profiles/system"));
    assert_eq!(
        args.common,
        CleanArgs {
            keep: 1,
            keep_since: Duration::zero(),
            dry: false,
            ask: false,
            nogc: false,
            nogcroots: false
        }
    );
}

#[test]
fn clean_default_age_is_what_zero_hours_reads_as() {
    let mut input = clean();
    input.keep_since = text("0h");
    assert_eq!(CleanArgs::resolve(input), CleanArgs::resolve(clean()));
}

#[test]
fn clean_takes_what_it_is_given() {
    let input = CleanArgsInput {
        keep: text("5"),
        keep_since: text("4d 2h"),
        dry: true,
        ask: true,
        nogc: true,
        nogcroots: true,
    };
    assert_eq!(
        CleanArgs::resolve(input),
        Ok(CleanArgs {
            keep: 5,
            keep_since: Duration { secs: 4 * 86400 + 2 * 3600, subsec_nanos: 0 },
            dry: true,
            ask: true,
            nogc: true,
            nogcroots: true
        })
    );
}

#[test]
fn clean_keep_is_a_number_of_32_bits() {
    let mut input = clean();
    input.keep = text("4294967295");
    assert_eq!(CleanArgs::resolve(input).unwrap().keep, u32::MAX);
    let mut input = clean();
    input.keep = text("0");
    assert_eq!(CleanArgs::resolve(input).unwrap().keep, 0);
    for bad in ["4294967296", "-1", "one", ""] {
        let mut input = clean();
        input.keep = text(bad);
        assert_eq!(CleanArgs::resolve(input), Err(invalid(Argument::Keep, bad)));
    }
}

#[test]
fn clean_keep_since_is_a_span_of_time() {
    for bad in ["soon", "", "5", "123456789012s"] {
        let mut input = clean();
        input.keep_since = text(bad);
        assert_eq!(CleanArgs::resolve(input), Err(invalid(Argument::KeepSince, bad)));
    }
}

#[test]
fn clean_reports_keep_before_keep_since() {
    let mut input = clean();
    input.keep = text("x");
    input.keep_since = text("y");
    assert_eq!(CleanArgs::resolve(input), Err(invalid(Argument::Keep, "x")));
}

#[test]
fn clean_assembles_what_was_read() {
    let mut input = clean();
    input.keep = text("7");
    input.keep_since = text("1h");
    input.nogc = true;
    let hour = Duration { secs: 3600, subsec_nanos: 0 };
    assert_eq!(
        CleanArgs::assemble(input.clone(), Some(7), Some(hour)),
        Ok(CleanArgs {
            keep: 7,
            keep_since: hour,
            dry: false,
            ask: false,
            nogc: true,
            nogcroots: false
        })
    );
    assert_eq!(
        CleanArgs::assemble(input.clone(), None, Some(hour)),
        Err(invalid(Argument::Keep, "7"))
    );
    assert_eq!(
        CleanArgs::assemble(input.clone(), Some(7), None),
        Err(invalid(Argument::KeepSince, "1h"))
    );
    assert_eq!(CleanArgs::assemble(input, None, None), Err(invalid(Argument::Keep, "7")));
}

#[test]
fn clean_assembles_defaults_where_nothing_was_given() {
    let hour = Duration { secs: 3600, subsec_nanos: 0 };
    let expected = CleanArgs {
        keep: 1,
        keep_since: Duration::zero(),
        dry: false,
        ask: false,
        nogc: false,
        nogcroots: false,
    };
    assert_eq!(CleanArgs::assemble(clean(), None, None), Ok(expected.clone()));
    assert_eq!(CleanArgs::assemble(clean(), Some(9), Some(hour)), Ok(expected));
}

#[test]
fn clean_profile_needs_a_profile() {
    let input = CleanProfileInput { common: clean(), profile: None };
    assert_eq!(
        CleanProfileArgs::resolve(input),
        Err(ParseError::MissingArgument { argument: Argument::Profile })
    );
    let mut common = clean();
    common.keep = text("x");
    let input = CleanProfileInput { common, profile: None };
    assert_eq!(CleanProfileArgs::resolve(input), Err(invalid(Argument::Keep, "x")));
}

#[test]
fn clean_command_keeps_the_choice() {
    let resolved = CleanArgs::resolve(clean()).unwrap();
    assert_eq!(CleanMode::resolve(CleanInput::All(clean())), Ok(CleanMode::All(resolved.clone())));
    assert_eq!(
        CleanMode::resolve(CleanInput::User(clean())),
        Ok(CleanMode::User(resolved.clone()))
    );
    let profile = CleanProfileInput { common: clean(), profile: Some(PathBuf::from("p")) };
    let proxy = CleanProxy::resolve(CleanInput::Profile(profile)).unwrap();
    assert_eq!(
        proxy.command(),
        &CleanMode::Profile(CleanProfileArgs { common: resolved.clone(), profile: PathBuf::from("p") })
    );
    assert_eq!(CleanProxy::new(CleanMode::All(resolved.clone())).command(), &CleanMode::All(resolved));
}

#[test]
fn completions_select_every_shell_by_its_name() {
    let shells = [
        ("bash", Shell::Bash),
        ("elvish", Shell::Elvish),
        ("fish", Shell::Fish),
        ("powershell", Shell::PowerShell),
        ("zsh", Shell::Zsh),
    ];
    for (name, shell) in shells {
        assert_eq!(
            CompletionArgs::resolve(CompletionInput { shell: text(name) }),
            Ok(CompletionArgs { shell })
        );
        assert_eq!(shell.name(), name);
        assert_eq!(
            CompletionArgs::resolve(CompletionInput { shell: text(shell.name()) }),
            Ok(CompletionArgs { shell })
        );
    }
}

#[test]
fn completions_refuse_what_is_no_shell() {
    for bad in ["", "Bash", "ZSH", "sh", "nushell", "bash ", "pwsh"] {
        assert_eq!(
            CompletionArgs::resolve(CompletionInput { shell: text(bad) }),
            Err(invalid(Argument::Shell, bad))
        );
    }
}

#[test]
fn completions_need_a_shell() {
    assert_eq!(
        CompletionArgs::resolve(CompletionInput { shell: None }),
        Err(ParseError::MissingArgument { argument: Argument::Shell })
    );
}
