use nh::{
    make_style, AnsiColor, Argument, CleanArgsInput, CleanInput, CleanMode, CleanProfileInput,
    CleanProxy, CommandInput, CompletionArgs, CompletionInput, Config, Environment, HomeArgs,
    HomeInput, HomeRebuildInput, NHCommand, NHParser, NHRunnable, OsArgs, OsInput,
    OsRebuildInput, ParseError, ParserInput, RebuildInput, ReplInput, SearchArgs, SearchInput,
    Shell, Style, Task, TaskKind,
};
use std::path::PathBuf;

fn text(s: &str) -> Option<String> {
    Some(String::from(s))
}

fn plain() -> RebuildInput {
    RebuildInput {
        dry: false,
        ask: false,
        update: false,
        pull: false,
        no_nom: false,
        diff_provider: None,
        out_link: None,
    }
}

fn os_input() -> OsRebuildInput {
    OsRebuildInput {
        common: plain(),
        flakeref: None,
        hostname: None,
        specialisation: None,
        no_specialisation: false,
        extra_args: Vec::new(),
        bypass_root_check: false,
    }
}

fn home_input() -> HomeRebuildInput {
    HomeRebuildInput {
        common: plain(),
        flakeref: None,
        configuration: None,
        extra_args: Vec::new(),
        backup_extension: None,
    }
}

fn clean() -> CleanArgsInput {
    CleanArgsInput {
        keep: None,
        keep_since: None,
        dry: false,
        ask: false,
        nogc: false,
        nogcroots: false,
    }
}

fn line(command: CommandInput) -> ParserInput {
    ParserInput { verbose: false, elevation_program: None, command }
}

fn config() -> Config {
    Config::from_home("/home/alice")
}

fn every_command() -> Vec<(CommandInput, TaskKind)> {
    let repl = ReplInput {
        flakeref: text("."),
        hostname: None,
        configuration: None,
        extra_args: Vec::new(),
    };
    let search =
        SearchInput { limit: None, channel: None, query: text("foo"), flake: None };
    let profile = CleanProfileInput { common: clean(), profile: Some(PathBuf::from("p")) };
    vec![
        (CommandInput::Os(OsInput::Switch(os_input())), TaskKind::OsSwitch),
        (CommandInput::Os(OsInput::Boot(os_input())), TaskKind::OsBoot),
        (CommandInput::Os(OsInput::Test(os_input())), TaskKind::OsTest),
        (CommandInput::Os(OsInput::Build(os_input())), TaskKind::OsBuild),
        (CommandInput::Os(OsInput::Repl(repl)), TaskKind::OsRepl),
        (CommandInput::Os(OsInput::Info), TaskKind::OsInfo),
        (CommandInput::Home(HomeInput::Switch(home_input())), TaskKind::HomeSwitch),
        (CommandInput::Home(HomeInput::Build(home_input())), TaskKind::HomeBuild),
        (CommandInput::Home(HomeInput::Info), TaskKind::HomeInfo),
        (CommandInput::Search(search), TaskKind::Search),
        (CommandInput::Clean(CleanInput::All(clean())), TaskKind::CleanAll),
        (CommandInput::Clean(CleanInput::User(clean())), TaskKind::CleanUser),
        (CommandInput::Clean(CleanInput::Profile(profile)), TaskKind::CleanProfile),
        (CommandInput::Completions(CompletionInput { shell: text("fish") }), TaskKind::Completions),
    ]
}

fn harness<T: NHRunnable>(runnable: &T) -> TaskKind {
    runnable.run().kind()
}

#[test]
fn every_command_runs_through_one_call() {
    let env = Environment::empty();
    for (input, kind) in every_command() {
        let parser = NHParser::resolve(line(input), &env, &config()).unwrap();
        assert_eq!(harness(&parser.command), kind);
        match &parser.command {
            NHCommand::Os(args) => assert_eq!(harness(args), kind),
            NHCommand::Home(args) => assert_eq!(harness(args), kind),
            NHCommand::Search(args) => assert_eq!(harness(args), kind),
            NHCommand::Clean(proxy) => {
                assert_eq!(harness(proxy), kind);
                assert_eq!(harness(proxy.command()), kind);
            }
            NHCommand::Completions(args) => assert_eq!(harness(args), kind),
        }
    }
}

#[test]
fn run_hands_out_the_arguments_of_the_command() {
    let env = Environment::empty();
    let search = SearchArgs::resolve(
        SearchInput { limit: text("3"), channel: None, query: text("jq"), flake: None },
        &env,
    )
    .unwrap();
    assert_eq!(search.run(), Task::Search(&search));
    assert_eq!(NHCommand::Search(search.clone()).run(), Task::Search(&search));
    let completions = CompletionArgs { shell: Shell::Zsh };
    assert_eq!(NHCommand::Completions(completions).run(), Task::Completions(&completions));
    let os = OsArgs::resolve(OsInput::Boot(os_input()), &env, &config()).unwrap();
    match os.run() {
        Task::OsBoot(args) => assert_eq!(args.flakeref.as_str(), "/home/alice/.config/nixos"),
        other => panic!("unexpected task {:?}", other),
    }
    let home = HomeArgs::resolve(HomeInput::Info, &env, &config()).unwrap();
    assert_eq!(home.run(), Task::HomeInfo);
}

#[test]
fn clean_proxy_runs_what_its_choice_runs() {
    let profile = CleanProfileInput { common: clean(), profile: Some(PathBuf::from("p")) };
    for input in [CleanInput::All(clean()), CleanInput::User(clean()), CleanInput::Profile(profile)]
    {
        let mode = CleanMode::resolve(input).unwrap();
        let proxy = CleanProxy::new(mode.clone());
        assert_eq!(proxy.run(), mode.run());
        assert_eq!(NHCommand::Clean(proxy.clone()).run(), mode.run());
    }
}

#[test]
fn command_line_carries_its_global_arguments() {
    let env = Environment::empty();
    let mut input = line(CommandInput::Os(OsInput::Info));
    input.verbose = true;
    input.elevation_program = text("doas");
    let parser = NHParser::resolve(input, &env, &config()).unwrap();
    assert!(parser.verbose);
    assert_eq!(parser.elevation_program.as_deref(), Some("doas"));
    assert_eq!(parser.command, NHCommand::Os(OsArgs::resolve(OsInput::Info, &env, &config()).unwrap()));
}

#[test]
fn elevation_program_comes_from_the_environment_when_not_given() {
    let mut env = Environment::empty();
    let parser = NHParser::resolve(line(CommandInput::Home(HomeInput::Info)), &env, &config());
    assert_eq!(parser.unwrap().elevation_program, None);
    env.elevation_program = text("sudo");
    let parser = NHParser::resolve(line(CommandInput::Home(HomeInput::Info)), &env, &config());
    assert_eq!(parser.unwrap().elevation_program.as_deref(), Some("sudo"));
    let mut input = line(CommandInput::Home(HomeInput::Info));
    input.elevation_program = text("doas");
    let parser = NHParser::resolve(input, &env, &config());
    assert_eq!(parser.unwrap().elevation_program.as_deref(), Some("doas"));
}

#[test]
fn refused_command_line_yields_the_fault_only() {
    let mut home = home_input();
    home.flakeref = text(".");
    home.configuration = text("alice@laptop");
    let mut input = line(CommandInput::Home(HomeInput::Switch(home)));
    input.verbose = true;
    assert_eq!(
        NHParser::resolve(input, &Environment::empty(), &config()),
        Err(ParseError::Conflict { first: Argument::Configuration, second: Argument::Flakeref })
    );
    let input = line(CommandInput::Completions(CompletionInput { shell: text("csh") }));
    assert_eq!(
        NHParser::resolve(input, &Environment::empty(), &config()),
        Err(ParseError::InvalidValue { argument: Argument::Shell, value: String::from("csh") })
    );
}

#[test]
fn faults_tell_the_user_what_is_wrong() {
    assert_eq!(
        ParseError::Conflict { first: Argument::Configuration, second: Argument::Flakeref }
            .message(),
        "the argument '--configuration' cannot be used with '[FLAKEREF]'"
    );
    assert_eq!(
        ParseError::Conflict {
            first: Argument::Specialisation,
            second: Argument::NoSpecialisation
        }
        .message(),
        "the argument '--specialisation' cannot be used with '--no-specialisation'"
    );
    assert_eq!(
        ParseError::MissingArgument { argument: Argument::Query }.message(),
        "the following required argument was not provided: <QUERY>"
    );
    assert_eq!(
        ParseError::InvalidValue { argument: Argument::KeepSince, value: String::from("soon") }
            .message(),
        "invalid value 'soon' for '--keep-since'"
    );
}

#[test]
fn arguments_have_their_names() {
    let names = [
        (Argument::Flakeref, "[FLAKEREF]"),
        (Argument::Configuration, "--configuration"),
        (Argument::Specialisation, "--specialisation"),
        (Argument::NoSpecialisation, "--no-specialisation"),
        (Argument::BypassRootCheck, "--bypass-root-check"),
        (Argument::Limit, "--limit"),
        (Argument::Query, "<QUERY>"),
        (Argument::Keep, "--keep"),
        (Argument::KeepSince, "--keep-since"),
        (Argument::Profile, "<PROFILE>"),
        (Argument::Shell, "--shell"),
    ];
    for (argument, name) in names {
        assert_eq!(argument.name(), name);
    }
}

#[test]
fn help_is_styled_in_bold_and_yellow() {
    let styles = make_style();
    assert_eq!(styles.header, Style { bold: true, fg_color: None });
    assert_eq!(styles.literal, Style { bold: true, fg_color: Some(AnsiColor::Yellow) });
}
