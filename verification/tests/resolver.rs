use chief::grammar::CommandSpec;
use chief::resolver::{resolve, ResolvedCommand};

fn argv(words: &[&str]) -> Vec<String> {
    words.iter().map(|w| w.to_string()).collect()
}

#[test]
fn resolves_run_dev() {
    assert_eq!(resolve(&argv(&["run", "dev"])), ResolvedCommand::RunDev);
}

#[test]
fn resolves_run_prod() {
    assert_eq!(resolve(&argv(&["run", "prod"])), ResolvedCommand::RunProd);
}

#[test]
fn resolves_test() {
    assert_eq!(resolve(&argv(&["test"])), ResolvedCommand::Test);
}

#[test]
fn resolves_plain_build() {
    assert_eq!(resolve(&argv(&["build"])), ResolvedCommand::Build { release: false });
}

#[test]
fn resolves_build_with_long_flag() {
    assert_eq!(resolve(&argv(&["build", "--release"])), ResolvedCommand::Build { release: true });
}

#[test]
fn resolves_build_with_short_flag() {
    assert_eq!(resolve(&argv(&["build", "-r"])), ResolvedCommand::Build { release: true });
}

#[test]
fn resolves_clean() {
    assert_eq!(resolve(&argv(&["clean"])), ResolvedCommand::Clean);
}

#[test]
fn empty_vector_is_unrecognized() {
    assert_eq!(resolve(&argv(&[])), ResolvedCommand::Unrecognized);
}

#[test]
fn unknown_first_token_is_unrecognized() {
    for first in ["deploy", "", "Run", "RUN", "run ", " run", "tests", "--release", "-r", "dev", "prod", "cargo"] {
        assert_eq!(resolve(&argv(&[first])), ResolvedCommand::Unrecognized, "{:?}", first);
        assert_eq!(resolve(&argv(&[first, "dev"])), ResolvedCommand::Unrecognized, "{:?}", first);
        assert_eq!(
            resolve(&argv(&[first, "build", "--release"])),
            ResolvedCommand::Unrecognized,
            "{:?}",
            first
        );
    }
}

#[test]
fn bare_run_is_unrecognized() {
    assert_eq!(resolve(&argv(&["run"])), ResolvedCommand::Unrecognized);
}

#[test]
fn run_with_unknown_mode_is_unrecognized() {
    for mode in ["staging", "", "Dev", "production", "run", "test", "--release"] {
        assert_eq!(resolve(&argv(&["run", mode])), ResolvedCommand::Unrecognized, "{:?}", mode);
        assert_eq!(resolve(&argv(&["run", mode, "dev"])), ResolvedCommand::Unrecognized, "{:?}", mode);
    }
}

#[test]
fn run_mode_takes_no_further_token() {
    assert_eq!(resolve(&argv(&["run", "dev", "prod"])), ResolvedCommand::Unrecognized);
    assert_eq!(resolve(&argv(&["run", "prod", "--release"])), ResolvedCommand::Unrecognized);
    assert_eq!(resolve(&argv(&["run", "dev", ""])), ResolvedCommand::Unrecognized);
}

#[test]
fn test_and_clean_take_no_further_token() {
    assert_eq!(resolve(&argv(&["test", "unit"])), ResolvedCommand::Unrecognized);
    assert_eq!(resolve(&argv(&["test", "--release"])), ResolvedCommand::Unrecognized);
    assert_eq!(resolve(&argv(&["clean", "all"])), ResolvedCommand::Unrecognized);
    assert_eq!(resolve(&argv(&["clean", "-r"])), ResolvedCommand::Unrecognized);
}

#[test]
fn build_flag_counts_in_any_position() {
    let release = ResolvedCommand::Build { release: true };
    assert_eq!(resolve(&argv(&["build", "x", "--release"])), release);
    assert_eq!(resolve(&argv(&["build", "--release", "x"])), release);
    assert_eq!(resolve(&argv(&["build", "x", "y", "-r"])), release);
    assert_eq!(resolve(&argv(&["build", "x", "-r", "y"])), release);
    assert_eq!(resolve(&argv(&["build", "-r", "--release"])), release);
    assert_eq!(resolve(&argv(&["build", "--release", "-r"])), release);
    assert_eq!(resolve(&argv(&["build", "-r", "-r"])), release);
}

#[test]
fn build_flag_order_is_irrelevant() {
    let rest = ["a", "-r", "b", "c"];
    let expected = ResolvedCommand::Build { release: true };
    for i in 0..rest.len() {
        let mut words = vec!["build"];
        for k in 0..rest.len() {
            words.push(rest[(i + k) % rest.len()]);
        }
        assert_eq!(resolve(&argv(&words)), expected, "{:?}", words);
        words[1..].reverse();
        assert_eq!(resolve(&argv(&words)), expected, "{:?}", words);
    }
}

#[test]
fn build_without_flag_is_plain_whatever_follows() {
    let plain = ResolvedCommand::Build { release: false };
    assert_eq!(resolve(&argv(&["build", "x"])), plain);
    assert_eq!(resolve(&argv(&["build", "release"])), plain);
    assert_eq!(resolve(&argv(&["build", "-release"])), plain);
    assert_eq!(resolve(&argv(&["build", "--releas"])), plain);
    assert_eq!(resolve(&argv(&["build", "--release "])), plain);
    assert_eq!(resolve(&argv(&["build", "--Release"])), plain);
    assert_eq!(resolve(&argv(&["build", "-R"])), plain);
    assert_eq!(resolve(&argv(&["build", "-rr"])), plain);
    assert_eq!(resolve(&argv(&["build", "-"])), plain);
    assert_eq!(resolve(&argv(&["build", "--"])), plain);
    assert_eq!(resolve(&argv(&["build", "", "dev"])), plain);
}

#[test]
fn flag_before_build_does_not_count() {
    assert_eq!(resolve(&argv(&["--release", "build"])), ResolvedCommand::Unrecognized);
    assert_eq!(resolve(&argv(&["-r", "build"])), ResolvedCommand::Unrecognized);
}

#[test]
fn release_flag_belongs_to_build_alone() {
    for words in [
        vec!["test", "--release"],
        vec!["clean", "-r"],
        vec!["run", "dev", "--release"],
        vec!["run", "--release"],
        vec!["--release"],
    ] {
        let resolved = resolve(&argv(&words));
        assert!(!matches!(resolved, ResolvedCommand::Build { .. }), "{:?}", words);
    }
}

#[test]
fn resolution_is_repeatable() {
    let words = argv(&["build", "-r"]);
    let first = resolve(&words);
    let second = resolve(&words);
    assert_eq!(first, second);
    assert_eq!(words, argv(&["build", "-r"]));
}

#[test]
fn grammar_resolves_like_the_free_function() {
    let grammar = CommandSpec::standard("chief", "1.0.0");
    for words in [
        vec![],
        vec!["run"],
        vec!["run", "dev"],
        vec!["run", "prod"],
        vec!["run", "dev", "x"],
        vec!["test"],
        vec!["test", "x"],
        vec!["build"],
        vec!["build", "x", "-r"],
        vec!["clean"],
        vec!["help"],
    ] {
        let tokens = argv(&words);
        assert_eq!(grammar.resolve(&tokens), resolve(&tokens), "{:?}", words);
    }
}

#[test]
fn non_ascii_tokens_are_compared_by_characters() {
    assert_eq!(resolve(&argv(&["build", "\u{2212}r"])), ResolvedCommand::Build { release: false });
    assert_eq!(resolve(&argv(&["build", "-\u{e9}"])), ResolvedCommand::Build { release: false });
    assert_eq!(resolve(&argv(&["t\u{e9}st"])), ResolvedCommand::Unrecognized);
}
