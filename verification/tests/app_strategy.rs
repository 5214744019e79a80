use etcetera::app_strategy::{hyphenate, is_whitespace, lowercase, AppStrategyArgs, Xdg};
use etcetera::base_strategy;
use etcetera::environment::Environment;
use etcetera::path::join;
use etcetera::HomeDirError;
use std::path::Path;

fn frobnicator() -> AppStrategyArgs {
    AppStrategyArgs {
        top_level_domain: "org".to_string(),
        author: "Acme Corp".to_string(),
        app_name: "Frobnicator Plus".to_string(),
    }
}

fn named(app_name: &str) -> AppStrategyArgs {
    AppStrategyArgs { app_name: app_name.to_string(), ..AppStrategyArgs::default() }
}

fn app(home: &str) -> Xdg {
    Xdg::new(frobnicator(), Ok(home.to_string())).unwrap()
}

#[test]
fn app_config_dir_in_an_unset_environment() {
    let xdg = app("/home/u");
    let env = Environment::new();
    assert_eq!(xdg.config_dir(&env), "/home/u/.config/frobnicator-plus");
    assert_eq!(
        Path::new(&xdg.config_dir(&env)),
        Path::new("/home/u/.config/frobnicator-plus/")
    );
}

#[test]
fn app_dirs_in_an_unset_environment() {
    let xdg = app("/home/u");
    let env = Environment::new();
    assert_eq!(xdg.home_dir(), "/home/u");
    assert_eq!(xdg.data_dir(&env), "/home/u/.local/share/frobnicator-plus");
    assert_eq!(xdg.cache_dir(&env), "/home/u/.cache/frobnicator-plus");
    assert_eq!(xdg.state_dir(&env), Some("/home/u/.local/state/frobnicator-plus".to_string()));
    assert_eq!(xdg.runtime_dir(&env), None);
    assert_eq!(xdg.bin_dir(&env), "/home/u/.local/bin");
}

#[test]
fn app_dirs_below_absolute_overrides() {
    let xdg = app("/home/u");
    let mut env = Environment::new();
    env.set("XDG_CONFIG_HOME", "/my_config_location/");
    env.set("XDG_DATA_HOME", "/my_data_location/");
    env.set("XDG_CACHE_HOME", "/my_cache_location/");
    env.set("XDG_STATE_HOME", "/my_state_location/");
    env.set("XDG_RUNTIME_DIR", "/my_runtime_location/");
    assert_eq!(xdg.config_dir(&env), "/my_config_location/frobnicator-plus");
    assert_eq!(xdg.data_dir(&env), "/my_data_location/frobnicator-plus");
    assert_eq!(xdg.cache_dir(&env), "/my_cache_location/frobnicator-plus");
    assert_eq!(xdg.state_dir(&env), Some("/my_state_location/frobnicator-plus".to_string()));
    assert_eq!(xdg.runtime_dir(&env), Some("/my_runtime_location/frobnicator-plus".to_string()));
    assert_eq!(
        Path::new(&xdg.runtime_dir(&env).unwrap()),
        Path::new("/my_runtime_location//frobnicator-plus/")
    );
}

#[test]
fn app_dirs_below_overrides_without_trailing_separator() {
    let xdg = app("/home/u");
    let mut env = Environment::new();
    env.set("XDG_CONFIG_HOME", "/etc/myconf");
    env.set("XDG_RUNTIME_DIR", "/run/user/7");
    assert_eq!(xdg.config_dir(&env), "/etc/myconf/frobnicator-plus");
    assert_eq!(xdg.runtime_dir(&env), Some("/run/user/7/frobnicator-plus".to_string()));
}

#[test]
fn app_dirs_discard_relative_overrides() {
    let xdg = app("/home/u");
    let mut env = Environment::new();
    env.set("XDG_CONFIG_HOME", "relative_path/");
    env.set("XDG_DATA_HOME", "./another_one/");
    env.set("XDG_CACHE_HOME", "yet_another/");
    env.set("XDG_STATE_HOME", "./and_another");
    env.set("XDG_RUNTIME_DIR", "relative_path/");
    assert_eq!(xdg.config_dir(&env), "/home/u/.config/frobnicator-plus");
    assert_eq!(xdg.data_dir(&env), "/home/u/.local/share/frobnicator-plus");
    assert_eq!(xdg.cache_dir(&env), "/home/u/.cache/frobnicator-plus");
    assert_eq!(xdg.state_dir(&env), Some("/home/u/.local/state/frobnicator-plus".to_string()));
    assert_eq!(xdg.runtime_dir(&env), None);
}

#[test]
fn app_dirs_are_base_dirs_joined_with_the_name() {
    let base = base_strategy::Xdg::new(Ok("/home/u".to_string())).unwrap();
    let xdg = app("/home/u");
    let name = frobnicator().unixy_name();
    let mut env = Environment::new();
    env.set("XDG_DATA_HOME", "/srv/data");
    env.set("XDG_CACHE_HOME", "not/absolute");
    env.set("XDG_RUNTIME_DIR", "/run/user/7");
    assert_eq!(xdg.config_dir(&env), join(&base.config_dir(&env), &name));
    assert_eq!(xdg.data_dir(&env), join(&base.data_dir(&env), &name));
    assert_eq!(xdg.cache_dir(&env), join(&base.cache_dir(&env), &name));
    assert_eq!(xdg.state_dir(&env), base.state_dir(&env).map(|dir| join(&dir, &name)));
    assert_eq!(xdg.runtime_dir(&env), base.runtime_dir(&env).map(|dir| join(&dir, &name)));
}

#[test]
fn app_home_dir_is_the_base_home_dir() {
    let base = base_strategy::Xdg::new(Ok("/home/u".to_string())).unwrap();
    let xdg = app("/home/u");
    assert_eq!(xdg.home_dir(), base.home_dir());
    assert_eq!(xdg.home_dir(), "/home/u");
}

#[test]
fn app_passes_bin_dir_and_search_lists_through() {
    let base = base_strategy::Xdg::new(Ok("/home/u".to_string())).unwrap();
    let xdg = app("/home/u");
    let mut env = Environment::new();
    assert_eq!(xdg.bin_dir(&env), base.bin_dir(&env));
    assert_eq!(
        Xdg::data_dirs(&env),
        vec!["/usr/local/share/".to_string(), "/usr/share/".to_string()]
    );
    assert_eq!(Xdg::config_dirs(&env), vec!["/etc/xdg".to_string()]);
    env.set("XDG_BIN_HOME", "/opt/bin");
    env.set("XDG_DATA_DIRS", "/a:b");
    env.set("XDG_CONFIG_DIRS", "");
    assert_eq!(xdg.bin_dir(&env), "/opt/bin");
    assert_eq!(Xdg::data_dirs(&env), base_strategy::Xdg::data_dirs(&env));
    assert_eq!(Xdg::data_dirs(&env), vec!["/a".to_string(), "b".to_string()]);
    assert_eq!(Xdg::config_dirs(&env), vec![String::new()]);
}

#[test]
fn app_constructor_fails_with_the_home_directory() {
    assert_eq!(Xdg::new(frobnicator(), Err(HomeDirError)), Err(HomeDirError));
    assert_eq!(Xdg::new(frobnicator(), Ok("home/u".to_string())), Err(HomeDirError));
}

#[test]
fn app_with_a_blank_name_gets_the_base_dir_with_a_separator() {
    let xdg = Xdg::new(named("   "), Ok("/home/u".to_string())).unwrap();
    let env = Environment::new();
    assert_eq!(xdg.config_dir(&env), "/home/u/.config/");
    assert_eq!(xdg.state_dir(&env), Some("/home/u/.local/state/".to_string()));
    let env = {
        let mut env = Environment::new();
        env.set("XDG_CONFIG_HOME", "/etc/myconf");
        env
    };
    assert_eq!(xdg.config_dir(&env), "/etc/myconf/");
}

#[test]
fn app_strategies_compare_by_their_parts() {
    assert_eq!(app("/home/u"), app("/home/u").clone());
    assert_ne!(app("/home/u"), app("/home/v"));
    assert_ne!(app("/home/u"), Xdg::new(named("other"), Ok("/home/u".to_string())).unwrap());
}

#[test]
fn unixy_name_of_a_display_name() {
    assert_eq!(frobnicator().unixy_name(), "frobnicator-plus");
}

#[test]
fn unixy_name_collapses_and_strips_white_space() {
    assert_eq!(named("  Frobnicator \t\n Plus  ").unixy_name(), "frobnicator-plus");
    assert_eq!(named("A B C").unixy_name(), "a-b-c");
    assert_eq!(named("single").unixy_name(), "single");
    assert_eq!(named("Tab\tSeparated").unixy_name(), "tab-separated");
    assert_eq!(named("No\u{a0}Break\u{3000}Space").unixy_name(), "no-break-space");
}

#[test]
fn unixy_name_is_empty_only_of_a_blank_name() {
    assert_eq!(named("").unixy_name(), "");
    assert_eq!(named(" \t\r\n").unixy_name(), "");
    assert_ne!(named(" x ").unixy_name(), "");
    assert_ne!(named("-").unixy_name(), "");
}

#[test]
fn unixy_name_keeps_what_is_not_white_space() {
    assert_eq!(named("Already-Hyphenated Name").unixy_name(), "already-hyphenated-name");
    assert_eq!(named("under_score v2.0").unixy_name(), "under_score-v2.0");
}

#[test]
fn unixy_name_lowers_letters_beyond_ascii() {
    assert_eq!(named("\u{c9}diteur \u{c0} Gogo").unixy_name(), "\u{e9}diteur-\u{e0}-gogo");
    assert_eq!(named("\u{130}").unixy_name(), "i\u{307}");
}

#[test]
fn hyphenate_keeps_the_case() {
    assert_eq!(hyphenate("Frobnicator Plus"), "Frobnicator-Plus");
    assert_eq!(hyphenate("  a  b  "), "a-b");
    assert_eq!(hyphenate(""), "");
    assert_eq!(hyphenate("   "), "");
    assert_eq!(hyphenate("x"), "x");
}

#[test]
fn hyphenate_agrees_with_split_whitespace() {
    let samples = [
        "",
        " ",
        "a",
        " a",
        "a ",
        "a b",
        "a  b",
        "\ta\nb\rc ",
        "one two  three   four",
        "\u{2003}wide\u{2003}space\u{2003}",
        "mixed \u{85} next\u{2028}line",
    ];
    for sample in samples {
        let words: Vec<&str> = sample.split_whitespace().collect();
        assert_eq!(hyphenate(sample), words.join("-"), "{:?}", sample);
    }
}

#[test]
fn lowercase_maps_each_character() {
    assert_eq!(lowercase("Frobnicator-Plus"), "frobnicator-plus");
    assert_eq!(lowercase(""), "");
    assert_eq!(lowercase("ABC xyz 123"), "abc xyz 123");
    assert_eq!(lowercase("\u{c4}\u{d6}\u{dc}"), "\u{e4}\u{f6}\u{fc}");
}

#[test]
fn lowercase_agrees_with_the_standard_mapping_of_each_character() {
    let sample = "Hello, W\u{d6}RLD \u{130}\u{1f88} 42";
    let expected: String = sample.chars().flat_map(|c| c.to_lowercase()).collect();
    assert_eq!(lowercase(sample), expected);
}

#[test]
fn is_whitespace_agrees_with_the_standard_library_on_every_character() {
    let mut code: u32 = 0;
    while code <= 0x10FFFF {
        if let Some(c) = char::from_u32(code) {
            assert_eq!(is_whitespace(c), c.is_whitespace(), "U+{:04X}", code);
        }
        code += 1;
    }
}
