use openv::config::{decide, Config, DEFAULT_CONFIG};
use openv::pattern::Pattern;
use openv::settings::{Document, Entry, Field, Setting};

fn sources(patterns: &Vec<Pattern>) -> Vec<String> {
    patterns.iter().map(|p| String::from(p.source())).collect()
}

fn load(text: &str) -> Config {
    Config::load(text).unwrap()
}

#[test]
fn validate_default_config() {
    Config::load(DEFAULT_CONFIG).expect("❌ default_config.toml is invalid TOML");
}

#[test]
fn default_config_holds_the_baseline_patterns() {
    let config = Config::load_default_config();
    assert_eq!(
        sources(&config.allow_commands),
        vec![
            "^npm (run )?(start|dev|build)",
            "^yarn (run )?(start|dev|build)",
            "^pnpm (run )?(start|dev|build)",
            "^bun (run )?(start|dev|build)",
        ]
    );
    assert!(config.deny_commands.is_empty());
    assert_eq!(config.disable_masking, None);
    assert!(config.permits("npm start"));
    assert!(config.permits("yarn run build --prod"));
    assert!(!config.permits("npm test"));
    assert!(!config.permits("pnpm"));
}

#[test]
fn load_reads_the_three_keys() {
    let config = load(
        "allow_commands = [\"^npm\", \"^yarn\"]\ndeny_commands = [\"install\"]\ndisable_masking = false\n",
    );
    assert_eq!(sources(&config.allow_commands), vec!["^npm", "^yarn"]);
    assert_eq!(sources(&config.deny_commands), vec!["install"]);
    assert_eq!(config.disable_masking, Some(false));
}

#[test]
fn load_reads_the_other_key_names() {
    let config = load("allowList = [\"^make\"]\ndenyList = [\"clean\"]\n");
    assert_eq!(sources(&config.allow_commands), vec!["^make"]);
    assert_eq!(sources(&config.deny_commands), vec!["clean"]);
    assert_eq!(config.disable_masking, None);
}

#[test]
fn first_key_name_wins_over_the_other() {
    let config = load("allowList = [\"^make\"]\nallow_commands = [\"^npm\"]\ndenyList = [\"x\"]\ndeny_commands = []\n");
    assert_eq!(sources(&config.allow_commands), vec!["^npm"]);
    assert!(config.deny_commands.is_empty());
}

#[test]
fn empty_text_sets_nothing() {
    let config = load("");
    assert!(config.allow_commands.is_empty());
    assert!(config.deny_commands.is_empty());
    assert_eq!(config.disable_masking, None);
}

#[test]
fn text_that_is_no_document_does_not_load() {
    assert!(Config::load("allow_commands = [\"a\"").is_none());
    assert!(Config::load("allow_commands").is_none());
    assert!(Config::load("a = 1\na = 2\n").is_none());
    assert!(Config::load("= true").is_none());
}

#[test]
fn malformed_pattern_is_dropped_and_the_rest_loads() {
    let config = load("allow_commands = [\"(\", \"npm run dev\", \"[a-\", \"^yarn\"]\ndeny_commands = [\"*oops\"]\n");
    assert_eq!(sources(&config.allow_commands), vec!["npm run dev", "^yarn"]);
    assert!(config.deny_commands.is_empty());
    assert!(config.permits("npm run dev"));
}

#[test]
fn entries_that_are_no_strings_are_dropped() {
    let config = load("allow_commands = [1, \"^npm\", true, [\"nested\"], \"^yarn\"]\n");
    assert_eq!(sources(&config.allow_commands), vec!["^npm", "^yarn"]);
}

#[test]
fn values_of_another_shape_count_as_unset() {
    let config = load("allow_commands = \"^npm\"\ndeny_commands = 3\ndisable_masking = \"yes\"\n[other]\nkey = 1\n");
    assert!(config.allow_commands.is_empty());
    assert!(config.deny_commands.is_empty());
    assert_eq!(config.disable_masking, None);
}

#[test]
fn merge_with_an_empty_local_level_keeps_the_global_one() {
    let global = load("allow_commands = [\"^npm\", \"^yarn\"]\ndeny_commands = [\"install\"]\ndisable_masking = true\n");
    for local in [None, Some(load("")), Some(load("allow_commands = []\ndeny_commands = []\n"))] {
        let merged = Config::merge(&global, &local);
        assert_eq!(sources(&merged.allow_commands), sources(&global.allow_commands));
        assert_eq!(sources(&merged.deny_commands), sources(&global.deny_commands));
        assert_eq!(merged.disable_masking, global.disable_masking);
    }
}

#[test]
fn merge_takes_each_list_that_the_local_level_sets() {
    let global = load("allow_commands = [\"^npm\"]\ndeny_commands = [\"install\"]\n");
    let only_allow = Config::merge(&global, &Some(load("allow_commands = [\"^make\"]\n")));
    assert_eq!(sources(&only_allow.allow_commands), vec!["^make"]);
    assert_eq!(sources(&only_allow.deny_commands), vec!["install"]);
    let only_deny = Config::merge(&global, &Some(load("deny_commands = [\"clean\", \"purge\"]\n")));
    assert_eq!(sources(&only_deny.allow_commands), vec!["^npm"]);
    assert_eq!(sources(&only_deny.deny_commands), vec!["clean", "purge"]);
}

#[test]
fn merge_takes_the_masking_flag_that_the_local_level_sets() {
    let unset = load("");
    let on = load("disable_masking = true\n");
    let off = load("disable_masking = false\n");
    assert_eq!(Config::merge(&unset, &Some(load("disable_masking = true\n"))).disable_masking, Some(true));
    assert_eq!(Config::merge(&on, &Some(load("disable_masking = false\n"))).disable_masking, Some(false));
    assert_eq!(Config::merge(&off, &Some(load(""))).disable_masking, Some(false));
    assert_eq!(Config::merge(&on, &None).disable_masking, Some(true));
    assert_eq!(Config::merge(&unset, &Some(load(""))).disable_masking, None);
}

#[test]
fn permits_needs_an_allow_match_and_no_deny_match() {
    let config = load("allow_commands = [\"^npm\", \"dev$\"]\ndeny_commands = [\"install\", \"^sudo\"]\n");
    assert!(config.permits("npm run build"));
    assert!(config.permits("yarn dev"));
    assert!(!config.permits("npm install"));
    assert!(!config.permits("sudo yarn dev"));
    assert!(!config.permits("yarn build"));
    assert!(!load("deny_commands = [\"x\"]\n").permits("npm run dev"));
}

#[test]
fn pattern_compiles_or_not() {
    assert!(Pattern::compile("(").is_none());
    assert!(Pattern::compile("a{2,1}").is_none());
    let pattern = Pattern::compile("^n(pm|ode) ").unwrap();
    assert_eq!(pattern.source(), "^n(pm|ode) ");
    assert!(pattern.is_match("npm run"));
    assert!(pattern.is_match("node x.js"));
    assert!(!pattern.is_match("pnpm run"));
    let copy = pattern.clone();
    assert_eq!(copy.source(), pattern.source());
    assert!(copy.is_match("npm run"));
}

#[test]
fn decision_table() {
    assert!(decide(true, false));
    assert!(!decide(true, true));
    assert!(!decide(false, true));
    assert!(!decide(false, false));
}

#[test]
fn config_of_a_document_built_by_hand() {
    let document = Document {
        fields: vec![
            Field {
                key: String::from("denyList"),
                value: Setting::List(vec![Entry::Text(String::from("clean")), Entry::Other]),
            },
            Field {
                key: String::from("allow_commands"),
                value: Setting::List(vec![
                    Entry::Text(String::from("^make")),
                    Entry::Text(String::from("(")),
                    Entry::Other,
                    Entry::Text(String::from("^ninja")),
                ]),
            },
            Field { key: String::from("disable_masking"), value: Setting::Flag(true) },
            Field { key: String::from("allowList"), value: Setting::Text(String::from("x")) },
        ],
    };
    let config = Config::from_document(&document);
    assert_eq!(sources(&config.allow_commands), vec!["^make", "^ninja"]);
    assert_eq!(sources(&config.deny_commands), vec!["clean"]);
    assert_eq!(config.disable_masking, Some(true));
    let empty = Config::from_document(&Document { fields: Vec::new() });
    assert!(empty.allow_commands.is_empty());
    assert!(empty.deny_commands.is_empty());
    assert_eq!(empty.disable_masking, None);
}
