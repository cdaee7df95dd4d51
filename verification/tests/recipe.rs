use xef::recipe::{
    generate_changelog, generate_config, generate_gitignore, generate_readme,
    generate_recipe_folder, join, Recipe, DEFAULT_BASE, DESCRIPTION, HELLO_TEXT, IGNORE_ENTRY,
    VERSION,
};

#[test]
fn recipe_path_is_derived_from_the_name() {
    let recipe = Recipe::new("demo");
    assert_eq!(recipe.name, "demo");
    assert_eq!(recipe.path, "./examples/demo");
}

#[test]
fn recipe_path_follows_the_given_base() {
    let recipe = Recipe::in_dir("/tmp/out", "demo");
    assert_eq!(recipe.name, "demo");
    assert_eq!(recipe.path, "/tmp/out/demo");
}

#[test]
fn fixed_values_are_as_documented() {
    assert_eq!(DEFAULT_BASE, "./examples");
    assert_eq!(VERSION, "0.1.0");
    assert_eq!(DESCRIPTION, "Example project");
    assert_eq!(IGNORE_ENTRY, ".DS_Store");
    assert_eq!(HELLO_TEXT, "Hello, {{ name }}!");
}

#[test]
fn join_puts_a_slash_between() {
    assert_eq!(join("./examples", "demo"), "./examples/demo");
    assert_eq!(join("", "x"), "/x");
    assert_eq!(join("a", ""), "a/");
}

#[test]
fn readme_names_recipe_and_path() {
    let file = generate_readme("demo", "./examples/demo");
    assert_eq!(file.path, "./examples/demo/README.md");
    assert_eq!(file.content, "# demo\n\nThis recipe lives in `./examples/demo`.\n");
}

#[test]
fn readme_takes_a_name_that_looks_like_a_placeholder() {
    let file = generate_readme("{{ path }}", "p");
    assert_eq!(file.content, "# {{ path }}\n\nThis recipe lives in `p`.\n");
}

#[test]
fn gitignore_holds_the_entry_exactly() {
    let file = generate_gitignore("./examples/demo", ".DS_Store");
    assert_eq!(file.path, "./examples/demo/.gitignore");
    assert_eq!(file.content, ".DS_Store");
}

#[test]
fn changelog_holds_heading_and_body() {
    let empty = generate_changelog("./examples/demo", "");
    assert_eq!(empty.path, "./examples/demo/CHANGELOG.md");
    assert_eq!(empty.content, "# Changelog\n\n");
    let filled = generate_changelog("./examples/demo", "- first entry\n");
    assert_eq!(filled.content, "# Changelog\n\n- first entry\n");
}

#[test]
fn config_holds_name_version_description_and_path() {
    let file = generate_config("./examples/demo", "demo");
    assert_eq!(file.path, "./examples/demo/config.toml");
    assert_eq!(
        file.content,
        "name = \"demo\"\nversion = \"0.1.0\"\ndescription = \"Example project\"\npath = \"./examples/demo\"\n"
    );
}

#[test]
fn config_contains_name_and_version_lines() {
    for name in ["demo", "", "a b", "x\"y", "{{ version }}"] {
        let file = generate_config("./examples/any", name);
        assert!(file.content.contains(&format!("name = \"{}\"", name)));
        assert!(file.content.contains("version = \"0.1.0\""));
    }
}

#[test]
fn recipe_folder_holds_hello_with_its_placeholder() {
    let (dir, file) = generate_recipe_folder("./examples/demo");
    assert_eq!(dir, "./examples/demo/recipe");
    assert_eq!(file.path, "./examples/demo/recipe/hello.md");
    assert_eq!(file.content, "Hello, {{ name }}!");
}
