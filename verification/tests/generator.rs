use std::collections::BTreeMap;
use xef::generator::{advance, start, start_in, step, Action, Error, Event, Notice, Stage};
use xef::recipe::GeneratedFile;

/// A directory tree in memory: `None` is a directory, `Some` a file's text.
type Tree = BTreeMap<String, Option<String>>;

fn perform(tree: &mut Tree, action: &Action) -> Event {
    match action {
        Action::CreateDir(path) => {
            if tree.contains_key(path) {
                Event::AlreadyExists
            } else {
                tree.insert(path.clone(), None);
                Event::Completed
            }
        }
        Action::WriteFile(file) => {
            tree.insert(file.path.clone(), Some(file.content.clone()));
            Event::Completed
        }
        Action::Finish(_) => Event::Completed,
    }
}

fn create(tree: &mut Tree, base: &str, name: &str) -> Result<(), Error> {
    let (mut state, mut action) = start_in(base, name);
    for _ in 0..8 {
        if let Action::Finish(outcome) = action {
            return outcome;
        }
        let event = perform(tree, &action);
        (state, action) = step(state, event);
    }
    panic!("the run did not end");
}

fn write(path: &str, content: &str) -> Action {
    Action::WriteFile(GeneratedFile { path: path.to_string(), content: content.to_string() })
}

fn demo_tree() -> Tree {
    let mut tree = Tree::new();
    tree.insert("./examples/demo".to_string(), None);
    tree.insert(
        "./examples/demo/README.md".to_string(),
        Some("# demo\n\nThis recipe lives in `./examples/demo`.\n".to_string()),
    );
    tree.insert("./examples/demo/.gitignore".to_string(), Some(".DS_Store".to_string()));
    tree.insert("./examples/demo/CHANGELOG.md".to_string(), Some("# Changelog\n\n".to_string()));
    tree.insert(
        "./examples/demo/config.toml".to_string(),
        Some(
            "name = \"demo\"\nversion = \"0.1.0\"\ndescription = \"Example project\"\npath = \"./examples/demo\"\n"
                .to_string(),
        ),
    );
    tree.insert("./examples/demo/recipe".to_string(), None);
    tree.insert(
        "./examples/demo/recipe/hello.md".to_string(),
        Some("Hello, {{ name }}!".to_string()),
    );
    tree
}

#[test]
fn run_for_demo_gives_seven_operations_in_order() {
    let (mut state, mut action) = start("demo");
    assert_eq!(state.recipe.name, "demo");
    assert_eq!(state.recipe.path, "./examples/demo");
    assert_eq!(state.stage, Stage::RootDir);
    let expected = vec![
        Action::CreateDir("./examples/demo".to_string()),
        write("./examples/demo/README.md", "# demo\n\nThis recipe lives in `./examples/demo`.\n"),
        write("./examples/demo/.gitignore", ".DS_Store"),
        write("./examples/demo/CHANGELOG.md", "# Changelog\n\n"),
        write(
            "./examples/demo/config.toml",
            "name = \"demo\"\nversion = \"0.1.0\"\ndescription = \"Example project\"\npath = \"./examples/demo\"\n",
        ),
        Action::CreateDir("./examples/demo/recipe".to_string()),
        write("./examples/demo/recipe/hello.md", "Hello, {{ name }}!"),
    ];
    for wanted in expected {
        assert_eq!(action, wanted);
        assert_eq!(state.action(), wanted);
        assert_eq!(state.outcome(), None);
        (state, action) = step(state, Event::Completed);
    }
    assert_eq!(action, Action::Finish(Ok(())));
    assert_eq!(state.stage, Stage::Done);
    assert_eq!(state.outcome(), Some(Ok(())));
}

#[test]
fn creation_of_demo_leaves_five_files_and_two_directories() {
    let mut tree = Tree::new();
    tree.insert("./examples".to_string(), None);
    tree.insert("./examples/other".to_string(), None);
    assert_eq!(create(&mut tree, "./examples", "demo"), Ok(()));
    let mut expected = demo_tree();
    expected.insert("./examples".to_string(), None);
    expected.insert("./examples/other".to_string(), None);
    assert_eq!(tree, expected);
    let files: Vec<&String> =
        tree.iter().filter(|(_, node)| node.is_some()).map(|(path, _)| path).collect();
    assert_eq!(files.len(), 5);
}

#[test]
fn second_creation_reports_directory_exists_and_overwrites_nothing() {
    let mut tree = Tree::new();
    assert_eq!(create(&mut tree, "./examples", "demo"), Ok(()));
    tree.insert("./examples/demo/README.md".to_string(), Some("edited by hand".to_string()));
    let before = tree.clone();
    assert_eq!(create(&mut tree, "./examples", "demo"), Err(Error::DirectoryExists));
    assert_eq!(tree, before);
}

#[test]
fn existing_directory_ends_the_run_at_once() {
    let (state, _) = start("demo");
    let (state, action) = step(state, Event::AlreadyExists);
    assert_eq!(action, Action::Finish(Err(Error::DirectoryExists)));
    assert_eq!(state.stage, Stage::Failed(Error::DirectoryExists));
    assert_eq!(state.outcome(), Some(Err(Error::DirectoryExists)));
    assert_eq!(state.notice(), None);
}

#[test]
fn existing_nested_folder_is_the_unimplemented_path() {
    let mut tree = Tree::new();
    tree.insert("./examples/demo/recipe".to_string(), None);
    assert_eq!(create(&mut tree, "./examples", "demo"), Err(Error::UnimplementedPath));
    assert!(tree.contains_key("./examples/demo/config.toml"));
    assert!(!tree.contains_key("./examples/demo/recipe/hello.md"));
}

#[test]
fn failure_of_any_operation_is_an_io_error() {
    for failing in 0..7 {
        let (mut state, mut action) = start("demo");
        for _ in 0..failing {
            (state, action) = step(state, Event::Completed);
        }
        assert!(!matches!(action, Action::Finish(_)));
        let (state, action) = step(state, Event::Failed);
        assert_eq!(action, Action::Finish(Err(Error::IOError)));
        assert_eq!(state.stage, Stage::Failed(Error::IOError));
    }
}

#[test]
fn advance_maps_each_answer() {
    let order = [
        Stage::RootDir,
        Stage::Readme,
        Stage::Gitignore,
        Stage::Changelog,
        Stage::Config,
        Stage::RecipeDir,
        Stage::Hello,
        Stage::Done,
    ];
    for pair in order.windows(2) {
        assert_eq!(advance(pair[0], Event::Completed), pair[1]);
        assert_eq!(advance(pair[0], Event::Failed), Stage::Failed(Error::IOError));
    }
    assert_eq!(advance(Stage::RootDir, Event::AlreadyExists), Stage::Failed(Error::DirectoryExists));
    assert_eq!(
        advance(Stage::RecipeDir, Event::AlreadyExists),
        Stage::Failed(Error::UnimplementedPath)
    );
    for stage in [Stage::Readme, Stage::Gitignore, Stage::Changelog, Stage::Config, Stage::Hello] {
        assert_eq!(advance(stage, Event::AlreadyExists), Stage::Failed(Error::IOError));
    }
}

#[test]
fn ended_run_stays_as_it_is() {
    for event in [Event::Completed, Event::AlreadyExists, Event::Failed] {
        assert_eq!(advance(Stage::Done, event), Stage::Done);
        for error in [Error::DirectoryExists, Error::IOError, Error::UnimplementedPath] {
            assert_eq!(advance(Stage::Failed(error), event), Stage::Failed(error));
        }
    }
}

#[test]
fn notices_come_at_four_stages() {
    let (mut state, _) = start("demo");
    let mut notices = Vec::new();
    for _ in 0..8 {
        notices.push(state.notice());
        (state, _) = step(state, Event::Completed);
    }
    assert_eq!(
        notices,
        vec![
            Some(Notice::Initializing),
            Some(Notice::CheckingRecipes),
            None,
            None,
            None,
            Some(Notice::GeneratingRecipe),
            None,
            Some(Notice::RunHint),
        ]
    );
}

#[test]
fn start_in_uses_the_given_base() {
    let (state, action) = start_in("/srv/recipes", "demo");
    assert_eq!(state.recipe.path, "/srv/recipes/demo");
    assert_eq!(action, Action::CreateDir("/srv/recipes/demo".to_string()));
}

#[test]
fn empty_name_is_taken_as_it_is() {
    let (_, action) = start("");
    assert_eq!(action, Action::CreateDir("./examples/".to_string()));
}
