//! A model of the directory tree, and what a run does to it.
//!
//! The model is a map from paths to what stands there. It knows two reasons
//! for an operation to fail: a directory that is to be created exists already,
//! or a file is to be written where a directory stands. Everything here is
//! stated of a file system that behaves like the model.

use crate::generator::{
    action_at, initial_state, is_final, next_stage, ActionView, Error, Event, GeneratorView,
    Stage,
};
use crate::recipe::{
    changelog_text, config_text, gitignore_text, joined, readme_text, RecipeView, DESCRIPTION,
    HELLO_TEXT, IGNORE_ENTRY, VERSION,
};
use vstd::prelude::*;

verus! {

/// What stands at a path.
pub enum Node {
    Directory,
    File(Seq<char>),
}

/// `path` is `dir` itself or lies below it.
pub open spec fn within(dir: Seq<char>, path: Seq<char>) -> bool {
    path == dir || (dir + seq!['/']).is_prefix_of(path)
}

/// Nothing stands at `dir` or below it.
pub open spec fn vacant(tree: Map<Seq<char>, Node>, dir: Seq<char>) -> bool {
    forall|path: Seq<char>| #[trigger] tree.contains_key(path) ==> !within(dir, path)
}

/// What carrying out `action` does to `tree`, and how the file system answers.
pub open spec fn perform(tree: Map<Seq<char>, Node>, action: ActionView) -> (
    Map<Seq<char>, Node>,
    Event,
) {
    match action {
        ActionView::CreateDir(path) => if tree.contains_key(path) {
            (tree, Event::AlreadyExists)
        } else {
            (tree.insert(path, Node::Directory), Event::Completed)
        },
        ActionView::WriteFile(file) => if tree.contains_key(file.path)
            && tree[file.path] is Directory {
            (tree, Event::Failed)
        } else {
            (tree.insert(file.path, Node::File(file.content)), Event::Completed)
        },
        ActionView::Finish(_) => (tree, Event::Completed),
    }
}

/// The number of operations that a run at `stage` has before it at most.
pub open spec fn operations_left(stage: Stage) -> nat {
    match stage {
        Stage::RootDir => 7,
        Stage::Readme => 6,
        Stage::Gitignore => 5,
        Stage::Changelog => 4,
        Stage::Config => 3,
        Stage::RecipeDir => 2,
        Stage::Hello => 1,
        Stage::Done => 0,
        Stage::Failed(_) => 0,
    }
}

/// How a run has ended.
pub open spec fn outcome_of(stage: Stage) -> Result<(), Error> {
    match stage {
        Stage::Failed(error) => Err(error),
        _ => Ok(()),
    }
}

/// The tree that a run from `stage` on leaves behind, and how the run ends.
pub open spec fn run_from(tree: Map<Seq<char>, Node>, recipe: RecipeView, stage: Stage) -> (
    Map<Seq<char>, Node>,
    Result<(), Error>,
)
    decreases operations_left(stage),
{
    if is_final(stage) {
        (tree, outcome_of(stage))
    } else {
        let (after, event) = perform(tree, action_at(recipe, stage));
        run_from(after, recipe, next_stage(stage, event))
    }
}

/// The tree that creating the recipe `name` under `base` leaves behind, and
/// how the creation ends.
pub open spec fn create(tree: Map<Seq<char>, Node>, base: Seq<char>, name: Seq<char>) -> (
    Map<Seq<char>, Node>,
    Result<(), Error>,
) {
    let state = initial_state(base, name);
    run_from(tree, state.recipe, state.stage)
}

/// The paths of the five files of the recipe in `path`.
pub open spec fn recipe_files(path: Seq<char>) -> Set<Seq<char>> {
    set![
        joined(path, "README.md"@),
        joined(path, ".gitignore"@),
        joined(path, "CHANGELOG.md"@),
        joined(path, "config.toml"@),
        joined(joined(path, "recipe"@), "hello.md"@),
    ]
}

/// The tree that holds, on top of `tree`, the complete recipe `name` in `path`.
pub open spec fn with_recipe(tree: Map<Seq<char>, Node>, name: Seq<char>, path: Seq<char>) -> Map<
    Seq<char>,
    Node,
> {
    let folder = joined(path, "recipe"@);
    tree.insert(path, Node::Directory).insert(
        joined(path, "README.md"@),
        Node::File(readme_text(name, path)),
    ).insert(joined(path, ".gitignore"@), Node::File(gitignore_text(IGNORE_ENTRY@))).insert(
        joined(path, "CHANGELOG.md"@),
        Node::File(changelog_text(Seq::empty())),
    ).insert(
        joined(path, "config.toml"@),
        Node::File(config_text(name, path, VERSION@, DESCRIPTION@)),
    ).insert(folder, Node::Directory).insert(joined(folder, "hello.md"@), Node::File(HELLO_TEXT@))
}

/// The paths that a run creates, in the order in which it creates them: the
/// recipe's directory, four files, the nested folder and its file.
pub open spec fn recipe_paths(path: Seq<char>) -> Seq<Seq<char>> {
    let folder = joined(path, "recipe"@);
    seq![
        path,
        joined(path, "README.md"@),
        joined(path, ".gitignore"@),
        joined(path, "CHANGELOG.md"@),
        joined(path, "config.toml"@),
        folder,
        joined(folder, "hello.md"@),
    ]
}

/// No two of the paths that a run creates are the same, and all of them lie
/// in the recipe's directory.
pub proof fn lemma_paths(path: Seq<char>)
    ensures
        recipe_paths(path).no_duplicates(),
        forall|i: int| 0 <= i < 7 ==> within(path, #[trigger] recipe_paths(path)[i]),
{
    reveal_strlit("recipe");
    reveal_strlit("README.md");
    reveal_strlit(".gitignore");
    reveal_strlit("CHANGELOG.md");
    reveal_strlit("config.toml");
    reveal_strlit("hello.md");
}

/// Creating a recipe whose directory is vacant succeeds. It adds to the tree
/// the recipe's directory, the nested folder and exactly five files, each
/// with the text that belongs in it, and changes nothing else.
pub proof fn lemma_create_fresh(tree: Map<Seq<char>, Node>, base: Seq<char>, name: Seq<char>)
    requires
        vacant(tree, joined(base, name)),
    ensures
        ({
            let path = joined(base, name);
            let (after, outcome) = create(tree, base, name);
            &&& outcome == Ok::<(), Error>(())
            &&& after == with_recipe(tree, name, path)
            &&& forall|p: Seq<char>|
                after.contains_key(p) && !tree.contains_key(p) && after[p] is File
                    <==> recipe_files(path).contains(p)
            &&& recipe_files(path).len() == 5
            &&& forall|p: Seq<char>| tree.contains_key(p) ==> after.contains_key(p) && after[p] == tree[p]
        }),
{
    let path = joined(base, name);
    let paths = recipe_paths(path);
    lemma_paths(path);
    assert(forall|i: int| 0 <= i < 7 ==> !tree.contains_key(#[trigger] paths[i]));
    reveal_with_fuel(run_from, 8);
    lemma_five_files(path);
}

/// The five files of a recipe are five.
pub proof fn lemma_five_files(path: Seq<char>)
    ensures
        recipe_files(path).len() == 5,
        recipe_files(path).finite(),
{
    lemma_paths(path);
}

/// A run removes no path from the tree.
pub proof fn lemma_run_keeps_paths(
    tree: Map<Seq<char>, Node>,
    recipe: RecipeView,
    stage: Stage,
    path: Seq<char>,
)
    requires
        tree.contains_key(path),
    ensures
        run_from(tree, recipe, stage).0.contains_key(path),
    decreases operations_left(stage),
{
    if !is_final(stage) {
        let (after, event) = perform(tree, action_at(recipe, stage));
        lemma_run_keeps_paths(after, recipe, next_stage(stage, event), path);
    }
}

/// After a recipe was created, or could not be created, its directory
/// stands in the tree.
pub proof fn lemma_create_leaves_directory(
    tree: Map<Seq<char>, Node>,
    base: Seq<char>,
    name: Seq<char>,
)
    ensures
        create(tree, base, name).0.contains_key(joined(base, name)),
{
    let path = joined(base, name);
    let recipe = RecipeView { name, path };
    let (after, event) = perform(tree, action_at(recipe, Stage::RootDir));
    lemma_run_keeps_paths(after, recipe, next_stage(Stage::RootDir, event), path);
}

/// Creating a recipe whose directory exists fails with `DirectoryExists`
/// and leaves the tree as it is.
pub proof fn lemma_create_existing(tree: Map<Seq<char>, Node>, base: Seq<char>, name: Seq<char>)
    requires
        tree.contains_key(joined(base, name)),
    ensures
        create(tree, base, name) == (tree, Err::<(), Error>(Error::DirectoryExists)),
{
    let path = joined(base, name);
    let recipe = RecipeView { name, path };
    assert(run_from(tree, recipe, Stage::Failed(Error::DirectoryExists)) == (
        tree,
        Err::<(), Error>(Error::DirectoryExists),
    ));
}

/// Creating the same recipe a second time fails with `DirectoryExists` and
/// changes nothing of what the first creation left behind.
pub proof fn lemma_create_twice(tree: Map<Seq<char>, Node>, base: Seq<char>, name: Seq<char>)
    ensures
        ({
            let first = create(tree, base, name);
            create(first.0, base, name) == (first.0, Err::<(), Error>(Error::DirectoryExists))
        }),
{
    lemma_create_leaves_directory(tree, base, name);
    lemma_create_existing(create(tree, base, name).0, base, name);
}

} // verus!
