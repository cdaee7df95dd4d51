//! A recipe and the text of the files that are generated for it.

use crate::template::{
    is_key, is_plain, lemma_render_field, lemma_render_tail, placeholder, render, rendered,
    Context,
};
use vstd::prelude::*;

verus! {

/// The directory under which recipes are created unless another is given.
pub const DEFAULT_BASE: &'static str = "./examples";

/// The version written into a new recipe's configuration.
pub const VERSION: &'static str = "0.1.0";

/// The description written into a new recipe's configuration.
pub const DESCRIPTION: &'static str = "Example project";

/// The one entry of a new recipe's `.gitignore`.
pub const IGNORE_ENTRY: &'static str = ".DS_Store";

/// The template of a recipe's `README.md`.
pub const README_TEMPLATE: &'static str = "# {{ name }}\n\nThis recipe lives in `{{ path }}`.\n";

/// The template of a recipe's `.gitignore`.
pub const GITIGNORE_TEMPLATE: &'static str = "{{ content }}";

/// The template of a recipe's `CHANGELOG.md`.
pub const CHANGELOG_TEMPLATE: &'static str = "# Changelog\n\n{{ content }}";

/// The template of a recipe's `config.toml`.
pub const CONFIG_TEMPLATE: &'static str =
    "name = \"{{ name }}\"\nversion = \"{{ version }}\"\ndescription = \"{{ description }}\"\npath = \"{{ path }}\"\n";

/// The text of a recipe's `recipe/hello.md`. Its placeholder is written out as
/// it stands here: the file is not rendered.
pub const HELLO_TEXT: &'static str = "Hello, {{ name }}!";

/// A recipe: a named project scaffold and the directory that holds it.
#[derive(Debug, PartialEq, Eq)]
pub struct Recipe {
    pub name: String,
    pub path: String,
}

/// A recipe as plain text values.
pub struct RecipeView {
    pub name: Seq<char>,
    pub path: Seq<char>,
}

impl View for Recipe {
    type V = RecipeView;

    open spec fn view(&self) -> RecipeView {
        RecipeView { name: self.name@, path: self.path@ }
    }
}

/// A file to write: where, and what it holds.
#[derive(Debug, PartialEq, Eq)]
pub struct GeneratedFile {
    pub path: String,
    pub content: String,
}

/// A file to write as plain text values.
pub struct GeneratedFileView {
    pub path: Seq<char>,
    pub content: Seq<char>,
}

impl View for GeneratedFile {
    type V = GeneratedFileView;

    open spec fn view(&self) -> GeneratedFileView {
        GeneratedFileView { path: self.path@, content: self.content@ }
    }
}

/// The path of the entry `leaf` of the directory `dir`.
pub open spec fn joined(dir: Seq<char>, leaf: Seq<char>) -> Seq<char> {
    dir + seq!['/'] + leaf
}

/// The path of the entry `leaf` of the directory `dir`.
pub fn join(dir: &str, leaf: &str) -> (path: String)
    ensures
        path@ == joined(dir@, leaf@),
{
    let mut path = dir.to_owned();
    path.append("/");
    path.append(leaf);
    proof {
        reveal_strlit("/");
    }
    path
}

impl Recipe {
    /// The recipe `name` under the default base directory.
    pub fn new(name: &str) -> (recipe: Recipe)
        ensures
            recipe@.name == name@,
            recipe@.path == joined(DEFAULT_BASE@, name@),
    {
        Recipe::in_dir(DEFAULT_BASE, name)
    }

    /// The recipe `name` under the directory `base`.
    pub fn in_dir(base: &str, name: &str) -> (recipe: Recipe)
        ensures
            recipe@.name == name@,
            recipe@.path == joined(base@, name@),
    {
        Recipe { name: name.to_owned(), path: join(base, name) }
    }
}

/// What `README.md` holds for a recipe of the given name and path.
pub open spec fn readme_text(name: Seq<char>, path: Seq<char>) -> Seq<char> {
    "# "@ + name + "\n\nThis recipe lives in `"@ + path + "`.\n"@
}

/// What `.gitignore` holds for the given entry.
pub open spec fn gitignore_text(content: Seq<char>) -> Seq<char> {
    content
}

/// What `CHANGELOG.md` holds for the given body.
pub open spec fn changelog_text(content: Seq<char>) -> Seq<char> {
    "# Changelog\n\n"@ + content
}

/// What `config.toml` holds for the given values.
pub open spec fn config_text(
    name: Seq<char>,
    path: Seq<char>,
    version: Seq<char>,
    description: Seq<char>,
) -> Seq<char> {
    "name = \""@ + name + "\"\nversion = \""@ + version + "\"\ndescription = \""@ + description
        + "\"\npath = \""@ + path + "\"\n"@
}

/// `part` stands in `text` at position `i`.
pub open spec fn occurs_at(text: Seq<char>, part: Seq<char>, i: int) -> bool {
    0 <= i && i + part.len() <= text.len() && text.subrange(i, i + part.len()) == part
}

/// `part` stands somewhere in `text`.
pub open spec fn contains(text: Seq<char>, part: Seq<char>) -> bool {
    exists|i: int| occurs_at(text, part, i)
}

/// `README.md` names the recipe and the directory that holds it.
pub proof fn lemma_readme_names_recipe(name: Seq<char>, path: Seq<char>)
    ensures
        contains(readme_text(name, path), name),
        contains(readme_text(name, path), path),
{
    let text = readme_text(name, path);
    let a = "# "@.len() as int;
    let b = a + name.len() + "\n\nThis recipe lives in `"@.len();
    assert(text.subrange(a, a + name.len()) == name);
    assert(occurs_at(text, name, a));
    assert(text.subrange(b, b + path.len()) == path);
    assert(occurs_at(text, path, b));
}

/// `config.toml` holds the line that names the recipe, and the line of the
/// version of a new recipe, `0.1.0`.
pub proof fn lemma_config_names_recipe(name: Seq<char>, path: Seq<char>)
    ensures
        contains(
            config_text(name, path, VERSION@, DESCRIPTION@),
            "name = \""@ + name + "\""@,
        ),
        contains(config_text(name, path, VERSION@, DESCRIPTION@), "version = \"0.1.0\""@),
{
    let text = config_text(name, path, VERSION@, DESCRIPTION@);
    reveal_strlit("name = \"");
    reveal_strlit("\"");
    reveal_strlit("\"\nversion = \"");
    reveal_strlit("0.1.0");
    reveal_strlit("\"\ndescription = \"");
    reveal_strlit("version = \"0.1.0\"");
    let line = "name = \""@ + name + "\""@;
    assert(text.subrange(0, line.len() as int) == line);
    assert(occurs_at(text, line, 0));
    let version_line = "version = \"0.1.0\""@;
    let at = line.len() as int + 1;
    assert(text.subrange(at, at + version_line.len()) == version_line);
    assert(occurs_at(text, version_line, at));
}

/// The keys of the templates are keys, and no two of them are the same.
proof fn lemma_keys()
    ensures
        is_key("name"@),
        is_key("path"@),
        is_key("version"@),
        is_key("description"@),
        is_key("content"@),
        "name"@ != "path"@,
        "name"@ != "version"@,
        "name"@ != "description"@,
        "path"@ != "version"@,
        "path"@ != "description"@,
        "version"@ != "description"@,
{
    reveal(is_key);
    reveal_strlit("name");
    reveal_strlit("path");
    reveal_strlit("version");
    reveal_strlit("description");
    reveal_strlit("content");
    // No two of them start with the same character.
    assert("name"@[0] == 'n');
    assert("path"@[0] == 'p');
    assert("version"@[0] == 'v');
    assert("description"@[0] == 'd');
}

/// The template of `README.md`, part by part.
proof fn lemma_readme_parts()
    ensures
        README_TEMPLATE@ == "# "@ + (placeholder("name"@) + ("\n\nThis recipe lives in `"@ + (
        placeholder("path"@) + "`.\n"@))),
        is_plain("# "@),
        is_plain("\n\nThis recipe lives in `"@),
        is_plain("`.\n"@),
{
    reveal(is_plain);
    reveal_strlit("# {{ name }}\n\nThis recipe lives in `{{ path }}`.\n");
    reveal_strlit("name");
    reveal_strlit("path");
    reveal_strlit("# ");
    reveal_strlit("\n\nThis recipe lives in `");
    reveal_strlit("`.\n");
}

/// What the template of `README.md` yields.
pub proof fn lemma_readme(ctx: Map<Seq<char>, Seq<char>>)
    requires
        ctx.contains_key("name"@),
        ctx.contains_key("path"@),
    ensures
        rendered(README_TEMPLATE@, ctx) == readme_text(ctx["name"@], ctx["path"@]),
{
    let t2 = "`.\n"@;
    let t1 = "\n\nThis recipe lives in `"@ + (placeholder("path"@) + t2);
    lemma_readme_parts();
    lemma_keys();
    lemma_render_field("# "@, "name"@, t1, ctx);
    lemma_render_field("\n\nThis recipe lives in `"@, "path"@, t2, ctx);
    lemma_render_tail(t2, ctx);
}

/// The template of `.gitignore` is one placeholder.
proof fn lemma_gitignore_parts()
    ensures
        GITIGNORE_TEMPLATE@ == Seq::<char>::empty() + (placeholder("content"@) + Seq::<char>::empty()),
        is_plain(Seq::<char>::empty()),
{
    reveal(is_plain);
    reveal_strlit("{{ content }}");
    reveal_strlit("content");
}

/// What the template of `.gitignore` yields.
pub proof fn lemma_gitignore(ctx: Map<Seq<char>, Seq<char>>)
    requires
        ctx.contains_key("content"@),
    ensures
        rendered(GITIGNORE_TEMPLATE@, ctx) == gitignore_text(ctx["content"@]),
{
    let none = Seq::<char>::empty();
    lemma_gitignore_parts();
    lemma_keys();
    lemma_render_field(none, "content"@, none, ctx);
    lemma_render_tail(none, ctx);
}

/// The template of `CHANGELOG.md`, part by part.
proof fn lemma_changelog_parts()
    ensures
        CHANGELOG_TEMPLATE@ == "# Changelog\n\n"@ + (placeholder("content"@) + Seq::<char>::empty()),
        is_plain("# Changelog\n\n"@),
        is_plain(Seq::<char>::empty()),
{
    reveal(is_plain);
    reveal_strlit("# Changelog\n\n{{ content }}");
    reveal_strlit("# Changelog\n\n");
    reveal_strlit("content");
}

/// What the template of `CHANGELOG.md` yields.
pub proof fn lemma_changelog(ctx: Map<Seq<char>, Seq<char>>)
    requires
        ctx.contains_key("content"@),
    ensures
        rendered(CHANGELOG_TEMPLATE@, ctx) == changelog_text(ctx["content"@]),
{
    let none = Seq::<char>::empty();
    lemma_changelog_parts();
    lemma_keys();
    lemma_render_field("# Changelog\n\n"@, "content"@, none, ctx);
    lemma_render_tail(none, ctx);
}

/// The template of `config.toml`, part by part.
proof fn lemma_config_parts()
    ensures
        CONFIG_TEMPLATE@ == "name = \""@ + (placeholder("name"@) + ("\"\nversion = \""@ + (
        placeholder("version"@) + ("\"\ndescription = \""@ + (placeholder("description"@) + (
        "\"\npath = \""@ + (placeholder("path"@) + "\"\n"@))))))),
        is_plain("name = \""@),
        is_plain("\"\nversion = \""@),
        is_plain("\"\ndescription = \""@),
        is_plain("\"\npath = \""@),
        is_plain("\"\n"@),
{
    reveal(is_plain);
    reveal_strlit(
        "name = \"{{ name }}\"\nversion = \"{{ version }}\"\ndescription = \"{{ description }}\"\npath = \"{{ path }}\"\n",
    );
    reveal_strlit("name");
    reveal_strlit("path");
    reveal_strlit("version");
    reveal_strlit("description");
    reveal_strlit("name = \"");
    reveal_strlit("\"\nversion = \"");
    reveal_strlit("\"\ndescription = \"");
    reveal_strlit("\"\npath = \"");
    reveal_strlit("\"\n");
}

/// What the template of `config.toml` yields.
pub proof fn lemma_config(ctx: Map<Seq<char>, Seq<char>>)
    requires
        ctx.contains_key("name"@),
        ctx.contains_key("path"@),
        ctx.contains_key("version"@),
        ctx.contains_key("description"@),
    ensures
        rendered(CONFIG_TEMPLATE@, ctx) == config_text(
            ctx["name"@],
            ctx["path"@],
            ctx["version"@],
            ctx["description"@],
        ),
{
    let t4 = "\"\n"@;
    let t3 = "\"\npath = \""@ + (placeholder("path"@) + t4);
    let t2 = "\"\ndescription = \""@ + (placeholder("description"@) + t3);
    let t1 = "\"\nversion = \""@ + (placeholder("version"@) + t2);
    lemma_config_parts();
    lemma_keys();
    let out = rendered(CONFIG_TEMPLATE@, ctx);
    let o1 = "name = \""@ + ctx["name"@];
    let o2 = o1 + "\"\nversion = \""@ + ctx["version"@];
    let o3 = o2 + "\"\ndescription = \""@ + ctx["description"@];
    let o4 = o3 + "\"\npath = \""@ + ctx["path"@];
    assert(out == o1 + rendered(t1, ctx)) by {
        lemma_render_field("name = \""@, "name"@, t1, ctx);
    }
    assert(out == o2 + rendered(t2, ctx)) by {
        lemma_render_field("\"\nversion = \""@, "version"@, t2, ctx);
    }
    assert(out == o3 + rendered(t3, ctx)) by {
        lemma_render_field("\"\ndescription = \""@, "description"@, t3, ctx);
    }
    assert(out == o4 + rendered(t4, ctx)) by {
        lemma_render_field("\"\npath = \""@, "path"@, t4, ctx);
    }
    lemma_render_tail(t4, ctx);
}

/// The `README.md` of the recipe `project_name`, which lives in `path`.
pub fn generate_readme(project_name: &str, path: &str) -> (file: GeneratedFile)
    ensures
        file@.path == joined(path@, "README.md"@),
        file@.content == readme_text(project_name@, path@),
{
    let mut context = Context::new();
    context.bind("name", project_name);
    context.bind("path", path);
    proof {
        lemma_keys();
        lemma_readme(context@);
    }
    GeneratedFile { path: join(path, "README.md"), content: render(README_TEMPLATE, &context) }
}

/// The `.gitignore` of the recipe in `path`, with `content` as its entry.
pub fn generate_gitignore(path: &str, content: &str) -> (file: GeneratedFile)
    ensures
        file@.path == joined(path@, ".gitignore"@),
        file@.content == gitignore_text(content@),
{
    let mut context = Context::new();
    context.bind("content", content);
    proof {
        lemma_gitignore(context@);
    }
    GeneratedFile { path: join(path, ".gitignore"), content: render(GITIGNORE_TEMPLATE, &context) }
}

/// The `CHANGELOG.md` of the recipe in `path`, with `content` as its body.
pub fn generate_changelog(path: &str, content: &str) -> (file: GeneratedFile)
    ensures
        file@.path == joined(path@, "CHANGELOG.md"@),
        file@.content == changelog_text(content@),
{
    let mut context = Context::new();
    context.bind("content", content);
    proof {
        lemma_changelog(context@);
    }
    GeneratedFile {
        path: join(path, "CHANGELOG.md"),
        content: render(CHANGELOG_TEMPLATE, &context),
    }
}

/// The `config.toml` of the recipe `name`, which lives in `path`.
pub fn generate_config(path: &str, name: &str) -> (file: GeneratedFile)
    ensures
        file@.path == joined(path@, "config.toml"@),
        file@.content == config_text(name@, path@, VERSION@, DESCRIPTION@),
{
    let mut context = Context::new();
    context.bind("name", name);
    context.bind("path", path);
    context.bind("version", VERSION);
    context.bind("description", DESCRIPTION);
    proof {
        lemma_keys();
        lemma_config(context@);
    }
    GeneratedFile { path: join(path, "config.toml"), content: render(CONFIG_TEMPLATE, &context) }
}

/// The folder nested in the recipe in `path`, and the one file to write
/// into it.
pub fn generate_recipe_folder(path: &str) -> (folder: (String, GeneratedFile))
    ensures
        folder.0@ == joined(path@, "recipe"@),
        folder.1@.path == joined(joined(path@, "recipe"@), "hello.md"@),
        folder.1@.content == HELLO_TEXT@,
{
    let dir = join(path, "recipe");
    let file = GeneratedFile { path: join(dir.as_str(), "hello.md"), content: HELLO_TEXT.to_owned() };
    (dir, file)
}

} // verus!
