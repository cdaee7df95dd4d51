//! Placeholder substitution: `{{ key }}` in a template is replaced by the value
//! that a context binds to `key`.
//!
//! A placeholder opens with two braces, holds a key of letters, digits and
//! underscores, optionally padded with blanks, and closes with two braces. A
//! template is read once from left to right. Values are copied as they are and
//! never read again as template text. A placeholder whose key the context does
//! not bind stays in the output unchanged.

use vstd::prelude::*;

verus! {

/// The characters a placeholder's key is made of.
pub open spec fn is_key_char(c: char) -> bool {
    ('a' <= c && c <= 'z') || ('A' <= c && c <= 'Z') || ('0' <= c && c <= '9') || c == '_'
}

/// The first position at or after `i` that holds no blank.
pub open spec fn blanks_end(t: Seq<char>, i: int) -> int
    decreases t.len() - i,
{
    if 0 <= i < t.len() && t[i] == ' ' {
        blanks_end(t, i + 1)
    } else {
        i
    }
}

/// The first position at or after `i` that holds no key character.
pub open spec fn key_end(t: Seq<char>, i: int) -> int
    decreases t.len() - i,
{
    if 0 <= i < t.len() && is_key_char(t[i]) {
        key_end(t, i + 1)
    } else {
        i
    }
}

/// Two equal characters `c` stand at `i` and `i + 1`.
pub open spec fn pair_at(t: Seq<char>, i: int, c: char) -> bool {
    0 <= i && i + 1 < t.len() && t[i] == c && t[i + 1] == c
}

/// The placeholder that opens at `i`, if one does: where its key starts, where
/// its key ends, and the position after its closing braces.
pub open spec fn placeholder_at(t: Seq<char>, i: int) -> Option<(int, int, int)> {
    let a = blanks_end(t, i + 2);
    let b = key_end(t, a);
    let c = blanks_end(t, b);
    if pair_at(t, i, '{') && a < b && pair_at(t, c, '}') {
        Some((a, b, c + 2))
    } else {
        None
    }
}

/// What the template yields from position `i` on.
pub open spec fn render_from(t: Seq<char>, ctx: Map<Seq<char>, Seq<char>>, i: int) -> Seq<char>
    decreases t.len() - i,
{
    if i < 0 || i >= t.len() {
        Seq::empty()
    } else {
        match placeholder_at(t, i) {
            Some((a, b, end)) if ctx.contains_key(t.subrange(a, b)) => {
                proof {
                    lemma_placeholder_bounds(t, i);
                }
                ctx[t.subrange(a, b)] + render_from(t, ctx, end)
            },
            _ => seq![t[i]] + render_from(t, ctx, i + 1),
        }
    }
}

/// The text that a template yields under a context.
pub open spec fn rendered(t: Seq<char>, ctx: Map<Seq<char>, Seq<char>>) -> Seq<char> {
    render_from(t, ctx, 0)
}

/// How a placeholder for `key` is written: the key between braces, with one
/// blank on either side.
pub open spec fn placeholder(key: Seq<char>) -> Seq<char> {
    seq!['{', '{', ' '] + key + seq![' ', '}', '}']
}

/// A key that a placeholder can hold: not empty, and of key characters only.
#[verifier::opaque]
pub open spec fn is_key(key: Seq<char>) -> bool {
    key.len() > 0 && forall|k: int| 0 <= k < key.len() ==> is_key_char(#[trigger] key[k])
}

/// Text that holds no opening brace, and so no placeholder.
#[verifier::opaque]
pub open spec fn is_plain(text: Seq<char>) -> bool {
    forall|k: int| 0 <= k < text.len() ==> text[k] != '{'
}

/// A run of blanks ends at or after the position where it starts, and within
/// the template if it starts there.
pub proof fn lemma_blanks_end_bounds(t: Seq<char>, i: int)
    ensures
        i <= blanks_end(t, i),
        i <= t.len() ==> blanks_end(t, i) <= t.len(),
    decreases t.len() - i,
{
    if 0 <= i < t.len() && t[i] == ' ' {
        lemma_blanks_end_bounds(t, i + 1);
    }
}

/// A run of key characters ends at or after the position where it starts, and
/// within the template if it starts there.
pub proof fn lemma_key_end_bounds(t: Seq<char>, i: int)
    ensures
        i <= key_end(t, i),
        i <= t.len() ==> key_end(t, i) <= t.len(),
    decreases t.len() - i,
{
    if 0 <= i < t.len() && is_key_char(t[i]) {
        lemma_key_end_bounds(t, i + 1);
    }
}

/// A placeholder lies within the template and is at least five characters long.
pub proof fn lemma_placeholder_bounds(t: Seq<char>, i: int)
    ensures
        match placeholder_at(t, i) {
            Some((a, b, end)) => 0 <= i && i + 2 <= a < b && b + 2 <= end <= t.len(),
            None => true,
        },
{
    if pair_at(t, i, '{') {
        lemma_blanks_end_bounds(t, i + 2);
        let a = blanks_end(t, i + 2);
        lemma_key_end_bounds(t, a);
        let b = key_end(t, a);
        lemma_blanks_end_bounds(t, b);
    }
}

/// Text without an opening brace is kept as it is: rendering from `i` yields the
/// characters up to `j`, then what the template yields from `j` on.
proof fn lemma_render_plain(t: Seq<char>, ctx: Map<Seq<char>, Seq<char>>, i: int, j: int)
    requires
        0 <= i <= j <= t.len(),
        forall|k: int| i <= k < j ==> t[k] != '{',
    ensures
        render_from(t, ctx, i) == t.subrange(i, j) + render_from(t, ctx, j),
    decreases j - i,
{
    if i < j {
        lemma_render_plain(t, ctx, i + 1, j);
    }
}

proof fn lemma_blanks_end_shift(t: Seq<char>, i: int, k: int)
    requires
        0 <= i <= t.len(),
        0 <= k,
    ensures
        blanks_end(t, i + k) == i + blanks_end(t.skip(i), k),
    decreases t.len() - i - k,
{
    if i + k < t.len() && t[i + k] == ' ' {
        lemma_blanks_end_shift(t, i, k + 1);
    }
}

proof fn lemma_key_end_shift(t: Seq<char>, i: int, k: int)
    requires
        0 <= i <= t.len(),
        0 <= k,
    ensures
        key_end(t, i + k) == i + key_end(t.skip(i), k),
    decreases t.len() - i - k,
{
    if i + k < t.len() && is_key_char(t[i + k]) {
        lemma_key_end_shift(t, i, k + 1);
    }
}

/// A placeholder is found in a suffix of the template where it is found in
/// the template, and holds the same key.
proof fn lemma_placeholder_shift(t: Seq<char>, i: int, k: int)
    requires
        0 <= i <= t.len(),
        0 <= k,
    ensures
        match placeholder_at(t.skip(i), k) {
            Some((a, b, end)) => placeholder_at(t, i + k) == Some((i + a, i + b, i + end))
                && t.subrange(i + a, i + b) == t.skip(i).subrange(a, b),
            None => placeholder_at(t, i + k) is None,
        },
{
    let s = t.skip(i);
    lemma_blanks_end_shift(t, i, k + 2);
    lemma_blanks_end_bounds(s, k + 2);
    let a = blanks_end(s, k + 2);
    lemma_key_end_shift(t, i, a);
    lemma_key_end_bounds(s, a);
    let b = key_end(s, a);
    lemma_blanks_end_shift(t, i, b);
    lemma_blanks_end_bounds(s, b);
}

proof fn lemma_render_shift(t: Seq<char>, ctx: Map<Seq<char>, Seq<char>>, i: int, k: int)
    requires
        0 <= i <= t.len(),
        0 <= k,
    ensures
        render_from(t, ctx, i + k) == render_from(t.skip(i), ctx, k),
    decreases t.len() - i - k,
{
    let s = t.skip(i);
    if i + k < t.len() {
        lemma_placeholder_shift(t, i, k);
        lemma_placeholder_bounds(s, k);
        match placeholder_at(s, k) {
            Some((a, b, end)) if ctx.contains_key(s.subrange(a, b)) => {
                lemma_render_shift(t, ctx, i, end);
            },
            _ => {
                lemma_render_shift(t, ctx, i, k + 1);
            },
        }
    }
}

/// What a template yields from a position on is what the rest of the template
/// yields when rendered by itself.
pub proof fn lemma_render_rest(t: Seq<char>, ctx: Map<Seq<char>, Seq<char>>, i: int)
    requires
        0 <= i <= t.len(),
    ensures
        render_from(t, ctx, i) == rendered(t.skip(i), ctx),
{
    lemma_render_shift(t, ctx, i, 0);
}

/// Plain text is kept: a template that starts with such text yields the text,
/// then what the rest of the template yields.
pub proof fn lemma_render_text(text: Seq<char>, rest: Seq<char>, ctx: Map<Seq<char>, Seq<char>>)
    requires
        is_plain(text),
    ensures
        rendered(text + rest, ctx) == text + rendered(rest, ctx),
{
    reveal(is_plain);
    let t = text + rest;
    let n = text.len() as int;
    lemma_render_plain(t, ctx, 0, n);
    lemma_render_rest(t, ctx, n);
    assert(t.skip(n) == rest);
}

proof fn lemma_key_end_of_key(t: Seq<char>, from: int, to: int, i: int)
    requires
        0 <= from <= i <= to <= t.len(),
        forall|k: int| from <= k < to ==> is_key_char(#[trigger] t[k]),
        to < t.len() ==> !is_key_char(t[to]),
    ensures
        key_end(t, i) == to,
    decreases to - i,
{
    if i < to {
        lemma_key_end_of_key(t, from, to, i + 1);
    }
}

/// A placeholder whose key is bound is replaced by the bound value: a template
/// that starts with the placeholder yields the value, then what the rest of
/// the template yields.
pub proof fn lemma_render_placeholder(
    key: Seq<char>,
    rest: Seq<char>,
    ctx: Map<Seq<char>, Seq<char>>,
)
    requires
        is_key(key),
        ctx.contains_key(key),
    ensures
        rendered(placeholder(key) + rest, ctx) == ctx[key] + rendered(rest, ctx),
{
    reveal(is_key);
    let t = placeholder(key) + rest;
    let b = 3 + key.len() as int;
    assert forall|k: int| 3 <= k < b implies is_key_char(#[trigger] t[k]) by {
        assert(t[k] == key[k - 3]);
    }
    reveal_with_fuel(blanks_end, 2);
    lemma_key_end_of_key(t, 3, b, 3);
    assert(t.subrange(3, b) == key);
    lemma_render_rest(t, ctx, b + 3);
    assert(t.skip(b + 3) == rest);
}

/// Plain text and a placeholder after it: a template that starts with both
/// yields the text, the value bound to the placeholder's key, and then what
/// the rest of the template yields.
pub proof fn lemma_render_field(
    text: Seq<char>,
    key: Seq<char>,
    rest: Seq<char>,
    ctx: Map<Seq<char>, Seq<char>>,
)
    requires
        is_plain(text),
        is_key(key),
        ctx.contains_key(key),
    ensures
        rendered(text + (placeholder(key) + rest), ctx) == text + ctx[key] + rendered(rest, ctx),
{
    lemma_render_text(text, placeholder(key) + rest, ctx);
    lemma_render_placeholder(key, rest, ctx);
}

/// Plain text at the end of a template is the end of what the template yields.
pub proof fn lemma_render_tail(text: Seq<char>, ctx: Map<Seq<char>, Seq<char>>)
    requires
        is_plain(text),
    ensures
        rendered(text, ctx) == text,
{
    lemma_render_text(text, Seq::empty(), ctx);
}

proof fn lemma_render_unbound_from(t: Seq<char>, i: int)
    requires
        0 <= i <= t.len(),
    ensures
        render_from(t, Map::empty(), i) == t.skip(i),
    decreases t.len() - i,
{
    if i < t.len() {
        lemma_render_unbound_from(t, i + 1);
    }
}

/// A context that binds nothing changes nothing: every placeholder stays as
/// it is written.
pub proof fn lemma_render_unbound(t: Seq<char>)
    ensures
        rendered(t, Map::empty()) == t,
{
    lemma_render_unbound_from(t, 0);
}

/// What a list of bindings binds: a later binding of a key replaces an earlier one.
spec fn bindings(entries: Seq<(String, String)>) -> Map<Seq<char>, Seq<char>>
    decreases entries.len(),
{
    if entries.len() == 0 {
        Map::empty()
    } else {
        bindings(entries.drop_last()).insert(entries.last().0@, entries.last().1@)
    }
}

/// The values that a template's placeholders are replaced with, by key.
pub struct Context {
    entries: Vec<(String, String)>,
}

impl View for Context {
    type V = Map<Seq<char>, Seq<char>>;

    closed spec fn view(&self) -> Map<Seq<char>, Seq<char>> {
        bindings(self.entries@)
    }
}

impl Context {
    /// A context that binds nothing.
    pub fn new() -> (c: Context)
        ensures
            c@ == Map::<Seq<char>, Seq<char>>::empty(),
    {
        Context { entries: Vec::new() }
    }

    /// Binds `key` to `value`, in place of what `key` was bound to before.
    pub fn bind(&mut self, key: &str, value: &str)
        ensures
            final(self)@ == old(self)@.insert(key@, value@),
    {
        self.entries.push((key.to_owned(), value.to_owned()));
        proof {
            assert(self.entries@.drop_last() == old(self).entries@);
        }
    }

    /// The value that `key` is bound to, if it is bound.
    pub fn get(&self, key: &str) -> (v: Option<&str>)
        ensures
            match v {
                Some(s) => self@.contains_key(key@) && self@[key@] == s@,
                None => !self@.contains_key(key@),
            },
    {
        let wanted = key.to_owned();
        let mut j = self.entries.len();
        assert(self.entries@.take(j as int) == self.entries@);
        while j > 0
            invariant
                j <= self.entries.len(),
                wanted@ == key@,
                bindings(self.entries@).contains_key(key@) == bindings(
                    self.entries@.take(j as int),
                ).contains_key(key@),
                bindings(self.entries@).contains_key(key@) ==> bindings(self.entries@)[key@]
                    == bindings(self.entries@.take(j as int))[key@],
            decreases j,
        {
            assert(self.entries@.take(j as int).drop_last() == self.entries@.take(j - 1));
            j -= 1;
            if self.entries[j].0 == wanted {
                return Some(self.entries[j].1.as_str());
            }
        }
        None
    }
}

/// The first position at or after `i` that holds no blank.
fn skip_blanks(t: &Vec<char>, i: usize) -> (j: usize)
    requires
        i <= t.len(),
    ensures
        j == blanks_end(t@, i as int),
        i <= j <= t.len(),
{
    let mut j = i;
    while j < t.len() && t[j] == ' '
        invariant
            i <= j <= t.len(),
            blanks_end(t@, j as int) == blanks_end(t@, i as int),
        decreases t.len() - j,
    {
        j += 1;
    }
    j
}

fn key_char(c: char) -> (b: bool)
    ensures
        b == is_key_char(c),
{
    ('a' <= c && c <= 'z') || ('A' <= c && c <= 'Z') || ('0' <= c && c <= '9') || c == '_'
}

/// The first position at or after `i` that holds no key character.
fn skip_key(t: &Vec<char>, i: usize) -> (j: usize)
    requires
        i <= t.len(),
    ensures
        j == key_end(t@, i as int),
        i <= j <= t.len(),
{
    let mut j = i;
    while j < t.len() && key_char(t[j])
        invariant
            i <= j <= t.len(),
            key_end(t@, j as int) == key_end(t@, i as int),
        decreases t.len() - j,
    {
        j += 1;
    }
    j
}

/// The placeholder that opens at `i`, if one does.
fn find_placeholder(t: &Vec<char>, i: usize) -> (r: Option<(usize, usize, usize)>)
    requires
        i < t.len(),
    ensures
        match r {
            Some((a, b, end)) => placeholder_at(t@, i as int) == Some(
                (a as int, b as int, end as int),
            ) && i < a < b < end <= t.len(),
            None => placeholder_at(t@, i as int) is None,
        },
{
    let n = t.len();
    if n - i < 2 || t[i] != '{' || t[i + 1] != '{' {
        return None;
    }
    let a = skip_blanks(t, i + 2);
    let b = skip_key(t, a);
    let c = skip_blanks(t, b);
    if a < b && n - c >= 2 && t[c] == '}' && t[c + 1] == '}' {
        Some((a, b, c + 2))
    } else {
        None
    }
}

/// The characters of `s`, one by one.
fn to_chars(s: &str) -> (v: Vec<char>)
    ensures
        v@ == s@,
{
    let mut v: Vec<char> = Vec::new();
    for c in it: s.chars()
        invariant
            v@ == it.seq().take(it.index() as int),
    {
        v.push(c);
    }
    v
}

/// Renders `template` under `context`: each placeholder whose key the context
/// binds is replaced by the bound value, and all other text is kept.
pub fn render(template: &str, context: &Context) -> (out: String)
    ensures
        out@ == rendered(template@, context@),
{
    let chars = to_chars(template);
    let n = chars.len();
    let ghost t = template@;
    let ghost ctx = context@;
    let mut out = String::new();
    let mut kept: usize = 0;
    let mut i: usize = 0;
    while i < n
        invariant
            kept <= i <= n,
            n == t.len(),
            chars@ == t,
            t == template@,
            ctx == context@,
            out@ + t.subrange(kept as int, i as int) + render_from(t, ctx, i as int) == rendered(
                t,
                ctx,
            ),
        decreases n - i,
    {
        let mut next: usize = i + 1;
        if let Some((a, b, end)) = find_placeholder(&chars, i) {
            if let Some(value) = context.get(template.substring_char(a, b)) {
                out.append(template.substring_char(kept, i));
                out.append(value);
                kept = end;
                next = end;
            }
        }
        i = next;
    }
    out.append(template.substring_char(kept, n));
    out
}

} // verus!
