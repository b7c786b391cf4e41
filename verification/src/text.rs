//! Text building blocks: joining, prefix stripping and ASCII upper-casing.

use vstd::prelude::*;
use vstd::seq_lib::lemma_flatten_concat;
use vstd::string::*;

verus! {

/// `String::push` appends the given character to the end of the string.
pub assume_specification[ String::push ](text: &mut String, ch: char)
    ensures
        final(text)@ == old(text)@.push(ch),
;

/// The views of a sequence of strings.
pub open spec fn texts(parts: Seq<String>) -> Seq<Seq<char>> {
    parts.map_values(|part: String| part@)
}

/// The parts in order, with `separator` between each two neighbours.
pub open spec fn join_text(parts: Seq<Seq<char>>, separator: Seq<char>) -> Seq<char>
    decreases parts.len(),
{
    if parts.len() == 0 {
        Seq::empty()
    } else if parts.len() == 1 {
        parts[0]
    } else {
        join_text(parts.drop_last(), separator) + separator + parts.last()
    }
}

/// Joins `parts` with `separator` between each two neighbours.
pub fn join(parts: &Vec<String>, separator: &str) -> (joined: String)
    ensures
        joined@ == join_text(texts(parts@), separator@),
{
    let mut joined = String::new();
    let mut i: usize = 0;
    while i < parts.len()
        invariant
            i <= parts.len(),
            joined@ == join_text(texts(parts@).take(i as int), separator@),
        decreases parts.len() - i,
    {
        if i > 0 {
            joined.append(separator);
        }
        joined.append(parts[i].as_str());
        proof {
            let before = texts(parts@).take(i as int);
            let after = texts(parts@).take(i + 1);
            assert(after.drop_last() == before);
            assert(after.last() == parts[i as int]@);
        }
        i += 1;
    }
    proof {
        assert(texts(parts@).take(parts.len() as int) == texts(parts@));
    }
    joined
}

/// The renderings of the items, one after the other.
pub open spec fn concat_map<A>(items: Seq<A>, render: spec_fn(A) -> Seq<char>) -> Seq<char> {
    items.map_values(render).flatten()
}

/// Nothing is rendered for no items.
pub proof fn lemma_concat_map_empty<A>(render: spec_fn(A) -> Seq<char>)
    ensures
        concat_map(Seq::<A>::empty(), render) == Seq::<char>::empty(),
{
    assert(Seq::<A>::empty().map_values(render) =~= Seq::<Seq<char>>::empty());
}

/// One more item adds its rendering at the end.
pub proof fn lemma_concat_map_push<A>(items: Seq<A>, item: A, render: spec_fn(A) -> Seq<char>)
    ensures
        concat_map(items.push(item), render) == concat_map(items, render) + render(item),
{
    assert(items.push(item).map_values(render) =~= items.map_values(render).push(render(item)));
    items.map_values(render).lemma_flatten_push(render(item));
}

/// The rendering of two runs of items is the rendering of the first followed
/// by that of the second.
pub proof fn lemma_concat_map_add<A>(first: Seq<A>, second: Seq<A>, render: spec_fn(A) -> Seq<char>)
    ensures
        concat_map(first + second, render) == concat_map(first, render) + concat_map(
            second,
            render,
        ),
{
    assert((first + second).map_values(render) =~= first.map_values(render) + second.map_values(
        render,
    ));
    lemma_flatten_concat(first.map_values(render), second.map_values(render));
}

/// Items that are rendered alike, place by place, have the same rendering.
pub proof fn lemma_concat_map_alike<A, B>(
    first: Seq<A>,
    render_first: spec_fn(A) -> Seq<char>,
    second: Seq<B>,
    render_second: spec_fn(B) -> Seq<char>,
)
    requires
        first.len() == second.len(),
        forall|i: int|
            0 <= i < first.len() ==> render_first(#[trigger] first[i]) == render_second(second[i]),
    ensures
        concat_map(first, render_first) == concat_map(second, render_second),
{
    assert(first.map_values(render_first) =~= second.map_values(render_second));
}

/// The rendering of runs of items laid end to end is the renderings of the
/// runs laid end to end.
pub proof fn lemma_concat_map_flatten<A>(runs: Seq<Seq<A>>, render: spec_fn(A) -> Seq<char>)
    ensures
        concat_map(runs.flatten(), render) == concat_map(
            runs,
            |run: Seq<A>| concat_map(run, render),
        ),
    decreases runs.len(),
{
    let render_run = |run: Seq<A>| concat_map(run, render);
    if runs.len() == 0 {
        lemma_concat_map_empty(render);
        lemma_concat_map_empty(render_run);
        assert(runs =~= Seq::empty());
    } else {
        let front = runs.drop_last();
        assert(runs =~= front.push(runs.last()));
        lemma_concat_map_flatten(front, render);
        front.lemma_flatten_push(runs.last());
        lemma_concat_map_add(front.flatten(), runs.last(), render);
        lemma_concat_map_push(front, runs.last(), render_run);
    }
}

/// The first `count + 1` items are the first `count` items and the item after them.
pub proof fn lemma_take_next<A>(items: Seq<A>, count: int)
    requires
        0 <= count < items.len(),
    ensures
        items.take(count + 1) == items.take(count).push(items[count]),
{
}

/// The upper-case form of an ASCII lower-case letter; any other character unchanged.
pub open spec fn ascii_upper_char(c: char) -> char {
    if 'a' <= c && c <= 'z' {
        ((c as int) - 32) as char
    } else {
        c
    }
}

/// The text with each ASCII lower-case letter replaced by its upper-case form.
pub open spec fn ascii_upper(text: Seq<char>) -> Seq<char> {
    text.map_values(|c: char| ascii_upper_char(c))
}

/// Maps an ASCII lower-case letter to its upper-case form and leaves any other
/// character unchanged.
pub fn to_ascii_upper_char(c: char) -> (upper: char)
    ensures
        upper == ascii_upper_char(c),
{
    if 'a' <= c && c <= 'z' {
        let code: u8 = c as u8;
        (code - 32) as char
    } else {
        c
    }
}

/// Appends the ASCII upper-case form of `text` to `buffer`.
pub fn append_ascii_upper(buffer: &mut String, text: &str)
    ensures
        final(buffer)@ == old(buffer)@ + ascii_upper(text@),
{
    for c in it: text.chars()
        invariant
            it.seq() == text@,
            buffer@ == old(buffer)@ + ascii_upper(text@.take(it.index() as int)),
    {
        buffer.push(to_ascii_upper_char(c));
        proof {
            let i = it.index() as int;
            assert(ascii_upper(text@.take(i + 1)) == ascii_upper(text@.take(i)).push(
                ascii_upper_char(text@[i]),
            ));
        }
    }
    proof {
        assert(text@.take(text@.len() as int) == text@);
    }
}

/// The text without a leading `prefix`; the whole text where it does not start with `prefix`.
pub open spec fn without_prefix(text: Seq<char>, prefix: Seq<char>) -> Seq<char> {
    if prefix.is_prefix_of(text) {
        text.skip(prefix.len() as int)
    } else {
        text
    }
}

/// Strips one leading occurrence of `prefix` from `text`, if there is one.
pub fn strip_prefix<'a>(text: &'a str, prefix: &str) -> (rest: &'a str)
    ensures
        rest@ == without_prefix(text@, prefix@),
{
    let text_length: usize = text.unicode_len();
    let prefix_length: usize = prefix.unicode_len();
    if text_length < prefix_length {
        return text;
    }
    let mut i: usize = 0;
    while i < prefix_length
        invariant
            i <= prefix_length <= text_length,
            text_length == text@.len(),
            prefix_length == prefix@.len(),
            forall|k: int| 0 <= k < i ==> text@[k] == prefix@[k],
        decreases prefix_length - i,
    {
        if text.get_char(i) != prefix.get_char(i) {
            return text;
        }
        i += 1;
    }
    proof {
        assert(text@.subrange(0, prefix@.len() as int) =~= prefix@);
    }
    text.substring_char(prefix_length, text_length)
}

} // verus!
