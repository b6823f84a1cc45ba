//! The tags and contexts of a store, for pickers: each label once in
//! alphabetical order, or with the number of tasks that carry it.

use crate::outline::{Filter, FilterView};
use crate::store::{TodoList, TodoListView};
use crate::text::{contains_text, texts};
use crate::todo::TodoView;
use vstd::prelude::*;

verus! {

/// Whether `a` comes before `b` in the order of strings: at the first place
/// where they differ `a` has the character with the lower code, or `a` ends
/// there and `b` goes on.
pub open spec fn lex_before(a: Seq<char>, b: Seq<char>) -> bool
    decreases a.len(),
{
    if b.len() == 0 {
        false
    } else if a.len() == 0 {
        true
    } else if a[0] != b[0] {
        (a[0] as u32) < (b[0] as u32)
    } else {
        lex_before(a.drop_first(), b.drop_first())
    }
}

/// Trusted: `<` on `str`, which is documented to order strings
/// lexicographically by their bytes, that is by the code points of their
/// characters.
#[verifier::external_body]
pub(crate) fn text_before(a: &str, b: &str) -> (first: bool)
    ensures
        first == lex_before(a@, b@),
{
    a < b
}

/// `sorted` with `x` put in: behind every element that `x` does not have to
/// come before, counted from the back.
pub open spec fn put_in<T>(sorted: Seq<T>, x: T, first: spec_fn(T, T) -> bool) -> Seq<T>
    decreases sorted.len(),
{
    if sorted.len() == 0 {
        seq![x]
    } else if first(x, sorted.last()) {
        put_in(sorted.drop_last(), x, first).push(sorted.last())
    } else {
        sorted.push(x)
    }
}

/// One step of the search for the place of `x`, from the back.
pub proof fn lemma_put_in_step<T>(all: Seq<T>, x: T, first: spec_fn(T, T) -> bool, p: int)
    requires
        0 < p <= all.len(),
        first(x, all[p - 1]),
    ensures
        put_in(all.take(p), x, first) + all.skip(p) == put_in(all.take(p - 1), x, first) + all.skip(
            p - 1,
        ),
{
    let head = all.take(p);
    assert(head.last() == all[p - 1]);
    assert(head.drop_last() =~= all.take(p - 1));
    assert(put_in(all.take(p - 1), x, first).push(all[p - 1]) + all.skip(p) =~= put_in(
        all.take(p - 1),
        x,
        first,
    ) + all.skip(p - 1));
}

/// The end of the search for the place of `x`.
pub proof fn lemma_put_in_stop<T>(all: Seq<T>, x: T, first: spec_fn(T, T) -> bool, p: int)
    requires
        0 <= p <= all.len(),
        p > 0 ==> !first(x, all[p - 1]),
    ensures
        put_in(all.take(p), x, first) + all.skip(p) == all.insert(p, x),
{
    let head = all.take(p);
    if p > 0 {
        assert(head.last() == all[p - 1]);
    }
    assert(put_in(head, x, first) =~= head.push(x));
    assert(head.push(x) + all.skip(p) =~= all.insert(p, x));
}

/// The order of labels: alphabetical.
pub open spec fn word_first() -> spec_fn(Seq<char>, Seq<char>) -> bool {
    |a: Seq<char>, b: Seq<char>| lex_before(a, b)
}

/// The order of counted labels: by falling count, then alphabetical.
pub open spec fn count_first() -> spec_fn((Seq<char>, nat), (Seq<char>, nat)) -> bool {
    |a: (Seq<char>, nat), b: (Seq<char>, nat)| a.1 > b.1 || (a.1 == b.1 && lex_before(a.0, b.0))
}

/// A catalog of labels with one more label noted: put in its alphabetical
/// place, unless it is there already.
pub open spec fn noted(catalog: Seq<Seq<char>>, word: Seq<char>) -> Seq<Seq<char>> {
    if catalog.contains(word) {
        catalog
    } else {
        put_in(catalog, word, word_first())
    }
}

/// A catalog with labels noted one after another.
pub open spec fn noted_all(catalog: Seq<Seq<char>>, words: Seq<Seq<char>>) -> Seq<Seq<char>>
    decreases words.len(),
{
    if words.len() == 0 {
        catalog
    } else {
        noted(noted_all(catalog, words.drop_last()), words.last())
    }
}

/// The catalog of the tags (`tags` true) or contexts of tasks.
pub open spec fn catalog(todos: Seq<TodoView>, tags: bool) -> Seq<Seq<char>>
    decreases todos.len(),
{
    if todos.len() == 0 {
        Seq::empty()
    } else {
        noted_all(
            catalog(todos.drop_last(), tags),
            if tags {
                todos.last().tags
            } else {
                todos.last().contexts
            },
        )
    }
}

/// The filter that keeps the tasks with a label.
pub open spec fn carrying(word: Seq<char>, tags: bool) -> FilterView {
    if tags {
        FilterView::Tag(word)
    } else {
        FilterView::Context(word)
    }
}

/// The labels `words`, each with the number of tasks that carry it, by
/// falling count and then alphabetically.
pub open spec fn tally(store: TodoListView, words: Seq<Seq<char>>, tags: bool) -> Seq<
    (Seq<char>, nat),
>
    decreases words.len(),
{
    if words.len() == 0 {
        Seq::empty()
    } else {
        put_in(
            tally(store, words.drop_last(), tags),
            (words.last(), store.count(carrying(words.last(), tags))),
            count_first(),
        )
    }
}

/// The views of counted labels.
pub open spec fn count_views(counts: Seq<(String, usize)>) -> Seq<(Seq<char>, nat)> {
    Seq::new(counts.len(), |i: int| (counts[i].0@, counts[i].1 as nat))
}

/// Notes a label in a catalog.
pub fn note(catalog: &mut Vec<String>, word: &String)
    ensures
        texts(final(catalog)@) == noted(texts(old(catalog)@), word@),
{
    if contains_text(catalog, word) {
        return ;
    }
    let ghost all = texts(catalog@);
    let mut p: usize = catalog.len();
    proof {
        assert(all.take(p as int) =~= all);
        assert(all.skip(p as int) =~= Seq::empty());
        assert(put_in(all, word@, word_first()) =~= put_in(all.take(p as int), word@, word_first())
            + all.skip(p as int));
    }
    while p > 0 && text_before(word.as_str(), catalog[p - 1].as_str())
        invariant
            p <= catalog.len(),
            all == texts(catalog@),
            put_in(all, word@, word_first()) == put_in(all.take(p as int), word@, word_first())
                + all.skip(p as int),
        decreases p,
    {
        proof {
            assert(all[p - 1] == catalog@[p - 1]@);
            lemma_put_in_step(all, word@, word_first(), p as int);
        }
        p -= 1;
    }
    proof {
        if p > 0 {
            assert(all[p - 1] == catalog@[p - 1]@);
        }
        lemma_put_in_stop(all, word@, word_first(), p as int);
    }
    catalog.insert(p, word.clone());
    assert(texts(catalog@) =~= all.insert(p as int, word@));
}

/// Puts a counted label into its place among sorted counted labels.
pub fn put_count(sorted: &mut Vec<(String, usize)>, word: String, count: usize)
    ensures
        count_views(final(sorted)@) == put_in(
            count_views(old(sorted)@),
            (word@, count as nat),
            count_first(),
        ),
{
    let ghost all = count_views(sorted@);
    let ghost x = (word@, count as nat);
    let mut p: usize = sorted.len();
    proof {
        assert(all.take(p as int) =~= all);
        assert(all.skip(p as int) =~= Seq::empty());
        assert(put_in(all, x, count_first()) =~= put_in(all.take(p as int), x, count_first())
            + all.skip(p as int));
    }
    while p > 0 && (count > sorted[p - 1].1 || (count == sorted[p - 1].1 && text_before(
        word.as_str(),
        sorted[p - 1].0.as_str(),
    )))
        invariant
            p <= sorted.len(),
            all == count_views(sorted@),
            x == (word@, count as nat),
            put_in(all, x, count_first()) == put_in(all.take(p as int), x, count_first())
                + all.skip(p as int),
        decreases p,
    {
        proof {
            assert(all[p - 1] == (sorted@[p - 1].0@, sorted@[p - 1].1 as nat));
            lemma_put_in_step(all, x, count_first(), p as int);
        }
        p -= 1;
    }
    proof {
        if p > 0 {
            assert(all[p - 1] == (sorted@[p - 1].0@, sorted@[p - 1].1 as nat));
        }
        lemma_put_in_stop(all, x, count_first(), p as int);
    }
    sorted.insert(p, (word, count));
    assert(count_views(sorted@) =~= all.insert(p as int, x));
}

impl TodoList {
    /// The catalog of the tags (`tags` true) or contexts of the store.
    fn catalog(&self, tags: bool) -> (found: Vec<String>)
        ensures
            texts(found@) == catalog(self@.todos, tags),
    {
        let mut found: Vec<String> = Vec::new();
        let ghost tv = self@.todos;
        let mut i: usize = 0;
        proof {
            assert(tv.take(0) =~= Seq::empty());
            assert(texts(found@) =~= catalog(tv.take(0), tags));
        }
        while i < self.todos.len()
            invariant
                i <= self.todos.len(),
                tv == self@.todos,
                texts(found@) == catalog(tv.take(i as int), tags),
            decreases self.todos.len() - i,
        {
            let words = if tags {
                &self.todos[i].tags
            } else {
                &self.todos[i].contexts
            };
            let ghost all = texts(words@);
            proof {
                assert(tv.take(i + 1).drop_last() =~= tv.take(i as int));
                assert(tv.take(i + 1).last() == self.todos@[i as int]@);
                assert(all.take(0) =~= Seq::empty());
            }
            let mut k: usize = 0;
            while k < words.len()
                invariant
                    k <= words.len(),
                    all == texts(words@),
                    texts(found@) == noted_all(catalog(tv.take(i as int), tags), all.take(k as int)),
                decreases words.len() - k,
            {
                proof {
                    assert(all.take(k + 1).drop_last() =~= all.take(k as int));
                    assert(all.take(k + 1).last() == words@[k as int]@);
                }
                note(&mut found, &words[k]);
                k += 1;
            }
            assert(all.take(words@.len() as int) =~= all);
            i += 1;
        }
        assert(tv.take(self.todos@.len() as int) =~= tv);
        found
    }

    /// The labels of a catalog, each with the number of tasks that carry
    /// it, by falling count and then alphabetically.
    fn tally(&self, tags: bool) -> (counts: Vec<(String, usize)>)
        ensures
            count_views(counts@) == tally(self@, catalog(self@.todos, tags), tags),
    {
        let words = self.catalog(tags);
        let ghost all = texts(words@);
        let mut counts: Vec<(String, usize)> = Vec::new();
        let mut i: usize = 0;
        proof {
            assert(all.take(0) =~= Seq::empty());
            assert(count_views(counts@) =~= tally(self@, all.take(0), tags));
        }
        while i < words.len()
            invariant
                i <= words.len(),
                all == texts(words@),
                count_views(counts@) == tally(self@, all.take(i as int), tags),
            decreases words.len() - i,
        {
            proof {
                assert(all.take(i + 1).drop_last() =~= all.take(i as int));
                assert(all.take(i + 1).last() == words@[i as int]@);
            }
            let word = words[i].clone();
            let filter = if tags {
                Filter::Tag(word.clone())
            } else {
                Filter::Context(word.clone())
            };
            let count = self.count(&filter);
            put_count(&mut counts, word, count);
            i += 1;
        }
        assert(all.take(words@.len() as int) =~= all);
        counts
    }

    /// Every tag of the store once, in alphabetical order.
    pub fn get_all_tags(&self) -> (found: Vec<String>)
        ensures
            texts(found@) == catalog(self@.todos, true),
    {
        self.catalog(true)
    }

    /// Every context of the store once, in alphabetical order.
    pub fn get_all_contexts(&self) -> (found: Vec<String>)
        ensures
            texts(found@) == catalog(self@.todos, false),
    {
        self.catalog(false)
    }

    /// Every tag of the store with the number of tasks that carry it: the
    /// most frequent first, equally frequent ones in alphabetical order.
    pub fn get_tag_counts(&self) -> (counts: Vec<(String, usize)>)
        ensures
            count_views(counts@) == tally(self@, catalog(self@.todos, true), true),
    {
        self.tally(true)
    }

    /// Every context of the store with the number of tasks that carry it:
    /// the most frequent first, equally frequent ones in alphabetical order.
    pub fn get_context_counts(&self) -> (counts: Vec<(String, usize)>)
        ensures
            count_views(counts@) == tally(self@, catalog(self@.todos, false), false),
    {
        self.tally(false)
    }
}


/// Whether no element of `s` has to come before an element that stands
/// before it.
pub open spec fn ordered<T>(s: Seq<T>, first: spec_fn(T, T) -> bool) -> bool {
    forall|a: int, b: int| 0 <= a < b < s.len() ==> !first(#[trigger] s[b], #[trigger] s[a])
}

/// Whether `first` orders like a ranking: never both ways round, and an
/// element that need not come before a second, which need not come before
/// a third, need not come before the third.
pub open spec fn ranks<T>(first: spec_fn(T, T) -> bool) -> bool {
    &&& forall|x: T, y: T| #[trigger] first(x, y) ==> !first(y, x)
    &&& forall|x: T, y: T, z: T| !#[trigger] first(x, y) && !#[trigger] first(y, z) ==> !first(x, z)
}

/// Putting an element into an ordered sequence keeps the order, adds that
/// element and no other, and repeats nothing if nothing was repeated and
/// the element is new.
pub proof fn lemma_put_in<T>(sorted: Seq<T>, x: T, first: spec_fn(T, T) -> bool)
    requires
        ordered(sorted, first),
        ranks(first),
    ensures
        ordered(put_in(sorted, x, first), first),
        put_in(sorted, x, first).len() == sorted.len() + 1,
        forall|y: T| #[trigger] put_in(sorted, x, first).contains(y) <==> sorted.contains(y) || y == x,
        sorted.no_duplicates() && !sorted.contains(x) ==> put_in(sorted, x, first).no_duplicates(),
    decreases sorted.len(),
{
    let out = put_in(sorted, x, first);
    if sorted.len() == 0 {
        assert(out =~= Seq::<T>::empty().push(x));
        assert forall|y: T| #[trigger] out.contains(y) <==> sorted.contains(y) || y == x by {
            assert(out[0] == x);
        }
    } else if first(x, sorted.last()) {
        let init = sorted.drop_last();
        let last = sorted.last();
        assert forall|a: int, b: int| 0 <= a < b < init.len() implies !first(
            #[trigger] init[b],
            #[trigger] init[a],
        ) by {
            assert(init[a] == sorted[a] && init[b] == sorted[b]);
        }
        lemma_put_in(init, x, first);
        let inner = put_in(init, x, first);
        assert(sorted =~= init.push(last));
        assert(out == inner.push(last));
        assert forall|a: int, b: int| 0 <= a < b < out.len() implies !first(
            #[trigger] out[b],
            #[trigger] out[a],
        ) by {
            if b < inner.len() {
                assert(out[a] == inner[a] && out[b] == inner[b]);
            } else {
                assert(out[b] == last);
                assert(out[a] == inner[a]);
                assert(inner.contains(inner[a]));
                if inner[a] != x {
                    assert(init.contains(inner[a]));
                    let k = choose|k: int| 0 <= k < init.len() && init[k] == inner[a];
                    assert(sorted[k] == inner[a]);
                    assert(sorted[sorted.len() - 1] == last);
                }
            }
        }
        assert forall|y: T| #[trigger] out.contains(y) <==> sorted.contains(y) || y == x by {
            if out.contains(y) {
                let k = choose|k: int| 0 <= k < out.len() && out[k] == y;
                if k < inner.len() {
                    assert(inner[k] == y);
                    assert(inner.contains(y));
                    if init.contains(y) {
                        let m = choose|m: int| 0 <= m < init.len() && init[m] == y;
                        assert(sorted[m] == y);
                    }
                } else {
                    assert(sorted[sorted.len() - 1] == y);
                }
            }
            if sorted.contains(y) {
                let k = choose|k: int| 0 <= k < sorted.len() && sorted[k] == y;
                if k < init.len() {
                    assert(init[k] == y);
                    assert(init.contains(y));
                    assert(inner.contains(y));
                    let m = choose|m: int| 0 <= m < inner.len() && inner[m] == y;
                    assert(out[m] == y);
                } else {
                    assert(out[out.len() - 1] == y);
                }
            }
            if y == x {
                assert(inner.contains(x));
                let m = choose|m: int| 0 <= m < inner.len() && inner[m] == x;
                assert(out[m] == x);
            }
        }
        if sorted.no_duplicates() && !sorted.contains(x) {
            assert forall|a: int, b: int| 0 <= a < init.len() && 0 <= b < init.len() && a
                != b implies init[a] != init[b] by {
                assert(sorted[a] != sorted[b]);
            }
            if init.contains(x) {
                let m = choose|m: int| 0 <= m < init.len() && init[m] == x;
                assert(sorted[m] == x);
            }
            assert(inner.no_duplicates());
            assert forall|a: int, b: int| 0 <= a < out.len() && 0 <= b < out.len() && a
                != b implies out[a] != out[b] by {
                if a < inner.len() && b < inner.len() {
                    assert(inner[a] != inner[b]);
                } else {
                    let e = if a < inner.len() {
                        a
                    } else {
                        b
                    };
                    assert(inner.contains(inner[e]));
                    if inner[e] == last {
                        assert(sorted[sorted.len() - 1] == last);
                        assert(sorted.contains(last));
                        assert(init.contains(last));
                        let m = choose|m: int| 0 <= m < init.len() && init[m] == last;
                        assert(sorted[m] == sorted[sorted.len() - 1]);
                    }
                }
            }
        }
    } else {
        assert(out == sorted.push(x));
        assert forall|a: int, b: int| 0 <= a < b < out.len() implies !first(
            #[trigger] out[b],
            #[trigger] out[a],
        ) by {
            if b < sorted.len() {
                assert(out[a] == sorted[a] && out[b] == sorted[b]);
            } else {
                assert(out[b] == x);
                assert(out[a] == sorted[a]);
                if a < sorted.len() - 1 {
                    assert(!first(sorted[sorted.len() - 1], sorted[a]));
                }
            }
        }
        assert forall|y: T| #[trigger] out.contains(y) <==> sorted.contains(y) || y == x by {
            if out.contains(y) {
                let k = choose|k: int| 0 <= k < out.len() && out[k] == y;
                if k < sorted.len() {
                    assert(sorted[k] == y);
                }
            }
            if sorted.contains(y) {
                let k = choose|k: int| 0 <= k < sorted.len() && sorted[k] == y;
                assert(out[k] == y);
            }
            assert(out[sorted.len() as int] == x);
        }
        if sorted.no_duplicates() && !sorted.contains(x) {
            assert forall|a: int, b: int| 0 <= a < out.len() && 0 <= b < out.len() && a
                != b implies out[a] != out[b] by {
                if a < sorted.len() && b < sorted.len() {
                    assert(sorted[a] != sorted[b]);
                } else if a < sorted.len() {
                    assert(sorted.contains(sorted[a]));
                } else {
                    assert(sorted.contains(sorted[b]));
                }
            }
        }
    }
}

/// The order of strings never goes both ways round.
pub proof fn lemma_lex_one_way(a: Seq<char>, b: Seq<char>)
    ensures
        lex_before(a, b) ==> !lex_before(b, a),
    decreases a.len(),
{
    if a.len() > 0 && b.len() > 0 && a[0] == b[0] {
        lemma_lex_one_way(a.drop_first(), b.drop_first());
    }
}

/// A string that does not come before a second, which does not come before
/// a third, does not come before the third.
pub proof fn lemma_lex_chain(x: Seq<char>, y: Seq<char>, z: Seq<char>)
    ensures
        !lex_before(x, y) && !lex_before(y, z) ==> !lex_before(x, z),
    decreases x.len(),
{
    if x.len() == 0 || y.len() == 0 || z.len() == 0 {
        if !lex_before(x, y) && !lex_before(y, z) {
            if y.len() == 0 {
                assert(z.len() == 0);
            }
            if x.len() == 0 {
                assert(y.len() == 0);
                assert(z.len() == 0);
            }
        }
    } else if x[0] == y[0] && y[0] == z[0] {
        lemma_lex_chain(x.drop_first(), y.drop_first(), z.drop_first());
    } else if !lex_before(x, y) && !lex_before(y, z) {
        let a = x[0] as u32;
        let b = y[0] as u32;
        let c = z[0] as u32;
        assert(a >= b);
        assert(b >= c);
        if x[0] == z[0] {
            assert(b == a);
            vstd::utf8::char_u32_cast(x[0], a);
            vstd::utf8::char_u32_cast(y[0], b);
            assert(y[0] == x[0]);
        }
    }
}

/// The alphabetical order of labels is a ranking.
pub proof fn lemma_word_first_ranks()
    ensures
        ranks(word_first()),
{
    let first = word_first();
    assert forall|x: Seq<char>, y: Seq<char>| #[trigger] first(x, y) implies !first(y, x) by {
        lemma_lex_one_way(x, y);
    }
    assert forall|x: Seq<char>, y: Seq<char>, z: Seq<char>|
        !#[trigger] first(x, y) && !#[trigger] first(y, z) implies !first(x, z) by {
        lemma_lex_chain(x, y, z);
    }
}

/// The order of counted labels is a ranking.
pub proof fn lemma_count_first_ranks()
    ensures
        ranks(count_first()),
{
    let first = count_first();
    assert forall|x: (Seq<char>, nat), y: (Seq<char>, nat)| #[trigger] first(x, y) implies !first(
        y,
        x,
    ) by {
        lemma_lex_one_way(x.0, y.0);
    }
    assert forall|x: (Seq<char>, nat), y: (Seq<char>, nat), z: (Seq<char>, nat)|
        !#[trigger] first(x, y) && !#[trigger] first(y, z) implies !first(x, z) by {
        lemma_lex_chain(x.0, y.0, z.0);
    }
}

/// Noting labels in an alphabetical catalog without repetitions gives an
/// alphabetical catalog without repetitions that holds the labels it held
/// and the labels noted.
pub proof fn lemma_noted_all(catalog: Seq<Seq<char>>, words: Seq<Seq<char>>)
    requires
        ordered(catalog, word_first()),
        catalog.no_duplicates(),
    ensures
        ordered(noted_all(catalog, words), word_first()),
        noted_all(catalog, words).no_duplicates(),
        forall|w: Seq<char>|
            #[trigger] noted_all(catalog, words).contains(w) <==> catalog.contains(w)
                || words.contains(w),
    decreases words.len(),
{
    if words.len() > 0 {
        let init = words.drop_last();
        let last = words.last();
        lemma_noted_all(catalog, init);
        let before = noted_all(catalog, init);
        lemma_word_first_ranks();
        lemma_put_in(before, last, word_first());
        let out = noted_all(catalog, words);
        assert forall|w: Seq<char>| #[trigger] out.contains(w) <==> catalog.contains(w)
            || words.contains(w) by {
            if words.contains(w) {
                let k = choose|k: int| 0 <= k < words.len() && words[k] == w;
                if k < init.len() {
                    assert(init[k] == w);
                    assert(init.contains(w));
                }
            }
            if init.contains(w) {
                let k = choose|k: int| 0 <= k < init.len() && init[k] == w;
                assert(words[k] == w);
            }
            assert(words[words.len() - 1] == last);
            assert(before.contains(w) <==> catalog.contains(w) || init.contains(w));
        }
    }
}

/// The labels of a task: its tags (`tags` true) or its contexts.
pub open spec fn labels_of(todo: TodoView, tags: bool) -> Seq<Seq<char>> {
    if tags {
        todo.tags
    } else {
        todo.contexts
    }
}

/// The catalog of the labels of tasks is alphabetical, holds no label
/// twice, and holds exactly the labels that the tasks carry.
pub proof fn lemma_catalog(todos: Seq<TodoView>, tags: bool)
    ensures
        ordered(catalog(todos, tags), word_first()),
        catalog(todos, tags).no_duplicates(),
        forall|w: Seq<char>|
            #[trigger] catalog(todos, tags).contains(w) <==> exists|i: int|
                0 <= i < todos.len() && labels_of(#[trigger] todos[i], tags).contains(w),
    decreases todos.len(),
{
    if todos.len() > 0 {
        let init = todos.drop_last();
        let last = todos.last();
        lemma_catalog(init, tags);
        lemma_noted_all(catalog(init, tags), labels_of(last, tags));
        let out = catalog(todos, tags);
        assert(out == noted_all(catalog(init, tags), labels_of(last, tags)));
        assert forall|w: Seq<char>| #[trigger] out.contains(w) <==> exists|i: int|
            0 <= i < todos.len() && labels_of(#[trigger] todos[i], tags).contains(w) by {
            if out.contains(w) {
                if catalog(init, tags).contains(w) {
                    let i = choose|i: int|
                        0 <= i < init.len() && labels_of(#[trigger] init[i], tags).contains(w);
                    assert(labels_of(todos[i], tags).contains(w));
                } else {
                    assert(labels_of(todos[todos.len() - 1], tags).contains(w));
                }
            }
            if exists|i: int|
                0 <= i < todos.len() && labels_of(#[trigger] todos[i], tags).contains(w) {
                let i = choose|i: int|
                    0 <= i < todos.len() && labels_of(#[trigger] todos[i], tags).contains(w);
                if i < init.len() {
                    assert(labels_of(init[i], tags).contains(w));
                    assert(catalog(init, tags).contains(w));
                } else {
                    assert(labels_of(last, tags).contains(w));
                }
            }
        }
    }
}

/// The counted labels come by falling count and then alphabetically, one
/// for each label handed in, each with the number of tasks that carry it.
pub proof fn lemma_tally(store: TodoListView, words: Seq<Seq<char>>, tags: bool)
    ensures
        ordered(tally(store, words, tags), count_first()),
        tally(store, words, tags).len() == words.len(),
        forall|pair: (Seq<char>, nat)|
            #[trigger] tally(store, words, tags).contains(pair) <==> words.contains(pair.0)
                && pair.1 == store.count(carrying(pair.0, tags)),
    decreases words.len(),
{
    if words.len() > 0 {
        let init = words.drop_last();
        let last = words.last();
        lemma_tally(store, init, tags);
        lemma_count_first_ranks();
        let x = (last, store.count(carrying(last, tags)));
        lemma_put_in(tally(store, init, tags), x, count_first());
        let out = tally(store, words, tags);
        assert forall|pair: (Seq<char>, nat)| #[trigger] out.contains(pair) <==> words.contains(
            pair.0,
        ) && pair.1 == store.count(carrying(pair.0, tags)) by {
            if words.contains(pair.0) {
                let k = choose|k: int| 0 <= k < words.len() && words[k] == pair.0;
                if k < init.len() {
                    assert(init[k] == pair.0);
                    assert(init.contains(pair.0));
                }
            }
            if init.contains(pair.0) {
                let k = choose|k: int| 0 <= k < init.len() && init[k] == pair.0;
                assert(words[k] == pair.0);
            }
            assert(words[words.len() - 1] == last);
            assert(tally(store, init, tags).contains(pair) <==> init.contains(pair.0) && pair.1
                == store.count(carrying(pair.0, tags)));
        }
    }
}

} // verus!
