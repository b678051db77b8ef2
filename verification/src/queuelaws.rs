//! What holds between the queue of edges and the picture of the buttons.
use crate::known::{lemma_entries, named, Known};
use crate::spiceapi::{batches, mentions, Edge};
use vstd::prelude::*;

verus! {

/// Whether edge `i` is the last one about its button.
pub open spec fn last_word(queue: Seq<Edge>, i: int) -> bool {
    0 <= i < queue.len() && forall|j: int|
        i < j < queue.len() ==> (#[trigger] queue[j]).0@ != queue[i].0@
}

/// Whether the picture holds, of every button that is queued, what its last edge in
/// the queue says.
pub open spec fn agree(queue: Seq<Edge>, known: Map<Seq<char>, bool>) -> bool {
    forall|i: int|
        #![trigger queue[i]]
        last_word(queue, i) ==> known.contains_key(queue[i].0@) && known[queue[i].0@] == queue[i].1
}

/// What the game believes of the buttons after it was told these edges.
pub open spec fn told(picture: Map<Seq<char>, bool>, queue: Seq<Edge>) -> Map<Seq<char>, bool>
    decreases queue.len(),
{
    if queue.len() == 0 {
        picture
    } else {
        told(picture, queue.drop_last()).insert(queue.last().0@, queue.last().1)
    }
}

/// An empty queue agrees with every picture.
pub proof fn an_empty_queue_agrees(known: Map<Seq<char>, bool>)
    ensures
        agree(Seq::empty(), known),
{
}

/// Queueing an edge and noting it in the picture keeps the two in agreement.
pub proof fn queueing_keeps_agreement(
    queue: Seq<Edge>,
    known: Map<Seq<char>, bool>,
    name: &'static str,
    down: bool,
)
    requires
        agree(queue, known),
    ensures
        agree(queue.push((name, down)), known.insert(name@, down)),
{
    let longer = queue.push((name, down));
    assert forall|i: int| #![trigger longer[i]] last_word(longer, i) implies known.insert(
        name@,
        down,
    ).contains_key(longer[i].0@) && known.insert(name@, down)[longer[i].0@] == longer[i].1 by {
        if i < queue.len() {
            assert(longer[queue.len() as int].0@ != longer[i].0@);
            assert(queue[i] == longer[i]);
            assert forall|j: int| i < j < queue.len() implies (#[trigger] queue[j]).0@
                != queue[i].0@ by {
                assert(longer[j] == queue[j]);
            }
            assert(last_word(queue, i));
        }
    }
}

/// Sending from the front of the queue keeps what is left in agreement with the
/// picture.
pub proof fn sending_keeps_agreement(queue: Seq<Edge>, known: Map<Seq<char>, bool>, n: int)
    requires
        agree(queue, known),
        0 <= n <= queue.len(),
    ensures
        agree(queue.skip(n), known),
{
    let rest = queue.skip(n);
    assert forall|i: int| #![trigger rest[i]] last_word(rest, i) implies known.contains_key(
        rest[i].0@,
    ) && known[rest[i].0@] == rest[i].1 by {
        assert(rest[i] == queue[i + n]);
        assert forall|j: int| i + n < j < queue.len() implies (#[trigger] queue[j]).0@
            != queue[i + n].0@ by {
            assert(rest[j - n] == queue[j]);
        }
        assert(last_word(queue, i + n));
    }
}

proof fn lemma_told(picture: Map<Seq<char>, bool>, queue: Seq<Edge>, name: Seq<char>)
    ensures
        !mentions(queue, name) ==> told(picture, queue).contains_key(name) == picture.contains_key(
            name,
        ) && told(picture, queue)[name] == picture[name],
        mentions(queue, name) ==> told(picture, queue).contains_key(name) && exists|i: int|
            last_word(queue, i) && (#[trigger] queue[i]).0@ == name && told(picture, queue)[name]
                == queue[i].1,
    decreases queue.len(),
{
    if queue.len() > 0 {
        let rest = queue.drop_last();
        let n = queue.len() - 1;
        lemma_told(picture, rest, name);
        if mentions(queue, name) {
            if queue[n].0@ == name {
                assert(last_word(queue, n));
            } else {
                let k = choose|k: int| 0 <= k < queue.len() && (#[trigger] queue[k]).0@ == name;
                assert(rest[k] == queue[k]);
                assert(mentions(rest, name));
                let i = choose|i: int|
                    last_word(rest, i) && (#[trigger] rest[i]).0@ == name && told(
                        picture,
                        rest,
                    )[name] == rest[i].1;
                assert(queue[i] == rest[i]);
                assert forall|j: int| i < j < queue.len() implies (#[trigger] queue[j]).0@
                    != queue[i].0@ by {
                    if j < n {
                        assert(rest[j] == queue[j]);
                    }
                }
                assert(last_word(queue, i));
            }
        } else {
            assert(queue[n].0@ != name);
            if mentions(rest, name) {
                let k = choose|k: int| 0 <= k < rest.len() && (#[trigger] rest[k]).0@ == name;
                assert(queue[k] == rest[k]);
            }
        }
    }
}

/// The queue brings the game up to date: told a queue that agrees with the picture,
/// a game that was right about every other button believes exactly the picture.
pub proof fn the_queue_brings_the_game_up_to_date(
    believed: Map<Seq<char>, bool>,
    queue: Seq<Edge>,
    known: Map<Seq<char>, bool>,
)
    requires
        agree(queue, known),
        forall|n: Seq<char>|
            !mentions(queue, n) ==> #[trigger] believed.contains_key(n) == known.contains_key(n),
        forall|n: Seq<char>|
            !mentions(queue, n) && #[trigger] known.contains_key(n) ==> believed[n] == known[n],
    ensures
        told(believed, queue) == known,
{
    let t = told(believed, queue);
    assert forall|n: Seq<char>| #[trigger] t.contains_key(n) == known.contains_key(n) by {
        lemma_told(believed, queue, n);
        if mentions(queue, n) {
            let i = choose|i: int| last_word(queue, i) && (#[trigger] queue[i]).0@ == n;
            assert(known.contains_key(queue[i].0@));
        } else {
            assert(believed.contains_key(n) == known.contains_key(n));
        }
    }
    assert forall|n: Seq<char>| t.contains_key(n) implies #[trigger] t[n] == known[n] by {
        lemma_told(believed, queue, n);
        if mentions(queue, n) {
            let i = choose|i: int|
                last_word(queue, i) && (#[trigger] queue[i]).0@ == n && t[n] == queue[i].1;
            assert(known[queue[i].0@] == queue[i].1);
        }
    }
    assert(t =~= known);
}

proof fn lemma_told_concat(picture: Map<Seq<char>, bool>, a: Seq<Edge>, b: Seq<Edge>)
    ensures
        told(told(picture, a), b) == told(picture, a + b),
    decreases b.len(),
{
    if b.len() == 0 {
        assert(a + b =~= a);
    } else {
        lemma_told_concat(picture, a, b.drop_last());
        assert((a + b).drop_last() =~= a + b.drop_last());
    }
}

/// What the game believes after it was told these batches, one after the other.
pub open spec fn told_batches(picture: Map<Seq<char>, bool>, b: Seq<Seq<Edge>>) -> Map<
    Seq<char>,
    bool,
>
    decreases b.len(),
{
    if b.len() == 0 {
        picture
    } else {
        told_batches(told(picture, b.first()), b.drop_first())
    }
}

/// Telling the game a queue in batches is telling it the queue.
pub proof fn batches_tell_the_queue(picture: Map<Seq<char>, bool>, queue: Seq<Edge>)
    ensures
        told_batches(picture, batches(queue)) == told(picture, queue),
{
    crate::spiceapi::batches_keep_the_queue_in_order(queue);
    lemma_told_batches(picture, batches(queue));
}

proof fn lemma_told_batches(picture: Map<Seq<char>, bool>, b: Seq<Seq<Edge>>)
    ensures
        told_batches(picture, b) == told(picture, b.flatten()),
    decreases b.len(),
{
    if b.len() > 0 {
        lemma_told_batches(told(picture, b.first()), b.drop_first());
        lemma_told_concat(picture, b.first(), b.drop_first().flatten());
    }
}

/// The picture brings any game up to date, whatever it believed: told the picture, it
/// believes of every known button what is known, and of any other what it believed.
pub proof fn the_picture_brings_any_game_up_to_date(
    believed: Map<Seq<char>, bool>,
    known: Known,
    name: Seq<char>,
)
    requires
        known.wf(),
    ensures
        known@.contains_key(name) ==> told(believed, known.entries@).contains_key(name) && told(
            believed,
            known.entries@,
        )[name] == known@[name],
        !known@.contains_key(name) ==> told(believed, known.entries@).contains_key(name)
            == believed.contains_key(name) && told(believed, known.entries@)[name]
            == believed[name],
{
    let all = known.entries@;
    let l = named(all);
    lemma_entries(known);
    lemma_told(believed, all, name);
    if mentions(all, name) {
        let i = choose|i: int|
            last_word(all, i) && (#[trigger] all[i]).0@ == name && told(believed, all)[name]
                == all[i].1;
        assert(l[i].0 == name);
    }
    if known@.contains_key(name) {
        let i = choose|i: int| 0 <= i < l.len() && (#[trigger] l[i]).0 == name;
        assert(all[i].0@ == name);
    }
}

} // verus!
