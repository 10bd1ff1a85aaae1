//! Bullet text for a group of facts: one line for each fact that holds.

use vstd::prelude::*;
use vstd::string::*;

verus! {

/// The labels of the facts that hold, in the order in which the labels are given.
pub open spec fn selected(facts: Seq<bool>, labels: Seq<Seq<char>>) -> Seq<Seq<char>>
    recommends
        facts.len() == labels.len(),
    decreases facts.len(),
{
    if facts.len() == 0 || labels.len() == 0 {
        Seq::empty()
    } else {
        let before = selected(facts.drop_last(), labels.drop_last());
        if facts.last() {
            before.push(labels.last())
        } else {
            before
        }
    }
}

/// The lines one after the other, each ended by a newline.
pub open spec fn join_lines(lines: Seq<Seq<char>>) -> Seq<char>
    decreases lines.len(),
{
    if lines.len() == 0 {
        Seq::empty()
    } else {
        join_lines(lines.drop_last()) + lines.last() + seq!['\n']
    }
}

/// What one fact adds to the text: its label and a newline where it holds,
/// nothing where it does not.
pub open spec fn line(holds: bool, label: Seq<char>) -> Seq<char> {
    if holds {
        label + seq!['\n']
    } else {
        Seq::empty()
    }
}

/// How many of the facts hold.
pub open spec fn count_true(facts: Seq<bool>) -> nat
    decreases facts.len(),
{
    if facts.len() == 0 {
        0
    } else {
        count_true(facts.drop_last()) + if facts.last() { 1nat } else { 0nat }
    }
}

/// How many newlines the text holds.
pub open spec fn newlines(text: Seq<char>) -> nat
    decreases text.len(),
{
    if text.len() == 0 {
        0
    } else {
        newlines(text.drop_last()) + if text.last() == '\n' { 1nat } else { 0nat }
    }
}

/// Whether the label stays on one line.
pub open spec fn on_one_line(label: Seq<char>) -> bool {
    forall|k: int| 0 <= k < label.len() ==> label[k] != '\n'
}

/// Of a group in which no fact holds, nothing is selected.
pub proof fn lemma_nothing_holds_nothing_selected(facts: Seq<bool>, labels: Seq<Seq<char>>)
    requires
        forall|i: int| 0 <= i < facts.len() ==> !facts[i],
    ensures
        selected(facts, labels) == Seq::<Seq<char>>::empty(),
        join_lines(selected(facts, labels)) == Seq::<char>::empty(),
    decreases facts.len(),
{
    if facts.len() != 0 && labels.len() != 0 {
        lemma_nothing_holds_nothing_selected(facts.drop_last(), labels.drop_last());
    }
}

/// As many labels are selected as facts hold.
pub proof fn lemma_selected_len(facts: Seq<bool>, labels: Seq<Seq<char>>)
    requires
        facts.len() == labels.len(),
    ensures
        selected(facts, labels).len() == count_true(facts),
    decreases facts.len(),
{
    if facts.len() != 0 {
        lemma_selected_len(facts.drop_last(), labels.drop_last());
    }
}

/// No more facts hold among the first `i` than among all of them.
pub proof fn lemma_count_true_take(facts: Seq<bool>, i: int)
    requires
        0 <= i <= facts.len(),
    ensures
        count_true(facts.take(i)) <= count_true(facts),
        i < facts.len() && facts[i] ==> count_true(facts.take(i)) < count_true(facts),
    decreases facts.len(),
{
    if i == facts.len() {
        assert(facts.take(i) =~= facts);
    } else {
        assert(facts.drop_last().take(i) =~= facts.take(i));
        if i == facts.len() - 1 {
            assert(facts.take(i) =~= facts.drop_last());
        } else {
            lemma_count_true_take(facts.drop_last(), i);
        }
    }
}

/// The label of a fact that holds stands in the selection, after the labels of
/// the facts that hold before it and of no others: whatever facts hold, the
/// lines keep the order of the labels.
pub proof fn lemma_selected_keeps_order(facts: Seq<bool>, labels: Seq<Seq<char>>, i: int)
    requires
        facts.len() == labels.len(),
        0 <= i < facts.len(),
        facts[i],
    ensures
        count_true(facts.take(i)) < selected(facts, labels).len(),
        selected(facts, labels)[count_true(facts.take(i)) as int] == labels[i],
    decreases facts.len(),
{
    lemma_selected_len(facts, labels);
    lemma_count_true_take(facts, i);
    let fewer = facts.drop_last();
    let fewer_labels = labels.drop_last();
    lemma_selected_len(fewer, fewer_labels);
    if i == facts.len() - 1 {
        assert(facts.take(i) =~= fewer);
    } else {
        assert(fewer.take(i) =~= facts.take(i));
        lemma_selected_keeps_order(fewer, fewer_labels, i);
    }
}

/// Every selected label is the label of a fact that holds.
pub proof fn lemma_selected_only_what_holds(facts: Seq<bool>, labels: Seq<Seq<char>>, k: int)
    requires
        facts.len() == labels.len(),
        0 <= k < selected(facts, labels).len(),
    ensures
        exists|i: int|
            0 <= i < facts.len() && facts[i] && count_true(facts.take(i)) == k
                && #[trigger] labels[i] == selected(facts, labels)[k],
    decreases facts.len(),
{
    lemma_selected_len(facts, labels);
    let fewer = facts.drop_last();
    let fewer_labels = labels.drop_last();
    lemma_selected_len(fewer, fewer_labels);
    let last = facts.len() - 1;
    if facts.last() && k == count_true(fewer) {
        assert(facts.take(last) =~= fewer);
        assert(labels[last] == selected(facts, labels)[k]);
    } else {
        lemma_selected_only_what_holds(fewer, fewer_labels, k);
        let i = choose|i: int|
            0 <= i < fewer.len() && fewer[i] && count_true(fewer.take(i)) == k
                && #[trigger] fewer_labels[i] == selected(fewer, fewer_labels)[k];
        assert(fewer.take(i) =~= facts.take(i));
        assert(labels[i] == selected(facts, labels)[k]);
    }
}

/// The text of a group is the text of the group without its last fact, and
/// then what the last fact adds.
pub proof fn lemma_last_fact_comes_last(facts: Seq<bool>, labels: Seq<Seq<char>>)
    requires
        facts.len() == labels.len(),
        facts.len() > 0,
    ensures
        join_lines(selected(facts, labels)) == join_lines(
            selected(facts.drop_last(), labels.drop_last()),
        ) + line(facts.last(), labels.last()),
{
    let before = selected(facts.drop_last(), labels.drop_last());
    if facts.last() {
        assert(before.push(labels.last()).drop_last() =~= before);
    } else {
        assert(join_lines(before) + Seq::<char>::empty() =~= join_lines(before));
    }
}

/// The newlines of two texts put together are those of the one and those of
/// the other.
pub proof fn lemma_newlines_add_up(a: Seq<char>, b: Seq<char>)
    ensures
        newlines(a + b) == newlines(a) + newlines(b),
    decreases b.len(),
{
    if b.len() == 0 {
        assert(a + b =~= a);
    } else {
        assert((a + b).drop_last() =~= a + b.drop_last());
        lemma_newlines_add_up(a, b.drop_last());
    }
}

/// A label that stays on one line holds no newline.
pub proof fn lemma_no_newline_on_one_line(label: Seq<char>)
    requires
        on_one_line(label),
    ensures
        newlines(label) == 0,
    decreases label.len(),
{
    if label.len() != 0 {
        lemma_no_newline_on_one_line(label.drop_last());
    }
}

/// Where every label stays on one line, the text of a group has one line for
/// each fact that holds, and no other.
pub proof fn lemma_one_line_for_each_fact(facts: Seq<bool>, labels: Seq<Seq<char>>)
    requires
        facts.len() == labels.len(),
        forall|i: int| 0 <= i < labels.len() ==> on_one_line(#[trigger] labels[i]),
    ensures
        newlines(join_lines(selected(facts, labels))) == count_true(facts),
    decreases facts.len(),
{
    if facts.len() != 0 {
        let before = join_lines(selected(facts.drop_last(), labels.drop_last()));
        lemma_one_line_for_each_fact(facts.drop_last(), labels.drop_last());
        lemma_last_fact_comes_last(facts, labels);
        lemma_newlines_add_up(before, line(facts.last(), labels.last()));
        if facts.last() {
            let end = seq!['\n'];
            lemma_no_newline_on_one_line(labels.last());
            lemma_newlines_add_up(labels.last(), end);
            assert(end.drop_last() =~= Seq::<char>::empty());
            assert(newlines(end) == 1) by {
                assert(newlines(end.drop_last()) == 0);
            }
        }
    }
}

/// The character sequences that the string slices stand for.
pub open spec fn views(labels: Seq<&str>) -> Seq<Seq<char>> {
    Seq::new(labels.len(), |i: int| labels[i]@)
}

/// The text of a group: for each fact that holds its label and a newline, in
/// the order of the labels.
pub(crate) fn render_group(facts: &Vec<bool>, labels: &Vec<&str>) -> (text: String)
    requires
        facts@.len() == labels@.len(),
    ensures
        text@ == join_lines(selected(facts@, views(labels@))),
{
    let mut text = String::new();
    let mut i: usize = 0;
    while i < facts.len()
        invariant
            facts@.len() == labels@.len(),
            0 <= i <= facts@.len(),
            text@ == join_lines(selected(facts@.take(i as int), views(labels@).take(i as int))),
        decreases facts@.len() - i,
    {
        proof {
            let f = facts@.take(i + 1);
            let l = views(labels@).take(i + 1);
            assert(f.drop_last() =~= facts@.take(i as int));
            assert(l.drop_last() =~= views(labels@).take(i as int));
            assert(f.last() == facts@[i as int]);
            assert(l.last() == labels@[i as int]@);
            reveal_strlit("\n");
            assert("\n"@ =~= seq!['\n']);
        }
        if facts[i] {
            text.append(labels[i]);
            text.append("\n");
            proof {
                let before = selected(facts@.take(i as int), views(labels@).take(i as int));
                let now = before.push(labels@[i as int]@);
                assert(now.drop_last() =~= before);
            }
        }
        i += 1;
    }
    proof {
        assert(facts@.take(i as int) =~= facts@);
        assert(views(labels@).take(i as int) =~= views(labels@));
    }
    text
}

} // verus!
