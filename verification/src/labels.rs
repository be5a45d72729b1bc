//! Ordered lists of unique labels. The tags and the keywords of a post are two
//! such lists and follow the same rules.

use vstd::prelude::*;

verus! {

/// Which of the two lists of a post a label belongs to.
#[derive(Clone, Copy, Debug, PartialEq, Eq)]
pub enum Label {
    Tag,
    Keyword,
}

impl Label {
    /// The word for one label, at the start of a sentence.
    pub open spec fn capitalised(self) -> Seq<char> {
        match self {
            Label::Tag => "Tag"@,
            Label::Keyword => "Keyword"@,
        }
    }

    /// The word for one label, inside a sentence.
    pub open spec fn singular(self) -> Seq<char> {
        match self {
            Label::Tag => "tag"@,
            Label::Keyword => "keyword"@,
        }
    }

    /// The word for the whole list.
    pub open spec fn plural(self) -> Seq<char> {
        match self {
            Label::Tag => "tags"@,
            Label::Keyword => "keywords"@,
        }
    }

    fn capitalised_word(self) -> (r: &'static str)
        ensures
            r@ == self.capitalised(),
    {
        match self {
            Label::Tag => "Tag",
            Label::Keyword => "Keyword",
        }
    }

    fn singular_word(self) -> (r: &'static str)
        ensures
            r@ == self.singular(),
    {
        match self {
            Label::Tag => "tag",
            Label::Keyword => "keyword",
        }
    }

    fn plural_word(self) -> (r: &'static str)
        ensures
            r@ == self.plural(),
    {
        match self {
            Label::Tag => "tags",
            Label::Keyword => "keywords",
        }
    }
}

/// The invariant of a list of labels: no entry occurs twice.
pub open spec fn unique(list: Seq<Seq<char>>) -> bool {
    list.no_duplicates()
}

/// The list after `value` has been attached: `value` comes last. There is no
/// such list when `value` is attached already. Labels are compared character
/// by character, so case and blanks count.
pub open spec fn attached(list: Seq<Seq<char>>, value: Seq<char>) -> Option<Seq<Seq<char>>> {
    if list.contains(value) {
        None
    } else {
        Some(list.push(value))
    }
}

/// The list after `value` has been detached: its first occurrence is gone and
/// the others keep their order. There is no such list when `value` is not
/// attached.
pub open spec fn detached(list: Seq<Seq<char>>, value: Seq<char>) -> Option<Seq<Seq<char>>> {
    if list.contains(value) {
        Some(list.remove_value(value))
    } else {
        None
    }
}

/// The message for a label that is attached already.
pub open spec fn already_attached_text(label: Label, value: Seq<char>) -> Seq<char> {
    label.capitalised() + " `"@ + value + "` is already attached to this blog post"@
}

/// The message for a label that is not attached.
pub open spec fn not_attached_text(label: Label, value: Seq<char>) -> Seq<char> {
    label.capitalised() + " `"@ + value + "` was not found in the post's "@ + label.plural()
}

/// Where `value` first stands in the list.
pub fn position(list: &Vec<String>, value: &str) -> (r: Option<usize>)
    ensures
        match r {
            Some(index) => {
                &&& index < list.len()
                &&& list[index as int]@ == value@
                &&& list.deep_view().contains(value@)
                &&& list.deep_view().index_of_first(value@) == Some(index as int)
            },
            None => !list.deep_view().contains(value@),
        },
{
    let wanted = value.to_owned();
    let ghost texts = list.deep_view();
    let mut index: usize = 0;
    while index < list.len()
        invariant
            index <= list.len(),
            texts == list.deep_view(),
            wanted@ == value@,
            forall|i: int| 0 <= i < index ==> texts[i] != value@,
        decreases list.len() - index,
    {
        if list[index] == wanted {
            proof {
                assert(texts[index as int] == value@);
                texts.index_of_first_ensures(value@);
            }
            return Some(index);
        }
        index = index + 1;
    }
    None
}

/// Attaches `value` at the end of the list, unless it is attached already.
pub fn attach(list: &mut Vec<String>, value: String, label: Label) -> (r: Result<(), String>)
    ensures
        match attached(old(list).deep_view(), value@) {
            Some(list_after) => r is Ok && final(list).deep_view() == list_after,
            None => r is Err && r->Err_0@ == already_attached_text(label, value@) && *final(list)
                == *old(list),
        },
        unique(old(list).deep_view()) ==> unique(final(list).deep_view()),
{
    match position(list, value.as_str()) {
        Some(_) => {
            let mut message = label.capitalised_word().to_owned();
            message.append(" `");
            message.append(value.as_str());
            message.append("` is already attached to this blog post");
            Err(message)
        },
        None => {
            let ghost before = list.deep_view();
            list.push(value);
            proof {
                if unique(before) {
                    lemma_attached_unique(before, value@);
                }
            }
            Ok(())
        },
    }
}

/// Detaches the first occurrence of `value`, if there is one.
pub fn detach(list: &mut Vec<String>, value: &str, label: Label) -> (r: Result<(), String>)
    ensures
        match detached(old(list).deep_view(), value@) {
            Some(list_after) => r is Ok && final(list).deep_view() == list_after,
            None => r is Err && r->Err_0@ == not_attached_text(label, value@) && *final(list)
                == *old(list),
        },
        unique(old(list).deep_view()) ==> unique(final(list).deep_view()),
{
    match position(list, value) {
        Some(index) => {
            let ghost before = list.deep_view();
            list.remove(index);
            proof {
                if unique(before) {
                    lemma_detached_unique(before, value@);
                }
            }
            Ok(())
        },
        None => {
            let mut message = label.capitalised_word().to_owned();
            message.append(" `");
            message.append(value);
            message.append("` was not found in the post's ");
            message.append(label.plural_word());
            Err(message)
        },
    }
}

/// The list after each of `values` has been attached in turn; a value that is
/// attached already by then leaves the list as it is.
pub open spec fn attached_each(list: Seq<Seq<char>>, values: Seq<Seq<char>>) -> Seq<Seq<char>>
    decreases values.len(),
{
    if values.len() == 0 {
        list
    } else {
        let before = attached_each(list, values.drop_last());
        match attached(before, values.last()) {
            Some(list_after) => list_after,
            None => before,
        }
    }
}

/// One line for each of `values` that could not be attached, in their order.
pub open spec fn attach_complaints(
    list: Seq<Seq<char>>,
    values: Seq<Seq<char>>,
    label: Label,
) -> Seq<Seq<char>>
    decreases values.len(),
{
    if values.len() == 0 {
        Seq::empty()
    } else {
        let lines = attach_complaints(list, values.drop_last(), label);
        match attached(attached_each(list, values.drop_last()), values.last()) {
            Some(_) => lines,
            None => lines.push(
                "Unable to add "@ + label.singular() + ": "@ + already_attached_text(
                    label,
                    values.last(),
                ),
            ),
        }
    }
}

/// The list after each of `values` has been detached in turn; a value that is
/// not attached by then leaves the list as it is.
pub open spec fn detached_each(list: Seq<Seq<char>>, values: Seq<Seq<char>>) -> Seq<Seq<char>>
    decreases values.len(),
{
    if values.len() == 0 {
        list
    } else {
        let before = detached_each(list, values.drop_last());
        match detached(before, values.last()) {
            Some(list_after) => list_after,
            None => before,
        }
    }
}

/// One line for each of `values` that could not be detached, in their order.
pub open spec fn detach_complaints(
    list: Seq<Seq<char>>,
    values: Seq<Seq<char>>,
    label: Label,
) -> Seq<Seq<char>>
    decreases values.len(),
{
    if values.len() == 0 {
        Seq::empty()
    } else {
        let lines = detach_complaints(list, values.drop_last(), label);
        match detached(detached_each(list, values.drop_last()), values.last()) {
            Some(_) => lines,
            None => lines.push(
                "Unable to remove "@ + label.singular() + ": "@ + not_attached_text(
                    label,
                    values.last(),
                ),
            ),
        }
    }
}

/// Attaches each of `values` in turn. A value that cannot be attached gets a
/// line in the result and does not keep the later ones from being attached.
pub fn attach_each(list: &mut Vec<String>, values: &Vec<String>, label: Label) -> (lines: Vec<
    String,
>)
    ensures
        final(list).deep_view() == attached_each(old(list).deep_view(), values.deep_view()),
        lines.deep_view() == attach_complaints(old(list).deep_view(), values.deep_view(), label),
        unique(old(list).deep_view()) ==> unique(final(list).deep_view()),
{
    let ghost start = list.deep_view();
    let ghost all = values.deep_view();
    let mut lines: Vec<String> = Vec::new();
    let mut done: usize = 0;
    while done < values.len()
        invariant
            done <= values.len(),
            all == values.deep_view(),
            list.deep_view() == attached_each(start, all.take(done as int)),
            lines.deep_view() == attach_complaints(start, all.take(done as int), label),
            unique(start) ==> unique(list.deep_view()),
        decreases values.len() - done,
    {
        assert(all.take(done + 1).drop_last() =~= all.take(done as int));
        match attach(list, values[done].clone(), label) {
            Ok(()) => {},
            Err(cause) => {
                let mut line = "Unable to add ".to_owned();
                line.append(label.singular_word());
                line.append(": ");
                line.append(cause.as_str());
                lines.push(line);
            },
        }
        done = done + 1;
    }
    assert(all.take(done as int) =~= all);
    lines
}

/// Detaches each of `values` in turn. A value that cannot be detached gets a
/// line in the result and does not keep the later ones from being detached.
pub fn detach_each(list: &mut Vec<String>, values: &Vec<String>, label: Label) -> (lines: Vec<
    String,
>)
    ensures
        final(list).deep_view() == detached_each(old(list).deep_view(), values.deep_view()),
        lines.deep_view() == detach_complaints(old(list).deep_view(), values.deep_view(), label),
        unique(old(list).deep_view()) ==> unique(final(list).deep_view()),
{
    let ghost start = list.deep_view();
    let ghost all = values.deep_view();
    let mut lines: Vec<String> = Vec::new();
    let mut done: usize = 0;
    while done < values.len()
        invariant
            done <= values.len(),
            all == values.deep_view(),
            list.deep_view() == detached_each(start, all.take(done as int)),
            lines.deep_view() == detach_complaints(start, all.take(done as int), label),
            unique(start) ==> unique(list.deep_view()),
        decreases values.len() - done,
    {
        assert(all.take(done + 1).drop_last() =~= all.take(done as int));
        match detach(list, values[done].as_str(), label) {
            Ok(()) => {},
            Err(cause) => {
                let mut line = "Unable to remove ".to_owned();
                line.append(label.singular_word());
                line.append(": ");
                line.append(cause.as_str());
                lines.push(line);
            },
        }
        done = done + 1;
    }
    assert(all.take(done as int) =~= all);
    lines
}

/// The lines that show a list: one bulleted line for each label in the order
/// in which they were attached, or one line that says that there is none.
pub open spec fn listing(list: Seq<Seq<char>>, label: Label) -> Seq<Seq<char>> {
    if list.len() == 0 {
        seq!["This post has no "@ + label.plural()]
    } else {
        Seq::new(list.len(), |i: int| "* "@ + list[i])
    }
}

/// Builds the lines that show a list.
pub fn list_lines(list: &Vec<String>, label: Label) -> (lines: Vec<String>)
    ensures
        lines.deep_view() == listing(list.deep_view(), label),
{
    let mut lines: Vec<String> = Vec::new();
    if list.len() == 0 {
        let mut line = "This post has no ".to_owned();
        line.append(label.plural_word());
        lines.push(line);
        return lines;
    }
    let mut done: usize = 0;
    while done < list.len()
        invariant
            done <= list.len(),
            lines.len() == done,
            forall|i: int| 0 <= i < done ==> lines[i]@ == "* "@ + #[trigger] list[i]@,
        decreases list.len() - done,
    {
        let mut line = "* ".to_owned();
        line.append(list[done].as_str());
        lines.push(line);
        done = done + 1;
    }
    lines
}

/// On an empty list, attaching a label succeeds and gives the list of that one
/// label; attaching it a second time fails, so the list stays as it is.
pub proof fn lemma_attach_twice(value: Seq<char>)
    ensures
        attached(Seq::empty(), value) == Some(seq![value]),
        attached(seq![value], value) is None,
{
    assert(seq![value][0] == value);
}

/// Attaching two different labels to an empty list gives the two in the order
/// in which they were attached.
pub proof fn lemma_attach_keeps_order(first: Seq<char>, second: Seq<char>)
    requires
        first != second,
    ensures
        attached(Seq::empty(), first) == Some(seq![first]),
        attached(seq![first], second) == Some(seq![first, second]),
{
}

/// A label that is attached to any list comes last, behind the labels that
/// were there, which keep their places.
pub proof fn lemma_attach_appends(list: Seq<Seq<char>>, value: Seq<char>)
    requires
        !list.contains(value),
    ensures
        attached(list, value) == Some(list + seq![value]),
{
}

/// Detaching a label that is not attached fails, whatever the list holds.
pub proof fn lemma_detach_absent(list: Seq<Seq<char>>, value: Seq<char>)
    requires
        !list.contains(value),
    ensures
        detached(list, value) is None,
{
}

/// Detaching takes out the first occurrence of the label and nothing else:
/// what stood before it and what stood behind it stay, in their order.
pub proof fn lemma_detach_takes_first(list: Seq<Seq<char>>, value: Seq<char>, index: int)
    requires
        0 <= index < list.len(),
        list[index] == value,
        forall|i: int| 0 <= i < index ==> list[i] != value,
    ensures
        detached(list, value) == Some(
            list.subrange(0, index) + list.subrange(index + 1, list.len() as int),
        ),
{
    list.index_of_first_ensures(value);
}

/// Attaching a label and detaching it again gives back the list from before.
/// From an empty list this gives an empty list.
pub proof fn lemma_attach_then_detach(list: Seq<Seq<char>>, value: Seq<char>)
    requires
        !list.contains(value),
    ensures
        attached(list, value) == Some(list.push(value)),
        detached(list.push(value), value) == Some(list),
        list.len() == 0 ==> detached(seq![value], value) == Some(Seq::<Seq<char>>::empty()),
{
    let longer = list.push(value);
    assert(longer[list.len() as int] == value);
    longer.index_of_first_ensures(value);
    assert(longer.remove(longer.index_of_first(value)->0) =~= list);
    if list.len() == 0 {
        assert(list =~= Seq::<Seq<char>>::empty());
    }
}

/// Attaching keeps a list free of duplicates.
pub proof fn lemma_attached_unique(list: Seq<Seq<char>>, value: Seq<char>)
    requires
        unique(list),
    ensures
        match attached(list, value) {
            Some(list_after) => unique(list_after),
            None => true,
        },
{
}

/// Detaching keeps a list free of duplicates, and the label is gone from it.
pub proof fn lemma_detached_unique(list: Seq<Seq<char>>, value: Seq<char>)
    requires
        unique(list),
    ensures
        match detached(list, value) {
            Some(list_after) => unique(list_after) && !list_after.contains(value),
            None => true,
        },
{
    if list.contains(value) {
        list.index_of_first_ensures(value);
        let index = list.index_of_first(value)->0;
        let after = list.remove(index);
        assert forall|i: int, j: int|
            0 <= i < after.len() && 0 <= j < after.len() && i != j implies after[i] != after[j] by {
            assert(after[i] == list[if i < index { i } else { i + 1 }]);
            assert(after[j] == list[if j < index { j } else { j + 1 }]);
        }
        assert forall|i: int| 0 <= i < after.len() implies after[i] != value by {
            assert(after[i] == list[if i < index { i } else { i + 1 }]);
        }
    }
}

} // verus!
