//! Splitting a line of text into its whitespace-separated fields.

use vstd::prelude::*;
use vstd::string::*;

verus! {

/// The characters that separate fields: space, tab, line feed, carriage return,
/// vertical tab and form feed.
pub open spec fn is_space(c: char) -> bool {
    c == ' ' || c == '\t' || c == '\n' || c == '\r' || c == '\x0b' || c == '\x0c'
}

/// The fields of `s`: its maximal runs of characters that are not separators, in
/// the order in which they stand in `s`.
pub open spec fn fields_of(s: Seq<char>) -> Seq<Seq<char>>
    decreases s.len(),
{
    if s.len() == 0 {
        Seq::empty()
    } else {
        let front = s.drop_last();
        let c = s.last();
        let before = fields_of(front);
        if is_space(c) {
            before
        } else if front.len() > 0 && !is_space(front.last()) && before.len() > 0 {
            before.update(before.len() - 1, before.last().push(c))
        } else {
            before.push(seq![c])
        }
    }
}

/// Whether every character of `s` is a separator.
pub open spec fn all_separators(s: Seq<char>) -> bool {
    forall|i: int| 0 <= i < s.len() ==> is_space(#[trigger] s[i])
}

/// Whether `s` is a word: not empty, and without a separator.
pub open spec fn is_word(s: Seq<char>) -> bool {
    s.len() > 0 && forall|i: int| 0 <= i < s.len() ==> !is_space(#[trigger] s[i])
}

/// Separators at the end of a text add no field.
pub proof fn law_separators_add_no_field(s: Seq<char>, gap: Seq<char>)
    requires
        all_separators(gap),
    ensures
        fields_of(s + gap) == fields_of(s),
    decreases gap.len(),
{
    if gap.len() == 0 {
        assert(s + gap =~= s);
    } else {
        law_separators_add_no_field(s, gap.drop_last());
        assert((s + gap).drop_last() =~= s + gap.drop_last());
        assert((s + gap).last() == gap[gap.len() - 1]);
    }
}

/// A word that follows a separator, or stands at the start of the text, is one
/// more field.
pub proof fn law_word_adds_one_field(s: Seq<char>, word: Seq<char>)
    requires
        s.len() == 0 || is_space(s.last()),
        is_word(word),
    ensures
        fields_of(s + word) == fields_of(s).push(word),
    decreases word.len(),
{
    let text = s + word;
    let c = word.last();
    assert(text.last() == c);
    if word.len() == 1 {
        assert(text.drop_last() =~= s);
        assert(seq![c] =~= word);
    } else {
        let shorter = word.drop_last();
        law_word_adds_one_field(s, shorter);
        assert(text.drop_last() =~= s + shorter);
        assert((s + shorter).last() == word[word.len() - 2]);
        let before = fields_of(s + shorter);
        assert(before.last().push(c) =~= word);
        assert(before.update(before.len() - 1, word) =~= fields_of(s).push(word));
    }
}

/// A line of two words with separators between them, and maybe before and after
/// them, has these two words as its fields.
pub proof fn law_line_of_two_words(
    lead: Seq<char>,
    first: Seq<char>,
    gap: Seq<char>,
    second: Seq<char>,
    trail: Seq<char>,
)
    requires
        all_separators(lead),
        is_word(first),
        all_separators(gap),
        gap.len() > 0,
        is_word(second),
        all_separators(trail),
    ensures
        fields_of(lead + first + gap + second + trail) == seq![first, second],
{
    let empty = Seq::<char>::empty();
    law_separators_add_no_field(empty, lead);
    assert(empty + lead =~= lead);
    assert(fields_of(lead) =~= Seq::<Seq<char>>::empty()) by {
        assert(fields_of(empty) =~= Seq::<Seq<char>>::empty());
    }
    assert(lead.len() == 0 || is_space(lead.last()));
    law_word_adds_one_field(lead, first);
    law_separators_add_no_field(lead + first, gap);
    assert((lead + first + gap).last() == gap.last());
    law_word_adds_one_field(lead + first + gap, second);
    law_separators_add_no_field(lead + first + gap + second, trail);
    assert(Seq::<Seq<char>>::empty().push(first).push(second) =~= seq![first, second]);
}

/// Every field is a word, and a text that ends in a character of a word has a
/// field.
pub proof fn law_fields_are_words(s: Seq<char>)
    ensures
        forall|k: int| 0 <= k < fields_of(s).len() ==> is_word(#[trigger] fields_of(s)[k]),
        s.len() > 0 && !is_space(s.last()) ==> fields_of(s).len() > 0,
    decreases s.len(),
{
    if s.len() > 0 {
        let before = fields_of(s.drop_last());
        let c = s.last();
        law_fields_are_words(s.drop_last());
        assert forall|k: int| 0 <= k < fields_of(s).len() implies is_word(
            #[trigger] fields_of(s)[k],
        ) by {
            if is_space(c) {
            } else if k < fields_of(s).len() - 1 {
                assert(fields_of(s)[k] == before[k]);
            } else if s.drop_last().len() > 0 && !is_space(s.drop_last().last()) {
                let grown = before.last().push(c);
                assert(is_word(before.last()));
                assert(fields_of(s)[k] == grown);
                assert forall|i: int| 0 <= i < grown.len() implies !is_space(
                    #[trigger] grown[i],
                ) by {
                    if i < before.last().len() {
                        assert(grown[i] == before.last()[i]);
                    }
                }
            } else {
                assert(fields_of(s)[k] == seq![c]);
            }
        }
    }
}

/// Whether `c` separates fields.
pub fn is_separator(c: char) -> (b: bool)
    ensures
        b == is_space(c),
{
    c == ' ' || c == '\t' || c == '\n' || c == '\r' || c == '\x0b' || c == '\x0c'
}

/// The views of a vector of strings.
pub open spec fn views(v: Seq<String>) -> Seq<Seq<char>> {
    Seq::new(v.len(), |i: int| v[i]@)
}

/// Whether `spans` marks the fields of the first `i` characters of `s`.
spec fn spans_mark(s: Seq<char>, i: int, spans: Seq<(usize, usize)>) -> bool {
    &&& spans.len() == fields_of(s.take(i)).len()
    &&& forall|k: int|
        0 <= k < spans.len() ==> {
            &&& 0 <= (#[trigger] spans[k]).0 <= spans[k].1 <= i
            &&& s.subrange(spans[k].0 as int, spans[k].1 as int) == fields_of(s.take(i))[k]
        }
    &&& (i > 0 && !is_space(s[i - 1])) ==> spans.len() > 0 && spans.last().1 == i
}

/// Splits `text` into its fields.
pub fn split_fields(text: &str) -> (out: Vec<String>)
    ensures
        views(out@) == fields_of(text@),
{
    let n: usize = text.unicode_len();
    let mut spans: Vec<(usize, usize)> = Vec::new();
    let mut in_field: bool = false;
    let mut i: usize = 0;
    assert(text@.take(0) =~= Seq::<char>::empty());
    while i < n
        invariant
            n == text@.len(),
            0 <= i <= n,
            in_field == (i > 0 && !is_space(text@[i - 1])),
            spans_mark(text@, i as int, spans@),
        decreases n - i,
    {
        let c: char = text.get_char(i);
        proof {
            assert(text@.take(i + 1).drop_last() =~= text@.take(i as int));
            assert(text@.take(i + 1).last() == text@[i as int]);
        }
        if is_separator(c) {
            in_field = false;
        } else if in_field {
            let last: usize = spans.len() - 1;
            let start: usize = spans[last].0;
            spans.set(last, (start, i + 1));
            proof {
                assert(text@.subrange(start as int, i + 1) =~= text@.subrange(
                    start as int,
                    i as int,
                ).push(c));
            }
        } else {
            spans.push((i, i + 1));
            in_field = true;
            proof {
                assert(text@.subrange(i as int, i + 1) =~= seq![c]);
            }
        }
        i = i + 1;
    }
    assert(text@.take(n as int) =~= text@);
    let mut out: Vec<String> = Vec::new();
    let mut k: usize = 0;
    while k < spans.len()
        invariant
            n == text@.len(),
            spans_mark(text@, n as int, spans@),
            text@.take(n as int) == text@,
            0 <= k <= spans.len(),
            out@.len() == k,
            forall|j: int| 0 <= j < k ==> (#[trigger] out@[j])@ == fields_of(text@)[j],
        decreases spans.len() - k,
    {
        let span: (usize, usize) = spans[k];
        out.push(text.substring_char(span.0, span.1).to_owned());
        k = k + 1;
    }
    assert(views(out@) =~= fields_of(text@));
    out
}

} // verus!
