//! Splitting a line into the stages of a pipeline.
//!
//! Stages are separated by `|` characters that stand outside quotes. Quotes
//! are tracked by a small state machine: a quote character opens a span, the
//! same character closes it, and the other quote character met inside an open
//! span changes the kind of span that is tracked without closing it.

use vstd::prelude::*;
use vstd::string::StrSliceExecFns;
use crate::text::chars_of;

verus! {

/// What the scan of a line knows about quotes at some position.
#[derive(Clone, Copy, Debug, PartialEq, Eq, Structural)]
pub enum Quote {
    /// Outside any quoted span.
    Unquoted,
    /// Inside a span that `'` closes.
    Single,
    /// Inside a span that `"` closes.
    Double,
}

/// The quote state after reading `c` in state `q`.
pub open spec fn quote_step(q: Quote, c: char) -> Quote {
    if c == '\'' {
        if q == Quote::Single {
            Quote::Unquoted
        } else {
            Quote::Single
        }
    } else if c == '"' {
        if q == Quote::Double {
            Quote::Unquoted
        } else {
            Quote::Double
        }
    } else {
        q
    }
}

/// The quote state after reading all of `text`, starting outside quotes.
pub open spec fn quote_after(text: Seq<char>) -> Quote
    decreases text.len(),
{
    if text.len() == 0 {
        Quote::Unquoted
    } else {
        quote_step(quote_after(text.drop_last()), text.last())
    }
}

/// Whether position `i` of `text` holds a `|` that stands outside quotes.
pub open spec fn is_separator(text: Seq<char>, i: int) -> bool {
    &&& 0 <= i < text.len()
    &&& text[i] == '|'
    &&& quote_after(text.take(i)) == Quote::Unquoted
}

/// The positions of the separators of `text`, in increasing order.
pub open spec fn separators(text: Seq<char>) -> Seq<int>
    decreases text.len(),
{
    if text.len() == 0 {
        Seq::empty()
    } else if is_separator(text, text.len() - 1) {
        separators(text.drop_last()).push(text.len() - 1)
    } else {
        separators(text.drop_last())
    }
}

/// Where stage `k` of `text` begins: at the start of the text, or behind separator `k - 1`.
pub open spec fn stage_start(text: Seq<char>, k: int) -> int {
    if k <= 0 {
        0
    } else {
        separators(text)[k - 1] + 1
    }
}

/// Where stage `k` of `text` ends: at separator `k`, or at the end of the text.
pub open spec fn stage_end(text: Seq<char>, k: int) -> int {
    if k >= separators(text).len() {
        text.len() as int
    } else {
        separators(text)[k]
    }
}

/// The stages of `text`: the pieces of text between its separators, in order.
pub open spec fn split_stages(text: Seq<char>) -> Seq<Seq<char>> {
    Seq::new(
        separators(text).len() + 1,
        |k: int| text.subrange(stage_start(text, k), stage_end(text, k)),
    )
}

/// The stages joined again, with one `|` between neighbours.
pub open spec fn join_stages(stages: Seq<Seq<char>>) -> Seq<char>
    decreases stages.len(),
{
    if stages.len() == 0 {
        Seq::empty()
    } else if stages.len() == 1 {
        stages[0]
    } else {
        join_stages(stages.drop_last()).push('|') + stages.last()
    }
}

/// What stands before a position decides whether it is a separator: cutting the
/// text off behind the position changes nothing.
pub proof fn lemma_separator_in_prefix(text: Seq<char>, n: int, i: int)
    requires
        0 <= i < n <= text.len(),
    ensures
        is_separator(text.take(n), i) == is_separator(text, i),
{
    assert(text.take(n).take(i) =~= text.take(i));
}

/// `separators` lists exactly the separators of the text, each once, in increasing order.
pub proof fn lemma_separators(text: Seq<char>)
    ensures
        forall|k: int|
            0 <= k < separators(text).len() ==> is_separator(text, #[trigger] separators(text)[k]),
        forall|j: int, k: int|
            0 <= j < k < separators(text).len() ==> separators(text)[j] < separators(text)[k],
        forall|i: int| is_separator(text, i) ==> separators(text).contains(i),
    decreases text.len(),
{
    if text.len() > 0 {
        let n: int = text.len() - 1;
        let init = text.drop_last();
        let seps = separators(text);
        lemma_separators(init);
        assert forall|i: int| 0 <= i < n implies is_separator(init, i) == is_separator(text, i) by {
            lemma_separator_in_prefix(text, n, i);
        }
        assert forall|i: int| is_separator(text, i) implies seps.contains(i) by {
            if i < n {
                let k = choose|k: int|
                    0 <= k < separators(init).len() && separators(init)[k] == i;
                assert(seps[k] == i);
            } else {
                assert(seps[seps.len() - 1] == i);
            }
        }
    }
}

/// A line with `k` separators has `k + 1` stages.
pub proof fn lemma_stage_count(text: Seq<char>)
    ensures
        Set::new(|i: int| is_separator(text, i)).finite(),
        split_stages(text).len() == Set::new(|i: int| is_separator(text, i)).len() + 1,
{
    let seps = separators(text);
    let positions = Set::new(|i: int| is_separator(text, i));
    lemma_separators(text);
    assert(seps.to_set() =~= positions);
    seps.unique_seq_to_set();
    vstd::seq_lib::seq_to_set_is_finite(seps);
}

/// A line in which every `|` stands inside quotes is one stage: the line itself.
pub proof fn lemma_quoted_pipes_do_not_split(text: Seq<char>)
    requires
        forall|i: int|
            0 <= i < text.len() && text[i] == '|' ==> quote_after(#[trigger] text.take(i))
                != Quote::Unquoted,
    ensures
        split_stages(text) == seq![text],
{
    lemma_separators(text);
    if separators(text).len() > 0 {
        assert(is_separator(text, separators(text)[0]));
    }
    assert(text.subrange(0, text.len() as int) =~= text);
}

/// A line without any `|` is one stage: the line itself.
pub proof fn lemma_no_pipe_one_stage(text: Seq<char>)
    requires
        forall|i: int| 0 <= i < text.len() ==> text[i] != '|',
    ensures
        split_stages(text) == seq![text],
{
    lemma_quoted_pipes_do_not_split(text);
}

/// How the stages grow with the text: a separator at the end opens a new, empty
/// stage; any other character joins the last stage.
pub proof fn lemma_split_extend(text: Seq<char>)
    requires
        text.len() > 0,
    ensures
        split_stages(text.drop_last()).len() > 0,
        is_separator(text, text.len() - 1) ==> split_stages(text) == split_stages(
            text.drop_last(),
        ).push(Seq::empty()),
        !is_separator(text, text.len() - 1) ==> split_stages(text) == split_stages(
            text.drop_last(),
        ).update(
            split_stages(text.drop_last()).len() - 1,
            split_stages(text.drop_last()).last().push(text.last()),
        ),
{
    let n: int = text.len() - 1;
    let init = text.drop_last();
    let before = split_stages(init);
    let after = split_stages(text);
    lemma_separators(init);
    lemma_separators(text);
    if is_separator(text, n) {
        let grown = before.push(Seq::empty());
        assert forall|k: int| 0 <= k < after.len() implies after[k] == grown[k] by {
            if k < before.len() {
                assert(text.subrange(stage_start(text, k), stage_end(text, k)) =~= init.subrange(
                    stage_start(init, k),
                    stage_end(init, k),
                ));
            } else {
                assert(text.subrange(stage_start(text, k), stage_end(text, k)) =~= Seq::<
                    char,
                >::empty());
            }
        }
    } else {
        let last = before.len() - 1;
        let grown = before.update(last, before.last().push(text.last()));
        assert forall|k: int| 0 <= k < after.len() implies after[k] == grown[k] by {
            if k < last {
                assert(text.subrange(stage_start(text, k), stage_end(text, k)) =~= init.subrange(
                    stage_start(init, k),
                    stage_end(init, k),
                ));
            } else {
                assert(text.subrange(stage_start(text, k), stage_end(text, k)) =~= init.subrange(
                    stage_start(init, k),
                    stage_end(init, k),
                ).push(text.last()));
            }
        }
    }
}

/// Nothing is lost and nothing is added: the stages of a line, joined with `|`,
/// are the line.
pub proof fn lemma_join_split(text: Seq<char>)
    ensures
        join_stages(split_stages(text)) == text,
    decreases text.len(),
{
    if text.len() == 0 {
        assert(text.subrange(0, 0) =~= text);
    } else {
        let init = text.drop_last();
        let before = split_stages(init);
        lemma_join_split(init);
        lemma_split_extend(text);
        if is_separator(text, text.len() - 1) {
            assert(before.push(Seq::empty()).drop_last() =~= before);
        } else {
            let last = before.len() - 1;
            let grown = before.update(last, before.last().push(text.last()));
            if before.len() > 1 {
                assert(grown.drop_last() =~= before.drop_last());
            }
            assert(init.push(text.last()) =~= text);
        }
    }
}

/// A character that is no separator belongs to a stage. So a `|` inside quotes
/// never splits: it is one of the characters of the stage around it.
pub proof fn lemma_character_in_stage(text: Seq<char>, i: int) -> (k: int)
    requires
        0 <= i < text.len(),
        !is_separator(text, i),
    ensures
        0 <= k < split_stages(text).len(),
        stage_start(text, k) <= i < stage_end(text, k),
        split_stages(text)[k][i - stage_start(text, k)] == text[i],
    decreases text.len(),
{
    let n: int = text.len() - 1;
    let init = text.drop_last();
    lemma_separators(init);
    lemma_separators(text);
    if i < n {
        lemma_separator_in_prefix(text, n, i);
        lemma_character_in_stage(init, i)
    } else {
        separators(text).len() as int
    }
}

/// Advances the quote state over one character.
pub fn step_quote(q: Quote, c: char) -> (r: Quote)
    ensures
        r == quote_step(q, c),
{
    if c == '\'' {
        match q {
            Quote::Single => Quote::Unquoted,
            _ => Quote::Single,
        }
    } else if c == '"' {
        match q {
            Quote::Double => Quote::Unquoted,
            _ => Quote::Double,
        }
    } else {
        q
    }
}

/// One more character extends the scanned prefix by exactly that character.
proof fn lemma_take_next(text: Seq<char>, i: int)
    requires
        0 <= i < text.len(),
    ensures
        text.take(i + 1).drop_last() == text.take(i),
        text.take(i + 1).last() == text[i],
        text.take(i + 1).take(i) == text.take(i),
        quote_after(text.take(i + 1)) == quote_step(quote_after(text.take(i)), text[i]),
        is_separator(text.take(i + 1), i) == is_separator(text, i),
{
    assert(text.take(i + 1).take(i) =~= text.take(i));
}

/// The bounds of every stage of `chars`, as half-open ranges of positions.
pub fn stage_bounds(chars: &Vec<char>) -> (bounds: Vec<(usize, usize)>)
    ensures
        bounds@.len() == separators(chars@).len() + 1,
        forall|k: int|
            0 <= k < bounds@.len() ==> (#[trigger] bounds@[k]).0 == stage_start(chars@, k)
                && bounds@[k].1 == stage_end(chars@, k),
        forall|k: int|
            0 <= k < bounds@.len() ==> 0 <= (#[trigger] bounds@[k]).0 <= bounds@[k].1
                <= chars@.len(),
{
    let mut bounds: Vec<(usize, usize)> = Vec::new();
    let mut quote = Quote::Unquoted;
    let mut start: usize = 0;
    let mut i: usize = 0;
    while i < chars.len()
        invariant
            i <= chars.len(),
            start <= i,
            quote == quote_after(chars@.take(i as int)),
            bounds@.len() == separators(chars@.take(i as int)).len(),
            start == stage_start(chars@.take(i as int), bounds@.len() as int),
            forall|k: int|
                0 <= k < bounds@.len() ==> (#[trigger] bounds@[k]).0 == stage_start(
                    chars@.take(i as int),
                    k,
                ) && bounds@[k].1 == separators(chars@.take(i as int))[k],
            forall|k: int|
                0 <= k < bounds@.len() ==> 0 <= (#[trigger] bounds@[k]).0 <= bounds@[k].1 < i,
        decreases chars.len() - i,
    {
        let c = chars[i];
        proof {
            lemma_take_next(chars@, i as int);
        }
        if c == '|' && quote == Quote::Unquoted {
            bounds.push((start, i));
            start = i + 1;
        }
        quote = step_quote(quote, c);
        i += 1;
    }
    assert(chars@.take(i as int) =~= chars@);
    bounds.push((start, i));
    bounds
}

/// Splits a line into its stages: the pieces between the `|` characters that stand
/// outside quotes. A line without such a character is a single stage.
pub fn split_pipeline(line: &str) -> (stages: Vec<&str>)
    ensures
        stages@.len() == split_stages(line@).len(),
        forall|k: int|
            0 <= k < stages@.len() ==> (#[trigger] stages@[k])@ == split_stages(line@)[k],
        stages@.len() == Set::new(|i: int| is_separator(line@, i)).len() + 1,
        (forall|i: int| 0 <= i < line@.len() ==> line@[i] != '|') ==> stages@.len() == 1
            && stages@[0]@ == line@,
{
    proof {
        lemma_stage_count(line@);
        if forall|i: int| 0 <= i < line@.len() ==> line@[i] != '|' {
            lemma_no_pipe_one_stage(line@);
        }
    }
    let chars = chars_of(line);
    let bounds = stage_bounds(&chars);
    let mut stages: Vec<&str> = Vec::new();
    let mut k: usize = 0;
    while k < bounds.len()
        invariant
            k <= bounds.len(),
            chars@ == line@,
            bounds@.len() == separators(chars@).len() + 1,
            forall|j: int|
                0 <= j < bounds@.len() ==> (#[trigger] bounds@[j]).0 == stage_start(chars@, j)
                    && bounds@[j].1 == stage_end(chars@, j),
            forall|j: int|
                0 <= j < bounds@.len() ==> 0 <= (#[trigger] bounds@[j]).0 <= bounds@[j].1
                    <= chars@.len(),
            stages@.len() == k,
            forall|j: int| 0 <= j < k ==> (#[trigger] stages@[j])@ == split_stages(line@)[j],
        decreases bounds.len() - k,
    {
        let (from, to) = bounds[k];
        stages.push(line.substring_char(from, to));
        k += 1;
    }
    stages
}

} // verus!
