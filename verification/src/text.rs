use vstd::prelude::*;

verus! {

/// Each item followed by `", "`: how a repetition `#(#items,)*` is written out.
pub open spec fn comma_list(items: Seq<Seq<char>>) -> Seq<char>
    decreases items.len(),
{
    if items.len() == 0 {
        Seq::empty()
    } else {
        comma_list(items.drop_last()) + items.last() + ", "@
    }
}

/// Each item followed by `" + "`: how a repetition `#(#items+)*` is written out.
pub open spec fn plus_list(items: Seq<Seq<char>>) -> Seq<char>
    decreases items.len(),
{
    if items.len() == 0 {
        Seq::empty()
    } else {
        plus_list(items.drop_last()) + items.last() + " + "@
    }
}

/// The items written one after the other.
pub open spec fn joined(items: Seq<Seq<char>>) -> Seq<char>
    decreases items.len(),
{
    if items.len() == 0 {
        Seq::empty()
    } else {
        joined(items.drop_last()) + items.last()
    }
}

/// What an optional piece of code writes: its text, or nothing.
pub open spec fn opt_text(piece: Option<Seq<char>>) -> Seq<char> {
    match piece {
        Some(text) => text,
        None => Seq::empty(),
    }
}

/// A piece of generated code that can be written out as Rust source text.
pub trait EmitCode {
    /// The text that the piece writes.
    spec fn code(&self) -> Seq<char>;

    /// Appends the piece's text to `tokens`.
    fn to_tokens(&self, tokens: &mut String)
        ensures
            final(tokens)@ == old(tokens)@ + self.code(),
    ;
}

/// The texts of all `items`, one after the other.
pub open spec fn all_code<T: EmitCode>(items: Seq<T>) -> Seq<char>
    decreases items.len(),
{
    if items.len() == 0 {
        Seq::empty()
    } else {
        all_code(items.drop_last()) + items.last().code()
    }
}

/// `all_code` of items whose texts are given one by one is the concatenation of those texts.
pub proof fn lemma_all_code_texts<T: EmitCode>(items: Seq<T>, texts: Seq<Seq<char>>)
    requires
        items.len() == texts.len(),
        forall|i: int| 0 <= i < items.len() ==> #[trigger] items[i].code() == texts[i],
    ensures
        all_code(items) == joined(texts),
    decreases items.len(),
{
    if items.len() > 0 {
        lemma_all_code_texts(items.drop_last(), texts.drop_last());
    }
}

/// The whole text of all `items`, in order.
pub fn code_of_all<T: EmitCode>(items: &Vec<T>) -> (res: String)
    ensures
        res@ == all_code(items@),
{
    let mut res = String::new();
    let mut i: usize = 0;
    while i < items.len()
        invariant
            i <= items.len(),
            res@ == all_code(items@.take(i as int)),
        decreases items.len() - i,
    {
        items[i].to_tokens(&mut res);
        assert(items@.take(i + 1).drop_last() =~= items@.take(i as int));
        i = i + 1;
    }
    assert(items@.take(items.len() as int) =~= items@);
    res
}

/// `#(#items,)*` written out.
pub fn comma_list_text(items: &Vec<String>) -> (res: String)
    ensures
        res@ == comma_list(items.deep_view()),
{
    let mut res = String::new();
    let mut i: usize = 0;
    while i < items.len()
        invariant
            i <= items.len(),
            res@ == comma_list(items.deep_view().take(i as int)),
        decreases items.len() - i,
    {
        res.append(items[i].as_str());
        res.append(", ");
        assert(items.deep_view().take(i + 1).drop_last() =~= items.deep_view().take(i as int));
        i = i + 1;
    }
    assert(items.deep_view().take(items.len() as int) =~= items.deep_view());
    res
}

} // verus!

verus! {

/// Whether `part` stands somewhere in `whole`, as one run of characters.
pub open spec fn contains_text(whole: Seq<char>, part: Seq<char>) -> bool {
    exists|before: Seq<char>, after: Seq<char>| #[trigger] (before + part + after) == whole
}

/// A text holds each run that it is made of.
pub proof fn lemma_contains_witness(whole: Seq<char>, before: Seq<char>, part: Seq<char>, after: Seq<char>)
    requires
        whole =~= before + part + after,
    ensures
        contains_text(whole, part),
{
    assert(before + part + after == whole);
}

/// A text holds its beginning.
pub proof fn lemma_contains_prefix(first: Seq<char>, second: Seq<char>)
    ensures
        contains_text(first + second, first),
{
    lemma_contains_witness(first + second, Seq::empty(), first, second);
}

/// A text holds its end.
pub proof fn lemma_contains_suffix(first: Seq<char>, second: Seq<char>)
    ensures
        contains_text(first + second, second),
{
    lemma_contains_witness(first + second, first, second, Seq::empty());
}

/// A text holds what a run of it holds.
pub proof fn lemma_contains_trans(outer: Seq<char>, middle: Seq<char>, inner: Seq<char>)
    requires
        contains_text(outer, middle),
        contains_text(middle, inner),
    ensures
        contains_text(outer, inner),
{
    let (a0, b0) = choose|a: Seq<char>, b: Seq<char>| #[trigger] (a + middle + b) == outer;
    let (a1, b1) = choose|a: Seq<char>, b: Seq<char>| #[trigger] (a + inner + b) == middle;
    lemma_contains_witness(outer, a0 + a1, inner, b1 + b0);
}

/// The texts written one after the other hold each of them.
pub proof fn lemma_joined_contains(items: Seq<Seq<char>>, k: int)
    requires
        0 <= k < items.len(),
    ensures
        contains_text(joined(items), items[k]),
    decreases items.len(),
{
    let rest = items.drop_last();
    if k == items.len() - 1 {
        lemma_contains_witness(joined(items), joined(rest), items[k], Seq::empty());
    } else {
        lemma_joined_contains(rest, k);
        assert(rest[k] == items[k]);
        let (a, b) = choose|a: Seq<char>, b: Seq<char>| #[trigger] (a + items[k] + b) == joined(rest);
        lemma_contains_witness(joined(items), a, items[k], b + items.last());
    }
}

} // verus!
