use vstd::prelude::*;

verus! {

/// Whether `c` is an ASCII letter, digit or underscore.
pub open spec fn ident_char(c: char) -> bool {
    ('a' <= c && c <= 'z') || ('A' <= c && c <= 'Z') || ('0' <= c && c <= '9') || c == '_'
}

/// Whether `word` stands at position `i` of `text` with no ASCII letter, digit or underscore
/// right before or after it.
pub open spec fn word_at(text: Seq<char>, word: Seq<char>, i: int) -> bool {
    &&& 0 <= i
    &&& i + word.len() <= text.len()
    &&& text.subrange(i, i + word.len()) == word
    &&& (i == 0 || !ident_char(text[i - 1]))
    &&& (i + word.len() == text.len() || !ident_char(text[i + word.len()]))
}

/// The whitespace that the searches below step over.
pub open spec fn plain_space(c: char) -> bool {
    c == ' ' || c == '\t' || c == '\n' || c == '\r'
}

/// Rust's other whitespace characters.
pub open spec fn other_space(c: char) -> bool {
    c == '\u{0B}' || c == '\u{0C}' || c == '\u{85}' || c == '\u{200E}' || c == '\u{200F}'
        || c == '\u{2028}' || c == '\u{2029}'
}

/// The first character at or after position `i` that is not plain whitespace.
pub open spec fn next_significant(text: Seq<char>, i: int) -> Option<char>
    decreases text.len() - i,
{
    if i < 0 || i >= text.len() {
        None
    } else if plain_space(text[i]) {
        next_significant(text, i + 1)
    } else {
        Some(text[i])
    }
}

/// The last character before position `i` that is not plain whitespace.
pub open spec fn prev_significant(text: Seq<char>, i: int) -> Option<char>
    decreases i,
{
    if i <= 0 || i > text.len() {
        None
    } else if plain_space(text[i - 1]) {
        prev_significant(text, i - 1)
    } else {
        Some(text[i - 1])
    }
}

/// Characters after which an `r` starts a new token.
pub open spec fn token_start_before(c: char) -> bool {
    c == ' ' || c == '<' || c == '(' || c == '[' || c == ',' || c == '&' || c == ':' || c == '+'
        || c == '='
}

/// Whether the word at position `i` is the end of a raw identifier `r#word`.
pub open spec fn raw_word_at(text: Seq<char>, i: int) -> bool {
    &&& i >= 2
    &&& text[i - 1] == '#'
    &&& text[i - 2] == 'r'
    &&& (i == 2 || token_start_before(text[i - 3]))
}

/// The keyword `use`.
pub open spec fn use_word() -> Seq<char> {
    seq!['u', 's', 'e']
}

/// The keyword `const`.
pub open spec fn const_word() -> Seq<char> {
    seq!['c', 'o', 'n', 's', 't']
}

/// Whether a precise-capturing bound (`use<..>`) may start at position `i`: the keyword `use`
/// followed by `<`.
pub open spec fn capture_at(text: Seq<char>, i: int) -> bool {
    &&& word_at(text, use_word(), i)
    &&& !raw_word_at(text, i)
    &&& next_significant(text, i + 3) == Some('<')
}

/// Characters after which `const` cannot start a bound: the `*` of a pointer type, and the
/// punctuation of an expression (`;`, `{`, `=`, `,`).
pub open spec fn no_bound_after(c: char) -> bool {
    c == '*' || c == ';' || c == '{' || c == '=' || c == ','
}

/// Whether a bound with a `const` modifier (`const Trait`, `[const] Trait`) may start at
/// position `i`: the keyword `const` not after a pointer's `*` or an expression's punctuation.
pub open spec fn const_bound_at(text: Seq<char>, i: int) -> bool {
    &&& word_at(text, const_word(), i)
    &&& !raw_word_at(text, i)
    &&& !(prev_significant(text, i) matches Some(c) && no_bound_after(c))
}

/// Whether `text` may hold a comment (`//` or `/*`), which would hide how its tokens stand.
pub open spec fn comment_at(text: Seq<char>, i: int) -> bool {
    0 <= i && i + 1 < text.len() && text[i] == '/' && (text[i + 1] == '/' || text[i + 1] == '*')
}

/// Whether darling can search the type written as `text` without panicking. Darling panics only
/// on a bound with precise capturing (`use<..>`) or a `const` modifier, which syn reads as a
/// bound of its own kind; the type qualifies when neither may stand in it, no comment could
/// hide one, and all its whitespace is plain.
pub open spec fn walkable_type(text: Seq<char>) -> bool {
    &&& forall|i: int| !#[trigger] comment_at(text, i)
    &&& forall|i: int| 0 <= i < text.len() ==> !other_space(#[trigger] text[i])
    &&& forall|i: int| !#[trigger] capture_at(text, i)
    &&& forall|i: int| !#[trigger] const_bound_at(text, i)
}

fn is_ident_char(c: char) -> (res: bool)
    ensures
        res == ident_char(c),
{
    ('a' <= c && c <= 'z') || ('A' <= c && c <= 'Z') || ('0' <= c && c <= '9') || c == '_'
}

fn is_plain_space(c: char) -> (res: bool)
    ensures
        res == plain_space(c),
{
    c == ' ' || c == '\t' || c == '\n' || c == '\r'
}

fn is_other_space(c: char) -> (res: bool)
    ensures
        res == other_space(c),
{
    c == '\u{0B}' || c == '\u{0C}' || c == '\u{85}' || c == '\u{200E}' || c == '\u{200F}'
        || c == '\u{2028}' || c == '\u{2029}'
}

/// The characters of `text`.
pub fn chars_of(text: &str) -> (res: Vec<char>)
    ensures
        res@ == text@,
{
    let len = text.unicode_len();
    let mut res: Vec<char> = Vec::new();
    let mut i: usize = 0;
    while i < len
        invariant
            len == text@.len(),
            i <= len,
            res@ == text@.take(i as int),
        decreases len - i,
    {
        res.push(text.get_char(i));
        assert(res@ =~= text@.take(i + 1));
        i = i + 1;
    }
    assert(res@ =~= text@);
    res
}

/// Whether `word` stands at position `i` of `text`.
pub fn has_word_at(text: &Vec<char>, word: &Vec<char>, i: usize) -> (res: bool)
    ensures
        res == word_at(text@, word@, i as int),
{
    if i > text.len() || word.len() > text.len() - i {
        return false;
    }
    let mut k: usize = 0;
    while k < word.len()
        invariant
            i + word.len() <= text.len(),
            k <= word.len(),
            forall|j: int| 0 <= j < k ==> text@[i + j] == word@[j],
        decreases word.len() - k,
    {
        if text[i + k] != word[k] {
            assert(text@.subrange(i as int, i + word.len())[k as int] != word@[k as int]);
            return false;
        }
        k = k + 1;
    }
    assert(text@.subrange(i as int, i + word.len()) =~= word@);
    let end = i + word.len();
    (i == 0 || !is_ident_char(text[i - 1])) && (end == text.len() || !is_ident_char(text[end]))
}

fn next_significant_char(text: &Vec<char>, i: usize) -> (res: Option<char>)
    ensures
        res == next_significant(text@, i as int),
{
    let mut j: usize = i;
    while j < text.len() && is_plain_space(text[j])
        invariant
            i <= j,
            next_significant(text@, i as int) == next_significant(text@, j as int),
        decreases text.len() - j,
    {
        j = j + 1;
    }
    if j < text.len() {
        Some(text[j])
    } else {
        None
    }
}

fn prev_significant_char(text: &Vec<char>, i: usize) -> (res: Option<char>)
    requires
        i <= text.len(),
    ensures
        res == prev_significant(text@, i as int),
{
    let mut j: usize = i;
    while j > 0 && is_plain_space(text[j - 1])
        invariant
            j <= i <= text.len(),
            prev_significant(text@, i as int) == prev_significant(text@, j as int),
        decreases j,
    {
        j = j - 1;
    }
    if j > 0 {
        Some(text[j - 1])
    } else {
        None
    }
}

fn is_raw_word_at(text: &Vec<char>, i: usize) -> (res: bool)
    requires
        i <= text.len(),
    ensures
        res == raw_word_at(text@, i as int),
{
    if i < 2 || text[i - 1] != '#' || text[i - 2] != 'r' {
        return false;
    }
    if i == 2 {
        return true;
    }
    let c = text[i - 3];
    c == ' ' || c == '<' || c == '(' || c == '[' || c == ',' || c == '&' || c == ':' || c == '+'
        || c == '='
}

/// Whether darling can search the type written as `text` without panicking.
pub fn is_walkable_type(text: &str) -> (res: bool)
    ensures
        res == walkable_type(text@),
{
    let chars = chars_of(text);
    let mut use_kw: Vec<char> = Vec::new();
    use_kw.push('u');
    use_kw.push('s');
    use_kw.push('e');
    assert(use_kw@ =~= use_word());
    let mut const_kw: Vec<char> = Vec::new();
    const_kw.push('c');
    const_kw.push('o');
    const_kw.push('n');
    const_kw.push('s');
    const_kw.push('t');
    assert(const_kw@ =~= const_word());
    let mut i: usize = 0;
    while i < chars.len()
        invariant
            chars@ == text@,
            use_kw@ == use_word(),
            const_kw@ == const_word(),
            i <= chars.len(),
            forall|j: int| 0 <= j < i ==> !#[trigger] comment_at(chars@, j),
            forall|j: int| 0 <= j < i ==> !other_space(#[trigger] chars@[j]),
            forall|j: int| 0 <= j < i ==> !#[trigger] capture_at(chars@, j),
            forall|j: int| 0 <= j < i ==> !#[trigger] const_bound_at(chars@, j),
        decreases chars.len() - i,
    {
        if chars[i] == '/' && i + 1 < chars.len() && (chars[i + 1] == '/' || chars[i + 1] == '*') {
            assert(comment_at(chars@, i as int));
            return false;
        }
        if is_other_space(chars[i]) {
            return false;
        }
        if has_word_at(&chars, &use_kw, i) && !is_raw_word_at(&chars, i)
            && next_significant_char(&chars, i + 3) == Some('<') {
            assert(capture_at(chars@, i as int));
            return false;
        }
        if has_word_at(&chars, &const_kw, i) && !is_raw_word_at(&chars, i) {
            let before = prev_significant_char(&chars, i);
            let after_no_bound = match before {
                Some(c) => c == '*' || c == ';' || c == '{' || c == '=' || c == ',',
                None => false,
            };
            if !after_no_bound {
                assert(const_bound_at(chars@, i as int));
                return false;
            }
        }
        i = i + 1;
    }
    assert forall|j: int| !#[trigger] comment_at(chars@, j) by {}
    assert forall|j: int| !#[trigger] capture_at(chars@, j) by {
        if j >= chars.len() && word_at(chars@, use_word(), j) {
            assert(j + 3 <= chars.len());
        }
    }
    assert forall|j: int| !#[trigger] const_bound_at(chars@, j) by {
        if j >= chars.len() && word_at(chars@, const_word(), j) {
            assert(j + 5 <= chars.len());
        }
    }
    true
}

} // verus!
