//! Character-level text primitives: whitespace, trimming and splitting into
//! whitespace-delimited tokens.
//!
//! Text is modelled as `Seq<char>`. The executable functions scan a
//! `Vec<char>` that is obtained once from the input.

use vstd::prelude::*;

verus! {

/// Whether `c` is a Unicode white-space character.
pub open spec fn is_whitespace(c: char) -> bool {
    let u = c as u32;
    ||| 0x09 <= u <= 0x0D
    ||| u == 0x20
    ||| u == 0x85
    ||| u == 0xA0
    ||| u == 0x1680
    ||| 0x2000 <= u <= 0x200A
    ||| u == 0x2028
    ||| u == 0x2029
    ||| u == 0x202F
    ||| u == 0x205F
    ||| u == 0x3000
}

/// Whether every character of `s` is white space. The empty text is blank.
pub open spec fn is_blank(s: Seq<char>) -> bool {
    forall|i: int| 0 <= i < s.len() ==> is_whitespace(#[trigger] s[i])
}

/// Whether no character of `s` is white space.
pub open spec fn is_solid(s: Seq<char>) -> bool {
    forall|i: int| 0 <= i < s.len() ==> !is_whitespace(#[trigger] s[i])
}

/// How many white-space characters `s` begins with.
pub open spec fn leading_whitespace(s: Seq<char>) -> nat
    decreases s.len(),
{
    if s.len() > 0 && is_whitespace(s.first()) {
        1 + leading_whitespace(s.drop_first())
    } else {
        0
    }
}

/// How many white-space characters `s` ends with.
pub open spec fn trailing_whitespace(s: Seq<char>) -> nat
    decreases s.len(),
{
    if s.len() > 0 && is_whitespace(s.last()) {
        1 + trailing_whitespace(s.drop_last())
    } else {
        0
    }
}

/// `s` without its leading white space.
pub open spec fn trim_start(s: Seq<char>) -> Seq<char> {
    s.skip(leading_whitespace(s) as int)
}

/// `s` without its trailing white space.
pub open spec fn trim_end(s: Seq<char>) -> Seq<char> {
    s.take(s.len() - trailing_whitespace(s))
}

/// `s` without its leading and trailing white space.
pub open spec fn trim(s: Seq<char>) -> Seq<char> {
    trim_end(trim_start(s))
}

/// How many characters `s` begins with that are not white space.
pub open spec fn word_len(s: Seq<char>) -> nat
    decreases s.len(),
{
    if s.len() > 0 && !is_whitespace(s.first()) {
        1 + word_len(s.drop_first())
    } else {
        0
    }
}

/// The maximal runs of characters of `s` that are not white space, in the
/// order in which they occur.
pub open spec fn tokens(s: Seq<char>) -> Seq<Seq<char>>
    decreases s.len(),
    via tokens_decreases
{
    if s.len() == 0 {
        Seq::empty()
    } else if is_whitespace(s.first()) {
        tokens(s.drop_first())
    } else {
        seq![s.take(word_len(s) as int)] + tokens(s.skip(word_len(s) as int))
    }
}

#[via_fn]
proof fn tokens_decreases(s: Seq<char>) {
    lemma_word_len_bounds(s);
}

/// `leading_whitespace(s)` is the one index below which all is white space
/// and at which white space ends.
pub proof fn lemma_leading_whitespace(s: Seq<char>, n: int)
    requires
        0 <= n <= s.len(),
        forall|i: int| 0 <= i < n ==> is_whitespace(#[trigger] s[i]),
        n < s.len() ==> !is_whitespace(s[n]),
    ensures
        leading_whitespace(s) == n,
    decreases n,
{
    if n > 0 {
        let rest = s.drop_first();
        lemma_leading_whitespace(rest, n - 1);
    }
}

/// `trailing_whitespace(s)` is the one count of final characters that are all
/// white space and before which white space ends.
pub proof fn lemma_trailing_whitespace(s: Seq<char>, n: int)
    requires
        0 <= n <= s.len(),
        forall|i: int| s.len() - n <= i < s.len() ==> is_whitespace(#[trigger] s[i]),
        n < s.len() ==> !is_whitespace(s[s.len() - n - 1]),
    ensures
        trailing_whitespace(s) == n,
    decreases n,
{
    if n > 0 {
        let rest = s.drop_last();
        lemma_trailing_whitespace(rest, n - 1);
    }
}

/// `word_len(s)` is the one index below which nothing is white space and at
/// which white space begins.
pub proof fn lemma_word_len(s: Seq<char>, n: int)
    requires
        0 <= n <= s.len(),
        forall|i: int| 0 <= i < n ==> !is_whitespace(#[trigger] s[i]),
        n < s.len() ==> is_whitespace(s[n]),
    ensures
        word_len(s) == n,
    decreases n,
{
    if n > 0 {
        let rest = s.drop_first();
        lemma_word_len(rest, n - 1);
    }
}

/// The leading white space of `s` is white space, lies within `s`, and ends
/// where `s` ends or at a character that is not white space.
pub proof fn lemma_leading_whitespace_bounds(s: Seq<char>)
    ensures
        leading_whitespace(s) <= s.len(),
        forall|i: int| 0 <= i < leading_whitespace(s) ==> is_whitespace(#[trigger] s[i]),
        leading_whitespace(s) < s.len() ==> !is_whitespace(s[leading_whitespace(s) as int]),
    decreases s.len(),
{
    if s.len() > 0 && is_whitespace(s.first()) {
        let rest = s.drop_first();
        lemma_leading_whitespace_bounds(rest);
        assert forall|i: int| 0 <= i < leading_whitespace(s) implies is_whitespace(
            #[trigger] s[i],
        ) by {
            if i > 0 {
                assert(s[i] == rest[i - 1]);
            }
        }
    }
}

/// The trailing white space of `s` is white space, lies within `s`, and
/// begins where `s` begins or after a character that is not white space.
pub proof fn lemma_trailing_whitespace_bounds(s: Seq<char>)
    ensures
        trailing_whitespace(s) <= s.len(),
        forall|i: int|
            s.len() - trailing_whitespace(s) <= i < s.len() ==> is_whitespace(#[trigger] s[i]),
        trailing_whitespace(s) < s.len() ==> !is_whitespace(
            s[s.len() - trailing_whitespace(s) - 1],
        ),
    decreases s.len(),
{
    if s.len() > 0 && is_whitespace(s.last()) {
        let rest = s.drop_last();
        lemma_trailing_whitespace_bounds(rest);
        assert forall|i: int| s.len() - trailing_whitespace(s) <= i < s.len() implies is_whitespace(
            #[trigger] s[i],
        ) by {
            if i < s.len() - 1 {
                assert(s[i] == rest[i]);
            }
        }
    }
}

/// The word that `s` begins with holds no white space, lies within `s`, and
/// ends where `s` ends or at a white-space character.
pub proof fn lemma_word_len_bounds(s: Seq<char>)
    ensures
        word_len(s) <= s.len(),
        forall|i: int| 0 <= i < word_len(s) ==> !is_whitespace(#[trigger] s[i]),
        word_len(s) < s.len() ==> is_whitespace(s[word_len(s) as int]),
    decreases s.len(),
{
    if s.len() > 0 && !is_whitespace(s.first()) {
        let rest = s.drop_first();
        lemma_word_len_bounds(rest);
        assert forall|i: int| 0 <= i < word_len(s) implies !is_whitespace(#[trigger] s[i]) by {
            if i > 0 {
                assert(s[i] == rest[i - 1]);
            }
        }
    }
}

/// Leading white space holds no token.
pub proof fn lemma_tokens_trim_start(s: Seq<char>)
    ensures
        tokens(s) == tokens(trim_start(s)),
    decreases s.len(),
{
    if s.len() > 0 && is_whitespace(s.first()) {
        let rest = s.drop_first();
        lemma_tokens_trim_start(rest);
        lemma_leading_whitespace_bounds(rest);
        assert(trim_start(rest) =~= trim_start(s));
    } else {
        assert(trim_start(s) =~= s);
    }
}

/// Text that is not blank has a first token: the word that begins at its
/// first character that is not white space.
pub proof fn lemma_tokens_first(s: Seq<char>)
    requires
        !is_blank(s),
    ensures
        leading_whitespace(s) < s.len(),
        tokens(s).len() > 0,
        tokens(s)[0] == trim_start(s).take(word_len(trim_start(s)) as int),
        tokens(s)[0].len() > 0,
        tokens(s)[0][0] == s[leading_whitespace(s) as int],
{
    lemma_leading_whitespace_bounds(s);
    lemma_tokens_trim_start(s);
    let t = trim_start(s);
    lemma_word_len_bounds(t);
}

/// Every token holds at least one character and no white space.
pub proof fn lemma_tokens_solid(s: Seq<char>)
    ensures
        forall|k: int|
            0 <= k < tokens(s).len() ==> (#[trigger] tokens(s)[k]).len() > 0 && is_solid(
                tokens(s)[k],
            ),
    decreases s.len(),
{
    if s.len() == 0 {
    } else if is_whitespace(s.first()) {
        lemma_tokens_solid(s.drop_first());
        assert(tokens(s) == tokens(s.drop_first()));
    } else {
        let n = word_len(s) as int;
        lemma_word_len_bounds(s);
        lemma_tokens_solid(s.skip(n));
        let rest = tokens(s.skip(n));
        assert forall|k: int| 0 <= k < tokens(s).len() implies (#[trigger] tokens(s)[k]).len() > 0
            && is_solid(tokens(s)[k]) by {
            if k > 0 {
                assert(tokens(s)[k] == rest[k - 1]);
            }
        }
    }
}

/// A text is blank exactly when trimming leaves nothing of it.
pub proof fn lemma_trim_blank(s: Seq<char>)
    ensures
        is_blank(s) <==> trim(s).len() == 0,
        is_blank(s) <==> leading_whitespace(s) == s.len(),
{
    lemma_leading_whitespace_bounds(s);
    let t = trim_start(s);
    lemma_trailing_whitespace_bounds(t);
    if leading_whitespace(s) < s.len() {
        assert(t[0] == s[leading_whitespace(s) as int]);
    }
}

/// Trimming removes white space from both ends and nothing else: `s` is
/// `trim(s)` between two blank texts, and what is left neither begins nor
/// ends with white space.
pub proof fn lemma_trim_shape(s: Seq<char>)
    ensures
        leading_whitespace(s) + trim(s).len() <= s.len(),
        s == s.take(leading_whitespace(s) as int) + trim(s) + s.skip(
            (leading_whitespace(s) + trim(s).len()) as int,
        ),
        is_blank(s.take(leading_whitespace(s) as int)),
        is_blank(s.skip((leading_whitespace(s) + trim(s).len()) as int)),
        trim(s).len() > 0 ==> !is_whitespace(trim(s).first()) && !is_whitespace(trim(s).last()),
{
    lemma_leading_whitespace_bounds(s);
    let a = leading_whitespace(s) as int;
    let t = trim_start(s);
    lemma_trailing_whitespace_bounds(t);
    let m = trim(s);
    let b = s.skip(a + m.len());
    assert forall|i: int| 0 <= i < b.len() implies is_whitespace(#[trigger] b[i]) by {
        assert(b[i] == t[m.len() + i]);
    }
}

/// A word alone is its own trimmed text and its only token.
pub proof fn lemma_one_word(word: Seq<char>)
    requires
        word.len() > 0,
        is_solid(word),
    ensures
        trim(word) == word,
        tokens(word) == seq![word],
{
    assert(trim_start(word) =~= word);
    lemma_word_len(word, word.len() as int);
    assert(tokens(word.skip(word.len() as int)) =~= Seq::<Seq<char>>::empty());
}

/// A word before a text, with one white-space character between them, is
/// the first token of the whole; the tokens of the text follow it.
pub proof fn lemma_word_then(word: Seq<char>, gap: char, rest: Seq<char>)
    requires
        word.len() > 0,
        is_solid(word),
        is_whitespace(gap),
    ensures
        tokens(word + seq![gap] + rest) == seq![word] + tokens(rest),
        leading_whitespace(word + seq![gap] + rest) == 0,
{
    let whole = word + seq![gap] + rest;
    let n = word.len() as int;
    lemma_word_len(whole, n);
    assert(whole.take(n) =~= word);
    let tail = whole.skip(n);
    assert(tail.drop_first() =~= rest);
    assert(tokens(tail) == tokens(rest));
}

/// Decides `is_whitespace`.
pub fn is_space(c: char) -> (r: bool)
    ensures
        r == is_whitespace(c),
{
    let u: u32 = c as u32;
    (0x09 <= u && u <= 0x0D) || u == 0x20 || u == 0x85 || u == 0xA0 || u == 0x1680 || (0x2000 <= u
        && u <= 0x200A) || u == 0x2028 || u == 0x2029 || u == 0x202F || u == 0x205F || u == 0x3000
}

/// The characters of `s`, in order.
pub fn to_chars(s: &str) -> (chars: Vec<char>)
    ensures
        chars@ == s@,
{
    let mut chars: Vec<char> = Vec::new();
    for c in it: s.chars()
        invariant
            it.seq() == s@,
            chars@ == it.seq().take(it.index() as int),
    {
        chars.push(c);
    }
    chars
}

/// Whether two texts hold the same characters.
pub fn same_text(a: &Vec<char>, b: &str) -> (same: bool)
    ensures
        same == (a@ == b@),
{
    let other = to_chars(b);
    if a.len() != other.len() {
        return false;
    }
    let mut i: usize = 0;
    while i < a.len()
        invariant
            i <= a.len(),
            a.len() == other.len(),
            other@ == b@,
            forall|k: int| 0 <= k < i ==> a@[k] == other@[k],
        decreases a.len() - i,
    {
        if a[i] != other[i] {
            return false;
        }
        i += 1;
    }
    assert(a@ =~= other@);
    true
}

/// Whether two texts hold the same characters.
pub fn equal(a: &str, b: &str) -> (same: bool)
    ensures
        same == (a@ == b@),
{
    same_text(&to_chars(a), b)
}

/// The first index at or after `from` that holds no white space, or the
/// length of `chars` if there is none.
pub fn skip_whitespace(chars: &Vec<char>, from: usize) -> (at: usize)
    requires
        from <= chars.len(),
    ensures
        from <= at <= chars.len(),
        at - from == leading_whitespace(chars@.skip(from as int)),
{
    let mut at: usize = from;
    while at < chars.len() && is_space(chars[at])
        invariant
            from <= at <= chars.len(),
            forall|k: int| from <= k < at ==> is_whitespace(#[trigger] chars@[k]),
        decreases chars.len() - at,
    {
        at += 1;
    }
    proof {
        lemma_leading_whitespace(chars@.skip(from as int), at - from);
    }
    at
}

/// The first index at or after `from` that holds white space, or the length
/// of `chars` if there is none.
pub fn skip_word(chars: &Vec<char>, from: usize) -> (at: usize)
    requires
        from <= chars.len(),
    ensures
        from <= at <= chars.len(),
        at - from == word_len(chars@.skip(from as int)),
{
    let mut at: usize = from;
    while at < chars.len() && !is_space(chars[at])
        invariant
            from <= at <= chars.len(),
            forall|k: int| from <= k < at ==> !is_whitespace(#[trigger] chars@[k]),
        decreases chars.len() - at,
    {
        at += 1;
    }
    proof {
        lemma_word_len(chars@.skip(from as int), at - from);
    }
    at
}

/// The bounds of `chars` without its leading and trailing white space.
pub fn trim_bounds(chars: &Vec<char>) -> (bounds: (usize, usize))
    ensures
        bounds.0 <= bounds.1 <= chars.len(),
        chars@.subrange(bounds.0 as int, bounds.1 as int) == trim(chars@),
{
    let start = skip_whitespace(chars, 0);
    assert(chars@.skip(0) =~= chars@);
    let ghost tail = chars@.skip(start as int);
    let mut end: usize = chars.len();
    while end > start && is_space(chars[end - 1])
        invariant
            start <= end <= chars.len(),
            forall|k: int| end <= k < chars.len() ==> is_whitespace(#[trigger] chars@[k]),
        decreases end,
    {
        end -= 1;
    }
    proof {
        let n = chars.len() - end;
        lemma_trailing_whitespace(tail, n);
    }
    (start, end)
}

/// `a` followed by `b`.
pub fn join(a: &str, b: &str) -> (text: String)
    ensures
        text@ == a@ + b@,
{
    String::from_str(a).concat(b)
}

/// The characters of `line` from index `from` up to, not including, `to`.
pub fn substring(line: &str, from: usize, to: usize) -> (part: String)
    requires
        from <= to <= line@.len(),
    ensures
        part@ == line@.subrange(from as int, to as int),
{
    String::from_str(line.substring_char(from, to))
}

/// The whitespace-delimited tokens of `line`, in order.
pub fn split_whitespace(line: &str) -> (words: Vec<String>)
    ensures
        words.deep_view() == tokens(line@),
{
    let chars = to_chars(line);
    let mut words: Vec<String> = Vec::new();
    let mut at: usize = 0;
    assert(line@.skip(0) =~= line@);
    loop
        invariant
            chars@ == line@,
            at <= chars.len(),
            tokens(line@) == words.deep_view() + tokens(line@.skip(at as int)),
        ensures
            tokens(line@) == words.deep_view(),
        decreases chars.len() - at,
    {
        let ghost rest = line@.skip(at as int);
        let start = skip_whitespace(&chars, at);
        proof {
            lemma_tokens_trim_start(rest);
            assert(trim_start(rest) =~= line@.skip(start as int));
        }
        if start == chars.len() {
            break;
        }
        let end = skip_word(&chars, start);
        let word = substring(line, start, end);
        proof {
            let tail = line@.skip(start as int);
            lemma_leading_whitespace_bounds(rest);
            assert(tail.take(end - start) =~= word@);
            assert(tail.skip(end - start) =~= line@.skip(end as int));
        }
        let ghost before = words.deep_view();
        words.push(word);
        assert(words.deep_view() =~= before.push(word@));
        at = end;
    }
    words
}

/// The character for a decimal digit.
pub open spec fn digit(d: nat) -> char
    recommends
        d < 10,
{
    (d + 48) as char
}

/// The decimal numeral of `n`, without leading zeros.
pub open spec fn decimal(n: nat) -> Seq<char>
    decreases n,
{
    if n < 10 {
        seq![digit(n)]
    } else {
        decimal(n / 10).push(digit(n % 10))
    }
}

/// The text of one decimal digit.
fn digit_text(d: u32) -> (text: &'static str)
    requires
        d < 10,
    ensures
        text@ == seq![digit(d as nat)],
{
    proof {
        reveal_strlit("0");
        reveal_strlit("1");
        reveal_strlit("2");
        reveal_strlit("3");
        reveal_strlit("4");
        reveal_strlit("5");
        reveal_strlit("6");
        reveal_strlit("7");
        reveal_strlit("8");
        reveal_strlit("9");
    }
    let text = if d == 0 {
        "0"
    } else if d == 1 {
        "1"
    } else if d == 2 {
        "2"
    } else if d == 3 {
        "3"
    } else if d == 4 {
        "4"
    } else if d == 5 {
        "5"
    } else if d == 6 {
        "6"
    } else if d == 7 {
        "7"
    } else if d == 8 {
        "8"
    } else {
        "9"
    };
    text
}

/// The decimal numeral of `n`.
pub fn to_decimal(n: u32) -> (text: String)
    ensures
        text@ == decimal(n as nat),
    decreases n,
{
    if n < 10 {
        String::from_str(digit_text(n))
    } else {
        let text = to_decimal(n / 10).concat(digit_text(n % 10));
        text
    }
}

} // verus!
