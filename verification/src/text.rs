//! Building the text that the launcher sends to its page: numbers in decimal,
//! escaped string literals, and joined lists.
use vstd::prelude::*;

verus! {

/// `String::push`: appends the character to the end of the string.
pub assume_specification[ String::push ](s: &mut String, c: char)
    ensures
        final(s)@ == old(s)@.push(c),
;

/// The character of a decimal digit.
pub open spec fn digit(d: nat) -> char {
    (48 + d) as char
}

/// A number written in decimal, without leading zeros.
pub open spec fn decimal(n: nat) -> Seq<char>
    decreases n,
{
    if n < 10 {
        seq![digit(n)]
    } else {
        decimal(n / 10).push(digit(n % 10))
    }
}

/// A truth value as the page's script writes it.
pub open spec fn boolean(b: bool) -> Seq<char> {
    if b {
        "true"@
    } else {
        "false"@
    }
}

/// Every occurrence of `c` replaced by `with`.
pub open spec fn replaced(s: Seq<char>, c: char, with: Seq<char>) -> Seq<char>
    decreases s.len(),
{
    if s.len() == 0 {
        seq![]
    } else if s.last() == c {
        replaced(s.drop_last(), c, with) + with
    } else {
        replaced(s.drop_last(), c, with).push(s.last())
    }
}

/// A text made fit to stand inside a script's string literal between two
/// `quote` characters: first backslashes are doubled, then quotes get a
/// backslash before them.
pub open spec fn escaped(s: Seq<char>, quote: char) -> Seq<char> {
    replaced(replaced(s, '\\', seq!['\\', '\\']), quote, seq!['\\', quote])
}

/// The texts of a list with a separator between neighbours.
pub open spec fn joined(parts: Seq<Seq<char>>, sep: Seq<char>) -> Seq<char>
    decreases parts.len(),
{
    if parts.len() == 0 {
        seq![]
    } else if parts.len() == 1 {
        parts[0]
    } else {
        joined(parts.drop_last(), sep) + sep + parts.last()
    }
}

/// The texts that a list of strings holds.
pub open spec fn texts(list: Seq<String>) -> Seq<Seq<char>> {
    Seq::new(list.len(), |i: int| list[i]@)
}

/// What a script reads where a string literal has been opened: the literal's
/// text up to the first `quote` that no backslash protects, and what follows
/// that quote. Only a backslash or a quote may stand behind a backslash.
/// `None` where the literal does not end.
pub open spec fn read_literal(s: Seq<char>, quote: char) -> Option<(Seq<char>, Seq<char>)>
    decreases s.len(),
{
    if s.len() == 0 {
        None
    } else if s[0] == quote {
        Some((seq![], s.skip(1)))
    } else if s[0] == '\\' {
        if s.len() >= 2 && (s[1] == '\\' || s[1] == quote) {
            match read_literal(s.skip(2), quote) {
                Some((text, rest)) => Some((seq![s[1]] + text, rest)),
                None => None,
            }
        } else {
            None
        }
    } else {
        match read_literal(s.skip(1), quote) {
            Some((text, rest)) => Some((seq![s[0]] + text, rest)),
            None => None,
        }
    }
}

/// Whether two texts hold the same characters.
pub fn same_text(a: &str, b: &str) -> (same: bool)
    ensures
        same == (a@ == b@),
{
    a.to_owned() == b.to_owned()
}

/// Two texts after one another.
pub fn concatenated(a: &str, b: &str) -> (out: String)
    ensures
        out@ == a@ + b@,
{
    let mut out = a.to_owned();
    out.append(b);
    out
}

/// Appends a number in decimal.
pub fn push_decimal(out: &mut String, n: u64)
    ensures
        final(out)@ == old(out)@ + decimal(n as nat),
    decreases n,
{
    if n >= 10 {
        push_decimal(out, n / 10);
    }
    let d: u8 = (n % 10) as u8;
    out.push((48u8 + d) as char);
}

/// Appends `true` or `false`.
pub fn push_boolean(out: &mut String, b: bool)
    ensures
        final(out)@ == old(out)@ + boolean(b),
{
    if b {
        out.append("true");
    } else {
        out.append("false");
    }
}

/// Replaces every occurrence of a character by a text.
pub fn replace_char(s: &str, c: char, with: &str) -> (out: String)
    ensures
        out@ == replaced(s@, c, with@),
{
    let mut out = String::new();
    assert(s@.take(0) =~= seq![]);
    for x in it: s.chars()
        invariant
            it.seq() == s@,
            out@ == replaced(s@.take(it.index()), c, with@),
    {
        proof {
            let i = it.index();
            assert(s@.take(i + 1).drop_last() =~= s@.take(i));
            assert(s@.take(i + 1).last() == x);
        }
        if x == c {
            out.append(with);
        } else {
            out.push(x);
        }
    }
    assert(s@.take(s@.len() as int) =~= s@);
    out
}

/// Escapes a text for a script's string literal between `quote` characters.
pub fn escape_literal(s: &str, quote: char) -> (out: String)
    ensures
        out@ == escaped(s@, quote),
{
    let mut slashes = String::new();
    slashes.push('\\');
    slashes.push('\\');
    let mut quoted = String::new();
    quoted.push('\\');
    quoted.push(quote);
    assert(slashes@ =~= seq!['\\', '\\']);
    assert(quoted@ =~= seq!['\\', quote]);
    let doubled = replace_char(s, '\\', slashes.as_str());
    replace_char(doubled.as_str(), quote, quoted.as_str())
}

/// Joins the texts of a list.
pub fn join(parts: &Vec<String>, sep: &str) -> (out: String)
    ensures
        out@ == joined(texts(parts@), sep@),
{
    let mut out = String::new();
    let ghost all = texts(parts@);
    assert(all.take(0) =~= seq![]);
    let mut i: usize = 0;
    while i < parts.len()
        invariant
            all == texts(parts@),
            i <= parts.len(),
            out@ == joined(all.take(i as int), sep@),
        decreases parts.len() - i,
    {
        proof {
            assert(all.take(i + 1).drop_last() =~= all.take(i as int));
            assert(all.take(i + 1).last() == parts@[i as int]@);
            assert(seq![] + parts@[i as int]@ =~= parts@[i as int]@);
        }
        if i > 0 {
            out.append(sep);
        }
        out.append(parts[i].as_str());
        i = i + 1;
    }
    assert(all.take(parts@.len() as int) =~= all);
    out
}

/// Replacement goes piece by piece.
proof fn lemma_replaced_concat(a: Seq<char>, b: Seq<char>, c: char, with: Seq<char>)
    ensures
        replaced(a + b, c, with) == replaced(a, c, with) + replaced(b, c, with),
    decreases b.len(),
{
    if b.len() == 0 {
        assert(a + b =~= a);
        assert(replaced(a, c, with) + replaced(b, c, with) =~= replaced(a, c, with));
    } else {
        lemma_replaced_concat(a, b.drop_last(), c, with);
        assert((a + b).drop_last() =~= a + b.drop_last());
        assert((a + b).last() == b.last());
        assert(replaced(a + b, c, with) =~= replaced(a, c, with) + replaced(b, c, with));
    }
}

/// What becomes of one character.
proof fn lemma_replaced_one(x: char, c: char, with: Seq<char>)
    ensures
        replaced(seq![x], c, with) == if x == c { with } else { seq![x] },
{
    assert(seq![x].drop_last() =~= seq![]);
    assert(replaced(seq![], c, with) =~= seq![]);
    assert(seq![] + with =~= with);
    assert(Seq::<char>::empty().push(x) =~= seq![x]);
}

/// A literal that was written escaped reads back as the text it was written
/// from, and ends at its closing quote: no message can end its literal early.
pub proof fn law_escaped_literal_reads_back(text: Seq<char>, quote: char, rest: Seq<char>)
    requires
        quote != '\\',
    ensures
        read_literal(escaped(text, quote).push(quote) + rest, quote) == Some((text, rest)),
    decreases text.len(),
{
    let two = seq!['\\', '\\'];
    let both = seq!['\\', quote];
    if text.len() == 0 {
        let s = escaped(text, quote).push(quote) + rest;
        assert(escaped(text, quote) =~= seq![]);
        assert(s.skip(1) =~= rest);
        assert(text =~= seq![]);
    } else {
        let x = text[0];
        let tail = text.skip(1);
        law_escaped_literal_reads_back(tail, quote, rest);
        assert(text =~= seq![x] + tail);
        lemma_replaced_concat(seq![x], tail, '\\', two);
        lemma_replaced_one(x, '\\', two);
        let first = replaced(seq![x], '\\', two);
        lemma_replaced_concat(first, replaced(tail, '\\', two), quote, both);
        let s = escaped(text, quote).push(quote) + rest;
        let t = escaped(tail, quote).push(quote) + rest;
        if x == '\\' {
            assert(two =~= seq!['\\'] + seq!['\\']);
            lemma_replaced_concat(seq!['\\'], seq!['\\'], quote, both);
            lemma_replaced_one('\\', quote, both);
            assert(s =~= two + t);
            assert(s.skip(2) =~= t);
        } else if x == quote {
            lemma_replaced_one(quote, quote, both);
            assert(s =~= both + t);
            assert(s.skip(2) =~= t);
        } else {
            lemma_replaced_one(x, quote, both);
            assert(s =~= seq![x] + t);
            assert(s.skip(1) =~= t);
        }
    }
}

/// The number that a text of decimal digits stands for.
pub open spec fn decimal_value(s: Seq<char>) -> nat
    decreases s.len(),
{
    if s.len() == 0 {
        0
    } else {
        10 * decimal_value(s.drop_last()) + (s.last() as nat - 48) as nat
    }
}

/// A number reads back from its decimal text, which holds nothing but digits
/// and no leading zero.
pub proof fn law_decimal_reads_back(n: nat)
    ensures
        decimal_value(decimal(n)) == n,
        decimal(n).len() > 0,
        forall|i: int| 0 <= i < decimal(n).len() ==> '0' <= #[trigger] decimal(n)[i] <= '9',
        n > 0 ==> decimal(n)[0] != '0',
        n == 0 ==> decimal(n) == seq!['0'],
    decreases n,
{
    if n < 10 {
        assert(decimal(n).drop_last() =~= seq![]);
        assert(decimal_value(seq![]) == 0);
    } else {
        law_decimal_reads_back(n / 10);
        assert(decimal(n).drop_last() =~= decimal(n / 10));
    }
}

/// A text without backslashes has only its quotes escaped.
proof fn lemma_escaped_without_backslash(text: Seq<char>, quote: char)
    requires
        !text.contains('\\'),
    ensures
        escaped(text, quote) == replaced(text, quote, seq!['\\', quote]),
{
    lemma_nothing_replaced(text, '\\', seq!['\\', '\\']);
}

proof fn lemma_nothing_replaced(s: Seq<char>, c: char, with: Seq<char>)
    requires
        !s.contains(c),
    ensures
        replaced(s, c, with) == s,
    decreases s.len(),
{
    if s.len() > 0 {
        assert(s.contains(s.last()));
        assert forall|x: char| s.drop_last().contains(x) implies s.contains(x) by {
            let i = choose|i: int| 0 <= i < s.drop_last().len() && s.drop_last()[i] == x;
            assert(s[i] == x);
        }
        lemma_nothing_replaced(s.drop_last(), c, with);
        assert(s.drop_last().push(s.last()) =~= s);
    } else {
        assert(s =~= seq![]);
    }
}

/// A text without backslashes reads back from a literal in which only its
/// quotes were escaped.
pub proof fn law_quoted_literal_reads_back(text: Seq<char>, quote: char, rest: Seq<char>)
    requires
        quote != '\\',
        !text.contains('\\'),
    ensures
        read_literal(replaced(text, quote, seq!['\\', quote]).push(quote) + rest, quote) == Some(
            (text, rest),
        ),
{
    lemma_escaped_without_backslash(text, quote);
    law_escaped_literal_reads_back(text, quote, rest);
}

/// Replacement acts on each character by itself: the character to replace
/// becomes the text, and every other character stays.
pub proof fn law_replacement_acts_on_characters(
    a: Seq<char>,
    b: Seq<char>,
    x: char,
    c: char,
    with: Seq<char>,
)
    ensures
        replaced(seq![], c, with) == Seq::<char>::empty(),
        x == c ==> replaced(seq![x], c, with) == with,
        x != c ==> replaced(seq![x], c, with) == seq![x],
        replaced(a + b, c, with) == replaced(a, c, with) + replaced(b, c, with),
{
    assert(replaced(seq![], c, with) =~= seq![]);
    lemma_replaced_one(x, c, with);
    lemma_replaced_concat(a, b, c, with);
}

/// Joining keeps every text in its place: one text stands alone, and two lists
/// stand after one another with a separator between them.
pub proof fn law_joining_keeps_every_text(
    a: Seq<Seq<char>>,
    b: Seq<Seq<char>>,
    x: Seq<char>,
    sep: Seq<char>,
)
    ensures
        joined(seq![], sep) == Seq::<char>::empty(),
        joined(seq![x], sep) == x,
        a.len() > 0 && b.len() > 0 ==> joined(a + b, sep) == joined(a, sep) + sep + joined(b, sep),
    decreases b.len(),
{
    assert(joined(seq![], sep) =~= seq![]);
    if a.len() > 0 && b.len() > 0 {
        assert((a + b).drop_last() =~= a + b.drop_last());
        assert((a + b).last() == b.last());
        if b.len() == 1 {
            assert(a + b.drop_last() =~= a);
        } else {
            law_joining_keeps_every_text(a, b.drop_last(), x, sep);
            assert(joined(a + b, sep) =~= joined(a, sep) + sep + joined(b, sep));
        }
    }
}

/// The texts of a list are those of its strings, one for one.
pub proof fn law_texts_are_one_for_one(list: Seq<String>)
    ensures
        texts(list).len() == list.len(),
        forall|i: int| 0 <= i < list.len() ==> (#[trigger] texts(list)[i]) == list[i]@,
{
}

/// A truth value is written as the script's own word for it.
pub proof fn law_truth_values_are_words(b: bool)
    ensures
        b ==> boolean(b) == seq!['t', 'r', 'u', 'e'],
        !b ==> boolean(b) == seq!['f', 'a', 'l', 's', 'e'],
{
    reveal_strlit("true");
    reveal_strlit("false");
    assert("true"@ =~= seq!['t', 'r', 'u', 'e']);
    assert("false"@ =~= seq!['f', 'a', 'l', 's', 'e']);
}

} // verus!
