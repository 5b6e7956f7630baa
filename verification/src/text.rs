//! The strings that the serializer builds: decimal numbers, tuple-struct
//! attribute names, the Python expression that makes a class, and enum
//! variant names in SHOUTY_SNAKE_CASE.

use vstd::prelude::*;

verus! {

/// The character of a decimal digit.
pub open spec fn digit_char(d: nat) -> char {
    if d == 0 {
        '0'
    } else if d == 1 {
        '1'
    } else if d == 2 {
        '2'
    } else if d == 3 {
        '3'
    } else if d == 4 {
        '4'
    } else if d == 5 {
        '5'
    } else if d == 6 {
        '6'
    } else if d == 7 {
        '7'
    } else if d == 8 {
        '8'
    } else {
        '9'
    }
}

/// The decimal notation of `n`: most significant digit first, no leading
/// zeros, and "0" for zero.
pub open spec fn decimal(n: nat) -> Seq<char>
    decreases n,
{
    if n < 10 {
        seq![digit_char(n)]
    } else {
        decimal(n / 10).push(digit_char(n % 10))
    }
}

/// Appends `c` to `s` (`String::push`).
#[verifier::external_body]
pub(crate) fn push_char(s: &mut String, c: char)
    ensures
        final(s)@ == old(s)@.push(c),
{
    s.push(c);
}

fn digit(d: usize) -> (c: char)
    requires
        d < 10,
    ensures
        c == digit_char(d as nat),
{
    if d == 0 {
        '0'
    } else if d == 1 {
        '1'
    } else if d == 2 {
        '2'
    } else if d == 3 {
        '3'
    } else if d == 4 {
        '4'
    } else if d == 5 {
        '5'
    } else if d == 6 {
        '6'
    } else if d == 7 {
        '7'
    } else if d == 8 {
        '8'
    } else {
        '9'
    }
}

fn push_decimal(out: &mut String, n: usize)
    ensures
        final(out)@ == old(out)@ + decimal(n as nat),
    decreases n,
{
    if n < 10 {
        push_char(out, digit(n));
        assert(old(out)@.push(digit_char(n as nat)) =~= old(out)@ + decimal(n as nat));
    } else {
        push_decimal(out, n / 10);
        let ghost mid = out@;
        push_char(out, digit(n % 10));
        assert(mid.push(digit_char((n % 10) as nat)) =~= old(out)@ + decimal(n as nat));
    }
}

/// The decimal notation of `n`, as Rust's `n.to_string()` writes it.
pub fn decimal_string(n: usize) -> (s: String)
    ensures
        s@ == decimal(n as nat),
{
    let mut s = String::new();
    push_decimal(&mut s, n);
    assert(Seq::<char>::empty() + decimal(n as nat) =~= decimal(n as nat));
    s
}


/// The name of the attribute that holds field `index` of a tuple struct:
/// an underscore, then `index` in decimal ("_0", "_1", ...).
pub open spec fn tuple_field_name_spec(index: nat) -> Seq<char> {
    seq!['_'] + decimal(index)
}

/// The name of the attribute that holds field `index` of a tuple struct,
/// `format!("_{}", index)`.
pub fn tuple_field_name(index: usize) -> (s: String)
    ensures
        s@ == tuple_field_name_spec(index as nat),
{
    let mut s = String::new();
    push_char(&mut s, '_');
    push_decimal(&mut s, index);
    assert(Seq::<char>::empty().push('_') =~= seq!['_']);
    s
}

/// The Python expression that yields the class standing for a struct named
/// `name`: the value bound to `name` where the expression is evaluated, or else
/// a new empty class of that name.
pub open spec fn class_expression_spec(name: Seq<char>) -> Seq<char> {
    "locals().get(\""@ + name + "\", type(\""@ + name + "\",(),{}))"@
}

/// Builds `locals().get("NAME", type("NAME",(),{}))` for `name`; the name is
/// put in as it is, unescaped.
pub fn class_expression(name: &str) -> (s: String)
    ensures
        s@ == class_expression_spec(name@),
{
    let mut s = String::from_str("locals().get(\"");
    s.append(name);
    s.append("\", type(\"");
    s.append(name);
    s.append("\",(),{}))");
    s
}

/// The class expression for a name `n` is `locals().get("` then all of `n`,
/// then `", type("` then all of `n` again, then `",(),{}))`: the whole name
/// is both the name looked up and the name of the class made, and the
/// expression is 32 characters longer than twice the name.
pub proof fn lemma_class_expression_names_class(n: Seq<char>)
    ensures
        ({
            let e = class_expression_spec(n);
            let k = n.len() as int;
            &&& e.len() == 2 * k + 32
            &&& e.subrange(0, 14) == seq![
                'l', 'o', 'c', 'a', 'l', 's', '(', ')', '.', 'g', 'e', 't', '(', '"',
            ]
            &&& e.subrange(14, 14 + k) == n
            &&& e.subrange(14 + k, 23 + k) == seq!['"', ',', ' ', 't', 'y', 'p', 'e', '(', '"']
            &&& e.subrange(23 + k, 23 + 2 * k) == n
            &&& e.subrange(23 + 2 * k, 32 + 2 * k) == seq![
                '"', ',', '(', ')', ',', '{', '}', ')', ')',
            ]
        }),
{
    reveal_strlit("locals().get(\"");
    reveal_strlit("\", type(\"");
    reveal_strlit("\",(),{}))");
    let p: Seq<char> = "locals().get(\""@;
    let m: Seq<char> = "\", type(\""@;
    let q: Seq<char> = "\",(),{}))"@;
    let e = class_expression_spec(n);
    let k = n.len() as int;
    assert(p =~= seq!['l', 'o', 'c', 'a', 'l', 's', '(', ')', '.', 'g', 'e', 't', '(', '"']);
    assert(m =~= seq!['"', ',', ' ', 't', 'y', 'p', 'e', '(', '"']);
    assert(q =~= seq!['"', ',', '(', ')', ',', '{', '}', ')', ')']);
    assert(e == p + n + m + n + q);
    assert(e.subrange(0, 14) =~= p);
    assert(e.subrange(14, 14 + k) =~= n);
    assert(e.subrange(14 + k, 23 + k) =~= m);
    assert(e.subrange(23 + k, 23 + 2 * k) =~= n);
    assert(e.subrange(23 + 2 * k, 32 + 2 * k) =~= q);
}

/// What heck's `ShoutySnakeCase::to_shouty_snake_case` gives for a string: its
/// words (split at non-alphanumeric characters and at case changes) in upper
/// case, joined by underscores.
pub uninterp spec fn shouty_snake_case(s: Seq<char>) -> Seq<char>;

/// An ASCII uppercase letter.
pub open spec fn is_ascii_upper(c: char) -> bool {
    'A' <= c <= 'Z'
}

/// An ASCII lowercase letter.
pub open spec fn is_ascii_lower(c: char) -> bool {
    'a' <= c <= 'z'
}

/// A character in upper case, for ASCII letters.
pub open spec fn ascii_upper(c: char) -> char {
    if is_ascii_lower(c) {
        ((c as u32) - 32) as char
    } else {
        c
    }
}

/// A capitalized ASCII word: one uppercase letter, then one or more lowercase
/// letters ("Internal", "Server").
pub open spec fn is_capitalized_word(w: Seq<char>) -> bool {
    &&& w.len() >= 2
    &&& is_ascii_upper(w[0])
    &&& forall|i: int| 1 <= i < w.len() ==> is_ascii_lower(#[trigger] w[i])
}

/// One or more capitalized ASCII words.
pub open spec fn capitalized_words(words: Seq<Seq<char>>) -> bool {
    &&& words.len() > 0
    &&& forall|j: int| 0 <= j < words.len() ==> is_capitalized_word(#[trigger] words[j])
}

/// The words written one after another ("InternalServerError").
pub open spec fn concat_words(words: Seq<Seq<char>>) -> Seq<char>
    decreases words.len(),
{
    if words.len() == 0 {
        seq![]
    } else {
        concat_words(words.drop_last()) + words.last()
    }
}

/// The words in upper case, joined by underscores ("INTERNAL_SERVER_ERROR").
pub open spec fn shouty_words(words: Seq<Seq<char>>) -> Seq<char>
    decreases words.len(),
{
    if words.len() == 0 {
        seq![]
    } else if words.len() == 1 {
        words[0].map_values(|c: char| ascii_upper(c))
    } else {
        shouty_words(words.drop_last()) + seq!['_'] + words.last().map_values(
            |c: char| ascii_upper(c),
        )
    }
}

/// Calls heck's `ShoutySnakeCase::to_shouty_snake_case` (heck 0.3). The
/// result is named by [`shouty_snake_case`]. Of it one fact is claimed, which
/// heck's documentation gives (a boundary before each uppercase letter that
/// is followed by lowercase ones; words upper-cased and joined by
/// underscores): a string made of capitalized ASCII words becomes those
/// words in upper case joined by underscores. Nothing is claimed of other
/// strings.
#[verifier::external_body]
pub(crate) fn to_shouty_snake_case(s: &str) -> (r: String)
    ensures
        r@ == shouty_snake_case(s@),
        forall|words: Seq<Seq<char>>|
            #[trigger] concat_words(words) == s@ && capitalized_words(words) ==> r@
                == shouty_words(words),
{
    heck::ShoutySnakeCase::to_shouty_snake_case(s)
}

proof fn lemma_decimal_len(n: nat)
    ensures
        decimal(n).len() >= 1,
        n >= 10 ==> decimal(n).len() >= 2,
    decreases n,
{
    if n >= 10 {
        lemma_decimal_len(n / 10);
    }
}

/// Distinct numbers have distinct decimal notations.
pub proof fn lemma_decimal_injective(a: nat, b: nat)
    requires
        decimal(a) == decimal(b),
    ensures
        a == b,
    decreases a,
{
    lemma_decimal_len(a);
    lemma_decimal_len(b);
    if a < 10 && b < 10 {
        assert(decimal(a)[0] == digit_char(a));
        assert(decimal(b)[0] == digit_char(b));
    } else if a >= 10 && b >= 10 {
        let da = decimal(a);
        let db = decimal(b);
        assert(da.last() == digit_char(a % 10));
        assert(db.last() == digit_char(b % 10));
        assert(da.drop_last() =~= decimal(a / 10));
        assert(db.drop_last() =~= decimal(b / 10));
        lemma_decimal_injective(a / 10, b / 10);
    }
}

/// Distinct tuple-struct fields get distinct attribute names, so setting the
/// attribute of one field never replaces that of another.
pub proof fn lemma_tuple_field_names_distinct(i: nat, j: nat)
    requires
        i != j,
    ensures
        tuple_field_name_spec(i) != tuple_field_name_spec(j),
{
    if tuple_field_name_spec(i) == tuple_field_name_spec(j) {
        assert(tuple_field_name_spec(i).drop_first() =~= decimal(i));
        assert(tuple_field_name_spec(j).drop_first() =~= decimal(j));
        lemma_decimal_injective(i, j);
    }
}


/// Upper-casing capitalized words into SHOUTY_SNAKE_CASE keeps every letter
/// and puts exactly one underscore between two words: the result is one
/// character longer per word boundary than the words written together, and
/// the text after the last underscore is the last word in upper case.
pub proof fn lemma_shouty_words_shape(words: Seq<Seq<char>>)
    requires
        capitalized_words(words),
    ensures
        shouty_words(words).len() == concat_words(words).len() + words.len() - 1,
        shouty_words(words).subrange(
            shouty_words(words).len() - words.last().len(),
            shouty_words(words).len() as int,
        ) == words.last().map_values(|c: char| ascii_upper(c)),
        words.len() > 1 ==> shouty_words(words)[shouty_words(words).len() - words.last().len()
            - 1] == '_',
    decreases words.len(),
{
    let sw = shouty_words(words);
    let last = words.last().map_values(|c: char| ascii_upper(c));
    if words.len() == 1 {
        assert(concat_words(words.drop_last()) =~= Seq::<char>::empty());
        assert(sw.subrange(0, sw.len() as int) =~= sw);
    } else {
        let rest = words.drop_last();
        assert(capitalized_words(rest)) by {
            assert forall|j: int| 0 <= j < rest.len() implies is_capitalized_word(
                #[trigger] rest[j],
            ) by {
                assert(rest[j] == words[j]);
            }
        }
        lemma_shouty_words_shape(rest);
        assert(sw == shouty_words(rest) + seq!['_'] + last);
        assert(sw.subrange(sw.len() - last.len(), sw.len() as int) =~= last);
    }
}

} // verus!
