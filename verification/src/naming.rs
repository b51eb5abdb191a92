//! Turning a Rust variant name such as `RevisionConflict` into the stable
//! machine-readable problem code `revision_conflict`.
use vstd::prelude::*;
use vstd::string::*;

verus! {

/// `c` is one of the ASCII capital letters `A`..=`Z`.
pub open spec fn is_ascii_upper(c: char) -> bool {
    'A' <= c && c <= 'Z'
}

/// The ASCII lower-case form of `c`: capitals map to their small letter,
/// every other character is left as it is.
pub open spec fn ascii_lower(c: char) -> char {
    if is_ascii_upper(c) {
        ((c as u32) + 32) as char
    } else {
        c
    }
}

/// Whether `c` is an ASCII capital letter.
fn is_capital(c: char) -> (r: bool)
    ensures
        r == is_ascii_upper(c),
{
    'A' <= c && c <= 'Z'
}

/// The ASCII lower-case form of `c`.
fn to_lower(c: char) -> (r: char)
    ensures
        r == ascii_lower(c),
{
    if 'A' <= c && c <= 'Z' {
        let code: u32 = c as u32;
        let lower: u8 = (code + 32) as u8;
        lower as char
    } else {
        c
    }
}

pub assume_specification[ String::push ](s: &mut String, ch: char)
    ensures
        final(s)@ == old(s)@.push(ch),
;

/// The output for one input character: a capital that is not the first
/// character is preceded by `_`; every character is lower-cased.
pub open spec fn snake_piece(c: char, first: bool) -> Seq<char> {
    if is_ascii_upper(c) && !first {
        seq!['_', ascii_lower(c)]
    } else {
        seq![ascii_lower(c)]
    }
}

/// `snake_case` of a whole character sequence, defined on its prefixes.
pub open spec fn snake_case_of(s: Seq<char>) -> Seq<char>
    decreases s.len(),
{
    if s.len() == 0 {
        seq![]
    } else {
        snake_case_of(s.drop_last()) + snake_piece(s.last(), s.len() == 1)
    }
}

/// Converts `UpperCamelCase` text into `snake_case`.
pub fn snake_case(value: &str) -> (output: String)
    ensures
        output@ == snake_case_of(value@),
{
    let n = value.unicode_len();
    let mut output = String::new();
    let mut index: usize = 0;
    while index < n
        invariant
            n == value@.len(),
            index <= n,
            output@ == snake_case_of(value@.take(index as int)),
        decreases n - index,
    {
        let character = value.get_char(index);
        if is_capital(character) && index != 0 {
            output.push('_');
        }
        output.push(to_lower(character));
        assert(value@.take(index + 1).drop_last() =~= value@.take(index as int));
        index = index + 1;
    }
    assert(value@.take(n as int) =~= value@);
    output
}

/// Lower-casing never yields an ASCII capital.
pub proof fn lemma_lower_is_not_upper(c: char)
    ensures
        !is_ascii_upper(ascii_lower(c)),
{
    if is_ascii_upper(c) {
        let v = c as u32;
        assert(65 <= v <= 90);
        assert((v + 32) as char == ascii_lower(c));
    }
}

/// No ASCII capital letter survives `snake_case`.
pub proof fn law_snake_case_has_no_capitals(s: Seq<char>)
    ensures
        forall|i: int| 0 <= i < snake_case_of(s).len() ==> !is_ascii_upper(#[trigger] snake_case_of(s)[i]),
    decreases s.len(),
{
    if s.len() > 0 {
        law_snake_case_has_no_capitals(s.drop_last());
        lemma_lower_is_not_upper(s.last());
        let prefix = snake_case_of(s.drop_last());
        let piece = snake_piece(s.last(), s.len() == 1);
        assert forall|i: int| 0 <= i < snake_case_of(s).len() implies !is_ascii_upper(
            #[trigger] snake_case_of(s)[i],
        ) by {
            if i >= prefix.len() {
                assert(snake_case_of(s)[i] == piece[i - prefix.len()]);
            } else {
                assert(snake_case_of(s)[i] == prefix[i]);
            }
        }
    }
}

/// Text without ASCII capitals is already in `snake_case`: it comes back unchanged.
pub proof fn law_snake_case_keeps_text_without_capitals(s: Seq<char>)
    requires
        forall|i: int| 0 <= i < s.len() ==> !is_ascii_upper(#[trigger] s[i]),
    ensures
        snake_case_of(s) == s,
    decreases s.len(),
{
    if s.len() > 0 {
        law_snake_case_keeps_text_without_capitals(s.drop_last());
        assert(!is_ascii_upper(s[s.len() - 1]));
        assert(s.drop_last().push(s.last()) =~= s);
    }
}

/// Every character of the input gives one output character, and every capital
/// after the first position gives one more, the `_` before it.
pub open spec fn capitals_after_first(s: Seq<char>) -> nat
    decreases s.len(),
{
    if s.len() == 0 {
        0
    } else {
        capitals_after_first(s.drop_last()) + if is_ascii_upper(s.last()) && s.len() != 1 {
            1nat
        } else {
            0nat
        }
    }
}

/// `snake_case` grows text by exactly one `_` per capital after the first character.
pub proof fn law_snake_case_length(s: Seq<char>)
    ensures
        snake_case_of(s).len() == s.len() + capitals_after_first(s),
    decreases s.len(),
{
    if s.len() > 0 {
        law_snake_case_length(s.drop_last());
    }
}

} // verus!
