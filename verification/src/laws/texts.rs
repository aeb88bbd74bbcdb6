//! Laws of the character-level rules.

use vstd::prelude::*;

use crate::laws;
use crate::text;
use crate::text::{decimal_text, parse_lenient, quote_body, settle, snippet_text, unfence};

verus! {

/// The number that a row of decimal digits stands for.
pub open spec fn value(digits: Seq<char>) -> int
    decreases digits.len(),
{
    if digits.len() == 0 {
        0
    } else {
        10 * value(digits.drop_last()) + (digits.last() as int - 48)
    }
}

proof fn lemma_decimal(n: nat)
    ensures
        value(text::decimal(n)) == n,
        text::decimal(n).len() >= 1,
        n > 0 ==> text::decimal(n)[0] != '0',
        n == 0 ==> text::decimal(n).len() == 1,
        forall|i: int|
            0 <= i < text::decimal(n).len() ==> '0' <= #[trigger] text::decimal(n)[i]
                && text::decimal(n)[i] <= '9',
    decreases n,
{
    let s = text::decimal(n);
    if n < 10 {
        assert(s.drop_last() =~= Seq::<char>::empty());
        assert(value(s.drop_last()) == 0);
    } else {
        lemma_decimal(n / 10);
        assert(s.drop_last() =~= text::decimal(n / 10));
        assert(s[0] == text::decimal(n / 10)[0]);
        assert forall|i: int| 0 <= i < s.len() implies '0' <= #[trigger] s[i] && s[i] <= '9' by {
            if i < s.len() - 1 {
                assert(s[i] == text::decimal(n / 10)[i]);
            }
        }
    }
}

/// A number in decimal reads back as the number, in digits alone and without a
/// leading zero.
pub proof fn law_a_number_reads_back(n: u64, r: String)
    requires
        call_ensures(decimal_text, (n,), r),
    ensures
        value(r@) == n,
        r@.len() >= 1,
        r@.len() > 1 ==> r@[0] != '0',
        forall|i: int| 0 <= i < r@.len() ==> '0' <= #[trigger] r@[i] && r@[i] <= '9',
{
    lemma_decimal(n as nat);
}

/// The numbers in messages read back too.
pub proof fn law_a_quoted_number_reads_back(n: nat)
    ensures
        value(text::decimal(n)) == n,
{
    lemma_decimal(n);
}

/// A snippet is the start of the text, and it is cut only behind 500
/// characters.
pub proof fn law_a_snippet_is_the_start(s: &str, r: String)
    requires
        call_ensures(snippet_text, (s,), r),
    ensures
        r@.is_prefix_of(s@),
        s@.len() <= 500 ==> r@ == s@,
        s@.len() > 500 ==> r@.len() == 500,
{
}

/// A decoding error is quoted first and the start of the body behind it.
pub proof fn law_an_error_quotes_its_body(error: &str, body: &str, r: String)
    requires
        call_ensures(quote_body, (error, body), r),
    ensures
        r@ == error@ + "; body snippet: "@ + laws::start_of(body@),
        error@.is_prefix_of(r@),
        laws::start_of(body@).is_suffix_of(r@),
{
    assert(text::snippet(body@) =~= laws::start_of(body@));
}

proof fn lemma_contains_transitive(s: Seq<char>, m: Seq<char>, p: Seq<char>)
    requires
        text::contains(s, m),
        text::contains(m, p),
    ensures
        text::contains(s, p),
{
    let (a, b) = choose|a: Seq<char>, b: Seq<char>| #[trigger] (a + m + b) == s;
    let (c, d) = choose|c: Seq<char>, d: Seq<char>| #[trigger] (c + p + d) == m;
    assert((a + c) + p + (d + b) =~= s);
}

proof fn lemma_trimmed_occurs(s: Seq<char>)
    ensures
        text::contains(s, text::trimmed(s)),
{
    text::law_trimmed_is_the_middle(s);
}

/// Taking a fence off invents nothing: what is left stands in the reply as it
/// is, and has no white space at either end.
pub proof fn law_unfencing_invents_nothing(raw: &str, r: &str)
    requires
        call_ensures(unfence, (raw,), r),
    ensures
        text::contains(raw@, r@),
        r@.len() > 0 ==> !text::is_white_space(r@[0]) && !text::is_white_space(r@.last()),
{
    let t = text::trimmed(raw@);
    lemma_trimmed_occurs(raw@);
    text::law_trimmed_is_the_middle(raw@);
    if text::FENCE@.is_prefix_of(t) {
        let o = text::after_opening_fence(t);
        let c = text::before_closing_fence(o);
        assert(t.take(t.len() - o.len()) + o + Seq::<char>::empty() =~= t);
        assert(text::contains(t, o));
        assert(Seq::<char>::empty() + c + o.skip(c.len() as int) =~= o);
        assert(text::contains(o, c));
        lemma_trimmed_occurs(c);
        text::law_trimmed_is_the_middle(c);
        lemma_contains_transitive(raw@, t, o);
        lemma_contains_transitive(raw@, o, c);
        lemma_contains_transitive(raw@, c, r@);
    }
}

/// Whatever a fence looks like (with its language or without, closed or never
/// closed), what is left of a fenced reply is its body, trimmed; a reply
/// without a fence is only trimmed.
pub proof fn law_a_fence_is_taken_off(
    raw: &str,
    before: Seq<char>,
    body: Seq<char>,
    after: Seq<char>,
    r: &str,
)
    requires
        call_ensures(unfence, (raw,), r),
        text::is_blank(before),
        text::is_blank(after),
    ensures
        raw@ == before + ("```json"@ + body + "```"@) + after ==> r@ == text::trimmed(body),
        raw@ == before + ("```"@ + body + "```"@) + after && !"json"@.is_prefix_of(body + "```"@)
            ==> r@ == text::trimmed(body),
        raw@ == before + ("```json"@ + body) && !"```"@.is_suffix_of(text::trimmed_end(body))
            ==> r@ == text::trimmed(body),
        raw@ == before + ("```"@ + body) && !"```"@.is_suffix_of(text::trimmed_end(body))
            && !"json"@.is_prefix_of(body) ==> r@ == text::trimmed(body),
        !"```"@.is_prefix_of(text::trimmed(raw@)) ==> r@ == text::trimmed(raw@),
{
    if text::is_fenced(raw@, before, body, after) {
        text::law_every_fence_is_unwrapped(raw@, before, body, after);
    }
}

/// The second reading keeps a value and marks an error.
pub proof fn law_the_second_reading_is_kept<T>(second: Result<T, String>, r: Result<T, String>)
    requires
        call_ensures(settle::<T>, (second,), r),
    ensures
        second matches Ok(v) ==> (r matches Ok(w) && v == w),
        second matches Err(e) ==> (r matches Err(m) && m@ == e@ + " (after stripping fences)"@),
{
}

/// What a lenient reading comes to, of a decoder that always reads the reply
/// as `first` and the reply without its fences as `second`: the first reading
/// where it succeeds, and else the second.
pub open spec fn read_leniently<T>(
    first: Result<T, String>,
    second: Result<T, String>,
    r: Result<T, String>,
) -> bool {
    &&& first is Ok ==> r == first
    &&& first is Err ==> {
        &&& second is Ok ==> r == second
        &&& second matches Err(e) ==> (r matches Err(m) && m@ == e@
            + " (after stripping fences)"@)
    }
}

pub(crate) proof fn lemma_lenient<T, F: Fn(&str) -> Result<T, String>>(
    decode: F,
    raw: Seq<char>,
    first: Result<T, String>,
    second: Result<T, String>,
    r: Result<T, String>,
)
    requires
        text::lenient_outcome(decode, raw, r),
        laws::always(decode, raw, first),
        laws::always(decode, text::unfenced(raw), second),
    ensures
        read_leniently(first, second, r),
{
}

/// A reply is read as it stands where that succeeds, and without its fences
/// where it does not.
pub proof fn law_a_reply_is_read_leniently<T, F: Fn(&str) -> Result<T, String>>(
    raw: &str,
    decode: F,
    first: Result<T, String>,
    second: Result<T, String>,
    r: Result<T, String>,
)
    requires
        call_ensures(parse_lenient::<T, F>, (raw, decode), r),
        laws::always(decode, raw@, first),
        laws::always(decode, text::unfenced(raw@), second),
    ensures
        read_leniently(first, second, r),
{
    lemma_lenient(decode, raw@, first, second, r);
}

} // verus!
