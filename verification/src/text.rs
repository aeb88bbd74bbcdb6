//! Character-level rules shared by the prompts, the parsers and the replies.
//!
//! Everything here is stated over `Seq<char>`, the view of `str` and `String`.

use vstd::prelude::*;

verus! {

/// Marks the start and the end of a fenced block in model output.
pub const FENCE: &'static str = "```";

/// The opening fence that names its language.
pub const JSON_FENCE: &'static str = "```json";

/// Characters of a body that an error message quotes at most.
pub const SNIPPET_CHARS: usize = 500;

/// The Unicode property `White_Space`.
pub open spec fn is_white_space(c: char) -> bool {
    let u = c as u32;
    ||| 0x9 <= u <= 0xd
    ||| u == 0x20
    ||| u == 0x85
    ||| u == 0xa0
    ||| u == 0x1680
    ||| 0x2000 <= u <= 0x200a
    ||| u == 0x2028
    ||| u == 0x2029
    ||| u == 0x202f
    ||| u == 0x205f
    ||| u == 0x3000
}

/// Nothing but white space, or nothing at all.
pub open spec fn is_blank(s: Seq<char>) -> bool {
    forall|i: int| 0 <= i < s.len() ==> is_white_space(#[trigger] s[i])
}

/// `s` without its leading white space.
pub open spec fn trimmed_start(s: Seq<char>) -> Seq<char>
    decreases s.len(),
{
    if s.len() > 0 && is_white_space(s[0]) {
        trimmed_start(s.drop_first())
    } else {
        s
    }
}

/// `s` without its trailing white space.
pub open spec fn trimmed_end(s: Seq<char>) -> Seq<char>
    decreases s.len(),
{
    if s.len() > 0 && is_white_space(s.last()) {
        trimmed_end(s.drop_last())
    } else {
        s
    }
}

/// `s` without the white space at either end.
pub open spec fn trimmed(s: Seq<char>) -> Seq<char> {
    trimmed_end(trimmed_start(s))
}

/// `part` occurs in `s`.
pub open spec fn contains(s: Seq<char>, part: Seq<char>) -> bool {
    exists|a: Seq<char>, b: Seq<char>| #[trigger] (a + part + b) == s
}

/// The decimal digit for `d`.
pub open spec fn digit(d: nat) -> char
    recommends
        d < 10,
{
    (48 + d) as char
}

/// `n` in decimal, without leading zeros.
pub open spec fn decimal(n: nat) -> Seq<char>
    decreases n,
{
    if n < 10 {
        seq![digit(n)]
    } else {
        decimal(n / 10).push(digit(n % 10))
    }
}

/// The first [`SNIPPET_CHARS`] characters of `s`, or all of it.
pub open spec fn snippet(s: Seq<char>) -> Seq<char> {
    if s.len() <= SNIPPET_CHARS {
        s
    } else {
        s.take(SNIPPET_CHARS as int)
    }
}

/// A decoding error together with the start of the body it is about.
pub open spec fn with_snippet(error: Seq<char>, body: Seq<char>) -> Seq<char> {
    error + "; body snippet: "@ + snippet(body)
}

/// `s` behind its opening fence, if it has one.
pub open spec fn after_opening_fence(s: Seq<char>) -> Seq<char> {
    if JSON_FENCE@.is_prefix_of(s) {
        s.skip(JSON_FENCE@.len() as int)
    } else if FENCE@.is_prefix_of(s) {
        s.skip(FENCE@.len() as int)
    } else {
        s
    }
}

/// `s` before its closing fence, if it has one.
pub open spec fn before_closing_fence(s: Seq<char>) -> Seq<char> {
    if FENCE@.is_suffix_of(s) {
        s.take(s.len() - FENCE@.len())
    } else {
        s
    }
}

/// What a model reply says once its surrounding white space and a surrounding
/// fence are gone.
pub open spec fn unfenced(raw: Seq<char>) -> Seq<char> {
    let t = trimmed(raw);
    if FENCE@.is_prefix_of(t) {
        trimmed(before_closing_fence(after_opening_fence(t)))
    } else {
        t
    }
}

/// `decode`, called on a text that reads `text`, can return `r`.
pub open spec fn decodes<T, F: Fn(&str) -> Result<T, String>>(
    decode: F,
    text: Seq<char>,
    r: Result<T, String>,
) -> bool {
    exists|s: &str| s@ == text && #[trigger] call_ensures(decode, (s,), r)
}

/// The second reading of a reply decides: its value is kept, and its error is
/// marked as coming from the text without fences.
pub open spec fn settles<T>(second: Result<T, String>, r: Result<T, String>) -> bool {
    match (second, r) {
        (Ok(v), Ok(w)) => v == w,
        (Err(e), Err(m)) => m@ == e@ + " (after stripping fences)"@,
        _ => false,
    }
}

/// `r` is what comes of reading `raw` as it stands and, only where that fails,
/// of reading it again without its fences.
pub open spec fn lenient_outcome<T, F: Fn(&str) -> Result<T, String>>(
    decode: F,
    raw: Seq<char>,
    r: Result<T, String>,
) -> bool {
    ||| r is Ok && decodes(decode, raw, r)
    ||| exists|first: String, second: Result<T, String>| {
        &&& #[trigger] decodes(decode, raw, Err::<T, String>(first))
        &&& #[trigger] decodes(decode, unfenced(raw), second)
        &&& settles(second, r)
    }
}

/// `str::trim` of std: the text without the leading and trailing characters
/// that have the Unicode property `White_Space`.
#[verifier::external_body]
pub(crate) fn trim(s: &str) -> (r: &str)
    ensures
        r@ == trimmed(s@),
{
    s.trim()
}

/// `String::push` of std: the character comes last, the rest stays.
pub assume_specification[ String::push ](s: &mut String, c: char)
    ensures
        final(s)@ == old(s)@.push(c),
;

/// Whether two texts read the same.
pub(crate) fn same_text(a: &str, b: &str) -> (r: bool)
    ensures
        r == (a@ == b@),
{
    a.to_owned() == b.to_owned()
}

/// Whether `s` holds nothing but white space.
pub(crate) fn blank(s: &str) -> (r: bool)
    ensures
        r == is_blank(s@),
{
    proof {
        law_blank_iff_trimmed_empty(s@);
    }
    trim(s).is_empty()
}

pub(crate) fn cat2(a: &str, b: &str) -> (r: String)
    ensures
        r@ == a@ + b@,
{
    a.to_owned().concat(b)
}

pub(crate) fn cat3(a: &str, b: &str, c: &str) -> (r: String)
    ensures
        r@ == a@ + b@ + c@,
{
    cat2(a, b).concat(c)
}

pub(crate) fn cat4(a: &str, b: &str, c: &str, d: &str) -> (r: String)
    ensures
        r@ == a@ + b@ + c@ + d@,
{
    cat3(a, b, c).concat(d)
}

pub(crate) fn cat5(a: &str, b: &str, c: &str, d: &str, e: &str) -> (r: String)
    ensures
        r@ == a@ + b@ + c@ + d@ + e@,
{
    cat4(a, b, c, d).concat(e)
}

/// `n` in decimal.
pub fn decimal_text(n: u64) -> (r: String)
    ensures
        r@ == decimal(n as nat),
    decreases n,
{
    let mut out = if n < 10 {
        String::new()
    } else {
        decimal_text(n / 10)
    };
    out.push((48u8 + (n % 10) as u8) as char);
    proof {
        assert(out@ =~= decimal(n as nat));
    }
    out
}

/// The part of a body that an error message quotes.
pub fn snippet_text(s: &str) -> (r: String)
    ensures
        r@ == snippet(s@),
{
    if s.unicode_len() <= SNIPPET_CHARS {
        s.to_owned()
    } else {
        s.substring_char(0, SNIPPET_CHARS).to_owned()
    }
}

/// A decoding error together with the start of the body it is about.
pub fn quote_body(error: &str, body: &str) -> (r: String)
    ensures
        r@ == with_snippet(error@, body@),
{
    cat3(error, "; body snippet: ", snippet_text(body).as_str())
}

/// What stands behind `prefix`, where `s` starts with it.
pub(crate) fn strip_prefix<'a>(s: &'a str, prefix: &str) -> (r: Option<&'a str>)
    ensures
        r is Some <==> prefix@.is_prefix_of(s@),
        r matches Some(rest) ==> rest@ == s@.skip(prefix@.len() as int),
{
    let n: usize = s.unicode_len();
    let m: usize = prefix.unicode_len();
    if m <= n && same_text(s.substring_char(0, m), prefix) {
        Some(s.substring_char(m, n))
    } else {
        None
    }
}

/// What stands before `suffix`, where `s` ends with it.
pub(crate) fn strip_suffix<'a>(s: &'a str, suffix: &str) -> (r: Option<&'a str>)
    ensures
        r is Some <==> suffix@.is_suffix_of(s@),
        r matches Some(rest) ==> rest@ == s@.take(s@.len() - suffix@.len()),
{
    let n: usize = s.unicode_len();
    let m: usize = suffix.unicode_len();
    if m <= n && same_text(s.substring_char(n - m, n), suffix) {
        Some(s.substring_char(0, n - m))
    } else {
        None
    }
}

/// Strips white space and a leading ```` ```json ```` or ```` ``` ```` fence
/// with its closing ```` ``` ````.
pub fn unfence(raw: &str) -> (r: &str)
    ensures
        r@ == unfenced(raw@),
{
    let t = trim(raw);
    match strip_prefix(t, FENCE) {
        None => t,
        Some(plain) => {
            let after = match strip_prefix(t, JSON_FENCE) {
                Some(tagged) => tagged,
                None => plain,
            };
            match strip_suffix(after, FENCE) {
                Some(inner) => trim(inner),
                None => trim(after),
            }
        },
    }
}

/// What the second reading of a reply comes to.
pub fn settle<T>(second: Result<T, String>) -> (r: Result<T, String>)
    ensures
        settles(second, r),
{
    match second {
        Ok(v) => Ok(v),
        Err(e) => Err(cat2(e.as_str(), " (after stripping fences)")),
    }
}

/// Reads a model reply: as it stands first, then without its fences, because
/// the model sometimes fences its JSON despite instructions.
pub fn parse_lenient<T, F: Fn(&str) -> Result<T, String>>(raw: &str, decode: F) -> (r: Result<
    T,
    String,
>)
    requires
        forall|s: &str| call_requires(decode, (s,)),
    ensures
        lenient_outcome(decode, raw@, r),
{
    match decode(raw) {
        Ok(v) => {
            let r = Ok(v);
            assert(decodes(decode, raw@, r));
            r
        },
        Err(first) => {
            assert(decodes(decode, raw@, Err::<T, String>(first)));
            let second = decode(unfence(raw));
            assert(decodes(decode, unfenced(raw@), second));
            settle(second)
        },
    }
}

proof fn lemma_trimmed_start(s: Seq<char>)
    ensures
        trimmed_start(s).len() <= s.len(),
        is_blank(s.take(s.len() - trimmed_start(s).len())),
        trimmed_start(s) == s.skip(s.len() - trimmed_start(s).len()),
        trimmed_start(s).len() > 0 ==> !is_white_space(trimmed_start(s)[0]),
    decreases s.len(),
{
    if s.len() > 0 && is_white_space(s[0]) {
        let t = s.drop_first();
        lemma_trimmed_start(t);
        let k = s.len() - trimmed_start(s).len();
        assert(trimmed_start(s) =~= s.skip(k));
        assert forall|i: int| 0 <= i < k implies is_white_space(#[trigger] s.take(k)[i]) by {
            if i > 0 {
                assert(is_white_space(t.take(k - 1)[i - 1]));
            }
        }
    } else {
        assert(s.skip(0) =~= s);
    }
}

proof fn lemma_trimmed_end(s: Seq<char>)
    ensures
        trimmed_end(s).len() <= s.len(),
        is_blank(s.skip(trimmed_end(s).len() as int)),
        trimmed_end(s) == s.take(trimmed_end(s).len() as int),
        trimmed_end(s).len() > 0 ==> !is_white_space(trimmed_end(s).last()),
    decreases s.len(),
{
    if s.len() > 0 && is_white_space(s.last()) {
        let t = s.drop_last();
        lemma_trimmed_end(t);
        let k = trimmed_end(s).len() as int;
        assert(trimmed_end(s) =~= s.take(k));
        assert forall|i: int| 0 <= i < s.len() - k implies is_white_space(
            #[trigger] s.skip(k)[i],
        ) by {
            if i < t.len() - k {
                assert(is_white_space(t.skip(k)[i]));
            }
        }
    } else {
        assert(s.take(s.len() as int) =~= s);
    }
}

/// Trimming takes a blank piece from either end and leaves the middle as it
/// is; the middle neither starts nor ends with white space.
pub proof fn law_trimmed_is_the_middle(s: Seq<char>)
    ensures
        exists|a: Seq<char>, b: Seq<char>| #[trigger]
            (a + trimmed(s) + b) == s && is_blank(a) && is_blank(b),
        trimmed(s).len() > 0 ==> !is_white_space(trimmed(s)[0]) && !is_white_space(
            trimmed(s).last(),
        ),
{
    let t = trimmed_start(s);
    lemma_trimmed_start(s);
    lemma_trimmed_end(t);
    let a = s.take(s.len() - t.len());
    let b = t.skip(trimmed(s).len() as int);
    assert(a + trimmed(s) + b =~= s);
}

/// A text is blank exactly where trimming leaves nothing of it.
pub proof fn law_blank_iff_trimmed_empty(s: Seq<char>)
    ensures
        is_blank(s) <==> trimmed(s).len() == 0,
{
    let t = trimmed_start(s);
    lemma_trimmed_start(s);
    lemma_trimmed_end(t);
    let k = s.len() - t.len();
    if is_blank(s) {
        if t.len() > 0 {
            assert(t[0] == s[k]);
        }
    }
    if trimmed(s).len() == 0 {
        if t.len() > 0 {
            assert(is_white_space(t.skip(0)[0]));
        }
        assert(s.take(k) =~= s);
    }
}

/// A text that neither starts nor ends with white space is left alone.
pub proof fn law_trimmed_keeps_a_tight_text(s: Seq<char>)
    requires
        s.len() > 0 ==> !is_white_space(s[0]) && !is_white_space(s.last()),
    ensures
        trimmed(s) == s,
{
}

/// Trimming twice is trimming once.
pub proof fn law_trimmed_is_idempotent(s: Seq<char>)
    ensures
        trimmed(trimmed(s)) == trimmed(s),
{
    law_trimmed_is_the_middle(s);
    law_trimmed_keeps_a_tight_text(trimmed(s));
}

proof fn lemma_trimmed_start_skips(a: Seq<char>, s: Seq<char>)
    requires
        is_blank(a),
        s.len() > 0,
        !is_white_space(s[0]),
    ensures
        trimmed_start(a + s) == s,
    decreases a.len(),
{
    if a.len() > 0 {
        assert(is_white_space(a[0]));
        assert((a + s).drop_first() =~= a.drop_first() + s);
        assert forall|i: int| 0 <= i < a.drop_first().len() implies is_white_space(
            #[trigger] a.drop_first()[i],
        ) by {
            assert(is_white_space(a[i + 1]));
        }
        lemma_trimmed_start_skips(a.drop_first(), s);
    } else {
        assert(a + s =~= s);
    }
}

proof fn lemma_trimmed_end_skips(s: Seq<char>, b: Seq<char>)
    requires
        is_blank(b),
        s.len() > 0,
        !is_white_space(s.last()),
    ensures
        trimmed_end(s + b) == s,
    decreases b.len(),
{
    if b.len() > 0 {
        assert((s + b).last() == b[b.len() - 1]);
        assert((s + b).drop_last() =~= s + b.drop_last());
        assert forall|i: int| 0 <= i < b.drop_last().len() implies is_white_space(
            #[trigger] b.drop_last()[i],
        ) by {
            assert(is_white_space(b[i]));
        }
        lemma_trimmed_end_skips(s, b.drop_last());
    } else {
        assert(s + b =~= s);
    }
}

/// A fenced block gives back what stands between its fences, trimmed, whatever
/// white space surrounds the block.
pub proof fn law_a_fenced_block_is_unwrapped(before: Seq<char>, body: Seq<char>, after: Seq<char>)
    requires
        is_blank(before),
        is_blank(after),
    ensures
        unfenced(before + (JSON_FENCE@ + body + FENCE@) + after) == trimmed(body),
        !"json"@.is_prefix_of(body + FENCE@) ==> unfenced(
            before + (FENCE@ + body + FENCE@) + after,
        ) == trimmed(body),
{
    reveal_strlit("```");
    reveal_strlit("```json");
    reveal_strlit("json");
    let tagged = JSON_FENCE@ + body + FENCE@;
    lemma_trimmed_start_skips(before, tagged + after);
    assert(before + tagged + after =~= before + (tagged + after));
    lemma_trimmed_end_skips(tagged, after);
    assert(tagged.skip(JSON_FENCE@.len() as int) =~= body + FENCE@);
    assert((body + FENCE@).take(body.len() as int) =~= body);
    assert(FENCE@.is_suffix_of(body + FENCE@));
    assert(JSON_FENCE@.is_prefix_of(tagged));
    assert(FENCE@.is_prefix_of(tagged));

    let plain = FENCE@ + body + FENCE@;
    lemma_trimmed_start_skips(before, plain + after);
    assert(before + plain + after =~= before + (plain + after));
    lemma_trimmed_end_skips(plain, after);
    assert(plain.skip(FENCE@.len() as int) =~= body + FENCE@);
    assert(FENCE@.is_prefix_of(plain));
    if !"json"@.is_prefix_of(body + FENCE@) {
        if JSON_FENCE@.is_prefix_of(plain) {
            assert forall|i: int| 0 <= i < 4 implies (body + FENCE@)[i] == "json"@[i] by {
                assert(plain[i + 3] == JSON_FENCE@[i + 3]);
            }
            assert("json"@.is_prefix_of(body + FENCE@));
        }
    }
}

proof fn lemma_trimmed_end_passes(head: Seq<char>, s: Seq<char>)
    requires
        head.len() > 0,
        !is_white_space(head.last()),
    ensures
        trimmed_end(head + s) == head + trimmed_end(s),
    decreases s.len(),
{
    if s.len() == 0 {
        assert(head + s =~= head);
        assert(head + trimmed_end(s) =~= head);
    } else {
        assert((head + s).last() == s.last());
        assert((head + s).drop_last() =~= head + s.drop_last());
        if is_white_space(s.last()) {
            lemma_trimmed_end_passes(head, s.drop_last());
        }
    }
}

proof fn lemma_trimmed_ignores_the_end(s: Seq<char>)
    ensures
        trimmed(trimmed_end(s)) == trimmed(s),
{
    lemma_trimmed_start(s);
    lemma_trimmed_end(s);
    law_blank_iff_trimmed_empty(s);
    let e = trimmed_end(s);
    if is_blank(s) {
        if e.len() > 0 {
            assert(e.last() == s[e.len() - 1]);
        }
        assert(trimmed(s) =~= Seq::<char>::empty());
        assert(trimmed(e) =~= Seq::<char>::empty());
    } else {
        let m = trimmed_start(s);
        let a = s.take(s.len() - m.len());
        assert(a + m =~= s);
        lemma_trimmed_end(m);
        let t = trimmed_end(m);
        let b = m.skip(t.len() as int);
        assert(t + b =~= m);
        assert(a + t + b =~= s);
        lemma_trimmed_end_skips(a + t, b);
        assert((a + t).last() == t.last());
        assert(e == a + t);
        assert(t[0] == m[0]);
        lemma_trimmed_start_skips(a, t);
        law_trimmed_keeps_a_tight_text(t);
        law_trimmed_is_idempotent(s);
    }
}

/// A fence that is never closed gives back what stands behind it, trimmed,
/// whatever white space stands before it. A text that ends with a fence has
/// closed it.
pub proof fn law_an_open_fence_is_unwrapped(before: Seq<char>, body: Seq<char>)
    requires
        is_blank(before),
        !FENCE@.is_suffix_of(trimmed_end(body)),
    ensures
        unfenced(before + (JSON_FENCE@ + body)) == trimmed(body),
        !"json"@.is_prefix_of(body) ==> unfenced(before + (FENCE@ + body)) == trimmed(body),
{
    reveal_strlit("```");
    reveal_strlit("```json");
    reveal_strlit("json");
    let e = trimmed_end(body);
    lemma_trimmed_end(body);
    lemma_trimmed_ignores_the_end(body);

    lemma_trimmed_start_skips(before, JSON_FENCE@ + body);
    lemma_trimmed_end_passes(JSON_FENCE@, body);
    let tagged = JSON_FENCE@ + e;
    assert(tagged.skip(JSON_FENCE@.len() as int) =~= e);
    assert(JSON_FENCE@.is_prefix_of(tagged));
    assert(FENCE@.is_prefix_of(tagged));

    lemma_trimmed_start_skips(before, FENCE@ + body);
    lemma_trimmed_end_passes(FENCE@, body);
    let plain = FENCE@ + e;
    assert(plain.skip(FENCE@.len() as int) =~= e);
    assert(FENCE@.is_prefix_of(plain));
    if !"json"@.is_prefix_of(body) && JSON_FENCE@.is_prefix_of(plain) {
        assert forall|i: int| 0 <= i < 4 implies body[i] == "json"@[i] by {
            assert(plain[i + 3] == JSON_FENCE@[i + 3]);
            assert(e[i] == body[i]);
        }
        assert("json"@.is_prefix_of(body));
    }
}

/// `raw` is `body` behind a fence, with or without its language, and the
/// fence is closed or never closed. White space may surround it all.
pub open spec fn is_fenced(
    raw: Seq<char>,
    before: Seq<char>,
    body: Seq<char>,
    after: Seq<char>,
) -> bool {
    &&& is_blank(before)
    &&& is_blank(after)
    &&& {
        ||| raw == before + (JSON_FENCE@ + body + FENCE@) + after
        ||| raw == before + (FENCE@ + body + FENCE@) + after && !"json"@.is_prefix_of(
            body + FENCE@,
        )
        ||| raw == before + (JSON_FENCE@ + body) && !FENCE@.is_suffix_of(trimmed_end(body))
        ||| raw == before + (FENCE@ + body) && !FENCE@.is_suffix_of(trimmed_end(body))
            && !"json"@.is_prefix_of(body)
    }
}

/// Every form of a fence gives back its body, trimmed.
pub proof fn law_every_fence_is_unwrapped(
    raw: Seq<char>,
    before: Seq<char>,
    body: Seq<char>,
    after: Seq<char>,
)
    requires
        is_fenced(raw, before, body, after),
    ensures
        unfenced(raw) == trimmed(body),
{
    law_a_fenced_block_is_unwrapped(before, body, after);
    if !FENCE@.is_suffix_of(trimmed_end(body)) {
        law_an_open_fence_is_unwrapped(before, body);
    }
}

/// A text without a fence is only trimmed.
pub proof fn law_a_bare_text_is_only_trimmed(raw: Seq<char>)
    requires
        !FENCE@.is_prefix_of(trimmed(raw)),
    ensures
        unfenced(raw) == trimmed(raw),
{
}

/// A reply that can be read as it stands is read as it stands.
pub proof fn law_a_readable_reply_is_taken_as_it_is<T, F: Fn(&str) -> Result<T, String>>(
    decode: F,
    raw: Seq<char>,
    value: T,
    r: Result<T, String>,
)
    requires
        forall|d: Result<T, String>| #[trigger]
            decodes(decode, raw, d) ==> d == Ok::<T, String>(value),
        lenient_outcome(decode, raw, r),
    ensures
        r == Ok::<T, String>(value),
{
}

/// A reply that only its fence makes unreadable is read as what stands inside
/// the fence: with the same value, or with the same error, which is marked.
pub proof fn law_a_fenced_reply_reads_as_its_body<T, F: Fn(&str) -> Result<T, String>>(
    decode: F,
    raw: Seq<char>,
    before: Seq<char>,
    body: Seq<char>,
    after: Seq<char>,
    r: Result<T, String>,
)
    requires
        is_fenced(raw, before, body, after),
        forall|d: Result<T, String>| #[trigger] decodes(decode, raw, d) ==> d is Err,
        lenient_outcome(decode, raw, r),
    ensures
        exists|second: Result<T, String>| #[trigger]
            decodes(decode, trimmed(body), second) && settles(second, r),
{
    law_every_fence_is_unwrapped(raw, before, body, after);
}

/// A plain reply and the same reply behind a fence read alike: with the same
/// value where the decoder reads the reply, and with an error where it does
/// not. The reply starts and ends with something to read and has no fence of
/// its own.
pub proof fn law_plain_and_fenced_replies_read_alike<T, F: Fn(&str) -> Result<T, String>>(
    decode: F,
    reply: Seq<char>,
    raw: Seq<char>,
    before: Seq<char>,
    body: Seq<char>,
    after: Seq<char>,
    read: Result<T, String>,
    plain: Result<T, String>,
    fenced: Result<T, String>,
)
    requires
        trimmed(body) == reply,
        !FENCE@.is_prefix_of(reply),
        is_fenced(raw, before, body, after),
        forall|d: Result<T, String>| #[trigger] decodes(decode, raw, d) ==> d is Err,
        forall|d: Result<T, String>| #[trigger] decodes(decode, reply, d) ==> d == read,
        lenient_outcome(decode, reply, plain),
        lenient_outcome(decode, raw, fenced),
    ensures
        read is Ok ==> plain == read && fenced == read,
        read is Err ==> plain is Err && fenced is Err,
{
    law_every_fence_is_unwrapped(raw, before, body, after);
    law_trimmed_is_idempotent(body);
    law_a_bare_text_is_only_trimmed(reply);
}

} // verus!
