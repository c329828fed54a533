//! Shared helpers of the pages: the error text and HTML escaping.

use vstd::prelude::*;
use crate::text::push_char;
use crate::data::HtmlResponse;

verus! {

/// The text shown in place of a page that could not be built.
pub open spec fn error_text_spec() -> Seq<char> {
    seq!['I', 'n', 't', 'e', 'r', 'n', 'a', 'l', ' ', 's', 'e', 'r', 'v', 'e', 'r', ' ', 'e', 'r', 'r', 'o', 'r']
}

/// The text shown in place of a page that could not be built.
pub fn error_text() -> (res: String)
    ensures
        res@ == error_text_spec(),
{
    let s = String::from_str("Internal server error");
    proof {
        reveal_strlit("Internal server error");
    }
    s
}

/// The answer for a page that could not be built: status 500 and the error text.
pub fn error_html() -> (res: HtmlResponse)
    ensures
        res.status == 500,
        res.body@ == error_text_spec(),
{
    HtmlResponse { status: 500, body: error_text() }
}

/// The name of the site.
pub const SITE_URL: &'static str = "splat.site";

/// What one character becomes in escaped HTML text.
pub open spec fn escape_char(c: char) -> Seq<char> {
    if c == '&' {
        seq!['&', 'a', 'm', 'p', ';']
    } else if c == '<' {
        seq!['&', 'l', 't', ';']
    } else if c == '>' {
        seq!['&', 'g', 't', ';']
    } else if c == '"' {
        seq!['&', 'q', 'u', 'o', 't', ';']
    } else {
        seq![c]
    }
}

/// The escaped form of a text: each character replaced by its escape.
pub open spec fn escape_seq(s: Seq<char>) -> Seq<char>
    decreases s.len(),
{
    if s.len() == 0 {
        Seq::empty()
    } else {
        escape_seq(s.drop_last()) + escape_char(s.last())
    }
}

/// Escapes `&`, `<`, `>` and `"` so that the text can stand in HTML.
pub fn escape_html(s: &str) -> (res: String)
    ensures
        res@ == escape_seq(s@),
{
    let mut out = String::new();
    for c in it: s.chars()
        invariant
            it.seq() == s@,
            out@ == escape_seq(s@.take(it.index() as int)),
    {
        assert(s@.take(it.index() + 1).drop_last() =~= s@.take(it.index() as int));
        if c == '&' {
            out.append("&amp;");
            proof { reveal_strlit("&amp;"); }
        } else if c == '<' {
            out.append("&lt;");
            proof { reveal_strlit("&lt;"); }
        } else if c == '>' {
            out.append("&gt;");
            proof { reveal_strlit("&gt;"); }
        } else if c == '"' {
            out.append("&quot;");
            proof { reveal_strlit("&quot;"); }
        } else {
            push_char(&mut out, c);
        }
    }
    assert(s@.take(s@.len() as int) =~= s@);
    out
}

/// Reads escaped HTML text back: each entity becomes the character it stands for.
pub open spec fn unescape_seq(s: Seq<char>) -> Seq<char>
    decreases s.len(),
{
    if s.len() == 0 {
        Seq::empty()
    } else if s.len() >= 5 && s.take(5) == escape_char('&') {
        seq!['&'] + unescape_seq(s.skip(5))
    } else if s.len() >= 4 && s.take(4) == escape_char('<') {
        seq!['<'] + unescape_seq(s.skip(4))
    } else if s.len() >= 4 && s.take(4) == escape_char('>') {
        seq!['>'] + unescape_seq(s.skip(4))
    } else if s.len() >= 6 && s.take(6) == escape_char('"') {
        seq!['"'] + unescape_seq(s.skip(6))
    } else {
        seq![s[0]] + unescape_seq(s.skip(1))
    }
}

/// The characters that escaping removes from a text.
pub open spec fn is_markup_char(c: char) -> bool {
    c == '<' || c == '>' || c == '"'
}

proof fn lemma_escape_append(a: Seq<char>, b: Seq<char>)
    ensures
        escape_seq(a + b) == escape_seq(a) + escape_seq(b),
    decreases b.len(),
{
    if b.len() == 0 {
        assert(a + b =~= a);
        assert(escape_seq(a) + escape_seq(b) =~= escape_seq(a));
    } else {
        lemma_escape_append(a, b.drop_last());
        assert((a + b).drop_last() =~= a + b.drop_last());
        assert(escape_seq(b) == escape_seq(b.drop_last()) + escape_char(b.last()));
        assert(escape_seq(a + b) =~= escape_seq(a) + escape_seq(b));
    }
}

proof fn lemma_unescape_escaped_char(c: char, t: Seq<char>)
    ensures
        unescape_seq(escape_char(c) + t) == seq![c] + unescape_seq(t),
{
    let e = escape_char(c) + t;
    if c == '&' {
        assert(e.take(5) =~= escape_char('&'));
        assert(e.skip(5) =~= t);
    } else if c == '<' {
        assert(e[1] == 'l');
        assert(e.take(4) =~= escape_char('<'));
        assert(e.skip(4) =~= t);
    } else if c == '>' {
        assert(e[1] == 'g');
        assert(e.take(4) =~= escape_char('>'));
        assert(e.skip(4) =~= t);
    } else if c == '"' {
        assert(e[1] == 'q');
        assert(e.take(6) =~= escape_char('"'));
        assert(e.skip(6) =~= t);
    } else {
        assert(e[0] == c);
        assert(e.len() >= 5 ==> e.take(5)[0] == c);
        assert(e.len() >= 4 ==> e.take(4)[0] == c);
        assert(e.len() >= 6 ==> e.take(6)[0] == c);
        assert(e.skip(1) =~= t);
    }
}

/// Escaping loses nothing: the escaped text reads back as the original text.
pub proof fn lemma_escape_round_trip(s: Seq<char>)
    ensures
        unescape_seq(escape_seq(s)) == s,
    decreases s.len(),
{
    if s.len() == 0 {
    } else {
        let rest = s.drop_first();
        lemma_escape_round_trip(rest);
        assert(s =~= seq![s[0]] + rest);
        lemma_escape_append(seq![s[0]], rest);
        let one = seq![s[0]];
        assert(one.drop_last() =~= Seq::<char>::empty());
        assert(one.last() == s[0]);
        assert(escape_seq(one.drop_last()) =~= Seq::<char>::empty());
        assert(escape_seq(one) =~= escape_char(s[0]));
        lemma_unescape_escaped_char(s[0], escape_seq(rest));
        assert(seq![s[0]] + rest =~= s);
    }
}

/// Escaped text holds no `<`, `>` or `"`, so it cannot open or close markup
/// or an attribute value.
pub proof fn lemma_escape_is_safe(s: Seq<char>)
    ensures
        forall|i: int| 0 <= i < escape_seq(s).len() ==> !is_markup_char(#[trigger] escape_seq(s)[i]),
    decreases s.len(),
{
    if s.len() > 0 {
        lemma_escape_is_safe(s.drop_last());
        let a = escape_seq(s.drop_last());
        let b = escape_char(s.last());
        assert forall|i: int| 0 <= i < escape_seq(s).len() implies !is_markup_char(
            #[trigger] escape_seq(s)[i],
        ) by {
            if i < a.len() {
                assert(escape_seq(s)[i] == a[i]);
            } else {
                assert(escape_seq(s)[i] == b[i - a.len()]);
            }
        }
    }
}

/// A text without `&`, `<`, `>` and `"` is left as it is.
pub proof fn lemma_escape_plain_text(s: Seq<char>)
    requires
        forall|i: int| 0 <= i < s.len() ==> !is_markup_char(#[trigger] s[i]) && s[i] != '&',
    ensures
        escape_seq(s) == s,
    decreases s.len(),
{
    if s.len() > 0 {
        lemma_escape_plain_text(s.drop_last());
        assert(s.drop_last().push(s.last()) =~= s);
    }
}

/// Every `c` in `s` replaced by `r`, as `str::replace` does with a one-character pattern.
pub open spec fn replace_char(s: Seq<char>, c: char, r: Seq<char>) -> Seq<char>
    decreases s.len(),
{
    if s.len() == 0 {
        Seq::empty()
    } else {
        replace_char(s.drop_last(), c, r) + (if s.last() == c { r } else { seq![s.last()] })
    }
}

/// The four replacements of escaping in their order: `&` first, then `<`, `>` and `"`.
pub open spec fn replace_chain(s: Seq<char>) -> Seq<char> {
    replace_char(
        replace_char(
            replace_char(replace_char(s, '&', escape_char('&')), '<', escape_char('<')),
            '>',
            escape_char('>'),
        ),
        '"',
        escape_char('"'),
    )
}

proof fn lemma_replace_append(a: Seq<char>, b: Seq<char>, c: char, r: Seq<char>)
    ensures
        replace_char(a + b, c, r) == replace_char(a, c, r) + replace_char(b, c, r),
    decreases b.len(),
{
    if b.len() == 0 {
        assert(a + b =~= a);
        assert(replace_char(a, c, r) + replace_char(b, c, r) =~= replace_char(a, c, r));
    } else {
        lemma_replace_append(a, b.drop_last(), c, r);
        assert((a + b).drop_last() =~= a + b.drop_last());
        assert(replace_char(a + b, c, r) =~= replace_char(a, c, r) + replace_char(b, c, r));
    }
}

proof fn lemma_replace_absent(s: Seq<char>, c: char, r: Seq<char>)
    requires
        !s.contains(c),
    ensures
        replace_char(s, c, r) == s,
    decreases s.len(),
{
    if s.len() > 0 {
        assert(!s.drop_last().contains(c)) by {
            if s.drop_last().contains(c) {
                let i = choose|i: int| 0 <= i < s.drop_last().len() && s.drop_last()[i] == c;
                assert(s[i] == c);
            }
        }
        assert(s[s.len() - 1] != c);
        lemma_replace_absent(s.drop_last(), c, r);
        assert(s.drop_last().push(s.last()) =~= s);
    }
}

proof fn lemma_replace_one(x: char, c: char, r: Seq<char>)
    ensures
        replace_char(seq![x], c, r) == (if x == c { r } else { seq![x] }),
{
    let one = seq![x];
    assert(one.drop_last() =~= Seq::<char>::empty());
    assert(replace_char(one.drop_last(), c, r) =~= Seq::<char>::empty());
    assert(replace_char(one, c, r) =~= (if x == c { r } else { seq![x] }));
}

proof fn lemma_replace_chain_append(a: Seq<char>, b: Seq<char>)
    ensures
        replace_chain(a + b) == replace_chain(a) + replace_chain(b),
{
    let (amp, lt, gt, quot) = (escape_char('&'), escape_char('<'), escape_char('>'), escape_char('"'));
    lemma_replace_append(a, b, '&', amp);
    let (a1, b1) = (replace_char(a, '&', amp), replace_char(b, '&', amp));
    lemma_replace_append(a1, b1, '<', lt);
    let (a2, b2) = (replace_char(a1, '<', lt), replace_char(b1, '<', lt));
    lemma_replace_append(a2, b2, '>', gt);
    let (a3, b3) = (replace_char(a2, '>', gt), replace_char(b2, '>', gt));
    lemma_replace_append(a3, b3, '"', quot);
}

proof fn lemma_replace_chain_one(x: char)
    ensures
        replace_chain(seq![x]) == escape_char(x),
{
    let (amp, lt, gt, quot) = (escape_char('&'), escape_char('<'), escape_char('>'), escape_char('"'));
    lemma_replace_one(x, '&', amp);
    let s1 = replace_char(seq![x], '&', amp);
    if x == '&' {
        assert(!amp.contains('<')) by { assert(amp =~= seq!['&', 'a', 'm', 'p', ';']); }
        assert(!amp.contains('>')) by { assert(amp =~= seq!['&', 'a', 'm', 'p', ';']); }
        assert(!amp.contains('"')) by { assert(amp =~= seq!['&', 'a', 'm', 'p', ';']); }
        lemma_replace_absent(amp, '<', lt);
        lemma_replace_absent(amp, '>', gt);
        lemma_replace_absent(amp, '"', quot);
    } else {
        lemma_replace_one(x, '<', lt);
        if x == '<' {
            assert(!lt.contains('>'));
            assert(!lt.contains('"'));
            lemma_replace_absent(lt, '>', gt);
            lemma_replace_absent(lt, '"', quot);
        } else {
            lemma_replace_one(x, '>', gt);
            if x == '>' {
                assert(!gt.contains('"'));
                lemma_replace_absent(gt, '"', quot);
            } else {
                lemma_replace_one(x, '"', quot);
            }
        }
    }
}

/// Escaping a text is the same as replacing, in this order, every `&`, then
/// every `<`, every `>` and every `"` by its entity; `&` comes first, so no
/// entity is escaped a second time.
pub proof fn lemma_escape_is_replace_chain(s: Seq<char>)
    ensures
        escape_seq(s) == replace_chain(s),
    decreases s.len(),
{
    if s.len() == 0 {
        assert(replace_char(Seq::<char>::empty(), '&', escape_char('&')) =~= Seq::<char>::empty());
        assert(replace_char(Seq::<char>::empty(), '<', escape_char('<')) =~= Seq::<char>::empty());
        assert(replace_char(Seq::<char>::empty(), '>', escape_char('>')) =~= Seq::<char>::empty());
        assert(replace_char(Seq::<char>::empty(), '"', escape_char('"')) =~= Seq::<char>::empty());
    } else {
        lemma_escape_is_replace_chain(s.drop_last());
        lemma_replace_chain_append(s.drop_last(), seq![s.last()]);
        lemma_replace_chain_one(s.last());
        assert(s.drop_last() + seq![s.last()] =~= s);
    }
}

} // verus!
