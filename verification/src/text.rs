//! Character-level text helpers: ASCII case folding, trailing-slash trimming,
//! decimal rendering and list rendering, each specified over `Seq<char>`.

use vstd::prelude::*;
use vstd::string::*;

verus! {

/// ASCII lower-casing of one character; every other character is kept.
pub open spec fn lower_char(c: char) -> char {
    if 'A' <= c && c <= 'Z' {
        ((c as u32) + 32) as char
    } else {
        c
    }
}

/// ASCII lower-casing of a whole text.
pub open spec fn ascii_lower(s: Seq<char>) -> Seq<char> {
    s.map_values(|c: char| lower_char(c))
}

/// The text with every trailing `'/'` removed.
pub open spec fn trim_end_slashes(s: Seq<char>) -> Seq<char>
    decreases s.len(),
{
    if s.len() > 0 && s.last() == '/' {
        trim_end_slashes(s.drop_last())
    } else {
        s
    }
}

/// Lower-casing keeps the length; it maps each ASCII capital `'A'..='Z'` to the
/// letter 32 code points later and keeps every other character as it is; and
/// no ASCII capital is left.
pub proof fn law_ascii_lower_shape(s: Seq<char>)
    ensures
        ascii_lower(s).len() == s.len(),
        forall|i: int| 0 <= i < s.len() && 'A' <= s[i] <= 'Z' ==> (#[trigger] ascii_lower(s)[i]) as u32
            == (s[i] as u32) + 32,
        forall|i: int| 0 <= i < s.len() && !('A' <= s[i] <= 'Z') ==> #[trigger] ascii_lower(s)[i]
            == s[i],
        forall|i: int| 0 <= i < s.len() ==> !('A' <= #[trigger] ascii_lower(s)[i] <= 'Z'),
{
}

/// Lower-casing twice is lower-casing once.
pub proof fn law_ascii_lower_idempotent(s: Seq<char>)
    ensures
        ascii_lower(ascii_lower(s)) == ascii_lower(s),
{
    assert(ascii_lower(ascii_lower(s)) =~= ascii_lower(s));
}

/// Trimming keeps a prefix of the text, removes only slashes, and leaves no
/// trailing slash behind.
pub proof fn law_trim_end_slashes_shape(s: Seq<char>)
    ensures
        trim_end_slashes(s).len() <= s.len(),
        trim_end_slashes(s) == s.take(trim_end_slashes(s).len() as int),
        forall|i: int| trim_end_slashes(s).len() <= i < s.len() ==> s[i] == '/',
        trim_end_slashes(s).len() == 0 || trim_end_slashes(s).last() != '/',
    decreases s.len(),
{
    if s.len() > 0 && s.last() == '/' {
        law_trim_end_slashes_shape(s.drop_last());
        let r = trim_end_slashes(s.drop_last());
        assert(s.drop_last().take(r.len() as int) =~= s.take(r.len() as int));
        assert forall|i: int| r.len() <= i < s.len() implies s[i] == '/' by {
            if i < s.len() - 1 {
                assert(s.drop_last()[i] == s[i]);
            }
        }
    } else {
        assert(s.take(s.len() as int) =~= s);
    }
}

/// Appending slashes to a text does not change what trimming leaves.
pub proof fn law_trim_end_slashes_absorbs(s: Seq<char>, k: nat)
    ensures
        trim_end_slashes(s + Seq::new(k, |i: int| '/')) == trim_end_slashes(s),
    decreases k,
{
    if k > 0 {
        let t = s + Seq::new(k, |i: int| '/');
        assert(t.drop_last() =~= s + Seq::new((k - 1) as nat, |i: int| '/'));
        law_trim_end_slashes_absorbs(s, (k - 1) as nat);
    } else {
        assert(s + Seq::new(0, |i: int| '/') =~= s);
    }
}

/// `std::string::String::push`: appends one character to the text.
#[verifier::external_body]
pub(crate) fn push_char(s: &mut String, c: char)
    ensures
        final(s)@ == old(s)@.push(c),
{
    s.push(c);
}

fn lower_one(c: char) -> (r: char)
    ensures
        r == lower_char(c),
{
    if 'A' <= c && c <= 'Z' {
        let v: u8 = (c as u8) + 32;
        v as char
    } else {
        c
    }
}

/// ASCII lower-casing, as `str::to_ascii_lowercase` does it.
pub fn ascii_lowercase(s: &str) -> (r: String)
    ensures
        r@ == ascii_lower(s@),
{
    let mut out = String::new();
    for c in it: s.chars()
        invariant
            out@ == ascii_lower(it.seq().take(it.index() as int)),
    {
        push_char(&mut out, lower_one(c));
    }
    out
}


/// Removes every trailing `'/'`, as `str::trim_end_matches('/')` does.
pub fn trim_trailing_slashes(s: &str) -> (r: &str)
    ensures
        r@ == trim_end_slashes(s@),
{
    let ghost whole = s@;
    let total = s.unicode_len();
    let mut end: usize = 0;
    let mut count: usize = 0;
    for c in it: s.chars()
        invariant
            it.seq() == whole,
            count == it.index(),
            end <= count,
            count <= whole.len(),
            total == whole.len(),
            trim_end_slashes(whole.take(count as int)) == whole.take(end as int),
    {
        assert(count < whole.len());
        proof {
            let next = whole.take(count + 1);
            assert(next.drop_last() =~= whole.take(count as int));
            assert(next.last() == c);
        }
        if c != '/' {
            end = count + 1;
        }
        count = count + 1;
    }
    assert(whole.take(count as int) =~= whole);
    s.substring_char(0, end)
}

/// The decimal digit character for `d < 10`.
pub open spec fn digit_char(d: nat) -> char {
    ((d + 48) as u32) as char
}

/// Decimal rendering of a natural number, most significant digit first.
pub open spec fn decimal(n: nat) -> Seq<char>
    decreases n,
{
    if n < 10 {
        seq![digit_char(n)]
    } else {
        decimal(n / 10).push(digit_char(n % 10))
    }
}

/// The number a string of decimal digits denotes, most significant first.
pub open spec fn digits_value(s: Seq<char>) -> int
    decreases s.len(),
{
    if s.len() == 0 {
        0
    } else {
        digits_value(s.drop_last()) * 10 + (s.last() as int - 48)
    }
}

/// The decimal rendering of `n` is a non-empty string of digits `'0'..='9'`
/// that denotes `n`, with no leading zero unless `n` is zero.
pub proof fn law_decimal_renders_value(n: nat)
    ensures
        decimal(n).len() >= 1,
        forall|i: int| 0 <= i < decimal(n).len() ==> '0' <= #[trigger] decimal(n)[i] <= '9',
        digits_value(decimal(n)) == n,
        decimal(n)[0] == '0' ==> n == 0,
    decreases n,
{
    if n >= 10 {
        law_decimal_renders_value(n / 10);
        let d = decimal(n);
        assert(d.drop_last() =~= decimal(n / 10));
        assert forall|i: int| 0 <= i < d.len() implies '0' <= #[trigger] d[i] <= '9' by {
            if i < d.len() - 1 {
                assert(d[i] == decimal(n / 10)[i]);
            }
        }
        assert(d[0] == decimal(n / 10)[0]);
        assert(d.last() == digit_char(n % 10));
        assert(digit_char(n % 10) as int == n % 10 + 48);
        assert((n / 10) * 10 + n % 10 == n);
        assert(digits_value(d) == digits_value(d.drop_last()) * 10 + (d.last() as int - 48));
        assert(digits_value(d.drop_last()) == n / 10);
    } else {
        let d = decimal(n);
        assert(d.drop_last() =~= Seq::<char>::empty());
        assert(digit_char(n) as int == n + 48);
        assert(digits_value(d) == digits_value(d.drop_last()) * 10 + (d.last() as int - 48));
        assert(digits_value(d.drop_last()) == 0);
    }
}

/// Appends the decimal rendering of `n`, as `Display` for integers writes it.
pub fn push_decimal(out: &mut String, n: u64)
    ensures
        final(out)@ == old(out)@ + decimal(n as nat),
    decreases n,
{
    if n >= 10 {
        push_decimal(out, n / 10);
    }
    let d: u8 = (n % 10) as u8;
    let c: char = (d + 48) as char;
    push_char(out, c);
    proof {
        if n < 10 {
            assert(decimal(n as nat) =~= seq![digit_char(n as nat)]);
        }
    }
}

/// Debug rendering of a text (quoted and escaped), as `format!("{:?}", s)`
/// gives it for a `str`.
pub uninterp spec fn debug_quoted(s: Seq<char>) -> Seq<char>;

/// `<str as Debug>::fmt`, reached through `format!("{:?}", s)`: the quoted,
/// escaped form of the text. Nothing is stated of that form beyond its name:
/// it depends on the text alone.
#[verifier::external_body]
pub(crate) fn debug_text(s: &str) -> (r: String)
    ensures
        r@ == debug_quoted(s@),
{
    format!("{:?}", s)
}

/// The texts joined with `sep` between neighbours.
pub open spec fn join(items: Seq<Seq<char>>, sep: Seq<char>) -> Seq<char>
    decreases items.len(),
{
    if items.len() == 0 {
        Seq::empty()
    } else if items.len() == 1 {
        items[0]
    } else {
        join(items.drop_last(), sep) + sep + items.last()
    }
}

/// Debug rendering of a list of texts: `[`, the quoted items joined by `", "`, `]`.
pub open spec fn debug_list(items: Seq<Seq<char>>) -> Seq<char> {
    seq!['['] + join(items.map_values(|t: Seq<char>| debug_quoted(t)), seq![',', ' ']) + seq![']']
}

/// Debug rendering of a list of strings, as `format!("{:?}", items)` gives it
/// for a `Vec<String>`.
pub fn debug_list_text(items: &Vec<String>) -> (r: String)
    ensures
        r@ == debug_list(items.deep_view()),
{
    let ghost all = items.deep_view();
    let ghost quoted = all.map_values(|t: Seq<char>| debug_quoted(t));
    let mut body = String::new();
    let mut i: usize = 0;
    while i < items.len()
        invariant
            i <= items.len(),
            all == items.deep_view(),
            quoted == all.map_values(|t: Seq<char>| debug_quoted(t)),
            body@ == join(quoted.take(i as int), seq![',', ' ']),
        decreases items.len() - i,
    {
        let q = debug_text(items[i].as_str());
        if i > 0 {
            push_char(&mut body, ',');
            push_char(&mut body, ' ');
        }
        let ghost before = body@;
        body.append(q.as_str());
        proof {
            let next = quoted.take(i + 1);
            assert(next.drop_last() =~= quoted.take(i as int));
            assert(next.last() == quoted[i as int]);
            if i == 0 {
                assert(next.len() == 1);
            }
        }
        i = i + 1;
    }
    assert(quoted.take(items.len() as int) =~= quoted);
    let mut out = String::new();
    push_char(&mut out, '[');
    out.append(body.as_str());
    push_char(&mut out, ']');
    out
}

} // verus!
