//! Character-level helpers on strings.

use vstd::prelude::*;

verus! {

/// ASCII lower-casing of one character: `A`..=`Z` map to `a`..=`z`, all else is unchanged.
pub open spec fn ascii_lower(c: char) -> u32 {
    if 'A' <= c && c <= 'Z' {
        (c as u32 + 32) as u32
    } else {
        c as u32
    }
}

/// Two character sequences are equal up to ASCII case.
pub open spec fn eq_ignore_ascii_case_spec(a: Seq<char>, b: Seq<char>) -> bool {
    &&& a.len() == b.len()
    &&& forall|i: int| 0 <= i < a.len() ==> #[trigger] ascii_lower(a[i]) == ascii_lower(b[i])
}

/// Appends one character to a string (`String::push`).
#[verifier::external_body]
pub(crate) fn push_char(s: &mut String, c: char)
    ensures
        final(s)@ == old(s)@.push(c),
{
    s.push(c);
}

/// The characters of a string slice, in order.
pub fn chars_of(s: &str) -> (v: Vec<char>)
    ensures
        v@ == s@,
{
    let mut v: Vec<char> = Vec::new();
    let n = s.unicode_len();
    let mut i: usize = 0;
    while i < n
        invariant
            n == s@.len(),
            i <= n,
            v@ == s@.take(i as int),
        decreases n - i,
    {
        v.push(s.get_char(i));
        i = i + 1;
        assert(v@ =~= s@.take(i as int));
    }
    assert(v@ =~= s@);
    v
}


/// The string whose characters are `chars`, in order.
pub fn string_of(chars: &Vec<char>) -> (s: String)
    ensures
        s@ == chars@,
{
    let mut s = String::new();
    let mut i: usize = 0;
    while i < chars.len()
        invariant
            i <= chars.len(),
            s@ == chars@.take(i as int),
        decreases chars.len() - i,
    {
        push_char(&mut s, chars[i]);
        i = i + 1;
        assert(s@ =~= chars@.take(i as int));
    }
    assert(chars@.take(chars.len() as int) =~= chars@);
    s
}

/// `str::eq_ignore_ascii_case`: the two strings match when ASCII letters are compared
/// without regard to case and every other character exactly.
pub fn eq_ignore_ascii_case(a: &str, b: &str) -> (r: bool)
    ensures
        r == eq_ignore_ascii_case_spec(a@, b@),
{
    let x = chars_of(a);
    let y = chars_of(b);
    if x.len() != y.len() {
        return false;
    }
    let mut i: usize = 0;
    while i < x.len()
        invariant
            x@ == a@,
            y@ == b@,
            x.len() == y.len(),
            i <= x.len(),
            forall|j: int| 0 <= j < i ==> #[trigger] ascii_lower(x@[j]) == ascii_lower(y@[j]),
        decreases x.len() - i,
    {
        if lower_code(x[i]) != lower_code(y[i]) {
            return false;
        }
        i = i + 1;
    }
    true
}

fn lower_code(c: char) -> (r: u32)
    ensures
        r == ascii_lower(c),
{
    if 'A' <= c && c <= 'Z' {
        c as u32 + 32
    } else {
        c as u32
    }
}

/// Exact equality of two strings.
pub fn str_eq(a: &str, b: &str) -> (r: bool)
    ensures
        r == (a@ == b@),
{
    let x = chars_of(a);
    let y = chars_of(b);
    if x.len() != y.len() {
        return false;
    }
    let mut i: usize = 0;
    while i < x.len()
        invariant
            x@ == a@,
            y@ == b@,
            x.len() == y.len(),
            i <= x.len(),
            forall|j: int| 0 <= j < i ==> x@[j] == y@[j],
        decreases x.len() - i,
    {
        if x[i] != y[i] {
            return false;
        }
        i = i + 1;
    }
    assert(x@ =~= y@);
    true
}

/// A flag value that reads `yes` in any ASCII case.
pub open spec fn is_yes_spec(value: Option<Seq<char>>) -> bool {
    match value {
        Some(v) => eq_ignore_ascii_case_spec(v, "yes"@),
        None => false,
    }
}

/// Whether an optional attribute value says `yes`, ignoring ASCII case.
pub fn is_yes(value: Option<&str>) -> (r: bool)
    ensures
        r == is_yes_spec(
            match value {
                Some(v) => Some(v@),
                None => None,
            },
        ),
{
    match value {
        Some(v) => eq_ignore_ascii_case(v, "yes"),
        None => false,
    }
}


/// An argument needs quoting on a command line when it holds a space, a tab or a double quote.
pub open spec fn needs_quotes(s: Seq<char>) -> bool {
    s.contains(' ') || s.contains('\t') || s.contains('"')
}

/// Every double quote of `s` preceded by a backslash.
pub open spec fn escape_quotes(s: Seq<char>) -> Seq<char>
    decreases s.len(),
{
    if s.len() == 0 {
        Seq::empty()
    } else {
        escape_quotes(s.drop_last()) + if s.last() == '"' {
            seq!['\\', '"']
        } else {
            seq![s.last()]
        }
    }
}

/// One argument as a command line shows it: wrapped in double quotes, with its own
/// double quotes escaped, when it needs quoting; otherwise unchanged.
pub open spec fn quote_arg(s: Seq<char>) -> Seq<char> {
    if needs_quotes(s) {
        seq!['"'] + escape_quotes(s) + seq!['"']
    } else {
        s
    }
}

/// The parts joined with `sep` between consecutive parts.
pub open spec fn join(parts: Seq<Seq<char>>, sep: Seq<char>) -> Seq<char>
    decreases parts.len(),
{
    if parts.len() == 0 {
        Seq::empty()
    } else if parts.len() == 1 {
        parts[0]
    } else {
        join(parts.drop_last(), sep) + sep + parts.last()
    }
}

/// Whether `s` holds a character that forces quoting.
pub fn has_quote_trigger(s: &Vec<char>) -> (r: bool)
    ensures
        r == needs_quotes(s@),
{
    let mut i: usize = 0;
    while i < s.len()
        invariant
            i <= s.len(),
            forall|j: int| 0 <= j < i ==> s@[j] != ' ' && s@[j] != '\t' && s@[j] != '"',
        decreases s.len() - i,
    {
        let c = s[i];
        if c == ' ' || c == '\t' || c == '"' {
            assert(s@[i as int] == c);
            return true;
        }
        i = i + 1;
    }
    false
}

/// Appends `quote_arg(arg)` to `out`.
pub fn push_quoted(out: &mut Vec<char>, arg: &Vec<char>)
    ensures
        final(out)@ == old(out)@ + quote_arg(arg@),
{
    if !has_quote_trigger(arg) {
        let mut i: usize = 0;
        while i < arg.len()
            invariant
                i <= arg.len(),
                out@ == old(out)@ + arg@.take(i as int),
            decreases arg.len() - i,
        {
            out.push(arg[i]);
            i = i + 1;
            assert(out@ =~= old(out)@ + arg@.take(i as int));
        }
        assert(arg@.take(arg.len() as int) =~= arg@);
        return;
    }
    out.push('"');
    let ghost start = out@;
    let mut i: usize = 0;
    while i < arg.len()
        invariant
            i <= arg.len(),
            start == old(out)@ + seq!['"'],
            out@ == start + escape_quotes(arg@.take(i as int)),
        decreases arg.len() - i,
    {
        let c = arg[i];
        assert(arg@.take(i + 1).drop_last() =~= arg@.take(i as int));
        if c == '"' {
            out.push('\\');
            out.push('"');
        } else {
            out.push(c);
        }
        i = i + 1;
        assert(out@ =~= start + escape_quotes(arg@.take(i as int)));
    }
    assert(arg@.take(arg.len() as int) =~= arg@);
    out.push('"');
    assert(out@ =~= old(out)@ + quote_arg(arg@));
}


/// Whether `t` occurs in `s` as a contiguous part.
pub open spec fn occurs_in(s: Seq<char>, t: Seq<char>) -> bool {
    exists|i: int| 0 <= i && i + t.len() <= s.len() && #[trigger] s.subrange(i, i + t.len()) == t
}

/// Whether the text `t` occurs in `s` (`str::contains`).
pub fn contains_text(s: &str, t: &str) -> (r: bool)
    ensures
        r == occurs_in(s@, t@),
{
    let x = chars_of(s);
    let y = chars_of(t);
    if y.len() > x.len() {
        return false;
    }
    let mut i: usize = 0;
    while i <= x.len() - y.len()
        invariant
            x@ == s@,
            y@ == t@,
            y.len() <= x.len(),
            i <= x.len() - y.len() + 1,
            forall|k: int| 0 <= k < i ==> #[trigger] x@.subrange(k, k + y.len()) != y@,
        decreases x.len() - i,
    {
        let mut j: usize = 0;
        let mut same = true;
        while j < y.len()
            invariant
                x@ == s@,
                y@ == t@,
                i + y.len() <= x.len(),
                j <= y.len(),
                same == forall|k: int| 0 <= k < j ==> x@[i + k] == y@[k],
            decreases y.len() - j,
        {
            if x[i + j] != y[j] {
                same = false;
            }
            j = j + 1;
        }
        if same {
            assert(x@.subrange(i as int, i + y.len()) =~= y@);
            return true;
        }
        assert(x@.subrange(i as int, i + y.len()) != y@) by {
            let k = choose|k: int| 0 <= k < y.len() && x@[i + k] != y@[k];
            assert(x@.subrange(i as int, i + y.len())[k] == x@[i + k]);
        }
        i = i + 1;
    }
    false
}

/// The texts joined with `sep` between consecutive ones.
pub fn join_texts(parts: &Vec<String>, sep: &str) -> (r: String)
    ensures
        r@ == join(parts.deep_view(), sep@),
{
    let mut out = String::new();
    let mut i: usize = 0;
    while i < parts.len()
        invariant
            i <= parts.len(),
            out@ == join(parts.deep_view().take(i as int), sep@),
        decreases parts.len() - i,
    {
        assert(parts.deep_view().take(i + 1).drop_last() =~= parts.deep_view().take(i as int));
        if i > 0 {
            out.append(sep);
        } else {
            assert(parts.deep_view().take(1) =~= seq![parts@[0]@]);
        }
        out.append(parts[i].as_str());
        i = i + 1;
    }
    assert(parts.deep_view().take(parts.len() as int) =~= parts.deep_view());
    out
}


/// An argument with no space, tab or double quote is shown as it is; any other is shown
/// between double quotes.
pub proof fn law_quoting(s: Seq<char>)
    ensures
        !needs_quotes(s) ==> quote_arg(s) == s,
        needs_quotes(s) ==> quote_arg(s).len() >= 2 && quote_arg(s)[0] == '"' && quote_arg(s).last() == '"',
{
}

/// Escaping keeps every character: taking the backslashes that escaping adds before double
/// quotes out again gives back the text.
pub open spec fn unescape(s: Seq<char>) -> Seq<char>
    decreases s.len(),
{
    if s.len() == 0 {
        Seq::empty()
    } else if s.len() >= 2 && s.last() == '"' && s[s.len() - 2] == '\\' {
        unescape(s.take(s.len() - 2)) + seq!['"']
    } else {
        unescape(s.drop_last()) + seq![s.last()]
    }
}

/// Removing the escapes gives back the text whenever it holds no backslash, so such a
/// displayed argument can be read back.
pub proof fn law_escape_roundtrip(s: Seq<char>)
    requires
        forall|i: int| 0 <= i < s.len() ==> s[i] != '\\',
    ensures
        unescape(escape_quotes(s)) == s,
    decreases s.len(),
{
    if s.len() > 0 {
        let p = s.drop_last();
        law_escape_roundtrip(p);
        let e = escape_quotes(p);
        if s.last() == '"' {
            let t = e + seq!['\\', '"'];
            assert(t.take(t.len() - 2) =~= e);
            assert(unescape(t) == unescape(e) + seq!['"']);
        } else {
            let t = e + seq![s.last()];
            assert(t.drop_last() =~= e);
            if t.len() >= 2 && t.last() == '"' {
                assert(false);
            }
        }
        assert(unescape(escape_quotes(s)) =~= s);
    }
}

} // verus!
