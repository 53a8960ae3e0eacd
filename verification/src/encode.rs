use vstd::prelude::*;
use vstd::string::StrSliceExecFns;
use vstd::string::StringExecFns;

verus! {

/// Relies on `String::push`: appends exactly one character at the end.
#[verifier::external_body]
pub(crate) fn push_char(s: &mut String, c: char)
    ensures
        final(s)@ == old(s)@.push(c),
{
    s.push(c);
}

/// The character sequences a list of strings stands for, in order.
pub open spec fn strings_view(v: Vec<String>) -> Seq<Seq<char>> {
    v@.map_values(|p: String| p@)
}

/// The decimal digit character for `d` (meaningful for `0 <= d <= 9`).
pub open spec fn spec_digit_char(d: int) -> char {
    if d == 0 { '0' }
    else if d == 1 { '1' }
    else if d == 2 { '2' }
    else if d == 3 { '3' }
    else if d == 4 { '4' }
    else if d == 5 { '5' }
    else if d == 6 { '6' }
    else if d == 7 { '7' }
    else if d == 8 { '8' }
    else { '9' }
}

/// The lower-case hexadecimal digit character for `d` (meaningful for `0 <= d <= 15`).
pub open spec fn spec_hex_digit(d: int) -> char {
    if d < 10 { spec_digit_char(d) }
    else if d == 10 { 'a' }
    else if d == 11 { 'b' }
    else if d == 12 { 'c' }
    else if d == 13 { 'd' }
    else if d == 14 { 'e' }
    else { 'f' }
}

/// The decimal text of `n`, without sign or leading zeros (except for `0` itself).
pub open spec fn spec_u64_text(n: int) -> Seq<char>
    decreases n,
{
    if n < 10 {
        seq![spec_digit_char(n)]
    } else {
        spec_u64_text(n / 10).push(spec_digit_char(n % 10))
    }
}

/// How one character is written inside a JSON string literal: quote and
/// backslash get a backslash escape, the control characters with short
/// escapes use them, every other control character is written as a
/// `\u00..` escape, and all remaining characters stand as themselves.
pub open spec fn spec_escape_char(c: char) -> Seq<char> {
    if c == '"' { seq!['\\', '"'] }
    else if c == '\\' { seq!['\\', '\\'] }
    else if c == '\u{8}' { seq!['\\', 'b'] }
    else if c == '\t' { seq!['\\', 't'] }
    else if c == '\n' { seq!['\\', 'n'] }
    else if c == '\u{c}' { seq!['\\', 'f'] }
    else if c == '\r' { seq!['\\', 'r'] }
    else if (c as u32) < 32 {
        seq!['\\', 'u', '0', '0', spec_hex_digit((c as u32) as int / 16), spec_hex_digit((c as u32) as int % 16)]
    } else {
        seq![c]
    }
}

/// The body of a JSON string literal holding the characters of `s`.
pub open spec fn spec_escape(s: Seq<char>) -> Seq<char>
    decreases s.len(),
{
    if s.len() == 0 {
        Seq::<char>::empty()
    } else {
        spec_escape_char(s[0]) + spec_escape(s.drop_first())
    }
}

/// A complete JSON string literal holding the characters of `s`.
pub open spec fn spec_quoted(s: Seq<char>) -> Seq<char> {
    seq!['"'] + spec_escape(s) + seq!['"']
}

/// The comma-separated JSON string literals for the given parameter list,
/// in the given order.
pub open spec fn spec_params_items(ps: Seq<Seq<char>>) -> Seq<char>
    decreases ps.len(),
{
    if ps.len() == 0 {
        Seq::<char>::empty()
    } else if ps.len() == 1 {
        spec_quoted(ps[0])
    } else {
        spec_quoted(ps[0]) + seq![','] + spec_params_items(ps.drop_first())
    }
}

/// The JSON-RPC request envelope text for the given id, version string,
/// method name and positional parameters: a JSON object with exactly the
/// members `id`, `jsonrpc`, `method` and `params`, in that order.
pub open spec fn spec_envelope_text(
    id: u64,
    jsonrpc: Seq<char>,
    method: Seq<char>,
    params: Seq<Seq<char>>,
) -> Seq<char> {
    "{\"id\":"@ + spec_u64_text(id as int)
        + ",\"jsonrpc\":"@ + spec_quoted(jsonrpc)
        + ",\"method\":"@ + spec_quoted(method)
        + ",\"params\":["@ + spec_params_items(params)
        + "]}"@
}

proof fn lemma_escape_snoc(s: Seq<char>, c: char)
    ensures
        spec_escape(s.push(c)) == spec_escape(s) + spec_escape_char(c),
    decreases s.len(),
{
    if s.len() == 0 {
        assert(s.push(c)[0] == c);
        assert(s.push(c).drop_first() =~= Seq::<char>::empty());
        assert(spec_escape(s.push(c)) == spec_escape_char(c) + spec_escape(Seq::<char>::empty()));
        assert(spec_escape(s.push(c)) =~= spec_escape(s) + spec_escape_char(c));
    } else {
        assert(s.push(c)[0] == s[0]);
        assert(s.push(c).drop_first() =~= s.drop_first().push(c));
        lemma_escape_snoc(s.drop_first(), c);
        assert(spec_escape(s.push(c)) =~= spec_escape(s) + spec_escape_char(c));
    }
}

proof fn lemma_params_snoc(ps: Seq<Seq<char>>, p: Seq<char>)
    ensures
        ps.len() == 0 ==> spec_params_items(ps.push(p)) == spec_quoted(p),
        ps.len() > 0 ==> spec_params_items(ps.push(p))
            == spec_params_items(ps) + seq![','] + spec_quoted(p),
    decreases ps.len(),
{
    if ps.len() == 0 {
        assert(spec_params_items(ps.push(p)) =~= spec_quoted(p));
    } else if ps.len() == 1 {
        assert(ps.push(p)[0] == ps[0]);
        assert(ps.push(p).drop_first() =~= seq![p]);
        assert(seq![p][0] == p);
        assert(spec_params_items(seq![p]) == spec_quoted(p));
        assert(spec_params_items(ps.push(p)) =~= spec_params_items(ps) + seq![','] + spec_quoted(p));
    } else {
        assert(ps.push(p)[0] == ps[0]);
        assert(ps.push(p).drop_first() =~= ps.drop_first().push(p));
        lemma_params_snoc(ps.drop_first(), p);
        assert(spec_params_items(ps.push(p)) =~= spec_params_items(ps) + seq![','] + spec_quoted(p));
    }
}

/// The decimal digit character for `d`.
fn digit_char(d: u64) -> (c: char)
    requires
        d < 10,
    ensures
        c == spec_digit_char(d as int),
{
    match d {
        0 => '0',
        1 => '1',
        2 => '2',
        3 => '3',
        4 => '4',
        5 => '5',
        6 => '6',
        7 => '7',
        8 => '8',
        _ => '9',
    }
}

/// The lower-case hexadecimal digit character for `d`.
fn hex_digit_char(d: u32) -> (c: char)
    requires
        d < 16,
    ensures
        c == spec_hex_digit(d as int),
{
    match d {
        0 => '0',
        1 => '1',
        2 => '2',
        3 => '3',
        4 => '4',
        5 => '5',
        6 => '6',
        7 => '7',
        8 => '8',
        9 => '9',
        10 => 'a',
        11 => 'b',
        12 => 'c',
        13 => 'd',
        14 => 'e',
        _ => 'f',
    }
}

/// Append the decimal text of `n` to `out`.
fn push_u64_text(out: &mut String, n: u64)
    ensures
        final(out)@ == old(out)@ + spec_u64_text(n as int),
    decreases n,
{
    if n >= 10 {
        push_u64_text(out, n / 10);
        push_char(out, digit_char(n % 10));
        assert(out@ =~= old(out)@ + spec_u64_text(n as int));
    } else {
        push_char(out, digit_char(n));
        assert(out@ =~= old(out)@ + spec_u64_text(n as int));
    }
}

/// Append the escaped form of one character to `out`.
fn push_escape_char(out: &mut String, c: char)
    ensures
        final(out)@ == old(out)@ + spec_escape_char(c),
{
    if c == '"' {
        push_char(out, '\\');
        push_char(out, '"');
        assert(out@ =~= old(out)@ + spec_escape_char(c));
    } else if c == '\\' {
        push_char(out, '\\');
        push_char(out, '\\');
        assert(out@ =~= old(out)@ + spec_escape_char(c));
    } else if c == '\u{8}' {
        push_char(out, '\\');
        push_char(out, 'b');
        assert(out@ =~= old(out)@ + spec_escape_char(c));
    } else if c == '\t' {
        push_char(out, '\\');
        push_char(out, 't');
        assert(out@ =~= old(out)@ + spec_escape_char(c));
    } else if c == '\n' {
        push_char(out, '\\');
        push_char(out, 'n');
        assert(out@ =~= old(out)@ + spec_escape_char(c));
    } else if c == '\u{c}' {
        push_char(out, '\\');
        push_char(out, 'f');
        assert(out@ =~= old(out)@ + spec_escape_char(c));
    } else if c == '\r' {
        push_char(out, '\\');
        push_char(out, 'r');
        assert(out@ =~= old(out)@ + spec_escape_char(c));
    } else if (c as u32) < 32 {
        let code: u32 = c as u32;
        push_char(out, '\\');
        push_char(out, 'u');
        push_char(out, '0');
        push_char(out, '0');
        push_char(out, hex_digit_char(code / 16));
        push_char(out, hex_digit_char(code % 16));
        assert(out@ =~= old(out)@ + spec_escape_char(c));
    } else {
        push_char(out, c);
        assert(out@ =~= old(out)@ + spec_escape_char(c));
    }
}

/// Append the escaped characters of `s` to `out`.
fn push_escaped(out: &mut String, s: &str)
    ensures
        final(out)@ == old(out)@ + spec_escape(s@),
{
    let ghost base = out@;
    let n = s.unicode_len();
    let mut i: usize = 0;
    proof {
        assert(s@.take(0) =~= Seq::<char>::empty());
        assert(base + spec_escape(s@.take(0)) =~= base);
    }
    while i < n
        invariant
            i <= n,
            n == s@.len(),
            out@ == base + spec_escape(s@.take(i as int)),
        decreases n - i,
    {
        let c = s.get_char(i);
        push_escape_char(out, c);
        proof {
            assert(s@.take(i as int + 1) =~= s@.take(i as int).push(s@[i as int]));
            lemma_escape_snoc(s@.take(i as int), s@[i as int]);
            assert(base + spec_escape(s@.take(i as int)) + spec_escape_char(c)
                =~= base + spec_escape(s@.take(i as int + 1)));
        }
        i = i + 1;
    }
    proof {
        assert(s@.take(n as int) =~= s@);
    }
}

/// Append a complete JSON string literal holding `s` to `out`.
fn push_quoted(out: &mut String, s: &str)
    ensures
        final(out)@ == old(out)@ + spec_quoted(s@),
{
    push_char(out, '"');
    push_escaped(out, s);
    push_char(out, '"');
    assert(out@ =~= old(out)@ + spec_quoted(s@));
}

/// Append the comma-separated JSON string literals for `params` to `out`.
fn push_params(out: &mut String, params: &Vec<String>)
    ensures
        final(out)@ == old(out)@ + spec_params_items(strings_view(*params)),
{
    let ghost base = out@;
    let ghost mapped = strings_view(*params);
    let mut i: usize = 0;
    proof {
        assert(mapped.take(0) =~= Seq::<Seq<char>>::empty());
        assert(base + spec_params_items(mapped.take(0)) =~= base);
    }
    while i < params.len()
        invariant
            i <= params@.len(),
            mapped == params@.map_values(|p: String| p@),
            mapped.len() == params@.len(),
            out@ == base + spec_params_items(mapped.take(i as int)),
        decreases params@.len() - i,
    {
        if i > 0 {
            push_char(out, ',');
        }
        push_quoted(out, params[i].as_str());
        proof {
            assert(mapped[i as int] == params@[i as int]@);
            assert(mapped.take(i as int + 1) =~= mapped.take(i as int).push(mapped[i as int]));
            lemma_params_snoc(mapped.take(i as int), mapped[i as int]);
            if i > 0 {
                assert(base + spec_params_items(mapped.take(i as int)) + seq![','] + spec_quoted(mapped[i as int])
                    =~= base + spec_params_items(mapped.take(i as int + 1)));
            } else {
                assert(base + spec_params_items(mapped.take(0)) + spec_quoted(mapped[0])
                    =~= base + spec_params_items(mapped.take(1)));
            }
        }
        i = i + 1;
    }
    proof {
        assert(mapped.take(params@.len() as int) =~= mapped);
    }
}

/// Build the JSON-RPC request envelope text for the given id, version
/// string, method name and positional parameters.
pub fn encode_envelope(id: u64, jsonrpc: &str, method: &str, params: &Vec<String>) -> (r: String)
    ensures
        r@ == spec_envelope_text(id, jsonrpc@, method@, strings_view(*params)),
{
    let mut out = String::new();
    out.append("{\"id\":");
    push_u64_text(&mut out, id);
    out.append(",\"jsonrpc\":");
    push_quoted(&mut out, jsonrpc);
    out.append(",\"method\":");
    push_quoted(&mut out, method);
    out.append(",\"params\":[");
    push_params(&mut out, params);
    out.append("]}");
    proof {
        assert(out@ =~= spec_envelope_text(id, jsonrpc@, method@, strings_view(*params)));
    }
    out
}

} // verus!
