use vstd::prelude::*;

use crate::schema::Post;

verus! {

/// The lower-case hexadecimal digit for a value below sixteen.
pub open spec fn hex_digit(d: int) -> char {
    if d == 0 {
        '0'
    } else if d == 1 {
        '1'
    } else if d == 2 {
        '2'
    } else if d == 3 {
        '3'
    } else if d == 4 {
        '4'
    } else if d == 5 {
        '5'
    } else if d == 6 {
        '6'
    } else if d == 7 {
        '7'
    } else if d == 8 {
        '8'
    } else if d == 9 {
        '9'
    } else if d == 10 {
        'a'
    } else if d == 11 {
        'b'
    } else if d == 12 {
        'c'
    } else if d == 13 {
        'd'
    } else if d == 14 {
        'e'
    } else {
        'f'
    }
}

/// How one character appears inside a JSON string: quote and backslash are
/// escaped, the named control characters take their short escapes, any
/// other control character takes a `\u00..` escape, and everything else
/// stands as itself.
pub open spec fn escape_char(c: char) -> Seq<char> {
    if c == '"' {
        seq!['\\', '"']
    } else if c == '\\' {
        seq!['\\', '\\']
    } else if c == '\u{08}' {
        seq!['\\', 'b']
    } else if c == '\t' {
        seq!['\\', 't']
    } else if c == '\n' {
        seq!['\\', 'n']
    } else if c == '\u{0c}' {
        seq!['\\', 'f']
    } else if c == '\r' {
        seq!['\\', 'r']
    } else if (c as u32) < 0x20 {
        seq!['\\', 'u', '0', '0', hex_digit((c as u32) as int / 16), hex_digit((c as u32) as int % 16)]
    } else {
        seq![c]
    }
}

/// A whole character sequence escaped for inclusion in a JSON string.
pub open spec fn escape_seq(s: Seq<char>) -> Seq<char>
    decreases s.len(),
{
    if s.len() == 0 {
        Seq::empty()
    } else {
        escape_char(s[0]) + escape_seq(s.subrange(1, s.len() as int))
    }
}

/// A JSON string literal: the escaped contents between double quotes.
pub open spec fn json_string(s: Seq<char>) -> Seq<char> {
    seq!['"'] + escape_seq(s) + seq!['"']
}

proof fn lemma_escape_push(s: Seq<char>, c: char)
    ensures
        escape_seq(s.push(c)) == escape_seq(s) + escape_char(c),
    decreases s.len(),
{
    let sp = s.push(c);
    if s.len() == 0 {
        assert(sp[0] == c);
        assert(sp.subrange(1, sp.len() as int) =~= Seq::<char>::empty());
        assert(escape_seq(Seq::<char>::empty()) =~= Seq::<char>::empty());
        assert(escape_seq(sp) =~= escape_seq(s) + escape_char(c));
    } else {
        let stail = s.subrange(1, s.len() as int);
        assert(sp[0] == s[0]);
        assert(sp.subrange(1, sp.len() as int) =~= stail.push(c));
        lemma_escape_push(stail, c);
        assert(escape_seq(sp) == escape_char(s[0]) + escape_seq(stail.push(c)));
        assert(escape_seq(s) == escape_char(s[0]) + escape_seq(stail));
        assert(escape_seq(sp) =~= escape_seq(s) + escape_char(c));
    }
}

/// Relies on String::push: appends exactly the given character.
#[verifier::external_body]
fn push_char(out: &mut String, c: char)
    ensures
        final(out)@ == old(out)@ + seq![c],
{
    out.push(c);
}

fn hex_str(d: u8) -> (r: &'static str)
    requires
        d < 16,
    ensures
        r@ == seq![hex_digit(d as int)],
{
    let r: &'static str = match d {
        0u8 => "0",
        1u8 => "1",
        2u8 => "2",
        3u8 => "3",
        4u8 => "4",
        5u8 => "5",
        6u8 => "6",
        7u8 => "7",
        8u8 => "8",
        9u8 => "9",
        10u8 => "a",
        11u8 => "b",
        12u8 => "c",
        13u8 => "d",
        14u8 => "e",
        _ => "f",
    };
    proof {
        reveal_strlit("0");
        reveal_strlit("1");
        reveal_strlit("2");
        reveal_strlit("3");
        reveal_strlit("4");
        reveal_strlit("5");
        reveal_strlit("6");
        reveal_strlit("7");
        reveal_strlit("8");
        reveal_strlit("9");
        reveal_strlit("a");
        reveal_strlit("b");
        reveal_strlit("c");
        reveal_strlit("d");
        reveal_strlit("e");
        reveal_strlit("f");
        assert(r@ =~= seq![hex_digit(d as int)]);
    }
    r
}

fn push_escaped_char(out: &mut String, c: char)
    ensures
        final(out)@ == old(out)@ + escape_char(c),
{
    if c == '"' {
        out.append("\\\"");
        proof {
            reveal_strlit("\\\"");
            assert(out@ =~= old(out)@ + escape_char(c));
        }
    } else if c == '\\' {
        out.append("\\\\");
        proof {
            reveal_strlit("\\\\");
            assert(out@ =~= old(out)@ + escape_char(c));
        }
    } else if c == '\u{08}' {
        out.append("\\b");
        proof {
            reveal_strlit("\\b");
            assert(out@ =~= old(out)@ + escape_char(c));
        }
    } else if c == '\t' {
        out.append("\\t");
        proof {
            reveal_strlit("\\t");
            assert(out@ =~= old(out)@ + escape_char(c));
        }
    } else if c == '\n' {
        out.append("\\n");
        proof {
            reveal_strlit("\\n");
            assert(out@ =~= old(out)@ + escape_char(c));
        }
    } else if c == '\u{0c}' {
        out.append("\\f");
        proof {
            reveal_strlit("\\f");
            assert(out@ =~= old(out)@ + escape_char(c));
        }
    } else if c == '\r' {
        out.append("\\r");
        proof {
            reveal_strlit("\\r");
            assert(out@ =~= old(out)@ + escape_char(c));
        }
    } else if (c as u32) < 0x20 {
        let code: u32 = c as u32;
        out.append("\\u00");
        let hs = hex_str((code / 16) as u8);
        out.append(hs);
        let ls = hex_str((code % 16) as u8);
        out.append(ls);
        proof {
            reveal_strlit("\\u00");
            assert(out@ =~= old(out)@ + escape_char(c));
        }
    } else {
        push_char(out, c);
    }
}

/// Escapes a string for inclusion between double quotes in a JSON document.
pub fn escape_json(s: &str) -> (r: String)
    ensures
        r@ == escape_seq(s@),
{
    let n = s.unicode_len();
    let mut out = String::new();
    let mut i: usize = 0;
    while i < n
        invariant
            n == s@.len(),
            i <= n,
            out@ == escape_seq(s@.subrange(0, i as int)),
        decreases n - i,
    {
        let c = s.get_char(i);
        push_escaped_char(&mut out, c);
        proof {
            assert(s@.subrange(0, i + 1 as int) =~= s@.subrange(0, i as int).push(c));
            lemma_escape_push(s@.subrange(0, i as int), c);
        }
        i = i + 1;
    }
    proof {
        assert(s@.subrange(0, n as int) =~= s@);
    }
    out
}

fn push_json_string(out: &mut String, s: &str)
    ensures
        final(out)@ == old(out)@ + json_string(s@),
{
    out.append("\"");
    let e = escape_json(s);
    out.append(e.as_str());
    out.append("\"");
    proof {
        reveal_strlit("\"");
        assert(out@ =~= old(out)@ + json_string(s@));
    }
}

/// The hexadecimal digit of an identifier at a given position, counting
/// the thirty-two four-bit groups from the most significant down.
pub open spec fn nibble(id: u128, i: int) -> u128 {
    (id >> (((31 - i) * 4) as u128)) & 0xf
}

/// The hexadecimal digits of an identifier from nibble `lo` up to `hi`.
pub open spec fn hex_digits(id: u128, lo: int, hi: int) -> Seq<char>
    decreases hi - lo,
{
    if lo >= hi {
        Seq::empty()
    } else {
        seq![hex_digit(nibble(id, lo) as int)] + hex_digits(id, lo + 1, hi)
    }
}

/// The canonical hyphenated lower-case text form of an identifier:
/// five hexadecimal groups of 8, 4, 4, 4 and 12 digits.
pub open spec fn uuid_text(id: u128) -> Seq<char> {
    hex_digits(id, 0, 8) + seq!['-'] + hex_digits(id, 8, 12) + seq!['-'] + hex_digits(id, 12, 16)
        + seq!['-'] + hex_digits(id, 16, 20) + seq!['-'] + hex_digits(id, 20, 32)
}

proof fn lemma_nibble_bound(x: u128, sh: u128)
    requires
        sh < 128,
    ensures
        ((x >> sh) & 0xf) < 16,
{
    assert(sh < 128 ==> ((x >> sh) & 0xf) < 16) by (bit_vector);
}

proof fn lemma_hex_digits_snoc(id: u128, lo: int, i: int)
    requires
        lo <= i,
    ensures
        hex_digits(id, lo, i + 1) == hex_digits(id, lo, i) + seq![hex_digit(nibble(id, i) as int)],
    decreases i - lo,
{
    if lo == i {
        assert(hex_digits(id, i + 1, i + 1) =~= Seq::<char>::empty());
        assert(hex_digits(id, lo, i) =~= Seq::<char>::empty());
        assert(hex_digits(id, lo, i + 1) =~= hex_digits(id, lo, i) + seq![
            hex_digit(nibble(id, i) as int),
        ]);
    } else {
        lemma_hex_digits_snoc(id, lo + 1, i);
        assert(hex_digits(id, lo, i + 1) =~= hex_digits(id, lo, i) + seq![
            hex_digit(nibble(id, i) as int),
        ]);
    }
}

fn push_hex(out: &mut String, id: u128, lo: usize, hi: usize)
    requires
        lo <= hi <= 32,
    ensures
        final(out)@ == old(out)@ + hex_digits(id, lo as int, hi as int),
{
    let mut i: usize = lo;
    while i < hi
        invariant
            lo <= i <= hi <= 32,
            out@ == old(out)@ + hex_digits(id, lo as int, i as int),
        decreases hi - i,
    {
        let sh: u128 = ((31 - i) as u128) * 4;
        proof {
            lemma_nibble_bound(id, sh);
        }
        let nb: u8 = ((id >> sh) & 0xf) as u8;
        proof {
            assert(nb == nibble(id, i as int));
        }
        let hs = hex_str(nb);
        out.append(hs);
        proof {
            lemma_hex_digits_snoc(id, lo as int, i as int);
        }
        i = i + 1;
    }
}

/// Renders an identifier in its canonical hyphenated lower-case form.
pub fn uuid_string(id: u128) -> (r: String)
    ensures
        r@ == uuid_text(id),
{
    let mut out = String::new();
    push_hex(&mut out, id, 0, 8);
    out.append("-");
    push_hex(&mut out, id, 8, 12);
    out.append("-");
    push_hex(&mut out, id, 12, 16);
    out.append("-");
    push_hex(&mut out, id, 16, 20);
    out.append("-");
    push_hex(&mut out, id, 20, 32);
    proof {
        reveal_strlit("-");
        assert(out@ =~= uuid_text(id));
    }
    out
}

/// How an optional timestamp appears in a rendered post: a JSON string
/// when present, the literal `null` when absent.
pub open spec fn opt_time_json(o: Option<String>) -> Seq<char> {
    match o {
        Some(s) => json_string(s@),
        None => "null"@,
    }
}

/// A rendered post object, keys in alphabetical order.
pub open spec fn post_json(p: Post) -> Seq<char> {
    "{\"createdAt\":"@ + opt_time_json(p.created_at) + ",\"day\":"@ + json_string(p.day@)
        + ",\"id\":\""@ + uuid_text(p.id) + "\",\"message\":"@ + json_string(p.message@)
        + ",\"updatedAt\":"@ + opt_time_json(p.updated_at) + ",\"username\":"@ + json_string(
        p.username@,
    ) + "}"@
}

fn push_opt_time(out: &mut String, o: &Option<String>)
    ensures
        final(out)@ == old(out)@ + opt_time_json(*o),
{
    match o {
        Some(s) => {
            push_json_string(out, s.as_str());
        },
        None => {
            out.append("null");
        },
    }
}

/// Renders one post as a JSON object.
pub fn render_post(p: &Post) -> (r: String)
    ensures
        r@ == post_json(*p),
{
    let mut out = String::from_str("{\"createdAt\":");
    push_opt_time(&mut out, &p.created_at);
    out.append(",\"day\":");
    push_json_string(&mut out, p.day.as_str());
    out.append(",\"id\":\"");
    let idtext = uuid_string(p.id);
    out.append(idtext.as_str());
    out.append("\",\"message\":");
    push_json_string(&mut out, p.message.as_str());
    out.append(",\"updatedAt\":");
    push_opt_time(&mut out, &p.updated_at);
    out.append(",\"username\":");
    push_json_string(&mut out, p.username.as_str());
    out.append("}");
    proof {
        assert(out@ =~= post_json(*p));
    }
    out
}

/// A rendered sequence of posts: the objects joined by commas.
pub open spec fn posts_json(s: Seq<Post>) -> Seq<char>
    decreases s.len(),
{
    if s.len() == 0 {
        Seq::empty()
    } else if s.len() == 1 {
        post_json(s[0])
    } else {
        posts_json(s.drop_last()) + seq![','] + post_json(s.last())
    }
}

/// The success envelope of the listing route: every stored row under
/// `data`, even when there are none.
pub open spec fn list_success_body(s: Seq<Post>) -> Seq<char> {
    "{\"data\":["@ + posts_json(s) + "],\"success\":true}"@
}

/// The success envelope of the create route: the stored row under `data`.
pub open spec fn post_success_body(p: Post) -> Seq<char> {
    "{\"data\":"@ + post_json(p) + ",\"success\":true}"@
}

/// The success envelope of the update and delete routes.
pub open spec fn plain_success_body() -> Seq<char> {
    "{\"success\":true}"@
}

/// The failure envelope of every route: the backend's message text under
/// `message`, escaped as JSON.
pub open spec fn error_body(msg: Seq<char>) -> Seq<char> {
    "{\"message\":"@ + json_string(msg) + ",\"success\":false}"@
}

/// Renders the success envelope of the listing route.
pub fn render_list_success(posts: &Vec<Post>) -> (r: String)
    ensures
        r@ == list_success_body(posts@),
{
    let mut out = String::from_str("{\"data\":[");
    let ghost prefix = out@;
    let mut i: usize = 0;
    while i < posts.len()
        invariant
            i <= posts@.len(),
            prefix == "{\"data\":["@,
            out@ == prefix + posts_json(posts@.subrange(0, i as int)),
        decreases posts@.len() - i,
    {
        if i > 0 {
            out.append(",");
            proof {
                reveal_strlit(",");
            }
        }
        let rendered = render_post(&posts[i]);
        out.append(rendered.as_str());
        proof {
            let taken = posts@.subrange(0, (i + 1) as int);
            assert(taken.drop_last() =~= posts@.subrange(0, i as int));
            assert(taken.last() == posts@[i as int]);
            assert(out@ =~= prefix + posts_json(taken));
        }
        i = i + 1;
    }
    out.append("],\"success\":true}");
    proof {
        assert(posts@.subrange(0, posts@.len() as int) =~= posts@);
        assert(out@ =~= list_success_body(posts@));
    }
    out
}

/// Renders the success envelope of the create route.
pub fn render_post_success(p: &Post) -> (r: String)
    ensures
        r@ == post_success_body(*p),
{
    let mut out = String::from_str("{\"data\":");
    let rendered = render_post(p);
    out.append(rendered.as_str());
    out.append(",\"success\":true}");
    proof {
        assert(out@ =~= post_success_body(*p));
    }
    out
}

/// Renders the success envelope of the update and delete routes.
pub fn render_plain_success() -> (r: String)
    ensures
        r@ == plain_success_body(),
{
    String::from_str("{\"success\":true}")
}

/// Renders the failure envelope around a backend message.
pub fn render_error(msg: &str) -> (r: String)
    ensures
        r@ == error_body(msg@),
{
    let mut out = String::from_str("{\"message\":");
    push_json_string(&mut out, msg);
    out.append(",\"success\":false}");
    proof {
        assert(out@ =~= error_body(msg@));
    }
    out
}

} // verus!
