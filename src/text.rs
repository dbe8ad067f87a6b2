//! Character-level helpers: prefix tests, path normalisation for the worker,
//! and the hexadecimal rendering of the local authentication token.
use vstd::prelude::*;

verus! {

/// `s` begins with `p`.
pub open spec fn has_prefix(s: Seq<char>, p: Seq<char>) -> bool {
    p.len() <= s.len() && s.subrange(0, p.len() as int) == p
}

/// Whether `s` begins with `p`.
pub fn starts_with_text(s: &str, p: &str) -> (r: bool)
    ensures
        r == has_prefix(s@, p@),
{
    let n = p.unicode_len();
    if n > s.unicode_len() {
        return false;
    }
    let mut i: usize = 0;
    while i < n
        invariant
            n == p@.len(),
            n <= s@.len(),
            i <= n,
            forall|j: int| 0 <= j < i ==> s@[j] == p@[j],
        decreases n - i,
    {
        if s.get_char(i) != p.get_char(i) {
            assert(s@.subrange(0, n as int)[i as int] != p@[i as int]);
            return false;
        }
        i = i + 1;
    }
    assert(s@.subrange(0, n as int) =~= p@);
    true
}

/// Whether the two texts hold the same characters.
pub fn text_eq(a: &str, b: &str) -> (r: bool)
    ensures
        r == (a@ == b@),
{
    let r = a.unicode_len() == b.unicode_len() && starts_with_text(a, b);
    proof {
        assert(a@ =~= a@.subrange(0, a@.len() as int));
    }
    r
}

/// The prefix that marks a verbatim path to a network share.
pub open spec fn verbatim_unc_prefix() -> Seq<char> {
    "\\\\?\\UNC\\"@
}

/// The prefix that marks any other verbatim (extended-length) path.
pub open spec fn verbatim_prefix() -> Seq<char> {
    "\\\\?\\"@
}

/// The root of a plain network path.
pub open spec fn unc_root() -> Seq<char> {
    "\\\\"@
}

/// A path as the worker receives it: a verbatim network path keeps its
/// double-backslash root, any other verbatim prefix is dropped, and every
/// other path stays as it is.
pub open spec fn sanitized_path(s: Seq<char>) -> Seq<char> {
    if has_prefix(s, verbatim_unc_prefix()) {
        unc_root() + s.subrange(verbatim_unc_prefix().len() as int, s.len() as int)
    } else if has_prefix(s, verbatim_prefix()) {
        s.subrange(verbatim_prefix().len() as int, s.len() as int)
    } else {
        s
    }
}

/// Strips the extended-length prefix that path canonicalisation adds on
/// Windows, keeping network paths in their `\\server\share` form.
pub fn sanitize_path_for_node(p: &str) -> (r: String)
    ensures
        r@ == sanitized_path(p@),
{
    let unc = "\\\\?\\UNC\\";
    let plain = "\\\\?\\";
    let len = p.unicode_len();
    if starts_with_text(p, unc) {
        let rest = p.substring_char(unc.unicode_len(), len);
        let mut out = String::from_str("\\\\");
        out.append(rest);
        out
    } else if starts_with_text(p, plain) {
        p.substring_char(plain.unicode_len(), len).to_owned()
    } else {
        p.to_owned()
    }
}

/// A character of Unicode's White_Space property.
pub open spec fn is_white_space(c: char) -> bool {
    let u = c as u32;
    (0x9 <= u <= 0xd) || u == 0x20 || u == 0x85 || u == 0xa0 || u == 0x1680 || (0x2000 <= u
        <= 0x200a) || u == 0x2028 || u == 0x2029 || u == 0x202f || u == 0x205f || u == 0x3000
}

/// The text without its leading white space.
pub open spec fn trim_start(s: Seq<char>) -> Seq<char>
    decreases s.len(),
{
    if s.len() > 0 && is_white_space(s[0]) {
        trim_start(s.drop_first())
    } else {
        s
    }
}

/// The text without its trailing white space.
pub open spec fn trim_end(s: Seq<char>) -> Seq<char>
    decreases s.len(),
{
    if s.len() > 0 && is_white_space(s.last()) {
        trim_end(s.drop_last())
    } else {
        s
    }
}

/// The text without leading and trailing white space.
pub open spec fn trimmed(s: Seq<char>) -> Seq<char> {
    trim_end(trim_start(s))
}

/// Relies on `str::trim`: removes leading and trailing characters of the
/// White_Space property.
#[verifier::external_body]
pub(crate) fn trim_text(s: &str) -> (r: String)
    ensures
        r@ == trimmed(s@),
{
    s.trim().to_owned()
}

proof fn lemma_trim_start_head(s: Seq<char>)
    ensures
        trim_start(s).len() == 0 || !is_white_space(trim_start(s)[0]),
    decreases s.len(),
{
    if s.len() > 0 && is_white_space(s[0]) {
        lemma_trim_start_head(s.drop_first());
    }
}

proof fn lemma_trim_end_prefix(s: Seq<char>)
    ensures
        trim_end(s).len() <= s.len(),
        trim_end(s) == s.subrange(0, trim_end(s).len() as int),
        trim_end(s).len() == 0 || !is_white_space(trim_end(s).last()),
    decreases s.len(),
{
    if s.len() > 0 && is_white_space(s.last()) {
        lemma_trim_end_prefix(s.drop_last());
        assert(s.drop_last().subrange(0, trim_end(s).len() as int) =~= s.subrange(
            0,
            trim_end(s).len() as int,
        ));
    } else {
        assert(s.subrange(0, s.len() as int) =~= s);
    }
}

/// Trimming a trimmed text leaves it as it is.
pub proof fn lemma_trimmed_idempotent(s: Seq<char>)
    ensures
        trimmed(trimmed(s)) == trimmed(s),
{
    let a = trim_start(s);
    let y = trim_end(a);
    lemma_trim_start_head(s);
    lemma_trim_end_prefix(a);
    if y.len() > 0 {
        assert(y[0] == a[0]);
    }
    assert(trim_start(y) == y);
}

/// Relies on `String::push`: appends one character.
#[verifier::external_body]
pub(crate) fn push_char(s: &mut String, c: char)
    ensures
        final(s)@ == old(s)@.push(c),
{
    s.push(c)
}

/// The lower-case hexadecimal digit of `d`.
pub open spec fn hex_char(d: nat) -> char {
    if d < 10 {
        (('0' as nat) + d) as char
    } else {
        (('a' as nat) + d - 10) as char
    }
}

/// The last `n` hexadecimal digits of `x`, most significant first.
pub open spec fn hex_digits(x: nat, n: nat) -> Seq<char>
    decreases n,
{
    if n == 0 {
        Seq::empty()
    } else {
        hex_digits(x / 16, (n - 1) as nat).push(hex_char(x % 16))
    }
}

/// The token text made of two 64-bit values: sixteen digits for each.
pub open spec fn token_text(a: u64, b: u64) -> Seq<char> {
    hex_digits(a as nat, 16) + hex_digits(b as nat, 16)
}

fn digit_char(d: u64) -> (c: char)
    requires
        d < 16,
    ensures
        c == hex_char(d as nat),
{
    if d < 10 {
        ((48 + d) as u8) as char
    } else {
        ((87 + d) as u8) as char
    }
}

fn push_hex(out: &mut String, x: u64, n: usize)
    ensures
        final(out)@ == old(out)@ + hex_digits(x as nat, n as nat),
    decreases n,
{
    if n == 0 {
        assert(old(out)@ + hex_digits(x as nat, 0) =~= old(out)@);
    } else {
        push_hex(out, x / 16, n - 1);
        push_char(out, digit_char(x % 16));
        assert(hex_digits(x as nat, n as nat) == hex_digits(
            (x / 16) as nat,
            (n - 1) as nat,
        ).push(hex_char((x % 16) as nat)));
        assert(final(out)@ =~= old(out)@ + hex_digits(x as nat, n as nat));
    }
}

/// Renders two 64-bit values as the thirty-two digit token handed to the worker.
pub fn format_token(a: u64, b: u64) -> (r: String)
    ensures
        r@ == token_text(a, b),
        r@.len() == 32,
{
    let mut out = String::new();
    push_hex(&mut out, a, 16);
    push_hex(&mut out, b, 16);
    proof {
        lemma_hex_digits_len(a as nat, 16);
        lemma_hex_digits_len(b as nat, 16);
        assert(out@ =~= token_text(a, b));
    }
    out
}

proof fn lemma_hex_digits_len(x: nat, n: nat)
    ensures
        hex_digits(x, n).len() == n,
    decreases n,
{
    if n > 0 {
        lemma_hex_digits_len(x / 16, (n - 1) as nat);
    }
}

/// The decimal digits of `n`, most significant first, without leading zeros.
pub open spec fn decimal_digits(n: nat) -> Seq<char>
    decreases n,
{
    if n < 10 {
        seq![(('0' as nat) + n) as char]
    } else {
        decimal_digits(n / 10).push((('0' as nat) + n % 10) as char)
    }
}

fn push_decimal(out: &mut String, n: u64)
    ensures
        final(out)@ == old(out)@ + decimal_digits(n as nat),
    decreases n,
{
    if n >= 10 {
        push_decimal(out, n / 10);
    }
    push_char(out, ((48 + n % 10) as u8) as char);
    assert(final(out)@ =~= old(out)@ + decimal_digits(n as nat));
}

/// One line of the supervisor's diagnostic log: `[<seconds>][<LEVEL>] <message>`.
pub open spec fn log_line_text(secs: u64, level: Seq<char>, message: Seq<char>) -> Seq<char> {
    "["@ + decimal_digits(secs as nat) + "]["@ + level + "] "@ + message
}

/// Formats one diagnostic log line, stamped with the Unix time in seconds.
pub fn log_line(secs: u64, level: &str, message: &str) -> (r: String)
    ensures
        r@ == log_line_text(secs, level@, message@),
{
    let mut out = String::from_str("[");
    push_decimal(&mut out, secs);
    out.append("][");
    out.append(level);
    out.append("] ");
    out.append(message);
    assert(out@ =~= log_line_text(secs, level@, message@));
    out
}

} // verus!
