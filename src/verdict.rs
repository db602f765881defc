use vstd::prelude::*;

verus! {

/// The lowercase hexadecimal digit of `d`.
pub open spec fn hex_char(d: nat) -> char
    recommends
        d < 16,
{
    seq!['0', '1', '2', '3', '4', '5', '6', '7', '8', '9', 'a', 'b', 'c', 'd', 'e', 'f'][d as int]
}

/// How one character stands inside a JSON string as serde_json writes it: quote and
/// backslash escaped, the five controls with a short escape as such, the other
/// controls below U+0020 as `\u00XX`, everything else as itself.
pub open spec fn json_escape(c: char) -> Seq<char> {
    let n = c as u32 as nat;
    if c == '"' {
        seq!['\\', '"']
    } else if c == '\\' {
        seq!['\\', '\\']
    } else if n == 0x08 {
        seq!['\\', 'b']
    } else if n == 0x09 {
        seq!['\\', 't']
    } else if n == 0x0A {
        seq!['\\', 'n']
    } else if n == 0x0C {
        seq!['\\', 'f']
    } else if n == 0x0D {
        seq!['\\', 'r']
    } else if n < 0x20 {
        seq!['\\', 'u', '0', '0', hex_char(n / 16), hex_char(n % 16)]
    } else {
        seq![c]
    }
}

/// The escaped characters of a string, in order.
pub open spec fn json_escaped(s: Seq<char>) -> Seq<char>
    decreases s.len(),
{
    if s.len() == 0 {
        Seq::empty()
    } else {
        json_escaped(s.drop_last()) + json_escape(s.last())
    }
}

/// A string as a JSON string literal.
pub open spec fn json_quoted(s: Seq<char>) -> Seq<char> {
    seq!['"'] + json_escaped(s) + seq!['"']
}

/// The character of a decimal digit.
pub open spec fn digit_char(d: nat) -> char
    recommends
        d < 10,
{
    seq!['0', '1', '2', '3', '4', '5', '6', '7', '8', '9'][d as int]
}

/// The decimal digits of a natural number, without leading zeros.
pub open spec fn digits_of(n: nat) -> Seq<char>
    decreases n,
{
    if n < 10 {
        seq![digit_char(n)]
    } else {
        digits_of(n / 10).push(digit_char(n % 10))
    }
}

/// The decimal text of an integer, with a leading `-` when it is negative.
pub open spec fn decimal_of(n: int) -> Seq<char> {
    if n < 0 {
        seq!['-'] + digits_of((-n) as nat)
    } else {
        digits_of(n as nat)
    }
}

/// Relies on serde_json::to_string on a `str`: the string quoted, with the escapes of
/// serde_json's compact formatter. Writing into a `Vec<u8>` cannot fail, so the error
/// arm is never taken.
#[verifier::external_body]
fn json_string(s: &str) -> (r: String)
    ensures
        r@ == json_quoted(s@),
{
    serde_json::to_string(s).unwrap_or_default()
}

/// The text of one decimal digit.
fn digit_str(d: u64) -> (r: &'static str)
    requires
        d < 10,
    ensures
        r@ == seq![digit_char(d as nat)],
{
    proof {
        reveal_strlit("0");
        reveal_strlit("1");
        reveal_strlit("2");
        reveal_strlit("3");
        reveal_strlit("4");
        reveal_strlit("5");
        reveal_strlit("6");
        reveal_strlit("7");
        reveal_strlit("8");
        reveal_strlit("9");
    }
    match d {
        0 => "0",
        1 => "1",
        2 => "2",
        3 => "3",
        4 => "4",
        5 => "5",
        6 => "6",
        7 => "7",
        8 => "8",
        _ => "9",
    }
}

/// Appends the decimal digits of `n`.
fn push_digits(out: &mut String, n: u64)
    ensures
        final(out)@ == old(out)@ + digits_of(n as nat),
    decreases n,
{
    if n >= 10 {
        push_digits(out, n / 10);
    }
    out.append(digit_str(n % 10));
    proof {
        assert(old(out)@ + digits_of(n as nat) =~= final(out)@);
    }
}

/// The decimal text of an integer, as JSON writes a number.
pub fn decimal_text(n: i64) -> (r: String)
    ensures
        r@ == decimal_of(n as int),
{
    let mut out = String::new();
    if n < 0 {
        out.append("-");
        proof {
            reveal_strlit("-");
        }
        let magnitude: u64 = (-(n + 1)) as u64 + 1;
        push_digits(&mut out, magnitude);
    } else {
        push_digits(&mut out, n as u64);
    }
    proof {
        assert(out@ =~= decimal_of(n as int));
    }
    out
}

/// The write-once decision recorded with a transition: what was done, why, and when
/// (seconds since the Unix epoch).
#[derive(Clone, Debug)]
pub struct Verdict {
    pub action: String,
    pub reason: String,
    pub decided_at: i64,
}

pub ghost struct VerdictModel {
    pub action: Seq<char>,
    pub reason: Seq<char>,
    pub decided_at: i64,
}

impl View for Verdict {
    type V = VerdictModel;

    open spec fn view(&self) -> VerdictModel {
        VerdictModel { action: self.action@, reason: self.reason@, decided_at: self.decided_at }
    }
}

/// The action name recorded by a denial.
pub open spec fn deny_action() -> Seq<char> {
    "deny"@
}

/// The stored JSON object of a verdict.
pub open spec fn verdict_json(v: VerdictModel) -> Seq<char> {
    "{\"action\":"@ + json_quoted(v.action) + ",\"reason\":"@ + json_quoted(v.reason)
        + ",\"end_review_time\":"@ + decimal_of(v.decided_at as int) + "}"@
}

impl Verdict {
    /// The verdict of a denial for `reason`, decided at `decided_at`.
    pub fn denial(reason: String, decided_at: i64) -> (r: Verdict)
        ensures
            r@ == (VerdictModel { action: deny_action(), reason: reason@, decided_at }),
    {
        Verdict { action: "deny".to_owned(), reason, decided_at }
    }

    /// The JSON object under which the verdict is stored:
    /// `{"action":…,"reason":…,"end_review_time":…}`.
    pub fn to_json(&self) -> (r: String)
        ensures
            r@ == verdict_json(self@),
    {
        let mut out = "{\"action\":".to_owned();
        out.append(json_string(self.action.as_str()).as_str());
        out.append(",\"reason\":");
        out.append(json_string(self.reason.as_str()).as_str());
        out.append(",\"end_review_time\":");
        out.append(decimal_text(self.decided_at).as_str());
        out.append("}");
        out
    }
}

} // verus!
