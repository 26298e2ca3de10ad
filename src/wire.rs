use vstd::prelude::*;

use crate::error::{ErrorKind, RelayError};
use crate::routes::{
    ConnectionId, ConnectionRoutes, ConnectionRoutesV, EmptyState, Envelope, EnvelopeV, Routes, RoutesV,
    Url,
};

verus! {

broadcast use vstd::string::axiom_str_literal_len, vstd::string::axiom_str_literal_get_char;

/// Number of hex digits in the length prefix of a frame.
pub const LEN_DIGITS: usize = 8;

/// Bodies must be shorter than this many characters to be framed.
pub const MAX_BODY: u64 = 0x1_0000_0000;

pub open spec fn p16(k: nat) -> nat
    decreases k,
{
    if k == 0 {
        1
    } else {
        16 * p16((k - 1) as nat)
    }
}

pub open spec fn hex_char(d: nat) -> char {
    if d == 0 {
        '0'
    } else if d == 1 {
        '1'
    } else if d == 2 {
        '2'
    } else if d == 3 {
        '3'
    } else if d == 4 {
        '4'
    } else if d == 5 {
        '5'
    } else if d == 6 {
        '6'
    } else if d == 7 {
        '7'
    } else if d == 8 {
        '8'
    } else if d == 9 {
        '9'
    } else if d == 10 {
        'a'
    } else if d == 11 {
        'b'
    } else if d == 12 {
        'c'
    } else if d == 13 {
        'd'
    } else if d == 14 {
        'e'
    } else {
        'f'
    }
}

pub open spec fn hex_val(c: char) -> Option<nat> {
    if c == '0' {
        Some(0)
    } else if c == '1' {
        Some(1)
    } else if c == '2' {
        Some(2)
    } else if c == '3' {
        Some(3)
    } else if c == '4' {
        Some(4)
    } else if c == '5' {
        Some(5)
    } else if c == '6' {
        Some(6)
    } else if c == '7' {
        Some(7)
    } else if c == '8' {
        Some(8)
    } else if c == '9' {
        Some(9)
    } else if c == 'a' {
        Some(10)
    } else if c == 'b' {
        Some(11)
    } else if c == 'c' {
        Some(12)
    } else if c == 'd' {
        Some(13)
    } else if c == 'e' {
        Some(14)
    } else if c == 'f' {
        Some(15)
    } else {
        None
    }
}

/// The last `k` hex digits of `n`, most significant first.
pub open spec fn hex_digits(n: nat, k: nat) -> Seq<char>
    decreases k,
{
    if k == 0 {
        Seq::empty()
    } else {
        hex_digits(n / 16, (k - 1) as nat).push(hex_char(n % 16))
    }
}

/// The number that a run of hex digits spells, if every character is one.
pub open spec fn parse_hex(s: Seq<char>) -> Option<nat>
    decreases s.len(),
{
    if s.len() == 0 {
        Some(0)
    } else {
        match (parse_hex(s.drop_last()), hex_val(s.last())) {
            (Some(a), Some(d)) => Some(a * 16 + d),
            _ => None,
        }
    }
}

pub proof fn lemma_hex_char(d: nat)
    requires
        d < 16,
    ensures
        hex_val(hex_char(d)) == Some(d),
{
}

pub proof fn lemma_hex_digits(n: nat, k: nat)
    requires
        n < p16(k),
    ensures
        parse_hex(hex_digits(n, k)) == Some(n),
        hex_digits(n, k).len() == k,
    decreases k,
{
    if k > 0 {
        lemma_hex_digits(n / 16, (k - 1) as nat);
        lemma_hex_char(n % 16);
        assert(hex_digits(n, k).drop_last() =~= hex_digits(n / 16, (k - 1) as nat));
    }
}

fn hex_str(d: u64) -> (r: &'static str)
    requires
        d < 16,
    ensures
        r@ == seq![hex_char(d as nat)],
{
    let r = match d {
        0 => {
            proof {
                reveal_strlit("0");
            }
            "0"
        },
        1 => {
            proof {
                reveal_strlit("1");
            }
            "1"
        },
        2 => {
            proof {
                reveal_strlit("2");
            }
            "2"
        },
        3 => {
            proof {
                reveal_strlit("3");
            }
            "3"
        },
        4 => {
            proof {
                reveal_strlit("4");
            }
            "4"
        },
        5 => {
            proof {
                reveal_strlit("5");
            }
            "5"
        },
        6 => {
            proof {
                reveal_strlit("6");
            }
            "6"
        },
        7 => {
            proof {
                reveal_strlit("7");
            }
            "7"
        },
        8 => {
            proof {
                reveal_strlit("8");
            }
            "8"
        },
        9 => {
            proof {
                reveal_strlit("9");
            }
            "9"
        },
        10 => {
            proof {
                reveal_strlit("a");
            }
            "a"
        },
        11 => {
            proof {
                reveal_strlit("b");
            }
            "b"
        },
        12 => {
            proof {
                reveal_strlit("c");
            }
            "c"
        },
        13 => {
            proof {
                reveal_strlit("d");
            }
            "d"
        },
        14 => {
            proof {
                reveal_strlit("e");
            }
            "e"
        },
        _ => {
            proof {
                reveal_strlit("f");
            }
            "f"
        },
    };
    assert(r@ =~= seq![hex_char(d as nat)]);
    r
}

/// Appends the last `k` hex digits of `n`.
pub(crate) fn push_hex(out: &mut String, n: u64, k: usize)
    ensures
        final(out)@ == old(out)@ + hex_digits(n as nat, k as nat),
    decreases k,
{
    if k > 0 {
        push_hex(out, n / 16, k - 1);
        out.append(hex_str(n % 16));
        assert(final(out)@ =~= old(out)@ + hex_digits(n as nat, k as nat));
    } else {
        assert(final(out)@ =~= old(out)@ + hex_digits(n as nat, k as nat));
    }
}

/// The character that names a kind of failure on the wire.
pub open spec fn kind_char(k: ErrorKind) -> char {
    match k {
        ErrorKind::NotFound => 'n',
        ErrorKind::UnknownTicket => 'u',
        ErrorKind::Serialization => 's',
        ErrorKind::RouteMismatch => 'm',
        ErrorKind::Transport => 't',
        ErrorKind::MailboxClosed => 'c',
        ErrorKind::IdsExhausted => 'x',
    }
}

pub open spec fn char_kind(c: char) -> Option<ErrorKind> {
    if c == 'n' {
        Some(ErrorKind::NotFound)
    } else if c == 'u' {
        Some(ErrorKind::UnknownTicket)
    } else if c == 's' {
        Some(ErrorKind::Serialization)
    } else if c == 'm' {
        Some(ErrorKind::RouteMismatch)
    } else if c == 't' {
        Some(ErrorKind::Transport)
    } else if c == 'c' {
        Some(ErrorKind::MailboxClosed)
    } else if c == 'x' {
        Some(ErrorKind::IdsExhausted)
    } else {
        None
    }
}

pub open spec fn failure_text(k: ErrorKind, context: Seq<char>) -> Seq<char> {
    seq![kind_char(k)] + context
}

pub open spec fn parse_failure(p: Seq<char>) -> Option<(ErrorKind, Seq<char>)> {
    if p.len() >= 1 && char_kind(p[0]) is Some {
        Some((char_kind(p[0])->Some_0, p.subrange(1, p.len() as int)))
    } else {
        None
    }
}

pub open spec fn bool_text(b: bool) -> Seq<char> {
    if b {
        seq!['1']
    } else {
        seq!['0']
    }
}

pub open spec fn parse_bool(p: Seq<char>) -> Option<bool> {
    if p.len() == 1 && p[0] == '1' {
        Some(true)
    } else if p.len() == 1 && p[0] == '0' {
        Some(false)
    } else {
        None
    }
}

/// The character that tells request, response and failure apart.
pub open spec fn tag_char<Q, S>(w: EnvelopeV<Q, S>) -> char {
    match w {
        EnvelopeV::Request(_) => 'q',
        EnvelopeV::Response(_) => 'r',
        EnvelopeV::Failure(_, _) => 'e',
    }
}

pub open spec fn create_payload(w: EnvelopeV<Seq<char>, Seq<char>>) -> Seq<char> {
    match w {
        EnvelopeV::Request(u) => u,
        EnvelopeV::Response(id) => id,
        EnvelopeV::Failure(k, c) => failure_text(k, c),
    }
}

pub open spec fn close_payload(w: EnvelopeV<Seq<char>, EmptyState>) -> Seq<char> {
    match w {
        EnvelopeV::Request(id) => id,
        EnvelopeV::Response(_) => Seq::empty(),
        EnvelopeV::Failure(k, c) => failure_text(k, c),
    }
}

pub open spec fn check_payload(w: EnvelopeV<Seq<char>, bool>) -> Seq<char> {
    match w {
        EnvelopeV::Request(id) => id,
        EnvelopeV::Response(b) => bool_text(b),
        EnvelopeV::Failure(k, c) => failure_text(k, c),
    }
}

/// The text of a message, without its length prefix.
pub open spec fn body_of(r: RoutesV) -> Seq<char> {
    match r {
        RoutesV::Fault(k, c) => seq!['F'] + failure_text(k, c),
        RoutesV::Connection(ConnectionRoutesV::Create(w)) => seq!['C', 'o', tag_char(w)]
            + create_payload(w),
        RoutesV::Connection(ConnectionRoutesV::Close(w)) => seq!['C', 'x', tag_char(w)]
            + close_payload(w),
        RoutesV::Connection(ConnectionRoutesV::Check(w)) => seq!['C', 'k', tag_char(w)]
            + check_payload(w),
    }
}

/// Whether a message is short enough to be framed.
pub open spec fn fits_frame(r: RoutesV) -> bool {
    body_of(r).len() < MAX_BODY
}

/// A whole frame: the body's length in hex digits, then the body.
pub open spec fn frame_of(r: RoutesV) -> Seq<char> {
    hex_digits(body_of(r).len(), LEN_DIGITS as nat) + body_of(r)
}

pub open spec fn parse_create(t: char, p: Seq<char>) -> Option<EnvelopeV<Seq<char>, Seq<char>>> {
    if t == 'q' {
        Some(EnvelopeV::Request(p))
    } else if t == 'r' {
        Some(EnvelopeV::Response(p))
    } else if t == 'e' && parse_failure(p) is Some {
        Some(EnvelopeV::Failure(parse_failure(p)->Some_0.0, parse_failure(p)->Some_0.1))
    } else {
        None
    }
}

pub open spec fn parse_close(t: char, p: Seq<char>) -> Option<EnvelopeV<Seq<char>, EmptyState>> {
    if t == 'q' {
        Some(EnvelopeV::Request(p))
    } else if t == 'r' && p.len() == 0 {
        Some(EnvelopeV::Response(EmptyState))
    } else if t == 'e' && parse_failure(p) is Some {
        Some(EnvelopeV::Failure(parse_failure(p)->Some_0.0, parse_failure(p)->Some_0.1))
    } else {
        None
    }
}

pub open spec fn parse_check(t: char, p: Seq<char>) -> Option<EnvelopeV<Seq<char>, bool>> {
    if t == 'q' {
        Some(EnvelopeV::Request(p))
    } else if t == 'r' && parse_bool(p) is Some {
        Some(EnvelopeV::Response(parse_bool(p)->Some_0))
    } else if t == 'e' && parse_failure(p) is Some {
        Some(EnvelopeV::Failure(parse_failure(p)->Some_0.0, parse_failure(p)->Some_0.1))
    } else {
        None
    }
}

/// The message that a body spells, if it is well formed.
pub open spec fn parse_body(b: Seq<char>) -> Option<RoutesV> {
    if b.len() >= 1 && b[0] == 'F' {
        match parse_failure(b.subrange(1, b.len() as int)) {
            Some((k, c)) => Some(RoutesV::Fault(k, c)),
            None => None,
        }
    } else if b.len() >= 3 && b[0] == 'C' {
        let p = b.subrange(3, b.len() as int);
        if b[1] == 'o' {
            match parse_create(b[2], p) {
                Some(w) => Some(RoutesV::Connection(ConnectionRoutesV::Create(w))),
                None => None,
            }
        } else if b[1] == 'x' {
            match parse_close(b[2], p) {
                Some(w) => Some(RoutesV::Connection(ConnectionRoutesV::Close(w))),
                None => None,
            }
        } else if b[1] == 'k' {
            match parse_check(b[2], p) {
                Some(w) => Some(RoutesV::Connection(ConnectionRoutesV::Check(w))),
                None => None,
            }
        } else {
            None
        }
    } else {
        None
    }
}

/// The message that a frame holds, if its length prefix is well formed and
/// counts exactly the characters that follow it.
pub open spec fn parse_frame(s: Seq<char>) -> Option<RoutesV> {
    if s.len() < LEN_DIGITS {
        None
    } else {
        match parse_hex(s.subrange(0, LEN_DIGITS as int)) {
            Some(n) => if n + LEN_DIGITS == s.len() {
                parse_body(s.subrange(LEN_DIGITS as int, s.len() as int))
            } else {
                None
            },
            None => None,
        }
    }
}

/// The label of failures that arise from reading a frame.
pub open spec fn wire_label() -> Seq<char> {
    "wire"@
}

fn kind_tag(k: ErrorKind) -> (r: &'static str)
    ensures
        r@ == seq![kind_char(k)],
{
    let r = match k {
        ErrorKind::NotFound => {
            proof {
                reveal_strlit("n");
            }
            "n"
        },
        ErrorKind::UnknownTicket => {
            proof {
                reveal_strlit("u");
            }
            "u"
        },
        ErrorKind::Serialization => {
            proof {
                reveal_strlit("s");
            }
            "s"
        },
        ErrorKind::RouteMismatch => {
            proof {
                reveal_strlit("m");
            }
            "m"
        },
        ErrorKind::Transport => {
            proof {
                reveal_strlit("t");
            }
            "t"
        },
        ErrorKind::MailboxClosed => {
            proof {
                reveal_strlit("c");
            }
            "c"
        },
        ErrorKind::IdsExhausted => {
            proof {
                reveal_strlit("x");
            }
            "x"
        },
    };
    assert(r@ =~= seq![kind_char(k)]);
    r
}

fn kind_of(c: char) -> (r: Option<ErrorKind>)
    ensures
        r == char_kind(c),
{
    match c {
        'n' => Some(ErrorKind::NotFound),
        'u' => Some(ErrorKind::UnknownTicket),
        's' => Some(ErrorKind::Serialization),
        'm' => Some(ErrorKind::RouteMismatch),
        't' => Some(ErrorKind::Transport),
        'c' => Some(ErrorKind::MailboxClosed),
        'x' => Some(ErrorKind::IdsExhausted),
        _ => None,
    }
}

fn digit_of(c: char) -> (r: Option<u64>)
    ensures
        match r {
            Some(d) => d < 16 && hex_val(c) == Some(d as nat),
            None => hex_val(c) is None,
        },
{
    match c {
        '0' => Some(0),
        '1' => Some(1),
        '2' => Some(2),
        '3' => Some(3),
        '4' => Some(4),
        '5' => Some(5),
        '6' => Some(6),
        '7' => Some(7),
        '8' => Some(8),
        '9' => Some(9),
        'a' => Some(10),
        'b' => Some(11),
        'c' => Some(12),
        'd' => Some(13),
        'e' => Some(14),
        'f' => Some(15),
        _ => None,
    }
}

fn push_failure(out: &mut String, e: &RelayError)
    ensures
        final(out)@ == old(out)@ + failure_text(e.kind, e.context@),
{
    out.append(kind_tag(e.kind));
    out.append(e.context.as_str());
    assert(final(out)@ =~= old(out)@ + failure_text(e.kind, e.context@));
}

/// The body of a message, without its length prefix.
pub fn body(msg: &Routes) -> (r: String)
    ensures
        r@ == body_of(msg@),
{
    let mut out = String::new();
    match msg {
        Routes::Fault(e) => {
            proof {
                reveal_strlit("F");
            }
            out.append("F");
            push_failure(&mut out, e);
        },
        Routes::Connection(ConnectionRoutes::Create(w)) => match w {
            Envelope::Request(u) => {
                proof {
                    reveal_strlit("Coq");
                }
                out.append("Coq");
                out.append(u.url.as_str());
            },
            Envelope::Response(id) => {
                proof {
                    reveal_strlit("Cor");
                }
                out.append("Cor");
                out.append(id.connection_id.as_str());
            },
            Envelope::Failure(e) => {
                proof {
                    reveal_strlit("Coe");
                }
                out.append("Coe");
                push_failure(&mut out, e);
            },
        },
        Routes::Connection(ConnectionRoutes::Close(w)) => match w {
            Envelope::Request(id) => {
                proof {
                    reveal_strlit("Cxq");
                }
                out.append("Cxq");
                out.append(id.connection_id.as_str());
            },
            Envelope::Response(_) => {
                proof {
                    reveal_strlit("Cxr");
                }
                out.append("Cxr");
            },
            Envelope::Failure(e) => {
                proof {
                    reveal_strlit("Cxe");
                }
                out.append("Cxe");
                push_failure(&mut out, e);
            },
        },
        Routes::Connection(ConnectionRoutes::Check(w)) => match w {
            Envelope::Request(id) => {
                proof {
                    reveal_strlit("Ckq");
                }
                out.append("Ckq");
                out.append(id.connection_id.as_str());
            },
            Envelope::Response(b) => {
                proof {
                    reveal_strlit("Ckr");
                }
                out.append("Ckr");
                if *b {
                    proof {
                        reveal_strlit("1");
                    }
                    out.append("1");
                } else {
                    proof {
                        reveal_strlit("0");
                    }
                    out.append("0");
                }
            },
            Envelope::Failure(e) => {
                proof {
                    reveal_strlit("Cke");
                }
                out.append("Cke");
                push_failure(&mut out, e);
            },
        },
    }
    assert(out@ =~= body_of(msg@));
    out
}

/// Frames a message: its body, led by the body's length in hex digits.
/// Fails only where the body is too long for the prefix.
pub fn encode(msg: &Routes) -> (r: Result<String, RelayError>)
    ensures
        r is Ok <==> fits_frame(msg@),
        match r {
            Ok(s) => s@ == frame_of(msg@),
            Err(e) => e@ == (ErrorKind::Serialization, wire_label()),
        },
{
    let b = body(msg);
    let n = b.as_str().unicode_len();
    if n as u64 >= MAX_BODY {
        return Err(RelayError::new(ErrorKind::Serialization, "wire"));
    }
    let mut out = String::new();
    push_hex(&mut out, n as u64, LEN_DIGITS);
    out.append(b.as_str());
    assert(out@ =~= frame_of(msg@));
    Ok(out)
}

proof fn lemma_p16_eight()
    ensures
        p16(8) == 0x1_0000_0000,
{
    reveal_with_fuel(p16, 9);
}

pub proof fn lemma_p16_mono(i: nat, j: nat)
    requires
        i <= j,
    ensures
        p16(i) <= p16(j),
    decreases j,
{
    if i < j {
        lemma_p16_mono(i, (j - 1) as nat);
    }
}

/// Reads the length prefix of a frame.
fn read_len(s: &str) -> (r: Option<u64>)
    requires
        s@.len() >= LEN_DIGITS,
    ensures
        match r {
            Some(v) => parse_hex(s@.subrange(0, LEN_DIGITS as int)) == Some(v as nat),
            None => parse_hex(s@.subrange(0, LEN_DIGITS as int)) is None,
        },
{
    proof {
        lemma_p16_eight();
    }
    let mut v: u64 = 0;
    let mut ok = true;
    let mut i: usize = 0;
    assert(s@.subrange(0, 0) =~= Seq::<char>::empty());
    while i < LEN_DIGITS
        invariant
            i <= LEN_DIGITS,
            s@.len() >= LEN_DIGITS,
            p16(8) == 0x1_0000_0000,
            ok ==> parse_hex(s@.subrange(0, i as int)) == Some(v as nat) && v < p16(i as nat),
            !ok ==> parse_hex(s@.subrange(0, i as int)) is None,
        decreases LEN_DIGITS - i,
    {
        let c = s.get_char(i);
        proof {
            assert(s@.subrange(0, i + 1).drop_last() =~= s@.subrange(0, i as int));
            lemma_p16_mono(i as nat, 7);
        }
        match digit_of(c) {
            Some(d) => {
                if ok {
                    assert(v * 16 + d < p16(i as nat) * 16) by (nonlinear_arith)
                        requires
                            v < p16(i as nat),
                            d < 16,
                    ;
                    v = v * 16 + d;
                }
            },
            None => {
                ok = false;
            },
        }
        i = i + 1;
    }
    if ok {
        Some(v)
    } else {
        None
    }
}

fn read_failure(p: &str) -> (r: Option<RelayError>)
    ensures
        match r {
            Some(e) => parse_failure(p@) == Some(e@),
            None => parse_failure(p@) is None,
        },
{
    let n = p.unicode_len();
    if n < 1 {
        return None;
    }
    match kind_of(p.get_char(0)) {
        Some(kind) => Some(RelayError { kind, context: p.substring_char(1, n).to_owned() }),
        None => None,
    }
}

fn read_body(b: &str) -> (r: Option<Routes>)
    ensures
        match r {
            Some(m) => parse_body(b@) == Some(m@),
            None => parse_body(b@) is None,
        },
{
    let n = b.unicode_len();
    if n >= 1 && b.get_char(0) == 'F' {
        return match read_failure(b.substring_char(1, n)) {
            Some(e) => Some(Routes::Fault(e)),
            None => None,
        };
    }
    if n < 3 || b.get_char(0) != 'C' {
        return None;
    }
    let op = b.get_char(1);
    let t = b.get_char(2);
    let p = b.substring_char(3, n);
    if op == 'o' {
        let w: Envelope<Url, ConnectionId> = if t == 'q' {
            Envelope::Request(Url { url: p.to_owned() })
        } else if t == 'r' {
            Envelope::Response(ConnectionId { connection_id: p.to_owned() })
        } else if t == 'e' {
            match read_failure(p) {
                Some(e) => Envelope::Failure(e),
                None => return None,
            }
        } else {
            return None;
        };
        Some(Routes::Connection(ConnectionRoutes::Create(w)))
    } else if op == 'x' {
        let w: Envelope<ConnectionId, EmptyState> = if t == 'q' {
            Envelope::Request(ConnectionId { connection_id: p.to_owned() })
        } else if t == 'r' && p.unicode_len() == 0 {
            Envelope::Response(EmptyState)
        } else if t == 'e' {
            match read_failure(p) {
                Some(e) => Envelope::Failure(e),
                None => return None,
            }
        } else {
            return None;
        };
        Some(Routes::Connection(ConnectionRoutes::Close(w)))
    } else if op == 'k' {
        let w: Envelope<ConnectionId, bool> = if t == 'q' {
            Envelope::Request(ConnectionId { connection_id: p.to_owned() })
        } else if t == 'r' && p.unicode_len() == 1 && p.get_char(0) == '1' {
            Envelope::Response(true)
        } else if t == 'r' && p.unicode_len() == 1 && p.get_char(0) == '0' {
            Envelope::Response(false)
        } else if t == 'e' {
            match read_failure(p) {
                Some(e) => Envelope::Failure(e),
                None => return None,
            }
        } else {
            return None;
        };
        Some(Routes::Connection(ConnectionRoutes::Check(w)))
    } else {
        None
    }
}

/// Reads one frame. Fails with a serialization error, and nothing else,
/// where the text is not exactly one well-formed frame: a truncated frame
/// has fewer characters than its prefix counts, and is refused.
pub fn decode(text: &String) -> (r: Result<Routes, RelayError>)
    ensures
        r is Ok <==> parse_frame(text@) is Some,
        match r {
            Ok(m) => parse_frame(text@) == Some(m@),
            Err(e) => e@ == (ErrorKind::Serialization, wire_label()),
        },
{
    let s = text.as_str();
    let n = s.unicode_len();
    if n < LEN_DIGITS {
        return Err(RelayError::new(ErrorKind::Serialization, "wire"));
    }
    match read_len(s) {
        Some(v) => {
            if v != (n - LEN_DIGITS) as u64 {
                return Err(RelayError::new(ErrorKind::Serialization, "wire"));
            }
            match read_body(s.substring_char(LEN_DIGITS, n)) {
                Some(m) => Ok(m),
                None => Err(RelayError::new(ErrorKind::Serialization, "wire")),
            }
        },
        None => Err(RelayError::new(ErrorKind::Serialization, "wire")),
    }
}

proof fn lemma_failure_round_trip(k: ErrorKind, c: Seq<char>)
    ensures
        parse_failure(failure_text(k, c)) == Some((k, c)),
{
    assert(failure_text(k, c).subrange(1, failure_text(k, c).len() as int) =~= c);
}

/// Reading the body of a message gives that message back.
pub proof fn lemma_body_round_trip(r: RoutesV)
    ensures
        parse_body(body_of(r)) == Some(r),
{
    let b = body_of(r);
    match r {
        RoutesV::Fault(k, c) => {
            lemma_failure_round_trip(k, c);
            assert(b.subrange(1, b.len() as int) =~= failure_text(k, c));
            assert(b[0] == 'F');
        },
        RoutesV::Connection(cr) => {
            match cr {
                ConnectionRoutesV::Create(w) => {
                    assert(b.subrange(3, b.len() as int) =~= create_payload(w));
                    assert(b[0] == 'C' && b[1] == 'o' && b[2] == tag_char(w));
                    match w {
                        EnvelopeV::Request(_) => {},
                        EnvelopeV::Response(_) => {},
                        EnvelopeV::Failure(k, c) => {
                            lemma_failure_round_trip(k, c);
                        },
                    }
                    assert(parse_create(tag_char(w), create_payload(w)) == Some(w));
                },
                ConnectionRoutesV::Close(w) => {
                    assert(b.subrange(3, b.len() as int) =~= close_payload(w));
                    assert(b[0] == 'C' && b[1] == 'x' && b[2] == tag_char(w));
                    match w {
                        EnvelopeV::Request(_) => {},
                        EnvelopeV::Response(x) => {
                            assert(x == EmptyState);
                        },
                        EnvelopeV::Failure(k, c) => {
                            lemma_failure_round_trip(k, c);
                        },
                    }
                    assert(parse_close(tag_char(w), close_payload(w)) == Some(w));
                },
                ConnectionRoutesV::Check(w) => {
                    assert(b.subrange(3, b.len() as int) =~= check_payload(w));
                    assert(b[0] == 'C' && b[1] == 'k' && b[2] == tag_char(w));
                    match w {
                        EnvelopeV::Request(_) => {},
                        EnvelopeV::Response(_) => {},
                        EnvelopeV::Failure(k, c) => {
                            lemma_failure_round_trip(k, c);
                        },
                    }
                    assert(parse_check(tag_char(w), check_payload(w)) == Some(w));
                },
            }
        },
    }
}

/// Reading the frame of a message gives that message back, for every message
/// short enough to be framed.
pub proof fn lemma_round_trip(r: RoutesV)
    requires
        fits_frame(r),
    ensures
        parse_frame(frame_of(r)) == Some(r),
{
    let b = body_of(r);
    let f = frame_of(r);
    lemma_p16_eight();
    lemma_hex_digits(b.len(), 8);
    lemma_body_round_trip(r);
    assert(f.subrange(0, 8) =~= hex_digits(b.len(), 8));
    assert(f.subrange(8, f.len() as int) =~= b);
}

} // verus!
