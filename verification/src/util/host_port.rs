//! Parsing of upstream target addresses of the form `host` or `host:port`.

use vstd::prelude::*;
use vstd::string::*;

verus! {

/// Why a target address was rejected.
#[derive(Clone, Copy, Debug, PartialEq, Eq, Structural)]
pub enum HostPortError {
    /// The address holds more than one `:`.
    TooManySeparators,
    /// The text after the `:` is not a decimal port number up to 65535.
    InvalidPort,
}

/// The largest port number an address may name.
pub const MAX_PORT: u32 = 65535;

/// The host that an address beginning with `:` stands for.
pub open spec fn any_host() -> Seq<char> {
    "0.0.0.0"@
}

/// Whether a character is one of the ten decimal digits.
pub open spec fn is_digit(c: char) -> bool {
    '0' <= c && c <= '9'
}

/// Whether a text is made of decimal digits only.
pub open spec fn all_digits(s: Seq<char>) -> bool {
    forall|i: int| 0 <= i < s.len() ==> is_digit(#[trigger] s[i])
}

/// The number that a string of decimal digits denotes.
pub open spec fn digits_value(s: Seq<char>) -> nat
    decreases s.len(),
{
    if s.len() == 0 {
        0
    } else {
        digits_value(s.drop_last()) * 10 + ((s.last() as u32 - '0' as u32) as nat)
    }
}

/// A port is written as one or more decimal digits and is at most `MAX_PORT`.
pub open spec fn valid_port(s: Seq<char>) -> bool {
    s.len() >= 1 && all_digits(s) && digits_value(s) <= MAX_PORT
}

/// `i` is the position of the first `:` in `s`.
pub open spec fn is_first_separator(s: Seq<char>, i: int) -> bool {
    &&& 0 <= i < s.len()
    &&& s[i] == ':'
    &&& forall|j: int| 0 <= j < i ==> s[j] != ':'
}

/// Whether a text holds a `:`.
pub open spec fn has_separator(s: Seq<char>) -> bool {
    exists|i: int| 0 <= i < s.len() && s[i] == ':'
}

/// The position of the first `:` in a text that holds one.
pub open spec fn first_separator(s: Seq<char>) -> int {
    choose|i: int| is_first_separator(s, i)
}

/// What an address denotes: a host and, where one is written, a port.
///
/// Without a `:` the whole text is the host. With one `:`, the text before it
/// is the host (`0.0.0.0` where it is empty) and the text after it the port.
pub open spec fn parse_spec(s: Seq<char>) -> Result<(Seq<char>, Option<u32>), HostPortError> {
    if !has_separator(s) {
        Ok((s, None))
    } else {
        let i = first_separator(s);
        let host = s.subrange(0, i);
        let port = s.subrange(i + 1, s.len() as int);
        if has_separator(port) {
            Err(HostPortError::TooManySeparators)
        } else if !valid_port(port) {
            Err(HostPortError::InvalidPort)
        } else {
            Ok((if i == 0 { any_host() } else { host }, Some(digits_value(port) as u32)))
        }
    }
}

proof fn lemma_first_separator_unique(s: Seq<char>, i: int)
    requires
        is_first_separator(s, i),
    ensures
        has_separator(s),
        first_separator(s) == i,
{
    let k = first_separator(s);
    assert(is_first_separator(s, k));
    if k < i {
        assert(s[k] != ':');
    }
    if i < k {
        assert(s[i] != ':');
    }
}

/// Position of the first `:` at or after `from`, or the length where there is none.
fn find_separator(s: &str, from: usize, len: usize) -> (i: usize)
    requires
        len == s@.len(),
        from <= len,
    ensures
        from <= i <= len,
        forall|j: int| from <= j < i ==> s@[j] != ':',
        i < len ==> s@[i as int] == ':',
{
    let mut i: usize = from;
    while i < len
        invariant
            len == s@.len(),
            from <= i <= len,
            forall|j: int| from <= j < i ==> s@[j] != ':',
        decreases len - i,
    {
        if s.get_char(i) == ':' {
            return i;
        }
        i += 1;
    }
    i
}

/// Reads the port written in `s[from..len]`.
fn read_port(s: &str, from: usize, len: usize) -> (r: Option<u32>)
    requires
        len == s@.len(),
        from <= len,
    ensures
        r is Some <==> valid_port(s@.subrange(from as int, len as int)),
        r is Some ==> r->0 == digits_value(s@.subrange(from as int, len as int)),
{
    let ghost text = s@.subrange(from as int, len as int);
    if from == len {
        return None;
    }
    let mut value: u32 = 0;
    let mut i: usize = from;
    assert(text.subrange(0, 0) =~= Seq::<char>::empty());
    while i < len
        invariant
            len == s@.len(),
            from <= i <= len,
            text == s@.subrange(from as int, len as int),
            all_digits(text.subrange(0, i - from)),
            value == digits_value(text.subrange(0, i - from)),
            value <= MAX_PORT,
        decreases len - i,
    {
        let c = s.get_char(i);
        let ghost next = text.subrange(0, i - from + 1);
        proof {
            assert(next.drop_last() =~= text.subrange(0, i - from));
            assert(next.last() == c);
        }
        if !('0' <= c && c <= '9') {
            proof {
                assert(text[i - from] == c);
                assert(!all_digits(text));
            }
            return None;
        }
        let d: u32 = c as u32 - '0' as u32;
        let wide: u32 = value * 10 + d;
        if wide > MAX_PORT {
            proof {
                lemma_value_grows(text, i - from + 1);
            }
            return None;
        }
        value = wide;
        i += 1;
        proof {
            assert forall|j: int| 0 <= j < next.len() implies is_digit(#[trigger] next[j]) by {
                if j < next.len() - 1 {
                    assert(next[j] == text.subrange(0, i - from - 1)[j]);
                }
            }
        }
    }
    assert(text.subrange(0, i - from) =~= text);
    Some(value)
}

/// The value of a digit string is at least that of each of its prefixes.
proof fn lemma_value_grows(s: Seq<char>, k: int)
    requires
        0 <= k <= s.len(),
    ensures
        digits_value(s.subrange(0, k)) <= digits_value(s),
    decreases s.len() - k,
{
    if k == s.len() {
        assert(s.subrange(0, k) =~= s);
    } else {
        lemma_value_grows(s, k + 1);
        let longer = s.subrange(0, k + 1);
        assert(longer.drop_last() =~= s.subrange(0, k));
    }
}

/// Splits a target address into its host and its port.
///
/// Succeeds exactly on the addresses that hold at most one `:` and, after
/// it, a valid port; the result is the one that `parse_spec` gives.
pub fn parse(s: &str) -> (r: Result<(String, Option<u32>), HostPortError>)
    ensures
        match parse_spec(s@) {
            Ok((host, port)) => r is Ok && r->Ok_0.0@ == host && r->Ok_0.1 == port,
            Err(e) => r is Err && r->Err_0 == e,
        },
{
    let len = s.unicode_len();
    let i = find_separator(s, 0, len);
    if i == len {
        assert(!has_separator(s@));
        return Ok((String::from_str(s), None));
    }
    proof {
        lemma_first_separator_unique(s@, i as int);
    }
    let ghost port_text = s@.subrange(i + 1, len as int);
    let k = find_separator(s, i + 1, len);
    if k < len {
        assert(port_text[k - i - 1] == ':');
        return Err(HostPortError::TooManySeparators);
    }
    assert(!has_separator(port_text)) by {
        if has_separator(port_text) {
            let j = choose|j: int| 0 <= j < port_text.len() && port_text[j] == ':';
            assert(s@[j + i + 1] == ':');
        }
    }
    match read_port(s, i + 1, len) {
        None => Err(HostPortError::InvalidPort),
        Some(port) => {
            let host = if i == 0 {
                String::from_str("0.0.0.0")
            } else {
                String::from_str(s.substring_char(0, i))
            };
            Ok((host, Some(port)))
        },
    }
}

} // verus!
