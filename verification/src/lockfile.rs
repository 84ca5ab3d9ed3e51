//! Parsing the running client's lock file into connection credentials.
//!
//! The lock file is a single colon-delimited text record. Field 2 (0-indexed)
//! is the local service's port and field 3 is the password; a record with
//! fewer than four fields is malformed. Fields beyond index 3 are ignored.

use crate::errors::ApiError;
use vstd::prelude::*;

verus! {

/// Connection credentials read from the lock file. Ephemeral: recomputed on
/// every authentication attempt, never persisted.
pub struct LockFileCredentials {
    pub port: u16,
    pub password: String,
}

/// The fields of `s` split on `':'`, empty fields kept, exactly as Rust's
/// `str::split(':')` yields them. Always at least one field.
pub open spec fn split_colon(s: Seq<char>) -> Seq<Seq<char>>
    decreases s.len(),
{
    if s.len() == 0 {
        seq![Seq::<char>::empty()]
    } else if s[0] == ':' {
        seq![Seq::<char>::empty()] + split_colon(s.drop_first())
    } else {
        let rest = split_colon(s.drop_first());
        seq![seq![s[0]] + rest[0]] + rest.drop_first()
    }
}

pub proof fn lemma_split_colon_len(s: Seq<char>)
    ensures
        split_colon(s).len() >= 1,
    decreases s.len(),
{
    if s.len() > 0 {
        lemma_split_colon_len(s.drop_first());
    }
}

/// Unrolls `split_colon` one field at a time: if the first `i` characters are
/// not colons, the first field runs up to `i` (the end, or the first colon).
proof fn lemma_split_prefix(s: Seq<char>, i: int)
    requires
        0 <= i <= s.len(),
        forall|j: int| 0 <= j < i ==> s[j] != ':',
    ensures
        i == s.len() ==> split_colon(s) =~~= seq![s],
        i < s.len() && s[i] == ':' ==> split_colon(s) =~~= seq![s.take(i)] + split_colon(
            s.skip(i + 1),
        ),
    decreases i,
{
    lemma_split_colon_len(s);
    if i == 0 {
        if s.len() == 0 {
            assert(split_colon(s) =~~= seq![s]);
        } else if s[0] == ':' {
            assert(s.take(0) =~= Seq::<char>::empty());
            assert(s.skip(1) =~= s.drop_first());
        }
    } else {
        let t = s.drop_first();
        lemma_split_colon_len(t);
        assert(forall|j: int| 0 <= j < i - 1 ==> t[j] != ':');
        lemma_split_prefix(t, i - 1);
        let rest = split_colon(t);
        if i == s.len() {
            assert(rest =~~= seq![t]);
            assert(seq![s[0]] + rest[0] =~= s);
            assert(split_colon(s) =~~= seq![s]);
        } else if s[i] == ':' {
            assert(t[i - 1] == ':');
            assert(rest =~~= seq![t.take(i - 1)] + split_colon(t.skip(i)));
            assert(t.skip(i) =~= s.skip(i + 1));
            assert(seq![s[0]] + rest[0] =~= s.take(i));
            assert(rest.drop_first() =~~= split_colon(s.skip(i + 1)));
            assert(split_colon(s) =~~= seq![s.take(i)] + split_colon(s.skip(i + 1)));
        }
    }
}

/// Splits `s` on `':'`, keeping empty fields, as `str::split(':')` does.
pub fn split_fields(s: &str) -> (r: Vec<String>)
    ensures
        r@.len() == split_colon(s@).len(),
        forall|k: int| 0 <= k < r@.len() ==> r@[k]@ == split_colon(s@)[k],
    decreases s@.len(),
{
    let n = s.unicode_len();
    let mut i: usize = 0;
    while i < n && s.get_char(i) != ':'
        invariant
            i <= n,
            n == s@.len(),
            forall|j: int| 0 <= j < i ==> s@[j] != ':',
        decreases n - i,
    {
        i += 1;
    }
    proof {
        lemma_split_prefix(s@, i as int);
    }
    if i == n {
        let mut v: Vec<String> = Vec::new();
        v.push(String::from_str(s));
        v
    } else {
        let head = s.substring_char(0, i);
        let tail = s.substring_char(i + 1, n);
        let mut rest = split_fields(tail);
        rest.insert(0, String::from_str(head));
        proof {
            assert(head@ =~= s@.take(i as int));
            assert(tail@ =~= s@.skip(i as int + 1));
        }
        rest
    }
}

pub open spec fn is_digit_char(c: char) -> bool {
    48 <= c as int && c as int <= 57
}

pub open spec fn digit_val(c: char) -> nat {
    (c as int - 48) as nat
}

pub open spec fn all_digits(s: Seq<char>) -> bool {
    s.len() > 0 && forall|i: int| 0 <= i < s.len() ==> is_digit_char(s[i])
}

/// The decimal value of a digit string.
pub open spec fn dec_value(s: Seq<char>) -> nat
    decreases s.len(),
{
    if s.len() == 0 {
        0
    } else {
        dec_value(s.drop_last()) * 10 + digit_val(s.last())
    }
}

/// A field that denotes a port: non-empty, all decimal digits, value at most
/// 65535.
pub open spec fn is_port_field(s: Seq<char>) -> bool {
    all_digits(s) && dec_value(s) <= 65535
}

proof fn lemma_dec_value_monotone(s: Seq<char>, i: int)
    requires
        0 <= i <= s.len(),
        forall|j: int| 0 <= j < s.len() ==> is_digit_char(s[j]),
    ensures
        dec_value(s) >= dec_value(s.take(i)),
    decreases s.len() - i,
{
    if i < s.len() {
        assert(s.take(i + 1).drop_last() =~= s.take(i));
        assert(dec_value(s.take(i + 1)) == dec_value(s.take(i)) * 10 + digit_val(s[i]));
        lemma_dec_value_monotone(s, i + 1);
    } else {
        assert(s.take(i) =~= s);
    }
}

/// Parses a decimal port field. Returns the value exactly when the field is
/// non-empty, all digits, and at most 65535.
pub fn parse_port(s: &str) -> (r: Option<u16>)
    ensures
        match r {
            Some(p) => is_port_field(s@) && p as nat == dec_value(s@),
            None => !is_port_field(s@),
        },
{
    let n = s.unicode_len();
    if n == 0 {
        return None;
    }
    let mut acc: u32 = 0;
    let mut i: usize = 0;
    while i < n
        invariant
            i <= n,
            n == s@.len(),
            forall|j: int| 0 <= j < i ==> is_digit_char(s@[j]),
            acc as nat == dec_value(s@.take(i as int)),
            acc <= 65535,
        decreases n - i,
    {
        let c = s.get_char(i);
        let u = c as u32;
        if u < 48 || u > 57 {
            assert(!is_digit_char(s@[i as int]));
            return None;
        }
        let d = u - 48;
        let next = acc * 10 + d;
        proof {
            assert(s@.take(i as int + 1).drop_last() =~= s@.take(i as int));
            assert(s@.take(i as int + 1).last() == s@[i as int]);
            assert(dec_value(s@.take(i as int + 1)) == acc as nat * 10 + d as nat);
        }
        if next > 65535 {
            proof {
                if forall|j: int| 0 <= j < s@.len() ==> is_digit_char(s@[j]) {
                    lemma_dec_value_monotone(s@, i as int + 1);
                }
            }
            return None;
        }
        acc = next;
        i += 1;
    }
    proof {
        assert(s@.take(n as int) =~= s@);
    }
    Some(acc as u16)
}

/// Parses the lock file's contents into connection credentials.
///
/// Exactly field 2 becomes the port and field 3 the password; with fewer than
/// four fields, or a field 2 that is not a port number, the record is
/// malformed.
pub fn parse_lockfile(content: &str) -> (r: Result<LockFileCredentials, ApiError>)
    ensures
        ({
            let fields = split_colon(content@);
            match r {
                Ok(c) => fields.len() >= 4 && is_port_field(fields[2]) && c.port as nat
                    == dec_value(fields[2]) && c.password@ == fields[3],
                Err(e) => e is MalformedLockfile && (fields.len() < 4 || !is_port_field(fields[2])),
            }
        }),
{
    let fields = split_fields(content);
    if fields.len() < 4 {
        return Err(ApiError::MalformedLockfile);
    }
    match parse_port(fields[2].as_str()) {
        Some(port) => Ok(LockFileCredentials { port, password: fields[3].clone() }),
        None => Err(ApiError::MalformedLockfile),
    }
}

} // verus!
