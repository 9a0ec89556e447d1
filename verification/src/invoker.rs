//! The identity of the invoking user, as the environment gives it.
//!
//! Whoever started the process as root leaves the user it acted for in two
//! environment variables, each a decimal number. The caller reads them; this
//! module says what they mean.

use vstd::prelude::*;
use vstd::string::StrSliceExecFns;
use crate::error::{ConfigFault, Error};
use crate::identity::Identity;

verus! {

/// The name of the variable that holds the invoking user's id.
pub const SUDO_UID: &'static str = "SUDO_UID";

/// The name of the variable that holds the invoking user's group id.
pub const SUDO_GID: &'static str = "SUDO_GID";

/// `c` is one of the characters `0` to `9`.
pub open spec fn is_digit(c: char) -> bool {
    48 <= c as u32 && c as u32 <= 57
}

/// The number that a digit stands for.
pub open spec fn digit_value(c: char) -> nat
    recommends
        is_digit(c),
{
    (c as u32 - 48) as nat
}

/// Every character of `s` is a digit.
pub open spec fn all_digits(s: Seq<char>) -> bool {
    forall|i: int| 0 <= i < s.len() ==> is_digit(#[trigger] s[i])
}

/// The number that a sequence of digits writes in base ten. The empty
/// sequence writes 0, and leading zeros do not count.
pub open spec fn decimal_value(s: Seq<char>) -> nat
    recommends
        all_digits(s),
    decreases s.len(),
{
    if s.len() == 0 {
        0
    } else {
        10 * decimal_value(s.drop_last()) + digit_value(s.last())
    }
}

/// The digits of a number: what follows a plus sign, or all of `s` if it
/// starts with no plus sign or consists of nothing else.
pub open spec fn digits_of(s: Seq<char>) -> Seq<char> {
    if s.len() > 1 && s[0] == '+' {
        s.subrange(1, s.len() as int)
    } else {
        s
    }
}

/// The unsigned 32-bit number that `s` writes, if it writes one: an optional
/// plus sign, then at least one digit and nothing but digits, with a value of
/// at most `u32::MAX`.
pub open spec fn parse_id_spec(s: Seq<char>) -> Option<u32> {
    let d = digits_of(s);
    if d.len() > 0 && all_digits(d) && decimal_value(d) <= u32::MAX {
        Some(decimal_value(d) as u32)
    } else {
        None
    }
}

/// Reading more digits never makes the number smaller.
proof fn lemma_prefix_value(d: Seq<char>, k: int)
    requires
        0 <= k <= d.len(),
    ensures
        decimal_value(d.take(k)) <= decimal_value(d),
    decreases d.len(),
{
    if k == d.len() {
        assert(d.take(k) =~= d);
    } else {
        assert(d.drop_last().take(k) =~= d.take(k));
        lemma_prefix_value(d.drop_last(), k);
    }
}

/// Reads an unsigned 32-bit decimal number, as `str::parse::<u32>` does.
pub fn parse_id(s: &str) -> (r: Option<u32>)
    ensures
        r == parse_id_spec(s@),
{
    let n: usize = s.unicode_len();
    let start: usize = if n > 1 && s.get_char(0) == '+' {
        1
    } else {
        0
    };
    if start == n {
        return None;
    }
    let ghost d = digits_of(s@);
    assert(d =~= s@.subrange(start as int, n as int));
    let mut acc: u32 = 0;
    let mut i: usize = start;
    assert(d.take(0) =~= Seq::<char>::empty());
    while i < n
        invariant
            start <= i <= n,
            n == s@.len(),
            d == s@.subrange(start as int, n as int),
            d == digits_of(s@),
            d.len() > 0,
            all_digits(d.take(i - start)),
            acc == decimal_value(d.take(i - start)),
        decreases n - i,
    {
        let c = s.get_char(i);
        let code: u32 = c as u32;
        let ghost k = i - start;
        assert(d[k] == c);
        assert(d.take(k + 1).drop_last() =~= d.take(k));
        assert(d.take(k + 1).last() == c);
        if code < 48 || code > 57 {
            assert(!is_digit(d[k]));
            return None;
        }
        let digit: u32 = code - 48;
        proof {
            lemma_prefix_value(d, k + 1);
        }
        let scaled: u32 = match acc.checked_mul(10) {
            Some(m) => m,
            None => {
                return None;
            },
        };
        acc = match scaled.checked_add(digit) {
            Some(v) => v,
            None => {
                return None;
            },
        };
        i = i + 1;
        assert forall|j: int| 0 <= j < d.take(k + 1).len() implies is_digit(
            #[trigger] d.take(k + 1)[j],
        ) by {
            if j < k {
                assert(d.take(k)[j] == d.take(k + 1)[j]);
            }
        }
    }
    assert(d.take(n - start) =~= d);
    Some(acc)
}

/// The two values of the environment that name the invoking user, each as
/// it was found: `None` where the variable is not set.
#[derive(PartialEq, Eq, Debug)]
pub struct SudoEnv {
    /// The value of the variable named [`SUDO_UID`].
    pub uid: Option<String>,
    /// The value of the variable named [`SUDO_GID`].
    pub gid: Option<String>,
}

/// A [`SudoEnv`] as plain values.
pub struct SudoEnvView {
    pub uid: Option<Seq<char>>,
    pub gid: Option<Seq<char>>,
}

impl View for SudoEnv {
    type V = SudoEnvView;

    open spec fn view(&self) -> SudoEnvView {
        SudoEnvView {
            uid: match self.uid {
                Some(s) => Some(s@),
                None => None,
            },
            gid: match self.gid {
                Some(s) => Some(s@),
                None => None,
            },
        }
    }
}

/// The identity that the environment names, or what is wrong with it.
///
/// The user id is looked at first, then the group id; that the user is root
/// is found last. A group id of 0 is accepted.
pub open spec fn invoking_identity_spec(env: SudoEnvView) -> Result<Identity, Error> {
    match env.uid {
        None => Err(Error::ConfigError(ConfigFault::MissingUid)),
        Some(u) => match parse_id_spec(u) {
            None => Err(Error::ConfigError(ConfigFault::MalformedUid)),
            Some(uid) => match env.gid {
                None => Err(Error::ConfigError(ConfigFault::MissingGid)),
                Some(g) => match parse_id_spec(g) {
                    None => Err(Error::ConfigError(ConfigFault::MalformedGid)),
                    Some(gid) => if uid == 0 {
                        Err(Error::ConfigError(ConfigFault::RootUid))
                    } else {
                        Ok(Identity { uid, gid })
                    },
                },
            },
        },
    }
}

/// The identity of the invoking user, from the two values of the
/// environment. Root is refused: it is no identity to lower to.
pub fn invoking_identity(env: &SudoEnv) -> (r: Result<Identity, Error>)
    ensures
        r == invoking_identity_spec(env@),
{
    let uid: u32 = match &env.uid {
        None => {
            return Err(Error::ConfigError(ConfigFault::MissingUid));
        },
        Some(text) => match parse_id(text.as_str()) {
            None => {
                return Err(Error::ConfigError(ConfigFault::MalformedUid));
            },
            Some(uid) => uid,
        },
    };
    let gid: u32 = match &env.gid {
        None => {
            return Err(Error::ConfigError(ConfigFault::MissingGid));
        },
        Some(text) => match parse_id(text.as_str()) {
            None => {
                return Err(Error::ConfigError(ConfigFault::MalformedGid));
            },
            Some(gid) => gid,
        },
    };
    if uid == 0 {
        return Err(Error::ConfigError(ConfigFault::RootUid));
    }
    Ok(Identity { uid, gid })
}

} // verus!
