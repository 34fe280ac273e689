//! The single-slot bearer-credential cache.
//!
//! The cache owns one token and its absolute expiry instant; the two are
//! always replaced together, so no reader can see one without the other.
//! The caller that drives it follows the double-checked discipline: look up
//! under shared access, and only if that fails re-check and refresh under
//! exclusive access.

use vstd::prelude::*;

verus! {

/// One cached bearer credential: the opaque token and the instant (seconds
/// since the epoch) at which it stops being usable. The stored expiry
/// already includes the 60-second safety margin.
pub struct CredentialCache {
    pub token: Option<String>,
    pub expires_at: u64,
}

impl CredentialCache {
    /// The cached credential may still be handed out at instant `now`.
    pub open spec fn spec_valid_at(self, now: u64) -> bool {
        self.token is Some && now < self.expires_at
    }

    /// What a lookup at instant `now` returns.
    pub open spec fn spec_lookup(self, now: u64) -> Option<String> {
        if self.spec_valid_at(now) {
            self.token
        } else {
            None
        }
    }

    /// A cold cache: no token, expiry in the past.
    pub fn new() -> (r: Self)
        ensures
            r.token is None,
            r.expires_at == 0,
    {
        CredentialCache { token: None, expires_at: 0 }
    }

    /// Returns the cached token exactly when it is still valid at `now`.
    pub fn lookup(&self, now: u64) -> (r: Option<String>)
        ensures
            r == self.spec_lookup(now),
    {
        match &self.token {
            Some(t) => {
                if now < self.expires_at {
                    Some(t.clone())
                } else {
                    None
                }
            },
            None => None,
        }
    }

    /// Replaces the slot with a credential fetched at instant `now` whose
    /// reported lifetime is `expires_in` seconds: the stored expiry is
    /// `now + expires_in - 60`, keeping the 60-second safety margin.
    pub fn store(&mut self, now: u64, token: String, expires_in: u64)
        requires
            expires_in >= 60,
            now + expires_in - 60 <= u64::MAX,
        ensures
            final(self).token == Some(token),
            final(self).expires_at == now + expires_in - 60,
    {
        self.expires_at = now + (expires_in - 60);
        self.token = Some(token);
    }
}

/// `c` is an ASCII decimal digit.
pub open spec fn is_digit(c: char) -> bool {
    48 <= c as u32 <= 57
}

/// The value of one ASCII decimal digit.
pub open spec fn digit_val(c: char) -> nat {
    (c as u32 - 48) as nat
}

/// Every character of `s` is an ASCII decimal digit.
pub open spec fn all_digits(s: Seq<char>) -> bool {
    forall|i: int| 0 <= i < s.len() ==> is_digit(s[i])
}

/// The numeric value of a digit sequence, most significant digit first.
pub open spec fn dec_val(s: Seq<char>) -> nat
    decreases s.len(),
{
    if s.len() == 0 {
        0
    } else {
        dec_val(s.drop_last()) * 10 + digit_val(s.last())
    }
}

/// The digit run of an unsigned decimal literal: everything after an
/// optional leading plus sign.
pub open spec fn dec_digits_of(s: Seq<char>) -> Seq<char> {
    if s.len() > 0 && s[0] == '+' {
        s.drop_first()
    } else {
        s
    }
}

/// `s` is a well-formed unsigned 64-bit decimal literal: an optional plus
/// sign, then at least one digit, denoting a value that fits in a `u64`.
pub open spec fn parses_as_u64(s: Seq<char>) -> bool {
    dec_digits_of(s).len() > 0 && all_digits(dec_digits_of(s)) && dec_val(dec_digits_of(s))
        <= u64::MAX
}

/// The lifetime in seconds that a reported `expires_in` field denotes: its
/// numeric value when it is a well-formed unsigned decimal literal, and the
/// 7200-second default otherwise.
pub open spec fn lifetime_of(s: Seq<char>) -> u64 {
    if parses_as_u64(s) {
        dec_val(dec_digits_of(s)) as u64
    } else {
        7200
    }
}

/// Reads the `expires_in` field of a credential-exchange response: a
/// string-encoded number of seconds, defaulting to 7200 when it is not a
/// well-formed unsigned decimal literal.
pub fn parse_expires_in(s: &str) -> (r: u64)
    ensures
        r == lifetime_of(s@),
{
    let len = s.unicode_len();
    let start: usize = if len > 0 && (s.get_char(0) as u32) == 43 {
        1
    } else {
        0
    };
    proof {
        if start == 1 {
            assert(s@[0] == '+');
            assert(dec_digits_of(s@) =~= s@.subrange(1, len as int));
        } else {
            if s@.len() > 0 {
                assert(s@[0] != '+');
            }
            assert(dec_digits_of(s@) =~= s@.subrange(0, len as int));
        }
    }
    if len == start {
        return 7200;
    }
    let mut acc: u64 = 0;
    let mut overflow = false;
    let mut i: usize = start;
    while i < len
        invariant
            start <= i <= len,
            len == s@.len(),
            dec_digits_of(s@) =~= s@.subrange(start as int, len as int),
            forall|j: int| start <= j < i ==> is_digit(s@[j]),
            !overflow ==> acc as nat == dec_val(s@.subrange(start as int, i as int)),
            overflow ==> dec_val(s@.subrange(start as int, i as int)) > u64::MAX,
        decreases len - i,
    {
        let v = s.get_char(i) as u32;
        if v < 48 || v > 57 {
            proof {
                assert(!is_digit(dec_digits_of(s@)[i - start]));
            }
            return 7200;
        }
        let d = (v - 48) as u64;
        proof {
            let pre = s@.subrange(start as int, i + 1);
            assert(pre.drop_last() =~= s@.subrange(start as int, i as int));
            assert(pre.last() == s@[i as int]);
        }
        if overflow {
            proof {
                let old_val = dec_val(s@.subrange(start as int, i as int));
                assert(old_val * 10 >= old_val) by (nonlinear_arith)
                    requires
                        old_val >= 0,
                ;
            }
        } else {
            match acc.checked_mul(10) {
                Some(m) => match m.checked_add(d) {
                    Some(a) => {
                        acc = a;
                    },
                    None => {
                        overflow = true;
                    },
                },
                None => {
                    overflow = true;
                },
            }
        }
        i += 1;
    }
    proof {
        assert(s@.subrange(start as int, len as int) =~= dec_digits_of(s@));
        assert(all_digits(dec_digits_of(s@)));
    }
    if overflow {
        7200
    } else {
        acc
    }
}

/// Law: once one refresh has filled the slot, every caller that re-checks
/// the cache at an instant inside the validity window receives that same
/// stored token. Under the double-checked discipline this is why at most
/// one exchange is issued per expiry cycle: the refresher stores under
/// exclusive access, and each later caller's re-check succeeds and returns
/// the same token instead of fetching again.
pub proof fn lemma_refresh_serves_all_callers(c: CredentialCache, token: String, times: Seq<u64>)
    requires
        c.token == Some(token),
        forall|i: int| 0 <= i < times.len() ==> times[i] < c.expires_at,
    ensures
        forall|i: int| 0 <= i < times.len() ==> c.spec_lookup(times[i]) == Some(token),
{
    assert forall|i: int| 0 <= i < times.len() implies c.spec_lookup(times[i]) == Some(token) by {
        assert(times[i] < c.expires_at);
    }
}

/// What one caller holding exclusive access does, after its shared-access
/// check failed: re-check the cache at its instant `now`, and only if the
/// credential is still invalid perform an exchange — counted here — and
/// store what it yielded (`fresh_token`, already carrying its computed
/// expiry `fresh_expiry`). The caller walks away with the token it saw.
pub open spec fn writer_step(
    c: CredentialCache,
    exchanges: nat,
    now: u64,
    fresh_token: String,
    fresh_expiry: u64,
) -> (CredentialCache, nat, String) {
    if c.spec_valid_at(now) {
        (c, exchanges, c.token->Some_0)
    } else {
        (
            CredentialCache { token: Some(fresh_token), expires_at: fresh_expiry },
            exchanges + 1,
            fresh_token,
        )
    }
}

/// A burst of callers taking their exclusive-access turns in order:
/// caller `i` re-checks at `times[i]`, and `fresh[i]` is the credential an
/// exchange would yield for it. Yields the final cache, the number of
/// exchanges performed, and what each caller received.
pub open spec fn run_writers(
    c: CredentialCache,
    exchanges: nat,
    times: Seq<u64>,
    fresh: Seq<(String, u64)>,
) -> (CredentialCache, nat, Seq<String>)
    decreases times.len(),
{
    if times.len() == 0 {
        (c, exchanges, Seq::empty())
    } else {
        let step = writer_step(c, exchanges, times[0], fresh[0].0, fresh[0].1);
        let rest = run_writers(step.0, step.1, times.drop_first(), fresh.drop_first());
        (rest.0, rest.1, seq![step.2] + rest.2)
    }
}

/// While the cached credential stays valid at every caller's instant, no
/// caller exchanges: the cache is left as it was, and every caller
/// receives the stored token.
proof fn lemma_warm_burst_no_exchange(
    c: CredentialCache,
    exchanges: nat,
    times: Seq<u64>,
    fresh: Seq<(String, u64)>,
)
    requires
        c.token is Some,
        times.len() == fresh.len(),
        forall|i: int| 0 <= i < times.len() ==> times[i] < c.expires_at,
    ensures
        run_writers(c, exchanges, times, fresh).0 == c,
        run_writers(c, exchanges, times, fresh).1 == exchanges,
        run_writers(c, exchanges, times, fresh).2.len() == times.len(),
        forall|i: int|
            0 <= i < times.len() ==> run_writers(c, exchanges, times, fresh).2[i] == c.token
                ->Some_0,
    decreases times.len(),
{
    if times.len() > 0 {
        assert(c.spec_valid_at(times[0]));
        lemma_warm_burst_no_exchange(c, exchanges, times.drop_first(), fresh.drop_first());
        let out = run_writers(c, exchanges, times, fresh);
        let rest = run_writers(c, exchanges, times.drop_first(), fresh.drop_first());
        assert forall|i: int| 0 <= i < times.len() implies out.2[i] == c.token->Some_0 by {
            if i > 0 {
                assert(out.2[i] == rest.2[i - 1]);
            }
        }
    }
}

/// Law: for a burst of concurrent credential requests that all find the
/// cache cold, under the double-checked discipline — every caller whose
/// shared-access check failed takes one serialized exclusive-access turn,
/// and every turn's re-check falls inside the first refresh's validity
/// window — exactly one underlying exchange occurs, and every caller
/// receives the token that this one exchange stored: no duplicate
/// exchanges, no mixed results.
pub proof fn lemma_cold_burst_single_flight(
    c: CredentialCache,
    times: Seq<u64>,
    fresh: Seq<(String, u64)>,
)
    requires
        c.token is None,
        times.len() >= 1,
        times.len() == fresh.len(),
        forall|i: int| 1 <= i < times.len() ==> times[i] < fresh[0].1,
    ensures
        run_writers(c, 0, times, fresh).1 == 1,
        run_writers(c, 0, times, fresh).2.len() == times.len(),
        forall|i: int| 0 <= i < times.len() ==> run_writers(c, 0, times, fresh).2[i] == fresh[0].0,
{
    let stored = CredentialCache { token: Some(fresh[0].0), expires_at: fresh[0].1 };
    assert(!c.spec_valid_at(times[0]));
    assert(writer_step(c, 0, times[0], fresh[0].0, fresh[0].1) == (stored, 1nat, fresh[0].0));
    assert(forall|i: int|
        0 <= i < times.drop_first().len() ==> times.drop_first()[i] < stored.expires_at);
    lemma_warm_burst_no_exchange(stored, 1nat, times.drop_first(), fresh.drop_first());
    let out = run_writers(c, 0, times, fresh);
    let rest = run_writers(stored, 1nat, times.drop_first(), fresh.drop_first());
    assert forall|i: int| 0 <= i < times.len() implies out.2[i] == fresh[0].0 by {
        if i > 0 {
            assert(out.2[i] == rest.2[i - 1]);
        }
    }
}

/// Law: a credential stored at instant `fetched_at` with reported lifetime
/// `expires_in` is valid at every instant strictly before
/// `fetched_at + expires_in - 60`, and invalid at that instant and after.
pub proof fn lemma_validity_window(c: CredentialCache, fetched_at: u64, expires_in: u64, t: u64)
    requires
        c.token is Some,
        expires_in >= 60,
        c.expires_at == fetched_at + expires_in - 60,
    ensures
        c.spec_valid_at(t) <==> t < fetched_at + expires_in - 60,
{
}

} // verus!
