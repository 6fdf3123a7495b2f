use crate::error::GovernanceError;
use crate::state::proposal::MAX_DESCRIPTION_LEN;
use crate::state::proposal::MAX_TITLE_LEN;
use vstd::prelude::*;
use vstd::utf8::encode_utf8;

verus! {

/// Percentage calculation base: 100.00% expressed in basis points.
pub const PERCENTAGE_BASE: u16 = 10000;

/// Shortest accepted voting period in test mode, in seconds.
pub const MIN_TEST_VOTING_PERIOD: u64 = 30;

/// Shortest accepted voting period in production mode: one day, in seconds.
pub const MIN_VOTING_PERIOD: u64 = 86400;

/// Longest accepted voting period: thirty days, in seconds.
pub const MAX_VOTING_PERIOD: u64 = 2592000;

/// `p` is a prefix of `s`.
pub open spec fn spec_has_prefix(s: Seq<u8>, p: Seq<u8>) -> bool {
    p.len() <= s.len() && s.subrange(0, p.len() as int) == p
}

fn bytes_has_prefix(s: &[u8], p: &[u8]) -> (r: bool)
    ensures
        r == spec_has_prefix(s@, p@),
{
    if p.len() > s.len() {
        return false;
    }
    let mut i: usize = 0;
    while i < p.len()
        invariant
            p@.len() <= s@.len(),
            i <= p@.len(),
            forall|k: int| 0 <= k < i ==> s@[k] == p@[k],
        decreases p@.len() - i,
    {
        if s[i] != p[i] {
            proof {
                assert(s@.subrange(0, p@.len() as int)[i as int] == s@[i as int]);
            }
            return false;
        }
        i = i + 1;
    }
    proof {
        assert(s@.subrange(0, p@.len() as int) =~= p@);
    }
    true
}

fn bytes_eq(a: &[u8], b: &[u8]) -> (r: bool)
    ensures
        r == (a@ == b@),
{
    if a.len() != b.len() {
        return false;
    }
    let mut i: usize = 0;
    while i < a.len()
        invariant
            a@.len() == b@.len(),
            i <= a@.len(),
            forall|k: int| 0 <= k < i ==> a@[k] == b@[k],
        decreases a@.len() - i,
    {
        if a[i] != b[i] {
            return false;
        }
        i = i + 1;
    }
    proof {
        assert(a@ =~= b@);
    }
    true
}

/// The two strings hold the same text. UTF-8 encoding is injective, so
/// comparing the byte encodings decides equality of the views.
pub fn str_eq(a: &str, b: &str) -> (r: bool)
    ensures
        r == (a@ == b@),
{
    let r = bytes_eq(a.as_bytes(), b.as_bytes());
    proof {
        if encode_utf8(a@) == encode_utf8(b@) {
            vstd::utf8::encode_utf8_decode_utf8(a@);
            vstd::utf8::encode_utf8_decode_utf8(b@);
        }
    }
    r
}

/// A rule-document URL must use one of the accepted schemes.
pub open spec fn spec_valid_url(s: Seq<char>) -> bool {
    ||| spec_has_prefix(encode_utf8(s), encode_utf8("https://"@))
    ||| spec_has_prefix(encode_utf8(s), encode_utf8("ipfs://"@))
    ||| spec_has_prefix(encode_utf8(s), encode_utf8("ar://"@))
}

/// Validate URL format: it must start with an accepted scheme.
pub fn validate_url(url: &str) -> (r: bool)
    ensures
        r == spec_valid_url(url@),
{
    bytes_has_prefix(url.as_bytes(), "https://".as_bytes()) || bytes_has_prefix(
        url.as_bytes(),
        "ipfs://".as_bytes(),
    ) || bytes_has_prefix(url.as_bytes(), "ar://".as_bytes())
}

/// The byte is an ASCII hexadecimal digit.
pub open spec fn spec_is_hex_digit(b: u8) -> bool {
    (48 <= b && b <= 57) || (65 <= b && b <= 70) || (97 <= b && b <= 102)
}

/// A rule-document hash is 64 hexadecimal digits.
pub open spec fn spec_valid_hash(s: Seq<char>) -> bool {
    &&& encode_utf8(s).len() == 64
    &&& forall|i: int| 0 <= i < 64 ==> spec_is_hex_digit(#[trigger] encode_utf8(s)[i])
}

/// Validate hash format: a 64-digit hexadecimal string.
pub fn validate_hash(hash: &str) -> (r: bool)
    ensures
        r == spec_valid_hash(hash@),
{
    let b = hash.as_bytes();
    if b.len() != 64 {
        return false;
    }
    let mut i: usize = 0;
    while i < 64
        invariant
            b@ == encode_utf8(hash@),
            b@.len() == 64,
            i <= 64,
            forall|k: int| 0 <= k < i ==> spec_is_hex_digit(#[trigger] b@[k]),
        decreases 64 - i,
    {
        let c = b[i];
        if !((48 <= c && c <= 57) || (65 <= c && c <= 70) || (97 <= c && c <= 102)) {
            return false;
        }
        i = i + 1;
    }
    true
}

/// Validate a voting period against the mode's bounds: test mode allows
/// short windows, production mode requires at least one day; both cap at
/// thirty days.
pub fn validate_voting_period(voting_period: u64, test_mode: bool) -> (r: Result<
    (),
    GovernanceError,
>)
    ensures
        r is Ok <==> (if test_mode {
            MIN_TEST_VOTING_PERIOD <= voting_period <= MAX_VOTING_PERIOD
        } else {
            MIN_VOTING_PERIOD <= voting_period <= MAX_VOTING_PERIOD
        }),
        r is Err ==> r == Err::<(), GovernanceError>(GovernanceError::InvalidVotingPeriod),
{
    if test_mode {
        if voting_period < MIN_TEST_VOTING_PERIOD {
            return Err(GovernanceError::InvalidVotingPeriod);
        }
        if voting_period > MAX_VOTING_PERIOD {
            return Err(GovernanceError::InvalidVotingPeriod);
        }
    } else {
        if voting_period < MIN_VOTING_PERIOD {
            return Err(GovernanceError::InvalidVotingPeriod);
        }
        if voting_period > MAX_VOTING_PERIOD {
            return Err(GovernanceError::InvalidVotingPeriod);
        }
    }
    Ok(())
}

/// Validate proposal title and description byte lengths.
pub fn validate_proposal_content(title: &str, description: &str) -> (r: Result<
    (),
    GovernanceError,
>)
    ensures
        r is Ok <==> (encode_utf8(title@).len() <= MAX_TITLE_LEN && encode_utf8(
            description@,
        ).len() <= MAX_DESCRIPTION_LEN),
        encode_utf8(title@).len() > MAX_TITLE_LEN ==> r == Err::<(), GovernanceError>(
            GovernanceError::InvalidProposalTitleLength,
        ),
        encode_utf8(title@).len() <= MAX_TITLE_LEN && encode_utf8(description@).len()
            > MAX_DESCRIPTION_LEN ==> r == Err::<(), GovernanceError>(
            GovernanceError::InvalidProposalDescriptionLength,
        ),
{
    if title.as_bytes().len() > MAX_TITLE_LEN {
        return Err(GovernanceError::InvalidProposalTitleLength);
    }
    if description.as_bytes().len() > MAX_DESCRIPTION_LEN {
        return Err(GovernanceError::InvalidProposalDescriptionLength);
    }
    Ok(())
}

/// A record that tracks when it was last updated.
pub trait TimestampUpdatable {
    /// The last-update field, as contracts see it.
    spec fn spec_updated_at(&self) -> i64;

    /// Overwrite the last-update field.
    fn set_updated_at(&mut self, timestamp: i64)
        ensures
            final(self).spec_updated_at() == timestamp,
    ;
}

/// Stamp a record with the supplied current time.
pub fn update_timestamp<T: TimestampUpdatable>(account: &mut T, now: i64) -> (r: Result<
    (),
    GovernanceError,
>)
    ensures
        r is Ok,
        final(account).spec_updated_at() == now,
{
    account.set_updated_at(now);
    Ok(())
}

} // verus!
