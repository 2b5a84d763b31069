//! Identities: a principal's certificate, with its rights over files, and
//! the checks that admit an identity into a policy.

use vstd::prelude::*;

use crate::error::PolicyError;
use crate::file_rights::{rights_map_of, FileRights, RightsMap};

verus! {

/// The last line of a PEM-encoded certificate.
pub const PEM_CERTIFICATE_TRAILER: &'static str = "-----END CERTIFICATE-----";

/// Whether `suffix` is a suffix of `s`.
pub open spec fn is_suffix(suffix: Seq<char>, s: Seq<char>) -> bool {
    suffix.len() <= s.len() && s.subrange(s.len() - suffix.len(), s.len() as int) == suffix
}

/// Whether a certificate text ends with the PEM certificate trailer.
pub open spec fn has_pem_trailer(certificate: Seq<char>) -> bool {
    is_suffix(PEM_CERTIFICATE_TRAILER@, certificate)
}

/// Whether `s` ends with `suffix`.
fn ends_with(s: &str, suffix: &str) -> (r: bool)
    ensures
        r == is_suffix(suffix@, s@),
{
    let n = s.unicode_len();
    let m = suffix.unicode_len();
    if m > n {
        return false;
    }
    let mut i: usize = 0;
    while i < m
        invariant
            m <= n,
            n == s@.len(),
            m == suffix@.len(),
            i <= m,
            forall|j: int| 0 <= j < i ==> s@[n - m + j] == suffix@[j],
        decreases m - i,
    {
        if s.get_char(n - m + i) != suffix.get_char(i) {
            assert(s@.subrange(n - m, n as int)[i as int] != suffix@[i as int]);
            return false;
        }
        i += 1;
    }
    assert(s@.subrange(n - m, n as int) =~= suffix@);
    true
}

/// A point in time at the one-second resolution of X.509 validity bounds.
#[derive(Clone, Copy, Debug, PartialEq, Eq, Structural, Hash)]
pub struct CertificateTime {
    pub year: u16,
    pub month: u8,
    pub day: u8,
    pub hour: u8,
    pub minute: u8,
    pub second: u8,
}

/// Whether `a` is strictly earlier than `b`: fields compared in order, from
/// the year down to the second.
pub open spec fn time_before(a: CertificateTime, b: CertificateTime) -> bool {
    if a.year != b.year {
        a.year < b.year
    } else if a.month != b.month {
        a.month < b.month
    } else if a.day != b.day {
        a.day < b.day
    } else if a.hour != b.hour {
        a.hour < b.hour
    } else if a.minute != b.minute {
        a.minute < b.minute
    } else {
        a.second < b.second
    }
}

impl CertificateTime {
    /// Whether `self` is strictly earlier than `other`.
    pub fn is_before(&self, other: &CertificateTime) -> (r: bool)
        ensures
            r == time_before(*self, *other),
    {
        if self.year != other.year {
            self.year < other.year
        } else if self.month != other.month {
            self.month < other.month
        } else if self.day != other.day {
            self.day < other.day
        } else if self.hour != other.hour {
            self.hour < other.hour
        } else if self.minute != other.minute {
            self.minute < other.minute
        } else {
            self.second < other.second
        }
    }
}

/// The validity period of a certificate, bounds included.
#[derive(Clone, Copy, Debug, PartialEq, Eq, Structural, Hash)]
pub struct ValidityPeriod {
    pub not_before: CertificateTime,
    pub not_after: CertificateTime,
}

/// Whether `now` lies within `[not_before, not_after]`.
pub open spec fn within_period(period: ValidityPeriod, now: CertificateTime) -> bool {
    !time_before(now, period.not_before) && !time_before(period.not_after, now)
}

/// A principal's identity: its certificate, in whatever representation the
/// context needs (text in a policy document, a parsed form at run time), an
/// id, and its rights over files.
#[derive(Clone, Debug)]
pub struct Identity<U> {
    certificate: U,
    id: u32,
    file_rights: Vec<FileRights>,
}

impl<U> Identity<U> {
    /// The certificate.
    pub closed spec fn spec_certificate(&self) -> U {
        self.certificate
    }

    /// The identity's id.
    pub closed spec fn spec_id(&self) -> u32 {
        self.id
    }

    /// The identity's file rights, in policy order.
    pub closed spec fn spec_file_rights(&self) -> Seq<FileRights> {
        self.file_rights@
    }

    /// Creates an identity.
    pub fn new(certificate: U, id: u32, file_rights: Vec<FileRights>) -> (r: Identity<U>)
        ensures
            r.spec_certificate() == certificate,
            r.spec_id() == id,
            r.spec_file_rights() == file_rights@,
    {
        Identity { certificate, id, file_rights }
    }

    /// Returns the identity's file rights.
    pub fn file_rights(&self) -> (r: &Vec<FileRights>)
        ensures
            r@ == self.spec_file_rights(),
    {
        &self.file_rights
    }

    /// The identity's rights, keyed by file name; the last entry of a name wins.
    pub fn file_rights_map(&self) -> (r: RightsMap)
        ensures
            r@ == rights_map_of(self.spec_file_rights()),
    {
        FileRights::compute_right_map(self.file_rights.as_slice())
    }

    /// Returns the certificate.
    pub fn certificate(&self) -> (r: &U)
        ensures
            *r == self.spec_certificate(),
    {
        &self.certificate
    }

    /// Returns the identity's id.
    pub fn id(&self) -> (r: &u32)
        ensures
            *r == self.spec_id(),
    {
        &self.id
    }
}

impl Identity<String> {
    /// Checks the structure of the certificate text: it must end with the PEM
    /// certificate trailer, which some certificate parsers do not insist on.
    pub fn assert_valid(&self) -> (r: Result<(), PolicyError>)
        ensures
            r is Ok <==> has_pem_trailer(self.spec_certificate()@),
            r matches Err(e) ==> e == PolicyError::FormatError,
    {
        if !ends_with(self.certificate.as_str(), PEM_CERTIFICATE_TRAILER) {
            return Err(PolicyError::FormatError);
        }
        Ok(())
    }

    /// Checks the certificate's structure, then its validity period, as the
    /// certificate parser read it, against the time `now`. Both failures give
    /// the same error.
    pub fn assert_valid_at(&self, period: &ValidityPeriod, now: &CertificateTime) -> (r: Result<(), PolicyError>)
        ensures
            r is Ok <==> has_pem_trailer(self.spec_certificate()@) && within_period(*period, *now),
            r matches Err(e) ==> e == PolicyError::FormatError,
    {
        self.assert_valid()?;
        if now.is_before(&period.not_before) || period.not_after.is_before(now) {
            return Err(PolicyError::FormatError);
        }
        Ok(())
    }
}

} // verus!
