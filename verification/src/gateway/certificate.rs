//! Certificates: what they hold and when they have to be renewed.

use crate::timestamp::{Timestamp, NANOS_PER_SEC};
use vstd::prelude::*;
use vstd::utf8::encode_utf8;

verus! {

/// The days before the end of a certificate in which it is renewed.
pub const RENEWAL_VALIDITY_THRESHOLD_IN_DAYS: i64 = 30;

/// The seconds of a day.
pub const SECS_PER_DAY: i64 = 86_400;

/// A bound on the seconds between the epoch and any date within a million years of it.
pub const CALENDAR_SECS: i64 = 40_000_000_000_000;

/// Whether a date that a calendar can hold falls on this point in time.
pub open spec fn in_calendar(t: Timestamp) -> bool {
    t.valid() && -CALENDAR_SECS < t.secs < CALENDAR_SECS
}

/// `r` as contracts speak of it.
pub open spec fn pem_view(r: Result<Vec<u8>, String>) -> Result<Seq<u8>, Seq<char>> {
    match r {
        Ok(v) => Ok(v@),
        Err(e) => Err(e@),
    }
}

/// `r` as contracts speak of it.
pub open spec fn not_after_view(r: Result<Timestamp, String>) -> Result<Timestamp, Seq<char>> {
    match r {
        Ok(t) => Ok(t),
        Err(e) => Err(e@),
    }
}

/// What `x509_parser::pem::parse_x509_pem` makes of a text: the contents of the first block of
/// it, or the text of an error.
pub uninterp spec fn first_pem_block(text: Seq<u8>) -> Result<Seq<u8>, Seq<char>>;

/// What `x509_parser::parse_x509_certificate` makes of the contents of a block: the end of the
/// validity of the certificate, or the text of an error.
pub uninterp spec fn x509_not_after(der: Seq<u8>) -> Result<Timestamp, Seq<char>>;

/// The text of a `time::Duration` of these seconds and nanoseconds.
pub uninterp spec fn duration_text(secs: i64, nanos: u32) -> Seq<char>;

/// The contents of the first block of a text, by `x509_parser::pem::parse_x509_pem`, which
/// depends on the text alone. How blocks are marked and written is left to that function.
#[verifier::external_body]
fn parse_pem(text: &[u8]) -> (r: Result<Vec<u8>, String>)
    ensures
        pem_view(r) == first_pem_block(text@),
{
    match x509_parser::pem::parse_x509_pem(text) {
        Ok((_, pem)) => Ok(pem.contents),
        Err(err) => Err(err.to_string()),
    }
}

/// The end of the validity of a certificate, by `x509_parser::parse_x509_certificate`, which
/// depends on the contents alone. Its date has a year of at most six digits. How a certificate is
/// written is left to that function.
#[verifier::external_body]
fn parse_not_after(der: &[u8]) -> (r: Result<Timestamp, String>)
    ensures
        not_after_view(r) == x509_not_after(der@),
        r is Ok ==> in_calendar(r->Ok_0),
{
    match x509_parser::parse_x509_certificate(der) {
        Ok((_, x509)) => {
            let end = x509.validity().not_after;
            Ok(Timestamp { secs: end.timestamp(), nanos: end.to_datetime().nanosecond() })
        },
        Err(err) => Err(err.to_string()),
    }
}

/// The present, by `x509_parser::time::ASN1Time::now`: whatever the clock says, it is a date with
/// a year of at most six digits.
#[verifier::external_body]
pub(crate) fn now() -> (r: Timestamp)
    ensures
        in_calendar(r),
{
    let present = x509_parser::time::ASN1Time::now();
    Timestamp { secs: present.timestamp(), nanos: present.to_datetime().nanosecond() }
}

/// The text of a `time::Duration`, which depends on its seconds and nanoseconds alone. The form
/// of the text is left to that type.
#[verifier::external_body]
fn show_duration(secs: i64, nanos: u32) -> (r: String)
    requires
        nanos < NANOS_PER_SEC,
    ensures
        r@ == duration_text(secs, nanos),
{
    time::Duration::new(secs, nanos as i32).to_string()
}

/// A length of time: whole seconds and the nanoseconds that follow them.
#[derive(Debug, Clone, Copy, PartialEq, Eq, Structural)]
pub struct Span {
    pub secs: i64,
    pub nanos: u32,
}

impl Span {
    /// The length in nanoseconds.
    pub open spec fn total(self) -> int {
        self.secs * NANOS_PER_SEC + self.nanos
    }

    /// Whether the nanoseconds make up less than a second.
    pub open spec fn valid(self) -> bool {
        self.secs >= 0 && self.nanos < NANOS_PER_SEC
    }

    /// The whole days.
    pub open spec fn days(self) -> int {
        self.secs as int / SECS_PER_DAY as int
    }

    /// The whole days.
    pub fn whole_days(&self) -> (r: i64)
        requires
            self.valid(),
        ensures
            r == self.days(),
            r * 86_400 <= self.secs < (r + 1) * 86_400,
    {
        self.secs / SECS_PER_DAY
    }

    /// The length as text.
    pub fn text(&self) -> (r: String)
        requires
            self.valid(),
        ensures
            r@ == duration_text(self.secs, self.nanos),
    {
        show_duration(self.secs, self.nanos)
    }
}

/// The time from `now` to `end`: `None` if the end has come.
pub open spec fn remaining(end: Timestamp, now: Timestamp) -> Option<Span> {
    if end.since_epoch() > now.since_epoch() {
        let nanos = end.since_epoch() - now.since_epoch();
        Some(
            Span {
                secs: (nanos / NANOS_PER_SEC as int) as i64,
                nanos: (nanos % NANOS_PER_SEC as int) as u32,
            },
        )
    } else {
        None
    }
}

/// The time from `now` to `end`.
pub fn time_left(end: Timestamp, now: Timestamp) -> (r: Option<Span>)
    requires
        in_calendar(end),
        in_calendar(now),
    ensures
        r == remaining(end, now),
        r is Some ==> r->0.valid(),
{
    if end.is_after(&now) {
        let mut secs: i64 = end.secs - now.secs;
        let nanos: u32 = if end.nanos >= now.nanos {
            end.nanos - now.nanos
        } else {
            secs -= 1;
            end.nanos + NANOS_PER_SEC - now.nanos
        };
        proof {
            let all = end.since_epoch() - now.since_epoch();
            assert(all == secs * NANOS_PER_SEC + nanos);
            vstd::arithmetic::div_mod::lemma_fundamental_div_mod_converse(
                all,
                NANOS_PER_SEC as int,
                secs as int,
                nanos as int,
            );
        }
        Some(Span { secs, nanos })
    } else {
        None
    }
}

/// Whether a certificate that ends at `end` is to be renewed: it has ended, or is in its last
/// thirty days.
pub open spec fn due(end: Timestamp, now: Timestamp) -> bool {
    match remaining(end, now) {
        Some(span) => span.days() <= RENEWAL_VALIDITY_THRESHOLD_IN_DAYS,
        None => true,
    }
}

/// A certificate is to be renewed exactly if less than thirty-one days are left of it.
pub proof fn law_due_within_a_month(end: Timestamp, now: Timestamp)
    requires
        in_calendar(end),
        in_calendar(now),
    ensures
        due(end, now) <==> end.since_epoch() - now.since_epoch() < 31 * SECS_PER_DAY
            * NANOS_PER_SEC,
{
    lemma_remaining(end, now);
}

proof fn lemma_remaining(end: Timestamp, now: Timestamp)
    requires
        in_calendar(end),
        in_calendar(now),
    ensures
        match remaining(end, now) {
            Some(span) => span.valid() && span.total() == end.since_epoch() - now.since_epoch(),
            None => end.since_epoch() <= now.since_epoch(),
        },
{
    let nanos = end.since_epoch() - now.since_epoch();
    vstd::arithmetic::div_mod::lemma_fundamental_div_mod(nanos, NANOS_PER_SEC as int);
}

/// A certificate that is to be renewed stays so as time goes by.
pub proof fn law_due_stays_due(end: Timestamp, now: Timestamp, later: Timestamp)
    requires
        in_calendar(end),
        in_calendar(now),
        in_calendar(later),
        now.since_epoch() <= later.since_epoch(),
        due(end, now),
    ensures
        due(end, later),
{
    law_due_within_a_month(end, now);
    law_due_within_a_month(end, later);
}

/// Whether a certificate has to be renewed, and how long it is valid if not.
#[derive(Debug, Clone, Copy, PartialEq, Eq, Structural)]
pub enum Verdict {
    Renew,
    Keep(Span),
}

/// Whether a certificate that ends at `end` has to be renewed.
pub open spec fn verdict(end: Timestamp, now: Timestamp) -> Verdict {
    if due(end, now) {
        Verdict::Renew
    } else {
        Verdict::Keep(remaining(end, now)->0)
    }
}

/// Whether a certificate that ends at `end` has to be renewed.
pub fn judge(end: Timestamp, now: Timestamp) -> (r: Verdict)
    requires
        in_calendar(end),
        in_calendar(now),
    ensures
        r == verdict(end, now),
        r matches Verdict::Keep(span) ==> span.valid(),
{
    match time_left(end, now) {
        Some(span) => if span.whole_days() <= RENEWAL_VALIDITY_THRESHOLD_IN_DAYS {
            Verdict::Renew
        } else {
            Verdict::Keep(span)
        },
        None => Verdict::Renew,
    }
}

/// Why the end of a certificate could not be told.
#[derive(Debug, PartialEq, Eq)]
pub enum Malformed {
    /// The text holds no readable block.
    Pem(String),
    /// The first block holds no certificate.
    X509(String),
}

/// A [`Malformed`] as contracts speak of it.
pub enum MalformedView {
    Pem(Seq<char>),
    X509(Seq<char>),
}

impl View for Malformed {
    type V = MalformedView;

    open spec fn view(&self) -> MalformedView {
        match *self {
            Malformed::Pem(e) => MalformedView::Pem(e@),
            Malformed::X509(e) => MalformedView::X509(e@),
        }
    }
}

/// The end of the certificate in the first block of a text, given what its bytes and the contents
/// of the block are read as.
pub open spec fn end_of(
    block: Result<Seq<u8>, Seq<char>>,
    not_after: spec_fn(Seq<u8>) -> Result<Timestamp, Seq<char>>,
) -> Result<Timestamp, MalformedView> {
    match block {
        Ok(der) => match not_after(der) {
            Ok(end) => Ok(end),
            Err(e) => Err(MalformedView::X509(e)),
        },
        Err(e) => Err(MalformedView::Pem(e)),
    }
}

/// The end of the certificate in the first block of a text.
pub open spec fn certificate_end(pem: Seq<char>) -> Result<Timestamp, MalformedView> {
    end_of(first_pem_block(encode_utf8(pem)), |der: Seq<u8>| x509_not_after(der))
}

/// The end of the certificate in the first block of a text.
pub fn read_certificate_end(pem: &str) -> (r: Result<Timestamp, Malformed>)
    ensures
        match r {
            Ok(end) => certificate_end(pem@) == Ok::<Timestamp, MalformedView>(end)
                && in_calendar(end),
            Err(e) => certificate_end(pem@) == Err::<Timestamp, MalformedView>(e@),
        },
{
    match parse_pem(pem.as_bytes()) {
        Ok(der) => match parse_not_after(der.as_slice()) {
            Ok(end) => Ok(end),
            Err(e) => Err(Malformed::X509(e)),
        },
        Err(e) => Err(Malformed::Pem(e)),
    }
}

/// The bytes of a certificate chain, followed by those of its private key.
pub open spec fn bundle(certificate: Seq<char>, private_key: Seq<char>) -> Seq<u8> {
    encode_utf8(certificate) + encode_utf8(private_key)
}

/// The bytes of a certificate chain, followed by those of its private key.
pub fn pem_bundle(certificate: &str, private_key: &str) -> (r: Vec<u8>)
    ensures
        r@ == bundle(certificate@, private_key@),
{
    let mut buf: Vec<u8> = Vec::new();
    buf.extend_from_slice(certificate.as_bytes());
    buf.extend_from_slice(private_key.as_bytes());
    assert(buf@ =~= bundle(certificate@, private_key@));
    buf
}

/// Time is left exactly if the end is later than the present, and it is the difference between the
/// two to the nanosecond. Its days are whole ones.
pub proof fn law_time_left_is_the_difference(end: Timestamp, now: Timestamp)
    requires
        in_calendar(end),
        in_calendar(now),
    ensures
        ({
            let e = end.secs * 1_000_000_000 + end.nanos;
            let n = now.secs * 1_000_000_000 + now.nanos;
            match remaining(end, now) {
                Some(span) => {
                    &&& e > n
                    &&& span.secs * 1_000_000_000 + span.nanos == e - n
                    &&& span.secs >= 0
                    &&& span.nanos < 1_000_000_000
                    &&& span.days() * 86_400 <= span.secs < (span.days() + 1) * 86_400
                },
                None => e <= n,
            }
        }),
{
    lemma_remaining(end, now);
}

/// A certificate with thirty-one days or more is kept, and told for how long to the nanosecond. One
/// with less is renewed, and so is one that has ended.
pub proof fn law_verdict_by_the_time_left(end: Timestamp, now: Timestamp)
    requires
        in_calendar(end),
        in_calendar(now),
    ensures
        ({
            let e = end.secs * 1_000_000_000 + end.nanos;
            let n = now.secs * 1_000_000_000 + now.nanos;
            match verdict(end, now) {
                Verdict::Renew => e - n < 2_678_400_000_000_000,
                Verdict::Keep(span) => {
                    &&& e - n >= 2_678_400_000_000_000
                    &&& span.secs * 1_000_000_000 + span.nanos == e - n
                    &&& span.nanos < 1_000_000_000
                },
            }
        }),
        verdict(end, now) == Verdict::Renew <==> due(end, now),
{
    lemma_remaining(end, now);
    law_due_within_a_month(end, now);
}

/// The end of a certificate is that of the first block of the text. What is wrong with the text is
/// told apart from what is wrong with the block.
pub proof fn law_end_of_the_first_block(pem: Seq<char>)
    ensures
        match first_pem_block(encode_utf8(pem)) {
            Err(e) => certificate_end(pem) == Err::<Timestamp, MalformedView>(
                MalformedView::Pem(e),
            ),
            Ok(der) => match x509_not_after(der) {
                Ok(end) => certificate_end(pem) == Ok::<Timestamp, MalformedView>(end),
                Err(e) => certificate_end(pem) == Err::<Timestamp, MalformedView>(
                    MalformedView::X509(e),
                ),
            },
        },
{
}

/// What is served begins with the bytes of the certificate and ends with those of the key, with
/// nothing between them.
pub proof fn law_key_follows_certificate(certificate: Seq<char>, private_key: Seq<char>)
    ensures
        ({
            let c = encode_utf8(certificate);
            let k = encode_utf8(private_key);
            let b = bundle(certificate, private_key);
            b.len() == c.len() + k.len() && b.subrange(0, c.len() as int) == c && b.subrange(
                c.len() as int,
                b.len() as int,
            ) == k
        }),
{
    let c = encode_utf8(certificate);
    let k = encode_utf8(private_key);
    let b = bundle(certificate, private_key);
    assert(b.subrange(0, c.len() as int) =~= c);
    assert(b.subrange(c.len() as int, b.len() as int) =~= k);
}

/// Contracts see all of what is read and of what is wrong with it.
pub proof fn law_reading_is_seen_whole(
    pem: Result<Vec<u8>, String>,
    end: Result<Timestamp, String>,
    malformed: Malformed,
)
    ensures
        match (pem, pem_view(pem)) {
            (Ok(a), Ok(b)) => a@ == b,
            (Err(a), Err(b)) => a@ == b,
            _ => false,
        },
        match (end, not_after_view(end)) {
            (Ok(a), Ok(b)) => a == b,
            (Err(a), Err(b)) => a@ == b,
            _ => false,
        },
        match (malformed, malformed@) {
            (Malformed::Pem(a), MalformedView::Pem(b)) => a@ == b,
            (Malformed::X509(a), MalformedView::X509(b)) => a@ == b,
            _ => false,
        },
{
}

} // verus!
