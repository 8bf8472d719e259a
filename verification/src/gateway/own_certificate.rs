//! The certificate of the gateway itself.

use crate::gateway::certificate::{
    certificate_end, due, first_pem_block, in_calendar, judge, law_verdict_by_the_time_left,
    now, read_certificate_end, verdict, x509_not_after, Malformed, MalformedView, Verdict,
};
use crate::text::{decimal, decimal_text};
use crate::timestamp::Timestamp;
use vstd::prelude::*;
use vstd::utf8::encode_utf8;

verus! {

/// The file below the state of the gateway that holds its certificate.
pub const TLS_FILE: &'static str = "ssl.pem";

/// The answer when the certificate was renewed.
pub const RENEWED: &'static str = "\"Renewed the gateway certificate.\"";

/// The answer when the certificate is valid for this many days.
pub open spec fn kept_text(days: nat) -> Seq<char> {
    "\"Gateway certificate was not renewed. There are "@ + decimal(days)
        + " days until the certificate expires.\""@
}

/// What a renewal of the certificate of the gateway waits for. `C` stands for a new certificate.
#[derive(Debug, PartialEq, Eq)]
pub enum Renewal<C> {
    /// The certificate that the gateway has is fetched.
    Fetch,
    /// The authority is asked for a new one.
    Create,
    /// The resolver is to serve the new one where no other fits.
    Serve(C),
    /// The new one is written to the file.
    Save(C),
    /// The request is answered with this text.
    Done(String),
    /// The gateway cannot go on.
    Aborted(Abort),
}

/// Why the gateway cannot go on.
#[derive(Debug, Clone, Copy, PartialEq, Eq, Structural)]
pub enum Abort {
    MalformedPem,
    MalformedX509,
    NotServed,
    NotSaved,
}

/// A [`Renewal`] as contracts speak of it.
pub enum RenewalView<C> {
    Fetch,
    Create,
    Serve(C),
    Save(C),
    Done(Seq<char>),
    Aborted(Abort),
}

impl<C> View for Renewal<C> {
    type V = RenewalView<C>;

    open spec fn view(&self) -> RenewalView<C> {
        match *self {
            Renewal::Fetch => RenewalView::Fetch,
            Renewal::Create => RenewalView::Create,
            Renewal::Serve(c) => RenewalView::Serve(c),
            Renewal::Save(c) => RenewalView::Save(c),
            Renewal::Done(s) => RenewalView::Done(s@),
            Renewal::Aborted(a) => RenewalView::Aborted(a),
        }
    }
}

/// What happened to the certificate of the gateway.
#[derive(Debug, PartialEq, Eq)]
pub enum Event<C> {
    /// It was fetched; this is its chain and private key.
    Fetched(String),
    /// This new one was made.
    Created(C),
    /// Whether the resolver took the new one.
    Served(bool),
    /// Whether the new one was written to the file.
    Saved(bool),
}

/// An [`Event`] as contracts speak of it.
pub enum EventView<C> {
    Fetched(Seq<char>),
    Created(C),
    Served(bool),
    Saved(bool),
}

impl<C> View for Event<C> {
    type V = EventView<C>;

    open spec fn view(&self) -> EventView<C> {
        match *self {
            Event::Fetched(s) => EventView::Fetched(s@),
            Event::Created(c) => EventView::Created(c),
            Event::Served(b) => EventView::Served(b),
            Event::Saved(b) => EventView::Saved(b),
        }
    }
}

/// What follows when the certificate that the gateway has was read.
pub open spec fn read<C>(end: Result<Timestamp, MalformedView>, now: Timestamp) -> RenewalView<C> {
    match end {
        Ok(end) => match verdict(end, now) {
            Verdict::Renew => RenewalView::Create,
            Verdict::Keep(left) => RenewalView::Done(kept_text(left.days() as nat)),
        },
        Err(MalformedView::Pem(_)) => RenewalView::Aborted(Abort::MalformedPem),
        Err(MalformedView::X509(_)) => RenewalView::Aborted(Abort::MalformedX509),
    }
}

/// What an event makes of a renewal, at a point in time. The certificate that was made is the one
/// that is served, and the one that is served is the one that is written. An event that answers nothing that was
/// asked for changes nothing.
pub open spec fn step<C>(r: RenewalView<C>, event: EventView<C>, now: Timestamp) -> RenewalView<C> {
    match (r, event) {
        (RenewalView::Fetch, EventView::Fetched(pem)) => read(certificate_end(pem), now),
        (RenewalView::Create, EventView::Created(c)) => RenewalView::Serve(c),
        (RenewalView::Serve(c), EventView::Served(ok)) => if ok {
            RenewalView::Save(c)
        } else {
            RenewalView::Aborted(Abort::NotServed)
        },
        (RenewalView::Save(_), EventView::Saved(ok)) => if ok {
            RenewalView::Done(RENEWED@)
        } else {
            RenewalView::Aborted(Abort::NotSaved)
        },
        _ => r,
    }
}

impl<C> Renewal<C> {
    /// Starts a renewal.
    pub fn new() -> (r: Self)
        ensures
            r@ == RenewalView::<C>::Fetch,
    {
        Renewal::Fetch
    }

    /// What follows when the certificate that the gateway has was read.
    pub fn after_reading(end: Result<Timestamp, Malformed>, now: Timestamp) -> (r: Self)
        requires
            end is Ok ==> in_calendar(end->Ok_0),
            in_calendar(now),
        ensures
            r@ == read::<C>(
                match end {
                    Ok(t) => Ok(t),
                    Err(e) => Err(e@),
                },
                now,
            ),
    {
        match end {
            Ok(end) => match judge(end, now) {
                Verdict::Renew => Renewal::Create,
                Verdict::Keep(left) => {
                    let days = decimal_text(left.whole_days() as u64);
                    Renewal::Done(
                        "\"Gateway certificate was not renewed. There are ".to_owned().concat(
                            days.as_str(),
                        ).concat(" days until the certificate expires.\""),
                    )
                },
            },
            Err(Malformed::Pem(_)) => Renewal::Aborted(Abort::MalformedPem),
            Err(Malformed::X509(_)) => Renewal::Aborted(Abort::MalformedX509),
        }
    }

    /// Takes what happened to the certificate, at a point in time.
    pub fn advance_at(self, event: Event<C>, now: Timestamp) -> (r: Self)
        requires
            in_calendar(now),
        ensures
            r@ == step(self@, event@, now),
    {
        match (self, event) {
            (Renewal::Fetch, Event::Fetched(pem)) => Renewal::after_reading(
                read_certificate_end(pem.as_str()),
                now,
            ),
            (Renewal::Create, Event::Created(c)) => Renewal::Serve(c),
            (Renewal::Serve(c), Event::Served(ok)) => if ok {
                Renewal::Save(c)
            } else {
                Renewal::Aborted(Abort::NotServed)
            },
            (Renewal::Save(_), Event::Saved(ok)) => if ok {
                Renewal::Done(RENEWED.to_owned())
            } else {
                Renewal::Aborted(Abort::NotSaved)
            },
            (same, _) => same,
        }
    }

    /// Takes what happened to the certificate.
    pub fn advance(self, event: Event<C>) -> (r: Self)
        ensures
            exists|now: Timestamp| in_calendar(now) && r@ == #[trigger] step(self@, event@, now),
    {
        self.advance_at(event, now())
    }
}

/// A new certificate is asked for exactly if the one that the gateway has is to be renewed.
pub proof fn law_created_iff_due<C>(pem: Seq<char>, end: Timestamp, now: Timestamp)
    requires
        certificate_end(pem) == Ok::<Timestamp, MalformedView>(end),
    ensures
        step(RenewalView::<C>::Fetch, EventView::Fetched(pem), now) is Create <==> due(end, now),
{
}

/// Where nothing fails, the certificate that is made in place of one that is to be renewed is
/// served and then written, and the request is answered with that.
pub proof fn law_due_certificate_is_replaced<C>(
    pem: Seq<char>,
    end: Timestamp,
    certificate: C,
    now: Timestamp,
)
    requires
        certificate_end(pem) == Ok::<Timestamp, MalformedView>(end),
        verdict(end, now) == Verdict::Renew,
    ensures
        ({
            let create = step(RenewalView::<C>::Fetch, EventView::Fetched(pem), now);
            let serve = step(create, EventView::Created(certificate), now);
            let save = step(serve, EventView::Served(true), now);
            let done = step(save, EventView::Saved(true), now);
            create is Create && serve == RenewalView::Serve(certificate) && save
                == RenewalView::Save(certificate) && done == RenewalView::<C>::Done(RENEWED@)
        }),
{
}

/// The answer names more than thirty days whenever the certificate was not renewed.
pub proof fn law_kept_for_more_than_a_month<C>(end: Timestamp, now: Timestamp)
    requires
        in_calendar(end),
        in_calendar(now),
        verdict(end, now) is Keep,
    ensures
        verdict(end, now)->Keep_0.days() > 30,
        read::<C>(Ok(end), now) == RenewalView::<C>::Done(
            kept_text(verdict(end, now)->Keep_0.days() as nat),
        ),
{
}

/// What is judged is the first block of what was fetched: with less than thirty-one days left a new
/// certificate is made, otherwise the answer tells the whole days that are left. What cannot be
/// read ends the renewal.
pub proof fn law_fetched_certificate_is_judged<C>(
    pem: Seq<char>,
    der: Seq<u8>,
    end: Timestamp,
    err: Seq<char>,
    now: Timestamp,
)
    requires
        in_calendar(end),
        in_calendar(now),
    ensures
        ({
            let left = (end.secs * 1_000_000_000 + end.nanos) - (now.secs * 1_000_000_000
                + now.nanos);
            let next = step(RenewalView::<C>::Fetch, EventView::Fetched(pem), now);
            let block = first_pem_block(encode_utf8(pem));
            let read_well = block == Ok::<Seq<u8>, Seq<char>>(der) && x509_not_after(der) == Ok::<
                Timestamp,
                Seq<char>,
            >(end);
            &&& read_well && left < 2_678_400_000_000_000 ==> next == RenewalView::<C>::Create
            &&& read_well && left >= 2_678_400_000_000_000 ==> next == RenewalView::<C>::Done(
                "\"Gateway certificate was not renewed. There are "@ + decimal(
                    (left / 86_400_000_000_000) as nat,
                ) + " days until the certificate expires.\""@,
            )
            &&& block == Err::<Seq<u8>, Seq<char>>(err) ==> next == RenewalView::<C>::Aborted(
                Abort::MalformedPem,
            )
            &&& block == Ok::<Seq<u8>, Seq<char>>(der) && x509_not_after(der) == Err::<
                Timestamp,
                Seq<char>,
            >(err) ==> next == RenewalView::<C>::Aborted(Abort::MalformedX509)
        }),
{
    law_verdict_by_the_time_left(end, now);
    if let Verdict::Keep(span) = verdict(end, now) {
        let left = (end.secs * 1_000_000_000 + end.nanos) - (now.secs * 1_000_000_000 + now.nanos);
        assert(span.days() == left / 86_400_000_000_000);
    }
}

/// The certificate that was made is served, and the one that was served is written. What fails ends
/// the renewal and tells which of the two it was.
pub proof fn law_steps_of_a_renewal<C>(c: C, now: Timestamp)
    ensures
        step(RenewalView::Create, EventView::Created(c), now) == RenewalView::Serve(c),
        step(RenewalView::Serve(c), EventView::Served(true), now) == RenewalView::Save(c),
        step(RenewalView::Serve(c), EventView::Served(false), now) == RenewalView::<C>::Aborted(
            Abort::NotServed,
        ),
        step(RenewalView::Save(c), EventView::Saved(true), now) == RenewalView::<C>::Done(
            "\"Renewed the gateway certificate.\""@,
        ),
        step(RenewalView::Save(c), EventView::Saved(false), now) == RenewalView::<C>::Aborted(
            Abort::NotSaved,
        ),
{
}

/// What happens out of turn changes nothing.
pub proof fn law_other_events_change_nothing<C>(
    r: RenewalView<C>,
    event: EventView<C>,
    now: Timestamp,
)
    requires
        match r {
            RenewalView::Fetch => !(event is Fetched),
            RenewalView::Create => !(event is Created),
            RenewalView::Serve(_) => !(event is Served),
            RenewalView::Save(_) => !(event is Saved),
            _ => true,
        },
    ensures
        step(r, event, now) == r,
{
}

/// Contracts see all of an event and of a renewal.
pub proof fn law_renewal_is_seen_whole<C>(event: Event<C>, r: Renewal<C>)
    ensures
        match (event, event@) {
            (Event::Fetched(a), EventView::Fetched(b)) => a@ == b,
            (Event::Created(a), EventView::Created(b)) => a == b,
            (Event::Served(a), EventView::Served(b)) => a == b,
            (Event::Saved(a), EventView::Saved(b)) => a == b,
            _ => false,
        },
        match (r, r@) {
            (Renewal::Fetch, RenewalView::Fetch) => true,
            (Renewal::Create, RenewalView::Create) => true,
            (Renewal::Serve(a), RenewalView::Serve(b)) => a == b,
            (Renewal::Save(a), RenewalView::Save(b)) => a == b,
            (Renewal::Done(a), RenewalView::Done(b)) => a@ == b,
            (Renewal::Aborted(a), RenewalView::Aborted(b)) => a == b,
            _ => false,
        },
{
}

/// What was read decides what follows, whatever it was read from: a certificate with less than
/// thirty-one days left is replaced, one with more is kept, and what cannot be read ends the
/// renewal.
pub proof fn law_reading_decides<C>(end: Timestamp, e: MalformedView, now: Timestamp)
    requires
        in_calendar(end),
        in_calendar(now),
    ensures
        ({
            let left = (end.secs * 1_000_000_000 + end.nanos) - (now.secs * 1_000_000_000
                + now.nanos);
            let next = read::<C>(Ok(end), now);
            &&& next == RenewalView::<C>::Create <==> left < 2_678_400_000_000_000
            &&& next is Done <==> left >= 2_678_400_000_000_000
        }),
        read::<C>(Err(e), now) == RenewalView::<C>::Aborted(
            match e {
                MalformedView::Pem(_) => Abort::MalformedPem,
                MalformedView::X509(_) => Abort::MalformedX509,
            },
        ),
{
    law_verdict_by_the_time_left(end, now);
}

} // verus!
