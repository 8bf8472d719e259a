//! Certificates for the custom domains of projects.

use crate::gateway::certificate::{
    bundle, certificate_end, duration_text, first_pem_block, in_calendar, judge,
    law_verdict_by_the_time_left, now, pem_bundle, read_certificate_end, verdict, x509_not_after,
    Malformed, MalformedView, Verdict,
};
use crate::gateway::error::{
    opt_text, plain, result_view, Error, ErrorKind, ErrorKindView, ErrorView,
};
use crate::timestamp::Timestamp;
use vstd::prelude::*;
use vstd::utf8::encode_utf8;

verus! {

/// What `fqdn::FQDN` makes of a text: the name as that type writes it, or nothing if the text is
/// no fully qualified domain name.
pub uninterp spec fn fqdn_text(s: Seq<char>) -> Option<Seq<char>>;

/// Reads a fully qualified domain name, by the `FromStr` of `fqdn::FQDN`, and writes it again, by
/// its `Display`. Both depend on the text alone; which texts are names, and how they are written,
/// is left to that type.
#[verifier::external_body]
fn parse_fqdn(s: &str) -> (r: Option<String>)
    ensures
        opt_text(r) == fqdn_text(s@),
{
    match s.parse::<fqdn::FQDN>() {
        Ok(name) => Some(name.to_string()),
        Err(_) => None,
    }
}

/// A domain of a project, with the certificate that is served for it.
#[derive(Debug, PartialEq, Eq)]
pub struct CustomDomain {
    pub fqdn: String,
    pub certificate: String,
    pub private_key: String,
}

/// The certificate for a domain, as it is handed to the resolver.
#[derive(Debug, PartialEq, Eq)]
pub struct ServedDomain {
    pub fqdn: String,
    pub pem: Vec<u8>,
}

/// Whether `served` is what is handed to the resolver for `domain`.
pub open spec fn serves(served: ServedDomain, domain: CustomDomain) -> bool {
    served.fqdn@ == domain.fqdn@ && served.pem@ == bundle(
        domain.certificate@,
        domain.private_key@,
    )
}

/// What is handed to the resolver for the domains that are known, in their order.
pub fn served_domains(domains: Vec<CustomDomain>) -> (r: Vec<ServedDomain>)
    ensures
        r@.len() == domains@.len(),
        forall|i: int| 0 <= i < r@.len() ==> serves(#[trigger] r@[i], domains@[i]),
        forall|i: int|
            0 <= i < r@.len() ==> (#[trigger] r@[i]).fqdn@ == domains@[i].fqdn@ && r@[i].pem@
                == encode_utf8(domains@[i].certificate@) + encode_utf8(domains@[i].private_key@),
{
    let mut r: Vec<ServedDomain> = Vec::new();
    let mut i: usize = 0;
    while i < domains.len()
        invariant
            i <= domains@.len(),
            r@.len() == i,
            forall|j: int| 0 <= j < i ==> serves(#[trigger] r@[j], domains@[j]),
        decreases domains@.len() - i,
    {
        let domain = &domains[i];
        r.push(
            ServedDomain {
                fqdn: domain.fqdn.clone(),
                pem: pem_bundle(domain.certificate.as_str(), domain.private_key.as_str()),
            },
        );
        i += 1;
    }
    r
}

/// The answer when a certificate was made for the first time.
pub open spec fn created_text(project: Seq<char>) -> Seq<char> {
    "\"New certificate created for "@ + project + " project.\""@
}

/// The answer when a certificate was renewed.
pub open spec fn renewed_text(project: Seq<char>) -> Seq<char> {
    "\"Certificate renewed for "@ + project + " project.\""@
}

/// The answer when a certificate is valid for long enough.
pub open spec fn skipped_text(project: Seq<char>, left: Seq<char>) -> Seq<char> {
    "\"Certificate renewal skipped, "@ + project + " project certificate still valid for "@ + left
        + " days.\""@
}

/// The error when the stored certificate of a project cannot be read.
pub open spec fn malformed(project: Seq<char>, e: MalformedView) -> ErrorView {
    let message = match e {
        MalformedView::Pem(err) => "Error while parsing the pem certificate for "@ + project
            + ": "@ + err,
        MalformedView::X509(err) => "Error while parsing the certificate chain for "@ + project
            + ": "@ + err,
    };
    ErrorView { kind: ErrorKindView::Internal, source: Some(message) }
}

fn malformed_error(project: &str, e: Malformed) -> (r: Error)
    ensures
        r@ == malformed(project@, e@),
{
    let message = match e {
        Malformed::Pem(err) => "Error while parsing the pem certificate for ".to_owned().concat(
            project,
        ).concat(": ").concat(err.as_str()),
        Malformed::X509(err) => "Error while parsing the certificate chain for ".to_owned().concat(
            project,
        ).concat(": ").concat(err.as_str()),
    };
    Error::custom(ErrorKind::Internal, message.as_str())
}

/// A certificate and its private key.
#[derive(Debug, PartialEq, Eq)]
pub struct Certificate {
    pub chain: String,
    pub private_key: String,
}

/// A [`Certificate`] as contracts speak of it.
pub struct CertificateView {
    pub chain: Seq<char>,
    pub private_key: Seq<char>,
}

impl View for Certificate {
    type V = CertificateView;

    open spec fn view(&self) -> CertificateView {
        CertificateView { chain: self.chain@, private_key: self.private_key@ }
    }
}

/// An answer of the services that have to do with certificates.
#[derive(Debug)]
pub enum Event {
    /// The domain and the certificate that it has.
    Found(Result<Certificate, Error>),
    /// The store made a certificate for a new domain.
    Created(Result<Certificate, Error>),
    /// The authority issued a certificate, or the text of its refusal.
    Issued(Result<Certificate, String>),
    /// The certificate was stored.
    Saved(Result<(), Error>),
    /// The resolver took the certificate.
    Served(Result<(), Error>),
}

/// An [`Event`] as contracts speak of it.
pub enum EventView {
    Found(Result<CertificateView, ErrorView>),
    Created(Result<CertificateView, ErrorView>),
    Issued(Result<CertificateView, Seq<char>>),
    Saved(Result<(), ErrorView>),
    Served(Result<(), ErrorView>),
}

impl View for Event {
    type V = EventView;

    open spec fn view(&self) -> EventView {
        match *self {
            Event::Found(r) => EventView::Found(
                match r {
                    Ok(c) => Ok(c@),
                    Err(e) => Err(e@),
                },
            ),
            Event::Created(r) => EventView::Created(
                match r {
                    Ok(c) => Ok(c@),
                    Err(e) => Err(e@),
                },
            ),
            Event::Issued(r) => EventView::Issued(
                match r {
                    Ok(c) => Ok(c@),
                    Err(e) => Err(e@),
                },
            ),
            Event::Saved(r) => EventView::Saved(result_view(r)),
            Event::Served(r) => EventView::Served(result_view(r)),
        }
    }
}

/// What a request for a certificate waits for.
#[derive(Debug)]
pub enum Stage {
    /// The certificate that the domain has is looked up.
    Find,
    /// The store makes a certificate for the new domain.
    Create,
    /// The authority is asked for a certificate.
    Issue,
    /// The certificate is stored.
    Save(Certificate),
    /// The resolver is to serve these bytes from now on.
    Serve { pem: Vec<u8>, answer: String },
    /// The request is answered with this text.
    Done(String),
    Failed(Error),
}

/// A [`Stage`] as contracts speak of it.
pub enum StageView {
    Find,
    Create,
    Issue,
    Save(CertificateView),
    Serve { pem: Seq<u8>, answer: Seq<char> },
    Done(Seq<char>),
    Failed(ErrorView),
}

impl View for Stage {
    type V = StageView;

    open spec fn view(&self) -> StageView {
        match *self {
            Stage::Find => StageView::Find,
            Stage::Create => StageView::Create,
            Stage::Issue => StageView::Issue,
            Stage::Save(c) => StageView::Save(c@),
            Stage::Serve { pem, answer } => StageView::Serve { pem: pem@, answer: answer@ },
            Stage::Done(s) => StageView::Done(s@),
            Stage::Failed(e) => StageView::Failed(e@),
        }
    }
}

/// A request for a certificate of a custom domain.
#[derive(Debug)]
pub struct CertificateRequest {
    /// The project that the domain belongs to.
    pub project_name: String,
    /// The domain.
    pub fqdn: String,
    pub stage: Stage,
}

/// A [`CertificateRequest`] as contracts speak of it.
pub struct CertificateRequestView {
    pub project_name: Seq<char>,
    pub fqdn: Seq<char>,
    pub stage: StageView,
}

impl View for CertificateRequest {
    type V = CertificateRequestView;

    open spec fn view(&self) -> CertificateRequestView {
        CertificateRequestView {
            project_name: self.project_name@,
            fqdn: self.fqdn@,
            stage: self.stage@,
        }
    }
}

/// What follows when the certificate that the domain has was read.
pub open spec fn read(
    project: Seq<char>,
    end: Result<Timestamp, MalformedView>,
    now: Timestamp,
) -> StageView {
    match end {
        Ok(end) => match verdict(end, now) {
            Verdict::Renew => StageView::Issue,
            Verdict::Keep(left) => StageView::Done(
                skipped_text(project, duration_text(left.secs, left.nanos)),
            ),
        },
        Err(e) => StageView::Failed(malformed(project, e)),
    }
}

/// The text in which the certificate that a domain has is looked for.
pub open spec fn stored_pem(c: CertificateView) -> Seq<char> {
    c.chain + "\n"@ + "\n"@ + c.private_key
}

/// What an event makes of the stage of a request, at a point in time. An error ends the request;
/// an event that answers nothing that was asked for changes nothing.
pub open spec fn step(
    project: Seq<char>,
    stage: StageView,
    event: EventView,
    now: Timestamp,
) -> StageView {
    match (stage, event) {
        (StageView::Find, EventView::Found(r)) => match r {
            Ok(c) => read(project, certificate_end(stored_pem(c)), now),
            Err(e) => StageView::Failed(e),
        },
        (StageView::Create, EventView::Created(r)) => match r {
            Ok(c) => StageView::Serve {
                pem: bundle(c.chain, c.private_key),
                answer: created_text(project),
            },
            Err(e) => StageView::Failed(e),
        },
        (StageView::Issue, EventView::Issued(r)) => match r {
            Ok(c) => StageView::Save(c),
            Err(e) => StageView::Failed(
                ErrorView { kind: ErrorKindView::Internal, source: Some(e) },
            ),
        },
        (StageView::Save(c), EventView::Saved(r)) => match r {
            Ok(_) => StageView::Serve {
                pem: bundle(c.chain, c.private_key),
                answer: renewed_text(project),
            },
            Err(e) => StageView::Failed(e),
        },
        (StageView::Serve { pem, answer }, EventView::Served(r)) => match r {
            Ok(_) => StageView::Done(answer),
            Err(e) => StageView::Failed(e),
        },
        _ => stage,
    }
}

/// What a request for a certificate wants.
#[derive(Debug, Clone, Copy, PartialEq, Eq, Structural)]
pub enum Action {
    /// Look up the certificate that the domain has.
    FindDomain,
    /// Make a certificate for the domain and store it.
    CreateDomain,
    /// Ask the authority for a certificate, by an HTTP challenge.
    IssueCertificate,
    /// Store the certificate.
    SaveDomain,
    /// Hand the certificate to the resolver.
    ServePem,
    /// Nothing more: [`CertificateRequest::finish`] has the answer.
    Finish,
}

/// What a request at this stage wants.
pub open spec fn wanted(stage: StageView) -> Action {
    match stage {
        StageView::Find => Action::FindDomain,
        StageView::Create => Action::CreateDomain,
        StageView::Issue => Action::IssueCertificate,
        StageView::Save(_) => Action::SaveDomain,
        StageView::Serve { pem: _, answer: _ } => Action::ServePem,
        StageView::Done(_) => Action::Finish,
        StageView::Failed(_) => Action::Finish,
    }
}

impl CertificateRequest {
    /// Starts to request the first certificate of a domain.
    pub fn create(project_name: &str, fqdn: &str) -> (r: Result<Self, Error>)
        ensures
            match (fqdn_text(fqdn@), r) {
                (Some(name), Ok(request)) => request@ == (CertificateRequestView {
                    project_name: project_name@,
                    fqdn: name,
                    stage: StageView::Create,
                }),
                (None, Err(e)) => e@ == plain(ErrorKindView::InvalidCustomDomain),
                _ => false,
            },
    {
        CertificateRequest::start(project_name, parse_fqdn(fqdn), Stage::Create)
    }

    /// Starts to renew the certificate of a domain.
    pub fn renew(project_name: &str, fqdn: &str) -> (r: Result<Self, Error>)
        ensures
            match (fqdn_text(fqdn@), r) {
                (Some(name), Ok(request)) => request@ == (CertificateRequestView {
                    project_name: project_name@,
                    fqdn: name,
                    stage: StageView::Find,
                }),
                (None, Err(e)) => e@ == plain(ErrorKindView::InvalidCustomDomain),
                _ => false,
            },
    {
        CertificateRequest::start(project_name, parse_fqdn(fqdn), Stage::Find)
    }

    /// A request at its first stage, given the domain if the text named one.
    pub fn start(project_name: &str, fqdn: Option<String>, stage: Stage) -> (r: Result<Self, Error>)
        ensures
            match (fqdn, r) {
                (Some(name), Ok(request)) => request@ == (CertificateRequestView {
                    project_name: project_name@,
                    fqdn: name@,
                    stage: stage@,
                }),
                (None, Err(e)) => e@ == plain(ErrorKindView::InvalidCustomDomain),
                _ => false,
            },
    {
        match fqdn {
            Some(name) => Ok(
                CertificateRequest { project_name: project_name.to_owned(), fqdn: name, stage },
            ),
            None => Err(Error::from_kind(ErrorKind::InvalidCustomDomain)),
        }
    }

    /// What the request wants.
    pub fn action(&self) -> (r: Action)
        ensures
            r == wanted(self@.stage),
    {
        match &self.stage {
            Stage::Find => Action::FindDomain,
            Stage::Create => Action::CreateDomain,
            Stage::Issue => Action::IssueCertificate,
            Stage::Save(_) => Action::SaveDomain,
            Stage::Serve { .. } => Action::ServePem,
            Stage::Done(_) => Action::Finish,
            Stage::Failed(_) => Action::Finish,
        }
    }

    /// What follows when the certificate that the domain has was read.
    pub fn after_reading(project_name: &str, end: Result<Timestamp, Malformed>, now: Timestamp) -> (r:
        Stage)
        requires
            end is Ok ==> in_calendar(end->Ok_0),
            in_calendar(now),
        ensures
            r@ == read(
                project_name@,
                match end {
                    Ok(t) => Ok(t),
                    Err(e) => Err(e@),
                },
                now,
            ),
    {
        match end {
            Ok(end) => match judge(end, now) {
                Verdict::Renew => Stage::Issue,
                Verdict::Keep(left) => {
                    let days = left.text();
                    Stage::Done(
                        "\"Certificate renewal skipped, ".to_owned().concat(project_name).concat(
                            " project certificate still valid for ",
                        ).concat(days.as_str()).concat(" days.\""),
                    )
                },
            },
            Err(e) => Stage::Failed(malformed_error(project_name, e)),
        }
    }

    /// Takes the answer to what the request wanted, at a point in time.
    pub fn advance_at(self, event: Event, now: Timestamp) -> (r: Self)
        requires
            in_calendar(now),
        ensures
            r@ == (CertificateRequestView {
                stage: step(self@.project_name, self@.stage, event@, now),
                ..self@
            }),
    {
        let project = self.project_name;
        let stage = match (self.stage, event) {
            (Stage::Find, Event::Found(r)) => match r {
                Ok(c) => {
                    let pem = c.chain.concat("\n").concat("\n").concat(c.private_key.as_str());
                    CertificateRequest::after_reading(
                        project.as_str(),
                        read_certificate_end(pem.as_str()),
                        now,
                    )
                },
                Err(e) => Stage::Failed(e),
            },
            (Stage::Create, Event::Created(r)) => match r {
                Ok(c) => Stage::Serve {
                    pem: pem_bundle(c.chain.as_str(), c.private_key.as_str()),
                    answer: "\"New certificate created for ".to_owned().concat(
                        project.as_str(),
                    ).concat(" project.\""),
                },
                Err(e) => Stage::Failed(e),
            },
            (Stage::Issue, Event::Issued(r)) => match r {
                Ok(c) => Stage::Save(c),
                Err(e) => Stage::Failed(Error::source(ErrorKind::Internal, e)),
            },
            (Stage::Save(c), Event::Saved(r)) => match r {
                Ok(_) => Stage::Serve {
                    pem: pem_bundle(c.chain.as_str(), c.private_key.as_str()),
                    answer: "\"Certificate renewed for ".to_owned().concat(
                        project.as_str(),
                    ).concat(" project.\""),
                },
                Err(e) => Stage::Failed(e),
            },
            (Stage::Serve { pem, answer }, Event::Served(r)) => match r {
                Ok(_) => Stage::Done(answer),
                Err(e) => Stage::Failed(e),
            },
            (same, _) => same,
        };
        CertificateRequest { project_name: project, fqdn: self.fqdn, stage }
    }

    /// Takes the answer to what the request wanted.
    pub fn advance(self, event: Event) -> (r: Self)
        ensures
            exists|now: Timestamp|
                in_calendar(now) && r@ == (CertificateRequestView {
                    stage: #[trigger] step(self@.project_name, self@.stage, event@, now),
                    ..self@
                }),
    {
        self.advance_at(event, now())
    }

    /// The answer to the request, once it is over.
    pub fn finish(self) -> (r: Result<String, Error>)
        requires
            wanted(self@.stage) == Action::Finish,
        ensures
            match (self@.stage, r) {
                (StageView::Done(text), Ok(answer)) => answer@ == text,
                (StageView::Failed(e), Err(error)) => error@ == e,
                _ => false,
            },
    {
        match self.stage {
            Stage::Done(text) => Ok(text),
            Stage::Failed(e) => Err(e),
            _ => {
                assert(false);
                Err(Error::from_kind(ErrorKind::Internal))
            },
        }
    }
}

/// What the services answer to a request for a certificate.
pub struct Services {
    pub found: Result<CertificateView, ErrorView>,
    pub created: Result<CertificateView, ErrorView>,
    pub issued: Result<CertificateView, Seq<char>>,
    pub saved: Result<(), ErrorView>,
    pub served: Result<(), ErrorView>,
}

/// The answer to what a request at this stage wants.
pub open spec fn answer(w: Services, stage: StageView) -> EventView {
    match stage {
        StageView::Find => EventView::Found(w.found),
        StageView::Create => EventView::Created(w.created),
        StageView::Issue => EventView::Issued(w.issued),
        StageView::Save(_) => EventView::Saved(w.saved),
        _ => EventView::Served(w.served),
    }
}

/// The stage of a request after at most `n` answers, all given at one point in time.
pub open spec fn driven(
    w: Services,
    project: Seq<char>,
    stage: StageView,
    now: Timestamp,
    n: nat,
) -> StageView
    decreases n,
{
    if n == 0 || wanted(stage) == Action::Finish {
        stage
    } else {
        driven(w, project, step(project, stage, answer(w, stage), now), now, (n - 1) as nat)
    }
}

/// A renewal comes to an end after at most four answers, that of a new certificate after two.
pub proof fn law_certificate_request_ends(w: Services, project: Seq<char>, now: Timestamp)
    ensures
        wanted(driven(w, project, StageView::Find, now, 4)) == Action::Finish,
        wanted(driven(w, project, StageView::Create, now, 2)) == Action::Finish,
{
    reveal_with_fuel(driven, 5);
}

/// Where nothing fails, a certificate that is to be renewed is issued, stored and served in this
/// order, and what is served is what was issued.
pub proof fn law_due_certificate_is_replaced(
    w: Services,
    project: Seq<char>,
    now: Timestamp,
    end: Timestamp,
)
    requires
        w.found is Ok,
        w.issued is Ok,
        w.saved is Ok,
        w.served is Ok,
        certificate_end(stored_pem(w.found->Ok_0)) == Ok::<Timestamp, MalformedView>(end),
        verdict(end, now) == Verdict::Renew,
    ensures
        driven(w, project, StageView::Find, now, 1) == StageView::Issue,
        driven(w, project, StageView::Find, now, 2) == StageView::Save(w.issued->Ok_0),
        driven(w, project, StageView::Find, now, 3) == (StageView::Serve {
            pem: bundle(w.issued->Ok_0.chain, w.issued->Ok_0.private_key),
            answer: renewed_text(project),
        }),
        driven(w, project, StageView::Find, now, 4) == StageView::Done(renewed_text(project)),
{
    reveal_with_fuel(driven, 5);
}

/// A certificate that is valid for long enough is left alone: nothing is issued, stored or served.
pub proof fn law_fresh_certificate_is_kept(
    w: Services,
    project: Seq<char>,
    now: Timestamp,
    end: Timestamp,
    n: nat,
)
    requires
        w.found is Ok,
        certificate_end(stored_pem(w.found->Ok_0)) == Ok::<Timestamp, MalformedView>(end),
        verdict(end, now) != Verdict::Renew,
        n > 0,
    ensures
        driven(w, project, StageView::Find, now, n) is Done,
{
    reveal_with_fuel(driven, 3);
}

/// The text in which the stored certificate is looked for begins with the stored chain. The key
/// comes after it, behind two line breaks, and nothing comes after the key.
pub proof fn law_chain_comes_before_the_key(c: CertificateView)
    ensures
        stored_pem(c).len() == c.chain.len() + 2 + c.private_key.len(),
        stored_pem(c).subrange(0, c.chain.len() as int) == c.chain,
        stored_pem(c)[c.chain.len() as int] == '\n',
        stored_pem(c)[c.chain.len() as int + 1] == '\n',
        stored_pem(c).subrange(c.chain.len() as int + 2, stored_pem(c).len() as int) == c.private_key,
{
    reveal_strlit("\n");
    assert(stored_pem(c).subrange(0, c.chain.len() as int) =~= c.chain);
    assert(stored_pem(c).subrange(c.chain.len() as int + 2, stored_pem(c).len() as int)
        =~= c.private_key);
}

proof fn lemma_stored_pem(c: CertificateView)
    ensures
        stored_pem(c) == c.chain + seq!['\n', '\n'] + c.private_key,
{
    reveal_strlit("\n");
    assert(stored_pem(c) =~= c.chain + seq!['\n', '\n'] + c.private_key);
}

/// What is judged is the first block of the stored chain with its key behind it: with less than
/// thirty-one days left a new certificate is issued, otherwise the request is done and tells how
/// long the certificate is valid.
pub proof fn law_stored_certificate_is_judged(
    project: Seq<char>,
    c: CertificateView,
    der: Seq<u8>,
    end: Timestamp,
    now: Timestamp,
)
    requires
        in_calendar(end),
        in_calendar(now),
        first_pem_block(encode_utf8(c.chain + seq!['\n', '\n'] + c.private_key)) == Ok::<
            Seq<u8>,
            Seq<char>,
        >(der),
        x509_not_after(der) == Ok::<Timestamp, Seq<char>>(end),
    ensures
        ({
            let left = (end.secs * 1_000_000_000 + end.nanos) - (now.secs * 1_000_000_000
                + now.nanos);
            let stage = step(project, StageView::Find, EventView::Found(Ok(c)), now);
            &&& left < 2_678_400_000_000_000 ==> stage == StageView::Issue
            &&& left >= 2_678_400_000_000_000 ==> stage == StageView::Done(
                "\"Certificate renewal skipped, "@ + project
                    + " project certificate still valid for "@ + duration_text(
                    (left / 1_000_000_000) as i64,
                    (left % 1_000_000_000) as u32,
                ) + " days.\""@,
            )
        }),
{
    lemma_stored_pem(c);
    law_verdict_by_the_time_left(end, now);
    if let Verdict::Keep(span) = verdict(end, now) {
        let left = (end.secs * 1_000_000_000 + end.nanos) - (now.secs * 1_000_000_000 + now.nanos);
        vstd::arithmetic::div_mod::lemma_fundamental_div_mod_converse(
            left,
            1_000_000_000,
            span.secs as int,
            span.nanos as int,
        );
    }
}

/// A stored certificate that cannot be read ends the request with an internal error, which tells
/// whether the text or the certificate was at fault, for which project, and why.
pub proof fn law_unreadable_certificate(
    project: Seq<char>,
    c: CertificateView,
    der: Seq<u8>,
    err: Seq<char>,
    now: Timestamp,
)
    ensures
        first_pem_block(encode_utf8(c.chain + seq!['\n', '\n'] + c.private_key)) == Err::<
            Seq<u8>,
            Seq<char>,
        >(err) ==> step(project, StageView::Find, EventView::Found(Ok(c)), now)
            == StageView::Failed(
            ErrorView {
                kind: ErrorKindView::Internal,
                source: Some(
                    "Error while parsing the pem certificate for "@ + project + ": "@ + err,
                ),
            },
        ),
        first_pem_block(encode_utf8(c.chain + seq!['\n', '\n'] + c.private_key)) == Ok::<
            Seq<u8>,
            Seq<char>,
        >(der) && x509_not_after(der) == Err::<Timestamp, Seq<char>>(err) ==> step(
            project,
            StageView::Find,
            EventView::Found(Ok(c)),
            now,
        ) == StageView::Failed(
            ErrorView {
                kind: ErrorKindView::Internal,
                source: Some(
                    "Error while parsing the certificate chain for "@ + project + ": "@ + err,
                ),
            },
        ),
{
    lemma_stored_pem(c);
}

/// A certificate that was made is served with its key behind it, and the answer names the project.
pub proof fn law_new_certificate_is_served(
    project: Seq<char>,
    c: CertificateView,
    now: Timestamp,
)
    ensures
        step(project, StageView::Create, EventView::Created(Ok(c)), now) == (StageView::Serve {
            pem: encode_utf8(c.chain) + encode_utf8(c.private_key),
            answer: "\"New certificate created for "@ + project + " project.\""@,
        }),
{
}

/// A certificate that was issued is stored, then served with its key behind it, and the answer
/// names the project.
pub proof fn law_issued_certificate_is_stored_and_served(
    project: Seq<char>,
    c: CertificateView,
    now: Timestamp,
)
    ensures
        step(project, StageView::Issue, EventView::Issued(Ok(c)), now) == StageView::Save(c),
        step(project, StageView::Save(c), EventView::Saved(Ok(())), now) == (StageView::Serve {
            pem: encode_utf8(c.chain) + encode_utf8(c.private_key),
            answer: "\"Certificate renewed for "@ + project + " project.\""@,
        }),
{
}

/// Once the resolver took a certificate, the request is done with the answer that was prepared.
pub proof fn law_served_certificate_is_answered(
    project: Seq<char>,
    pem: Seq<u8>,
    text: Seq<char>,
    now: Timestamp,
)
    ensures
        step(project, StageView::Serve { pem, answer: text }, EventView::Served(Ok(())), now)
            == StageView::Done(text),
{
}

/// An error of any service ends the request with that error, and a refusal of the authority with an
/// internal error that tells the refusal.
pub proof fn law_error_ends_a_request(
    project: Seq<char>,
    c: CertificateView,
    pem: Seq<u8>,
    text: Seq<char>,
    e: ErrorView,
    now: Timestamp,
)
    ensures
        step(project, StageView::Find, EventView::Found(Err(e)), now) == StageView::Failed(e),
        step(project, StageView::Create, EventView::Created(Err(e)), now) == StageView::Failed(e),
        step(project, StageView::Issue, EventView::Issued(Err(text)), now) == StageView::Failed(
            ErrorView { kind: ErrorKindView::Internal, source: Some(text) },
        ),
        step(project, StageView::Save(c), EventView::Saved(Err(e)), now) == StageView::Failed(e),
        step(project, StageView::Serve { pem, answer: text }, EventView::Served(Err(e)), now)
            == StageView::Failed(e),
{
}

/// An event that answers something else than what was asked for changes nothing.
pub proof fn law_other_answers_change_nothing(
    project: Seq<char>,
    stage: StageView,
    event: EventView,
    now: Timestamp,
)
    requires
        match stage {
            StageView::Find => !(event is Found),
            StageView::Create => !(event is Created),
            StageView::Issue => !(event is Issued),
            StageView::Save(_) => !(event is Saved),
            StageView::Serve { pem: _, answer: _ } => !(event is Served),
            _ => true,
        },
    ensures
        step(project, stage, event, now) == stage,
{
}

/// What is asked for is what the request has come to.
pub proof fn law_what_is_asked_for(
    c: CertificateView,
    pem: Seq<u8>,
    text: Seq<char>,
    e: ErrorView,
)
    ensures
        wanted(StageView::Find) == Action::FindDomain,
        wanted(StageView::Create) == Action::CreateDomain,
        wanted(StageView::Issue) == Action::IssueCertificate,
        wanted(StageView::Save(c)) == Action::SaveDomain,
        wanted(StageView::Serve { pem, answer: text }) == Action::ServePem,
        wanted(StageView::Done(text)) == Action::Finish,
        wanted(StageView::Failed(e)) == Action::Finish,
{
}

/// Contracts see all of an event.
pub proof fn law_event_is_seen_whole(event: Event)
    ensures
        match (event, event@) {
            (Event::Found(Ok(a)), EventView::Found(Ok(b))) => a@ == b,
            (Event::Found(Err(a)), EventView::Found(Err(b))) => a@ == b,
            (Event::Created(Ok(a)), EventView::Created(Ok(b))) => a@ == b,
            (Event::Created(Err(a)), EventView::Created(Err(b))) => a@ == b,
            (Event::Issued(Ok(a)), EventView::Issued(Ok(b))) => a@ == b,
            (Event::Issued(Err(a)), EventView::Issued(Err(b))) => a@ == b,
            (Event::Saved(Ok(_)), EventView::Saved(Ok(_))) => true,
            (Event::Saved(Err(a)), EventView::Saved(Err(b))) => a@ == b,
            (Event::Served(Ok(_)), EventView::Served(Ok(_))) => true,
            (Event::Served(Err(a)), EventView::Served(Err(b))) => a@ == b,
            _ => false,
        },
{
}

/// Contracts see all of a request and of its stage.
pub proof fn law_request_is_seen_whole(request: CertificateRequest, certificate: Certificate)
    ensures
        certificate@.chain == certificate.chain@,
        certificate@.private_key == certificate.private_key@,
        request@.project_name == request.project_name@,
        request@.fqdn == request.fqdn@,
        match (request.stage, request@.stage) {
            (Stage::Find, StageView::Find) => true,
            (Stage::Create, StageView::Create) => true,
            (Stage::Issue, StageView::Issue) => true,
            (Stage::Save(a), StageView::Save(b)) => a@ == b,
            (
                Stage::Serve { pem: a, answer: x },
                StageView::Serve { pem: b, answer: y },
            ) => a@ == b && x@ == y,
            (Stage::Done(a), StageView::Done(b)) => a@ == b,
            (Stage::Failed(a), StageView::Failed(b)) => a@ == b,
            _ => false,
        },
{
}

/// What was read decides what follows, whatever it was read from: a certificate with less than
/// thirty-one days left is replaced, one with more is kept, and what cannot be read fails.
pub proof fn law_reading_decides(
    project: Seq<char>,
    end: Timestamp,
    e: MalformedView,
    now: Timestamp,
)
    requires
        in_calendar(end),
        in_calendar(now),
    ensures
        ({
            let left = (end.secs * 1_000_000_000 + end.nanos) - (now.secs * 1_000_000_000
                + now.nanos);
            &&& read(project, Ok(end), now) == StageView::Issue <==> left < 2_678_400_000_000_000
            &&& read(project, Ok(end), now) is Done <==> left >= 2_678_400_000_000_000
        }),
        read(project, Err(e), now) matches StageView::Failed(error) && error.kind
            == ErrorKindView::Internal && error.source == Some(
            (match e {
                MalformedView::Pem(_) => "Error while parsing the pem certificate for "@,
                MalformedView::X509(_) => "Error while parsing the certificate chain for "@,
            }) + project + ": "@ + (match e {
                MalformedView::Pem(err) => err,
                MalformedView::X509(err) => err,
            }),
        ),
{
    law_verdict_by_the_time_left(end, now);
}

} // verus!
