//! Answers about the service of a project, on their way through the gateway.

use crate::gateway::error::{opt_text, Error};
use vstd::prelude::*;

verus! {

/// Where a project is served: at its own domain if it has one, else below the public domain of
/// the platform. The project counts as having none if the lookup fails.
pub open spec fn uri_of(
    custom: Option<Seq<char>>,
    project_name: Seq<char>,
    public: Seq<char>,
) -> Seq<char> {
    match custom {
        Some(fqdn) => "https://"@ + fqdn,
        None => "https://"@ + project_name + "."@ + public,
    }
}

/// Where a project is served, given what the lookup of its own domain came to.
pub fn service_uri(custom: Result<Option<String>, Error>, project_name: &str, public: &str) -> (r:
    String)
    ensures
        r@ == uri_of(
            match custom {
                Ok(domain) => opt_text(domain),
                Err(_) => None,
            },
            project_name@,
            public@,
        ),
{
    let domain = match custom {
        Ok(domain) => domain,
        Err(_) => None,
    };
    match domain {
        Some(fqdn) => "https://".to_owned().concat(fqdn.as_str()),
        None => "https://".to_owned().concat(project_name).concat(".").concat(public),
    }
}

/// The answer to a request about a service.
#[derive(Debug, PartialEq, Eq)]
pub struct ServiceAnswer {
    pub status: u16,
    /// The length of the body that the header gives.
    pub content_length: usize,
    pub body: Vec<u8>,
}

/// A [`ServiceAnswer`] as contracts speak of it.
pub struct ServiceAnswerView {
    pub status: u16,
    pub content_length: nat,
    pub body: Seq<u8>,
}

impl View for ServiceAnswer {
    type V = ServiceAnswerView;

    open spec fn view(&self) -> ServiceAnswerView {
        ServiceAnswerView {
            status: self.status,
            content_length: self.content_length as nat,
            body: self.body@,
        }
    }
}

/// What becomes of an answer of a deployer, given the summary of the service with the place where
/// it is served, if the answer was such a summary. Another answer, as where there is no service, is
/// passed on as it came. The header that gives the length follows the body.
pub open spec fn passed_on(
    status: u16,
    received: Seq<u8>,
    summary: Option<Seq<u8>>,
) -> ServiceAnswerView {
    let body = match summary {
        Some(bytes) => bytes,
        None => received,
    };
    ServiceAnswerView { status, content_length: body.len(), body }
}

/// What becomes of an answer of a deployer.
pub fn answered(status: u16, received: Vec<u8>, summary: Option<Vec<u8>>) -> (r: ServiceAnswer)
    ensures
        r@ == passed_on(
            status,
            received@,
            match summary {
                Some(bytes) => Some(bytes@),
                None => None,
            },
        ),
{
    let body = match summary {
        Some(bytes) => bytes,
        None => received,
    };
    ServiceAnswer { status, content_length: body.len(), body }
}

/// An answer that is no summary of a service reaches the user unchanged.
pub proof fn law_other_answers_are_unchanged(status: u16, received: Seq<u8>)
    ensures
        passed_on(status, received, None) == (ServiceAnswerView {
            status,
            content_length: received.len(),
            body: received,
        }),
{
}

/// A project without a domain of its own is served below the public domain, whether it has none
/// or the lookup failed; one with a domain is not.
pub proof fn law_own_domain_comes_first(
    fqdn: Seq<char>,
    project_name: Seq<char>,
    other: Seq<char>,
    public: Seq<char>,
)
    ensures
        uri_of(Some(fqdn), project_name, public) == uri_of(Some(fqdn), other, public),
        uri_of(None, project_name, public) == uri_of(
            Some(project_name + "."@ + public),
            project_name,
            public,
        ),
{
    assert("https://"@ + project_name + "."@ + public =~= "https://"@ + (project_name + "."@
        + public));
}

/// The place where a service is served is the project's own domain behind the scheme, or its name
/// and the public domain with a dot between them.
pub proof fn law_parts_of_the_uri(
    fqdn: Seq<char>,
    project_name: Seq<char>,
    public: Seq<char>,
)
    ensures
        uri_of(Some(fqdn), project_name, public) == seq!['h', 't', 't', 'p', 's', ':', '/', '/']
            + fqdn,
        uri_of(None, project_name, public) == seq!['h', 't', 't', 'p', 's', ':', '/', '/']
            + project_name + seq!['.'] + public,
{
    reveal_strlit("https://");
    reveal_strlit(".");
    assert("https://"@ =~= seq!['h', 't', 't', 'p', 's', ':', '/', '/']);
    assert("."@ =~= seq!['.']);
}

/// An answer keeps its status whatever that is, its body is the summary if there is one and what was
/// received if not, and the length that is given is that of the body.
pub proof fn law_answer_of_a_service(status: u16, received: Seq<u8>, summary: Option<Seq<u8>>)
    ensures
        passed_on(status, received, summary).status == status,
        summary matches Some(bytes) ==> passed_on(status, received, summary).body == bytes,
        summary is None ==> passed_on(status, received, summary).body == received,
        passed_on(status, received, summary).content_length == passed_on(
            status,
            received,
            summary,
        ).body.len(),
{
}

/// Contracts see all of an answer.
pub proof fn law_answer_is_seen_whole(answer: ServiceAnswer)
    ensures
        answer@.status == answer.status,
        answer@.content_length == answer.content_length,
        answer@.body == answer.body@,
{
}

} // verus!
