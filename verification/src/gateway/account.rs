//! Accounts and the projects that belong to them.

use crate::gateway::error::Error;
use std::str::FromStr;
use vstd::prelude::*;
use vstd::std_specs::convert::{FromSpec, FromSpecImpl};

verus! {

/// The name of an account: any text.
#[derive(Debug, Clone, PartialEq, Eq)]
pub struct AccountName(String);

impl View for AccountName {
    type V = Seq<char>;

    closed spec fn view(&self) -> Seq<char> {
        self.0@
    }
}

impl AccountName {
    /// The account of this name.
    pub fn from_str(s: &str) -> (r: Result<Self, Error>)
        ensures
            r is Ok,
            r->Ok_0@ == s@,
    {
        Ok(AccountName(s.to_owned()))
    }

    /// The name as text.
    pub fn text(&self) -> (r: String)
        ensures
            r@ == self@,
    {
        self.0.clone()
    }
}

impl FromStr for AccountName {
    type Err = Error;

    fn from_str(s: &str) -> (r: Result<Self, Error>)
        ensures
            r is Ok,
            r->Ok_0@ == s@,
    {
        AccountName::from_str(s)
    }
}

/// A project and the account that it belongs to.
#[derive(Debug, Clone, PartialEq, Eq)]
pub struct ProjectDetails {
    pub project_name: String,
    pub account_name: AccountName,
}

/// A [`ProjectDetails`] as administrators see it.
#[derive(Debug, PartialEq, Eq)]
pub struct ProjectResponse {
    pub project_name: String,
    pub account_name: String,
}

impl From<ProjectDetails> for ProjectResponse {
    fn from(project: ProjectDetails) -> Self {
        ProjectResponse {
            project_name: project.project_name,
            account_name: project.account_name.0,
        }
    }
}

impl FromSpecImpl<ProjectDetails> for ProjectResponse {
    open spec fn obeys_from_spec() -> bool {
        true
    }

    closed spec fn from_spec(project: ProjectDetails) -> Self {
        ProjectResponse {
            project_name: project.project_name,
            account_name: project.account_name.0,
        }
    }
}

/// Whether `response` shows the project and the account of `details`.
pub open spec fn shows(response: ProjectResponse, details: ProjectDetails) -> bool {
    response.project_name@ == details.project_name@ && response.account_name@
        == details.account_name@
}

/// A project is shown with its own name and that of its account.
pub proof fn law_response_shows_details(details: ProjectDetails)
    ensures
        shows(<ProjectResponse as FromSpec<ProjectDetails>>::from_spec(details), details),
{
}

/// Every project with its account, in the order in which they were found.
pub fn get_projects(found: Result<Vec<ProjectDetails>, Error>) -> (r: Result<
    Vec<ProjectResponse>,
    Error,
>)
    ensures
        match (found, r) {
            (Ok(list), Ok(responses)) => responses@.len() == list@.len() && forall|i: int|
                0 <= i < list@.len() ==> shows(#[trigger] responses@[i], list@[i])
                    && responses@[i].project_name@ == list@[i].project_name@
                    && responses@[i].account_name@ == list@[i].account_name@,
            (Err(e), Err(f)) => e == f,
            _ => false,
        },
{
    match found {
        Ok(list) => {
            let mut rest = list;
            let mut out: Vec<ProjectResponse> = Vec::new();
            let ghost mut done = Seq::<ProjectDetails>::empty();
            while rest.len() > 0
                invariant
                    done + rest@ == list@,
                    out@.len() == done.len(),
                    forall|j: int| 0 <= j < done.len() ==> shows(#[trigger] out@[j], done[j]),
                decreases rest.len(),
            {
                let ghost before = rest@;
                let details = rest.remove(0);
                assert(done.push(details) + rest@ =~= done + before);
                proof {
                    done = done.push(details);
                }
                out.push(ProjectResponse::from(details));
            }
            assert(done =~= list@);
            Ok(out)
        },
        Err(e) => Err(e),
    }
}

/// What shows a project has its name and that of its account, and nothing else does.
pub proof fn law_what_shows_a_project(response: ProjectResponse, details: ProjectDetails)
    ensures
        shows(response, details) <==> response.project_name@ == details.project_name@
            && response.account_name@ == details.account_name@,
        ({
            let r = <ProjectResponse as FromSpec<ProjectDetails>>::from_spec(details);
            r.project_name@ == details.project_name@ && r.account_name@ == details.account_name@
        }),
{
}

} // verus!
