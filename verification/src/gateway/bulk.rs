//! Work that administrators start on many projects at once.

use crate::gateway::error::{plain, Error, ErrorKind, ErrorKindView, ErrorView};
use vstd::prelude::*;

verus! {

/// The answer to an administrator who revived projects: why it failed is not told.
pub fn revive_projects<E>(done: Result<(), E>) -> (r: Result<(), Error>)
    ensures
        r is Ok <==> done is Ok,
        r is Err ==> r->Err_0@ == plain(ErrorKindView::Internal),
{
    hide_cause(done)
}

/// The answer to an administrator who put the projects of the code challenge to sleep: why it
/// failed is not told.
pub fn idle_cch_projects<E>(done: Result<(), E>) -> (r: Result<(), Error>)
    ensures
        r is Ok <==> done is Ok,
        r is Err ==> r->Err_0@ == plain(ErrorKindView::Internal),
{
    hide_cause(done)
}

/// The answer to an administrator who took projects down: why it failed is not told.
pub fn destroy_projects<E>(done: Result<(), E>) -> (r: Result<(), Error>)
    ensures
        r is Ok <==> done is Ok,
        r is Err ==> r->Err_0@ == plain(ErrorKindView::Internal),
{
    hide_cause(done)
}

fn hide_cause<E>(done: Result<(), E>) -> (r: Result<(), Error>)
    ensures
        r is Ok <==> done is Ok,
        r is Err ==> r->Err_0@ == plain(ErrorKindView::Internal),
{
    match done {
        Ok(_) => Ok(()),
        Err(_) => Err(Error::from_kind(ErrorKind::Internal)),
    }
}

/// The answer to an administrator who opened an account with the certificate authority: the
/// account, or an error with the text of the refusal.
pub fn create_acme_account<A>(opened: Result<A, String>) -> (r: Result<A, Error>)
    ensures
        match (opened, r) {
            (Ok(a), Ok(b)) => a == b,
            (Err(text), Err(e)) => e@ == (ErrorView {
                kind: ErrorKindView::Internal,
                source: Some(text@),
            }),
            _ => false,
        },
{
    match opened {
        Ok(account) => Ok(account),
        Err(text) => Err(Error::source(ErrorKind::Internal, text)),
    }
}

} // verus!
