//! Listing projects.

use crate::gateway::error::Error;
use crate::gateway::project::{shown, FoundProject, Response, ResponseView};
use crate::text::uppercase;
use vstd::prelude::*;

verus! {

/// Which of the projects of a user to list.
#[derive(Debug, Clone, Copy)]
pub struct PaginationDetails {
    /// Page to fetch, starting from 0.
    pub page: Option<u32>,
    /// Number of results per page.
    pub limit: Option<u32>,
}

/// A stretch of a list: how many entries to skip and how many to take at most.
#[derive(Debug, Clone, Copy, PartialEq, Eq, Structural)]
pub struct Window {
    pub offset: i64,
    pub limit: i64,
}

impl PaginationDetails {
    /// The number of results per page: as many as there can be where none is given.
    pub open spec fn page_size(self) -> int {
        match self.limit {
            Some(limit) => limit as int,
            None => u32::MAX as int,
        }
    }

    /// The page to fetch: the first where none is given.
    pub open spec fn page_number(self) -> int {
        match self.page {
            Some(page) => page as int,
            None => 0,
        }
    }

    /// The results on the pages before.
    pub open spec fn skipped(self) -> int {
        self.page_size() * self.page_number()
    }

    /// Whether the place of the page can be told.
    pub open spec fn in_range(self) -> bool {
        self.skipped() <= i64::MAX
    }

    /// Whether the place of the page can be told.
    pub fn fits(&self) -> (r: bool)
        ensures
            r == self.in_range(),
            r == ((match self.limit {
                Some(limit) => limit as int,
                None => u32::MAX as int,
            }) * (match self.page {
                Some(page) => page as int,
                None => 0,
            }) <= i64::MAX),
    {
        let (size, number) = self.parts();
        match size.checked_mul(number) {
            Some(_) => true,
            None => {
                assert(size * number >= 0) by (nonlinear_arith)
                    requires
                        size >= 0,
                        number >= 0,
                ;
                false
            },
        }
    }

    fn parts(&self) -> (r: (i64, i64))
        ensures
            r.0 == self.page_size(),
            r.1 == self.page_number(),
    {
        let size: i64 = match self.limit {
            Some(limit) => limit as i64,
            None => u32::MAX as i64,
        };
        let number: i64 = match self.page {
            Some(page) => page as i64,
            None => 0,
        };
        (size, number)
    }

    /// The stretch of the list that is the page.
    pub fn window(&self) -> (r: Window)
        requires
            self.in_range(),
        ensures
            r.offset == self.skipped(),
            r.limit == self.page_size(),
            r.limit == (match self.limit {
                Some(limit) => limit as int,
                None => u32::MAX as int,
            }),
            r.offset == r.limit * (match self.page {
                Some(page) => page as int,
                None => 0,
            }),
    {
        let (size, number) = self.parts();
        assert(size * number >= 0) by (nonlinear_arith)
            requires
                size >= 0,
                number >= 0,
        ;
        // The offset is the page size times the number of pages before.
        Window { offset: size * number, limit: size }
    }
}

/// Whether entry `i` of a list is on the page.
pub open spec fn on_page(details: PaginationDetails, i: int) -> bool {
    details.skipped() <= i < details.skipped() + details.page_size()
}

/// Every entry of a list, as far as its page has a number, is on exactly one page of a given size.
pub proof fn law_pages_partition(limit: u32, i: int)
    requires
        limit > 0,
        0 <= i,
        i / limit as int <= u32::MAX,
    ensures
        on_page(
            PaginationDetails { page: Some((i / limit as int) as u32), limit: Some(limit) },
            i,
        ),
        forall|page: u32|
            #![trigger on_page(PaginationDetails { page: Some(page), limit: Some(limit) }, i)]
            on_page(PaginationDetails { page: Some(page), limit: Some(limit) }, i) ==> page == i
                / limit as int,
{
    let size = limit as int;
    vstd::arithmetic::div_mod::lemma_fundamental_div_mod(i, size);
    vstd::arithmetic::div_mod::lemma_div_pos_is_pos(i, size);
    assert forall|page: u32|
        #![trigger on_page(PaginationDetails { page: Some(page), limit: Some(limit) }, i)]
        on_page(PaginationDetails { page: Some(page), limit: Some(limit) }, i) implies page == i
        / size by {
        let details = PaginationDetails { page: Some(page), limit: Some(limit) };
        assert(size * page == page * size) by (nonlinear_arith);
        vstd::arithmetic::div_mod::lemma_fundamental_div_mod_converse(
            i,
            size,
            page as int,
            i - details.skipped(),
        );
    }
}

/// A page starts where the one before ends.
pub proof fn law_pages_follow_each_other(limit: Option<u32>, page: u32)
    requires
        page < u32::MAX,
    ensures
        ({
            let this = PaginationDetails { page: Some(page), limit };
            let next = PaginationDetails { page: Some((page + 1) as u32), limit };
            next.skipped() == this.skipped() + this.page_size()
        }),
{
    let size = PaginationDetails { page: None, limit }.page_size();
    assert(size * (page + 1) == size * page + size) by (nonlinear_arith);
}

/// A project with its name.
#[derive(Debug, PartialEq, Eq)]
pub struct NamedProject {
    pub name: String,
    pub project: FoundProject,
}

/// What the API shows of a list of projects.
pub open spec fn shown_list(list: Seq<NamedProject>) -> Seq<ResponseView> {
    list.map_values(|p: NamedProject| shown(p.project, p.name@))
}

/// What the API shows of the projects that were found, in the order in which they were found.
pub fn get_projects_list(found: Result<Vec<NamedProject>, Error>) -> (r: Result<Vec<Response>, Error>)
    ensures
        match (found, r) {
            (Ok(list), Ok(shown)) => shown@.map_values(|x: Response| x@) == shown_list(list@)
                && shown@.len() == list@.len() && forall|i: int|
                0 <= i < list@.len() ==> (#[trigger] shown@[i]).id@ == uppercase(
                    list@[i].project.project_id@,
                ) && shown@[i].name@ == list@[i].name@ && shown@[i].state == list@[i].project.state
                    && shown@[i].idle_minutes == list@[i].project.idle_minutes,
            (Err(e), Err(f)) => e == f,
            _ => false,
        },
{
    match found {
        Ok(list) => {
            let mut rest = list;
            let mut out: Vec<Response> = Vec::new();
            let ghost mut done = Seq::<NamedProject>::empty();
            while rest.len() > 0
                invariant
                    done + rest@ == list@,
                    out@.len() == done.len(),
                    forall|j: int|
                        0 <= j < done.len() ==> (#[trigger] out@[j])@ == shown(
                            done[j].project,
                            done[j].name@,
                        ),
                decreases rest.len(),
            {
                let ghost before = rest@;
                let p = rest.remove(0);
                assert(done.push(p) + rest@ =~= done + before);
                proof {
                    done = done.push(p);
                }
                out.push(Response::new(p.project, p.name.as_str()));
            }
            assert(done =~= list@);
            assert(out@.map_values(|x: Response| x@) =~= shown_list(list@));
            Ok(out)
        },
        Err(e) => Err(e),
    }
}

/// What the API shows of the project that was found under this name.
pub fn get_project(found: Result<FoundProject, Error>, name: &str) -> (r: Result<Response, Error>)
    ensures
        match (found, r) {
            (Ok(project), Ok(response)) => response@ == shown(project, name@) && response.id@
                == uppercase(project.project_id@) && response.name@ == name@ && response.state
                == project.state && response.idle_minutes == project.idle_minutes,
            (Err(e), Err(f)) => e == f,
            _ => false,
        },
{
    match found {
        Ok(project) => Ok(Response::new(project, name)),
        Err(e) => Err(e),
    }
}

/// A list is shown whole: it has as many entries as projects were found, and each entry shows the
/// project at its place, whatever state that is in.
pub proof fn law_list_is_shown_whole(list: Seq<NamedProject>, i: int)
    requires
        0 <= i < list.len(),
    ensures
        shown_list(list).len() == list.len(),
        shown_list(list)[i].id == uppercase(list[i].project.project_id@),
        shown_list(list)[i].name == list[i].name@,
        shown_list(list)[i].state == list[i].project.state,
        shown_list(list)[i].idle_minutes == list[i].project.idle_minutes,
{
}

/// Of two lists that are put together, what is shown is put together too.
pub proof fn law_lists_are_shown_one_after_the_other(a: Seq<NamedProject>, b: Seq<NamedProject>)
    ensures
        shown_list(a + b) == shown_list(a) + shown_list(b),
{
    assert(shown_list(a + b) =~= shown_list(a) + shown_list(b));
}

/// A page without a number is the first, and a page without a size takes as many results as can be
/// counted.
pub proof fn law_page_by_default(details: PaginationDetails)
    ensures
        details.page is None ==> details.skipped() == 0,
        details.limit is None ==> details.page_size() == 4_294_967_295,
        details.limit matches Some(limit) ==> details.page_size() == limit,
        details.page matches Some(page) ==> details.page_number() == page,
        details.skipped() == details.page_size() * details.page_number(),
        forall|i: int|
            on_page(details, i) <==> details.skipped() <= i && i < details.skipped()
                + details.page_size(),
        details.in_range() <==> details.skipped() <= 9_223_372_036_854_775_807,
{
}

} // verus!
