//! What is asked over HTTP, as far as it can be decided without the
//! network: how long a request has to wait for the rate limit, with which
//! parameters the registry is searched, and where the readme of a
//! repository may be found.

use vstd::prelude::*;

use crate::cargo::metadata::{opt_str, opt_str_list, str_list};
use crate::search::search_options::Sort;
use crate::text::{decimal, str_eq, to_decimal};

verus! {

/// Keeps requests apart: a new request goes out no sooner than the rate
/// limit after the one before it.
#[derive(Debug, Clone, Copy, PartialEq, Eq, Structural)]
pub struct HttpClient {
    /// The least time between two requests, in milliseconds.
    pub rate_limit: u64,
    /// When the last request went out, in milliseconds on a clock that
    /// does not go back.
    pub last_request_time: Option<u64>,
}

impl HttpClient {
    /// How long a request that is to go out at `now` has to wait.
    pub open spec fn spec_wait(self, now: u64) -> u64 {
        match self.last_request_time {
            Some(last) => if now >= last && now - last < self.rate_limit {
                (self.rate_limit - (now - last)) as u64
            } else {
                0
            },
            None => 0,
        }
    }

    /// A client that has sent no request yet.
    pub fn new(rate_limit: u64) -> (r: HttpClient)
        ensures
            r.rate_limit == rate_limit,
            r.last_request_time.is_none(),
    {
        HttpClient { rate_limit, last_request_time: None }
    }

    /// How long a request that is to go out at `now` has to wait:
    /// what is left of the rate limit since the last request. After the
    /// wait the rate limit has passed.
    pub fn wait(&self, now: u64) -> (r: u64)
        ensures
            r == self.spec_wait(now),
            r <= self.rate_limit,
            self.last_request_time.is_some() && now >= self.last_request_time.unwrap() ==> now + r
                - self.last_request_time.unwrap() >= self.rate_limit,
    {
        match self.last_request_time {
            Some(last) => {
                if now >= last && now - last < self.rate_limit {
                    self.rate_limit - (now - last)
                } else {
                    0
                }
            },
            None => 0,
        }
    }

    /// Notes that a request went out at `now`.
    pub fn request_sent(&mut self, now: u64)
        ensures
            final(self).rate_limit == old(self).rate_limit,
            final(self).last_request_time == Some(now),
    {
        self.last_request_time = Some(now);
    }
}

/// What an address says of where it points: the domain of its host, if
/// the host is a domain, and the segments of its path, if it has a path
/// of segments.
#[derive(Debug, PartialEq, Eq)]
pub struct UrlParts {
    pub domain: Option<String>,
    pub path_segments: Option<Vec<String>>,
}

/// Mathematical value of [`UrlParts`].
pub struct UrlPartsView {
    pub domain: Option<Seq<char>>,
    pub path_segments: Option<Seq<Seq<char>>>,
}

impl View for UrlParts {
    type V = UrlPartsView;

    open spec fn view(&self) -> UrlPartsView {
        UrlPartsView {
            domain: opt_str(self.domain),
            path_segments: opt_str_list(self.path_segments),
        }
    }
}

/// The parts of the address `url` as the `url` crate reads it; `None`
/// where it is no absolute address.
pub uninterp spec fn url_parts(url: Seq<char>) -> Option<UrlPartsView>;

/// `Url::parse`, `Url::domain` and `Url::path_segments` of the `url`
/// crate, as `reqwest` hands it on. Trusted: the result holds the domain
/// and the path segments of the address, and is `None` where the address
/// cannot be parsed.
#[verifier::external_body]
fn parse_url(url: &str) -> (r: Option<UrlParts>)
    ensures
        match r {
            Some(parts) => url_parts(url@) == Some(parts@),
            None => url_parts(url@).is_none(),
        },
{
    match reqwest::Url::parse(url) {
        Ok(parsed) => Some(
            UrlParts {
                domain: parsed.domain().map(|d| d.to_string()),
                path_segments: parsed.path_segments().map(|s| s.map(|p| p.to_string()).collect()),
            },
        ),
        Err(_) => None,
    }
}

/// Where the readme of a GitHub repository stands on a branch.
pub open spec fn raw_readme_url(owner: Seq<char>, name: Seq<char>, branch: Seq<char>) -> Seq<char> {
    "https://raw.githubusercontent.com/"@ + owner + "/"@ + name + "/refs/heads/"@ + branch
        + "/README.md"@
}

/// The addresses at which the readme of the repository may stand, in the
/// order in which to try them: on the branch `main`, then on `master`.
/// Only a repository on github.com, named by owner and name, has any.
pub open spec fn spec_readme_urls(parts: UrlPartsView) -> Seq<Seq<char>> {
    if parts.domain == Some("github.com"@) && parts.path_segments.is_some()
        && parts.path_segments.unwrap().len() >= 2 {
        seq![
            raw_readme_url(
                parts.path_segments.unwrap()[0],
                parts.path_segments.unwrap()[1],
                "main"@,
            ),
            raw_readme_url(
                parts.path_segments.unwrap()[0],
                parts.path_segments.unwrap()[1],
                "master"@,
            ),
        ]
    } else {
        Seq::empty()
    }
}

/// Where the readme of a GitHub repository stands on a branch.
fn raw_readme(owner: &str, name: &str, branch: &str) -> (r: String)
    ensures
        r@ == raw_readme_url(owner@, name@, branch@),
{
    let mut s = String::from_str("https://raw.githubusercontent.com/");
    s.append(owner);
    s.append("/");
    s.append(name);
    s.append("/refs/heads/");
    s.append(branch);
    s.append("/README.md");
    s
}

/// The addresses at which the readme of the repository may stand.
pub fn readme_urls(parts: &UrlParts) -> (r: Vec<String>)
    ensures
        str_list(r@) == spec_readme_urls(parts@),
{
    let mut urls: Vec<String> = Vec::new();
    let on_github = match &parts.domain {
        Some(d) => str_eq(d.as_str(), "github.com"),
        None => false,
    };
    if on_github {
        if let Some(segments) = &parts.path_segments {
            if segments.len() >= 2 {
                let owner = &segments[0];
                let name = &segments[1];
                assert(str_list(segments@)[0] == owner@);
                assert(str_list(segments@)[1] == name@);
                urls.push(raw_readme(owner.as_str(), name.as_str(), "main"));
                urls.push(raw_readme(owner.as_str(), name.as_str(), "master"));
            }
        }
    }
    proof {
        assert(str_list(urls@) =~= spec_readme_urls(parts@));
    }
    urls
}

/// The parameters of a search of the registry: the term, the sort key,
/// the page and the page size.
pub open spec fn spec_search_query(term: Seq<char>, sort: Sort, per_page: usize, page: usize) -> Seq<
    (Seq<char>, Seq<char>),
> {
    seq![
        ("q"@, term),
        ("sort"@, sort.spec_query_value()),
        ("page"@, decimal(page as nat)),
        ("per_page"@, decimal(per_page as nat)),
    ]
}

/// The views of pairs of texts.
pub open spec fn pairs_view(pairs: Seq<(String, String)>) -> Seq<(Seq<char>, Seq<char>)> {
    pairs.map_values(|p: (String, String)| (p.0@, p.1@))
}

impl HttpClient {
    /// The parameters with which the registry is searched, in the order
    /// in which they go into the address.
    pub fn search(term: &str, sort: Sort, per_page: usize, page: usize) -> (r: Vec<(String, String)>)
        ensures
            pairs_view(r@) == spec_search_query(term@, sort, per_page, page),
    {
        let mut pairs: Vec<(String, String)> = Vec::new();
        pairs.push((String::from_str("q"), String::from_str(term)));
        pairs.push((String::from_str("sort"), String::from_str(sort.to_str())));
        pairs.push((String::from_str("page"), to_decimal(page as u64)));
        pairs.push((String::from_str("per_page"), to_decimal(per_page as u64)));
        proof {
            assert(pairs_view(pairs@) =~= spec_search_query(term@, sort, per_page, page));
        }
        pairs
    }

    /// The addresses at which the readme of the repository at `repo_url`
    /// may stand, in the order in which to try them; none where the
    /// address is not that of a repository on github.com.
    pub fn get_repo_readme(repo_url: &str) -> (r: Vec<String>)
        ensures
            str_list(r@) == match url_parts(repo_url@) {
                Some(parts) => spec_readme_urls(parts),
                None => Seq::<Seq<char>>::empty(),
            },
    {
        match parse_url(repo_url) {
            Some(parts) => readme_urls(&parts),
            None => {
                let urls: Vec<String> = Vec::new();
                proof {
                    assert(str_list(urls@) =~= Seq::<Seq<char>>::empty());
                }
                urls
            },
        }
    }
}

} // verus!
