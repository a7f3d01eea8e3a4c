use crate::controller;
use crate::controller::ApiResponse;
use crate::guard::SyncGuard;
use vstd::prelude::*;

verus! {

/// The request methods the router distinguishes: the read routes answer
/// only GET, while the branch-scoped operations accept any method.
#[derive(Debug, Clone, Copy, PartialEq, Eq, Structural)]
pub enum HttpMethod {
    Get,
    Other,
}

/// A parsed request target: which core operation the request names, with
/// the branch argument where the route carries one.
#[derive(Debug, Clone, PartialEq, Eq)]
pub enum Route {
    Index,
    Remotes,
    LocalBranches,
    RemoteBranches,
    LastCommit(String),
    Checkout(String),
    Fetch(String),
    Pull(String),
    NotFound,
}

/// Specification-level mirror of `Route`, over character sequences.
pub enum RouteSpec {
    Index,
    Remotes,
    LocalBranches,
    RemoteBranches,
    LastCommit(Seq<char>),
    Checkout(Seq<char>),
    Fetch(Seq<char>),
    Pull(Seq<char>),
    NotFound,
}

impl View for Route {
    type V = RouteSpec;

    open spec fn view(&self) -> RouteSpec {
        match self {
            Route::Index => RouteSpec::Index,
            Route::Remotes => RouteSpec::Remotes,
            Route::LocalBranches => RouteSpec::LocalBranches,
            Route::RemoteBranches => RouteSpec::RemoteBranches,
            Route::LastCommit(name) => RouteSpec::LastCommit(name@),
            Route::Checkout(name) => RouteSpec::Checkout(name@),
            Route::Fetch(name) => RouteSpec::Fetch(name@),
            Route::Pull(name) => RouteSpec::Pull(name@),
            Route::NotFound => RouteSpec::NotFound,
        }
    }
}

/// The position of the first `/` at or after `i`, if any.
pub open spec fn spec_slash_pos(s: Seq<char>, i: nat) -> Option<nat>
    decreases s.len() - i,
    when i <= s.len()
{
    if i >= s.len() {
        None
    } else if s[i as int] == '/' {
        Some(i)
    } else {
        spec_slash_pos(s, i + 1)
    }
}

/// A found slash lies within the sequence and is a slash.
pub proof fn lemma_slash_pos_props(s: Seq<char>, i: nat)
    requires
        i <= s.len(),
    ensures
        spec_slash_pos(s, i) matches Some(p) ==> i <= p < s.len() && s[p as int] == '/',
    decreases s.len() - i,
{
    if i < s.len() && s[i as int] != '/' {
        lemma_slash_pos_props(s, i + 1);
    }
}

/// The route of a request under the branch-scoped namespace, given the
/// path with the `/branch/` prefix already removed: a bare name is the
/// last-commit lookup (GET only); a non-empty name followed by one of the
/// three operation segments is that operation, any method; anything else
/// matches no route.
pub open spec fn spec_branch_route(method: HttpMethod, rest: Seq<char>) -> RouteSpec {
    match spec_slash_pos(rest, 0) {
        None => if method is Get {
            RouteSpec::LastCommit(rest)
        } else {
            RouteSpec::NotFound
        },
        Some(p) => {
            let name = rest.take(p as int);
            let operation = rest.skip(p as int + 1);
            if name.len() == 0 {
                RouteSpec::NotFound
            } else if operation == "checkout"@ {
                RouteSpec::Checkout(name)
            } else if operation == "fetch"@ {
                RouteSpec::Fetch(name)
            } else if operation == "pull"@ {
                RouteSpec::Pull(name)
            } else {
                RouteSpec::NotFound
            }
        },
    }
}

/// The route table: the four fixed GET routes, the `/branch/` namespace,
/// and a catch-all that matches nothing.
pub open spec fn spec_route(method: HttpMethod, path: Seq<char>) -> RouteSpec {
    if path == "/"@ {
        if method is Get {
            RouteSpec::Index
        } else {
            RouteSpec::NotFound
        }
    } else if path == "/remotes"@ {
        if method is Get {
            RouteSpec::Remotes
        } else {
            RouteSpec::NotFound
        }
    } else if path == "/branches/local"@ {
        if method is Get {
            RouteSpec::LocalBranches
        } else {
            RouteSpec::NotFound
        }
    } else if path == "/branches/remote"@ {
        if method is Get {
            RouteSpec::RemoteBranches
        } else {
            RouteSpec::NotFound
        }
    } else if path.len() >= 8 && path.take(8) == "/branch/"@ {
        spec_branch_route(method, path.skip(8))
    } else {
        RouteSpec::NotFound
    }
}

/// Whether two string slices hold the same characters.
pub fn str_eq(a: &str, b: &str) -> (r: bool)
    ensures
        r == (a@ == b@),
{
    let a_len = a.unicode_len();
    let b_len = b.unicode_len();
    if a_len != b_len {
        proof {
            if a@ == b@ {
                assert(a@.len() == b@.len());
            }
        }
        return false;
    }
    let mut i: usize = 0;
    while i < a_len
        invariant
            a_len == a@.len(),
            b_len == b@.len(),
            a_len == b_len,
            i <= a_len,
            forall|j: int| 0 <= j < i ==> a@[j] == b@[j],
        decreases a_len - i,
    {
        if a.get_char(i) != b.get_char(i) {
            proof {
                if a@ == b@ {
                    assert(a@[i as int] == b@[i as int]);
                }
            }
            return false;
        }
        i += 1;
    }
    proof {
        assert(a@ =~= b@);
    }
    true
}

/// The position of the first `/` in the slice, if any.
fn slash_pos(s: &str) -> (r: Option<usize>)
    ensures
        r is Some <==> spec_slash_pos(s@, 0) is Some,
        r matches Some(i) ==> spec_slash_pos(s@, 0) == Some(i as nat) && i < s@.len(),
{
    let n = s.unicode_len();
    let mut i: usize = 0;
    while i < n
        invariant
            n == s@.len(),
            i <= n,
            spec_slash_pos(s@, 0) == spec_slash_pos(s@, i as nat),
        decreases n - i,
    {
        if s.get_char(i) == '/' {
            proof {
                assert(spec_slash_pos(s@, i as nat) == Some(i as nat));
            }
            return Some(i);
        }
        proof {
            assert(spec_slash_pos(s@, i as nat) == spec_slash_pos(s@, (i + 1) as nat));
        }
        i += 1;
    }
    proof {
        assert(spec_slash_pos(s@, i as nat) is None);
    }
    None
}

/// Parses the branch-scoped part of a path, the `/branch/` prefix already
/// removed. See `spec_branch_route`.
fn parse_branch_route(method: HttpMethod, rest: &str) -> (r: Route)
    ensures
        r@ == spec_branch_route(method, rest@),
{
    let n = rest.unicode_len();
    match slash_pos(rest) {
        None => match method {
            HttpMethod::Get => Route::LastCommit(String::from_str(rest)),
            HttpMethod::Other => Route::NotFound,
        },
        Some(p) => {
            proof {
                lemma_slash_pos_props(rest@, 0);
            }
            let name = rest.substring_char(0, p);
            let operation = rest.substring_char(p + 1, n);
            proof {
                assert(name@ =~= rest@.take(p as int));
                assert(operation@ =~= rest@.skip(p as int + 1));
            }
            if p == 0 {
                Route::NotFound
            } else if str_eq(operation, "checkout") {
                Route::Checkout(String::from_str(name))
            } else if str_eq(operation, "fetch") {
                Route::Fetch(String::from_str(name))
            } else if str_eq(operation, "pull") {
                Route::Pull(String::from_str(name))
            } else {
                Route::NotFound
            }
        },
    }
}

/// Parses a request line into the route table of `spec_route`.
pub fn parse_route(method: HttpMethod, path: &str) -> (r: Route)
    ensures
        r@ == spec_route(method, path@),
{
    if str_eq(path, "/") {
        match method {
            HttpMethod::Get => Route::Index,
            HttpMethod::Other => Route::NotFound,
        }
    } else if str_eq(path, "/remotes") {
        match method {
            HttpMethod::Get => Route::Remotes,
            HttpMethod::Other => Route::NotFound,
        }
    } else if str_eq(path, "/branches/local") {
        match method {
            HttpMethod::Get => Route::LocalBranches,
            HttpMethod::Other => Route::NotFound,
        }
    } else if str_eq(path, "/branches/remote") {
        match method {
            HttpMethod::Get => Route::RemoteBranches,
            HttpMethod::Other => Route::NotFound,
        }
    } else {
        let n = path.unicode_len();
        if n >= 8 {
            let head = path.substring_char(0, 8);
            if str_eq(head, "/branch/") {
                proof {
                    assert(path@.take(8) =~= head@);
                }
                let rest = path.substring_char(8, n);
                proof {
                    assert(rest@ =~= path@.skip(8));
                }
                parse_branch_route(method, rest)
            } else {
                proof {
                    assert(path@.take(8) =~= head@);
                }
                Route::NotFound
            }
        } else {
            Route::NotFound
        }
    }
}

/// What response shape each route owes: which success payload it answers
/// with, and which error kinds it may surface instead.
pub open spec fn spec_response_shape(route: RouteSpec, r: ApiResponse) -> bool {
    match route {
        RouteSpec::Index => r is Alive,
        RouteSpec::NotFound => r is NotFound,
        RouteSpec::Remotes => r is Remotes || (r matches ApiResponse::Failure(e)
            && e is EngineFailure),
        RouteSpec::LocalBranches => r is Branches || (r matches ApiResponse::Failure(e)
            && e is EngineFailure),
        RouteSpec::RemoteBranches => r is Branches || (r matches ApiResponse::Failure(e)
            && e is EngineFailure),
        RouteSpec::LastCommit(_) => r is Commit || (r matches ApiResponse::Failure(e) && (
        e is RefNotFound || e is EngineFailure)),
        RouteSpec::Checkout(_) => r is Empty || (r matches ApiResponse::Failure(e) && (
        e is RefNotFound || e is EngineFailure)),
        RouteSpec::Fetch(_) => r is Empty || (r matches ApiResponse::Failure(e) && (
        e is RemoteNotFound || e is NetworkError)),
        RouteSpec::Pull(_) => r is Empty || (r matches ApiResponse::Failure(e) && (
        e is RemoteNotFound || e is NetworkError || e is ResetFailed)),
    }
}

/// Maps one inbound request to the core operation its route names, under
/// the guard — each operation acquires the handle for exactly its own
/// critical section — and answers with the response shape that route owes.
pub fn handle_request(guard: &mut SyncGuard, method: HttpMethod, path: &str) -> (r: ApiResponse)
    ensures
        spec_response_shape(spec_route(method, path@), r),
{
    let route = parse_route(method, path);
    match route {
        Route::Index => controller::index(),
        Route::Remotes => controller::remotes(guard.repository()),
        Route::LocalBranches => controller::local_branches(guard.repository()),
        Route::RemoteBranches => controller::remote_branches(guard.repository()),
        Route::LastCommit(name) => controller::last_commit(guard.repository(), name.as_str()),
        Route::Checkout(name) => controller::checkout(guard.repository(), name.as_str()),
        Route::Fetch(name) => controller::fetch(guard.repository(), name.as_str()),
        Route::Pull(name) => controller::pull(guard.repository(), name.as_str()),
        Route::NotFound => controller::not_found(),
    }
}

} // verus!
