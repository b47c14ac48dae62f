//! The two request handlers: creating a link and resolving a code, with the
//! HTTP status and text that each outcome is answered with.

use vstd::prelude::*;
use vstd::string::*;

use crate::code::{generate_code, is_generated_code};
use crate::model::{now_utc, Link, LinkView};
use crate::store::{has_code, lookup, LinkStore, StoreError};

verus! {

/// Why a link could not be created.
#[derive(Clone, Debug)]
pub enum CreateError {
    /// The target URL was empty.
    MissingTarget,
    /// The code is already taken; carries the store's account of it.
    Conflict(String),
    /// The store could not be reached; carries the store's account of it.
    Unavailable(String),
}

/// What resolving a code comes to.
#[derive(Clone, Debug)]
pub enum ResolveOutcome {
    /// The code is known; carries its target URL.
    Found(String),
    /// No record has the code.
    NotFound,
    /// The store could not be reached; carries the store's account of it.
    Unavailable(String),
}

/// Status of a successful creation.
pub const STATUS_CREATED: u16 = 201;

/// Status of a successful resolution.
pub const STATUS_OK: u16 = 200;

/// Status of a request whose target URL is missing.
pub const STATUS_BAD_REQUEST: u16 = 400;

/// Status of a code that no record has.
pub const STATUS_NOT_FOUND: u16 = 404;

/// Status of a failure of the store.
pub const STATUS_SERVER_ERROR: u16 = 500;

impl CreateError {
    /// The HTTP status the error is answered with.
    pub fn status_code(&self) -> (r: u16)
        ensures
            r == match self {
                CreateError::MissingTarget => STATUS_BAD_REQUEST,
                _ => STATUS_SERVER_ERROR,
            },
    {
        match self {
            CreateError::MissingTarget => STATUS_BAD_REQUEST,
            _ => STATUS_SERVER_ERROR,
        }
    }

    /// The text the error is answered with.
    pub fn message(&self) -> (r: String)
        ensures
            r@ == match self {
                CreateError::MissingTarget => "Redirect URL is required"@,
                CreateError::Conflict(t) => "Database error: "@ + t@,
                CreateError::Unavailable(t) => "Database error: "@ + t@,
            },
    {
        match self {
            CreateError::MissingTarget => String::from_str("Redirect URL is required"),
            CreateError::Conflict(t) => String::from_str("Database error: ").concat(t.as_str()),
            CreateError::Unavailable(t) => String::from_str("Database error: ").concat(t.as_str()),
        }
    }
}

impl ResolveOutcome {
    /// The HTTP status the outcome is answered with.
    pub fn status_code(&self) -> (r: u16)
        ensures
            r == match self {
                ResolveOutcome::Found(_) => STATUS_OK,
                ResolveOutcome::NotFound => STATUS_NOT_FOUND,
                ResolveOutcome::Unavailable(_) => STATUS_SERVER_ERROR,
            },
    {
        match self {
            ResolveOutcome::Found(_) => STATUS_OK,
            ResolveOutcome::NotFound => STATUS_NOT_FOUND,
            ResolveOutcome::Unavailable(_) => STATUS_SERVER_ERROR,
        }
    }

    /// The text the outcome is answered with: the target URL to render, or
    /// why there is none.
    pub fn message(&self) -> (r: String)
        ensures
            r@ == match self {
                ResolveOutcome::Found(t) => t@,
                ResolveOutcome::NotFound => "Link not found"@,
                ResolveOutcome::Unavailable(t) => "Database error: "@ + t@,
            },
    {
        match self {
            ResolveOutcome::Found(t) => t.clone(),
            ResolveOutcome::NotFound => String::from_str("Link not found"),
            ResolveOutcome::Unavailable(t) => String::from_str("Database error: ").concat(t.as_str()),
        }
    }
}

/// `code` is the one a creation assigns: the requested code verbatim, or a
/// generated one where none was requested.
pub open spec fn code_assigned(requested: Option<Seq<char>>, code: Seq<char>) -> bool {
    match requested {
        Some(c) => code == c,
        None => is_generated_code(code),
    }
}

/// The view of an optional string.
pub open spec fn opt_view(o: Option<String>) -> Option<Seq<char>> {
    match o {
        Some(s) => Some(s@),
        None => None,
    }
}

/// The error text that goes with a failed store operation.
pub open spec fn store_error_text(e: StoreError) -> Seq<char> {
    match e {
        StoreError::DuplicateCode(t) => t@,
        StoreError::Unavailable(t) => t@,
    }
}

/// What a creation on a store holding `before` may return, with the store
/// holding `after` once it is done.
pub open spec fn create_post(
    before: Seq<LinkView>,
    requested: Option<Seq<char>>,
    target: Seq<char>,
    r: Result<String, CreateError>,
    after: Seq<LinkView>,
) -> bool {
    if target.len() == 0 {
        r matches Err(CreateError::MissingTarget) && after == before
    } else {
        match r {
            Ok(code) => {
                &&& code_assigned(requested, code@)
                &&& !has_code(before, code@)
                &&& after.len() == before.len() + 1
                &&& after.drop_last() == before
                &&& after.last().link == code@
                &&& after.last().redirect == target
            },
            Err(CreateError::Conflict(t)) => {
                &&& code_assigned(requested, t@)
                &&& has_code(before, t@)
                &&& after == before
            },
            Err(_) => false,
        }
    }
}

/// What resolving `code` on a store holding `s` returns.
pub open spec fn resolve_post(s: Seq<LinkView>, code: Seq<char>, r: ResolveOutcome) -> bool {
    match lookup(s, code) {
        Some(l) => r matches ResolveOutcome::Found(t) && t@ == l.redirect,
        None => r matches ResolveOutcome::NotFound,
    }
}

/// Checks the request and builds the record to insert: the requested code
/// or a fresh random one, the target, and the current time.
pub fn prepare_link(requested: Option<String>, target: String) -> (r: Result<Link, CreateError>)
    ensures
        target@.len() == 0 <==> r is Err,
        r is Err ==> r matches Err(CreateError::MissingTarget),
        r matches Ok(l) ==> code_assigned(opt_view(requested), l.link@) && l.redirect@ == target@,
{
    if target.as_str().is_empty() {
        return Err(CreateError::MissingTarget);
    }
    let link = match requested {
        Some(c) => c,
        None => generate_code(),
    };
    Ok(Link { link, created_at: now_utc(), redirect: target })
}

/// Turns the store's answer to inserting the record with code `code` into
/// the creation's result: the code on success, else the matching error.
pub fn finish_create(code: String, outcome: Result<(), StoreError>) -> (r: Result<String, CreateError>)
    ensures
        match outcome {
            Ok(()) => r == Ok::<String, CreateError>(code),
            Err(StoreError::DuplicateCode(t)) => r matches Err(CreateError::Conflict(u)) && u@ == t@,
            Err(StoreError::Unavailable(t)) => r matches Err(CreateError::Unavailable(u)) && u@ == t@,
        },
{
    match outcome {
        Ok(()) => Ok(code),
        Err(StoreError::DuplicateCode(t)) => Err(CreateError::Conflict(t)),
        Err(StoreError::Unavailable(t)) => Err(CreateError::Unavailable(t)),
    }
}

/// Turns the store's answer to a lookup into the resolution's outcome.
pub fn resolve_lookup(found: Result<Option<Link>, StoreError>) -> (r: ResolveOutcome)
    ensures
        match found {
            Ok(Some(l)) => r matches ResolveOutcome::Found(t) && t@ == l.redirect@,
            Ok(None) => r matches ResolveOutcome::NotFound,
            Err(e) => r matches ResolveOutcome::Unavailable(t) && t@ == store_error_text(e),
        },
{
    match found {
        Ok(Some(l)) => ResolveOutcome::Found(l.redirect),
        Ok(None) => ResolveOutcome::NotFound,
        Err(StoreError::DuplicateCode(t)) => ResolveOutcome::Unavailable(t),
        Err(StoreError::Unavailable(t)) => ResolveOutcome::Unavailable(t),
    }
}

/// Creates a link in `store`: fails on an empty target, assigns the
/// requested code or a generated one, and inserts the record unless its code
/// is taken.
pub fn create(store: &mut LinkStore, requested: Option<String>, target: String) -> (r: Result<
    String,
    CreateError,
>)
    requires
        old(store).wf(),
    ensures
        final(store).wf(),
        create_post(old(store)@, opt_view(requested), target@, r, final(store)@),
{
    let ghost req = opt_view(requested);
    let ghost t = target@;
    let record = match prepare_link(requested, target) {
        Ok(l) => l,
        Err(e) => return Err(e),
    };
    let code = record.link.clone();
    let ghost rv = record@;
    let outcome = store.insert(record);
    let r = finish_create(code, outcome);
    proof {
        if !has_code(old(store)@, rv.link) {
            assert(final(store)@.drop_last() =~= old(store)@);
        }
    }
    r
}

/// Resolves `code` against `store`.
pub fn resolve(store: &LinkStore, code: &String) -> (r: ResolveOutcome)
    requires
        store.wf(),
    ensures
        resolve_post(store@, code@, r),
{
    resolve_lookup(Ok(store.find_by_code(code)))
}

} // verus!
