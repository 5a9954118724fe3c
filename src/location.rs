use vstd::prelude::*;

verus! {

/// Relies on `str::starts_with` with a `&str` pattern: whether `s` begins
/// with `prefix`.
#[verifier::external_body]
fn starts_with(s: &str, prefix: &str) -> (r: bool)
    ensures
        r == (prefix@.len() <= s@.len() && s@.subrange(0, prefix@.len() as int) == prefix@),
{
    s.starts_with(prefix)
}

/// Path under which the deployed application is served.
pub open spec fn deploy_prefix() -> Seq<char> {
    "/quiz-app/"@
}

/// Base path of the application for a page at `pathname`.
pub open spec fn base_url_of(pathname: Seq<char>) -> Seq<char> {
    if deploy_prefix().len() <= pathname.len() && pathname.subrange(0, deploy_prefix().len() as int)
        == deploy_prefix() {
        deploy_prefix()
    } else {
        Seq::empty()
    }
}

/// Base path of the application for a page at `pathname`: the deployment
/// path where the page lies under it, else the root.
pub fn get_base_url(pathname: &str) -> (r: String)
    ensures
        r@ == base_url_of(pathname@),
{
    let prefix = "/quiz-app/";
    if starts_with(pathname, prefix) {
        prefix.to_string()
    } else {
        String::new()
    }
}

/// Location of the question source for a page at `pathname`.
pub fn questions_url(pathname: &str) -> (r: String)
    ensures
        r@ == base_url_of(pathname@) + "questions.csv"@,
{
    let mut url = get_base_url(pathname);
    url.append("questions.csv");
    url
}

} // verus!
