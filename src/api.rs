//! The two API endpoints: where they are, and which answers count as success.
use crate::error::GitLabError;
use vstd::prelude::*;
use vstd::string::StringExecFns;

verus! {

/// The decimal text of an integer, with a leading minus sign when negative.
pub open spec fn decimal_text(n: int) -> Seq<char>
    decreases (if n < 0 { -n + 1 } else { n }),
{
    if n < 0 {
        seq!['-'] + decimal_text(-n)
    } else if n < 10 {
        seq![digit_char(n)]
    } else {
        decimal_text(n / 10) + seq![digit_char(n % 10)]
    }
}

/// The ASCII digit for a value below ten.
pub open spec fn digit_char(d: int) -> char {
    (('0' as int) + d) as char
}

/// The one-character text of a decimal digit.
fn digit_text(d: u64) -> (r: &'static str)
    requires
        d < 10,
    ensures
        r@ == seq![digit_char(d as int)],
{
    proof {
        reveal_strlit("0");
        reveal_strlit("1");
        reveal_strlit("2");
        reveal_strlit("3");
        reveal_strlit("4");
        reveal_strlit("5");
        reveal_strlit("6");
        reveal_strlit("7");
        reveal_strlit("8");
        reveal_strlit("9");
    }
    match d {
        0 => "0",
        1 => "1",
        2 => "2",
        3 => "3",
        4 => "4",
        5 => "5",
        6 => "6",
        7 => "7",
        8 => "8",
        _ => "9",
    }
}

/// Appends the decimal text of `n` to `out`.
fn append_decimal(out: &mut String, n: u64)
    ensures
        final(out)@ == old(out)@ + decimal_text(n as int),
    decreases n,
{
    if n >= 10 {
        append_decimal(out, n / 10);
    }
    out.append(digit_text(n % 10));
    proof {
        if n < 10 {
            assert(n % 10 == n);
        }
        assert(out@ =~= old(out)@ + decimal_text(n as int));
    }
}

/// The decimal text of an integer.
pub fn integer_text(n: i64) -> (r: String)
    ensures
        r@ == decimal_text(n as int),
{
    if n < 0 {
        let mut out = String::from_str("-");
        proof {
            reveal_strlit("-");
        }
        // -n - 1 is representable even for the smallest `i64`.
        let magnitude: u64 = (-(n + 1)) as u64 + 1;
        append_decimal(&mut out, magnitude);
        proof {
            assert(out@ =~= decimal_text(n as int));
        }
        out
    } else {
        let mut out = String::new();
        append_decimal(&mut out, n as u64);
        proof {
            assert(out@ =~= decimal_text(n as int));
        }
        out
    }
}

/// Whether an HTTP status code is in the success range.
pub open spec fn is_success_status(code: int) -> bool {
    200 <= code < 300
}

/// Accepts a response status in the success range; any other aborts the run
/// with that code.
pub fn check_status(code: u16) -> (r: Result<(), GitLabError>)
    ensures
        is_success_status(code as int) <==> r is Ok,
        !is_success_status(code as int) ==> (r matches Err(GitLabError::ApiError(c)) && c == code),
{
    if 200 <= code && code < 300 {
        Ok(())
    } else {
        Err(GitLabError::ApiError(code))
    }
}

/// Where the API lives and how to authenticate to it; set once at start.
pub struct ApiConfig {
    pub base_url: String,
    pub project_id: String,
    pub token: String,
}

impl ApiConfig {
    /// The address that lists the merged change requests from one branch into another.
    pub open spec fn merged_requests_url_spec(&self, source: Seq<char>, target: Seq<char>) -> Seq<
        char,
    > {
        self.base_url@ + "/projects/"@ + self.project_id@
            + "/merge_requests?state=merged&source_branch="@ + source + "&target_branch="@ + target
    }

    /// The address that lists the commits of one change request.
    pub open spec fn commits_url_spec(&self, iid: int) -> Seq<char> {
        self.base_url@ + "/projects/"@ + self.project_id@ + "/merge_requests/"@ + decimal_text(iid)
            + "/commits"@
    }

    /// The address that lists the merged change requests from `source` into `target`.
    pub fn merged_requests_url(&self, source: &str, target: &str) -> (r: String)
        ensures
            r@ == self.merged_requests_url_spec(source@, target@),
    {
        let mut url = String::from_str(self.base_url.as_str());
        url.append("/projects/");
        url.append(self.project_id.as_str());
        url.append("/merge_requests?state=merged&source_branch=");
        url.append(source);
        url.append("&target_branch=");
        url.append(target);
        url
    }

    /// The address that lists the commits of change request `iid`.
    pub fn commits_url(&self, iid: i64) -> (r: String)
        ensures
            r@ == self.commits_url_spec(iid as int),
    {
        let number = integer_text(iid);
        let mut url = String::from_str(self.base_url.as_str());
        url.append("/projects/");
        url.append(self.project_id.as_str());
        url.append("/merge_requests/");
        url.append(number.as_str());
        url.append("/commits");
        url
    }
}

} // verus!
