//! The time a change request took: from its origin commit to its merge.
use crate::error::GitLabError;
use crate::text::{lower_of, lowercase, regex_compiles, regex_finds, regex_is_match};
use crate::time::{instant_of, nanos_between, parse_timestamp, Timestamp};
use vstd::prelude::*;
use vstd::string::StringExecFns;

verus! {

/// One commit of a change request, as the API lists it.
#[derive(Clone, Debug)]
pub struct Commit {
    pub created_at: String,
    pub message: String,
}

/// A merged change request, as the API lists it.
#[derive(Clone, Debug)]
pub struct MergeRequest {
    pub iid: i64,
    pub merged_at: String,
}

/// The text of the merge pattern for a source branch, before case folding.
/// The branch name is put in verbatim, so its metacharacters keep their meaning.
pub open spec fn pattern_text(source_branch: Seq<char>) -> Seq<char> {
    "merge branch '.*' into '"@ + source_branch + "'"@
}

/// The merge pattern, in lower case.
pub open spec fn merge_pattern(source_branch: Seq<char>) -> Seq<char> {
    lower_of(pattern_text(source_branch))
}

/// Whether a commit message records a merge into the source branch,
/// ignoring case.
pub open spec fn is_merge_message(message: Seq<char>, source_branch: Seq<char>) -> bool {
    regex_finds(merge_pattern(source_branch), lower_of(message))
}

/// For each commit, whether its message records a merge into the source branch.
pub open spec fn merge_flags(commits: Seq<Commit>, source_branch: Seq<char>) -> Seq<bool> {
    commits.map_values(|c: Commit| is_merge_message(c.message@, source_branch))
}

/// Some commit is flagged.
pub open spec fn has_match(flags: Seq<bool>) -> bool {
    exists|i: int| 0 <= i < flags.len() && flags[i]
}

/// `j` is the last flagged position.
pub open spec fn is_last_match(flags: Seq<bool>, j: int) -> bool {
    &&& 0 <= j < flags.len()
    &&& flags[j]
    &&& forall|k: int| j < k < flags.len() ==> !flags[k]
}

/// The position of the origin commit: the last flagged one, or the first
/// commit when none is flagged.
pub open spec fn origin_index(flags: Seq<bool>) -> int {
    if has_match(flags) {
        choose|j: int| is_last_match(flags, j)
    } else {
        0
    }
}

/// When some commit is flagged, the origin is the last flagged commit in
/// list order.
pub proof fn lemma_origin_is_last_match(flags: Seq<bool>, j: int)
    requires
        is_last_match(flags, j),
    ensures
        origin_index(flags) == j,
{
    assert(has_match(flags));
    let c = choose|i: int| is_last_match(flags, i);
    assert(is_last_match(flags, c));
    if c < j {
        assert(!flags[j]);
    } else if c > j {
        assert(!flags[c]);
    }
}

/// When no commit is flagged, the origin is the first commit.
pub proof fn lemma_origin_without_match(flags: Seq<bool>)
    requires
        !has_match(flags),
    ensures
        origin_index(flags) == 0,
{
}

/// Picks the origin position from the flags: the last flagged position, or
/// the first position when none is flagged; nothing for an empty list.
pub fn select_origin(flags: &Vec<bool>) -> (r: Option<usize>)
    ensures
        flags@.len() == 0 <==> r is None,
        flags@.len() > 0 && !has_match(flags@) ==> r == Some(0usize),
        has_match(flags@) ==> (r matches Some(j) && is_last_match(flags@, j as int)),
        r matches Some(j) ==> j == origin_index(flags@),
{
    let n = flags.len();
    if n == 0 {
        return None;
    }
    let mut i: usize = n;
    while i > 0
        invariant
            i <= n,
            n == flags@.len(),
            forall|k: int| i <= k < n ==> !flags@[k],
        decreases i,
    {
        if flags[i - 1] {
            proof {
                lemma_origin_is_last_match(flags@, (i - 1) as int);
            }
            return Some(i - 1);
        }
        i = i - 1;
    }
    proof {
        lemma_origin_without_match(flags@);
    }
    Some(0)
}

/// Builds the lower-case merge pattern for a source branch.
pub fn build_merge_pattern(source_branch: &str) -> (r: String)
    ensures
        r@ == merge_pattern(source_branch@),
{
    let mut text = String::from_str("merge branch '.*' into '");
    text.append(source_branch);
    text.append("'");
    lowercase(text.as_str())
}

/// Whether a message matches an already built merge pattern, ignoring case;
/// fails when the pattern is not a valid regular expression.
pub fn matches_pattern(pattern: &str, message: &str) -> (r: Result<bool, GitLabError>)
    ensures
        r is Ok <==> regex_compiles(pattern@),
        r matches Ok(found) ==> found == regex_finds(pattern@, lower_of(message@)),
        r matches Err(e) ==> e is RegexError,
{
    let folded = lowercase(message);
    match regex_is_match(pattern, folded.as_str()) {
        Ok(found) => Ok(found),
        Err(e) => Err(GitLabError::RegexError(e)),
    }
}

/// Flags each commit whose message records a merge into the source branch.
pub fn flag_merge_commits(commits: &Vec<Commit>, source_branch: &str) -> (r: Result<
    Vec<bool>,
    GitLabError,
>)
    ensures
        (commits@.len() == 0 || regex_compiles(merge_pattern(source_branch@))) <==> r is Ok,
        r matches Ok(flags) ==> flags@ == merge_flags(commits@, source_branch@),
        r matches Err(e) ==> e is RegexError,
{
    let mut flags: Vec<bool> = Vec::new();
    if commits.len() == 0 {
        proof {
            assert(flags@ =~= merge_flags(commits@, source_branch@));
        }
        return Ok(flags);
    }
    let pattern = build_merge_pattern(source_branch);
    let mut i: usize = 0;
    while i < commits.len()
        invariant
            i <= commits@.len(),
            pattern@ == merge_pattern(source_branch@),
            i > 0 ==> regex_compiles(pattern@),
            flags@ =~= merge_flags(commits@, source_branch@).take(i as int),
        decreases commits@.len() - i,
    {
        let found = match matches_pattern(pattern.as_str(), commits[i].message.as_str()) {
            Ok(found) => found,
            Err(e) => return Err(e),
        };
        flags.push(found);
        i = i + 1;
        proof {
            assert(flags@ =~= merge_flags(commits@, source_branch@).take(i as int));
        }
    }
    proof {
        assert(merge_flags(commits@, source_branch@).take(i as int) =~= merge_flags(
            commits@,
            source_branch@,
        ));
    }
    Ok(flags)
}

/// The time from the origin commit to the merge, in nanoseconds, given the
/// merge instant, the commits and their merge flags.
pub fn time_from_origin(merged_at: &Timestamp, commits: &Vec<Commit>, flags: &Vec<bool>) -> (r:
    Result<i128, GitLabError>)
    requires
        flags@.len() == commits@.len(),
    ensures
        commits@.len() == 0 ==> r matches Err(GitLabError::EmptyCommitList),
        commits@.len() > 0 ==> {
            let origin = commits@[origin_index(flags@)].created_at@;
            match instant_of(origin) {
                Some(t) => r matches Ok(d) && d == merged_at.total_nanos() - t.total_nanos(),
                None => r matches Err(GitLabError::ChronoParseError(_)),
            }
        },
{
    match select_origin(flags) {
        None => Err(GitLabError::EmptyCommitList),
        Some(j) => {
            let origin = parse_timestamp(commits[j].created_at.as_str())?;
            Ok(nanos_between(&origin, merged_at))
        },
    }
}

/// The signed time, in nanoseconds, from a change request's origin commit to
/// its merge. The origin is the last commit, in list order, whose message
/// records a merge of some branch into the source branch, or the first
/// commit when none does. The merge timestamp is read first, so a bad one
/// fails the call whatever the commits; then an empty commit list fails, as do
/// a source branch that makes the pattern invalid and an origin timestamp
/// that does not parse.
pub fn calculate_time_difference(mr: &MergeRequest, commits: &Vec<Commit>, source_branch: &str) -> (r:
    Result<i128, GitLabError>)
    ensures
        instant_of(mr.merged_at@) is None ==> r matches Err(GitLabError::ChronoParseError(_)),
        instant_of(mr.merged_at@) is Some && commits@.len() == 0 ==> r matches Err(
            GitLabError::EmptyCommitList,
        ),
        instant_of(mr.merged_at@) is Some && commits@.len() > 0 && !regex_compiles(
            merge_pattern(source_branch@),
        ) ==> r matches Err(GitLabError::RegexError(_)),
        commits@.len() > 0 && regex_compiles(merge_pattern(source_branch@)) ==> {
            let origin = commits@[origin_index(merge_flags(commits@, source_branch@))].created_at@;
            match (instant_of(mr.merged_at@), instant_of(origin)) {
                (Some(m), Some(t)) => r matches Ok(d) && d == m.total_nanos() - t.total_nanos(),
                _ => r matches Err(GitLabError::ChronoParseError(_)),
            }
        },
        // No commit message matches: the time is measured from the first commit.
        commits@.len() > 0 && regex_compiles(merge_pattern(source_branch@)) && !has_match(
            merge_flags(commits@, source_branch@),
        ) ==> match (instant_of(mr.merged_at@), instant_of(commits@[0].created_at@)) {
            (Some(m), Some(t)) => r matches Ok(d) && d == m.total_nanos() - t.total_nanos(),
            _ => r matches Err(GitLabError::ChronoParseError(_)),
        },
        // Some message matches: the time is measured from the last matching
        // commit in list order, with no sorting by time.
        forall|k: int|
            regex_compiles(merge_pattern(source_branch@)) && #[trigger] is_last_match(
                merge_flags(commits@, source_branch@),
                k,
            ) ==> match (instant_of(mr.merged_at@), instant_of(commits@[k].created_at@)) {
                (Some(m), Some(t)) => r matches Ok(d) && d == m.total_nanos() - t.total_nanos(),
                _ => r matches Err(GitLabError::ChronoParseError(_)),
            },
        r matches Ok(d) ==> -crate::report::MAX_SPAN <= d <= crate::report::MAX_SPAN,
{
    let merged_at = parse_timestamp(mr.merged_at.as_str())?;
    if commits.len() == 0 {
        return Err(GitLabError::EmptyCommitList);
    }
    let flags = flag_merge_commits(commits, source_branch)?;
    proof {
        let f = merge_flags(commits@, source_branch@);
        if !has_match(f) {
            lemma_origin_without_match(f);
        }
        assert forall|k: int| #[trigger] is_last_match(f, k) implies origin_index(f) == k by {
            lemma_origin_is_last_match(f, k);
        }
    }
    time_from_origin(&merged_at, commits, &flags)
}

} // verus!
