//! The title banner: a figlet rendering cut into its rows.
use vstd::prelude::*;
use vstd::string::{StrSliceExecFns, StringExecFns};

verus! {

/// The text that figlet's standard font renders for a message, if it renders one.
pub uninterp spec fn figlet_standard(message: Seq<char>) -> Option<Seq<char>>;

/// Relies on `figlet_rs::FIGfont::standard`, which loads the font bundled
/// with the crate, `FIGfont::convert`, which renders a message (nothing for an
/// empty one), and `Display` for `FIGure`, which writes the rendering out.
#[verifier::external_body]
fn render_standard(message: &str) -> (r: Option<String>)
    ensures
        r is Some <==> figlet_standard(message@) is Some,
        r matches Some(text) ==> figlet_standard(message@) == Some(text@),
        message@.len() == 0 ==> r is None,
{
    figlet_rs::FIGfont::standard().ok().and_then(|font| font.convert(message).map(|f| f.to_string()))
}

/// The pieces of a text between newlines, as `str::split('\n')` gives them:
/// a text with `k` newlines has `k + 1` pieces.
pub open spec fn lines_of(s: Seq<char>) -> Seq<Seq<char>>
    decreases s.len(),
{
    if s.len() == 0 {
        seq![Seq::<char>::empty()]
    } else {
        let before = lines_of(s.drop_last());
        if s.last() == '\n' {
            before.push(Seq::<char>::empty())
        } else {
            before.update(before.len() - 1, before.last().push(s.last()))
        }
    }
}

proof fn lemma_lines_of_nonempty(s: Seq<char>)
    ensures
        lines_of(s).len() >= 1,
    decreases s.len(),
{
    if s.len() > 0 {
        lemma_lines_of_nonempty(s.drop_last());
    }
}

/// The views of a list of strings.
pub open spec fn views(v: Seq<String>) -> Seq<Seq<char>> {
    v.map_values(|l: String| l@)
}

/// Splits a text at each newline.
pub fn split_lines(s: &str) -> (r: Vec<String>)
    ensures
        views(r@) == lines_of(s@),
{
    let n = s.unicode_len();
    let mut out: Vec<String> = Vec::new();
    let mut start: usize = 0;
    let mut i: usize = 0;
    proof {
        assert(s@.take(0) =~= Seq::<char>::empty());
        assert(views(out@).push(s@.subrange(0, 0)) =~= lines_of(s@.take(0)));
    }
    while i < n
        invariant
            n == s@.len(),
            start <= i <= n,
            views(out@).push(s@.subrange(start as int, i as int)) == lines_of(s@.take(i as int)),
        decreases n - i,
    {
        let c = s.get_char(i);
        let ghost prev = lines_of(s@.take(i as int));
        proof {
            assert(s@.take(i + 1).drop_last() =~= s@.take(i as int));
            assert(s@.take(i + 1).last() == c);
            lemma_lines_of_nonempty(s@.take(i as int));
        }
        let ghost old_out = out@;
        let ghost old_start = start;
        if c == '\n' {
            let piece = s.substring_char(start, i);
            out.push(String::from_str(piece));
            start = i + 1;
            proof {
                assert(views(out@) =~= views(old_out).push(s@.subrange(old_start as int, i as int)));
                assert(s@.subrange(start as int, (i + 1) as int) =~= Seq::<char>::empty());
                assert(views(out@).push(s@.subrange(start as int, (i + 1) as int)) =~= prev.push(
                    Seq::<char>::empty(),
                ));
            }
        } else {
            proof {
                assert(s@.subrange(start as int, (i + 1) as int) =~= s@.subrange(
                    start as int,
                    i as int,
                ).push(c));
                assert(views(out@).push(s@.subrange(start as int, (i + 1) as int)) =~= prev.update(
                    prev.len() - 1,
                    prev.last().push(c),
                ));
            }
        }
        i = i + 1;
    }
    let piece = s.substring_char(start, n);
    out.push(String::from_str(piece));
    proof {
        assert(s@.take(n as int) =~= s@);
        assert(views(out@) =~= lines_of(s@));
    }
    out
}

/// The first five rows of the standard figlet rendering of `message`;
/// nothing when it does not render or renders fewer than five rows.
pub fn banner_rows(message: &str) -> (r: Option<Vec<String>>)
    ensures
        match figlet_standard(message@) {
            Some(text) => if lines_of(text).len() >= 5 {
                r matches Some(rows) && views(rows@) == lines_of(text).take(5)
            } else {
                r is None
            },
            None => r is None,
        },
{
    match render_standard(message) {
        None => None,
        Some(text) => {
            let mut rows = split_lines(text.as_str());
            if rows.len() < 5 {
                None
            } else {
                rows.truncate(5);
                proof {
                    assert(views(rows@) =~= lines_of(text@).take(5));
                }
                Some(rows)
            }
        },
    }
}

} // verus!
