//! The operator's approval of a proposed pairing.
use vstd::prelude::*;
use crate::error::ProgramError;
use crate::pairing::PairSet;
use crate::text::{contains, contains_seq};

verus! {

/// An answer is a rejection when it holds a lower-case `n` anywhere.
pub open spec fn is_approved_spec(answer: Seq<char>) -> bool {
    !contains_seq(answer, seq!['n'])
}

/// Whether the operator's answer approves the pairing. Anything without a
/// lower-case `n`, the empty answer included, approves.
pub fn is_approved(answer: &str) -> (r: bool)
    ensures
        r == is_approved_spec(answer@),
{
    proof {
        reveal_strlit("n");
    }
    let n = "n";
    assert(n@ =~= seq!['n']);
    !contains(answer, n)
}

/// The confirmation gate: `ExitError` when the answer rejects the pairing.
pub fn confirm(answer: &str) -> (r: Result<(), ProgramError>)
    ensures
        r is Ok <==> is_approved_spec(answer@),
        r is Err ==> r->Err_0 is ExitError,
{
    if is_approved(answer) {
        Ok(())
    } else {
        Err(ProgramError::ExitError)
    }
}

/// The preview line of one pair: the subtitle, a tab, the video.
pub open spec fn preview_line_spec(sub: Seq<char>, video: Seq<char>) -> Seq<char> {
    sub + seq!['\t'] + video
}

/// One preview line per pair, in pairing order.
pub fn preview_lines(pairs: &PairSet) -> (r: Vec<String>)
    ensures
        r@.len() == pairs.videos_view().len(),
        forall|i: int|
            0 <= i < r@.len() ==> #[trigger] r@[i]@ == preview_line_spec(
                pairs.subs_view()[i],
                pairs.videos_view()[i],
            ),
{
    let n = pairs.len();
    let mut r: Vec<String> = Vec::new();
    let mut i: usize = 0;
    while i < n
        invariant
            n == pairs.subs_view().len(),
            n == pairs.videos_view().len(),
            i <= n,
            r@.len() == i,
            forall|k: int|
                0 <= k < i ==> #[trigger] r@[k]@ == preview_line_spec(
                    pairs.subs_view()[k],
                    pairs.videos_view()[k],
                ),
        decreases n - i,
    {
        proof {
            reveal_strlit("\t");
        }
        let tab = "\t";
        assert(tab@ =~= seq!['\t']);
        let line = pairs.sub(i).clone().concat(tab).concat(pairs.video(i).as_str());
        r.push(line);
        i = i + 1;
    }
    r
}

} // verus!
