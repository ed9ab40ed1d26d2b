//! Classification of directory entries and their positional pairing.
use vstd::prelude::*;
use vstd::multiset::Multiset;
use vstd::relations::sorted_by;
use crate::error::ProgramError;
use crate::text::{contains, contains_seq, lemma_name_order_total, name_le, name_order};

verus! {

broadcast use vstd::seq_lib::group_to_multiset_ensures, vstd::multiset::group_multiset_axioms;

/// What a directory entry is taken for, by its name.
#[derive(Clone, Copy, Debug, PartialEq, Eq, Structural)]
pub enum Classification {
    Video,
    Subtitle,
    Ignored,
}

/// A name that holds the video token is a video; otherwise one that holds the
/// subtitle token is a subtitle; any other name is ignored.
pub open spec fn classify_spec(
    name: Seq<char>,
    video_token: Seq<char>,
    sub_token: Seq<char>,
) -> Classification {
    if contains_seq(name, video_token) {
        Classification::Video
    } else if contains_seq(name, sub_token) {
        Classification::Subtitle
    } else {
        Classification::Ignored
    }
}

/// Classifies a directory entry by its name.
pub fn classify(name: &str, video_token: &str, sub_token: &str) -> (r: Classification)
    ensures
        r == classify_spec(name@, video_token@, sub_token@),
{
    if contains(name, video_token) {
        Classification::Video
    } else if contains(name, sub_token) {
        Classification::Subtitle
    } else {
        Classification::Ignored
    }
}

/// The character sequences of a sequence of strings.
pub open spec fn names(v: Seq<String>) -> Seq<Seq<char>> {
    v.map_values(|s: String| s@)
}

/// Holds of the names classified as `c`.
pub open spec fn class_filter(
    video_token: Seq<char>,
    sub_token: Seq<char>,
    c: Classification,
) -> spec_fn(Seq<char>) -> bool {
    |n: Seq<char>| classify_spec(n, video_token, sub_token) == c
}

/// The entries classified as `c`, with their multiplicities.
pub open spec fn classified(
    entries: Seq<Seq<char>>,
    video_token: Seq<char>,
    sub_token: Seq<char>,
    c: Classification,
) -> Multiset<Seq<char>> {
    entries.to_multiset().filter(class_filter(video_token, sub_token, c))
}

/// `videos` and `subs` are the video and subtitle entries of `entries`, each
/// sorted lexicographically, and there are as many of the one as of the other.
pub open spec fn is_pairing(
    entries: Seq<Seq<char>>,
    video_token: Seq<char>,
    sub_token: Seq<char>,
    videos: Seq<Seq<char>>,
    subs: Seq<Seq<char>>,
) -> bool {
    &&& sorted_by(videos, name_order())
    &&& sorted_by(subs, name_order())
    &&& videos.to_multiset() == classified(entries, video_token, sub_token, Classification::Video)
    &&& subs.to_multiset() == classified(entries, video_token, sub_token, Classification::Subtitle)
    &&& videos.len() == subs.len()
}

/// The video files and the subtitle files of a directory, each sorted by
/// name; the video and the subtitle at one index form a pair.
pub struct PairSet {
    videos: Vec<String>,
    subs: Vec<String>,
}

impl PairSet {
    #[verifier::type_invariant]
    spec fn inv(&self) -> bool {
        &&& self.videos@.len() == self.subs@.len()
        &&& sorted_by(names(self.videos@), name_order())
        &&& sorted_by(names(self.subs@), name_order())
    }

    /// The names of the video files, in pairing order.
    pub closed spec fn videos_view(&self) -> Seq<Seq<char>> {
        names(self.videos@)
    }

    /// The names of the subtitle files, in pairing order.
    pub closed spec fn subs_view(&self) -> Seq<Seq<char>> {
        names(self.subs@)
    }

    /// Both lists are sorted and have one length.
    pub open spec fn wf(&self) -> bool {
        &&& self.videos_view().len() == self.subs_view().len()
        &&& sorted_by(self.videos_view(), name_order())
        &&& sorted_by(self.subs_view(), name_order())
    }

    /// The number of pairs.
    pub fn len(&self) -> (r: usize)
        ensures
            r == self.videos_view().len(),
            r == self.subs_view().len(),
    {
        proof {
            use_type_invariant(self);
        }
        self.videos.len()
    }

    /// The video file of pair `i`.
    pub fn video(&self, i: usize) -> (r: &String)
        requires
            i < self.videos_view().len(),
        ensures
            r@ == self.videos_view()[i as int],
    {
        &self.videos[i]
    }

    /// The subtitle file of pair `i`.
    pub fn sub(&self, i: usize) -> (r: &String)
        requires
            i < self.subs_view().len(),
        ensures
            r@ == self.subs_view()[i as int],
    {
        &self.subs[i]
    }

    /// The pairs as (subtitle, video), in pairing order.
    pub fn pairs(&self) -> (r: Vec<(String, String)>)
        ensures
            r@.len() == self.videos_view().len(),
            forall|i: int|
                0 <= i < r@.len() ==> r@[i].0@ == self.subs_view()[i] && r@[i].1@
                    == self.videos_view()[i],
    {
        proof {
            use_type_invariant(self);
        }
        let n = self.videos.len();
        let mut r: Vec<(String, String)> = Vec::new();
        let mut i: usize = 0;
        while i < n
            invariant
                self.wf(),
                n == self.videos_view().len(),
                i <= n,
                r@.len() == i,
                forall|k: int|
                    0 <= k < i ==> r@[k].0@ == self.subs_view()[k] && r@[k].1@
                        == self.videos_view()[k],
            decreases n - i,
        {
            r.push((self.subs[i].clone(), self.videos[i].clone()));
            i = i + 1;
        }
        r
    }
}

proof fn lemma_insert_to_multiset<A>(s: Seq<A>, i: int, x: A)
    requires
        0 <= i <= s.len(),
    ensures
        s.insert(i, x).to_multiset() =~= s.to_multiset().insert(x),
{
    let t = s.insert(i, x);
    assert(t.remove(i) =~= s);
    assert(t[i] == x);
    assert(t.to_multiset().count(x) > 0);
}

/// Inserts `x` into the sorted `v` at the place that keeps it sorted.
fn insert_sorted(v: &mut Vec<String>, x: String)
    requires
        sorted_by(names(old(v)@), name_order()),
    ensures
        sorted_by(names(final(v)@), name_order()),
        names(final(v)@).to_multiset() == names(old(v)@).to_multiset().insert(x@),
        final(v)@.len() == old(v)@.len() + 1,
{
    proof {
        lemma_name_order_total();
    }
    let ghost before = names(v@);
    let n = v.len();
    let mut i: usize = 0;
    while i < n && name_le(v[i].as_str(), x.as_str())
        invariant
            n == v@.len(),
            before == names(v@),
            i <= n,
            forall|k: int| 0 <= k < i ==> #[trigger] name_order()(before[k], x@),
        decreases n - i,
    {
        i = i + 1;
    }
    proof {
        if i < n {
            assert(!name_order()(before[i as int], x@));
            assert(name_order()(x@, before[i as int]));
        }
    }
    v.insert(i, x);
    proof {
        let after = names(v@);
        assert(after =~= before.insert(i as int, x@));
        lemma_insert_to_multiset(before, i as int, x@);
        assert forall|a: int, b: int| 0 <= a < b < after.len() implies #[trigger] name_order()(
            after[a],
            after[b],
        ) by {
            if b < i {
            } else if a < i && b == i {
            } else if a < i {
                assert(after[b] == before[b - 1]);
                assert(name_order()(x@, before[i as int]));
                if b - 1 > i {
                    assert(name_order()(before[i as int], before[b - 1]));
                }
            } else if a == i {
                assert(after[b] == before[b - 1]);
                if b - 1 > i {
                    assert(name_order()(before[i as int], before[b - 1]));
                }
            } else {
                assert(after[a] == before[a - 1]);
                assert(after[b] == before[b - 1]);
            }
        }
    }
}

proof fn lemma_filter_insert(
    m: Multiset<Seq<char>>,
    x: Seq<char>,
    f: spec_fn(Seq<char>) -> bool,
)
    ensures
        f(x) ==> m.insert(x).filter(f) =~= m.filter(f).insert(x),
        !f(x) ==> m.insert(x).filter(f) =~= m.filter(f),
{
}

/// Lists the video and subtitle entries of a directory, each sorted by name,
/// for positional pairing. Fails with `MismatchError` when there are not as
/// many of the one as of the other.
pub fn pair_entries(entries: &Vec<String>, video_token: &str, sub_token: &str) -> (r: Result<
    PairSet,
    ProgramError,
>)
    ensures
        r is Ok <==> classified(names(entries@), video_token@, sub_token@, Classification::Video).len()
            == classified(names(entries@), video_token@, sub_token@, Classification::Subtitle).len(),
        r is Err ==> r->Err_0 is MismatchError,
        r is Ok ==> r->Ok_0.wf() && is_pairing(
            names(entries@),
            video_token@,
            sub_token@,
            r->Ok_0.videos_view(),
            r->Ok_0.subs_view(),
        ),
{
    let ghost all = names(entries@);
    let ghost fv = class_filter(video_token@, sub_token@, Classification::Video);
    let ghost fs = class_filter(video_token@, sub_token@, Classification::Subtitle);
    let mut videos: Vec<String> = Vec::new();
    let mut subs: Vec<String> = Vec::new();
    let n = entries.len();
    let mut i: usize = 0;
    assert(names(videos@) =~= Seq::<Seq<char>>::empty());
    assert(all.take(0) =~= Seq::<Seq<char>>::empty());
    assert(all.take(0).to_multiset().filter(fv) =~= Multiset::empty());
    assert(all.take(0).to_multiset().filter(fs) =~= Multiset::empty());
    while i < n
        invariant
            n == entries@.len(),
            all == names(entries@),
            fv == class_filter(video_token@, sub_token@, Classification::Video),
            fs == class_filter(video_token@, sub_token@, Classification::Subtitle),
            i <= n,
            sorted_by(names(videos@), name_order()),
            sorted_by(names(subs@), name_order()),
            names(videos@).to_multiset() == all.take(i as int).to_multiset().filter(fv),
            names(subs@).to_multiset() == all.take(i as int).to_multiset().filter(fs),
        decreases n - i,
    {
        let e = &entries[i];
        let c = classify(e.as_str(), video_token, sub_token);
        proof {
            assert(all[i as int] == e@);
            assert(all.take(i + 1) =~= all.take(i as int).push(e@));
            assert(all.take(i + 1).to_multiset() =~= all.take(i as int).to_multiset().insert(e@));
            assert(fv(e@) == (c == Classification::Video));
            assert(fs(e@) == (c == Classification::Subtitle));
            lemma_filter_insert(all.take(i as int).to_multiset(), e@, fv);
            lemma_filter_insert(all.take(i as int).to_multiset(), e@, fs);
        }
        match c {
            Classification::Video => insert_sorted(&mut videos, e.clone()),
            Classification::Subtitle => insert_sorted(&mut subs, e.clone()),
            Classification::Ignored => {},
        }
        i = i + 1;
    }
    assert(all.take(n as int) =~= all);
    if videos.len() != subs.len() {
        return Err(ProgramError::MismatchError);
    }
    Ok(PairSet { videos, subs })
}

/// Pairing is deterministic: two listings of one directory, which hold the
/// same entries in any order, give the same pairs.
pub proof fn lemma_pairing_deterministic(
    entries1: Seq<Seq<char>>,
    entries2: Seq<Seq<char>>,
    video_token: Seq<char>,
    sub_token: Seq<char>,
    videos1: Seq<Seq<char>>,
    subs1: Seq<Seq<char>>,
    videos2: Seq<Seq<char>>,
    subs2: Seq<Seq<char>>,
)
    requires
        entries1.to_multiset() == entries2.to_multiset(),
        is_pairing(entries1, video_token, sub_token, videos1, subs1),
        is_pairing(entries2, video_token, sub_token, videos2, subs2),
    ensures
        videos1 == videos2,
        subs1 == subs2,
{
    lemma_name_order_total();
    vstd::seq_lib::lemma_sorted_unique(videos1, videos2, name_order());
    vstd::seq_lib::lemma_sorted_unique(subs1, subs2, name_order());
}

} // verus!
