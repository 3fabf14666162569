//! The streams known for the episodes of each subject.
use vstd::prelude::*;
use crate::json::{
    Json, JsonV, copy_list, int_in, int_of, json_list, json_ref, text_in, text_of_json,
};
use crate::numbers::{parse_int, read_int};
use crate::strings::same_text;
use crate::tui::search::{or_text, text_or};

verus! {

/// The first position of a key, from `from` on.
pub open spec fn first_of<K>(keys: Seq<K>, k: K, from: int) -> Option<int>
    decreases keys.len() - from,
{
    if from < 0 || from >= keys.len() {
        None
    } else if keys[from] == k {
        Some(from)
    } else {
        first_of(keys, k, from + 1)
    }
}

/// What `first_of` finds.
pub proof fn lemma_first_of<K>(keys: Seq<K>, k: K, from: int)
    requires
        0 <= from,
    ensures
        match first_of(keys, k, from) {
            Some(i) => from <= i < keys.len() && keys[i] == k && forall|j: int|
                from <= j < i ==> keys[j] != k,
            None => forall|j: int| from <= j < keys.len() ==> keys[j] != k,
        },
    decreases keys.len() - from,
{
    if from < keys.len() && keys[from] != k {
        lemma_first_of(keys, k, from + 1);
    }
}

/// A key put behind the others is found there if it was not found before.
proof fn lemma_first_of_push<K>(keys: Seq<K>, x: K, k: K)
    ensures
        first_of(keys.push(x), k, 0) == (if first_of(keys, k, 0) is Some {
            first_of(keys, k, 0)
        } else if x == k {
            Some(keys.len() as int)
        } else {
            None
        }),
{
    lemma_first_of(keys, k, 0);
    lemma_first_of(keys.push(x), k, 0);
    match first_of(keys, k, 0) {
        Some(i) => {
            assert(keys.push(x)[i] == k);
        },
        None => {
            assert(keys.push(x)[keys.len() as int] == x);
        },
    }
    match first_of(keys.push(x), k, 0) {
        Some(i) => {
            if i < keys.len() {
                assert(keys[i] == k);
            }
        },
        None => {},
    }
}

/// The streams of one episode, or that they have been given up.
pub struct EpisodeStreams {
    /// The season.
    pub season: usize,
    /// The episode.
    pub episode: usize,
    /// The streams.
    pub streams: Option<Vec<Json>>,
}

/// The keys of episodes.
pub open spec fn episode_keys(v: Seq<EpisodeStreams>) -> Seq<(usize, usize)> {
    Seq::new(v.len(), |i: int| (v[i].season, v[i].episode))
}

/// What a list of episodes means.
pub open spec fn episode_map(v: Seq<EpisodeStreams>) -> Map<(usize, usize), Seq<JsonV>> {
    Map::new(
        |k: (usize, usize)|
            match first_of(episode_keys(v), k, 0) {
                Some(i) => v[i].streams is Some,
                None => false,
            },
        |k: (usize, usize)| json_list(v[first_of(episode_keys(v), k, 0)->0].streams->0@),
    )
}

/// The streams known for one subject.
pub struct SubjectStreamPool {
    /// The subject.
    pub subject_id: String,
    /// The resolutions in which there are streams.
    pub available_resolutions: Vec<u32>,
    /// The streams of each episode; for a film, season and episode are zero.
    pub episodes: Vec<EpisodeStreams>,
}

/// What the streams known for one subject mean.
pub struct PoolV {
    /// The resolutions in which there are streams.
    pub resolutions: Seq<u32>,
    /// The streams of each episode.
    pub episodes: Map<(usize, usize), Seq<JsonV>>,
}

impl View for SubjectStreamPool {
    type V = PoolV;

    open spec fn view(&self) -> PoolV {
        PoolV {
            resolutions: self.available_resolutions@,
            episodes: episode_map(self.episodes@),
        }
    }
}

impl PoolV {
    /// With the streams of an episode.
    pub open spec fn put(self, season: usize, episode: usize, streams: Seq<JsonV>) -> PoolV {
        PoolV { episodes: self.episodes.insert((season, episode), streams), ..self }
    }

    /// Without the streams of an episode.
    pub open spec fn drop(self, season: usize, episode: usize) -> PoolV {
        PoolV { episodes: self.episodes.remove((season, episode)), ..self }
    }

    /// The streams of an episode.
    pub open spec fn streams(self, season: usize, episode: usize) -> Option<Seq<JsonV>> {
        if self.episodes.contains_key((season, episode)) {
            Some(self.episodes[(season, episode)])
        } else {
            None
        }
    }
}

impl SubjectStreamPool {
    /// The position of an episode.
    fn position(&self, season: usize, episode: usize) -> (r: Option<usize>)
        ensures
            match r {
                Some(i) => i < self.episodes@.len() && first_of(
                    episode_keys(self.episodes@),
                    (season, episode),
                    0,
                ) == Some(i as int),
                None => first_of(episode_keys(self.episodes@), (season, episode), 0) is None,
            },
    {
        let mut i: usize = 0;
        while i < self.episodes.len()
            invariant
                i <= self.episodes@.len(),
                first_of(episode_keys(self.episodes@), (season, episode), 0) == first_of(
                    episode_keys(self.episodes@),
                    (season, episode),
                    i as int,
                ),
            decreases self.episodes@.len() - i,
        {
            if self.episodes[i].season == season && self.episodes[i].episode == episode {
                return Some(i);
            }
            i = i + 1;
        }
        None
    }

    /// The streams of an episode.
    pub fn get(&self, season: usize, episode: usize) -> (r: Option<&Vec<Json>>)
        ensures
            match r {
                Some(v) => self@.streams(season, episode) == Some(json_list(v@)),
                None => self@.streams(season, episode) is None,
            },
    {
        match self.position(season, episode) {
            Some(i) => match &self.episodes[i].streams {
                Some(v) => Some(v),
                None => None,
            },
            None => None,
        }
    }

    /// Puts an entry for an episode.
    fn set(&mut self, season: usize, episode: usize, streams: Option<Vec<Json>>)
        ensures
            final(self).subject_id == old(self).subject_id,
            final(self)@ == (match streams {
                Some(v) => old(self)@.put(season, episode, json_list(v@)),
                None => old(self)@.drop(season, episode),
            }),
    {
        let ghost before = self.episodes@;
        let ghost keys = episode_keys(before);
        let ghost key = (season, episode);
        let ghost given = streams;
        let found = self.position(season, episode);
        let e = EpisodeStreams { season, episode, streams };
        match found {
            Some(i) => {
                self.episodes.set(i, e);
                proof {
                    lemma_first_of(keys, key, 0);
                    assert(episode_keys(self.episodes@) =~= keys);
                }
            },
            None => {
                self.episodes.push(e);
                proof {
                    assert(episode_keys(self.episodes@) =~= keys.push(key));
                    assert forall|k: (usize, usize)| true implies first_of(
                        #[trigger] keys.push(key),
                        k,
                        0,
                    ) == (if first_of(keys, k, 0) is Some {
                        first_of(keys, k, 0)
                    } else if key == k {
                        Some(keys.len() as int)
                    } else {
                        None
                    }) by {
                        lemma_first_of_push(keys, key, k);
                    }
                }
            },
        }
        proof {
            let after = self.episodes@;
            let want = match given {
                Some(v) => episode_map(before).insert(key, json_list(v@)),
                None => episode_map(before).remove(key),
            };
            assert forall|k: (usize, usize)| true implies (#[trigger] episode_map(
                after,
            ).contains_key(k) == want.contains_key(k)) && (want.contains_key(k) ==> episode_map(
                after,
            )[k] == want[k]) by {
                lemma_first_of(keys, k, 0);
                lemma_first_of_push(keys, key, k);
            }
            assert(episode_map(after) =~= want);
        }
    }

    /// Puts the streams of an episode.
    pub fn put(&mut self, season: usize, episode: usize, streams: Vec<Json>)
        ensures
            final(self).subject_id == old(self).subject_id,
            final(self)@ == old(self)@.put(season, episode, json_list(streams@)),
    {
        self.set(season, episode, Some(streams));
    }

    /// Gives up the streams of an episode.
    pub fn drop(&mut self, season: usize, episode: usize)
        ensures
            final(self).subject_id == old(self).subject_id,
            final(self)@ == old(self)@.drop(season, episode),
    {
        self.set(season, episode, None);
    }
}

/// The subjects of pools.
pub open spec fn subject_keys(v: Seq<SubjectStreamPool>) -> Seq<Seq<char>> {
    Seq::new(v.len(), |i: int| v[i].subject_id@)
}

/// What a list of pools means.
pub open spec fn pool_map(v: Seq<SubjectStreamPool>) -> Map<Seq<char>, PoolV> {
    Map::new(
        |k: Seq<char>| first_of(subject_keys(v), k, 0) is Some,
        |k: Seq<char>| v[first_of(subject_keys(v), k, 0)->0]@,
    )
}

/// The streams known, by subject.
pub struct StreamPool {
    /// The pools, of which for each subject the first counts.
    pub pools: Vec<SubjectStreamPool>,
}

impl View for StreamPool {
    type V = Map<Seq<char>, PoolV>;

    open spec fn view(&self) -> Map<Seq<char>, PoolV> {
        pool_map(self.pools@)
    }
}

/// The streams known for an episode of a subject.
pub open spec fn known_streams(
    m: Map<Seq<char>, PoolV>,
    id: Seq<char>,
    season: usize,
    episode: usize,
) -> Option<Seq<JsonV>> {
    if m.contains_key(id) {
        m[id].streams(season, episode)
    } else {
        None
    }
}

/// With the streams of an episode, if the subject has a pool.
pub open spec fn with_streams(
    m: Map<Seq<char>, PoolV>,
    id: Seq<char>,
    season: usize,
    episode: usize,
    streams: Seq<JsonV>,
) -> Map<Seq<char>, PoolV> {
    if m.contains_key(id) {
        m.insert(id, m[id].put(season, episode, streams))
    } else {
        m
    }
}

/// Without the streams of an episode.
pub open spec fn without_streams(
    m: Map<Seq<char>, PoolV>,
    id: Seq<char>,
    season: usize,
    episode: usize,
) -> Map<Seq<char>, PoolV> {
    if m.contains_key(id) {
        m.insert(id, m[id].drop(season, episode))
    } else {
        m
    }
}

impl StreamPool {
    /// No streams at all.
    pub fn new() -> (r: StreamPool)
        ensures
            r@ == Map::<Seq<char>, PoolV>::empty(),
    {
        let r = StreamPool { pools: Vec::new() };
        proof {
            assert(r@ =~= Map::<Seq<char>, PoolV>::empty());
        }
        r
    }

    /// The position of a subject.
    pub fn position(&self, id: &str) -> (r: Option<usize>)
        ensures
            match r {
                Some(i) => i < self.pools@.len() && first_of(subject_keys(self.pools@), id@, 0)
                    == Some(i as int) && self@.contains_key(id@) && self@[id@]
                    == self.pools@[i as int]@,
                None => !self@.contains_key(id@) && first_of(subject_keys(self.pools@), id@, 0)
                    is None,
            },
    {
        let mut i: usize = 0;
        while i < self.pools.len()
            invariant
                i <= self.pools@.len(),
                first_of(subject_keys(self.pools@), id@, 0) == first_of(
                    subject_keys(self.pools@),
                    id@,
                    i as int,
                ),
            decreases self.pools@.len() - i,
        {
            if same_text(self.pools[i].subject_id.as_str(), id) {
                return Some(i);
            }
            i = i + 1;
        }
        None
    }

    /// The streams known for an episode of a subject.
    pub fn streams(&self, id: &str, season: usize, episode: usize) -> (r: Option<&Vec<Json>>)
        ensures
            match r {
                Some(v) => known_streams(self@, id@, season, episode) == Some(json_list(v@)),
                None => known_streams(self@, id@, season, episode) is None,
            },
    {
        match self.position(id) {
            Some(i) => self.pools[i].get(season, episode),
            None => None,
        }
    }

    /// Puts a pool in the place of one for the same subject, or behind the others.
    pub fn store(&mut self, pool: SubjectStreamPool)
        ensures
            final(self)@ == old(self)@.insert(pool.subject_id@, pool@),
    {
        let ghost before = self.pools@;
        let ghost keys = subject_keys(before);
        let ghost key = pool.subject_id@;
        match self.position(pool.subject_id.as_str()) {
            Some(i) => {
                self.pools.set(i, pool);
                proof {
                    lemma_first_of(keys, key, 0);
                    assert(subject_keys(self.pools@) =~= keys);
                }
            },
            None => {
                self.pools.push(pool);
                proof {
                    assert(subject_keys(self.pools@) =~= keys.push(key));
                }
            },
        }
        proof {
            let after = self.pools@;
            let want = pool_map(before).insert(key, pool@);
            assert forall|k: Seq<char>| true implies (#[trigger] pool_map(after).contains_key(k)
                == want.contains_key(k)) && (want.contains_key(k) ==> pool_map(after)[k]
                == want[k]) by {
                lemma_first_of(keys, k, 0);
                lemma_first_of_push(keys, key, k);
            }
            assert(pool_map(after) =~= want);
        }
    }

    /// Starts a pool for a subject.
    pub fn start(&mut self, id: String, resolutions: Vec<u32>)
        ensures
            final(self)@ == old(self)@.insert(
                id@,
                PoolV { resolutions: resolutions@, episodes: Map::empty() },
            ),
    {
        let pool = SubjectStreamPool {
            subject_id: id,
            available_resolutions: resolutions,
            episodes: Vec::new(),
        };
        assert(pool@.episodes =~= Map::<(usize, usize), Seq<JsonV>>::empty());
        self.store(pool);
    }

    /// Takes the pool of a subject out, to be stored again.
    fn take(&mut self, i: usize) -> (r: SubjectStreamPool)
        requires
            i < old(self).pools@.len(),
            first_of(subject_keys(old(self).pools@), old(self).pools@[i as int].subject_id@, 0)
                == Some(i as int),
        ensures
            r == old(self).pools@[i as int],
            forall|x: PoolV| final(self)@.insert(r.subject_id@, x) == #[trigger] old(self)@.insert(
                r.subject_id@,
                x,
            ),
    {
        let ghost before = self.pools@;
        let ghost keys = subject_keys(before);
        let ghost key = before[i as int].subject_id@;
        let blank = SubjectStreamPool {
            subject_id: crate::strings::copy_text(self.pools[i].subject_id.as_str()),
            available_resolutions: Vec::new(),
            episodes: Vec::new(),
        };
        self.pools.push(blank);
        let r = self.pools.swap_remove(i);
        proof {
            let after = self.pools@;
            assert(subject_keys(after) =~= keys);
            assert forall|x: PoolV| #[trigger] pool_map(before).insert(key, x) == pool_map(
                after,
            ).insert(key, x) by {
                let a = pool_map(before).insert(key, x);
                let b = pool_map(after).insert(key, x);
                assert forall|k: Seq<char>| true implies (#[trigger] a.contains_key(k)
                    == b.contains_key(k)) && (a.contains_key(k) ==> a[k] == b[k]) by {
                    lemma_first_of(keys, k, 0);
                    lemma_first_of(keys, key, 0);
                }
                assert(a =~= b);
            }
        }
        r
    }

    /// Puts the streams of an episode, if the subject has a pool.
    pub fn put(&mut self, id: &str, season: usize, episode: usize, streams: Vec<Json>)
        ensures
            final(self)@ == with_streams(old(self)@, id@, season, episode, json_list(streams@)),
    {
        match self.position(id) {
            Some(i) => {
                proof {
                    lemma_first_of(subject_keys(self.pools@), id@, 0);
                }
                let mut pool = self.take(i);
                pool.put(season, episode, streams);
                self.store(pool);
            },
            None => {},
        }
    }

    /// Gives up the streams of an episode.
    pub fn drop_streams(&mut self, id: &str, season: usize, episode: usize)
        ensures
            final(self)@ == without_streams(old(self)@, id@, season, episode),
    {
        match self.position(id) {
            Some(i) => {
                proof {
                    lemma_first_of(subject_keys(self.pools@), id@, 0);
                }
                let mut pool = self.take(i);
                pool.drop(season, episode);
                self.store(pool);
            },
            None => {},
        }
    }

    /// Adds streams of a subject to its pool, if it has one.
    pub fn add(&mut self, id: &str, items: &Vec<Json>, film: bool)
        ensures
            final(self)@ == (if old(self)@.contains_key(id@) {
                old(self)@.insert(id@, added(old(self)@[id@], json_list(items@), film))
            } else {
                old(self)@
            }),
    {
        match self.position(id) {
            Some(i) => {
                proof {
                    lemma_first_of(subject_keys(self.pools@), id@, 0);
                }
                let mut pool = self.take(i);
                pool.add(items, film);
                self.store(pool);
            },
            None => {},
        }
    }
}

// ---------------------------------------------------------------------------
// Adding streams
// ---------------------------------------------------------------------------

/// A number, given as such or as a text; zero where there is none.
pub open spec fn loose_number(j: Option<JsonV>) -> usize {
    match j {
        Some(v) => match v.whole() {
            Some(n) => n as usize,
            None => match v.text() {
                Some(s) => match parse_int(s) {
                    Some(n) => n as i64 as usize,
                    None => 0,
                },
                None => 0,
            },
        },
        None => 0,
    }
}

/// A number, given as such or as a text; zero where there is none.
fn read_loose_number(j: Option<&Json>) -> (r: usize)
    ensures
        r == loose_number(json_ref(j)),
{
    match j {
        Some(v) => match v.as_int() {
            Some(n) => #[verifier::truncate] (n as usize),
            None => match v.as_text() {
                Some(s) => match read_int(s.as_str()) {
                    Some(n) => #[verifier::truncate] (n as usize),
                    None => 0,
                },
                None => 0,
            },
        },
        None => 0,
    }
}

/// The address of a stream, empty where there is none.
pub open spec fn link_of(j: JsonV) -> Seq<char> {
    text_or(text_in(j.get("resourceLink"@)), ""@)
}

/// Whether a list holds a stream with an address.
pub open spec fn has_link(v: Seq<JsonV>, link: Seq<char>) -> bool {
    exists|i: int| 0 <= i < v.len() && link_of(#[trigger] v[i]) == link
}

/// Whether a list holds a stream with an address.
fn holds_link(v: &Vec<Json>, link: &str) -> (r: bool)
    ensures
        r == has_link(json_list(v@), link@),
{
    let mut i: usize = 0;
    while i < v.len()
        invariant
            i <= v@.len(),
            forall|j: int| 0 <= j < i ==> link_of(#[trigger] json_list(v@)[j]) != link@,
        decreases v@.len() - i,
    {
        let l = or_text(text_of_json(v[i].get("resourceLink")), "");
        if same_text(l.as_str(), link) {
            assert(link_of(json_list(v@)[i as int]) == link@);
            return true;
        }
        i = i + 1;
    }
    false
}

/// The episode that a stream belongs to; a film has none.
pub open spec fn episode_of(item: JsonV, film: bool) -> (usize, usize) {
    if film {
        (0, 0)
    } else {
        (loose_number(item.get("se"@)), loose_number(item.get("ep"@)))
    }
}

/// The episodes with one more stream, unless its address is known for its episode.
pub open spec fn stream_added(
    m: Map<(usize, usize), Seq<JsonV>>,
    item: JsonV,
    film: bool,
) -> Map<(usize, usize), Seq<JsonV>> {
    let key = episode_of(item, film);
    let known = if m.contains_key(key) {
        m[key]
    } else {
        Seq::empty()
    };
    if has_link(known, link_of(item)) {
        m
    } else {
        m.insert(key, known.push(item))
    }
}

/// The episodes with further streams.
pub open spec fn streams_added(
    m: Map<(usize, usize), Seq<JsonV>>,
    items: Seq<JsonV>,
    film: bool,
) -> Map<(usize, usize), Seq<JsonV>>
    decreases items.len(),
{
    if items.len() == 0 {
        m
    } else {
        stream_added(streams_added(m, items.drop_last(), film), items.last(), film)
    }
}

/// A falling list with one more number, unless it is there.
pub open spec fn with_number(v: Seq<u32>, x: u32) -> Seq<u32>
    decreases v.len(),
{
    if v.len() == 0 {
        seq![x]
    } else if v[0] == x {
        v
    } else if v[0] < x {
        seq![x] + v
    } else {
        seq![v[0]] + with_number(v.skip(1), x)
    }
}

/// Numbers as a falling list, each once.
pub open spec fn falling(v: Seq<u32>) -> Seq<u32>
    decreases v.len(),
{
    if v.len() == 0 {
        v
    } else {
        with_number(falling(v.drop_last()), v.last())
    }
}

/// The resolutions of streams, in their order.
pub open spec fn resolutions_of(items: Seq<JsonV>) -> Seq<u32>
    decreases items.len(),
{
    if items.len() == 0 {
        Seq::empty()
    } else {
        let rest = resolutions_of(items.drop_last());
        match items.last().get("resolution"@) {
            Some(r) => match r.unsigned() {
                Some(n) => rest.push(n as u32),
                None => rest,
            },
            None => rest,
        }
    }
}

/// A pool with further streams.
pub open spec fn added(p: PoolV, items: Seq<JsonV>, film: bool) -> PoolV {
    let found = resolutions_of(items);
    PoolV {
        resolutions: if found.len() == 0 {
            p.resolutions
        } else {
            falling(p.resolutions + found)
        },
        episodes: streams_added(p.episodes, items, film),
    }
}

/// Whether a list falls from each number to the next.
pub open spec fn is_falling(v: Seq<u32>) -> bool {
    forall|i: int, j: int| 0 <= i < j < v.len() ==> #[trigger] v[i] > #[trigger] v[j]
}

/// Putting a number into a falling list leaves it falling, and adds that number only.
proof fn lemma_with_number(v: Seq<u32>, x: u32)
    requires
        is_falling(v),
    ensures
        is_falling(with_number(v, x)),
        forall|y: u32| #[trigger] with_number(v, x).contains(y) <==> v.contains(y) || y == x,
    decreases v.len(),
{
    let w = with_number(v, x);
    if v.len() == 0 {
        assert(w[0] == x);
        assert forall|y: u32| #[trigger] w.contains(y) <==> v.contains(y) || y == x by {}
    } else if v[0] == x {
        assert forall|y: u32| #[trigger] w.contains(y) <==> v.contains(y) || y == x by {
            assert(v[0] == x);
        }
    } else if v[0] < x {
        assert(w[0] == x);
        assert forall|i: int, j: int| 0 <= i < j < w.len() implies #[trigger] w[i]
            > #[trigger] w[j] by {
            assert(w[j] == v[j - 1]);
            if i > 0 {
                assert(w[i] == v[i - 1]);
            } else if j > 1 {
                assert(v[0] > v[j - 1]);
            }
        }
        assert forall|y: u32| #[trigger] w.contains(y) <==> v.contains(y) || y == x by {
            if v.contains(y) {
                let i = choose|i: int| 0 <= i < v.len() && v[i] == y;
                assert(w[i + 1] == y);
            }
            if w.contains(y) {
                let i = choose|i: int| 0 <= i < w.len() && w[i] == y;
                if i > 0 {
                    assert(v[i - 1] == y);
                }
            }
        }
    } else {
        let t = v.skip(1);
        assert forall|i: int, j: int| 0 <= i < j < t.len() implies #[trigger] t[i]
            > #[trigger] t[j] by {
            assert(v[i + 1] > v[j + 1]);
        }
        lemma_with_number(t, x);
        let u = with_number(t, x);
        assert(w =~= seq![v[0]] + u);
        assert forall|y: u32| u.contains(y) implies v[0] > y by {
            assert(t.contains(y) || y == x);
            if t.contains(y) {
                let i = choose|i: int| 0 <= i < t.len() && t[i] == y;
                assert(v[i + 1] == y);
                assert(v[0] > v[i + 1]);
            }
        }
        assert forall|i: int, j: int| 0 <= i < j < w.len() implies #[trigger] w[i]
            > #[trigger] w[j] by {
            assert(w[j] == u[j - 1]);
            assert(u.contains(u[j - 1]));
            if i > 0 {
                assert(w[i] == u[i - 1]);
            }
        }
        assert forall|y: u32| #[trigger] w.contains(y) <==> v.contains(y) || y == x by {
            if v.contains(y) {
                let i = choose|i: int| 0 <= i < v.len() && v[i] == y;
                if i == 0 {
                    assert(w[0] == y);
                } else {
                    assert(t[i - 1] == y);
                    assert(t.contains(y));
                    assert(u.contains(y));
                    let k = choose|k: int| 0 <= k < u.len() && u[k] == y;
                    assert(w[k + 1] == y);
                }
            }
            if y == x {
                assert(u.contains(x));
                let k = choose|k: int| 0 <= k < u.len() && u[k] == y;
                assert(w[k + 1] == y);
            }
            if w.contains(y) {
                let i = choose|i: int| 0 <= i < w.len() && w[i] == y;
                if i == 0 {
                    assert(v[0] == y);
                } else {
                    assert(u[i - 1] == y);
                    assert(u.contains(y));
                    if t.contains(y) {
                        let k = choose|k: int| 0 <= k < t.len() && t[k] == y;
                        assert(v[k + 1] == y);
                    }
                }
            }
        }
    }
}

/// Numbers made a falling list are the same numbers, each once and from the highest down.
pub proof fn law_falling(v: Seq<u32>)
    ensures
        is_falling(falling(v)),
        forall|y: u32| falling(v).contains(y) <==> v.contains(y),
    decreases v.len(),
{
    if v.len() > 0 {
        let t = v.drop_last();
        law_falling(t);
        lemma_with_number(falling(t), v.last());
        assert forall|y: u32| falling(v).contains(y) <==> v.contains(y) by {
            if v.contains(y) {
                let i = choose|i: int| 0 <= i < v.len() && v[i] == y;
                if i < t.len() {
                    assert(t[i] == y);
                }
            }
            if t.contains(y) {
                let i = choose|i: int| 0 <= i < t.len() && t[i] == y;
                assert(v[i] == y);
            }
            assert(v.contains(v.last()));
        }
    }
}

/// Puts a number into a falling list, unless it is there.
fn put_number(v: &mut Vec<u32>, x: u32)
    ensures
        final(v)@ == with_number(old(v)@, x),
{
    let ghost given = v@;
    let mut i: usize = 0;
    assert(given.take(0) + with_number(given.skip(0), x) =~= with_number(given, x)) by {
        assert(given.skip(0) =~= given);
    }
    while i < v.len() && v[i] > x
        invariant
            v@ == given,
            i <= given.len(),
            given.take(i as int) + with_number(given.skip(i as int), x) == with_number(given, x),
        decreases given.len() - i,
    {
        proof {
            let rest = given.skip(i as int);
            assert(rest.skip(1) =~= given.skip(i + 1));
            assert(given.take(i as int) + (seq![rest[0]] + with_number(rest.skip(1), x))
                =~= given.take(i + 1) + with_number(given.skip(i + 1), x));
        }
        i = i + 1;
    }
    let ghost rest = given.skip(i as int);
    if i < v.len() && v[i] == x {
        assert(given.take(i as int) + rest =~= given);
    } else {
        v.insert(i, x);
        proof {
            if rest.len() == 0 {
                assert(given.take(i as int) + seq![x] =~= given.insert(i as int, x));
            } else {
                assert(given.take(i as int) + (seq![x] + rest) =~= given.insert(i as int, x));
            }
        }
    }
}

/// Numbers as a falling list, each once.
fn make_falling(v: &Vec<u32>) -> (r: Vec<u32>)
    ensures
        r@ == falling(v@),
{
    let mut r: Vec<u32> = Vec::new();
    let mut i: usize = 0;
    assert(v@.take(0) =~= r@);
    while i < v.len()
        invariant
            i <= v@.len(),
            r@ == falling(v@.take(i as int)),
        decreases v@.len() - i,
    {
        assert(v@.take(i + 1).drop_last() =~= v@.take(i as int));
        put_number(&mut r, v[i]);
        i = i + 1;
    }
    assert(v@.take(v@.len() as int) =~= v@);
    r
}

/// The resolutions of streams, in their order.
fn read_resolutions(items: &Vec<Json>) -> (r: Vec<u32>)
    ensures
        r@ == resolutions_of(json_list(items@)),
{
    let ghost list = json_list(items@);
    let mut r: Vec<u32> = Vec::new();
    let mut i: usize = 0;
    assert(list.take(0) =~= Seq::empty());
    while i < items.len()
        invariant
            i <= items@.len(),
            list == json_list(items@),
            r@ == resolutions_of(list.take(i as int)),
        decreases items@.len() - i,
    {
        proof {
            assert(list.take(i + 1).drop_last() =~= list.take(i as int));
            assert(list.take(i + 1).last() == items@[i as int]@);
        }
        match items[i].get("resolution") {
            Some(x) => match x.as_unsigned() {
                Some(n) => {
                    r.push(#[verifier::truncate] (n as u32));
                },
                None => {},
            },
            None => {},
        }
        i = i + 1;
    }
    assert(list.take(list.len() as int) =~= list);
    r
}

impl SubjectStreamPool {
    /// Adds one stream, unless its address is known for its episode.
    fn add_stream(&mut self, item: &Json, film: bool)
        ensures
            final(self).subject_id == old(self).subject_id,
            final(self)@ == (PoolV {
                episodes: stream_added(old(self)@.episodes, item@, film),
                ..old(self)@
            }),
    {
        let (se, ep) = if film {
            (0, 0)
        } else {
            (read_loose_number(item.get("se")), read_loose_number(item.get("ep")))
        };
        let link = or_text(text_of_json(item.get("resourceLink")), "");
        let mut known = match self.get(se, ep) {
            Some(v) => copy_list(v),
            None => {
                let none: Vec<Json> = Vec::new();
                assert(json_list(none@) =~= Seq::empty());
                none
            },
        };
        if !holds_link(&known, link.as_str()) {
            let ghost list = json_list(known@);
            let j = item.copy();
            known.push(j);
            assert(json_list(known@) =~= list.push(j@));
            self.put(se, ep, known);
        }
    }

    /// Adds streams.
    pub fn add(&mut self, items: &Vec<Json>, film: bool)
        ensures
            final(self).subject_id == old(self).subject_id,
            final(self)@ == added(old(self)@, json_list(items@), film),
    {
        let ghost list = json_list(items@);
        let ghost before = self@;
        let mut i: usize = 0;
        assert(list.take(0) =~= Seq::empty());
        while i < items.len()
            invariant
                i <= items@.len(),
                list == json_list(items@),
                self.subject_id == old(self).subject_id,
                self@ == (PoolV {
                    episodes: streams_added(before.episodes, list.take(i as int), film),
                    ..before
                }),
            decreases items@.len() - i,
        {
            proof {
                assert(list.take(i + 1).drop_last() =~= list.take(i as int));
                assert(list.take(i + 1).last() == items@[i as int]@);
            }
            self.add_stream(&items[i], film);
            i = i + 1;
        }
        assert(list.take(list.len() as int) =~= list);
        let mut found = read_resolutions(items);
        if found.len() > 0 {
            let mut all: Vec<u32> = Vec::new();
            all.append(&mut self.available_resolutions);
            all.append(&mut found);
            assert(all@ =~= before.resolutions + resolutions_of(list));
            self.available_resolutions = make_falling(&all);
        }
    }
}

// ---------------------------------------------------------------------------
// Ordering streams
// ---------------------------------------------------------------------------

/// The resolution of a stream, zero where there is none.
pub open spec fn resolution_of(j: JsonV) -> i64 {
    match int_in(j.get("resolution"@)) {
        Some(n) => n,
        None => 0,
    }
}

/// The resolution of a stream, zero where there is none.
fn read_resolution(j: &Json) -> (r: i64)
    ensures
        r == resolution_of(j@),
{
    match int_of(j.get("resolution")) {
        Some(n) => n,
        None => 0,
    }
}

/// Where a resolution is put among the first `n` streams: behind all that are not lower.
pub open spec fn resolution_place(v: Seq<JsonV>, r: i64, n: int) -> int
    decreases n,
{
    if n <= 0 {
        0
    } else if resolution_of(v[n - 1]) < r {
        resolution_place(v, r, n - 1)
    } else {
        n
    }
}

/// Streams from the highest resolution down, those of the same in the order they had.
pub open spec fn by_resolution(v: Seq<JsonV>) -> Seq<JsonV>
    decreases v.len(),
{
    if v.len() == 0 {
        v
    } else {
        let s = by_resolution(v.drop_last());
        s.insert(resolution_place(s, resolution_of(v.last()), s.len() as int), v.last())
    }
}

/// What stands ahead of a resolution's place, and what stands behind it.
proof fn lemma_resolution_place(v: Seq<JsonV>, r: i64, n: int)
    requires
        0 <= n <= v.len(),
    ensures
        ({
            let p = resolution_place(v, r, n);
            &&& 0 <= p <= n
            &&& forall|i: int| p <= i < n ==> resolution_of(#[trigger] v[i]) < r
            &&& p > 0 ==> resolution_of(v[p - 1]) >= r
        }),
    decreases n,
{
    if n > 0 && resolution_of(v[n - 1]) < r {
        lemma_resolution_place(v, r, n - 1);
    }
}

/// Whether streams stand from the highest resolution down.
pub open spec fn highest_first(v: Seq<JsonV>) -> bool {
    forall|i: int, j: int|
        0 <= i < j < v.len() ==> resolution_of(#[trigger] v[i]) >= resolution_of(#[trigger] v[j])
}

/// Ordered streams are the same streams, from the highest resolution down.
pub proof fn law_by_resolution(v: Seq<JsonV>)
    ensures
        highest_first(by_resolution(v)),
        by_resolution(v).len() == v.len(),
        by_resolution(v).to_multiset() == v.to_multiset(),
    decreases v.len(),
{
    if v.len() > 0 {
        law_by_resolution(v.drop_last());
        let s = by_resolution(v.drop_last());
        let x = v.last();
        lemma_resolution_place(s, resolution_of(x), s.len() as int);
        let p = resolution_place(s, resolution_of(x), s.len() as int);
        let out = s.insert(p, x);
        assert forall|i: int, j: int| 0 <= i < j < out.len() implies resolution_of(
            #[trigger] out[i],
        ) >= resolution_of(#[trigger] out[j]) by {
            if i == p {
                assert(out[j] == s[j - 1]);
            } else if j == p {
                assert(out[i] == s[i]);
                if i < p - 1 {
                    assert(resolution_of(s[i]) >= resolution_of(s[p - 1]));
                }
            } else {
                let a = if i < p { i } else { i - 1 };
                let b = if j < p { j } else { j - 1 };
                assert(out[i] == s[a] && out[j] == s[b]);
            }
        }
        vstd::seq_lib::to_multiset_insert(s, p, x);
        vstd::seq_lib::to_multiset_build(v.drop_last(), x);
        assert(v =~= v.drop_last().push(x));
    }
}

/// Streams from the highest resolution down, those of the same in the order they had.
pub fn order_streams(v: &Vec<Json>) -> (r: Vec<Json>)
    ensures
        json_list(r@) == by_resolution(json_list(v@)),
{
    let ghost list = json_list(v@);
    let mut r: Vec<Json> = Vec::new();
    let mut k: usize = 0;
    assert(list.take(0) =~= json_list(r@));
    while k < v.len()
        invariant
            k <= v@.len(),
            list == json_list(v@),
            json_list(r@) == by_resolution(list.take(k as int)),
        decreases v@.len() - k,
    {
        let ghost sorted = json_list(r@);
        proof {
            assert(list.take(k + 1).drop_last() =~= list.take(k as int));
            assert(list.take(k + 1).last() == v@[k as int]@);
        }
        let x = v[k].copy();
        let res = read_resolution(&x);
        let mut i: usize = r.len();
        while i > 0 && read_resolution(&r[i - 1]) < res
            invariant
                i <= r@.len(),
                json_list(r@) == sorted,
                resolution_place(sorted, res, sorted.len() as int) == resolution_place(
                    sorted,
                    res,
                    i as int,
                ),
            decreases i,
        {
            assert(sorted[i - 1] == r@[i - 1]@);
            i = i - 1;
        }
        r.insert(i, x);
        proof {
            assert(json_list(r@) =~= sorted.insert(i as int, x@));
        }
        k = k + 1;
    }
    assert(list.take(list.len() as int) =~= list);
    r
}

/// A stream that comes last stands behind all of the same or a higher resolution, and before all others.
pub proof fn law_place_by_resolution(v: Seq<JsonV>, x: JsonV)
    ensures
        exists|p: int|
            0 <= p <= by_resolution(v).len() && #[trigger] by_resolution(v).insert(p, x) == by_resolution(v.push(x))
                && (forall|i: int| 0 <= i < p ==> resolution_of(#[trigger] by_resolution(v)[i]) >= resolution_of(x)) && (forall|i: int|
                p <= i < by_resolution(v).len() ==> resolution_of(#[trigger] by_resolution(v)[i]) < resolution_of(x)),
{
    assert(v.push(x).drop_last() =~= v);
    let s = by_resolution(v);
    lemma_resolution_place(s, resolution_of(x), s.len() as int);
    let p = resolution_place(s, resolution_of(x), s.len() as int);
    assert(s.insert(p, x) == by_resolution(v.push(x)));
    law_by_resolution(v);
    assert forall|i: int| 0 <= i < p implies resolution_of(#[trigger] s[i]) >= resolution_of(x) by {
        if i < p - 1 {
            assert(resolution_of(s[i]) >= resolution_of(s[p - 1]));
        }
    }
}

} // verus!
