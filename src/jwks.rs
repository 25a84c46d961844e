//! When JWKS sources are fetched again, and which of their keys stands
//! for each key id.
use vstd::prelude::*;

use crate::jwt::JwtDecoderError;

verus! {

#[verifier::external_type_specification]
#[verifier::external_body]
pub struct ExJwkSet(jsonwebtoken::jwk::JwkSet);

#[verifier::external_type_specification]
#[verifier::external_body]
pub struct ExDecodingKey(jsonwebtoken::DecodingKey);

#[verifier::external_type_specification]
#[verifier::external_body]
pub struct ExJwtError(jsonwebtoken::errors::Error);

/// The key ids of the keys a JWKS lists, in the order it lists them;
/// `None` for a key without one.
pub uninterp spec fn jwk_set_key_ids(set: jsonwebtoken::jwk::JwkSet) -> Seq<Option<Seq<char>>>;

/// Relies on the `keys` field of `jsonwebtoken::jwk::JwkSet`, a `Vec`: how
/// many keys the set lists.
#[verifier::external_body]
fn jwk_set_len(set: &jsonwebtoken::jwk::JwkSet) -> (r: usize)
    ensures
        r == jwk_set_key_ids(*set).len(),
{
    set.keys.len()
}

/// Relies on the `keys` field of `jsonwebtoken::jwk::JwkSet` and the
/// `common.key_id` field of each `Jwk`: the id of the key at `i`.
#[verifier::external_body]
fn jwk_key_id_at(set: &jsonwebtoken::jwk::JwkSet, i: usize) -> (r: Option<String>)
    requires
        i < jwk_set_key_ids(*set).len(),
    ensures
        r matches Some(k) ==> jwk_set_key_ids(*set)[i as int] == Some(k@),
        r is None ==> jwk_set_key_ids(*set)[i as int] is None,
{
    set.keys[i].common.key_id.clone()
}

/// Relies on `jsonwebtoken::DecodingKey::from_jwk`, on the key at `i` of
/// the set: a decoding key made of its parameters, or the reason none can
/// be.
#[verifier::external_body]
fn decoding_key_at(set: &jsonwebtoken::jwk::JwkSet, i: usize) -> Result<
    jsonwebtoken::DecodingKey,
    jsonwebtoken::errors::Error,
>
    requires
        i < jwk_set_key_ids(*set).len(),
{
    jsonwebtoken::DecodingKey::from_jwk(&set.keys[i])
}

/// Whether a JWKS source must be fetched: it never was, or its last
/// result has expired.
pub open spec fn needs_refresh(expiration: Option<u64>, now: u64) -> bool {
    match expiration {
        None => true,
        Some(e) => e < now,
    }
}

/// The sources to fetch again, given the expiration of each source's last
/// result (`None` where it has none), in the sources' order.
pub fn sources_to_refresh(expirations: &Vec<Option<u64>>, now: u64) -> (r: Vec<usize>)
    ensures
        forall|k: int|
            0 <= k < r@.len() ==> r@[k] < expirations@.len() && needs_refresh(
                expirations@[r@[k] as int],
                now,
            ),
        forall|k: int, m: int| 0 <= k < m < r@.len() ==> r@[k] < r@[m],
        forall|i: int|
            0 <= i < expirations@.len() && needs_refresh(expirations@[i], now) ==> r@.contains(
                i as usize,
            ),
{
    let mut r: Vec<usize> = Vec::new();
    let mut i: usize = 0;
    while i < expirations.len()
        invariant
            i <= expirations@.len(),
            forall|k: int|
                0 <= k < r@.len() ==> r@[k] < i && needs_refresh(expirations@[r@[k] as int], now),
            forall|k: int, m: int| 0 <= k < m < r@.len() ==> r@[k] < r@[m],
            forall|j: int| 0 <= j < i && needs_refresh(expirations@[j], now) ==> r@.contains(j as usize),
        decreases expirations@.len() - i,
    {
        let due = match expirations[i] {
            None => true,
            Some(e) => e < now,
        };
        if due {
            let ghost before = r@;
            r.push(i);
            assert forall|j: int| 0 <= j < i + 1 && needs_refresh(expirations@[j], now) implies r@.contains(j as usize) by {
                if j < i {
                    assert(before.contains(j as usize));
                    let w = choose|w: int| 0 <= w < before.len() && before[w] == j as usize;
                    assert(r@[w] == j as usize);
                } else {
                    assert(r@[before.len() as int] == i);
                }
            }
        }
        i = i + 1;
    }
    r
}

/// A key of a fetched JWKS, as the key table sees it: its key id if it has
/// one, whether a decoding key could be made of it, and when the set it
/// came from expires.
#[derive(Clone, Debug, PartialEq, Eq)]
pub struct KeyCandidate {
    pub kid: Option<String>,
    pub usable: bool,
    pub expiration: u64,
}

/// Whether a candidate is a usable key with the given key id.
pub open spec fn offers(c: KeyCandidate, kid: Seq<char>) -> bool {
    &&& c.usable
    &&& c.kid matches Some(k) && k@ == kid
}

/// Whether a candidate before position `end` offers the key id.
pub open spec fn offered_before(candidates: Seq<KeyCandidate>, end: int, kid: Seq<char>) -> bool {
    exists|j: int| 0 <= j < end && #[trigger] offers(candidates[j], kid)
}

/// Whether the candidate at `i` is the key its key id stands for: the
/// first usable key with that id in priority order.
pub open spec fn is_chosen(candidates: Seq<KeyCandidate>, i: int) -> bool {
    &&& candidates[i].usable
    &&& candidates[i].kid matches Some(k) && !offered_before(candidates, i, k@)
}

/// An entry of the key table: a key id, the position of its key among the
/// candidates, and when it expires.
#[derive(Clone, Debug, PartialEq, Eq)]
pub struct KeyEntry {
    pub kid: String,
    pub position: usize,
    pub expiration: u64,
}

/// The keys by key id. Where several sources offer a key id, the source
/// listed first wins; a key that could not be decoded never does.
pub struct KeyTable {
    entries: Vec<KeyEntry>,
}

impl KeyTable {
    pub closed spec fn spec_entries(&self) -> Seq<KeyEntry> {
        self.entries@
    }

    /// An empty table.
    pub fn new() -> (r: Self)
        ensures
            r.spec_entries().len() == 0,
    {
        KeyTable { entries: Vec::new() }
    }

    /// The table of the given candidates, which stand in priority order:
    /// the sources in their configured order, each source's keys in the
    /// order its set lists them. It holds exactly the chosen candidates,
    /// in that order.
    pub fn build(candidates: &Vec<KeyCandidate>) -> (r: Self)
        ensures
            forall|e: int|
                0 <= e < r.spec_entries().len() ==> {
                    let entry = #[trigger] r.spec_entries()[e];
                    &&& entry.position < candidates@.len()
                    &&& is_chosen(candidates@, entry.position as int)
                    &&& candidates@[entry.position as int].kid == Some(entry.kid)
                    &&& entry.expiration == candidates@[entry.position as int].expiration
                },
            forall|e: int, f: int|
                0 <= e < f < r.spec_entries().len() ==> r.spec_entries()[e].position
                    < r.spec_entries()[f].position,
            forall|i: int|
                0 <= i < candidates@.len() && is_chosen(candidates@, i) ==> exists|e: int|
                    0 <= e < r.spec_entries().len() && (#[trigger] r.spec_entries()[e]).position
                        == i,
    {
        let mut entries: Vec<KeyEntry> = Vec::new();
        let mut i: usize = 0;
        while i < candidates.len()
            invariant
                i <= candidates@.len(),
                forall|e: int|
                    0 <= e < entries@.len() ==> {
                        let entry = #[trigger] entries@[e];
                        &&& entry.position < i
                        &&& is_chosen(candidates@, entry.position as int)
                        &&& candidates@[entry.position as int].kid == Some(entry.kid)
                        &&& entry.expiration == candidates@[entry.position as int].expiration
                    },
                forall|e: int, f: int|
                    0 <= e < f < entries@.len() ==> entries@[e].position < entries@[f].position,
                forall|j: int|
                    0 <= j < i && is_chosen(candidates@, j) ==> exists|e: int|
                        0 <= e < entries@.len() && (#[trigger] entries@[e]).position == j,
                forall|kid: Seq<char>|
                    offered_before(candidates@, i as int, kid) <==> exists|e: int|
                        0 <= e < entries@.len() && (#[trigger] entries@[e]).kid@ == kid,
            decreases candidates@.len() - i,
        {
            let c = &candidates[i];
            let ghost cands = candidates@;
            let ghost next: int = i + 1;
            assert forall|kid: Seq<char>| #[trigger] offered_before(cands, next, kid) == (offered_before(
                cands,
                i as int,
                kid,
            ) || offers(cands[i as int], kid)) by {
                if offered_before(cands, next, kid) && !offers(cands[i as int], kid) {
                    let j = choose|j: int| 0 <= j < i + 1 && #[trigger] offers(cands[j], kid);
                    assert(j < i);
                }
                if offers(cands[i as int], kid) {
                    assert(0 <= i < i + 1 && offers(cands[i as int], kid));
                }
                if offered_before(cands, i as int, kid) {
                    let j = choose|j: int| 0 <= j < i && #[trigger] offers(cands[j], kid);
                    assert(0 <= j < i + 1 && offers(cands[j], kid));
                }
            }
            if c.usable {
                match &c.kid {
                    Some(kid) => {
                        let found = Self::position_of(&entries, kid);
                        if found.is_none() {
                            assert(!offered_before(cands, i as int, kid@));
                            let ghost before = entries@;
                            entries.push(KeyEntry { kid: kid.clone(), position: i, expiration: c.expiration });
                            assert forall|other: Seq<char>| #[trigger] offered_before(cands, next, other) <==> exists|e: int|
                                0 <= e < entries@.len() && (#[trigger] entries@[e]).kid@ == other by {
                                if offered_before(cands, next, other) {
                                    if offered_before(cands, i as int, other) {
                                        let e = choose|e: int| 0 <= e < before.len() && (#[trigger] before[e]).kid@ == other;
                                        assert(entries@[e] == before[e]);
                                    } else {
                                        assert(entries@[before.len() as int].kid@ == other);
                                    }
                                }
                                if exists|e: int| 0 <= e < entries@.len() && (#[trigger] entries@[e]).kid@ == other {
                                    let e = choose|e: int| 0 <= e < entries@.len() && (#[trigger] entries@[e]).kid@ == other;
                                    if e < before.len() {
                                        assert(before[e] == entries@[e]);
                                    } else {
                                        assert(offers(cands[i as int], other));
                                    }
                                }
                            }
                            assert forall|j: int| 0 <= j < i + 1 && is_chosen(cands, j) implies exists|e: int|
                                0 <= e < entries@.len() && (#[trigger] entries@[e]).position == j by {
                                if j < i {
                                    let e = choose|e: int| 0 <= e < before.len() && (#[trigger] before[e]).position == j;
                                    assert(entries@[e] == before[e]);
                                } else {
                                    assert(entries@[before.len() as int].position == j);
                                }
                            }
                        } else {
                            let ghost e = found->0;
                            assert(entries@[e as int].kid@ == kid@);
                            assert(offered_before(cands, i as int, kid@));
                            assert(!is_chosen(cands, i as int));
                            assert forall|other: Seq<char>| #[trigger] offered_before(cands, next, other) <==> exists|e: int|
                                0 <= e < entries@.len() && (#[trigger] entries@[e]).kid@ == other by {
                                if offers(cands[i as int], other) {
                                    assert(other == kid@);
                                }
                            }
                        }
                    },
                    None => {
                        assert(forall|kid: Seq<char>| !offers(cands[i as int], kid));
                    },
                }
            } else {
                assert(forall|kid: Seq<char>| !offers(cands[i as int], kid));
            }
            i = i + 1;
        }
        KeyTable { entries }
    }

    /// The index of the entry with the given key id.
    fn position_of(entries: &Vec<KeyEntry>, kid: &String) -> (r: Option<usize>)
        ensures
            r matches Some(e) ==> e < entries@.len() && entries@[e as int].kid@ == kid@,
            r is None ==> forall|e: int| 0 <= e < entries@.len() ==> (#[trigger] entries@[e]).kid@ != kid@,
    {
        let mut e: usize = 0;
        while e < entries.len()
            invariant
                e <= entries@.len(),
                forall|f: int| 0 <= f < e ==> (#[trigger] entries@[f]).kid@ != kid@,
            decreases entries@.len() - e,
        {
            if entries[e].kid == *kid {
                return Some(e);
            }
            e = e + 1;
        }
        None
    }

    /// The position of the key for a key id, unless the table has none or
    /// its entry expired before `now`.
    pub fn lookup(&self, kid: &String, now: u64) -> (r: Option<usize>)
        ensures
            r matches Some(p) ==> exists|e: int|
                0 <= e < self.spec_entries().len() && #[trigger] self.spec_entries()[e].kid@ == kid@
                    && self.spec_entries()[e].position == p && now <= self.spec_entries()[e].expiration,
            r is None ==> forall|e: int|
                0 <= e < self.spec_entries().len() && #[trigger] self.spec_entries()[e].kid@ == kid@
                    ==> self.spec_entries()[e].expiration < now,
    {
        let mut e: usize = 0;
        while e < self.entries.len()
            invariant
                e <= self.spec_entries().len(),
                forall|f: int|
                    0 <= f < e && #[trigger] self.spec_entries()[f].kid@ == kid@
                        ==> self.spec_entries()[f].expiration < now,
            decreases self.spec_entries().len() - e,
        {
            let entry = &self.entries[e];
            if entry.kid == *kid && now <= entry.expiration {
                return Some(entry.position);
            }
            e = e + 1;
        }
        None
    }
}

/// A key id as a sequence of characters.
pub open spec fn kid_view(kid: Option<String>) -> Option<Seq<char>> {
    match kid {
        Some(k) => Some(k@),
        None => None,
    }
}

/// What the key table reads of a candidate besides its usability: its
/// key id and its expiration.
pub open spec fn candidate_view(c: KeyCandidate) -> (Option<Seq<char>>, u64) {
    (kid_view(c.kid), c.expiration)
}

/// The keys a source offers: those of its set, when its last fetch
/// succeeded, each with the set's expiration; none otherwise.
pub open spec fn keys_of_source(source: Option<FetchedJwks>) -> Seq<(Option<Seq<char>>, u64)> {
    match source {
        Some(fetched) => match fetched.jwks {
            Ok(set) => jwk_set_key_ids(set).map_values(
                |kid: Option<Seq<char>>| (kid, fetched.expiration),
            ),
            Err(_) => Seq::empty(),
        },
        None => Seq::empty(),
    }
}

/// The keys the sources offer, source after source in their order.
pub open spec fn keys_of_sources(sources: Seq<Option<FetchedJwks>>) -> Seq<
    (Option<Seq<char>>, u64),
>
    decreases sources.len(),
{
    if sources.len() == 0 {
        Seq::empty()
    } else {
        keys_of_sources(sources.drop_last()) + keys_of_source(sources.last())
    }
}

/// The last fetch of a JWKS source: the set or the failure, and when it
/// expires.
pub struct FetchedJwks {
    pub jwks: Result<jsonwebtoken::jwk::JwkSet, JwtDecoderError>,
    pub expiration: u64,
}

/// The decoding keys of the fetched sets, with the table that says which
/// key stands for each key id.
pub struct KeyRing {
    table: KeyTable,
    keys: Vec<Option<jsonwebtoken::DecodingKey>>,
    candidates: Ghost<Seq<KeyCandidate>>,
}

impl KeyRing {
    pub closed spec fn spec_table(&self) -> KeyTable {
        self.table
    }

    /// The keys as the table saw them, in priority order.
    pub closed spec fn spec_candidates(&self) -> Seq<KeyCandidate> {
        self.candidates@
    }

    /// The decoding key made for the candidate at a position, if any.
    pub closed spec fn spec_key(&self, position: int) -> Option<jsonwebtoken::DecodingKey> {
        self.keys@[position]
    }

    /// Every candidate has a decoding key exactly when it is usable, and
    /// the table is the one built of the candidates.
    pub closed spec fn wf(&self) -> bool {
        &&& self.keys@.len() == self.candidates@.len()
        &&& forall|i: int|
            0 <= i < self.candidates@.len() ==> (#[trigger] self.candidates@[i]).usable
                == self.keys@[i] is Some
        &&& forall|e: int|
            0 <= e < self.table.spec_entries().len() ==> {
                let entry = #[trigger] self.table.spec_entries()[e];
                &&& entry.position < self.candidates@.len()
                &&& is_chosen(self.candidates@, entry.position as int)
                &&& self.candidates@[entry.position as int].kid == Some(entry.kid)
                &&& entry.expiration == self.candidates@[entry.position as int].expiration
            }
        &&& forall|i: int|
            0 <= i < self.candidates@.len() && is_chosen(self.candidates@, i) ==> exists|e: int|
                0 <= e < self.table.spec_entries().len()
                    && (#[trigger] self.table.spec_entries()[e]).position == i
    }

    /// A ring without keys.
    pub fn new() -> (r: Self)
        ensures
            r.wf(),
            r.spec_table().spec_entries().len() == 0,
    {
        KeyRing { table: KeyTable::new(), keys: Vec::new(), candidates: Ghost(Seq::empty()) }
    }

    /// The ring of the given sources, which stand in their configured
    /// order. A source never fetched, or whose fetch failed, offers no key;
    /// a key offered by a set expires with that set.
    pub fn build(sources: &Vec<Option<FetchedJwks>>) -> (r: Self)
        ensures
            r.wf(),
            r.spec_candidates().map_values(|c: KeyCandidate| candidate_view(c)) == keys_of_sources(
                sources@,
            ),
    {
        let mut candidates: Vec<KeyCandidate> = Vec::new();
        let mut keys: Vec<Option<jsonwebtoken::DecodingKey>> = Vec::new();
        let mut s: usize = 0;
        assert(sources@.take(0).len() == 0);
        while s < sources.len()
            invariant
                s <= sources@.len(),
                keys@.len() == candidates@.len(),
                forall|i: int|
                    0 <= i < candidates@.len() ==> (#[trigger] candidates@[i]).usable
                        == keys@[i] is Some,
                candidates@.map_values(|c: KeyCandidate| candidate_view(c)) == keys_of_sources(
                    sources@.take(s as int),
                ),
            decreases sources@.len() - s,
        {
            let ghost before = keys_of_sources(sources@.take(s as int));
            assert(sources@.take(s + 1).drop_last() == sources@.take(s as int));
            assert(sources@.take(s + 1).last() == sources@[s as int]);
            match &sources[s] {
                Some(fetched) => match &fetched.jwks {
                    Ok(set) => {
                        let n = jwk_set_len(set);
                        let ghost offered = keys_of_source(sources@[s as int]);
                        assert(offered.take(0) == Seq::<(Option<Seq<char>>, u64)>::empty());
                        assert(before + offered.take(0) == before);
                        let mut k: usize = 0;
                        while k < n
                            invariant
                                n == jwk_set_key_ids(*set).len(),
                                offered == keys_of_source(sources@[s as int]),
                                sources@[s as int] == Some(*fetched),
                                fetched.jwks == Ok::<jsonwebtoken::jwk::JwkSet, JwtDecoderError>(*set),
                                k <= n,
                                keys@.len() == candidates@.len(),
                                forall|i: int|
                                    0 <= i < candidates@.len() ==> (#[trigger] candidates@[i]).usable
                                        == keys@[i] is Some,
                                candidates@.map_values(|c: KeyCandidate| candidate_view(c)) == before
                                    + offered.take(k as int),
                            decreases n - k,
                        {
                            let key = match decoding_key_at(set, k) {
                                Ok(key) => Some(key),
                                Err(_) => None,
                            };
                            let candidate = KeyCandidate {
                                kid: jwk_key_id_at(set, k),
                                usable: key.is_some(),
                                expiration: fetched.expiration,
                            };
                            let ghost earlier = candidates@;
                            candidates.push(candidate);
                            keys.push(key);
                            assert(candidate_view(candidate) == offered[k as int]);
                            assert(offered.take(k + 1) == offered.take(k as int).push(offered[k as int]));
                            assert(candidates@.map_values(|c: KeyCandidate| candidate_view(c))
                                =~= earlier.map_values(|c: KeyCandidate| candidate_view(c)).push(
                                candidate_view(candidate),
                            ));
                            k = k + 1;
                        }
                        assert(offered.take(n as int) == offered);
                    },
                    Err(_) => {
                        assert(keys_of_source(sources@[s as int]) == Seq::<(Option<Seq<char>>, u64)>::empty());
                        assert(before + Seq::<(Option<Seq<char>>, u64)>::empty() == before);
                    },
                },
                None => {
                    assert(before + Seq::<(Option<Seq<char>>, u64)>::empty() == before);
                },
            }
            s = s + 1;
        }
        assert(sources@.take(sources@.len() as int) == sources@);
        let table = KeyTable::build(&candidates);
        KeyRing { table, keys, candidates: Ghost(candidates@) }
    }

    /// The decoding key for a key id: that of the first usable key offered
    /// for it, unless its set expired before `now`.
    pub fn key_for(&self, kid: &String, now: u64) -> (r: Option<&jsonwebtoken::DecodingKey>)
        requires
            self.wf(),
        ensures
            r matches Some(k) ==> exists|e: int|
                0 <= e < self.spec_table().spec_entries().len()
                    && #[trigger] self.spec_table().spec_entries()[e].kid@ == kid@
                    && now <= self.spec_table().spec_entries()[e].expiration && self.spec_key(
                    self.spec_table().spec_entries()[e].position as int,
                ) == Some(*k),
            r is None ==> forall|e: int|
                0 <= e < self.spec_table().spec_entries().len()
                    && #[trigger] self.spec_table().spec_entries()[e].kid@ == kid@
                    ==> self.spec_table().spec_entries()[e].expiration < now,
    {
        match self.table.lookup(kid, now) {
            Some(position) => {
                proof {
                    let e = choose|e: int|
                        0 <= e < self.table.spec_entries().len()
                            && #[trigger] self.table.spec_entries()[e].kid@ == kid@
                            && self.table.spec_entries()[e].position == position
                            && now <= self.table.spec_entries()[e].expiration;
                    assert(is_chosen(self.candidates@, position as int));
                    assert(self.spec_table().spec_entries()[e].kid@ == kid@);
                }
                match &self.keys[position] {
                    Some(key) => Some(key),
                    None => None,
                }
            },
            None => None,
        }
    }

    /// The decoding key for a key id, as [`KeyRing::key_for`] finds it; a
    /// key id it finds no key for is a missing key id.
    pub fn require_key(&self, kid: &String, now: u64) -> (r: Result<
        &jsonwebtoken::DecodingKey,
        JwtDecoderError,
    >)
        requires
            self.wf(),
        ensures
            r matches Ok(k) ==> exists|e: int|
                0 <= e < self.spec_table().spec_entries().len()
                    && #[trigger] self.spec_table().spec_entries()[e].kid@ == kid@
                    && now <= self.spec_table().spec_entries()[e].expiration && self.spec_key(
                    self.spec_table().spec_entries()[e].position as int,
                ) == Some(*k),
            r matches Err(e) ==> e is MissingKeyId,
            r is Err ==> forall|e: int|
                0 <= e < self.spec_table().spec_entries().len()
                    && #[trigger] self.spec_table().spec_entries()[e].kid@ == kid@
                    ==> self.spec_table().spec_entries()[e].expiration < now,
    {
        match self.key_for(kid, now) {
            Some(key) => Ok(key),
            None => Err(JwtDecoderError::new_missing_key_id()),
        }
    }
}

} // verus!
