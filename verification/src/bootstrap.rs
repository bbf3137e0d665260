//! Settings of the storage bootstrap tool, and the browser origins it allows
//! to upload straight to the bucket.

use vstd::prelude::*;
use crate::storage::StorageConfig;
use crate::text::{chars_of, lex_less, string_of, trim_chars, trimmed};
use crate::{CorsConfig, FrontendConfig};

verus! {

/// What the storage bootstrap tool reads: the storage section, and the
/// frontend and CORS sections when present.
pub struct StorageBootstrapConfig {
    pub storage: StorageConfig,
    pub frontend: Option<FrontendConfig>,
    pub cors: Option<CorsConfig>,
}

/// `s` split at every `,` (empty pieces included), as `str::split(',')`.
pub open spec fn split_commas(s: Seq<char>) -> Seq<Seq<char>>
    decreases s.len(),
{
    if s.len() == 0 {
        seq![seq![]]
    } else if s.last() == ',' {
        split_commas(s.drop_last()).push(seq![])
    } else {
        let p = split_commas(s.drop_last());
        p.update(p.len() - 1, p.last().push(s.last()))
    }
}

proof fn lemma_split_commas_nonempty(s: Seq<char>)
    ensures
        split_commas(s).len() >= 1,
    decreases s.len(),
{
    if s.len() > 0 {
        lemma_split_commas_nonempty(s.drop_last());
    }
}

/// `pieces` joined back together with a `,` between neighbours.
pub open spec fn joined_with_commas(pieces: Seq<Seq<char>>) -> Seq<char>
    decreases pieces.len(),
{
    if pieces.len() == 0 {
        seq![]
    } else if pieces.len() == 1 {
        pieces[0]
    } else {
        joined_with_commas(pieces.drop_last()) + seq![','] + pieces.last()
    }
}

/// Splitting at commas loses nothing and cuts at every comma: no piece holds
/// a `,`, and joining the pieces with `,` gives back the text. These two facts
/// determine the pieces.
pub proof fn law_split_commas_rejoins(s: Seq<char>)
    ensures
        joined_with_commas(split_commas(s)) == s,
        forall|i: int, j: int|
            0 <= i < split_commas(s).len() && 0 <= j < split_commas(s)[i].len()
                ==> #[trigger] split_commas(s)[i][j] != ',',
    decreases s.len(),
{
    if s.len() == 0 {
        assert(s =~= seq![]);
    } else {
        let t = s.drop_last();
        let c = s.last();
        law_split_commas_rejoins(t);
        lemma_split_commas_nonempty(t);
        let p = split_commas(t);
        if c == ',' {
            let q = p.push(seq![]);
            assert(q.drop_last() =~= p);
            assert(s =~= t + seq![','] + Seq::<char>::empty());
            assert forall|i: int, j: int|
                0 <= i < q.len() && 0 <= j < q[i].len() implies #[trigger] q[i][j] != ',' by {
                if i < p.len() {
                    assert(q[i] == p[i]);
                    assert(p[i][j] != ',');
                }
            }
        } else {
            let n = p.len() - 1;
            let q = p.update(n, p.last().push(c));
            if p.len() == 1 {
                assert(s =~= t.push(c));
            } else {
                assert(q.drop_last() =~= p.drop_last());
                assert(q.last() == p.last().push(c));
                assert(s =~= (joined_with_commas(p.drop_last()) + seq![','] + p.last()).push(c));
                assert(joined_with_commas(q) =~= (joined_with_commas(p.drop_last()) + seq![',']
                    + p.last()).push(c));
            }
            assert forall|i: int, j: int|
                0 <= i < q.len() && 0 <= j < q[i].len() implies #[trigger] q[i][j] != ',' by {
                if i < n {
                    assert(q[i] == p[i]);
                    assert(p[i][j] != ',');
                } else if j < p[n].len() {
                    assert(q[i][j] == p[n][j]);
                    assert(p[n][j] != ',');
                }
            }
        }
    }
}

/// The origins named by `candidates`: each trimmed, the blank ones dropped.
pub open spec fn origin_set(candidates: Seq<Seq<char>>) -> Set<Seq<char>> {
    Set::new(
        |o: Seq<char>|
            exists|i: int|
                0 <= i < candidates.len() && #[trigger] trimmed(candidates[i]) == o && o.len()
                    > 0,
    )
}

/// Every candidate origin of the bootstrap settings: the frontend URL, then
/// each comma-separated entry of the CORS list.
pub open spec fn origin_candidates(config: StorageBootstrapConfig) -> Seq<Seq<char>> {
    (match config.frontend {
        Some(f) => seq![f.url@],
        None => seq![],
    }) + (match config.cors {
        Some(c) => split_commas(c.allowed_origins@),
        None => seq![],
    })
}

/// The frontend URL, trimmed, is always an allowed origin unless it is blank.
pub proof fn law_frontend_origin_is_allowed(config: StorageBootstrapConfig)
    requires
        config.frontend is Some,
        trimmed(config.frontend->0.url@).len() > 0,
    ensures
        origin_set(origin_candidates(config)).contains(trimmed(config.frontend->0.url@)),
{
    let cands = origin_candidates(config);
    assert(cands[0] == config.frontend->0.url@);
}

/// Every entry of the CORS list, trimmed, is an allowed origin unless it is
/// blank.
pub proof fn law_cors_entries_are_allowed(config: StorageBootstrapConfig, i: int)
    requires
        config.cors is Some,
        0 <= i < split_commas(config.cors->0.allowed_origins@).len(),
        trimmed(split_commas(config.cors->0.allowed_origins@)[i]).len() > 0,
    ensures
        origin_set(origin_candidates(config)).contains(
            trimmed(split_commas(config.cors->0.allowed_origins@)[i]),
        ),
{
    let front: Seq<Seq<char>> = match config.frontend {
        Some(f) => seq![f.url@],
        None => seq![],
    };
    let pieces = split_commas(config.cors->0.allowed_origins@);
    let cands = origin_candidates(config);
    assert(cands == front + pieces);
    assert(cands[front.len() + i] == pieces[i]);
}

/// Nothing but the frontend URL and the CORS entries is allowed: every
/// allowed origin is one of them, trimmed, and is not blank.
pub proof fn law_only_configured_origins_are_allowed(config: StorageBootstrapConfig, o: Seq<char>)
    requires
        origin_set(origin_candidates(config)).contains(o),
    ensures
        o.len() > 0,
        (config.frontend matches Some(f) && o == trimmed(f.url@)) || (config.cors matches Some(c)
            && exists|i: int|
            0 <= i < split_commas(c.allowed_origins@).len() && o == trimmed(
                #[trigger] split_commas(c.allowed_origins@)[i],
            )),
{
    let front: Seq<Seq<char>> = match config.frontend {
        Some(f) => seq![f.url@],
        None => seq![],
    };
    let rest: Seq<Seq<char>> = match config.cors {
        Some(c) => split_commas(c.allowed_origins@),
        None => seq![],
    };
    let cands = origin_candidates(config);
    assert(cands == front + rest);
    let k = choose|k: int| 0 <= k < cands.len() && #[trigger] trimmed(cands[k]) == o && o.len() > 0;
    if k >= front.len() {
        assert(cands[k] == rest[k - front.len()]);
    }
}

pub open spec fn string_views(v: Seq<String>) -> Seq<Seq<char>> {
    v.map_values(|s: String| s@)
}

/// Strictly increasing: sorted with no repeats, as a `BTreeSet` iterates.
pub open spec fn strictly_sorted(v: Seq<Seq<char>>) -> bool {
    forall|i: int, j: int| 0 <= i < j < v.len() ==> lex_less(#[trigger] v[i], #[trigger] v[j])
}

proof fn lemma_lex_irreflexive(a: Seq<char>)
    ensures
        !lex_less(a, a),
    decreases a.len(),
{
    if a.len() > 0 {
        lemma_lex_irreflexive(a.drop_first());
    }
}

proof fn lemma_lex_total(a: Seq<char>, b: Seq<char>)
    ensures
        a == b || lex_less(a, b) || lex_less(b, a),
    decreases a.len(),
{
    if a.len() > 0 && b.len() > 0 && a[0] == b[0] {
        lemma_lex_total(a.drop_first(), b.drop_first());
        if a.drop_first() == b.drop_first() {
            assert(a =~= seq![a[0]] + a.drop_first());
            assert(b =~= seq![b[0]] + b.drop_first());
        }
    } else if a.len() == 0 && b.len() == 0 {
        assert(a =~= b);
    }
}

proof fn lemma_lex_transitive(a: Seq<char>, b: Seq<char>, c: Seq<char>)
    requires
        lex_less(a, b),
        lex_less(b, c),
    ensures
        lex_less(a, c),
    decreases a.len(),
{
    if a.len() > 0 && b.len() > 0 && c.len() > 0 && a[0] == b[0] && b[0] == c[0] {
        lemma_lex_transitive(a.drop_first(), b.drop_first(), c.drop_first());
    }
}

/// Lexicographic comparison of two character sequences: `-1`, `0` or `1`.
fn lex_compare(a: &Vec<char>, b: &Vec<char>) -> (r: i8)
    ensures
        r == 0 <==> a@ == b@,
        r < 0 <==> lex_less(a@, b@),
        r > 0 <==> lex_less(b@, a@),
{
    proof {
        lemma_lex_total(a@, b@);
        lemma_lex_irreflexive(a@);
        if lex_less(a@, b@) && lex_less(b@, a@) {
            lemma_lex_transitive(a@, b@, a@);
        }
    }
    let mut i: usize = 0;
    assert(a@.skip(0) =~= a@);
    assert(b@.skip(0) =~= b@);
    while i < a.len() && i < b.len()
        invariant
            i <= a@.len(),
            i <= b@.len(),
            a@.take(i as int) == b@.take(i as int),
            lex_less(a@, b@) == lex_less(a@.skip(i as int), b@.skip(i as int)),
            lex_less(b@, a@) == lex_less(b@.skip(i as int), a@.skip(i as int)),
        decreases a.len() - i,
    {
        assert(a@.skip(i as int)[0] == a@[i as int]);
        assert(b@.skip(i as int)[0] == b@[i as int]);
        if a[i] != b[i] {
            if a[i] < b[i] {
                return -1;
            } else {
                return 1;
            }
        }
        assert(a@.skip(i as int).drop_first() =~= a@.skip(i + 1));
        assert(b@.skip(i as int).drop_first() =~= b@.skip(i + 1));
        assert(a@.take(i + 1) =~= a@.take(i as int).push(a@[i as int]));
        assert(b@.take(i + 1) =~= b@.take(i as int).push(b@[i as int]));
        i = i + 1;
    }
    if a.len() == b.len() {
        assert(a@ =~= a@.take(i as int));
        assert(b@ =~= b@.take(i as int));
        0
    } else if a.len() < b.len() {
        assert(a@.skip(i as int).len() == 0);
        -1
    } else {
        assert(b@.skip(i as int).len() == 0);
        1
    }
}

/// Adds `origin`, trimmed, to the sorted set `origins` unless it is blank or
/// already there.
///
/// The set is a strictly sorted `Vec` rather than a `BTreeSet<String>`: vstd
/// specifies `BTreeSet::insert` only for keys whose `Ord` it models, and it
/// models none for `String`, so nothing could be proved through it.
pub fn insert_origin(origins: &mut Vec<String>, origin: &str)
    requires
        strictly_sorted(string_views(old(origins)@)),
    ensures
        strictly_sorted(string_views(final(origins)@)),
        string_views(final(origins)@).to_set() == (if trimmed(origin@).len() > 0 {
            string_views(old(origins)@).to_set().insert(trimmed(origin@))
        } else {
            string_views(old(origins)@).to_set()
        }),
{
    let t = trim_chars(origin);
    if t.len() == 0 {
        return;
    }
    let ghost old_views = string_views(origins@);
    let mut p: usize = 0;
    while p < origins.len()
        invariant
            p <= origins@.len(),
            old_views == string_views(origins@),
            strictly_sorted(old_views),
            t@ == trimmed(origin@),
            forall|k: int| 0 <= k < p ==> lex_less(#[trigger] old_views[k], t@),
        ensures
            p <= origins@.len(),
            forall|k: int| 0 <= k < p ==> lex_less(#[trigger] old_views[k], t@),
            p < origins@.len() ==> lex_less(t@, old_views[p as int]),
        decreases origins.len() - p,
    {
        let existing = chars_of(origins[p].as_str());
        let c = lex_compare(&existing, &t);
        if c == 0 {
            assert(old_views[p as int] == t@);
            assert(old_views.to_set() =~= old_views.to_set().insert(t@));
            return;
        }
        if c > 0 {
            break;
        }
        p = p + 1;
    }
    let s = string_of(&t);
    origins.insert(p, s);
    proof {
        let nv = string_views(origins@);
        assert(nv =~= old_views.take(p as int).push(t@) + old_views.skip(p as int));
        assert forall|i: int, j: int| 0 <= i < j < nv.len() implies lex_less(
            #[trigger] nv[i],
            #[trigger] nv[j],
        ) by {
            if j < p {
                assert(nv[i] == old_views[i] && nv[j] == old_views[j]);
            } else if j == p {
                assert(nv[i] == old_views[i]);
            } else if i == p {
                assert(nv[j] == old_views[j - 1]);
                if j - 1 > p {
                    assert(lex_less(old_views[p as int], old_views[j - 1]));
                    lemma_lex_transitive(t@, old_views[p as int], old_views[j - 1]);
                }
            } else if i < p {
                assert(nv[i] == old_views[i] && nv[j] == old_views[j - 1]);
                if j - 1 > p {
                    assert(lex_less(old_views[p as int], old_views[j - 1]));
                    lemma_lex_transitive(t@, old_views[p as int], old_views[j - 1]);
                }
                if j - 1 >= p {
                    lemma_lex_transitive(old_views[i], t@, old_views[j - 1]);
                }
            } else {
                assert(nv[i] == old_views[i - 1] && nv[j] == old_views[j - 1]);
            }
        }
        assert(nv.to_set() =~= old_views.to_set().insert(t@)) by {
            assert forall|o: Seq<char>| nv.to_set().contains(o) implies old_views.to_set().insert(
                t@,
            ).contains(o) by {
                let k = choose|k: int| 0 <= k < nv.len() && nv[k] == o;
                if k < p {
                    assert(old_views[k] == o);
                } else if k > p {
                    assert(old_views[k - 1] == o);
                }
            }
            assert forall|o: Seq<char>| old_views.to_set().insert(t@).contains(o) implies nv.to_set().contains(
                o,
            ) by {
                if o == t@ {
                    assert(nv[p as int] == o);
                } else {
                    let k = choose|k: int| 0 <= k < old_views.len() && old_views[k] == o;
                    if k < p {
                        assert(nv[k] == o);
                    } else {
                        assert(nv[k + 1] == o);
                    }
                }
            }
        }
    }
}

proof fn lemma_origin_set_push(cands: Seq<Seq<char>>, c: Seq<char>)
    ensures
        origin_set(cands.push(c)) == (if trimmed(c).len() > 0 {
            origin_set(cands).insert(trimmed(c))
        } else {
            origin_set(cands)
        }),
{
    let cands2 = cands.push(c);
    let rhs = if trimmed(c).len() > 0 {
        origin_set(cands).insert(trimmed(c))
    } else {
        origin_set(cands)
    };
    assert forall|o: Seq<char>| origin_set(cands2).contains(o) implies rhs.contains(o) by {
        let k = choose|k: int| 0 <= k < cands2.len() && #[trigger] trimmed(cands2[k]) == o && o.len() > 0;
        if k < cands.len() {
            assert(cands2[k] == cands[k]);
        }
    }
    assert forall|o: Seq<char>| rhs.contains(o) implies origin_set(cands2).contains(o) by {
        if o == trimmed(c) && o.len() > 0 {
            assert(trimmed(cands2[cands.len() as int]) == o);
        } else {
            let k = choose|k: int| 0 <= k < cands.len() && #[trigger] trimmed(cands[k]) == o && o.len() > 0;
            assert(cands2[k] == cands[k]);
        }
    }
    assert(origin_set(cands2) =~= rhs);
}

impl StorageBootstrapConfig {
    /// The origins allowed to upload from a browser: the frontend URL and each
    /// entry of the CORS list, trimmed, blank ones dropped, each once, in
    /// sorted order.
    pub fn upload_cors_allowed_origins(&self) -> (origins: Vec<String>)
        ensures
            strictly_sorted(string_views(origins@)),
            string_views(origins@).to_set() == origin_set(origin_candidates(*self)),
            self.frontend is Some && trimmed(self.frontend->0.url@).len() > 0 ==> string_views(
                origins@,
            ).contains(trimmed(self.frontend->0.url@)),
            self.cors matches Some(c) ==> forall|i: int|
                0 <= i < split_commas(c.allowed_origins@).len() && trimmed(
                    #[trigger] split_commas(c.allowed_origins@)[i],
                ).len() > 0 ==> string_views(origins@).contains(
                    trimmed(split_commas(c.allowed_origins@)[i]),
                ),
    {
        let mut origins: Vec<String> = Vec::new();
        let ghost frontend_part: Seq<Seq<char>> = match &self.frontend {
            Some(f) => seq![f.url@],
            None => seq![],
        };

        proof {
            assert(string_views(origins@).to_set() =~= origin_set(seq![]));
        }
        if let Some(frontend) = &self.frontend {
            insert_origin(&mut origins, frontend.url.as_str());
            proof {
                assert(frontend_part =~= seq![].push(frontend.url@));
                lemma_origin_set_push(seq![], frontend.url@);
            }
        }
        if let Some(cors) = &self.cors {
            let cs = chars_of(cors.allowed_origins.as_str());
            let mut piece: Vec<char> = Vec::new();
            let ghost mut emitted: Seq<Seq<char>> = seq![];
            let mut i: usize = 0;
            assert(cs@.take(0) =~= seq![]);
            while i < cs.len()
                invariant
                    i <= cs@.len(),
                    cs@ == cors.allowed_origins@,
                    split_commas(cs@.take(i as int)) == emitted.push(piece@),
                    strictly_sorted(string_views(origins@)),
                    string_views(origins@).to_set() == origin_set(frontend_part + emitted),
                decreases cs.len() - i,
            {
                let c = cs[i];
                assert(cs@.take(i + 1).drop_last() =~= cs@.take(i as int));
                if c == ',' {
                    let s = string_of(&piece);
                    let ghost before = string_views(origins@).to_set();
                    insert_origin(&mut origins, s.as_str());
                    proof {
                        let cands = frontend_part + emitted;
                        assert(frontend_part + emitted.push(piece@) =~= cands.push(piece@));
                        lemma_origin_set_push(cands, piece@);
                        emitted = emitted.push(piece@);
                    }
                    piece = Vec::new();
                    assert(split_commas(cs@.take(i + 1)) =~= emitted.push(piece@));
                } else {
                    piece.push(c);
                    proof {
                        lemma_split_commas_nonempty(cs@.take(i as int));
                    }
                    assert(split_commas(cs@.take(i + 1)) =~= emitted.push(piece@));
                }
                i = i + 1;
            }
            let s = string_of(&piece);
            insert_origin(&mut origins, s.as_str());
            proof {
                assert(cs@.take(cs@.len() as int) =~= cs@);
                let cands = frontend_part + emitted;
                assert(frontend_part + emitted.push(piece@) =~= cands.push(piece@));
                assert(origin_candidates(*self) == cands.push(piece@));
                lemma_origin_set_push(cands, piece@);
            }
        } else {
            proof {
                assert(origin_candidates(*self) =~= frontend_part);
            }
        }
        proof {
            let allowed = string_views(origins@).to_set();
            if self.frontend is Some && trimmed(self.frontend->0.url@).len() > 0 {
                law_frontend_origin_is_allowed(*self);
                assert(allowed.contains(trimmed(self.frontend->0.url@)));
            }
            if self.cors is Some {
                let pieces = split_commas(self.cors->0.allowed_origins@);
                assert forall|i: int|
                    0 <= i < pieces.len() && trimmed(#[trigger] pieces[i]).len() > 0 implies string_views(
                    origins@,
                ).contains(trimmed(pieces[i])) by {
                    law_cors_entries_are_allowed(*self, i);
                    assert(allowed.contains(trimmed(pieces[i])));
                }
            }
        }
        origins
    }
}

} // verus!
