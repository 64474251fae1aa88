//! Translations: English by default, another locale over it, and the key
//! itself when no translation is known.
use vstd::prelude::*;
use crate::text::{str_eq, to_owned};

verus! {

/// The English translations, as YAML.
pub const EN_YAML: &'static str = "app_name: WinSweep\nnav_dashboard: Dashboard\n";

/// The Spanish translations, as YAML.
pub const ES_YAML: &'static str = "nav_dashboard: Panel\n";

/// Key-value pairs as text.
pub open spec fn kv(s: Seq<(String, String)>) -> Seq<(Seq<char>, Seq<char>)> {
    s.map_values(|p: (String, String)| (p.0@, p.1@))
}

/// No key occurs twice.
pub open spec fn keys_unique(s: Seq<(Seq<char>, Seq<char>)>) -> bool {
    forall|i: int, j: int| 0 <= i < j < s.len() ==> s[i].0 != s[j].0
}

/// The map that key-value pairs form, later pairs winning.
pub open spec fn pairs_map(s: Seq<(Seq<char>, Seq<char>)>) -> Map<Seq<char>, Seq<char>>
    decreases s.len(),
{
    if s.len() == 0 {
        Map::empty()
    } else {
        pairs_map(s.drop_last()).insert(s.last().0, s.last().1)
    }
}

/// A name for what `serde_yaml::from_str` gives for a YAML text read as a
/// map from strings to strings: the map, or nothing when the text is not
/// such a map.
pub uninterp spec fn yaml_string_map(text: Seq<char>) -> Option<Map<Seq<char>, Seq<char>>>;

/// Calls `serde_yaml::from_str` into a `HashMap<String, String>` and hands
/// its entries out; the map they form is named by `yaml_string_map`, and a
/// map holds each key once.
#[verifier::external_body]
fn parse_yaml_map(text: &str) -> (r: Option<Vec<(String, String)>>)
    ensures
        match r {
            Some(v) => keys_unique(kv(v@)) && yaml_string_map(text@) == Some(pairs_map(kv(v@))),
            None => yaml_string_map(text@) is None,
        },
{
    match serde_yaml::from_str::<std::collections::HashMap<String, String>>(text) {
        Ok(m) => Some(m.into_iter().collect()),
        Err(_) => None,
    }
}

/// The YAML text of a locale: Spanish for `es`, English otherwise.
pub open spec fn source_of(locale: Seq<char>) -> Seq<char> {
    if locale == "es"@ {
        ES_YAML@
    } else {
        EN_YAML@
    }
}

/// The translations a YAML text gives, none when it does not parse.
pub open spec fn raw_map(text: Seq<char>) -> Map<Seq<char>, Seq<char>> {
    match yaml_string_map(text) {
        Some(m) => m,
        None => Map::empty(),
    }
}

/// The translations of a locale: English, with the locale's own over it.
pub open spec fn locale_map(locale: Seq<char>) -> Map<Seq<char>, Seq<char>> {
    if locale == "en"@ {
        raw_map(EN_YAML@)
    } else {
        raw_map(EN_YAML@).union_prefer_right(raw_map(source_of(locale)))
    }
}

/// The translation of a key in a map, or the key itself.
pub open spec fn lookup_or_key(m: Map<Seq<char>, Seq<char>>, key: Seq<char>) -> Seq<char> {
    if m.contains_key(key) {
        m[key]
    } else {
        key
    }
}

/// A set of translations.
pub struct TranslationSet {
    entries: Vec<(String, String)>,
}

/// The map holds exactly the keys of the pairs.
pub proof fn lemma_pairs_map_keys(s: Seq<(Seq<char>, Seq<char>)>, k: Seq<char>)
    ensures
        pairs_map(s).contains_key(k) <==> exists|i: int| 0 <= i < s.len() && s[i].0 == k,
    decreases s.len(),
{
    if s.len() > 0 {
        lemma_pairs_map_keys(s.drop_last(), k);
        if pairs_map(s).contains_key(k) {
            if s.last().0 == k {
                assert(s[s.len() - 1].0 == k);
            } else {
                let i = choose|i: int| 0 <= i < s.drop_last().len() && s.drop_last()[i].0 == k;
                assert(s[i].0 == k);
            }
        }
        if exists|i: int| 0 <= i < s.len() && s[i].0 == k {
            let i = choose|i: int| 0 <= i < s.len() && s[i].0 == k;
            if i < s.len() - 1 {
                assert(s.drop_last()[i].0 == k);
            }
        }
    }
}

/// With unique keys, the map gives each pair's value for its key.
pub proof fn lemma_pairs_map_value(s: Seq<(Seq<char>, Seq<char>)>, i: int)
    requires
        keys_unique(s),
        0 <= i < s.len(),
    ensures
        pairs_map(s).contains_key(s[i].0),
        pairs_map(s)[s[i].0] == s[i].1,
    decreases s.len(),
{
    if i < s.len() - 1 {
        assert(s.drop_last()[i] == s[i]);
        lemma_pairs_map_value(s.drop_last(), i);
    }
}

/// With unique keys, replacing the pair of a key replaces its value.
pub proof fn lemma_pairs_map_update(s: Seq<(Seq<char>, Seq<char>)>, i: int, p: (Seq<char>, Seq<char>))
    requires
        keys_unique(s),
        0 <= i < s.len(),
        s[i].0 == p.0,
    ensures
        pairs_map(s.update(i, p)) == pairs_map(s).insert(p.0, p.1),
        keys_unique(s.update(i, p)),
    decreases s.len(),
{
    let t = s.update(i, p);
    if i == s.len() - 1 {
        assert(t.drop_last() =~= s.drop_last());
        assert(pairs_map(t) =~= pairs_map(s).insert(p.0, p.1));
    } else {
        assert(t.drop_last() =~= s.drop_last().update(i, p));
        lemma_pairs_map_update(s.drop_last(), i, p);
        assert(s.last().0 != p.0);
        assert(pairs_map(t) =~= pairs_map(s).insert(p.0, p.1));
    }
    assert forall|a: int, b: int| 0 <= a < b < t.len() implies t[a].0 != t[b].0 by {
        if a != i && b != i {
            assert(t[a] == s[a] && t[b] == s[b]);
        }
    }
}

impl TranslationSet {
    /// The translations held.
    pub closed spec fn map(&self) -> Map<Seq<char>, Seq<char>> {
        pairs_map(kv(self.entries@))
    }

    /// The set's invariant: each key once.
    pub closed spec fn wf(&self) -> bool {
        keys_unique(kv(self.entries@))
    }

    /// The translations a locale's YAML text gives, none when it does not
    /// parse.
    fn load_raw(locale: &str) -> (r: Vec<(String, String)>)
        ensures
            keys_unique(kv(r@)),
            pairs_map(kv(r@)) == raw_map(source_of(locale@)),
    {
        proof {
            reveal_strlit("es");
        }
        let text = if str_eq(locale, "es") { ES_YAML } else { EN_YAML };
        match parse_yaml_map(text) {
            Some(v) => v,
            None => {
                let v: Vec<(String, String)> = Vec::new();
                assert(kv(v@) =~= Seq::<(Seq<char>, Seq<char>)>::empty());
                assert(pairs_map(kv(v@)) =~= Map::<Seq<char>, Seq<char>>::empty());
                v
            },
        }
    }

    /// Store a translation, replacing the one of its key.
    fn insert(&mut self, key: String, value: String)
        requires
            old(self).wf(),
        ensures
            final(self).wf(),
            final(self).map() == old(self).map().insert(key@, value@),
    {
        let ghost before = kv(self.entries@);
        let ghost p = (key@, value@);
        let mut i: usize = 0;
        while i < self.entries.len()
            invariant
                i <= self.entries@.len(),
                kv(self.entries@) == before,
                keys_unique(before),
                p == (key@, value@),
                old(self).map() == pairs_map(before),
                forall|j: int| 0 <= j < i ==> before[j].0 != key@,
            decreases self.entries@.len() - i,
        {
            if str_eq(self.entries[i].0.as_str(), key.as_str()) {
                proof {
                    assert(before[i as int] == (self.entries@[i as int].0@, self.entries@[i as int].1@));
                    lemma_pairs_map_update(before, i as int, p);
                }
                self.entries.set(i, (key, value));
                assert(kv(self.entries@) =~= before.update(i as int, p));
                return;
            }
            i += 1;
        }
        self.entries.push((key, value));
        assert(kv(self.entries@) =~= before.push(p));
        assert(kv(self.entries@).drop_last() =~= before);
        assert forall|a: int, b: int| 0 <= a < b < kv(self.entries@).len() implies kv(self.entries@)[a].0
            != kv(self.entries@)[b].0 by {
            if b == before.len() {
                assert(kv(self.entries@)[a] == before[a]);
            } else {
                assert(kv(self.entries@)[a] == before[a] && kv(self.entries@)[b] == before[b]);
            }
        }
    }

    /// The translations of a locale: English, with the locale's own over it.
    pub fn load(locale: &str) -> (t: Self)
        ensures
            t.wf(),
            t.map() == locale_map(locale@),
    {
        let entries = Self::load_raw("en");
        proof {
            reveal_strlit("en");
            reveal_strlit("es");
            assert("en"@ =~= seq!['e', 'n']);
            assert("es"@ =~= seq!['e', 's']);
            assert("en"@[1] != "es"@[1]);
            assert(source_of("en"@) == EN_YAML@);
        }
        let mut t = TranslationSet { entries };
        if str_eq(locale, "en") {
            return t;
        }
        let over = Self::load_raw(locale);
        let ghost om = kv(over@);
        let ghost base = t.map();
        let mut i: usize = 0;
        while i < over.len()
            invariant
                i <= over@.len(),
                om == kv(over@),
                keys_unique(om),
                t.wf(),
                t.map() == base.union_prefer_right(pairs_map(om.subrange(0, i as int))),
            decreases over@.len() - i,
        {
            let (k, v) = &over[i];
            let ghost prev = pairs_map(om.subrange(0, i as int));
            t.insert(k.clone(), v.clone());
            assert(om.subrange(0, i + 1).drop_last() =~= om.subrange(0, i as int));
            assert(om.subrange(0, i + 1).last() == om[i as int]);
            assert(om[i as int] == (k@, v@));
            assert(base.union_prefer_right(prev).insert(k@, v@) =~= base.union_prefer_right(
                pairs_map(om.subrange(0, i + 1)),
            ));
            i += 1;
        }
        assert(om.subrange(0, om.len() as int) =~= om);
        t
    }

    /// The translation of a key, or the key itself.
    pub fn get(&self, key: &str) -> (r: String)
        requires
            self.wf(),
        ensures
            r@ == lookup_or_key(self.map(), key@),
    {
        let ghost s = kv(self.entries@);
        let mut i: usize = 0;
        while i < self.entries.len()
            invariant
                i <= self.entries@.len(),
                s == kv(self.entries@),
                keys_unique(s),
                forall|j: int| 0 <= j < i ==> s[j].0 != key@,
            decreases self.entries@.len() - i,
        {
            if str_eq(self.entries[i].0.as_str(), key) {
                proof {
                    lemma_pairs_map_value(s, i as int);
                }
                return self.entries[i].1.clone();
            }
            i += 1;
        }
        proof {
            lemma_pairs_map_keys(s, key@);
        }
        to_owned(key)
    }
}

/// A translation of a locale other than English is the locale's own when it
/// has one, else the English one, else the key itself.
pub proof fn law_fallback(locale: Seq<char>, key: Seq<char>)
    requires
        locale != "en"@,
    ensures
        lookup_or_key(locale_map(locale), key) == (if raw_map(source_of(locale)).contains_key(key) {
            raw_map(source_of(locale))[key]
        } else if raw_map(EN_YAML@).contains_key(key) {
            raw_map(EN_YAML@)[key]
        } else {
            key
        }),
{
}

} // verus!
