//! Printers, as the library presents them: a name, an instance, whether it is the default,
//! and the options that the destination reports.
use vstd::prelude::*;

use crate::consts;
use crate::dest::{CupsDestination, CupsDestinations};

verus! {

/// The name of the option that holds a human-friendly name of a printer.
pub const PRINTER_INFO: &'static str = "printer-info";

/// The names and values of a sequence of option pairs.
pub open spec fn pairs_view(s: Seq<(String, String)>) -> Seq<(Seq<char>, Seq<char>)> {
    s.map_values(|p: (String, String)| (p.0@, p.1@))
}

/// The map that collecting option pairs into a map yields: each pair is inserted in turn, so
/// of several pairs with one name the last one's value stays.
pub open spec fn collected(s: Seq<(Seq<char>, Seq<char>)>) -> Map<Seq<char>, Seq<char>>
    decreases s.len(),
{
    if s.len() == 0 {
        Map::empty()
    } else {
        collected(s.drop_last()).insert(s.last().0, s.last().1)
    }
}

/// A name that no pair at or after position `from` holds is looked up no further than `from`.
proof fn lemma_collected_last(s: Seq<(Seq<char>, Seq<char>)>, key: Seq<char>, from: int)
    requires
        0 <= from <= s.len(),
        forall|j: int| from <= j < s.len() ==> (#[trigger] s[j]).0 != key,
    ensures
        collected(s).contains_key(key) == collected(s.take(from)).contains_key(key),
        collected(s).contains_key(key) ==> collected(s)[key] == collected(s.take(from))[key],
    decreases s.len() - from,
{
    if from < s.len() {
        assert(s.drop_last() =~= s.drop_last().take(s.len() - 1));
        lemma_collected_last(s.drop_last(), key, from);
        assert(s.drop_last().take(from) =~= s.take(from));
    } else {
        assert(s.take(from) =~= s);
    }
}

/// Whether no two pairs hold the same name.
pub open spec fn names_distinct(s: Seq<(Seq<char>, Seq<char>)>) -> bool {
    forall|i: int, j: int| 0 <= i < j < s.len() ==> (#[trigger] s[i]).0 != (#[trigger] s[j]).0
}

/// A name is in the collected map exactly when some pair holds it.
proof fn lemma_collected_contains(s: Seq<(Seq<char>, Seq<char>)>, key: Seq<char>)
    ensures
        collected(s).contains_key(key) <==> exists|j: int| 0 <= j < s.len() && (#[trigger] s[j]).0 == key,
    decreases s.len(),
{
    if s.len() > 0 {
        let t = s.drop_last();
        let n = s.len() - 1;
        lemma_collected_contains(t, key);
        if key == s[n].0 {
            assert(s[n].0 == key);
        } else {
            if collected(t).contains_key(key) {
                let j = choose|j: int| 0 <= j < t.len() && (#[trigger] t[j]).0 == key;
                assert(s[j] == t[j]);
            }
            if exists|j: int| 0 <= j < s.len() && (#[trigger] s[j]).0 == key {
                let j = choose|j: int| 0 <= j < s.len() && (#[trigger] s[j]).0 == key;
                assert(t[j] == s[j]);
            }
        }
    }
}

/// Whether no pair after position `j` holds the name of the pair at `j`.
pub open spec fn is_last_of_name(s: Seq<(Seq<char>, Seq<char>)>, j: int) -> bool {
    forall|l: int| j < l < s.len() ==> (#[trigger] s[l]).0 != s[j].0
}

/// The last pair that holds a name gives the name its value in the collected map.
proof fn lemma_collected_value_at_last(s: Seq<(Seq<char>, Seq<char>)>, j: int)
    requires
        0 <= j < s.len(),
        is_last_of_name(s, j),
    ensures
        collected(s).contains_key(s[j].0),
        collected(s)[s[j].0] == s[j].1,
{
    lemma_collected_last(s, s[j].0, j + 1);
    assert(s.take(j + 1).drop_last() =~= s.take(j));
    assert(s.take(j + 1).last() == s[j]);
}

/// Where the names are distinct, collecting the pairs maps each name to the value beside it.
proof fn lemma_collected_distinct(s: Seq<(Seq<char>, Seq<char>)>, j: int)
    requires
        names_distinct(s),
        0 <= j < s.len(),
    ensures
        collected(s).contains_key(s[j].0),
        collected(s)[s[j].0] == s[j].1,
{
    lemma_collected_value_at_last(s, j);
}

/// Whether `r` holds, once each and with its last value, every name that the pairs of `s`
/// from position `i` on hold.
pub open spec fn unique_suffix(
    s: Seq<(Seq<char>, Seq<char>)>,
    i: int,
    r: Seq<(Seq<char>, Seq<char>)>,
) -> bool {
    &&& names_distinct(r)
    &&& forall|m: int|
        0 <= m < r.len() ==> exists|j: int|
            i <= j < s.len() && is_last_of_name(s, j) && s[j] == #[trigger] r[m]
    &&& forall|j: int|
        i <= j < s.len() ==> exists|m: int| 0 <= m < r.len() && (#[trigger] r[m]).0 == (#[trigger] s[j]).0
}

/// A pair whose name is not yet held is the last of its name, and adding it extends the suffix.
proof fn lemma_unique_suffix_new(
    s: Seq<(Seq<char>, Seq<char>)>,
    i: int,
    before: Seq<(Seq<char>, Seq<char>)>,
)
    requires
        0 < i <= s.len(),
        unique_suffix(s, i, before),
        !exists|m: int| 0 <= m < before.len() && (#[trigger] before[m]).0 == s[i - 1].0,
    ensures
        unique_suffix(s, i - 1, before.push(s[i - 1])),
{
    let after = before.push(s[i - 1]);
    assert forall|a: int, b: int| 0 <= a < b < after.len() implies (#[trigger] after[a]).0 != (
    #[trigger] after[b]).0 by {
        if b == after.len() - 1 {
            assert(after[a] == before[a]);
        } else {
            assert(after[a] == before[a] && after[b] == before[b]);
        }
    }
    assert forall|l: int| i - 1 < l < s.len() implies (#[trigger] s[l]).0 != s[i - 1].0 by {
        if s[l].0 == s[i - 1].0 {
            let m = choose|m: int| 0 <= m < before.len() && (#[trigger] before[m]).0 == (#[trigger] s[l]).0;
            assert(before[m].0 == s[i - 1].0);
        }
    }
    assert(is_last_of_name(s, i - 1));
    assert forall|m: int| 0 <= m < after.len() implies exists|j: int|
        i - 1 <= j < s.len() && is_last_of_name(s, j) && s[j] == #[trigger] after[m] by {
        if m == after.len() - 1 {
            assert(s[i - 1] == after[m]);
        } else {
            assert(after[m] == before[m]);
            let j = choose|j: int| i <= j < s.len() && is_last_of_name(s, j) && s[j] == #[trigger] before[m];
            assert(s[j] == after[m]);
        }
    }
    assert forall|j: int| i - 1 <= j < s.len() implies exists|m: int|
        0 <= m < after.len() && (#[trigger] after[m]).0 == (#[trigger] s[j]).0 by {
        if j == i - 1 {
            assert(after[after.len() - 1].0 == s[j].0);
        } else {
            let m = choose|m: int| 0 <= m < before.len() && (#[trigger] before[m]).0 == (#[trigger] s[j]).0;
            assert(after[m] == before[m]);
        }
    }
}

/// A pair whose name is already held extends the suffix as it is.
proof fn lemma_unique_suffix_seen(
    s: Seq<(Seq<char>, Seq<char>)>,
    i: int,
    r: Seq<(Seq<char>, Seq<char>)>,
)
    requires
        0 < i <= s.len(),
        unique_suffix(s, i, r),
        exists|m: int| 0 <= m < r.len() && (#[trigger] r[m]).0 == s[i - 1].0,
    ensures
        unique_suffix(s, i - 1, r),
{
    let m = choose|m: int| 0 <= m < r.len() && (#[trigger] r[m]).0 == s[i - 1].0;
    assert forall|j: int| i - 1 <= j < s.len() implies exists|m2: int|
        0 <= m2 < r.len() && (#[trigger] r[m2]).0 == (#[trigger] s[j]).0 by {
        if j == i - 1 {
            assert(r[m].0 == s[j].0);
        }
    }
}

/// Pairs that hold every name of `s` once, with its last value, collect to the same map.
proof fn lemma_unique_suffix_done(s: Seq<(Seq<char>, Seq<char>)>, r: Seq<(Seq<char>, Seq<char>)>)
    requires
        unique_suffix(s, 0, r),
    ensures
        collected(r) == collected(s),
{
    assert forall|key: Seq<char>| #[trigger] collected(r).contains_key(key) == collected(s).contains_key(key)
        && (collected(r).contains_key(key) ==> collected(r)[key] == collected(s)[key]) by {
        lemma_collected_contains(r, key);
        lemma_collected_contains(s, key);
        if collected(s).contains_key(key) {
            let j = choose|j: int| 0 <= j < s.len() && (#[trigger] s[j]).0 == key;
            let m = choose|m: int| 0 <= m < r.len() && (#[trigger] r[m]).0 == (#[trigger] s[j]).0;
            let jm = choose|jm: int| 0 <= jm < s.len() && is_last_of_name(s, jm) && s[jm] == #[trigger] r[m];
            lemma_collected_distinct(r, m);
            lemma_collected_value_at_last(s, jm);
        }
        if collected(r).contains_key(key) {
            let m = choose|m: int| 0 <= m < r.len() && (#[trigger] r[m]).0 == key;
            let jm = choose|jm: int| 0 <= jm < s.len() && is_last_of_name(s, jm) && s[jm] == #[trigger] r[m];
            assert(s[jm].0 == key);
        }
    }
    assert(collected(r) =~= collected(s));
}

/// The options of a printer, by name; of several values reported for one name the last one
/// counts.
#[derive(Debug)]
pub struct OptionMap {
    entries: Vec<(String, String)>,
}

impl View for OptionMap {
    type V = Map<Seq<char>, Seq<char>>;

    closed spec fn view(&self) -> Map<Seq<char>, Seq<char>> {
        collected(pairs_view(self.entries@))
    }
}

impl OptionMap {
    /// Creates an empty map.
    pub fn new() -> (r: Self)
        ensures
            r@ == Map::<Seq<char>, Seq<char>>::empty(),
    {
        let r = OptionMap { entries: Vec::new() };
        assert(pairs_view(r.entries@) =~= Seq::empty());
        r
    }

    /// Collects option pairs into a map, inserting each pair in turn.
    pub fn from_pairs(pairs: Vec<(String, String)>) -> (r: Self)
        ensures
            r@ == collected(pairs_view(pairs@)),
    {
        OptionMap { entries: pairs }
    }

    /// Sets the value of the option `name`.
    pub fn insert(&mut self, name: String, value: String)
        ensures
            final(self)@ == old(self)@.insert(name@, value@),
    {
        let ghost before = self.entries@;
        self.entries.push((name, value));
        assert(pairs_view(self.entries@).drop_last() =~= pairs_view(before));
    }

    /// Returns every option once, by name and value; names that were set several times keep
    /// their last value.
    pub fn pairs(&self) -> (r: Vec<(String, String)>)
        ensures
            names_distinct(pairs_view(r@)),
            collected(pairs_view(r@)) == self@,
    {
        let ghost s = pairs_view(self.entries@);
        let mut r: Vec<(String, String)> = Vec::new();
        let mut i = self.entries.len();
        assert(pairs_view(r@) =~= Seq::empty());
        while i > 0
            invariant
                i <= self.entries@.len(),
                s == pairs_view(self.entries@),
                unique_suffix(s, i as int, pairs_view(r@)),
            decreases i,
        {
            let entry = &self.entries[i - 1];
            assert(s[i - 1] == (entry.0@, entry.1@));
            let mut seen = false;
            let mut k: usize = 0;
            while k < r.len()
                invariant
                    k <= r@.len(),
                    seen <==> exists|m: int| 0 <= m < k && (#[trigger] pairs_view(r@)[m]).0 == entry.0@,
                decreases r@.len() - k,
            {
                assert(pairs_view(r@)[k as int].0 == r@[k as int].0@);
                if r[k].0 == entry.0 {
                    seen = true;
                }
                k = k + 1;
            }
            let ghost before = pairs_view(r@);
            if !seen {
                r.push((entry.0.clone(), entry.1.clone()));
                proof {
                    assert(pairs_view(r@) =~= before.push(s[i - 1]));
                    lemma_unique_suffix_new(s, i as int, before);
                }
            } else {
                proof {
                    lemma_unique_suffix_seen(s, i as int, before);
                }
            }
            i = i - 1;
        }
        proof {
            lemma_unique_suffix_done(s, pairs_view(r@));
        }
        r
    }

    /// Returns the value of the option `name`, or `None` if there is no such option.
    pub fn get(&self, name: &str) -> (r: Option<&String>)
        ensures
            r is Some <==> self@.contains_key(name@),
            r matches Some(v) ==> v@ == self@[name@],
    {
        let key: String = name.to_owned();
        let ghost s = pairs_view(self.entries@);
        let mut i = self.entries.len();
        while i > 0
            invariant
                i <= self.entries@.len(),
                s == pairs_view(self.entries@),
                key@ == name@,
                forall|j: int| i <= j < s.len() ==> (#[trigger] s[j]).0 != key@,
            decreases i,
        {
            let entry = &self.entries[i - 1];
            if entry.0 == key {
                proof {
                    assert(s[i - 1].0 == key@);
                    lemma_collected_last(s, key@, i as int);
                    assert(s.take(i as int).drop_last() =~= s.take(i - 1));
                }
                return Some(&entry.1);
            }
            i = i - 1;
        }
        proof {
            lemma_collected_last(s, key@, 0);
            assert(s.take(0) =~= Seq::<(Seq<char>, Seq<char>)>::empty());
        }
        None
    }
}

/// A printer.
#[derive(Debug)]
pub struct Printer {
    pub name: String,
    pub instance: Option<String>,
    pub is_default: bool,
    pub options: OptionMap,
}

impl Printer {
    /// Returns the value of the option with the specified name.
    pub fn get_option(&self, name: &str) -> (r: Option<&String>)
        ensures
            r is Some <==> self.options@.contains_key(name@),
            r matches Some(v) ==> v@ == self.options@[name@],
    {
        self.options.get(name)
    }

    /// Returns a human-friendly name of this printer: the value of its `printer-info` option,
    /// or its name (identifier) when it has no such option.
    pub fn get_human_name(&self) -> (r: &String)
        ensures
            r@ == (if self.options@.contains_key(PRINTER_INFO@) {
                self.options@[PRINTER_INFO@]
            } else {
                self.name@
            }),
    {
        match self.get_option(PRINTER_INFO) {
            Some(info) => info,
            None => &self.name,
        }
    }
}

/// The specification model of an optional text.
pub open spec fn opt_text(o: Option<String>) -> Option<Seq<char>> {
    match o {
        Some(s) => Some(s@),
        None => None,
    }
}

/// Whether `p` is the printer that the destination `d` describes: its name, its instance, its
/// options collected into a map, and whether CUPS marks it as the default.
pub open spec fn describes(p: Printer, d: CupsDestination) -> bool {
    &&& p.name@ == d.name@
    &&& opt_text(p.instance) == opt_text(d.instance)
    &&& p.is_default == (d.is_default == 1i32)
    &&& p.options@ == collected(pairs_view(d.options@))
}

/// Copies a text.
fn copy_text(s: &String) -> (r: String)
    ensures
        r@ == s@,
{
    s.clone()
}

/// Maps a destination to the printer that it describes.
fn map_dest_to_printer(dest: &CupsDestination) -> (r: Printer)
    ensures
        describes(r, *dest),
{
    let n = dest.options.len();
    let mut pairs: Vec<(String, String)> = Vec::new();
    for i in 0..n
        invariant
            n == dest.options@.len(),
            pairs_view(pairs@) == pairs_view(dest.options@.take(i as int)),
    {
        let pair = &dest.options[i];
        let ghost before = pairs@;
        let name = copy_text(&pair.0);
        let value = copy_text(&pair.1);
        pairs.push((name, value));
        proof {
            assert(pairs@ == before.push((name, value)));
            assert(dest.options@.take(i + 1) =~= dest.options@.take(i as int).push(dest.options@[i as int]));
            assert(pairs_view(pairs@) =~= pairs_view(before).push((name@, value@)));
            assert(pairs_view(dest.options@.take(i + 1)) =~= pairs_view(dest.options@.take(i as int)).push((dest.options@[i as int].0@, dest.options@[i as int].1@)));
        }
    }
    assert(dest.options@.take(n as int) =~= dest.options@);
    let instance = match &dest.instance {
        Some(s) => Some(copy_text(s)),
        None => None,
    };
    Printer {
        name: copy_text(&dest.name),
        instance,
        is_default: dest.is_default == consts::bool(true),
        options: OptionMap::from_pairs(pairs),
    }
}

/// Returns the printers that the destinations describe, one for each, in the same order.
pub fn get_printers(destinations: &CupsDestinations) -> (r: Vec<Printer>)
    ensures
        r@.len() == destinations@.len(),
        forall|i: int| 0 <= i < r@.len() ==> describes(#[trigger] r@[i], destinations@[i]),
{
    let n = destinations.len();
    let mut printers: Vec<Printer> = Vec::new();
    for i in 0..n
        invariant
            n == destinations@.len(),
            printers@.len() == i,
            forall|j: int| 0 <= j < i ==> describes(#[trigger] printers@[j], destinations@[j]),
    {
        let dest = destinations.get(i).unwrap();
        printers.push(map_dest_to_printer(dest));
    }
    printers
}

} // verus!
