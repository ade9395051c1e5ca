//! The configuration that the server is started with, and what is read from
//! it: the bind list, the alias table and the fallback ports.

use crate::seqs::{first_position, lemma_first_position_bounds, lemma_first_position_is};
use crate::text::{from_chars, to_chars};
use vstd::prelude::*;

verus! {

/// The alias table: a mapping from short asset names to paths. No name is
/// held twice.
pub struct AliasTable {
    entries: Vec<(String, String)>,
}

/// No two entries have the same name.
spec fn distinct_names(entries: Seq<(String, String)>) -> bool {
    forall|i: int, j: int|
        0 <= i < entries.len() && 0 <= j < entries.len() && i != j ==> (#[trigger] entries[i]).0@
            != (#[trigger] entries[j]).0@
}

/// The position of `name` among the entries, if it is there.
spec fn position_of(entries: Seq<(String, String)>, name: Seq<char>) -> int {
    choose|i: int| 0 <= i < entries.len() && (#[trigger] entries[i]).0@ == name
}

/// `name` is among the entries.
spec fn has_name(entries: Seq<(String, String)>, name: Seq<char>) -> bool {
    exists|i: int| 0 <= i < entries.len() && (#[trigger] entries[i]).0@ == name
}

impl View for AliasTable {
    type V = Map<Seq<char>, Seq<char>>;

    closed spec fn view(&self) -> Map<Seq<char>, Seq<char>> {
        Map::new(
            |name: Seq<char>| has_name(self.entries@, name),
            |name: Seq<char>| self.entries@[position_of(self.entries@, name)].1@,
        )
    }
}

impl AliasTable {
    #[verifier::type_invariant]
    closed spec fn well_formed(&self) -> bool {
        distinct_names(self.entries@)
    }

    /// The table without any alias.
    pub fn new() -> (table: AliasTable)
        ensures
            table@ == Map::<Seq<char>, Seq<char>>::empty(),
    {
        let table = AliasTable { entries: Vec::new() };
        assert(table@ =~= Map::<Seq<char>, Seq<char>>::empty());
        table
    }

    /// The number of aliases.
    pub fn len(&self) -> (n: usize)
        ensures
            n == self@.len(),
            self@.dom().finite(),
    {
        proof {
            use_type_invariant(self);
            lemma_names_counted(self.entries@);
            assert(self@.dom() =~= names_of(self.entries@));
        }
        self.entries.len()
    }

    /// Maps `name` to `target`. An alias that `name` had before is replaced.
    pub fn insert(&mut self, name: String, target: String)
        ensures
            final(self)@ == old(self)@.insert(name@, target@),
    {
        proof {
            use_type_invariant(&*self);
        }
        let mut taken = AliasTable { entries: Vec::new() };
        core::mem::swap(self, &mut taken);
        let mut entries = taken.entries;
        let ghost before = entries@;
        let mut i: usize = 0;
        while i < entries.len()
            invariant
                i <= entries.len(),
                entries@ == before,
                before == old(self).entries@,
                distinct_names(before),
                forall|k: int| 0 <= k < i ==> (#[trigger] before[k]).0@ != name@,
            decreases entries.len() - i,
        {
            if entries[i].0 == name {
                entries.set(i, (name, target));
                proof {
                    let after = entries@;
                    assert forall|j: int| 0 <= j < after.len() implies (#[trigger] after[j]).0@
                        == before[j].0@ by {}
                    assert(distinct_names(after));
                    assert forall|n: Seq<char>| has_name(after, n) == has_name(before, n) by {
                        if has_name(after, n) {
                            let k = position_of(after, n);
                            assert(before[k].0@ == n);
                        }
                        if has_name(before, n) {
                            let k = position_of(before, n);
                            assert(after[k].0@ == n);
                        }
                    }
                    assert(has_name(before, name@)) by {
                        assert(before[i as int].0@ == name@);
                    }
                    assert forall|n: Seq<char>| has_name(after, n) implies after[position_of(
                        after,
                        n,
                    )].1@ == (if n == name@ {
                        target@
                    } else {
                        before[position_of(before, n)].1@
                    }) by {
                        let k = position_of(after, n);
                        let b = position_of(before, n);
                        assert(before[b].0@ == n);
                        assert(after[b].0@ == n);
                        assert(k == b);
                    }
                }
                *self = AliasTable { entries };
                assert(self@ =~= old(self)@.insert(name@, target@));
                return ;
            }
            i += 1;
        }
        entries.push((name, target));
        proof {
            let after = entries@;
            let last = before.len() as int;
            assert(after[last].0@ == name@);
            assert(!has_name(before, name@));
            assert forall|j: int| 0 <= j < last implies (#[trigger] after[j]) == before[j] by {}
            assert(distinct_names(after));
            assert forall|n: Seq<char>| has_name(after, n) == (n == name@ || has_name(before, n)) by {
                if has_name(after, n) {
                    let k = position_of(after, n);
                    if k < last {
                        assert(before[k].0@ == n);
                    }
                }
                if has_name(before, n) {
                    let k = position_of(before, n);
                    assert(after[k].0@ == n);
                }
            }
            assert forall|n: Seq<char>| has_name(after, n) implies after[position_of(after, n)].1@
                == (if n == name@ {
                target@
            } else {
                before[position_of(before, n)].1@
            }) by {
                let k = position_of(after, n);
                if n != name@ {
                    let b = position_of(before, n);
                    assert(before[b].0@ == n);
                    assert(after[b].0@ == n);
                    assert(k == b);
                } else {
                    assert(k == last);
                }
            }
        }
        *self = AliasTable { entries };
        assert(self@ =~= old(self)@.insert(name@, target@));
    }

    /// The table that holds the given pairs. Where a name occurs more than
    /// once, its last pair stands.
    pub fn from_pairs(pairs: Vec<(String, String)>) -> (table: AliasTable)
        ensures
            table@ == table_of(pairs.deep_view()),
    {
        let mut table = AliasTable::new();
        let mut i: usize = 0;
        assert(pairs.deep_view().take(0) == Seq::<(Seq<char>, Seq<char>)>::empty());
        while i < pairs.len()
            invariant
                i <= pairs.len(),
                table@ == table_of(pairs.deep_view().take(i as int)),
            decreases pairs.len() - i,
        {
            let name = pairs[i].0.clone();
            let target = pairs[i].1.clone();
            proof {
                let all = pairs.deep_view();
                assert(all.take(i + 1).drop_last() == all.take(i as int));
                assert(all.take(i + 1).last() == (name@, target@));
            }
            table.insert(name, target);
            i += 1;
        }
        assert(pairs.deep_view().take(pairs.len() as int) == pairs.deep_view());
        table
    }

    /// The aliases as a list of pairs, from which `from_pairs` makes this
    /// table again.
    pub fn pairs(&self) -> (pairs: Vec<(String, String)>)
        ensures
            table_of(pairs.deep_view()) == self@,
    {
        proof {
            use_type_invariant(self);
        }
        let mut pairs: Vec<(String, String)> = Vec::new();
        let mut i: usize = 0;
        while i < self.entries.len()
            invariant
                i <= self.entries.len(),
                pairs.len() == i,
                distinct_names(self.entries@),
                forall|k: int|
                    0 <= k < i ==> (#[trigger] pairs@[k]).0@ == self.entries@[k].0@ && pairs@[k].1@
                        == self.entries@[k].1@,
            decreases self.entries.len() - i,
        {
            pairs.push((self.entries[i].0.clone(), self.entries[i].1.clone()));
            i += 1;
        }
        proof {
            assert(distinct_names(pairs@)) by {
                assert forall|a: int, b: int|
                    0 <= a < pairs@.len() && 0 <= b < pairs@.len() && a != b implies (
                #[trigger] pairs@[a]).0@ != (#[trigger] pairs@[b]).0@ by {
                    assert(self.entries@[a].0@ != self.entries@[b].0@);
                }
            }
            assert(pairs.deep_view() =~= pairs_view(pairs@));
            lemma_table_of_distinct(pairs@);
            assert(table_of(pairs.deep_view()) =~= self@) by {
                assert forall|n: Seq<char>| has_name(pairs@, n) == has_name(self.entries@, n) by {
                    if has_name(pairs@, n) {
                        let k = position_of(pairs@, n);
                        assert(self.entries@[k].0@ == n);
                    }
                    if has_name(self.entries@, n) {
                        let k = position_of(self.entries@, n);
                        assert(pairs@[k].0@ == n);
                    }
                }
                assert forall|n: Seq<char>| has_name(pairs@, n) implies pairs@[position_of(
                    pairs@,
                    n,
                )].1@ == self.entries@[position_of(self.entries@, n)].1@ by {
                    let k = position_of(pairs@, n);
                    let e = position_of(self.entries@, n);
                    assert(self.entries@[k].0@ == n);
                    assert(self.entries@[e].0@ == n);
                    assert(k == e);
                }
            }
        }
        pairs
    }

    /// The path that `name` stands for, if it is an alias.
    pub fn get(&self, name: &String) -> (target: Option<&String>)
        ensures
            target is Some == self@.contains_key(name@),
            target matches Some(path) ==> path@ == self@[name@],
    {
        proof {
            use_type_invariant(self);
        }
        let mut i: usize = 0;
        while i < self.entries.len()
            invariant
                i <= self.entries.len(),
                distinct_names(self.entries@),
                forall|k: int| 0 <= k < i ==> (#[trigger] self.entries@[k]).0@ != name@,
            decreases self.entries.len() - i,
        {
            if self.entries[i].0 == *name {
                proof {
                    assert(self.entries@[i as int].0@ == name@);
                    assert(has_name(self.entries@, name@));
                    assert(position_of(self.entries@, name@) == i);
                }
                return Some(&self.entries[i].1);
            }
            i += 1;
        }
        None
    }
}

/// The mapping that a list of pairs gives when they are entered one after
/// the other.
pub open spec fn table_of(pairs: Seq<(Seq<char>, Seq<char>)>) -> Map<Seq<char>, Seq<char>>
    decreases pairs.len(),
{
    if pairs.len() == 0 {
        Map::empty()
    } else {
        table_of(pairs.drop_last()).insert(pairs.last().0, pairs.last().1)
    }
}

/// The view of a list of pairs.
spec fn pairs_view(entries: Seq<(String, String)>) -> Seq<(Seq<char>, Seq<char>)> {
    Seq::new(entries.len(), |i: int| (entries[i].0@, entries[i].1@))
}

/// Pairs with distinct names give the mapping that holds each of them.
proof fn lemma_table_of_distinct(entries: Seq<(String, String)>)
    requires
        distinct_names(entries),
    ensures
        table_of(pairs_view(entries)) == Map::new(
            |name: Seq<char>| has_name(entries, name),
            |name: Seq<char>| entries[position_of(entries, name)].1@,
        ),
    decreases entries.len(),
{
    let whole = Map::new(
        |name: Seq<char>| has_name(entries, name),
        |name: Seq<char>| entries[position_of(entries, name)].1@,
    );
    if entries.len() == 0 {
        assert(table_of(pairs_view(entries)) =~= whole);
    } else {
        let front = entries.drop_last();
        let last = entries.last();
        assert(pairs_view(entries).drop_last() == pairs_view(front));
        assert(pairs_view(entries).last() == (last.0@, last.1@));
        assert(distinct_names(front)) by {
            assert forall|i: int, j: int|
                0 <= i < front.len() && 0 <= j < front.len() && i != j implies (
            #[trigger] front[i]).0@ != (#[trigger] front[j]).0@ by {
                assert(front[i] == entries[i]);
                assert(front[j] == entries[j]);
            }
        }
        lemma_table_of_distinct(front);
        assert forall|n: Seq<char>| has_name(entries, n) == (n == last.0@ || has_name(front, n)) by {
            if has_name(entries, n) {
                let k = position_of(entries, n);
                if k < front.len() {
                    assert(front[k].0@ == n);
                }
            }
            if has_name(front, n) {
                let k = position_of(front, n);
                assert(entries[k].0@ == n);
            }
            if n == last.0@ {
                assert(entries[entries.len() - 1].0@ == n);
            }
        }
        assert forall|n: Seq<char>| has_name(entries, n) implies entries[position_of(entries, n)].1@
            == (if n == last.0@ {
            last.1@
        } else {
            front[position_of(front, n)].1@
        }) by {
            let k = position_of(entries, n);
            if n == last.0@ {
                assert(entries[entries.len() - 1].0@ == n);
                assert(k == entries.len() - 1);
            } else {
                let f = position_of(front, n);
                assert(front[f].0@ == n);
                assert(entries[f].0@ == n);
                assert(k == f);
            }
        }
        assert(table_of(pairs_view(entries)) =~= whole);
    }
}

/// The names that the entries hold.
spec fn names_of(entries: Seq<(String, String)>) -> Set<Seq<char>> {
    Set::new(|name: Seq<char>| has_name(entries, name))
}

/// Entries with distinct names hold as many names as there are entries.
proof fn lemma_names_counted(entries: Seq<(String, String)>)
    requires
        distinct_names(entries),
    ensures
        names_of(entries).finite(),
        names_of(entries).len() == entries.len(),
    decreases entries.len(),
{
    if entries.len() == 0 {
        assert(names_of(entries) =~= Set::<Seq<char>>::empty());
    } else {
        let front = entries.drop_last();
        let last = entries.last();
        assert forall|i: int, j: int|
            0 <= i < front.len() && 0 <= j < front.len() && i != j implies (#[trigger] front[i]).0@
            != (#[trigger] front[j]).0@ by {
            assert(front[i] == entries[i]);
            assert(front[j] == entries[j]);
        }
        lemma_names_counted(front);
        assert(!names_of(front).contains(last.0@)) by {
            if has_name(front, last.0@) {
                let k = position_of(front, last.0@);
                assert(entries[k].0@ == entries[entries.len() - 1].0@);
            }
        }
        assert(names_of(entries) =~= names_of(front).insert(last.0@)) by {
            assert forall|n: Seq<char>| has_name(entries, n) == (n == last.0@ || has_name(front, n)) by {
                if has_name(entries, n) {
                    let k = position_of(entries, n);
                    if k < front.len() {
                        assert(front[k].0@ == n);
                    }
                }
                if has_name(front, n) {
                    let k = position_of(front, n);
                    assert(entries[k].0@ == n);
                }
                if n == last.0@ {
                    assert(entries[entries.len() - 1].0@ == n);
                }
            }
        }
    }
}

/// What the configuration file sets.
pub struct Config {
    /// The bind list: interface names, addresses or the word `external`,
    /// separated by `|`.
    pub bind: String,
    /// The alias table.
    pub alias: AliasTable,
    /// The ports that are tried, in this order, after a requested one.
    pub fallback_ports: Vec<u16>,
}

impl Config {
    /// The configuration that is used where no file could be read: nothing
    /// is set.
    pub fn empty() -> (config: Config)
        ensures
            config.bind@ == Seq::<char>::empty(),
            config.alias@ == Map::<Seq<char>, Seq<char>>::empty(),
            config.fallback_ports@ == Seq::<u16>::empty(),
    {
        Config { bind: String::new(), alias: AliasTable::new(), fallback_ports: Vec::new() }
    }
}

/// What became of the configuration file.
pub enum LoadedConfig {
    /// It was read, and this is what it sets.
    Parsed(Config),
    /// It could not be opened.
    Missing,
    /// It could not be understood.
    Malformed,
}

/// The warning that a configuration file gives rise to, if any.
pub open spec fn load_warning(loaded: LoadedConfig) -> Option<Seq<char>> {
    match loaded {
        LoadedConfig::Parsed(_) => None,
        LoadedConfig::Missing => Some("Could not open config file"@),
        LoadedConfig::Malformed => Some("Could not parse config file"@),
    }
}

/// The configuration to go on with, and the warning to print. A file that is
/// missing or malformed is no failure: nothing is set then.
pub fn config_or_default(loaded: LoadedConfig) -> (outcome: (Config, Option<&'static str>))
    ensures
        loaded matches LoadedConfig::Parsed(config) ==> outcome.0 == config,
        !(loaded is Parsed) ==> {
            &&& outcome.0.bind@ == Seq::<char>::empty()
            &&& outcome.0.alias@ == Map::<Seq<char>, Seq<char>>::empty()
            &&& outcome.0.fallback_ports@ == Seq::<u16>::empty()
        },
        outcome.1 is Some == load_warning(loaded) is Some,
        outcome.1 matches Some(warning) ==> Some(warning@) == load_warning(loaded),
{
    match loaded {
        LoadedConfig::Parsed(config) => (config, None),
        LoadedConfig::Missing => (Config::empty(), Some("Could not open config file")),
        LoadedConfig::Malformed => (Config::empty(), Some("Could not parse config file")),
    }
}

/// The pieces of `text` between its delimiters, in order. A text without a
/// delimiter is one piece, the empty text too.
pub open spec fn split(text: Seq<char>, delimiter: char) -> Seq<Seq<char>>
    decreases text.len(),
    via split_decreases
{
    let n = first_position(text, delimiter);
    if n >= text.len() {
        seq![text]
    } else {
        seq![text.take(n)] + split(text.skip(n + 1), delimiter)
    }
}

#[via_fn]
proof fn split_decreases(text: Seq<char>, delimiter: char) {
    lemma_first_position_bounds(text, delimiter);
}

/// The entries of a bind string: none where the string is empty, which is
/// the case where no bind address is configured; else its pieces between the
/// `|` separators, in order.
pub open spec fn bind_entries(bind: Seq<char>) -> Seq<Seq<char>> {
    if bind.len() == 0 {
        Seq::empty()
    } else {
        split(bind, '|')
    }
}

/// The fallback ports of the configuration, in their order.
pub fn fallback_ports(config: &Config) -> (ports: Vec<u16>)
    ensures
        ports@ == config.fallback_ports@,
{
    config.fallback_ports.clone()
}

/// The entries of the bind list. An empty bind string holds no entry; any
/// other is split at each `|`.
pub fn bind(config: &Config) -> (entries: Vec<String>)
    ensures
        entries.deep_view() == bind_entries(config.bind@),
{
    let text = to_chars(config.bind.as_str());
    let mut entries: Vec<String> = Vec::new();
    assert(entries.deep_view() == Seq::<Seq<char>>::empty());
    if text.len() == 0 {
        return entries;
    }
    let mut piece: Vec<char> = Vec::new();
    let mut start: usize = 0;
    let mut i: usize = 0;
    assert(text@.skip(0) == text@);
    while i < text.len()
        invariant
            start <= i <= text.len(),
            piece@ == text@.subrange(start as int, i as int),
            forall|k: int| start <= k < i ==> text@[k] != '|',
            split(text@, '|') == entries.deep_view() + split(text@.skip(start as int), '|'),
        decreases text.len() - i,
    {
        if text[i] == '|' {
            let ghost rest = text@.skip(start as int);
            proof {
                assert forall|k: int| 0 <= k < i - start implies rest[k] != '|' by {
                    assert(rest[k] == text@[start + k]);
                }
                lemma_first_position_is(rest, '|', i - start);
                assert(rest.take(i - start) == piece@);
                assert(rest.skip(i - start + 1) == text@.skip(i + 1));
            }
            let ghost before = entries.deep_view();
            entries.push(from_chars(&piece));
            assert(entries.deep_view() == before.push(piece@));
            piece = Vec::new();
            start = i + 1;
        } else {
            piece.push(text[i]);
        }
        i += 1;
    }
    proof {
        let rest = text@.skip(start as int);
        assert forall|k: int| 0 <= k < rest.len() implies rest[k] != '|' by {
            assert(rest[k] == text@[start + k]);
        }
        lemma_first_position_is(rest, '|', rest.len() as int);
        assert(rest == piece@);
    }
    let ghost before = entries.deep_view();
    entries.push(from_chars(&piece));
    assert(entries.deep_view() == before.push(piece@));
    entries
}

/// The path that an asset name stands for: what the alias table maps it to,
/// or the name itself where it is no alias.
pub open spec fn resolved_alias(alias: Map<Seq<char>, Seq<char>>, asset: Seq<char>) -> Seq<char> {
    if alias.contains_key(asset) {
        alias[asset]
    } else {
        asset
    }
}

/// Resolves an asset name through the alias table.
pub fn resolve_aliases<'a>(config: &'a Config, asset: &'a String) -> (path: &'a String)
    ensures
        path@ == resolved_alias(config.alias@, asset@),
{
    match config.alias.get(asset) {
        Some(target) => target,
        None => asset,
    }
}

} // verus!
