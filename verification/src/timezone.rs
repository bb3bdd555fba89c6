//! Time zones by their identifier in the IANA time zone database.

use vstd::prelude::*;

verus! {

/// Whether `name` is an identifier of the time zone database, compared
/// exactly and with case: whether it parses as a `chrono_tz::Tz`.
pub uninterp spec fn known_zone(name: Seq<char>) -> bool;

/// The identifier that stands in for a missing or unknown selection.
pub open spec fn fallback_zone() -> Seq<char> {
    "UTC"@
}

/// The zone that a selection resolves to: the selection itself where the
/// database knows it, the fallback otherwise.
pub open spec fn resolved_zone(input: Option<Seq<char>>) -> Seq<char> {
    match input {
        Some(name) => if known_zone(name) {
            name
        } else {
            fallback_zone()
        },
        None => fallback_zone(),
    }
}

/// Calls `str::parse::<chrono_tz::Tz>` and tells whether it succeeded.
/// Trusted: the answer is what `known_zone` stands for.
#[verifier::external_body]
fn zone_is_known(name: &str) -> (known: bool)
    ensures
        known == known_zone(name@),
{
    name.parse::<chrono_tz::Tz>().is_ok()
}

/// Calls `chrono_tz::Tz::name` on `chrono_tz::UTC`.
/// Trusted: that name is `UTC`, and the database knows it.
#[verifier::external_body]
fn utc_zone_name() -> (name: String)
    ensures
        name@ == fallback_zone(),
        known_zone(name@),
{
    chrono_tz::UTC.name().to_string()
}

/// The identifier of a time zone that the database knows.
#[derive(Debug, PartialEq, Eq)]
pub struct TimezoneId {
    name: String,
}

impl View for TimezoneId {
    type V = Seq<char>;

    closed spec fn view(&self) -> Seq<char> {
        self.name@
    }
}

impl Clone for TimezoneId {
    fn clone(&self) -> (copy: TimezoneId)
        ensures
            copy@ == self@,
    {
        proof {
            use_type_invariant(self);
        }
        TimezoneId { name: self.name.clone() }
    }
}

impl TimezoneId {
    #[verifier::type_invariant]
    spec fn is_known(&self) -> bool {
        known_zone(self.name@)
    }

    /// The fallback zone, `UTC`.
    pub fn utc() -> (tz: TimezoneId)
        ensures
            tz@ == fallback_zone(),
    {
        TimezoneId { name: utc_zone_name() }
    }

    /// The zone named `name`, if the database knows that name.
    pub fn parse(name: &str) -> (tz: Option<TimezoneId>)
        ensures
            tz is Some <==> known_zone(name@),
            tz matches Some(id) ==> id@ == name@,
    {
        if zone_is_known(name) {
            Some(TimezoneId { name: name.to_owned() })
        } else {
            None
        }
    }

    /// The identifier, which the database knows.
    pub fn name(&self) -> (name: &str)
        ensures
            name@ == self@,
            known_zone(self@),
    {
        proof {
            use_type_invariant(self);
        }
        self.name.as_str()
    }
}

/// A selection as the characters that were selected, if any were.
pub open spec fn selected(input: Option<&str>) -> Option<Seq<char>> {
    match input {
        Some(name) => Some(name@),
        None => None,
    }
}

/// Resolves a selection to a time zone. A missing selection, and one that the
/// database does not know, resolve to `UTC`; resolution never fails.
pub fn resolve(input: Option<&str>) -> (tz: TimezoneId)
    ensures
        tz@ == resolved_zone(selected(input)),
        input matches Some(name) ==> (known_zone(name@) ==> tz@ == name@),
        input matches Some(name) ==> (!known_zone(name@) ==> tz@ == fallback_zone()),
        input is None ==> tz@ == fallback_zone(),
{
    match input {
        Some(name) => match TimezoneId::parse(name) {
            Some(tz) => tz,
            None => TimezoneId::utc(),
        },
        None => TimezoneId::utc(),
    }
}

/// The prefix of the database's compatibility names, which are not offered
/// for selection.
pub open spec fn legacy_prefix() -> Seq<char> {
    "Etc"@
}

/// Whether the picker offers the identifier `name`: it is qualified by a
/// region, so it holds a `/`, and it does not begin with the legacy prefix.
pub open spec fn is_selectable(name: Seq<char>) -> bool {
    name.contains('/') && !legacy_prefix().is_prefix_of(name)
}

/// Tells whether the picker offers the identifier `name`.
pub fn is_selectable_name(name: &str) -> (selectable: bool)
    ensures
        selectable == is_selectable(name@),
{
    let mut has_slash = false;
    let mut seen: u8 = 0;
    let mut legacy = true;
    for c in it: name.chars()
        invariant
            it.seq() == name@,
            seen as int == if it.index() < 3 {
                it.index()
            } else {
                3
            },
            legacy == ((seen >= 1 ==> name@[0] == 'E') && (seen >= 2 ==> name@[1] == 't') && (seen
                >= 3 ==> name@[2] == 'c')),
            has_slash == (exists|j: int| 0 <= j < it.index() && name@[j] == '/'),
    {
        if c == '/' {
            has_slash = true;
        }
        if seen < 3 {
            let expected: char = if seen == 0 {
                'E'
            } else if seen == 1 {
                't'
            } else {
                'c'
            };
            if c != expected {
                legacy = false;
            }
            seen = seen + 1;
        }
    }
    proof {
        reveal_strlit("Etc");
        if seen == 3 && legacy {
            assert(legacy_prefix() =~= name@.subrange(0, 3));
        }
        if legacy_prefix().is_prefix_of(name@) {
            assert(name@.subrange(0, 3)[0] == 'E');
            assert(name@.subrange(0, 3)[1] == 't');
            assert(name@.subrange(0, 3)[2] == 'c');
        }
    }
    has_slash && !(seen == 3 && legacy)
}

/// The identifier at position `index` of the database's list of all zones,
/// `chrono_tz::TZ_VARIANTS`, or `None` where the list has no such position.
pub uninterp spec fn listed_zone(index: int) -> Option<Seq<char>>;

/// Reads `chrono_tz::TZ_VARIANTS` and calls `chrono_tz::Tz::name` on each
/// entry, in the list's order.
/// Trusted: the names are what `listed_zone` stands for at their positions,
/// and the list ends where the result ends.
#[verifier::external_body]
fn listed_zone_names() -> (names: Vec<String>)
    ensures
        forall|i: int| 0 <= i < names.len() ==> #[trigger] listed_zone(i) == Some(names[i]@),
        forall|i: int| names.len() <= i ==> #[trigger] listed_zone(i) is None,
{
    chrono_tz::TZ_VARIANTS.iter().map(|tz| tz.name().to_string()).collect()
}

/// Whether the database's list of zones has exactly `count` entries.
pub open spec fn is_zone_count(count: nat) -> bool {
    &&& forall|i: int| 0 <= i < count ==> #[trigger] listed_zone(i) is Some
    &&& listed_zone(count as int) is None
}

/// The number of entries of the database's list of zones.
pub open spec fn zone_count() -> nat {
    choose|count: nat| is_zone_count(count)
}

/// The database's list of zones, in its own order.
pub open spec fn listed_zones() -> Seq<Seq<char>> {
    Seq::new(zone_count(), |i: int| listed_zone(i)->0)
}

/// `is_selectable` as a predicate to filter by.
pub open spec fn selectable() -> spec_fn(Seq<char>) -> bool {
    |name: Seq<char>| is_selectable(name)
}

/// What the picker offers: `UTC` first, then the selectable zones of the
/// database in the order of its list.
pub open spec fn selectable_zones() -> Seq<Seq<char>> {
    seq![fallback_zone()] + listed_zones().filter(selectable())
}

proof fn lemma_zone_count_is(count: nat)
    requires
        is_zone_count(count),
    ensures
        zone_count() == count,
{
    let chosen = zone_count();
    assert(is_zone_count(chosen));
    if chosen < count {
        assert(listed_zone(chosen as int) is Some);
    }
    if count < chosen {
        assert(listed_zone(count as int) is Some);
    }
}

/// Lists the zones that the picker offers: `UTC`, then every identifier of
/// the database that is qualified by a region and is not a legacy name. Every
/// call returns the same list in the same order.
pub fn list_selectable_timezones() -> (names: Vec<String>)
    ensures
        names.deep_view() == selectable_zones(),
{
    let all = listed_zone_names();
    proof {
        lemma_zone_count_is(all.len() as nat);
        assert(all.deep_view() =~= listed_zones());
    }
    let mut names: Vec<String> = Vec::new();
    names.push("UTC".to_owned());
    assert(names.deep_view() =~= seq![fallback_zone()] + listed_zones().take(0).filter(
        selectable(),
    )) by {
        reveal(Seq::filter);
    }
    let mut i: usize = 0;
    while i < all.len()
        invariant
            i <= all.len(),
            all.deep_view() == listed_zones(),
            names.deep_view() == seq![fallback_zone()] + listed_zones().take(i as int).filter(
                selectable(),
            ),
        decreases all.len() - i,
    {
        let ghost before = names.deep_view();
        let ghost kept = listed_zones().take(i as int).filter(selectable());
        let keep = is_selectable_name(all[i].as_str());
        if keep {
            names.push(all[i].clone());
        }
        proof {
            let next = listed_zones().take(i as int + 1);
            assert(all.deep_view()[i as int] == all[i as int]@);
            assert(next.drop_last() =~= listed_zones().take(i as int));
            assert(next.last() == all[i as int]@);
            reveal(Seq::filter);
            if keep {
                assert(names.deep_view() =~= before.push(all[i as int]@));
                assert(next.filter(selectable()) == kept.push(all[i as int]@));
            } else {
                assert(next.filter(selectable()) == kept);
            }
            assert(names.deep_view() =~= seq![fallback_zone()] + next.filter(selectable()));
        }
        i = i + 1;
    }
    proof {
        assert(listed_zones().take(i as int) =~= listed_zones());
    }
    names
}

/// The list that the picker offers begins with `UTC`, none of its entries
/// begins with the legacy prefix, every entry after the first holds a `/`,
/// and no selectable zone of the database is missing from it.
pub proof fn selectable_zones_shape()
    ensures
        selectable_zones().len() >= 1,
        selectable_zones()[0] == fallback_zone(),
        forall|i: int|
            0 <= i < selectable_zones().len() ==> !legacy_prefix().is_prefix_of(
                #[trigger] selectable_zones()[i],
            ),
        forall|i: int|
            1 <= i < selectable_zones().len() ==> (#[trigger] selectable_zones()[i]).contains('/'),
        forall|i: int|
            0 <= i < listed_zones().len() && is_selectable(#[trigger] listed_zones()[i])
                ==> selectable_zones().contains(listed_zones()[i]),
{
    let rest = listed_zones().filter(selectable());
    assert forall|i: int|
        0 <= i < listed_zones().len() && is_selectable(
            #[trigger] listed_zones()[i],
        ) implies selectable_zones().contains(listed_zones()[i]) by {
        listed_zones().lemma_filter_contains(selectable(), i);
        let found = choose|k: int| 0 <= k < rest.len() && rest[k] == listed_zones()[i];
        assert(selectable_zones()[found + 1] == listed_zones()[i]);
    }
    reveal_strlit("UTC");
    reveal_strlit("Etc");
    assert(!legacy_prefix().is_prefix_of(fallback_zone())) by {
        if legacy_prefix().is_prefix_of(fallback_zone()) {
            assert(fallback_zone().subrange(0, 3)[0] == 'E');
        }
    }
    assert forall|i: int| 1 <= i < selectable_zones().len() implies is_selectable(
        #[trigger] selectable_zones()[i],
    ) by {
        listed_zones().lemma_filter_pred(selectable(), i - 1);
        assert(selectable_zones()[i] == rest[i - 1]);
    }
}

} // verus!
