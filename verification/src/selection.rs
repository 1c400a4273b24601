use vstd::prelude::*;
use crate::idmap::IdMap;
use crate::pattern::{Pattern, regex_is_match};
use crate::structs::Named;

verus! {

/// The texts of a list of strings.
pub open spec fn strings_view(v: Seq<String>) -> Seq<Seq<char>> {
    v.map_values(|s: String| s@)
}

/// The identifiers of the entries whose name the pattern matches (when
/// `matching`) or does not match (otherwise), in the order of the entries.
pub open spec fn selected_ids<T: Named>(s: Seq<(Seq<char>, T)>, pattern: Seq<char>, matching: bool) -> Seq<Seq<char>>
    decreases s.len(),
{
    if s.len() == 0 {
        Seq::empty()
    } else {
        let rest = selected_ids(s.drop_last(), pattern, matching);
        if regex_is_match(pattern, s.last().1.spec_name()) == matching {
            rest.push(s.last().0)
        } else {
            rest
        }
    }
}

/// The identifiers of all entries, in order.
pub open spec fn all_ids<T>(s: Seq<(Seq<char>, T)>) -> Seq<Seq<char>> {
    s.map_values(|e: (Seq<char>, T)| e.0)
}

/// Each entry's name followed by a line break, in the order of the entries.
pub open spec fn names_text<T: Named>(s: Seq<(Seq<char>, T)>) -> Seq<char>
    decreases s.len(),
{
    if s.len() == 0 {
        Seq::empty()
    } else {
        names_text(s.drop_last()) + s.last().1.spec_name() + seq!['\n']
    }
}

/// The identifiers of the entries whose name `pattern` matches (or, with
/// `matching` false, does not match), in the order of the entries.
pub fn select_ids<T: Named>(items: &IdMap<T>, pattern: &Pattern, matching: bool) -> (ids: Vec<String>)
    ensures
        strings_view(ids@) == selected_ids(items@, pattern@, matching),
        pattern@.len() == 0 ==> strings_view(ids@) == if matching {
            all_ids(items@)
        } else {
            Seq::empty()
        },
{
    let n = items.len();
    let mut ids: Vec<String> = Vec::new();
    let mut i: usize = 0;
    while i < n
        invariant
            n == items@.len(),
            i <= n,
            strings_view(ids@) == selected_ids(items@.take(i as int), pattern@, matching),
            pattern@.len() == 0 ==> strings_view(ids@) =~= if matching {
                all_ids(items@.take(i as int))
            } else {
                Seq::empty()
            },
        decreases n - i,
    {
        let (id, item) = items.entry(i);
        let name = item.name();
        let hit = pattern.is_match(name.as_str());
        proof {
            assert(items@.take(i + 1).drop_last() =~= items@.take(i as int));
            assert(items@.take(i + 1).last() == items@[i as int]);
        }
        let ghost before = ids@;
        if hit == matching {
            ids.push(id.clone());
            proof {
                assert(strings_view(ids@) =~= selected_ids(items@.take(i as int), pattern@, matching).push(
                    items@[i as int].0,
                ));
                assert(strings_view(ids@) =~= strings_view(before).push(items@[i as int].0));
            }
        }
        proof {
            assert(all_ids(items@.take(i + 1)) =~= all_ids(items@.take(i as int)).push(items@[i as int].0));
        }
        i = i + 1;
    }
    proof {
        assert(items@.take(n as int) =~= items@);
    }
    ids
}

/// The identifiers of all entries, in order.
pub fn every_id<T>(items: &IdMap<T>) -> (ids: Vec<String>)
    ensures
        strings_view(ids@) == all_ids(items@),
{
    let n = items.len();
    let mut ids: Vec<String> = Vec::new();
    let mut i: usize = 0;
    while i < n
        invariant
            n == items@.len(),
            i <= n,
            ids@.len() == i,
            strings_view(ids@) =~= all_ids(items@.take(i as int)),
        decreases n - i,
    {
        let (id, _) = items.entry(i);
        let ghost before = ids@;
        ids.push(id.clone());
        proof {
            assert(ids@ == before.push(ids@[i as int]));
            assert(strings_view(ids@) =~= strings_view(before).push(items@[i as int].0));
            assert(all_ids(items@.take(i + 1)) =~= all_ids(items@.take(i as int)).push(items@[i as int].0));
        }
        i = i + 1;
    }
    proof {
        assert(items@.take(n as int) =~= items@);
    }
    ids
}

/// Each entry's name followed by a line break.
pub fn list_names<T: Named>(items: &IdMap<T>) -> (s: String)
    ensures
        s@ == names_text(items@),
{
    let n = items.len();
    let mut s = String::new();
    let mut i: usize = 0;
    while i < n
        invariant
            n == items@.len(),
            i <= n,
            s@ == names_text(items@.take(i as int)),
        decreases n - i,
    {
        let (_, item) = items.entry(i);
        s.append(item.name().as_str());
        s.append("\n");
        proof {
            reveal_strlit("\n");
            assert(items@.take(i + 1).drop_last() =~= items@.take(i as int));
            assert(s@ =~= names_text(items@.take(i + 1)));
        }
        i = i + 1;
    }
    proof {
        assert(items@.take(n as int) =~= items@);
    }
    s
}

/// An identifier is selected exactly when some entry carries it and the
/// pattern's verdict on that entry's name is the one asked for.
pub proof fn lemma_selected_membership<T: Named>(
    s: Seq<(Seq<char>, T)>,
    pattern: Seq<char>,
    matching: bool,
    k: Seq<char>,
)
    ensures
        selected_ids(s, pattern, matching).contains(k) <==> exists|i: int|
            0 <= i < s.len() && #[trigger] s[i].0 == k && regex_is_match(pattern, s[i].1.spec_name())
                == matching,
    decreases s.len(),
{
    if s.len() > 0 {
        let t = s.drop_last();
        lemma_selected_membership(t, pattern, matching, k);
        let rest = selected_ids(t, pattern, matching);
        if selected_ids(s, pattern, matching).contains(k) {
            let j = choose|j: int| 0 <= j < selected_ids(s, pattern, matching).len() && selected_ids(s, pattern, matching)[j] == k;
            if j < rest.len() {
                assert(rest[j] == k);
                let i = choose|i: int|
                    0 <= i < t.len() && #[trigger] t[i].0 == k && regex_is_match(pattern, t[i].1.spec_name())
                        == matching;
                assert(s[i] == t[i]);
            } else {
                assert(s[s.len() - 1].0 == k);
            }
        }
        if exists|i: int|
            0 <= i < s.len() && #[trigger] s[i].0 == k && regex_is_match(pattern, s[i].1.spec_name())
                == matching {
            let i = choose|i: int|
                0 <= i < s.len() && #[trigger] s[i].0 == k && regex_is_match(pattern, s[i].1.spec_name())
                    == matching;
            if i < s.len() - 1 {
                assert(t[i] == s[i]);
                assert(rest.contains(k));
                let j = choose|j: int| 0 <= j < rest.len() && rest[j] == k;
                if regex_is_match(pattern, s.last().1.spec_name()) == matching {
                    assert(selected_ids(s, pattern, matching)[j] == k);
                }
            } else {
                let sel = selected_ids(s, pattern, matching);
                assert(sel[sel.len() - 1] == k);
            }
        }
    }
}

/// When the pattern matches every name, selecting the matches selects every
/// identifier, in order, and selecting the non-matches selects none.
pub proof fn lemma_match_all_selects_all<T: Named>(s: Seq<(Seq<char>, T)>, pattern: Seq<char>)
    requires
        forall|i: int| 0 <= i < s.len() ==> regex_is_match(pattern, #[trigger] s[i].1.spec_name()),
    ensures
        selected_ids(s, pattern, true) == all_ids(s),
        selected_ids(s, pattern, false) == Seq::<Seq<char>>::empty(),
    decreases s.len(),
{
    if s.len() > 0 {
        let t = s.drop_last();
        assert forall|i: int| 0 <= i < t.len() implies regex_is_match(pattern, #[trigger] t[i].1.spec_name()) by {
            assert(t[i] == s[i]);
        }
        lemma_match_all_selects_all(t, pattern);
        assert(regex_is_match(pattern, s[s.len() - 1].1.spec_name()));
        assert(all_ids(s) =~= all_ids(t).push(s.last().0));
    }
}

/// Selecting the matches and selecting the non-matches split the entries:
/// together they hold as many identifiers as there are entries, and every
/// identifier of the map is in exactly one of them.
pub proof fn lemma_selection_partition<T: Named>(s: Seq<(Seq<char>, T)>, pattern: Seq<char>)
    requires
        crate::idmap::keys_distinct(s),
    ensures
        selected_ids(s, pattern, true).len() + selected_ids(s, pattern, false).len() == s.len(),
        forall|k: Seq<char>|
            #[trigger] all_ids(s).contains(k) ==> (selected_ids(s, pattern, true).contains(k)
                != selected_ids(s, pattern, false).contains(k)),
{
    lemma_selection_counts(s, pattern);
    assert forall|k: Seq<char>| #[trigger] all_ids(s).contains(k) implies (selected_ids(s, pattern, true).contains(k)
        != selected_ids(s, pattern, false).contains(k)) by {
        lemma_selected_membership(s, pattern, true, k);
        lemma_selected_membership(s, pattern, false, k);
        let j = choose|j: int| 0 <= j < all_ids(s).len() && all_ids(s)[j] == k;
        assert(s[j].0 == k);
        if regex_is_match(pattern, s[j].1.spec_name()) {
            assert(selected_ids(s, pattern, true).contains(k));
            if selected_ids(s, pattern, false).contains(k) {
                let i = choose|i: int|
                    0 <= i < s.len() && #[trigger] s[i].0 == k && regex_is_match(pattern, s[i].1.spec_name())
                        == false;
                assert(i == j);
            }
        } else {
            assert(selected_ids(s, pattern, false).contains(k));
            if selected_ids(s, pattern, true).contains(k) {
                let i = choose|i: int|
                    0 <= i < s.len() && #[trigger] s[i].0 == k && regex_is_match(pattern, s[i].1.spec_name())
                        == true;
                assert(i == j);
            }
        }
    }
}

proof fn lemma_selection_counts<T: Named>(s: Seq<(Seq<char>, T)>, pattern: Seq<char>)
    ensures
        selected_ids(s, pattern, true).len() + selected_ids(s, pattern, false).len() == s.len(),
    decreases s.len(),
{
    if s.len() > 0 {
        lemma_selection_counts(s.drop_last(), pattern);
    }
}

/// The listing has one line per entry, in order: the empty map lists
/// nothing, and a map with one more entry lists what the shorter map lists
/// followed by the new entry's name and a line break.
pub proof fn lemma_names_text_lines<T: Named>(s: Seq<(Seq<char>, T)>, e: (Seq<char>, T))
    ensures
        names_text(Seq::<(Seq<char>, T)>::empty()) == Seq::<char>::empty(),
        names_text(s.push(e)) == names_text(s) + e.1.spec_name() + seq!['\n'],
{
    assert(s.push(e).drop_last() =~= s);
}

/// The listing is as long as all the names together plus one line break per
/// entry.
pub proof fn lemma_names_text_len<T: Named>(s: Seq<(Seq<char>, T)>)
    ensures
        names_text(s).len() == names_len(s) + s.len(),
    decreases s.len(),
{
    if s.len() > 0 {
        lemma_names_text_len(s.drop_last());
    }
}

/// The total length of the entries' names.
pub open spec fn names_len<T: Named>(s: Seq<(Seq<char>, T)>) -> nat
    decreases s.len(),
{
    if s.len() == 0 {
        0
    } else {
        names_len(s.drop_last()) + s.last().1.spec_name().len()
    }
}

} // verus!
