//! The classification engine: a single interpreter over an ordered rule
//! table.  The first rule whose pattern matches the message wins; the
//! optional event-name pre-filter removes rules from consideration without
//! ever changing which rule wins among those that remain.

use vstd::prelude::*;

use crate::cursor::opt_shift;
use crate::events::entry_view;
use crate::events::EventType;
use crate::rules::{rules_view, rx_captures, rx_matches, Rule, RuleView};
use crate::text::str_eq;

verus! {

/// Whether a rule name occurs in a name list.
pub open spec fn spec_name_in(names: Seq<Seq<char>>, n: Seq<char>) -> bool
    decreases names.len(),
{
    if names.len() == 0 {
        false
    } else {
        names[0] == n || spec_name_in(names.skip(1), n)
    }
}

/// Membership test against the expanded event-name filter.
pub fn name_in(names: &Vec<String>, n: &str) -> (r: bool)
    ensures
        r == spec_name_in(names.deep_view(), n@),
{
    let m = names.len();
    let mut i: usize = 0;
    assert(names.deep_view().skip(0) =~= names.deep_view());
    while i < m
        invariant
            i <= m,
            m == names@.len(),
            spec_name_in(names.deep_view(), n@) == spec_name_in(
                names.deep_view().skip(i as int),
                n@,
            ),
        decreases m - i,
    {
        assert(names.deep_view().skip(i as int)[0] == names@[i as int]@);
        if str_eq(names[i].as_str(), n) {
            return true;
        }
        assert(names.deep_view().skip(i as int).skip(1) =~= names.deep_view().skip(i + 1));
        i += 1;
    }
    assert(names.deep_view().skip(i as int) =~= Seq::<Seq<char>>::empty());
    false
}

/// The ghost view of the optional pre-filter.
pub open spec fn allow_view(allow: Option<&Vec<String>>) -> Option<Seq<Seq<char>>> {
    match allow {
        None => None,
        Some(v) => Some(v.deep_view()),
    }
}

/// Whether the pre-filter admits a rule of this name; no filter admits all.
pub open spec fn rule_allowed(allow: Option<Seq<Seq<char>>>, name: Seq<char>) -> bool {
    match allow {
        None => true,
        Some(ns) => spec_name_in(ns, name),
    }
}

/// The rule table after the pre-filter, in unchanged order.
pub open spec fn filter_rules(rules: Seq<RuleView>, allow: Option<Seq<Seq<char>>>) -> Seq<
    RuleView,
>
    decreases rules.len(),
{
    if rules.len() == 0 {
        Seq::empty()
    } else if rule_allowed(allow, rules[0].name) {
        seq![rules[0]] + filter_rules(rules.skip(1), allow)
    } else {
        filter_rules(rules.skip(1), allow)
    }
}

/// The index of the first rule in the table whose pattern matches.
pub open spec fn first_match(rules: Seq<RuleView>, msg: Seq<char>) -> Option<int>
    decreases rules.len(),
{
    if rules.len() == 0 {
        None
    } else if rx_matches(rules[0].pattern, msg) {
        Some(0)
    } else {
        opt_shift(first_match(rules.skip(1), msg), 1)
    }
}

/// Inserting a field: replace the value of an existing key, else append.
pub open spec fn spec_upsert(
    m: Seq<(Seq<char>, Seq<char>)>,
    k: Seq<char>,
    v: Seq<char>,
) -> Seq<(Seq<char>, Seq<char>)>
    decreases m.len(),
{
    if m.len() == 0 {
        seq![(k, v)]
    } else if m[0].0 == k {
        seq![(k, v)] + m.skip(1)
    } else {
        seq![m[0]] + spec_upsert(m.skip(1), k, v)
    }
}

/// The extraction map after applying a rule's field map to the capture
/// groups, starting from a seed map: each configured capture that
/// participated in the match is inserted under its field name.
pub open spec fn spec_extract(
    seed: Seq<(Seq<char>, Seq<char>)>,
    fields: Seq<(Seq<char>, usize)>,
    g: Seq<Option<Seq<char>>>,
) -> Seq<(Seq<char>, Seq<char>)>
    decreases fields.len(),
{
    if fields.len() == 0 {
        seed
    } else {
        let seed2 = if fields[0].1 < g.len() && g[fields[0].1 as int] is Some {
            spec_upsert(seed, fields[0].0, g[fields[0].1 as int]->0)
        } else {
            seed
        };
        spec_extract(seed2, fields.skip(1), g)
    }
}

/// The outcome of classification over an already-filtered table: the first
/// matching rule's kind, and its extracted fields.
pub open spec fn spec_classify_table(
    rules: Seq<RuleView>,
    seed: Seq<(Seq<char>, Seq<char>)>,
    msg: Seq<char>,
) -> Option<(EventType, Seq<(Seq<char>, Seq<char>)>)> {
    match first_match(rules, msg) {
        None => None,
        Some(i) => Some(
            (
                rules[i].kind,
                spec_extract(seed, rules[i].fields, rx_captures(rules[i].pattern, msg)->0),
            ),
        ),
    }
}

/// The outcome of classification: pre-filter the table, then let the first
/// matching rule win.
pub open spec fn spec_classify(
    rules: Seq<RuleView>,
    allow: Option<Seq<Seq<char>>>,
    seed: Seq<(Seq<char>, Seq<char>)>,
    msg: Seq<char>,
) -> Option<(EventType, Seq<(Seq<char>, Seq<char>)>)> {
    spec_classify_table(filter_rules(rules, allow), seed, msg)
}

/// A first-match index is always a valid index.
proof fn lemma_first_match_bounds(rules: Seq<RuleView>, msg: Seq<char>)
    ensures
        first_match(rules, msg) matches Some(k) ==> 0 <= first_match(rules, msg)->0 < rules.len(),
    decreases rules.len(),
{
    if rules.len() > 0 && !rx_matches(rules[0].pattern, msg) {
        lemma_first_match_bounds(rules.skip(1), msg);
    }
}

/// The capture groups of the winning rule, empty when no rule matches.
pub open spec fn spec_win_groups(
    rules: Seq<RuleView>,
    allow: Option<Seq<Seq<char>>>,
    msg: Seq<char>,
) -> Seq<Option<Seq<char>>> {
    let ft = filter_rules(rules, allow);
    match first_match(ft, msg) {
        None => Seq::empty(),
        Some(i) => rx_captures(ft[i].pattern, msg)->0,
    }
}

/// Filtering distributes over concatenation.
proof fn lemma_filter_concat(a: Seq<RuleView>, b: Seq<RuleView>, al: Option<Seq<Seq<char>>>)
    ensures
        filter_rules(a + b, al) == filter_rules(a, al) + filter_rules(b, al),
    decreases a.len(),
{
    if a.len() == 0 {
        assert(a + b =~= b);
        assert(filter_rules(a, al) + filter_rules(b, al) =~= filter_rules(b, al));
    } else {
        assert((a + b)[0] == a[0]);
        assert((a + b).skip(1) =~= a.skip(1) + b);
        lemma_filter_concat(a.skip(1), b, al);
        if rule_allowed(al, a[0].name) {
            assert(seq![a[0]] + (filter_rules(a.skip(1), al) + filter_rules(b, al)) =~= (seq![
                a[0],
            ] + filter_rules(a.skip(1), al)) + filter_rules(b, al));
        }
    }
}

/// When nothing in the first table matches, a match in the concatenation
/// sits in the second, shifted by the first table's length.
proof fn lemma_first_match_concat(x: Seq<RuleView>, y: Seq<RuleView>, msg: Seq<char>)
    requires
        first_match(x, msg) is None,
    ensures
        first_match(x + y, msg) == opt_shift(first_match(y, msg), x.len() as int),
    decreases x.len(),
{
    if x.len() == 0 {
        assert(x + y =~= y);
        match first_match(y, msg) {
            Some(k) => {
                assert(opt_shift(Some(k), 0) == Some(k));
            },
            None => {
            },
        }
    } else {
        assert((x + y)[0] == x[0]);
        assert((x + y).skip(1) =~= x.skip(1) + y);
        lemma_first_match_concat(x.skip(1), y, msg);
    }
}

/// Dropping a non-matching head rule changes nothing.
proof fn lemma_classify_cons_skip(
    head: RuleView,
    rest: Seq<RuleView>,
    seed: Seq<(Seq<char>, Seq<char>)>,
    msg: Seq<char>,
)
    requires
        !rx_matches(head.pattern, msg),
    ensures
        spec_classify_table(seq![head] + rest, seed, msg) == spec_classify_table(rest, seed, msg),
{
    let t = seq![head] + rest;
    assert(t[0] == head);
    assert(t.skip(1) =~= rest);
    lemma_first_match_bounds(rest, msg);
    match first_match(rest, msg) {
        None => {
        },
        Some(k) => {
            assert(first_match(t, msg) == Some(k + 1));
            assert(t[k + 1] == rest[k]);
        },
    }
}

/// Inserts a field value, replacing an existing key or appending a new one.
fn map_upsert(m: &mut Vec<(String, String)>, k: &str, v: String)
    ensures
        entry_view(final(m)@) == spec_upsert(entry_view(old(m)@), k@, v@),
{
    let n = m.len();
    let mut i: usize = 0;
    assert(entry_view(m@).skip(0) =~= entry_view(m@));
    while i < n
        invariant
            i <= n,
            n == m@.len(),
            m@ == old(m)@,
            forall|j: int| 0 <= j < i ==> entry_view(m@)[j].0 != k@,
        decreases n - i,
    {
        assert(entry_view(m@)[i as int] == (m@[i as int].0@, m@[i as int].1@));
        if str_eq(m[i].0.as_str(), k) {
            m.remove(i);
            m.insert(i, (k.to_owned(), v));
            proof {
                lemma_upsert_at(entry_view(old(m)@), k@, v@, i as int);
                assert(entry_view(m@) =~= entry_view(old(m)@).update(
                    i as int,
                    (k@, v@),
                ));
            }
            return ;
        }
        i += 1;
    }
    m.push((k.to_owned(), v));
    proof {
        lemma_upsert_missing(entry_view(old(m)@), k@, v@);
        assert(entry_view(m@) =~= entry_view(old(m)@).push((k@, v@)));
    }
}

/// When the key sits at index `i` and nowhere earlier, upsert updates that
/// entry in place.
proof fn lemma_upsert_at(m: Seq<(Seq<char>, Seq<char>)>, k: Seq<char>, v: Seq<char>, i: int)
    requires
        0 <= i < m.len(),
        m[i].0 == k,
        forall|j: int| 0 <= j < i ==> m[j].0 != k,
    ensures
        spec_upsert(m, k, v) == m.update(i, (k, v)),
    decreases i,
{
    if i == 0 {
        assert(spec_upsert(m, k, v) == seq![(k, v)] + m.skip(1));
        assert(seq![(k, v)] + m.skip(1) =~= m.update(0, (k, v)));
    } else {
        assert(forall|j: int| 0 <= j < i - 1 ==> m.skip(1)[j] == m[j + 1]);
        lemma_upsert_at(m.skip(1), k, v, i - 1);
        assert(spec_upsert(m, k, v) == seq![m[0]] + spec_upsert(m.skip(1), k, v));
        assert(seq![m[0]] + m.skip(1).update(i - 1, (k, v)) =~= m.update(i, (k, v)));
    }
}

/// When the key is absent, upsert appends.
proof fn lemma_upsert_missing(m: Seq<(Seq<char>, Seq<char>)>, k: Seq<char>, v: Seq<char>)
    requires
        forall|j: int| 0 <= j < m.len() ==> (#[trigger] m[j]).0 != k,
    ensures
        spec_upsert(m, k, v) == m.push((k, v)),
    decreases m.len(),
{
    if m.len() == 0 {
        assert(spec_upsert(m, k, v) =~= m.push((k, v)));
    } else {
        assert(forall|j: int| 0 <= j < m.skip(1).len() ==> (#[trigger] m.skip(1)[j]) == m[j + 1]);
        lemma_upsert_missing(m.skip(1), k, v);
        assert(seq![m[0]] + m.skip(1).push((k, v)) =~= m.push((k, v)));
    }
}

/// Applies a rule's field map to the capture groups, inserting each
/// participating capture under its field name.
pub(crate) fn extract_fields(
    m: &mut Vec<(String, String)>,
    fields: &Vec<(String, usize)>,
    groups: &Vec<Option<String>>,
)
    ensures
        entry_view(final(m)@) == spec_extract(
            entry_view(old(m)@),
            crate::rules::fields_view(fields@),
            groups.deep_view(),
        ),
{
    let ghost fv = crate::rules::fields_view(fields@);
    let ghost g = groups.deep_view();
    let n = fields.len();
    let mut i: usize = 0;
    assert(fv.skip(0) =~= fv);
    while i < n
        invariant
            i <= n,
            n == fields@.len(),
            fv == crate::rules::fields_view(fields@),
            g == groups.deep_view(),
            spec_extract(entry_view(m@), fv.skip(i as int), g) == spec_extract(
                entry_view(old(m)@),
                fv,
                g,
            ),
        decreases n - i,
    {
        let ghost pre = entry_view(m@);
        assert(fv.skip(i as int)[0] == (fields@[i as int].0@, fields@[i as int].1));
        let idx = fields[i].1;
        if idx < groups.len() {
            assert(g[idx as int] == groups@[idx as int].deep_view());
            let has = groups[idx].is_some();
            if has {
                let val = match &groups[idx] {
                    Some(x) => x.clone(),
                    None => String::new(),
                };
                assert(g[idx as int] is Some && g[idx as int]->0 == val@);
                map_upsert(m, fields[i].0.as_str(), val);
            }
        }
        assert(fv.skip(i as int).skip(1) =~= fv.skip(i + 1));
        i += 1;
    }
    assert(fv.skip(i as int) =~= Seq::<(Seq<char>, usize)>::empty());
}

/// Runs the rule table over a message: the pre-filter drops rules whose
/// name is outside the allow list, and among the remaining rules the first
/// whose pattern matches decides the event kind and the extracted fields,
/// laid over the seed map.
pub fn classify_rules(
    rules: &Vec<Rule>,
    allow: Option<&Vec<String>>,
    seed: Vec<(String, String)>,
    msg: &str,
) -> (r: Option<(EventType, Vec<(String, String)>, Vec<Option<String>>)>)
    ensures
        match r {
            Some(p) => {
                &&& spec_classify(rules_view(rules@), allow_view(allow), entry_view(seed@), msg@)
                    matches Some(q) && q.0 == p.0 && q.1 == entry_view(p.1@)
                &&& p.2.deep_view() == spec_win_groups(rules_view(rules@), allow_view(allow), msg@)
                &&& p.2@.len() >= 1
                &&& p.2@[0] is Some
            },
            None => spec_classify(rules_view(rules@), allow_view(allow), entry_view(seed@), msg@)
                is None,
        },
{
    let ghost rv = rules_view(rules@);
    let ghost a = allow_view(allow);
    let ghost seedv = entry_view(seed@);
    let n = rules.len();
    let mut i: usize = 0;
    assert(rv.take(0) =~= Seq::<RuleView>::empty());
    while i < n
        invariant
            i <= n,
            n == rules@.len(),
            rv == rules_view(rules@),
            a == allow_view(allow),
            seedv == entry_view(seed@),
            first_match(filter_rules(rv.take(i as int), a), msg@) is None,
        decreases n - i,
    {
        assert(rv.skip(i as int)[0] == rules@[i as int]@);
        let ghost tail = rv.skip(i as int);
        let ghost tail2 = rv.skip(i + 1);
        let ghost fpre = filter_rules(rv.take(i as int), a);
        let ghost head = tail[0];
        assert(tail.skip(1) =~= tail2);
        proof {
            assert(rv.take(i + 1) =~= rv.take(i as int) + seq![head]);
            lemma_filter_concat(rv.take(i as int), seq![head], a);
            assert(seq![head].skip(1) =~= Seq::<RuleView>::empty());
        }
        let allowed = match allow {
            None => true,
            Some(names) => name_in(names, rules[i].name.as_str()),
        };
        assert(seq![head][0] == head);
        assert(allowed == rule_allowed(a, head.name));
        assert(filter_rules(Seq::<RuleView>::empty(), a) == Seq::<RuleView>::empty());
        if allowed {
            assert(filter_rules(seq![head], a) =~= seq![head]);
            match rules[i].pattern.captures(msg) {
                Some(groups) => {
                    proof {
                        assert(rv =~= rv.take(i as int) + tail);
                        lemma_filter_concat(rv.take(i as int), tail, a);
                        assert(filter_rules(tail, a) == seq![head] + filter_rules(tail2, a));
                        lemma_first_match_concat(fpre, filter_rules(tail, a), msg@);
                        assert(first_match(filter_rules(tail, a), msg@) == Some(0int));
                        let ff = filter_rules(rv, a);
                        assert(ff == fpre + filter_rules(tail, a));
                        assert(first_match(ff, msg@) == Some(fpre.len() as int));
                        assert(ff[fpre.len() as int] == head);
                    }
                    let mut m = seed;
                    extract_fields(&mut m, &rules[i].fields, &groups);
                    return Some((rules[i].kind, m, groups));
                },
                None => {
                    proof {
                        assert(!rx_matches(head.pattern, msg@));
                        assert(first_match(Seq::<RuleView>::empty(), msg@) is None);
                        assert(first_match(seq![head], msg@) is None);
                        lemma_first_match_concat(fpre, seq![head], msg@);
                        assert(first_match(filter_rules(rv.take(i + 1), a), msg@) is None);
                    }
                },
            }
        } else {
            assert(filter_rules(seq![head], a) =~= Seq::<RuleView>::empty());
            assert(filter_rules(rv.take(i + 1), a) =~= fpre);
        }
        i += 1;
    }
    assert(rv.take(n as int) =~= rv);
    None
}

/// Classification is total on tables that end in a catch-all: when only the
/// final rule's pattern matches the message, the outcome carries exactly
/// that rule's event kind.
pub proof fn lemma_classify_catch_all(
    rules: Seq<RuleView>,
    seed: Seq<(Seq<char>, Seq<char>)>,
    msg: Seq<char>,
)
    requires
        rules.len() > 0,
        rx_matches(rules.last().pattern, msg),
        forall|i: int| 0 <= i < rules.len() - 1 ==> !rx_matches((#[trigger] rules[i]).pattern, msg),
    ensures
        spec_classify_table(rules, seed, msg) matches Some(p) && p.0 == rules.last().kind,
    decreases rules.len(),
{
    if rules.len() == 1 {
        assert(first_match(rules, msg) == Some(0int));
    } else {
        assert(rules.skip(1).last() == rules.last());
        assert(forall|i: int|
            0 <= i < rules.skip(1).len() - 1 ==> rules.skip(1)[i] == rules[i + 1]);
        lemma_classify_catch_all(rules.skip(1), seed, msg);
        assert(rules =~= seq![rules[0]] + rules.skip(1));
        lemma_classify_cons_skip(rules[0], rules.skip(1), seed, msg);
        assert(spec_classify_table(seq![rules[0]] + rules.skip(1), seed, msg)
            == spec_classify_table(rules, seed, msg));
    }
}

/// Rule order decides: when some rule at or before `i` matches, the winning
/// rule is never one after `i`; a message matching rules `i` and `j > i`
/// always takes the kind of the first matching rule, which is at `i` or
/// earlier.
pub proof fn lemma_rule_ordering(
    rules: Seq<RuleView>,
    seed: Seq<(Seq<char>, Seq<char>)>,
    msg: Seq<char>,
    i: int,
    j: int,
)
    requires
        0 <= i < j < rules.len(),
        rx_matches(rules[i].pattern, msg),
        rx_matches(rules[j].pattern, msg),
    ensures
        ({
            &&& first_match(rules, msg) matches Some(k)
            &&& 0 <= first_match(rules, msg)->0 <= i
            &&& (spec_classify_table(rules, seed, msg) matches Some(p) && p.0 == rules[first_match(
                rules,
                msg,
            )->0].kind)
        }),
    decreases i,
{
    if rx_matches(rules[0].pattern, msg) {
        assert(first_match(rules, msg) == Some(0int));
    } else {
        assert(i >= 1);
        assert(forall|q: int| 0 <= q < rules.skip(1).len() ==> rules.skip(1)[q] == rules[q + 1]);
        lemma_rule_ordering(rules.skip(1), seed, msg, i - 1, j - 1);
        let k1 = first_match(rules.skip(1), msg)->0;
        assert(first_match(rules, msg) == Some(k1 + 1));
    }
}

} // verus!
