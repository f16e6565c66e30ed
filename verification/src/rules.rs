//! Classification rules: a compiled pattern with the source it was built
//! from, a rule tying a pattern to an event kind and a field-extraction
//! map, and the fixed lookup from requested event names to rule names.

use vstd::prelude::*;

use crate::events::EventType;

verus! {

#[verifier::external_type_specification]
#[verifier::external_body]
pub struct ExRegex(regex::Regex);

/// Relies on regex::Regex::captures: for a fixed pattern source, whether a
/// haystack matches and what each capture group holds is a function of the
/// pattern source and the haystack alone.  `None` means no match; in the
/// `Some` case, entry `i` is capture group `i`'s text, or `None` where the
/// group did not participate.
pub uninterp spec fn rx_captures(pattern: Seq<char>, text: Seq<char>) -> Option<
    Seq<Option<Seq<char>>>,
>;

/// Whether a pattern matches a haystack at all.
pub open spec fn rx_matches(pattern: Seq<char>, text: Seq<char>) -> bool {
    rx_captures(pattern, text) is Some
}

/// A compiled pattern, remembering its source.  The source is the pattern's
/// identity in every contract.
pub struct Pattern {
    src: String,
    re: regex::Regex,
}

impl View for Pattern {
    type V = Seq<char>;

    closed spec fn view(&self) -> Seq<char> {
        self.src@
    }
}

/// Relies on regex::Regex::new: whether a pattern source compiles is a
/// fixed property of that source.
pub uninterp spec fn rx_valid(pattern: Seq<char>) -> bool;

impl Pattern {
    /// Relies on regex::Regex::new: compiles the source, or rejects an
    /// invalid pattern.
    #[verifier::external_body]
    pub fn compile(src: &str) -> (r: Option<Pattern>)
        ensures
            r is Some <==> rx_valid(src@),
            r matches Some(p) ==> p@ == src@,
    {
        match regex::Regex::new(src) {
            Ok(re) => Some(Pattern { src: src.to_owned(), re }),
            Err(_) => None,
        }
    }

    /// Relies on regex::Regex::captures, Captures::iter and Match::as_str:
    /// yields every capture group's text in group order; group 0 is the
    /// whole match and always participates, and the group count is at
    /// least one.
    #[verifier::external_body]
    pub fn captures(&self, text: &str) -> (r: Option<Vec<Option<String>>>)
        ensures
            r is Some <==> rx_captures(self@, text@) is Some,
            r matches Some(groups) ==> {
                &&& rx_captures(self@, text@) == Some(groups.deep_view())
                &&& groups@.len() >= 1
                &&& groups@[0] is Some
            },
    {
        self.re.captures(text).map(
            |caps|
                caps.iter().map(
                    |m: Option<regex::Match>| m.map(|mm| mm.as_str().to_owned()),
                ).collect(),
        )
    }
}

/// One classification rule: a name (used by the event-type pre-filter), a
/// pattern, the named captures to extract, and the event kind the rule
/// assigns.
pub struct Rule {
    pub name: String,
    pub pattern: Pattern,
    pub fields: Vec<(String, usize)>,
    pub kind: EventType,
}

/// Ghost view of a rule.
#[verifier::ext_equal]
pub struct RuleView {
    pub name: Seq<char>,
    pub pattern: Seq<char>,
    pub fields: Seq<(Seq<char>, usize)>,
    pub kind: EventType,
}

/// The mathematical view of a field-extraction map.
pub open spec fn fields_view(f: Seq<(String, usize)>) -> Seq<(Seq<char>, usize)> {
    Seq::new(f.len(), |i: int| (f[i].0@, f[i].1))
}

impl View for Rule {
    type V = RuleView;

    open spec fn view(&self) -> RuleView {
        RuleView {
            name: self.name@,
            pattern: self.pattern@,
            fields: fields_view(self.fields@),
            kind: self.kind,
        }
    }
}

/// The mathematical view of a rule table.
pub open spec fn rules_view(rs: Seq<Rule>) -> Seq<RuleView> {
    rs.map_values(|r: Rule| r@)
}

/// Compiles one rule and appends it to a table under construction; `false`
/// reports an invalid pattern and leaves the table unchanged.
pub fn push_rule(
    t: &mut Vec<Rule>,
    name: &str,
    src: &str,
    fields: Vec<(String, usize)>,
    kind: EventType,
) -> (ok: bool)
    ensures
        ok ==> rules_view(final(t)@) == rules_view(old(t)@).push(
            RuleView { name: name@, pattern: src@, fields: fields_view(fields@), kind },
        ),
        ok ==> rx_valid(src@),
        !ok ==> final(t)@ == old(t)@ && !rx_valid(src@),
{
    match Pattern::compile(src) {
        Some(p) => {
            let r = Rule { name: name.to_owned(), pattern: p, fields, kind };
            let ghost rv = r@;
            t.push(r);
            assert(rules_view(final(t)@) =~= rules_view(old(t)@).push(rv));
            true
        },
        None => false,
    }
}

/// Builds a field-extraction pair for the table builders.
pub fn fld(name: &str, idx: usize) -> (r: (String, usize))
    ensures
        r.0@ == name@,
        r.1 == idx,
{
    (name.to_owned(), idx)
}

} // verus!
