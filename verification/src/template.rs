//! A very simple templating engine: it replaces `{{ name }}` placeholders
//! (tolerating horizontal whitespace inside the braces) in a command
//! template by the values of a name-to-value map, in a single left-to-right
//! pass. Inserted text is never re-substituted, and placeholders whose name
//! has no value are left verbatim, so unrelated `{{ }}`-shaped text in a
//! command is never corrupted.

use vstd::prelude::*;
use vstd::string::{StrSliceExecFns, StringExecFns};

verus! {

/// horizontal whitespace: what may pad a placeholder name inside the braces
pub open spec fn is_hws(c: char) -> bool {
    c == ' ' || c == '\t'
}

/// what may make up a placeholder name: anything but whitespace and braces
pub open spec fn is_name_char(c: char) -> bool {
    !is_hws(c) && c != '{' && c != '}'
}

/// the position of the first non-whitespace character at or after `i`
pub open spec fn skip_hws(s: Seq<char>, i: int) -> int
    decreases s.len() - i when 0 <= i <= s.len()
{
    if i < s.len() && is_hws(s[i]) {
        skip_hws(s, i + 1)
    } else {
        i
    }
}

pub proof fn lemma_skip_hws_bounds(s: Seq<char>, i: int)
    requires
        0 <= i <= s.len(),
    ensures
        i <= skip_hws(s, i) <= s.len(),
    decreases s.len() - i,
{
    if i < s.len() && is_hws(s[i]) {
        lemma_skip_hws_bounds(s, i + 1);
    }
}

/// the position right after the placeholder name starting at `i`
pub open spec fn name_end(s: Seq<char>, i: int) -> int
    decreases s.len() - i when 0 <= i <= s.len()
{
    if i < s.len() && is_name_char(s[i]) {
        name_end(s, i + 1)
    } else {
        i
    }
}

pub proof fn lemma_name_end_bounds(s: Seq<char>, i: int)
    requires
        0 <= i <= s.len(),
    ensures
        i <= name_end(s, i) <= s.len(),
    decreases s.len() - i,
{
    if i < s.len() && is_name_char(s[i]) {
        lemma_name_end_bounds(s, i + 1);
    }
}

/// the placeholder that starts at position `i` of the template, if any:
/// two opening braces, padding, a name, padding, two closing braces; yields
/// the name and the position right after the closing braces
pub open spec fn placeholder_at(s: Seq<char>, i: int) -> Option<(Seq<char>, int)>
    recommends
        0 <= i <= s.len(),
{
    if 0 <= i && i + 1 < s.len() && s[i] == '{' && s[i + 1] == '{' {
        let ns = skip_hws(s, i + 2);
        let ne = name_end(s, ns);
        let ce = skip_hws(s, ne);
        if ce + 1 < s.len() && s[ce] == '}' && s[ce + 1] == '}' {
            Some((s.subrange(ns, ne), ce + 2))
        } else {
            None
        }
    } else {
        None
    }
}

pub proof fn lemma_placeholder_at_bounds(s: Seq<char>, i: int)
    requires
        0 <= i <= s.len(),
    ensures
        placeholder_at(s, i) matches Some(p) ==> i < p.1 <= s.len(),
{
    if i + 1 < s.len() && s[i] == '{' && s[i + 1] == '{' {
        lemma_skip_hws_bounds(s, i + 2);
        lemma_name_end_bounds(s, skip_hws(s, i + 2));
        lemma_skip_hws_bounds(s, name_end(s, skip_hws(s, i + 2)));
    }
}

/// the template from position `i` on, with every placeholder whose name the
/// map knows replaced by its value
pub open spec fn subst_from(s: Seq<char>, m: Map<Seq<char>, Seq<char>>, i: int) -> Seq<char>
    decreases s.len() - i when 0 <= i <= s.len() via subst_from_dec
{
    if i >= s.len() {
        Seq::empty()
    } else {
        match placeholder_at(s, i) {
            Some(p) => {
                if m.contains_key(p.0) {
                    m[p.0] + subst_from(s, m, p.1)
                } else {
                    seq![s[i]] + subst_from(s, m, i + 1)
                }
            },
            None => seq![s[i]] + subst_from(s, m, i + 1),
        }
    }
}

#[via_fn]
proof fn subst_from_dec(s: Seq<char>, m: Map<Seq<char>, Seq<char>>, i: int) {
    lemma_placeholder_at_bounds(s, i);
}

/// the template with every known placeholder replaced by its value
pub open spec fn spec_substitute(s: Seq<char>, m: Map<Seq<char>, Seq<char>>) -> Seq<char> {
    subst_from(s, m, 0)
}

proof fn lemma_substitute_empty_from(s: Seq<char>, i: int)
    requires
        0 <= i <= s.len(),
    ensures
        subst_from(s, Map::<Seq<char>, Seq<char>>::empty(), i) == s.subrange(i, s.len() as int),
    decreases s.len() - i,
{
    if i >= s.len() {
        assert(s.subrange(i, s.len() as int) =~= Seq::empty());
    } else {
        lemma_substitute_empty_from(s, i + 1);
        assert(seq![s[i]] + s.subrange(i + 1, s.len() as int) =~= s.subrange(
            i,
            s.len() as int,
        ));
    }
}

/// Law: substitution with an empty map is the identity: a template whose
/// placeholders all stay unresolved is returned unchanged, so unrelated
/// placeholder-shaped text in a command is never corrupted.
pub proof fn lemma_substitute_empty(s: Seq<char>)
    ensures
        spec_substitute(s, Map::<Seq<char>, Seq<char>>::empty()) == s,
{
    lemma_substitute_empty_from(s, 0);
    assert(s.subrange(0, s.len() as int) =~= s);
}

proof fn lemma_substitute_unresolved_from(s: Seq<char>, m: Map<Seq<char>, Seq<char>>, i: int)
    requires
        0 <= i <= s.len(),
        forall|j: int|
            0 <= j <= s.len() ==> (#[trigger] placeholder_at(s, j) matches Some(p)
                ==> !m.contains_key(p.0)),
    ensures
        subst_from(s, m, i) == s.subrange(i, s.len() as int),
    decreases s.len() - i,
{
    if i >= s.len() {
        assert(s.subrange(i, s.len() as int) =~= Seq::empty());
    } else {
        assert(placeholder_at(s, i) matches Some(p) ==> !m.contains_key(p.0));
        lemma_substitute_unresolved_from(s, m, i + 1);
        assert(seq![s[i]] + s.subrange(i + 1, s.len() as int) =~= s.subrange(
            i,
            s.len() as int,
        ));
    }
}

/// Law: a template in which no placeholder names a known value is returned
/// unchanged, whatever the map holds.
pub proof fn lemma_substitute_unresolved(s: Seq<char>, m: Map<Seq<char>, Seq<char>>)
    requires
        forall|j: int|
            0 <= j <= s.len() ==> (#[trigger] placeholder_at(s, j) matches Some(p)
                ==> !m.contains_key(p.0)),
    ensures
        spec_substitute(s, m) == s,
{
    lemma_substitute_unresolved_from(s, m, 0);
    assert(s.subrange(0, s.len() as int) =~= s);
}

/// Law: substitution is idempotent whenever the first pass leaves no
/// placeholder whose name has a value — in particular when every remaining
/// placeholder is unknown to the map, so a second pass changes nothing.
/// The premise excludes one corner: a substituted value may, together with
/// braces around its placeholder, complete a new placeholder whose name the
/// map knows, and a second pass then resolves it.
pub proof fn lemma_substitute_idempotent(s: Seq<char>, m: Map<Seq<char>, Seq<char>>)
    requires
        forall|j: int|
            0 <= j <= spec_substitute(s, m).len() ==> (#[trigger] placeholder_at(
                spec_substitute(s, m),
                j,
            ) matches Some(p) ==> !m.contains_key(p.0)),
    ensures
        spec_substitute(spec_substitute(s, m), m) == spec_substitute(s, m),
{
    lemma_substitute_unresolved(spec_substitute(s, m), m);
}

/// The name-to-value map for one resolution: the values seeded from the
/// trigger and computed by the action's variables. A later insert for the
/// same name overwrites the earlier value.
pub struct VarValues {
    entries: Vec<(String, String)>,
}

/// the map that a run of entries denotes; later entries win
pub open spec fn map_of(entries: Seq<(String, String)>) -> Map<Seq<char>, Seq<char>>
    decreases entries.len(),
{
    if entries.len() == 0 {
        Map::empty()
    } else {
        map_of(entries.drop_last()).insert(entries.last().0@, entries.last().1@)
    }
}

impl View for VarValues {
    type V = Map<Seq<char>, Seq<char>>;

    closed spec fn view(&self) -> Map<Seq<char>, Seq<char>> {
        map_of(self.entries@)
    }
}

impl VarValues {
    /// an empty map
    pub fn new() -> (r: VarValues)
        ensures
            r@ == Map::<Seq<char>, Seq<char>>::empty(),
    {
        VarValues { entries: Vec::new() }
    }

    /// adds a value under a name, overwriting an earlier value of that name
    pub fn insert(&mut self, name: String, value: String)
        ensures
            final(self)@ == old(self)@.insert(name@, value@),
    {
        let ghost old_entries = self.entries@;
        self.entries.push((name, value));
        proof {
            assert(self.entries@.drop_last() =~= old_entries);
        }
    }

    /// the value stored under a name
    pub fn get(&self, name: &str) -> (r: Option<&String>)
        ensures
            r is Some <==> self@.contains_key(name@),
            r matches Some(v) ==> self@[name@] == v@,
    {
        let mut i: usize = self.entries.len();
        proof {
            assert(self.entries@.subrange(0, i as int) =~= self.entries@);
        }
        while i > 0
            invariant
                i <= self.entries@.len(),
                map_of(self.entries@).contains_key(name@) == map_of(
                    self.entries@.subrange(0, i as int),
                ).contains_key(name@),
                map_of(self.entries@).contains_key(name@) ==> map_of(self.entries@)[name@]
                    == map_of(self.entries@.subrange(0, i as int))[name@],
            decreases i,
        {
            i = i - 1;
            proof {
                assert(self.entries@.subrange(0, i + 1).drop_last() =~= self.entries@.subrange(
                    0,
                    i as int,
                ));
                assert(self.entries@.subrange(0, i + 1).last() == self.entries@[i as int]);
            }
            if crate::text::str_eq(self.entries[i].0.as_str(), name) {
                return Some(&self.entries[i].1);
            }
        }
        proof {
            assert(self.entries@.subrange(0, 0) =~= Seq::empty());
        }
        None
    }
}

/// scans over the whitespace characters of the template
fn exec_skip_hws(chars: &Vec<char>, i: usize) -> (r: usize)
    requires
        i <= chars@.len(),
    ensures
        r == skip_hws(chars@, i as int),
        i <= r <= chars@.len(),
    decreases chars@.len() - i,
{
    proof {
        lemma_skip_hws_bounds(chars@, i as int);
    }
    if i < chars.len() {
        let c = chars[i];
        if c == ' ' || c == '\t' {
            return exec_skip_hws(chars, i + 1);
        }
    }
    i
}

/// scans over the name characters of the template
fn exec_name_end(chars: &Vec<char>, i: usize) -> (r: usize)
    requires
        i <= chars@.len(),
    ensures
        r == name_end(chars@, i as int),
        i <= r <= chars@.len(),
    decreases chars@.len() - i,
{
    proof {
        lemma_name_end_bounds(chars@, i as int);
    }
    if i < chars.len() {
        let c = chars[i];
        if !(c == ' ' || c == '\t') && c != '{' && c != '}' {
            return exec_name_end(chars, i + 1);
        }
    }
    i
}

/// finds the placeholder starting at position `i`, yielding the name's
/// bounds and the position right after the closing braces
fn exec_placeholder_at(chars: &Vec<char>, i: usize) -> (r: Option<(usize, usize, usize)>)
    requires
        i <= chars@.len(),
    ensures
        (match r {
            Some((ns, ne, next)) => placeholder_at(chars@, i as int) == Some(
                (chars@.subrange(ns as int, ne as int), next as int),
            ) && ns <= ne <= chars@.len() && i < next <= chars@.len(),
            None => placeholder_at(chars@, i as int) is None,
        }),
{
    proof {
        lemma_placeholder_at_bounds(chars@, i as int);
    }
    if i < chars.len() && i + 1 < chars.len() && chars[i] == '{' && chars[i + 1] == '{' {
        let ns = exec_skip_hws(chars, i + 2);
        let ne = exec_name_end(chars, ns);
        let ce = exec_skip_hws(chars, ne);
        if ce < chars.len() && ce + 1 < chars.len() && chars[ce] == '}' && chars[ce + 1] == '}' {
            Some((ns, ne, ce + 2))
        } else {
            None
        }
    } else {
        None
    }
}

/// replaces every `{{ name }}` placeholder in the template whose name the
/// map knows by that name's value, in one left-to-right pass; all other
/// text, placeholder-shaped or not, is kept verbatim
pub fn substitute(template: &str, values: &VarValues) -> (r: String)
    ensures
        r@ == spec_substitute(template@, values@),
{
    let chars = crate::text::chars_of(template);
    let n = chars.len();
    let mut out = String::new();
    let mut i: usize = 0;
    while i < n
        invariant
            i <= n,
            n == template@.len(),
            chars@ == template@,
            out@ + subst_from(template@, values@, i as int) == spec_substitute(
                template@,
                values@,
            ),
        decreases n - i,
    {
        let ghost prev = i;
        let mut replaced = false;
        match exec_placeholder_at(&chars, i) {
            Some((ns, ne, next)) => {
                let name = template.substring_char(ns, ne);
                match values.get(name) {
                    Some(v) => {
                        out.append(v.as_str());
                        i = next;
                        replaced = true;
                        proof {
                            assert(subst_from(template@, values@, prev as int) == values@[name@]
                                + subst_from(template@, values@, i as int));
                        }
                    },
                    None => {
                    },
                }
            },
            None => {
            },
        }
        if !replaced {
            let piece = template.substring_char(i, i + 1);
            out.append(piece);
            proof {
                assert(piece@ =~= seq![template@[prev as int]]);
                assert(subst_from(template@, values@, prev as int) == seq![
                    template@[prev as int],
                ] + subst_from(template@, values@, prev + 1));
            }
            i = i + 1;
        }
        proof {
            assert(out@ + subst_from(template@, values@, i as int) =~= spec_substitute(
                template@,
                values@,
            ));
        }
    }
    proof {
        assert(out@ =~= spec_substitute(template@, values@));
    }
    out
}

/// replaces every `{{ placeholder }}` occurrence in the text by the
/// replacement, literally and in one pass
pub fn replace(text: &str, placeholder: &str, replacement: &str) -> (r: Result<
    String,
    crate::errors::UserError,
>)
    ensures
        r matches Ok(s) && s@ == spec_substitute(
            text@,
            Map::empty().insert(placeholder@, replacement@),
        ),
{
    let mut values = VarValues::new();
    values.insert(String::from_str(placeholder), String::from_str(replacement));
    Ok(substitute(text, &values))
}

/// replaces every placeholder of the map by its value, literally and in one
/// pass; placeholders with no entry in the map are left verbatim
pub fn replace_all(text: &str, replacements: &VarValues) -> (r: Result<
    String,
    crate::errors::UserError,
>)
    ensures
        r matches Ok(s) && s@ == spec_substitute(text@, replacements@),
{
    Ok(substitute(text, replacements))
}

} // verus!
