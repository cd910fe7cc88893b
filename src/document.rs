//! The INI document, as the `ini` crate holds it, and the model it is read
//! through.

use vstd::prelude::*;

verus! {

#[verifier::external_type_specification]
#[verifier::external_body]
pub struct ExIni(ini::Ini);

#[verifier::external_type_specification]
#[verifier::external_body]
pub struct ExProperties(ini::Properties);

#[verifier::external_type_specification]
#[verifier::external_body]
pub struct ExParseError(ini::ParseError);

/// A document seen by section name (`None` is the general section): for each
/// name, the keys of the first section so named, each with its first value.
pub type Sections = Map<Option<Seq<char>>, Map<Seq<char>, Seq<char>>>;

/// What a document holds, as `Sections`.
pub uninterp spec fn sections_of(d: ini::Ini) -> Sections;

/// What one section holds: each key with its first value.
pub uninterp spec fn properties_of(p: ini::Properties) -> Map<Seq<char>, Seq<char>>;

/// The document that `Ini::load_from_str` reads from a text, or `None` where
/// it reports a parse error.
pub uninterp spec fn parsed(t: Seq<char>) -> Option<Sections>;

/// The view of a scope: `None` for the general section.
pub open spec fn scope_view(s: Option<&str>) -> Option<Seq<char>> {
    match s {
        Some(name) => Some(name@),
        None => None,
    }
}

/// A document with an empty general section and nothing else.
pub open spec fn empty_sections() -> Sections {
    Map::empty().insert(None, Map::empty())
}

/// The value of `key` in the scope `s`, if there is one.
pub open spec fn lookup(m: Sections, s: Option<Seq<char>>, key: Seq<char>) -> Option<Seq<char>> {
    if m.contains_key(s) && m[s].contains_key(key) {
        Some(m[s][key])
    } else {
        None
    }
}

/// The keys of scope `s`; none where the section is absent.
pub open spec fn scope_of(m: Sections, s: Option<Seq<char>>) -> Map<Seq<char>, Seq<char>> {
    if m.contains_key(s) {
        m[s]
    } else {
        Map::empty()
    }
}

/// The document after `key` in scope `s` is set to `value`, or deleted where
/// `value` is `None`. A named section whose last key a deletion takes is
/// removed; the general section never is, and deleting a key that the scope
/// does not hold changes nothing.
pub open spec fn updated(
    m: Sections,
    s: Option<Seq<char>>,
    key: Seq<char>,
    value: Option<Seq<char>>,
) -> Sections {
    match value {
        Some(v) => m.insert(s, scope_of(m, s).insert(key, v)),
        None => if m.contains_key(s) && m[s].contains_key(key) {
            let rest = m[s].remove(key);
            if s is Some && rest.dom().is_empty() {
                m.remove(s)
            } else {
                m.insert(s, rest)
            }
        } else {
            m
        },
    }
}

/// Relies on `Ini::load_from_str`: the document read from `t`, or its parse
/// error; an empty text reads as a document with only an empty general section.
#[verifier::external_body]
pub(crate) fn parse_document(t: &str) -> (r: Result<ini::Ini, ini::ParseError>)
    ensures
        match r {
            Ok(d) => parsed(t@) == Some(sections_of(d)),
            Err(_) => parsed(t@) is None,
        },
        t@.len() == 0 ==> r is Ok && sections_of(r->Ok_0) == empty_sections(),
{
    ini::Ini::load_from_str(t)
}

/// Relies on `Ini::get_from`: the first value of `key` in the first section
/// named `s`.
#[verifier::external_body]
pub(crate) fn get_value(d: &ini::Ini, s: Option<&str>, key: &str) -> (r: Option<String>)
    ensures
        match r {
            Some(v) => lookup(sections_of(*d), scope_view(s), key@) == Some(v@),
            None => lookup(sections_of(*d), scope_view(s), key@) is None,
        },
{
    d.get_from(s, key).map(|v| v.to_string())
}

/// Relies on `Ini::set_to`: all values of `key` in the first section named `s`
/// are replaced by `value`; the section is added where it is absent.
#[verifier::external_body]
pub(crate) fn set_value(d: &mut ini::Ini, s: Option<&str>, key: &str, value: &str)
    ensures
        sections_of(*final(d)) == sections_of(*old(d)).insert(
            scope_view(s),
            scope_of(sections_of(*old(d)), scope_view(s)).insert(key@, value@),
        ),
{
    d.set_to(s, key.to_string(), value.to_string())
}

/// Relies on `Ini::delete_from`: all values of `key` leave the first section
/// named `s`, and the first of them is returned; the section itself stays,
/// keys or none.
#[verifier::external_body]
pub(crate) fn delete_value(d: &mut ini::Ini, s: Option<&str>, key: &str) -> (r: Option<String>)
    ensures
        match r {
            Some(v) => lookup(sections_of(*old(d)), scope_view(s), key@) == Some(v@),
            None => lookup(sections_of(*old(d)), scope_view(s), key@) is None,
        },
        sections_of(*final(d)) == (if sections_of(*old(d)).contains_key(scope_view(s)) {
            sections_of(*old(d)).insert(
                scope_view(s),
                sections_of(*old(d))[scope_view(s)].remove(key@),
            )
        } else {
            sections_of(*old(d))
        }),
{
    d.delete_from(s, key)
}

/// Relies on `Ini::section`: the first section named `s`, if any.
#[verifier::external_body]
pub(crate) fn first_section<'a>(d: &'a ini::Ini, s: Option<&str>) -> (r: Option<&'a ini::Properties>)
    ensures
        match r {
            Some(p) => sections_of(*d).contains_key(scope_view(s))
                && properties_of(*p) == sections_of(*d)[scope_view(s)],
            None => !sections_of(*d).contains_key(scope_view(s)),
        },
{
    d.section(s)
}

/// Relies on `Properties::is_empty`: whether the section holds no key.
pub assume_specification[ ini::Properties::is_empty ](p: &ini::Properties) -> (r: bool)
    ensures
        r == properties_of(*p).dom().is_empty(),
;

/// Relies on `Ini::delete`: every section named `name` leaves the document.
#[verifier::external_body]
pub(crate) fn remove_section(d: &mut ini::Ini, name: &str)
    ensures
        sections_of(*final(d)) == sections_of(*old(d)).remove(Some(name@)),
{
    d.delete(Some(name));
}

/// Applies a change to one key of a document: `Some(v)` sets `key` to `v` in
/// the scope `s`, `None` deletes it, and a named section whose last key the
/// deletion took goes with it. Deleting a key that is not there changes
/// nothing.
///
/// Where a file repeats a section header, only the first section of that name
/// is read and changed; when its last key goes, every section of that name
/// goes with it, as `Ini::delete` offers no way to drop only the first.
pub fn apply_change(d: &mut ini::Ini, s: Option<&str>, key: &str, value: Option<&str>)
    ensures
        sections_of(*final(d)) == updated(
            sections_of(*old(d)),
            scope_view(s),
            key@,
            match value {
                Some(v) => Some(v@),
                None => None,
            },
        ),
{
    match value {
        Some(v) => set_value(d, s, key, v),
        None => {
            let ghost before = sections_of(*d);
            let removed = delete_value(d, s, key);
            proof {
                if removed is None && before.contains_key(scope_view(s)) {
                    assert(before[scope_view(s)].remove(key@) =~= before[scope_view(s)]);
                    assert(before.insert(scope_view(s), before[scope_view(s)]) =~= before);
                }
            }
            if let (Some(name), Some(_)) = (s, removed) {
                let emptied = match first_section(d, s) {
                    Some(p) => p.is_empty(),
                    None => false,
                };
                if emptied {
                    remove_section(d, name);
                }
            }
        },
    }
}

/// A key set to a value in some scope reads back as that value in that scope,
/// whatever the document held before.
pub proof fn lemma_set_then_lookup(m: Sections, s: Option<Seq<char>>, key: Seq<char>, v: Seq<char>)
    ensures
        lookup(updated(m, s, key, Some(v)), s, key) == Some(v),
{
}

/// A deleted key reads as absent in its scope, whatever the document held
/// before, and deleting it once more changes nothing.
pub proof fn lemma_delete_then_lookup(m: Sections, s: Option<Seq<char>>, key: Seq<char>)
    ensures
        lookup(updated(m, s, key, None), s, key) is None,
        updated(updated(m, s, key, None), s, key, None) == updated(m, s, key, None),
{
}

/// Deleting a key that the scope does not hold leaves the document as it was,
/// an empty named section included.
pub proof fn lemma_delete_absent_is_noop(m: Sections, s: Option<Seq<char>>, key: Seq<char>)
    requires
        lookup(m, s, key) is None,
    ensures
        updated(m, s, key, None) == m,
{
}

/// A change to one key leaves every other key of every scope as it was; in
/// particular a key of a named section and the key of the same name in the
/// general section are apart.
pub proof fn lemma_change_is_local(
    m: Sections,
    s: Option<Seq<char>>,
    key: Seq<char>,
    value: Option<Seq<char>>,
    other_s: Option<Seq<char>>,
    other_key: Seq<char>,
)
    requires
        s != other_s || key != other_key,
    ensures
        lookup(updated(m, s, key, value), other_s, other_key) == lookup(m, other_s, other_key),
{
    if value is None && m.contains_key(s) && s == other_s {
        let rest = m[s].remove(key);
        if m[s].contains_key(other_key) {
            assert(rest.dom().contains(other_key));
        }
    }
}

/// Deleting the only key of a named section removes the section, so no header
/// of it is written; the general section is never removed by a deletion.
pub proof fn lemma_emptied_section_goes(m: Sections, name: Seq<char>, key: Seq<char>)
    requires
        m.contains_key(Some(name)),
        m[Some(name)].dom() == set![key],
    ensures
        !updated(m, Some(name), key, None).contains_key(Some(name)),
{
    assert(m[Some(name)].remove(key).dom() =~= Set::<Seq<char>>::empty());
}

/// The general section stays in a document through any change.
pub proof fn lemma_general_section_stays(
    m: Sections,
    s: Option<Seq<char>>,
    key: Seq<char>,
    value: Option<Seq<char>>,
)
    requires
        m.contains_key(None),
    ensures
        updated(m, s, key, value).contains_key(None),
{
}

} // verus!
