//! Reading the class roster out of the class-list page.

use vstd::prelude::*;
use crate::error::{AspenError, ProjError};
use crate::json::{array_json, json_quoted, object_json, quote, texts_of, write_array, write_object};
use crate::number::{parse_number, parsed_number};
use crate::pattern::{all_captures, capture_all, groups_of, matches_of};
use crate::text::{collapse_whitespace, collapsed, strip_double_spaces, without_double_spaces};

verus! {

/// How the class list writes one roster row: three adjacent cells that
/// hold a name as "Last, First", a number, and a label.
pub const CLASS_PATTERN: &'static str =
    r"<td nowrap>\s*([A-Z]{1}[a-zA-Z-]+, [A-Z]{1}[a-zA-Z-]+)\s*</td>\s*<td nowrap>\s*([\d]+)\s*</td>\s*<td nowrap>\s*([a-zA-z: ]+)\s*</td>";

/// One roster entry.
#[derive(Clone, Debug, PartialEq, Eq)]
pub struct Class {
    /// The teacher, as "Last, First".
    pub teacher: String,
    pub room: usize,
    /// The subject.
    pub class: String,
}

/// What a roster entry says, as plain text.
pub struct ClassView {
    pub teacher: Seq<char>,
    pub room: usize,
    pub class: Seq<char>,
}

impl View for Class {
    type V = ClassView;

    open spec fn view(&self) -> ClassView {
        ClassView { teacher: self.teacher@, room: self.room, class: self.class@ }
    }
}

/// An optional entry, as plain text.
pub open spec fn entry_of(c: Option<Class>) -> Option<ClassView> {
    match c {
        Some(c) => Some(c@),
        None => None,
    }
}

/// A list of entries, as plain text.
pub open spec fn entries_of(classes: Seq<Class>) -> Seq<ClassView> {
    Seq::new(classes.len(), |i: int| classes[i]@)
}

/// Capture group `i` of a match, where the match has it.
pub open spec fn group(groups: Seq<Option<Seq<char>>>, i: int) -> Option<Seq<char>> {
    if 0 <= i < groups.len() {
        groups[i]
    } else {
        None
    }
}

/// The subject as it is kept: newlines and tabs made spaces, then every
/// pair of adjacent spaces dropped. The teacher and the room get the first
/// step only.
pub open spec fn subject_text(raw: Seq<char>) -> Seq<char> {
    without_double_spaces(collapsed(raw))
}

/// The entry that one match of the row pattern stands for: groups 1, 2 and
/// 3 are the teacher, the room and the subject. A match that lacks one of
/// them, or whose room reads as no number, stands for none.
pub open spec fn record_of(groups: Seq<Option<Seq<char>>>) -> Option<ClassView> {
    match (group(groups, 1), group(groups, 2), group(groups, 3)) {
        (Some(teacher), Some(room), Some(subject)) => match parsed_number(collapsed(room)) {
            Some(n) => Some(
                ClassView { teacher: collapsed(teacher), room: n, class: subject_text(subject) },
            ),
            None => None,
        },
        _ => None,
    }
}

/// Every match stands for an entry.
pub open spec fn all_well_formed(found: Seq<Seq<Option<Seq<char>>>>) -> bool {
    forall|i: int| 0 <= i < found.len() ==> (#[trigger] record_of(found[i])) is Some
}

/// The entries of the matches: one for each match, in the same order.
pub open spec fn records_of(found: Seq<Seq<Option<Seq<char>>>>) -> Seq<ClassView> {
    Seq::new(found.len(), |i: int| record_of(found[i]).unwrap())
}

/// Where every match stands for an entry, there are as many entries as
/// matches, and the entry at each place is that of the match at the same
/// place: nothing is reordered, merged or left out.
pub proof fn lemma_records_follow_matches(found: Seq<Seq<Option<Seq<char>>>>)
    requires
        all_well_formed(found),
    ensures
        records_of(found).len() == found.len(),
        forall|i: int|
            0 <= i < found.len() ==> record_of(found[i]) == Some(#[trigger] records_of(found)[i]),
{
}

/// Reads one match of the row pattern as a roster entry.
pub fn record_from(groups: &Vec<Option<String>>) -> (r: Option<Class>)
    ensures
        entry_of(r) == record_of(groups_of(groups@)),
{
    if groups.len() < 4 {
        return None;
    }
    let teacher = match &groups[1] {
        Some(t) => collapse_whitespace(t.as_str()),
        None => {
            return None;
        },
    };
    let room_text = match &groups[2] {
        Some(n) => collapse_whitespace(n.as_str()),
        None => {
            return None;
        },
    };
    let subject = match &groups[3] {
        Some(c) => collapse_whitespace(c.as_str()),
        None => {
            return None;
        },
    };
    match parse_number(room_text.as_str()) {
        Some(room) => Some(Class { teacher, room, class: strip_double_spaces(subject.as_str()) }),
        None => None,
    }
}

/// Reads the matches of the row pattern as roster entries, one for each
/// match and in the same order. The first match that stands for no entry
/// fails the whole reading.
pub fn records_from(found: &Vec<Vec<Option<String>>>) -> (r: Result<Vec<Class>, AspenError>)
    ensures
        all_well_formed(matches_of(found@)) ==> (r matches Ok(v) && entries_of(v@) == records_of(
            matches_of(found@),
        )),
        !all_well_formed(matches_of(found@)) ==> (r matches Err(e) && e
            == AspenError::MalformedRecord),
{
    let mut out: Vec<Class> = Vec::new();
    let mut i: usize = 0;
    let ghost ms = matches_of(found@);
    while i < found.len()
        invariant
            i <= found.len(),
            ms == matches_of(found@),
            out@.len() == i,
            forall|j: int| 0 <= j < i ==> (#[trigger] record_of(ms[j])) is Some,
            forall|j: int| 0 <= j < i ==> (#[trigger] out@[j])@ == record_of(ms[j]).unwrap(),
        decreases found.len() - i,
    {
        match record_from(&found[i]) {
            Some(c) => {
                out.push(c);
            },
            None => {
                assert(record_of(ms[i as int]) is None);
                return Err(AspenError::MalformedRecord);
            },
        }
        i += 1;
    }
    assert(entries_of(out@) =~= records_of(ms));
    Ok(out)
}

/// Finds every roster row of the class-list page, in the order of the
/// page. A page without rows has an empty roster.
pub fn extract_records(html: &str) -> (r: Result<Vec<Class>, AspenError>)
    ensures
        all_well_formed(all_captures(CLASS_PATTERN@, html@)) ==> (r matches Ok(v) && entries_of(v@)
            == records_of(all_captures(CLASS_PATTERN@, html@))),
        !all_well_formed(all_captures(CLASS_PATTERN@, html@)) ==> (r matches Err(e) && e
            == AspenError::MalformedRecord),
        all_captures(CLASS_PATTERN@, html@).len() == 0 ==> (r matches Ok(v) && v@.len() == 0),
{
    let found = capture_all(CLASS_PATTERN, html);
    let r = records_from(&found);
    proof {
        if r is Ok && all_well_formed(matches_of(found@)) {
            assert(entries_of(r.unwrap()@).len() == r.unwrap()@.len());
            assert(records_of(matches_of(found@)).len() == found@.len());
        }
    }
    r
}

/// The JSON object of an entry.
pub open spec fn entry_json(c: ClassView) -> Seq<char> {
    object_json(json_quoted(c.teacher), c.room, json_quoted(c.class))
}

/// The roster as a JSON array of objects with the keys `teacher`, `room`
/// and `class`, in the order of the entries.
pub open spec fn roster_json(entries: Seq<ClassView>) -> Seq<char> {
    array_json(Seq::new(entries.len(), |i: int| entry_json(entries[i])))
}

/// Writes the roster as JSON.
pub fn to_json(classes: &Vec<Class>) -> (r: Result<String, ProjError>)
    ensures
        r matches Ok(s) && s@ == roster_json(entries_of(classes@)),
{
    let mut items: Vec<String> = Vec::new();
    let mut i: usize = 0;
    let ghost entries = entries_of(classes@);
    while i < classes.len()
        invariant
            i <= classes.len(),
            entries == entries_of(classes@),
            items@.len() == i,
            forall|j: int| 0 <= j < i ==> (#[trigger] items@[j])@ == entry_json(entries[j]),
        decreases classes.len() - i,
    {
        let c = &classes[i];
        assert(entries[i as int] == c@);
        let teacher = match quote(c.teacher.as_str()) {
            Ok(q) => q,
            Err(e) => {
                return Err(ProjError::JSONError(e));
            },
        };
        let class = match quote(c.class.as_str()) {
            Ok(q) => q,
            Err(e) => {
                return Err(ProjError::JSONError(e));
            },
        };
        items.push(write_object(teacher.as_str(), c.room, class.as_str()));
        i += 1;
    }
    assert(texts_of(items@) =~= Seq::new(entries.len(), |i: int| entry_json(entries[i])));
    Ok(write_array(&items))
}

/// Reads the class roster out of the class-list page and writes it as a
/// JSON array, `[]` where the page holds no row.
pub fn extract_classes(aspenres: String) -> (r: Result<String, ProjError>)
    ensures
        !all_well_formed(all_captures(CLASS_PATTERN@, aspenres@)) ==> r matches Err(
            ProjError::Aspen(AspenError::MalformedRecord),
        ),
        all_well_formed(all_captures(CLASS_PATTERN@, aspenres@)) ==> (r matches Ok(s) && s@
            == roster_json(records_of(all_captures(CLASS_PATTERN@, aspenres@)))),
        all_captures(CLASS_PATTERN@, aspenres@).len() == 0 ==> (r matches Ok(s) && s@ == "[]"@),
{
    match extract_records(aspenres.as_str()) {
        Ok(classes) => {
            proof {
                lemma_empty_roster();
            }
            to_json(&classes)
        },
        Err(e) => Err(ProjError::Aspen(e)),
    }
}

/// The empty roster is written as `[]`.
pub proof fn lemma_empty_roster()
    ensures
        roster_json(Seq::empty()) == "[]"@,
{
    reveal_strlit("[");
    reveal_strlit("]");
    reveal_strlit("[]");
    let items = Seq::new(0, |i: int| entry_json(Seq::<ClassView>::empty()[i]));
    assert(items =~= Seq::<Seq<char>>::empty());
    assert(roster_json(Seq::empty()) =~= "[]"@);
}

} // verus!
