//! Highlight groups: the editor's named styles, the set of them that the
//! editor lists, and the choice of the group that the session's region is
//! linked to.

use crate::args::value_as_str;
use crate::text::{characters, unicode_alphabetic, unicode_whitespace};
use neovim_lib::{CallError, Value};
use vstd::prelude::*;
use vstd::std_specs::cmp::PartialEqSpecImpl;
use vstd::std_specs::convert::FromSpecImpl;

verus! {

/// Why a call to the editor failed. Verus sees nothing inside it.
#[verifier::external_type_specification]
#[verifier::external_body]
pub struct ExCallError(neovim_lib::CallError);

/// The command that makes the editor list its highlight groups.
pub const LIST_HIGHLIGHTS: &'static str = "silent highlight";

/// The editor variable that names the group to link the region to.
pub const PARENT_VARIABLE: &'static str = "scorched_earth_parent_highlight_group";

/// The name of one of the editor's styles.
#[derive(Clone, Debug, Eq, Hash)]
pub struct HighlightGroup(String);

impl View for HighlightGroup {
    type V = Seq<char>;

    closed spec fn view(&self) -> Seq<char> {
        self.0@
    }
}

impl PartialEq for HighlightGroup {
    fn eq(&self, other: &HighlightGroup) -> (equal: bool) {
        self.0 == other.0
    }
}

impl PartialEqSpecImpl for HighlightGroup {
    open spec fn obeys_eq_spec() -> bool {
        true
    }

    open spec fn eq_spec(&self, other: &HighlightGroup) -> bool {
        self@ == other@
    }
}

impl From<String> for HighlightGroup {
    fn from(name: String) -> (group: HighlightGroup) {
        HighlightGroup(name)
    }
}

impl FromSpecImpl<String> for HighlightGroup {
    open spec fn obeys_from_spec() -> bool {
        true
    }

    open spec fn from_spec(name: String) -> HighlightGroup {
        HighlightGroup::named(name)
    }
}

impl HighlightGroup {
    /// The group that a name makes.
    pub closed spec fn named(name: String) -> HighlightGroup {
        HighlightGroup(name)
    }

    /// A group and the string it was made from hold the same characters.
    pub broadcast proof fn lemma_named_view(name: String)
        ensures
            (#[trigger] HighlightGroup::named(name))@ == name@,
    {
    }

    pub fn new(name: String) -> (group: HighlightGroup)
        ensures
            group == HighlightGroup::named(name),
            group@ == name@,
    {
        HighlightGroup(name)
    }

    /// The group's name.
    pub fn name(&self) -> (name: &str)
        ensures
            name@ == self@,
    {
        self.0.as_str()
    }

    /// The group as it is written into a command: its name and a line feed.
    pub fn display(&self) -> (text: String)
        ensures
            text@ == self@.push('\n'),
    {
        let mut text = self.0.clone();
        text.push('\n');
        text
    }
}

/// The groups that the editor listed: a set of names.
#[derive(Debug)]
pub struct HighlightGroups {
    groups: Vec<HighlightGroup>,
}

impl View for HighlightGroups {
    type V = Set<Seq<char>>;

    closed spec fn view(&self) -> Set<Seq<char>> {
        self.names().to_set()
    }
}

impl HighlightGroups {
    /// The names held, in the order in which they were added.
    pub closed spec fn names(&self) -> Seq<Seq<char>> {
        self.groups@.map_values(|group: HighlightGroup| group@)
    }

    /// No name is held twice.
    #[verifier::type_invariant]
    closed spec fn distinct(&self) -> bool {
        self.names().no_duplicates()
    }

    /// The empty set of groups.
    pub fn new() -> (groups: HighlightGroups)
        ensures
            groups@ == Set::<Seq<char>>::empty(),
    {
        let groups = HighlightGroups { groups: Vec::new() };
        assert(groups@ =~= Set::<Seq<char>>::empty());
        groups
    }

    /// How many groups the set holds.
    pub fn len(&self) -> (count: usize)
        ensures
            self@.finite(),
            count == self@.len(),
    {
        proof {
            use_type_invariant(self);
            self.names().unique_seq_to_set();
            vstd::seq_lib::seq_to_set_is_finite(self.names());
        }
        self.groups.len()
    }

    /// Whether a group of that name is in the set. Names are compared
    /// character by character, so case matters.
    pub fn contains(&self, group: &HighlightGroup) -> (found: bool)
        ensures
            found == self@.contains(group@),
    {
        let mut at: usize = 0;
        while at < self.groups.len()
            invariant
                at <= self.groups.len(),
                forall|k: int| 0 <= k < at ==> self.names()[k] != group@,
            decreases self.groups.len() - at,
        {
            if self.groups[at] == *group {
                assert(self.names()[at as int] == group@);
                return true;
            }
            at += 1;
        }
        false
    }

    /// Adds a group to the set. Returns whether the set lacked it.
    pub fn insert(&mut self, group: HighlightGroup) -> (added: bool)
        ensures
            final(self)@ == old(self)@.insert(group@),
            added == !old(self)@.contains(group@),
    {
        if self.contains(&group) {
            assert(self@ =~= self@.insert(group@));
            false
        } else {
            proof {
                use_type_invariant(&*self);
                self.names().lemma_push_to_set_commute(group@);
            }
            let mut taken = HighlightGroups::new();
            std::mem::swap(self, &mut taken);
            let mut groups = taken.groups;
            groups.push(group);
            assert(groups@.map_values(|group: HighlightGroup| group@) =~= old(self).names().push(
                group@,
            ));
            *self = HighlightGroups { groups };
            true
        }
    }
}

/// Whether a character ends a group's name: a line feed or any whitespace.
pub open spec fn ends_name(c: char) -> bool {
    c == '\n' || unicode_whitespace(c)
}

/// Whether a line of the text begins at `at`: at the start of the text and
/// behind every line feed, as long as a character stands there.
pub open spec fn line_start(text: Seq<char>, at: int) -> bool {
    0 <= at < text.len() && (at == 0 || text[at - 1] == '\n')
}

/// Where the name that begins at `from` ends: at the first character from
/// there on that ends a name, or at the end of the text.
pub open spec fn name_end(text: Seq<char>, from: int) -> int
    decreases text.len() - from,
{
    if from < 0 || from >= text.len() || ends_name(text[from]) {
        from
    } else {
        name_end(text, from + 1)
    }
}

/// The group that the line beginning at `at` lists: a line that begins with
/// a letter lists the group named by its first word; other lines list none.
pub open spec fn group_at(text: Seq<char>, at: int) -> Option<Seq<char>> {
    if line_start(text, at) && unicode_alphabetic(text[at]) {
        Some(text.subrange(at, name_end(text, at)))
    } else {
        None
    }
}

/// The groups listed by the lines that begin before `limit`.
pub open spec fn groups_before(text: Seq<char>, limit: int) -> Set<Seq<char>> {
    Set::new(
        |name: Seq<char>|
            exists|at: int| 0 <= at < limit && #[trigger] group_at(text, at) == Some(name),
    )
}

/// The groups that a listing of the editor's highlights names.
pub open spec fn listed_groups(text: Seq<char>) -> Set<Seq<char>> {
    groups_before(text, text.len() as int)
}

/// An optional group as the characters of its name.
pub open spec fn group_name(group: Option<HighlightGroup>) -> Option<Seq<char>> {
    match group {
        Some(group) => Some(group@),
        None => None,
    }
}

/// The group to link to: the configured one, if it is configured, has a
/// name that is not empty, and is among the editor's groups.
pub open spec fn valid_parent(configured: Option<Seq<char>>, groups: Set<Seq<char>>) -> Option<
    Seq<char>,
> {
    match configured {
        Some(name) => if name.len() > 0 && groups.contains(name) {
            Some(name)
        } else {
            None
        },
        None => None,
    }
}

/// The name that the editor's reply configures: the string it holds, if the
/// call succeeded and the value is a string.
pub open spec fn configured_parent(reply: Result<Value, CallError>) -> Option<Seq<char>> {
    match reply {
        Ok(value) => value_as_str(value),
        Err(_) => None,
    }
}

impl HighlightGroup {
    /// Reads the groups out of the editor's listing of its highlights.
    pub fn load(listing: &str) -> (groups: HighlightGroups)
        ensures
            groups@ == listed_groups(listing@),
    {
        let chars = characters(listing);
        let ghost text = listing@;
        let mut groups = HighlightGroups::new();
        let mut at: usize = 0;
        assert(groups@ =~= groups_before(text, 0));
        while at < chars.len()
            invariant
                chars@ == text,
                at <= chars.len(),
                at < chars.len() ==> line_start(text, at as int),
                groups@ == groups_before(text, at as int),
            decreases chars.len() - at,
        {
            let start = at;
            if chars[at].is_alphabetic() {
                let mut name = String::new();
                while at < chars.len() && !(chars[at] == '\n' || chars[at].is_whitespace())
                    invariant
                        chars@ == text,
                        start <= at <= chars.len(),
                        name@ == text.subrange(start as int, at as int),
                        name_end(text, at as int) == name_end(text, start as int),
                        forall|k: int| start <= k < at ==> text[k] != '\n',
                    decreases chars.len() - at,
                {
                    name.push(chars[at]);
                    at += 1;
                    assert(name@ =~= text.subrange(start as int, at as int));
                }
                assert(group_at(text, start as int) == Some(name@));
                groups.insert(HighlightGroup::new(name));
            }
            let ghost listed = groups@;
            assert(listed == match group_at(text, start as int) {
                Some(name) => groups_before(text, start as int).insert(name),
                None => groups_before(text, start as int),
            });
            while at < chars.len() && chars[at] != '\n'
                invariant
                    chars@ == text,
                    start <= at <= chars.len(),
                    forall|k: int| start <= k < at ==> text[k] != '\n',
                decreases chars.len() - at,
            {
                at += 1;
            }
            if at < chars.len() {
                at += 1;
            }
            proof {
                assert forall|k: int| start < k < at implies group_at(text, k) is None by {
                    assert(text[k - 1] != '\n');
                }
                assert(start < at);
                assert forall|name: Seq<char>| listed.contains(name) implies groups_before(
                    text,
                    at as int,
                ).contains(name) by {
                    if group_at(text, start as int) != Some(name) {
                        let earlier = choose|k: int|
                            0 <= k < start && #[trigger] group_at(text, k) == Some(name);
                        assert(group_at(text, earlier) == Some(name));
                    }
                }
                assert forall|name: Seq<char>|
                    groups_before(text, at as int).contains(name) implies listed.contains(name) by {
                    let k = choose|k: int| 0 <= k < at && #[trigger] group_at(text, k) == Some(name);
                    if k < start {
                        assert(groups_before(text, start as int).contains(name));
                    }
                }
                assert(groups@ =~= groups_before(text, at as int));
            }
        }
        groups
    }
}

/// Picks the group to link to among the editor's groups.
pub fn resolve_parent(name: Option<HighlightGroup>, snapshot: &HighlightGroups) -> (parent: Option<
    HighlightGroup,
>)
    ensures
        group_name(parent) == valid_parent(group_name(name), snapshot@),
{
    match name {
        Some(group) => {
            if !group.name().is_empty() && snapshot.contains(&group) {
                Some(group)
            } else {
                None
            }
        },
        None => None,
    }
}

/// Reads the configured group out of the editor's reply to the question for
/// [`PARENT_VARIABLE`].
pub fn get_parent_highlight_group(reply: &Result<Value, CallError>) -> (group: Option<
    HighlightGroup,
>)
    ensures
        group_name(group) == configured_parent(*reply),
{
    broadcast use HighlightGroup::lemma_named_view;

    match reply {
        Ok(value) => match value.as_str() {
            Some(name) => Some(HighlightGroup::from(name.to_owned())),
            None => None,
        },
        Err(_) => None,
    }
}

/// Reads the configured group out of the editor's reply and picks it if it
/// is among the editor's groups.
pub fn get_valid_parent_highlight_group(
    reply: &Result<Value, CallError>,
    group_set: &HighlightGroups,
) -> (parent: Option<HighlightGroup>)
    ensures
        group_name(parent) == valid_parent(configured_parent(*reply), group_set@),
{
    resolve_parent(get_parent_highlight_group(reply), group_set)
}

} // verus!
