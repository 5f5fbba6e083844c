//! The tool registry: plugin-side tool scripts discovered on disk once at
//! startup, keyed by file stem, and used only to advertise capabilities.
//!
//! Scanning the directory is the runtime's part; it reports plain entry
//! records, and [`build_tool_registry`] keeps each regular file whose
//! extension is `luau`, keyed by its stem.  Stems are unique within one
//! directory (the stem and the fixed extension reconstruct the file name),
//! so on the inputs a scan can produce the first entry for a name is also
//! the only one.

use vstd::prelude::*;
use vstd::string::StrSliceExecFns;

verus! {

/// A filesystem-sourced tool description, created once and never mutated.
#[derive(Clone, Debug, PartialEq, Eq)]
pub struct DiscoveredTool {
    pub file_path: String,
}

/// One directory entry as the scanner reports it: whether it is a regular
/// file, its final name component, and its full path.
#[derive(Clone, Debug, PartialEq, Eq)]
pub struct DirEntryRecord {
    pub is_file: bool,
    pub file_name: String,
    pub file_path: String,
}

/// The greatest index `>= 1` and `<= i` holding a dot, if any.
pub open spec fn last_dot_from(s: Seq<char>, i: int) -> Option<int>
    decreases i,
{
    if i < 1 {
        None
    } else if s[i] == '.' {
        Some(i)
    } else {
        last_dot_from(s, i - 1)
    }
}

/// The position of the dot separating stem from extension: the last dot,
/// except that a leading dot (a hidden file) starts no extension.
pub open spec fn last_dot(s: Seq<char>) -> Option<int> {
    last_dot_from(s, s.len() - 1)
}

/// The file name up to the extension dot, or all of it without one.
pub open spec fn file_stem_of(s: Seq<char>) -> Seq<char> {
    match last_dot(s) {
        Some(i) => s.take(i),
        None => s,
    }
}

/// What follows the extension dot, or `None` without one.
pub open spec fn extension_of(s: Seq<char>) -> Option<Seq<char>> {
    match last_dot(s) {
        Some(i) => Some(s.skip(i + 1)),
        None => None,
    }
}

/// The stem of a file name whose extension is exactly `luau`.
pub open spec fn luau_stem_spec(s: Seq<char>) -> Option<Seq<char>> {
    if extension_of(s) == Some("luau"@) {
        Some(file_stem_of(s))
    } else {
        None
    }
}

/// Character-wise string equality.
fn str_equal(a: &str, b: &str) -> (r: bool)
    ensures
        r == (a@ == b@),
{
    let n = a.unicode_len();
    let m = b.unicode_len();
    if n != m {
        proof {
            assert(a@ != b@) by {
                if a@ == b@ {
                    assert(a@.len() == b@.len());
                }
            }
        }
        return false;
    }
    let mut i: usize = 0;
    while i < n
        invariant
            i <= n,
            n == a@.len(),
            n == b@.len(),
            forall|j: int| 0 <= j < i ==> a@[j] == b@[j],
        decreases n - i,
    {
        if a.get_char(i) != b.get_char(i) {
            proof {
                assert(a@ != b@) by {
                    if a@ == b@ {
                        assert(a@[i as int] == b@[i as int]);
                    }
                }
            }
            return false;
        }
        i = i + 1;
    }
    proof {
        assert(a@ =~= b@);
    }
    true
}

/// Splits a file name and returns its stem when its extension is exactly
/// `luau`, the way the registry keys its tools.
pub fn luau_tool_stem(file_name: &str) -> (r: Option<String>)
    ensures
        r is None <==> luau_stem_spec(file_name@) is None,
        r matches Some(stem) ==> luau_stem_spec(file_name@) == Some(stem@),
{
    let ghost s = file_name@;
    let n = file_name.unicode_len();
    let mut i: usize = if n == 0 {
        0
    } else {
        n - 1
    };
    let mut dot: Option<usize> = None;
    while dot.is_none() && i >= 1
        invariant
            n == s.len(),
            file_name@ == s,
            n > 0 ==> i < n,
            n == 0 ==> i == 0,
            match dot {
                None => last_dot(s) == last_dot_from(s, i as int),
                Some(d) => 1 <= d < n && last_dot(s) == Some(d as int),
            },
        decreases (if dot is None { 1int } else { 0int }), i,
    {
        if file_name.get_char(i) == '.' {
            dot = Some(i);
        } else {
            i = i - 1;
        }
    }
    match dot {
        None => {
            assert(last_dot(s) is None);
            None
        },
        Some(d) => {
            if n - (d + 1) == 4 && file_name.get_char(d + 1) == 'l' && file_name.get_char(d + 2)
                == 'u' && file_name.get_char(d + 3) == 'a' && file_name.get_char(d + 4) == 'u' {
                proof {
                    reveal_strlit("luau");
                    assert(s.skip(d + 1) =~= "luau"@);
                }
                let stem = file_name.substring_char(0, d);
                proof {
                    assert(stem@ =~= file_stem_of(s));
                }
                Some(stem.to_owned())
            } else {
                proof {
                    reveal_strlit("luau");
                    assert(s.skip(d + 1) != "luau"@) by {
                        if s.skip(d + 1) == "luau"@ {
                            assert(s.skip(d + 1).len() == 4);
                            assert(s[d + 1] == "luau"@[0]);
                            assert(s[d + 2] == "luau"@[1]);
                            assert(s[d + 3] == "luau"@[2]);
                            assert(s[d + 4] == "luau"@[3]);
                        }
                    }
                }
                None
            }
        },
    }
}

struct RegistryEntry {
    name: String,
    tool: DiscoveredTool,
}

/// The name-to-script mapping built from the entries, first entry winning
/// a name (duplicate stems cannot arise from one directory scan).
spec fn entries_map(s: Seq<RegistryEntry>) -> Map<Seq<char>, Seq<char>>
    decreases s.len(),
{
    if s.len() == 0 {
        Map::empty()
    } else {
        let m = entries_map(s.drop_last());
        if m.contains_key(s.last().name@) {
            m
        } else {
            m.insert(s.last().name@, s.last().tool.file_path@)
        }
    }
}

proof fn lemma_entries_map_contains(s: Seq<RegistryEntry>, k: Seq<char>)
    ensures
        entries_map(s).contains_key(k) <==> (exists|i: int| 0 <= i < s.len() && s[i].name@ == k),
    decreases s.len(),
{
    if s.len() > 0 {
        lemma_entries_map_contains(s.drop_last(), k);
        if entries_map(s).contains_key(k) {
            if s.last().name@ == k {
                assert(s[s.len() - 1].name@ == k);
            } else {
                let i = choose|i: int| 0 <= i < s.drop_last().len() && s.drop_last()[i].name@ == k;
                assert(s[i].name@ == k);
            }
        }
        if exists|i: int| 0 <= i < s.len() && s[i].name@ == k {
            let i = choose|i: int| 0 <= i < s.len() && s[i].name@ == k;
            if i < s.len() - 1 {
                assert(s.drop_last()[i].name@ == k);
            }
        }
    }
}

/// The read-only registry of discovered tools, shared with the MCP facade.
/// Its view is the name-to-script-path mapping.
pub struct ToolRegistry {
    entries: Vec<RegistryEntry>,
}

impl View for ToolRegistry {
    type V = Map<Seq<char>, Seq<char>>;

    closed spec fn view(&self) -> Map<Seq<char>, Seq<char>> {
        entries_map(self.entries@)
    }
}

impl ToolRegistry {
    /// The registered names, in registration order.
    pub closed spec fn name_seq(self) -> Seq<Seq<char>> {
        self.entries@.map_values(|e: RegistryEntry| e.name@)
    }

    /// An empty registry, also what a failed directory scan degrades to.
    pub fn new() -> (r: ToolRegistry)
        ensures
            r@ == Map::<Seq<char>, Seq<char>>::empty(),
            r.name_seq() == Seq::<Seq<char>>::empty(),
    {
        let r = ToolRegistry { entries: Vec::new() };
        proof {
            assert(r.name_seq() =~= Seq::<Seq<char>>::empty());
        }
        r
    }

    /// Whether a tool of this name was discovered.
    pub fn contains_tool(&self, name: &str) -> (r: bool)
        ensures
            r == self@.contains_key(name@),
    {
        let mut i: usize = 0;
        while i < self.entries.len()
            invariant
                i <= self.entries.len(),
                forall|j: int| 0 <= j < i ==> self.entries@[j].name@ != name@,
            decreases self.entries.len() - i,
        {
            if str_equal(self.entries[i].name.as_str(), name) {
                proof {
                    lemma_entries_map_contains(self.entries@, name@);
                }
                return true;
            }
            i = i + 1;
        }
        proof {
            lemma_entries_map_contains(self.entries@, name@);
        }
        false
    }

    /// Registers a tool unless its name is already taken.
    fn insert_tool(&mut self, name: String, tool: DiscoveredTool)
        ensures
            old(self)@.contains_key(name@) ==> ({
                &&& final(self)@ == old(self)@
                &&& final(self).name_seq() == old(self).name_seq()
            }),
            !old(self)@.contains_key(name@) ==> ({
                &&& final(self)@ == old(self)@.insert(name@, tool.file_path@)
                &&& final(self).name_seq() == old(self).name_seq().push(name@)
            }),
    {
        let ghost pre = self.entries@;
        if !self.contains_tool(name.as_str()) {
            let ghost name_view = name@;
            self.entries.push(RegistryEntry { name, tool });
            proof {
                assert(self.entries@.drop_last() =~= pre);
                assert(self.name_seq() =~= old(self).name_seq().push(name_view));
            }
        }
    }

    /// The discovered tool names, for capability advertisement.
    pub fn tool_names(&self) -> (names: Vec<String>)
        ensures
            names@.len() == self.name_seq().len(),
            forall|j: int| 0 <= j < names@.len() ==> (#[trigger] names@[j])@ == self.name_seq()[j],
    {
        let mut names: Vec<String> = Vec::new();
        let mut i: usize = 0;
        while i < self.entries.len()
            invariant
                i <= self.entries.len(),
                names@.len() == i,
                forall|j: int|
                    0 <= j < i ==> (#[trigger] names@[j])@ == self.entries@[j].name@,
            decreases self.entries.len() - i,
        {
            names.push(self.entries[i].name.clone());
            i = i + 1;
        }
        names
    }

    /// Every registered name names a tool in the registry, and conversely.
    pub proof fn lemma_names_cover_registry(self)
        ensures
            forall|k: Seq<char>| self.name_seq().contains(k) <==> self@.contains_key(k),
    {
        assert forall|k: Seq<char>| self.name_seq().contains(k) <==> self@.contains_key(
            k,
        ) by {
            lemma_entries_map_contains(self.entries@, k);
            if self.name_seq().contains(k) {
                let i = choose|i: int|
                    0 <= i < self.name_seq().len() && self.name_seq()[i] == k;
                assert(self.entries@[i].name@ == k);
            }
            if exists|i: int| 0 <= i < self.entries@.len() && self.entries@[i].name@ == k {
                let i = choose|i: int|
                    0 <= i < self.entries@.len() && self.entries@[i].name@ == k;
                assert(self.name_seq()[i] == k);
            }
        }
    }
}

/// The registry a scan of the given entries produces: each regular file
/// with extension `luau`, keyed by stem, first entry winning a name.
pub open spec fn registry_map_of(entries: Seq<DirEntryRecord>) -> Map<Seq<char>, Seq<char>>
    decreases entries.len(),
{
    if entries.len() == 0 {
        Map::empty()
    } else {
        let m = registry_map_of(entries.drop_last());
        let e = entries.last();
        if e.is_file && luau_stem_spec(e.file_name@) is Some && !m.contains_key(
            luau_stem_spec(e.file_name@)->0,
        ) {
            m.insert(luau_stem_spec(e.file_name@)->0, e.file_path@)
        } else {
            m
        }
    }
}

/// The tool names the same scan registers: the stems of the kept files, in
/// scan order, each name once at its first occurrence.
pub open spec fn registry_names_of(entries: Seq<DirEntryRecord>) -> Seq<Seq<char>>
    decreases entries.len(),
{
    if entries.len() == 0 {
        Seq::empty()
    } else {
        let names = registry_names_of(entries.drop_last());
        let e = entries.last();
        if e.is_file && luau_stem_spec(e.file_name@) is Some && !registry_map_of(
            entries.drop_last(),
        ).contains_key(luau_stem_spec(e.file_name@)->0) {
            names.push(luau_stem_spec(e.file_name@)->0)
        } else {
            names
        }
    }
}

/// Builds the registry from the scanner's entry records.
pub fn build_tool_registry(entries: Vec<DirEntryRecord>) -> (r: ToolRegistry)
    ensures
        r@ == registry_map_of(entries@),
        r.name_seq() == registry_names_of(entries@),
{
    let mut reg = ToolRegistry::new();
    let mut i: usize = 0;
    while i < entries.len()
        invariant
            i <= entries.len(),
            reg@ == registry_map_of(entries@.take(i as int)),
            reg.name_seq() == registry_names_of(entries@.take(i as int)),
        decreases entries.len() - i,
    {
        proof {
            assert(entries@.take(i + 1).drop_last() =~= entries@.take(i as int));
            assert(entries@.take(i + 1).last() == entries@[i as int]);
        }
        let e = &entries[i];
        if e.is_file {
            match luau_tool_stem(e.file_name.as_str()) {
                Some(stem) => {
                    reg.insert_tool(stem, DiscoveredTool { file_path: e.file_path.clone() });
                },
                None => {},
            }
        }
        i = i + 1;
    }
    proof {
        assert(entries@.take(entries@.len() as int) =~= entries@);
    }
    reg
}

} // verus!
