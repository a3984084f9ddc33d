//! Extensions: named groups of searchable keys stored with each game.
use vstd::prelude::*;
use crate::text::{append_str, string_of};
use crate::game::extmap::{exec_assoc_get, exec_assoc_set, exec_keys, find_key, index_of_key, lemma_exec_assoc_set_get, lemma_index_of_key};

verus! {

/// An index that an extension wants on its stored data.
#[derive(Clone, Debug)]
pub struct ExtensionIndex {
    pub name: String,
    pub key: String,
}

/// How the value behind an extension's searchable key is compared.
#[derive(Clone, Copy, Debug, PartialEq, Eq, Structural)]
pub enum ExtSearchableType {
    String,
    Boolean,
    Number,
}

/// A key of an extension's data that user searches may name.
#[derive(Clone, Debug)]
pub struct ExtSearchable {
    pub key: String,
    pub value_type: ExtSearchableType,
    pub search_key: String,
}

/// A searchable key as the registry stores it, with its owner.
#[derive(Clone, Debug)]
pub struct ExtSearchableRegistered {
    pub ext_id: String,
    pub key: String,
    pub value_type: ExtSearchableType,
}

/// What an extension declares about itself.
#[derive(Clone, Debug)]
pub struct ExtensionInfo {
    pub id: String,
    pub searchables: Vec<ExtSearchable>,
    pub indexes: Vec<ExtensionIndex>,
}

/// Registered extensions, and the search keys they own, each keyed by name.
pub struct ExtensionRegistry {
    extensions: Vec<(String, ExtensionInfo)>,
    pub searchables: Vec<(String, ExtSearchableRegistered)>,
}

/// The registry entry that `s`, owned by extension `ext_id`, produces.
pub open spec fn registered_of(ext_id: String, s: ExtSearchable) -> ExtSearchableRegistered {
    ExtSearchableRegistered { ext_id: ext_id, key: s.key, value_type: s.value_type }
}

/// Search keys after registering the searchables `ss` of extension `ext_id`,
/// in order: each binds its search key, replacing an earlier binding.
pub open spec fn searchables_after(
    m: Seq<(String, ExtSearchableRegistered)>,
    ext_id: String,
    ss: Seq<ExtSearchable>,
) -> Seq<(String, ExtSearchableRegistered)>
    decreases ss.len(),
{
    if ss.len() == 0 {
        m
    } else {
        exec_assoc_set(
            searchables_after(m, ext_id, ss.drop_last()),
            ss.last().search_key,
            registered_of(ext_id, ss.last()),
        )
    }
}

impl ExtensionRegistry {
    /// The registered extensions, keyed by id.
    pub closed spec fn extensions(&self) -> Seq<(String, ExtensionInfo)> {
        self.extensions@
    }

    /// The registered search keys.
    pub closed spec fn searchables_map(&self) -> Seq<(String, ExtSearchableRegistered)> {
        self.searchables@
    }

    /// An empty registry.
    pub fn new() -> (r: Self)
        ensures
            r.extensions().len() == 0,
            r.searchables_map().len() == 0,
    {
        ExtensionRegistry { extensions: Vec::new(), searchables: Vec::new() }
    }

    /// Registers `ext`: each of its searchables is bound under its search key
    /// (replacing an earlier binding of that key), and `ext` under its id.
    pub fn register_ext(&mut self, ext: ExtensionInfo)
        ensures
            final(self).searchables_map() == searchables_after(old(self).searchables_map(), ext.id, ext.searchables@),
            final(self).extensions() == exec_assoc_set(old(self).extensions(), ext.id, ext),
    {
        let mut i: usize = 0;
        while i < ext.searchables.len()
            invariant
                i <= ext.searchables@.len(),
                self.searchables@ == searchables_after(
                    old(self).searchables@,
                    ext.id,
                    ext.searchables@.take(i as int),
                ),
                self.extensions@ == old(self).extensions@,
            decreases ext.searchables.len() - i,
        {
            let s = &ext.searchables[i];
            let reg = ExtSearchableRegistered {
                ext_id: ext.id.clone(),
                key: s.key.clone(),
                value_type: s.value_type,
            };
            assoc_set_exec(&mut self.searchables, s.search_key.clone(), reg);
            proof {
                assert(ext.searchables@.take(i + 1).drop_last() =~= ext.searchables@.take(i as int));
            }
            i = i + 1;
        }
        assert(ext.searchables@.take(i as int) =~= ext.searchables@);
        let id = ext.id.clone();
        assoc_set_exec(&mut self.extensions, id, ext);
    }
}

impl Default for ExtensionRegistry {
    fn default() -> (r: Self)
        ensures
            r.extensions().len() == 0,
            r.searchables_map().len() == 0,
    {
        ExtensionRegistry::new()
    }
}

/// Binds `k` to `v` in a map with `String` keys.
pub fn assoc_set_exec<V>(m: &mut Vec<(String, V)>, k: String, v: V)
    ensures
        final(m)@ == exec_assoc_set(old(m)@, k, v),
{
    proof {
        lemma_index_of_key(exec_keys(m@), k@, 0);
    }
    match find_key(m, &k) {
        Some(i) => {
            let ghost before = m@;
            let _old = m.remove(i);
            let ghost entry = (k, v);
            m.insert(i, (k, v));
            assert(m@ =~= before.update(i as int, entry));
        },
        None => {
            m.push((k, v));
        },
    }
}

/// Looking up the search keys of a newly registered extension: every key
/// whose last declaration in the extension is at position `j` resolves to
/// that declaration; keys the extension does not declare keep their binding.
pub proof fn law_register_lookup(
    m: Seq<(String, ExtSearchableRegistered)>,
    ext_id: String,
    ss: Seq<ExtSearchable>,
    k: Seq<char>,
)
    ensures
        (forall|j: int| 0 <= j < ss.len() ==> ss[j].search_key@ != k) ==> exec_assoc_get(
            searchables_after(m, ext_id, ss),
            k,
        ) == exec_assoc_get(m, k),
        forall|j: int|
            0 <= j < ss.len() && ss[j].search_key@ == k && (forall|l: int|
                j < l < ss.len() ==> ss[l].search_key@ != k) ==> exec_assoc_get(
                searchables_after(m, ext_id, ss),
                k,
            ) == Some(registered_of(ext_id, #[trigger] ss[j])),
    decreases ss.len(),
{
    if ss.len() > 0 {
        let prev = ss.drop_last();
        law_register_lookup(m, ext_id, prev, k);
        lemma_exec_assoc_set_get(
            searchables_after(m, ext_id, prev),
            ss.last().search_key,
            registered_of(ext_id, ss.last()),
            k,
        );
        assert forall|j: int|
            0 <= j < ss.len() && ss[j].search_key@ == k && (forall|l: int|
                j < l < ss.len() ==> ss[l].search_key@ != k) implies exec_assoc_get(
            searchables_after(m, ext_id, ss),
            k,
        ) == Some(registered_of(ext_id, #[trigger] ss[j])) by {
            if j < ss.len() - 1 {
                assert(prev[j] == ss[j]);
                assert forall|l: int| j < l < prev.len() implies prev[l].search_key@ != k by {
                    assert(prev[l] == ss[l]);
                }
                assert(ss[ss.len() - 1].search_key@ != k);
            }
        }
        if forall|j: int| 0 <= j < ss.len() ==> ss[j].search_key@ != k {
            assert forall|j: int| 0 <= j < prev.len() implies prev[j].search_key@ != k by {
                assert(prev[j] == ss[j]);
            }
            assert(ss[ss.len() - 1].search_key@ != k);
        }
    }
}

/// The statement that creates the index `name` on `key` of extension
/// `ext_id`, unless it exists already.
pub open spec fn index_statement(ext_id: Seq<char>, name: Seq<char>, key: Seq<char>) -> Seq<char> {
    "CREATE INDEX IF NOT EXISTS idx_ext_"@ + ext_id + "_"@ + name
        + " on ext_data(extId, JSON_EXTRACT(data, '$."@ + key + "'))"@
}

/// The statements that create the indexes an extension declares, in the
/// order it declares them.
pub fn ext_index_statements(ext: &ExtensionInfo) -> (r: Vec<String>)
    ensures
        r@.len() == ext.indexes@.len(),
        forall|i: int|
            0 <= i < r@.len() ==> (#[trigger] r@[i])@ == index_statement(
                ext.id@,
                ext.indexes@[i].name@,
                ext.indexes@[i].key@,
            ),
{
    let mut r: Vec<String> = Vec::new();
    let mut i: usize = 0;
    while i < ext.indexes.len()
        invariant
            i <= ext.indexes@.len(),
            r@.len() == i,
            forall|j: int|
                0 <= j < i ==> (#[trigger] r@[j])@ == index_statement(
                    ext.id@,
                    ext.indexes@[j].name@,
                    ext.indexes@[j].key@,
                ),
        decreases ext.indexes.len() - i,
    {
        let ix = &ext.indexes[i];
        let mut c: Vec<char> = Vec::new();
        append_str(&mut c, "CREATE INDEX IF NOT EXISTS idx_ext_");
        append_str(&mut c, ext.id.as_str());
        append_str(&mut c, "_");
        append_str(&mut c, ix.name.as_str());
        append_str(&mut c, " on ext_data(extId, JSON_EXTRACT(data, '$.");
        append_str(&mut c, ix.key.as_str());
        append_str(&mut c, "'))");
        r.push(string_of(&c));
        i = i + 1;
    }
    r
}

} // verus!
