use vstd::prelude::*;

verus! {

/// The values of a sequence of strings, in the same order.
pub open spec fn text_views(texts: Seq<String>) -> Seq<Seq<char>> {
    Seq::new(texts.len(), |i: int| texts[i]@)
}

/// One struct of the source description: its identifier and the name of the
/// symbol that stands for it in the header.
#[derive(Debug, Clone, PartialEq, Eq)]
pub struct NameEntry {
    pub identifier: String,
    pub symbol: String,
}

/// The ordered mapping from struct identifiers to header symbols.
#[derive(Debug, Clone, PartialEq, Eq)]
pub struct NameMapping {
    pub entries: Vec<NameEntry>,
}

impl View for NameMapping {
    type V = Seq<(Seq<char>, Seq<char>)>;

    open spec fn view(&self) -> Seq<(Seq<char>, Seq<char>)> {
        Seq::new(self.entries@.len(), |i: int| (self.entries@[i].identifier@, self.entries@[i].symbol@))
    }
}

/// The symbols of a mapping, entry by entry.
pub open spec fn symbols_of(mapping: Seq<(Seq<char>, Seq<char>)>) -> Seq<Seq<char>> {
    Seq::new(mapping.len(), |i: int| mapping[i].1)
}

impl NameMapping {
    /// The symbol whitelist for the header bridge: the symbol of every entry,
    /// in the order of the entries, and nothing else.
    pub fn symbols(&self) -> (list: Vec<String>)
        ensures
            text_views(list@) == symbols_of(self@),
    {
        let mut list: Vec<String> = Vec::new();
        let mut i: usize = 0;
        while i < self.entries.len()
            invariant
                i <= self.entries.len(),
                list@.len() == i,
                forall|k: int| 0 <= k < i ==> (#[trigger] list@[k])@ == self.entries@[k].symbol@,
            decreases self.entries.len() - i,
        {
            list.push(self.entries[i].symbol.clone());
            i = i + 1;
        }
        assert(text_views(list@) =~= symbols_of(self@));
        list
    }
}

/// The whitelist is exact: a name is on it if and only if it is the symbol of
/// some entry of the mapping.
pub proof fn lemma_whitelist_exact(mapping: Seq<(Seq<char>, Seq<char>)>, name: Seq<char>)
    ensures
        symbols_of(mapping).contains(name) <==> (exists|i: int|
            0 <= i < mapping.len() && (#[trigger] mapping[i]).1 == name),
{
    let list = symbols_of(mapping);
    if list.contains(name) {
        let i = choose|i: int| 0 <= i < list.len() && list[i] == name;
        assert(mapping[i].1 == name);
    }
    if exists|i: int| 0 <= i < mapping.len() && (#[trigger] mapping[i]).1 == name {
        let i = choose|i: int| 0 <= i < mapping.len() && (#[trigger] mapping[i]).1 == name;
        assert(list[i] == name);
    }
}

} // verus!
