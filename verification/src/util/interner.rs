//! String interning: each distinct text gets one small identifier.

use vstd::prelude::*;

verus! {

/// The identifier of an interned string. `StringId(0)` is the empty string.
#[derive(Clone, Copy, PartialEq, Eq, Structural, Debug)]
pub struct StringId(pub u32);

/// A table of distinct strings, addressed by `StringId`.
pub struct Interner {
    strings: Vec<String>,
}

/// The first position at or after `from` that holds a text, or the table's length.
pub open spec fn first_at(table: Seq<Seq<char>>, text: Seq<char>, from: nat) -> nat
    decreases table.len() - from,
{
    if from >= table.len() {
        table.len()
    } else if table[from as int] == text {
        from
    } else {
        first_at(table, text, from + 1)
    }
}

/// The table after a text was interned.
pub open spec fn interned(table: Seq<Seq<char>>, text: Seq<char>) -> Seq<Seq<char>> {
    if first_at(table, text, 0) < table.len() {
        table
    } else {
        table.push(text)
    }
}

/// The identifier that a text has once it is interned: the position of its entry.
pub open spec fn id_of(table: Seq<Seq<char>>, text: Seq<char>) -> StringId {
    StringId(first_at(table, text, 0) as u32)
}

/// The text behind an identifier, empty where the table has no such entry.
pub open spec fn text_of(table: Seq<Seq<char>>, id: StringId) -> Seq<char> {
    if id.0 < table.len() {
        table[id.0 as int]
    } else {
        Seq::empty()
    }
}

impl View for Interner {
    type V = Seq<Seq<char>>;

    closed spec fn view(&self) -> Seq<Seq<char>> {
        Seq::new(self.strings@.len(), |i: int| self.strings@[i]@)
    }
}

/// Two texts are the same text.
pub fn same_text(a: &str, b: &str) -> (same: bool)
    ensures
        same == (a@ == b@),
{
    let x: String = a.to_owned();
    let y: String = b.to_owned();
    x == y
}

impl Interner {
    /// A table that holds only the empty string.
    pub fn new() -> (interner: Self)
        ensures
            interner@ == seq![Seq::<char>::empty()],
    {
        let mut strings: Vec<String> = Vec::new();
        strings.push(String::new());
        let interner = Interner { strings };
        assert(interner@ =~= seq![Seq::<char>::empty()]);
        interner
    }

    /// The identifier of `text`, entering it into the table if it is new.
    pub fn intern(&mut self, text: &str) -> (id: StringId)
        ensures
            final(self)@ == interned(old(self)@, text@),
            id == id_of(old(self)@, text@),
    {
        let owned: String = text.to_owned();
        let mut i: usize = 0;
        while i < self.strings.len()
            invariant
                self@ == old(self)@,
                owned@ == text@,
                i <= self.strings.len(),
                self@.len() == self.strings.len(),
                first_at(self@, text@, 0) == first_at(self@, text@, i as nat),
            decreases self.strings.len() - i,
        {
            if self.strings[i] == owned {
                return StringId(i as u32);
            }
            i = i + 1;
        }
        let id: u32 = self.strings.len() as u32;
        proof {
            lemma_first_at(self@, text@, 0);
        }
        self.strings.push(owned);
        assert(self@ =~= old(self)@.push(text@));
        StringId(id)
    }

    /// Whether the table has an entry for `id`.
    pub fn has(&self, id: StringId) -> (result: bool)
        ensures
            result == (id.0 < self@.len()),
    {
        (id.0 as usize) < self.strings.len()
    }

    /// The text behind `id`.
    pub fn resolve(&self, id: StringId) -> (text: &str)
        requires
            id.0 < self@.len(),
        ensures
            text@ == self@[id.0 as int],
    {
        self.strings[id.0 as usize].as_str()
    }

    /// The text behind `id`, empty where the table has no such entry.
    pub fn text(&self, id: StringId) -> (text: &str)
        ensures
            text@ == text_of(self@, id),
    {
        if (id.0 as usize) < self.strings.len() {
            self.strings[id.0 as usize].as_str()
        } else {
            proof {
                reveal_strlit("");
            }
            assert(""@ =~= Seq::<char>::empty());
            ""
        }
    }
}

/// What `first_at` finds holds the text, and nothing before it does.
proof fn lemma_first_at(table: Seq<Seq<char>>, text: Seq<char>, from: nat)
    ensures
        first_at(table, text, from) <= table.len(),
        first_at(table, text, from) < table.len() ==> first_at(table, text, from) >= from
            && table[first_at(table, text, from) as int] == text,
        forall|j: int| from <= j < first_at(table, text, from) ==> table[j] != text,
    decreases table.len() - from,
{
    if from < table.len() && table[from as int] != text {
        lemma_first_at(table, text, from + 1);
    }
}

/// A text that a table lacks is found at the end once it was pushed.
proof fn lemma_first_at_pushed(table: Seq<Seq<char>>, text: Seq<char>, from: nat)
    requires
        from <= table.len(),
        first_at(table, text, from) >= table.len(),
    ensures
        first_at(table.push(text), text, from) == table.len(),
    decreases table.len() - from,
{
    if from < table.len() {
        lemma_first_at_pushed(table, text, from + 1);
    }
}

/// Interning never forgets: what an identifier stood for, it stands for afterwards.
pub proof fn law_intern_keeps(table: Seq<Seq<char>>, text: Seq<char>, id: StringId)
    requires
        id.0 < table.len(),
    ensures
        interned(table, text)[id.0 as int] == table[id.0 as int],
{
}

/// The identifier of a text resolves to the text, as long as identifiers fit in 32 bits.
pub proof fn law_resolve_intern(table: Seq<Seq<char>>, text: Seq<char>)
    requires
        table.len() <= u32::MAX,
    ensures
        text_of(interned(table, text), id_of(table, text)) == text,
{
    lemma_first_at(table, text, 0);
}

/// Interning the same text twice changes nothing the second time.
pub proof fn law_intern_idempotent(table: Seq<Seq<char>>, text: Seq<char>)
    ensures
        interned(interned(table, text), text) == interned(table, text),
        id_of(interned(table, text), text) == id_of(table, text),
{
    lemma_first_at(table, text, 0);
    if first_at(table, text, 0) >= table.len() {
        lemma_first_at_pushed(table, text, 0);
    }
}

/// Two texts share an identifier only if they are the same text, as long as identifiers
/// fit in 32 bits.
pub proof fn law_ids_distinct(table: Seq<Seq<char>>, a: Seq<char>, b: Seq<char>)
    requires
        table.len() < u32::MAX,
    ensures
        ({
            let after = interned(interned(table, a), b);
            id_of(after, a) == id_of(after, b) ==> a == b
        }),
{
    let one = interned(table, a);
    let after = interned(one, b);
    law_intern_idempotent(table, a);
    law_intern_idempotent(one, b);
    lemma_first_at(table, a, 0);
    lemma_first_at(one, b, 0);
    lemma_first_at(after, a, 0);
    lemma_first_at(after, b, 0);
    if first_at(after, a, 0) >= after.len() {
        assert(after[first_at(one, a, 0) as int] == a);
    }
}

} // verus!
