//! Items of the record store: attributes by name.

use vstd::prelude::*;

verus! {

/// One attribute of a stored item: a text, a number written as text, neither
/// or both.
#[derive(Debug, PartialEq, Eq)]
pub struct AttributeValue {
    /// The attribute as a text.
    pub s: Option<String>,
    /// The attribute as a number. The store transmits numbers as text.
    pub n: Option<String>,
}

/// An attribute as plain values.
pub struct AttributeValueView {
    pub s: Option<Seq<char>>,
    pub n: Option<Seq<char>>,
}

impl View for AttributeValue {
    type V = AttributeValueView;

    open spec fn view(&self) -> AttributeValueView {
        AttributeValueView { s: self.s.deep_view(), n: self.n.deep_view() }
    }
}

impl AttributeValueView {
    /// The attribute that is the text `value` and nothing else.
    pub open spec fn text(value: Seq<char>) -> AttributeValueView {
        AttributeValueView { s: Some(value), n: None }
    }
}

impl Default for AttributeValue {
    fn default() -> (r: Self)
        ensures
            r.s is None,
            r.n is None,
    {
        AttributeValue { s: None, n: None }
    }
}

impl Clone for AttributeValue {
    fn clone(&self) -> (r: Self)
        ensures
            r == *self,
    {
        AttributeValue { s: self.s.clone(), n: self.n.clone() }
    }
}

/// The attributes of an item, by name: pairs of a name and a text.
pub type AttributeValueStringEntry = (String, String);

/// A map from attribute names to attributes. A name that is inserted again
/// gets the later attribute.
#[derive(Debug)]
pub struct AttributeValueMap {
    entries: Vec<(String, AttributeValue)>,
}

/// The map that inserting `entries` one after the other makes.
pub open spec fn map_of_entries(entries: Seq<(Seq<char>, AttributeValueView)>) -> Map<
    Seq<char>,
    AttributeValueView,
>
    decreases entries.len(),
{
    if entries.len() == 0 {
        Map::empty()
    } else {
        map_of_entries(entries.drop_last()).insert(entries.last().0, entries.last().1)
    }
}

/// The map that inserting each text of `entries` under its name makes.
pub open spec fn map_of_texts(entries: Seq<(Seq<char>, Seq<char>)>) -> Map<
    Seq<char>,
    AttributeValueView,
>
    decreases entries.len(),
{
    if entries.len() == 0 {
        Map::empty()
    } else {
        map_of_texts(entries.drop_last()).insert(
            entries.last().0,
            AttributeValueView::text(entries.last().1),
        )
    }
}

/// Name and attribute of each pair as plain values.
pub open spec fn entries_view(entries: Seq<(String, AttributeValue)>) -> Seq<
    (Seq<char>, AttributeValueView),
> {
    entries.map_values(|entry: (String, AttributeValue)| (entry.0@, entry.1@))
}

/// Name and text of each pair as plain values.
pub open spec fn texts_view(entries: Seq<AttributeValueStringEntry>) -> Seq<
    (Seq<char>, Seq<char>),
> {
    entries.map_values(|entry: AttributeValueStringEntry| (entry.0@, entry.1@))
}

impl View for AttributeValueMap {
    type V = Map<Seq<char>, AttributeValueView>;

    closed spec fn view(&self) -> Map<Seq<char>, AttributeValueView> {
        map_of_entries(entries_view(self.entries@))
    }
}

impl AttributeValueMap {
    /// The map without attributes.
    pub fn new() -> (r: Self)
        ensures
            r@ == Map::<Seq<char>, AttributeValueView>::empty(),
    {
        let r = AttributeValueMap { entries: Vec::new() };
        assert(entries_view(r.entries@) =~= Seq::empty());
        r
    }

    /// Puts `value` under `key`, in place of what was there.
    pub fn insert(&mut self, key: String, value: AttributeValue)
        ensures
            final(self)@ == old(self)@.insert(key@, value@),
    {
        self.entries.push((key, value));
        assert(entries_view(self.entries@).drop_last() =~= entries_view(old(self).entries@));
    }

    /// The attribute under `key`.
    pub fn get(&self, key: &str) -> (r: Option<&AttributeValue>)
        ensures
            match r {
                Some(value) => self@.contains_key(key@) && self@[key@] == value@,
                None => !self@.contains_key(key@),
            },
    {
        let wanted = key.to_owned();
        let ghost all = entries_view(self.entries@);
        let mut i: usize = self.entries.len();
        assert(all.take(i as int) =~= all);
        while i > 0
            invariant
                i <= self.entries.len(),
                wanted@ == key@,
                all == entries_view(self.entries@),
                map_of_entries(all).contains_key(key@) <==> map_of_entries(
                    all.take(i as int),
                ).contains_key(key@),
                map_of_entries(all).contains_key(key@) ==> map_of_entries(all)[key@]
                    == map_of_entries(all.take(i as int))[key@],
            decreases i,
        {
            i = i - 1;
            assert(all.take(i + 1).drop_last() =~= all.take(i as int));
            if self.entries[i].0 == wanted {
                return Some(&self.entries[i].1);
            }
        }
        assert(all.take(0) =~= Seq::empty());
        None
    }

    /// Every pair that was inserted, in the order of insertion. Inserting
    /// them in that order into an empty map gives this map again.
    pub fn entries(&self) -> (r: &Vec<(String, AttributeValue)>)
        ensures
            map_of_entries(entries_view(r@)) == self@,
    {
        &self.entries
    }

    /// The map with one attribute: the text `value` under `key`.
    pub fn with_entry(key: &str, value: String) -> (r: AttributeValueMap)
        ensures
            r@ == Map::<Seq<char>, AttributeValueView>::empty().insert(
                key@,
                AttributeValueView::text(value@),
            ),
    {
        let mut attrs = AttributeValueMap::new();
        attrs.insert(key.to_owned(), AttributeValue { s: Some(value), n: None });
        attrs
    }

    /// The map with a text attribute for each pair of a name and a text. Of
    /// two pairs with one name the later one counts.
    pub fn with_entries(entries: Vec<AttributeValueStringEntry>) -> (r: AttributeValueMap)
        ensures
            r@ == map_of_texts(texts_view(entries@)),
    {
        let mut attrs = AttributeValueMap::new();
        let ghost all = texts_view(entries@);
        let mut i: usize = 0;
        while i < entries.len()
            invariant
                i <= entries.len(),
                all == texts_view(entries@),
                attrs@ == map_of_texts(all.take(i as int)),
            decreases entries.len() - i,
        {
            let key = entries[i].0.clone();
            let value = entries[i].1.clone();
            attrs.insert(key, AttributeValue { s: Some(value), n: None });
            i = i + 1;
            assert(all.take(i as int).drop_last() =~= all.take(i - 1));
        }
        assert(all.take(i as int) =~= all);
        attrs
    }
}

impl Clone for AttributeValueMap {
    fn clone(&self) -> (r: Self)
        ensures
            r@ == self@,
    {
        let mut entries: Vec<(String, AttributeValue)> = Vec::new();
        let mut i: usize = 0;
        while i < self.entries.len()
            invariant
                i <= self.entries.len(),
                entries@ == self.entries@.take(i as int),
            decreases self.entries.len() - i,
        {
            let key = self.entries[i].0.clone();
            let value = self.entries[i].1.clone();
            entries.push((key, value));
            i = i + 1;
            assert(entries@ =~= self.entries@.take(i as int));
        }
        assert(self.entries@.take(i as int) =~= self.entries@);
        AttributeValueMap { entries }
    }
}

/// The text of the attribute `key` of `item`, where `item` has such an
/// attribute and it is a text.
pub open spec fn text_of(item: Map<Seq<char>, AttributeValueView>, key: Seq<char>) -> Option<
    Seq<char>,
> {
    if item.contains_key(key) {
        item[key].s
    } else {
        None
    }
}

/// The number of the attribute `key` of `item`, where `item` has such an
/// attribute and it is a number.
pub open spec fn number_of(item: Map<Seq<char>, AttributeValueView>, key: Seq<char>) -> Option<
    Seq<char>,
> {
    if item.contains_key(key) {
        item[key].n
    } else {
        None
    }
}

/// Reads the attributes of a stored item by name.
#[derive(Debug)]
pub struct DynamoItemWrapper {
    item: AttributeValueMap,
}

impl View for DynamoItemWrapper {
    type V = Map<Seq<char>, AttributeValueView>;

    closed spec fn view(&self) -> Map<Seq<char>, AttributeValueView> {
        self.item@
    }
}

impl DynamoItemWrapper {
    /// Wraps `item`.
    pub fn new(item: AttributeValueMap) -> (r: Self)
        ensures
            r@ == item@,
    {
        DynamoItemWrapper { item }
    }

    /// The text of the attribute `key`, or `error` where the item has no
    /// such attribute or the attribute is no text.
    pub fn s<E>(&self, key: &str, error: E) -> (r: Result<String, E>)
        ensures
            match text_of(self@, key@) {
                Some(text) => r matches Ok(found) && found@ == text,
                None => r == Err::<String, E>(error),
            },
    {
        match self.item.get(key) {
            Some(value) => match &value.s {
                Some(text) => Ok(text.clone()),
                None => Err(error),
            },
            None => Err(error),
        }
    }

    /// The number of the attribute `key`, as the text that the store holds,
    /// or `error` where the item has no such attribute or the attribute is
    /// no number.
    pub fn n<E>(&self, key: &str, error: E) -> (r: Result<String, E>)
        ensures
            match number_of(self@, key@) {
                Some(text) => r matches Ok(found) && found@ == text,
                None => r == Err::<String, E>(error),
            },
    {
        match self.item.get(key) {
            Some(value) => match &value.n {
                Some(text) => Ok(text.clone()),
                None => Err(error),
            },
            None => Err(error),
        }
    }
}

} // verus!
