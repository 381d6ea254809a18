//! Content of the key/value list widget.

use vstd::prelude::*;

verus! {

/// One row in view: key, value and the unit written after the value.
pub type RowView = (Seq<char>, Seq<char>, Option<Seq<char>>);

/// A list of labelled values, each optionally followed by a unit.
#[derive(Clone, Debug)]
pub struct KeyValueView {
    kv_store: Vec<(String, String, Option<String>)>,
}

/// The view of one stored row.
pub open spec fn row_view(row: (String, String, Option<String>)) -> RowView {
    (
        row.0@,
        row.1@,
        match row.2 {
            Some(u) => Some(u@),
            None => None,
        },
    )
}

/// The value text of a row: the value, then its unit.
pub open spec fn value_text(row: RowView) -> Seq<char> {
    match row.2 {
        Some(u) => row.1 + u,
        None => row.1,
    }
}

impl View for KeyValueView {
    type V = Seq<RowView>;

    closed spec fn view(&self) -> Seq<RowView> {
        self.kv_store@.map_values(|row: (String, String, Option<String>)| row_view(row))
    }
}

impl KeyValueView {
    pub fn new() -> (r: KeyValueView)
        ensures
            r@ == Seq::<RowView>::empty(),
    {
        let r = KeyValueView { kv_store: Vec::new() };
        assert(r@ =~= Seq::<RowView>::empty());
        r
    }

    /// Appends a row without a unit.
    pub fn add_item(&mut self, key: &str, val: &str)
        ensures
            final(self)@ == old(self)@.push((key@, val@, None)),
    {
        self.kv_store.push((String::from_str(key), String::from_str(val), None));
        assert(self@ =~= old(self)@.push((key@, val@, None)));
    }

    /// Appends a row whose value is followed by `units`.
    pub fn add_item_with_units(&mut self, key: &str, val: &str, units: &str)
        ensures
            final(self)@ == old(self)@.push((key@, val@, Some(units@))),
    {
        self.kv_store.push((String::from_str(key), String::from_str(val), Some(String::from_str(units))));
        assert(self@ =~= old(self)@.push((key@, val@, Some(units@))));
    }

    pub fn len(&self) -> (r: usize)
        ensures
            r == self@.len(),
    {
        self.kv_store.len()
    }

    /// The key and the value text of row `i`.
    pub fn row_text(&self, i: usize) -> (r: (String, String))
        requires
            i < self@.len(),
        ensures
            r.0@ == self@[i as int].0,
            r.1@ == value_text(self@[i as int]),
    {
        let row = &self.kv_store[i];
        let key = row.0.clone();
        let mut value = row.1.clone();
        match &row.2 {
            Some(u) => value.append(u.as_str()),
            None => {},
        }
        (key, value)
    }
}

} // verus!
