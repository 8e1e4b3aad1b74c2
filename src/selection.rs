use vstd::prelude::*;

verus! {

/// A set of selected names, with the one touched last (the anchor of range operations and
/// the target of a rename).
#[derive(Debug)]
pub struct MultiSelection {
    pub items: Vec<String>,
    pub last_touched_in_range: String,
}

pub struct NameSelectionModel {
    pub items: Seq<Seq<char>>,
    pub last_touched: Seq<char>,
}

impl View for MultiSelection {
    type V = NameSelectionModel;

    open spec fn view(&self) -> NameSelectionModel {
        NameSelectionModel {
            items: self.items@.map_values(|s: String| s@),
            last_touched: self.last_touched_in_range@,
        }
    }
}

impl Clone for MultiSelection {
    fn clone(&self) -> (r: MultiSelection)
        ensures
            r@ == self@,
    {
        let r = MultiSelection {
            items: self.items.clone(),
            last_touched_in_range: self.last_touched_in_range.clone(),
        };
        assert(r@.items =~= self@.items);
        r
    }
}

impl MultiSelection {
    /// A selection of `items`, the last of which counts as touched last.
    pub fn new(items: Vec<String>) -> (r: MultiSelection)
        requires
            items@.len() > 0,
        ensures
            r@.items == items@.map_values(|s: String| s@),
            r@.last_touched == items@.last()@,
    {
        let last = items[items.len() - 1].clone();
        MultiSelection { items, last_touched_in_range: last }
    }

    /// A selection of one name.
    pub fn single(item: String) -> (r: MultiSelection)
        ensures
            r@.items == seq![item@],
            r@.last_touched == item@,
    {
        let last = item.clone();
        let mut items = Vec::new();
        items.push(item);
        let r = MultiSelection { items, last_touched_in_range: last };
        assert(r@.items =~= seq![item@]);
        r
    }

    pub fn contains(&self, name: &String) -> (r: bool)
        ensures
            r == self@.items.contains(name@),
    {
        let mut i: usize = 0;
        while i < self.items.len()
            invariant
                0 <= i <= self.items@.len(),
                forall|j: int| 0 <= j < i ==> self@.items[j] != name@,
            decreases self.items@.len() - i,
        {
            if self.items[i] == *name {
                assert(self@.items[i as int] == name@);
                return true;
            }
            i += 1;
        }
        false
    }
}

/// A set of selected keyframe positions, with the one touched last.
#[derive(Debug)]
pub struct IndexSelection {
    pub items: Vec<usize>,
    pub last_touched_in_range: usize,
}

pub struct IndexSelectionModel {
    pub items: Seq<usize>,
    pub last_touched: usize,
}

impl View for IndexSelection {
    type V = IndexSelectionModel;

    open spec fn view(&self) -> IndexSelectionModel {
        IndexSelectionModel { items: self.items@, last_touched: self.last_touched_in_range }
    }
}

impl Clone for IndexSelection {
    fn clone(&self) -> (r: IndexSelection)
        ensures
            r@ == self@,
    {
        let r = IndexSelection {
            items: self.items.clone(),
            last_touched_in_range: self.last_touched_in_range,
        };
        assert(r@.items =~= self@.items);
        r
    }
}

impl IndexSelection {
    /// A selection of `items`, the last of which counts as touched last.
    pub fn new(items: Vec<usize>) -> (r: IndexSelection)
        requires
            items@.len() > 0,
        ensures
            r@.items == items@,
            r@.last_touched == items@.last(),
    {
        let last = items[items.len() - 1];
        IndexSelection { items, last_touched_in_range: last }
    }

    /// A selection of one keyframe.
    pub fn single(item: usize) -> (r: IndexSelection)
        ensures
            r@.items == seq![item],
            r@.last_touched == item,
    {
        let mut items = Vec::new();
        items.push(item);
        let r = IndexSelection { items, last_touched_in_range: item };
        assert(r@.items =~= seq![item]);
        r
    }

    pub fn contains(&self, index: usize) -> (r: bool)
        ensures
            r == self@.items.contains(index),
    {
        IndexSelection::contains_in(&self.items, index)
    }

    pub fn contains_in(items: &Vec<usize>, index: usize) -> (r: bool)
        ensures
            r == items@.contains(index),
    {
        let mut i: usize = 0;
        while i < items.len()
            invariant
                0 <= i <= items@.len(),
                forall|j: int| 0 <= j < i ==> items@[j] != index,
            decreases items@.len() - i,
        {
            if items[i] == index {
                assert(items@[i as int] == index);
                return true;
            }
            i += 1;
        }
        false
    }
}

/// What is selected, by the kind of its items.
#[derive(Debug)]
pub enum Selection {
    Frame(MultiSelection),
    Animation(MultiSelection),
    Hitbox(MultiSelection),
    Keyframe(IndexSelection),
}

pub enum SelectionModel {
    Frame(NameSelectionModel),
    Animation(NameSelectionModel),
    Hitbox(NameSelectionModel),
    Keyframe(IndexSelectionModel),
}

impl View for Selection {
    type V = SelectionModel;

    open spec fn view(&self) -> SelectionModel {
        match self {
            Selection::Frame(s) => SelectionModel::Frame(s@),
            Selection::Animation(s) => SelectionModel::Animation(s@),
            Selection::Hitbox(s) => SelectionModel::Hitbox(s@),
            Selection::Keyframe(s) => SelectionModel::Keyframe(s@),
        }
    }
}

impl Clone for Selection {
    fn clone(&self) -> (r: Selection)
        ensures
            r@ == self@,
    {
        match self {
            Selection::Frame(s) => Selection::Frame(s.clone()),
            Selection::Animation(s) => Selection::Animation(s.clone()),
            Selection::Hitbox(s) => Selection::Hitbox(s.clone()),
            Selection::Keyframe(s) => Selection::Keyframe(s.clone()),
        }
    }
}

pub open spec fn selection_model(s: Option<Selection>) -> Option<SelectionModel> {
    match s {
        Some(s) => Some(s@),
        None => None,
    }
}

pub fn same_names(a: &Vec<String>, b: &Vec<String>) -> (r: bool)
    ensures
        r == (a@.map_values(|s: String| s@) == b@.map_values(|s: String| s@)),
{
    if a.len() != b.len() {
        assert(a@.map_values(|s: String| s@).len() != b@.map_values(|s: String| s@).len());
        return false;
    }
    let mut i: usize = 0;
    while i < a.len()
        invariant
            a@.len() == b@.len(),
            0 <= i <= a@.len(),
            forall|j: int| 0 <= j < i ==> a@[j]@ == b@[j]@,
        decreases a@.len() - i,
    {
        if a[i] != b[i] {
            assert(a@.map_values(|s: String| s@)[i as int] != b@.map_values(|s: String| s@)[i as int]);
            return false;
        }
        i += 1;
    }
    assert(a@.map_values(|s: String| s@) =~= b@.map_values(|s: String| s@));
    true
}

impl MultiSelection {
    pub fn same_as(&self, o: &MultiSelection) -> (r: bool)
        ensures
            r == (self@ == o@),
    {
        same_names(&self.items, &o.items) && self.last_touched_in_range == o.last_touched_in_range
    }
}

impl IndexSelection {
    pub fn same_as(&self, o: &IndexSelection) -> (r: bool)
        ensures
            r == (self@ == o@),
    {
        let same_items = self.items == o.items;
        proof {
            if same_items {
                assert(self@.items =~= o@.items);
            }
        }
        same_items && self.last_touched_in_range == o.last_touched_in_range
    }
}

impl Selection {
    pub fn same_as(&self, o: &Selection) -> (r: bool)
        ensures
            r == (self@ == o@),
    {
        match (self, o) {
            (Selection::Frame(a), Selection::Frame(b)) => a.same_as(b),
            (Selection::Animation(a), Selection::Animation(b)) => a.same_as(b),
            (Selection::Hitbox(a), Selection::Hitbox(b)) => a.same_as(b),
            (Selection::Keyframe(a), Selection::Keyframe(b)) => a.same_as(b),
            _ => false,
        }
    }
}

} // verus!
