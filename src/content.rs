use vstd::prelude::*;

verus! {

/// The value that a task wrote into a cell. `None` is the empty sentinel that
/// an untracked snapshot returns when the cell holds no value.
#[derive(Clone, Debug)]
pub struct CellContent(pub Option<String>);

impl View for CellContent {
    type V = Option<Seq<char>>;

    open spec fn view(&self) -> Option<Seq<char>> {
        match self.0 {
            Some(s) => Some(s@),
            None => None,
        }
    }
}

impl CellContent {
    /// The empty sentinel.
    pub fn empty() -> (r: CellContent)
        ensures
            r@ == None::<Seq<char>>,
    {
        CellContent(None)
    }

    pub fn from_string(s: String) -> (r: CellContent)
        ensures
            r@ == Some(s@),
    {
        CellContent(Some(s))
    }

    /// A copy that holds the same value.
    pub fn snapshot(&self) -> (r: CellContent)
        ensures
            r@ == self@,
    {
        match &self.0 {
            Some(s) => CellContent(Some(s.clone())),
            None => CellContent(None),
        }
    }

    /// Whether two contents hold the same value.
    pub fn same_as(&self, other: &CellContent) -> (r: bool)
        ensures
            r == (self@ == other@),
    {
        match (&self.0, &other.0) {
            (Some(a), Some(b)) => *a == *b,
            (None, None) => true,
            _ => false,
        }
    }
}

impl PartialEq for CellContent {
    fn eq(&self, other: &CellContent) -> (r: bool) {
        self.same_as(other)
    }
}

impl vstd::std_specs::cmp::PartialEqSpecImpl for CellContent {
    open spec fn obeys_eq_spec() -> bool {
        true
    }

    open spec fn eq_spec(&self, other: &CellContent) -> bool {
        self@ == other@
    }
}

} // verus!
