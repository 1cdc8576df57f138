use vstd::prelude::*;

verus! {

/// A table row whose text columns a [`Filter`] can test.
pub trait Record<C> {
    /// The text held in `column`.
    spec fn field(&self, column: C) -> Seq<char>;

    /// The text held in `column`, read from the row.
    fn field_text(&self, column: &C) -> (text: &String)
        ensures
            text@ == self.field(*column),
    ;
}

/// A condition on the rows of one table, over its text columns `C`.
#[derive(Debug, PartialEq, Eq)]
pub enum Filter<C> {
    /// The column holds exactly this text.
    Eq(C, String),
    /// The column holds one of these texts.
    EqAny(C, Vec<String>),
    /// Both conditions hold.
    And(Box<Filter<C>>, Box<Filter<C>>),
    /// At least one condition holds.
    Or(Box<Filter<C>>, Box<Filter<C>>),
}

/// The texts held by a list of strings.
pub open spec fn texts(values: Seq<String>) -> Seq<Seq<char>> {
    values.map_values(|s: String| s@)
}

impl<C> Filter<C> {
    /// Whether `row` satisfies the filter.
    pub open spec fn holds<R: Record<C>>(self, row: R) -> bool
        decreases self,
    {
        match self {
            Filter::Eq(column, value) => row.field(column) == value@,
            Filter::EqAny(column, values) => texts(values@).contains(row.field(column)),
            Filter::And(a, b) => (*a).holds(row) && (*b).holds(row),
            Filter::Or(a, b) => (*a).holds(row) || (*b).holds(row),
        }
    }

    /// The filter accepts exactly the rows on which `wanted` is true.
    pub open spec fn selects<R: Record<C>>(self, wanted: spec_fn(R) -> bool) -> bool {
        forall|row: R| #[trigger] self.holds(row) == wanted(row)
    }

    /// The rows of `table` that satisfy the filter, in table order: what a
    /// query with this filter returns.
    pub open spec fn select<R: Record<C>>(self, table: Seq<R>) -> Seq<R> {
        table.filter(|row: R| self.holds(row))
    }

    /// Evaluates the filter on `row`.
    pub fn matches<R: Record<C>>(&self, row: &R) -> (b: bool)
        ensures
            b == self.holds(*row),
        decreases self,
    {
        match self {
            Filter::Eq(column, value) => {
                let text = row.field_text(column);
                *text == *value
            },
            Filter::EqAny(column, values) => {
                let text = row.field_text(column);
                let mut i: usize = 0;
                while i < values.len()
                    invariant
                        self.holds(*row) == texts(values@).contains(text@),
                        i <= values.len(),
                        text@ == row.field(*column),
                        forall|j: int| 0 <= j < i ==> values@[j]@ != text@,
                    decreases values.len() - i,
                {
                    if values[i] == *text {
                        assert(texts(values@)[i as int] == text@);
                        assert(texts(values@).contains(text@));
                        return true;
                    }
                    i = i + 1;
                }
                assert(!texts(values@).contains(text@)) by {
                    if texts(values@).contains(text@) {
                        let k = choose|k: int| 0 <= k < texts(values@).len() && texts(values@)[k] == text@;
                        assert(values@[k]@ == text@);
                    }
                }
                false
            },
            Filter::And(a, b) => {
                let x = a.matches(row);
                let y = b.matches(row);
                x && y
            },
            Filter::Or(a, b) => {
                let x = a.matches(row);
                let y = b.matches(row);
                x || y
            },
        }
    }
}

} // verus!
