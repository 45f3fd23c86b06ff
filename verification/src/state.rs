//! The state (generation) model: an immutable, numbered snapshot of package
//! selections, the unit of atomic rollback.

use vstd::prelude::*;

use crate::decimal::{dec_of_int, dec_string_signed};

verus! {

/// Unique identifier for a [`State`]: a 64-bit generation number,
/// monotonically assigned by the owning store and never reused.
#[derive(Debug, Clone, Copy, PartialEq, Eq, Structural)]
pub struct Id(pub i64);

/// What `next` yields: the successor id.
pub open spec fn next_spec(id: int) -> int {
    id + 1
}

impl Id {
    /// The next generation id.
    pub fn next(self) -> (r: Self)
        requires
            self.0 < i64::MAX,
        ensures
            r.0 as int == next_spec(self.0 as int),
    {
        Id(self.0 + 1)
    }

    /// The decimal string form of the id, exactly as it is embedded into
    /// kernel command lines: plain digits, no separators, no leading zeros.
    pub fn render(&self) -> (r: String)
        ensures
            r@ == dec_of_int(self.0 as int),
    {
        dec_string_signed(self.0)
    }
}

impl Default for Id {
    /// The id of the empty store: generation zero.
    fn default() -> (r: Self)
        ensures
            r.0 == 0,
    {
        Id(0)
    }
}

/// Applying `next` twice advances an id by exactly two.
pub proof fn lemma_next_next(id: int)
    ensures
        next_spec(next_spec(id)) == id + 2,
{
}

/// `next` is injective: distinct ids have distinct successors.
pub proof fn lemma_next_injective(a: int, b: int)
    requires
        next_spec(a) == next_spec(b),
    ensures
        a == b,
{
}

/// How a state was produced.  A closed tag today; stored alongside state
/// records as a string so that new variants can be added without breaking
/// previously persisted states.
#[derive(Debug, Clone, Copy, PartialEq, Eq, Structural)]
pub enum Kind {
    /// Automatically constructed state
    Transaction,
}

impl Kind {
    /// The persistent string tag of this kind.
    pub fn tag(&self) -> (r: String)
        ensures
            r@ == "transaction"@,
    {
        String::from_str("transaction")
    }

    /// Reads a kind back from its persistent string tag.
    pub fn from_tag(tag: &String) -> (r: Option<Kind>)
        ensures
            r == if tag@ == "transaction"@ {
                Some(Kind::Transaction)
            } else {
                None::<Kind>
            },
    {
        let probe = String::from_str("transaction");
        if tag.eq(&probe) {
            Some(Kind::Transaction)
        } else {
            None
        }
    }
}

/// A UTC instant: whole seconds since the epoch plus a subsecond nanosecond
/// part.  Plain values, so that creation times take part in structural
/// equality.
#[derive(Debug, Clone, Copy, PartialEq, Eq, Structural)]
pub struct Timestamp {
    pub seconds: i64,
    pub nanos: u32,
}

/// Opaque reference into the package store; referential integrity is the
/// caller's responsibility.
#[derive(Debug, Clone)]
pub struct PackageId(pub String);

/// One package's membership in a state.
#[derive(Debug, Clone)]
pub struct Selection {
    pub package: PackageId,
    /// Marks whether the package was explicitly installed
    /// by the user, or if it's a "transitive" dependency
    pub explicit: bool,
    pub reason: Option<String>,
}

/// The mathematical model of a selection.
pub struct SelectionModel {
    pub package: Seq<char>,
    pub explicit: bool,
    pub reason: Option<Seq<char>>,
}

/// The model of an optional text field.
pub open spec fn opt_text(o: Option<String>) -> Option<Seq<char>> {
    match o {
        Some(s) => Some(s@),
        None => None,
    }
}

impl View for Selection {
    type V = SelectionModel;

    open spec fn view(&self) -> SelectionModel {
        SelectionModel {
            package: self.package.0@,
            explicit: self.explicit,
            reason: opt_text(self.reason),
        }
    }
}

impl Selection {
    /// A selection the user asked for directly.
    pub fn explicit(package: PackageId) -> (r: Self)
        ensures
            r@.package == package.0@,
            r@.explicit == true,
            r@.reason is None,
    {
        Selection { package, explicit: true, reason: None }
    }

    /// A selection pulled in only as a dependency.
    ///
    /// NOTE: this still records `explicit` as true, exactly as the state
    /// database has always written such rows; any future divergence of the
    /// two constructors must be a deliberate, tested change, not a silent
    /// drift.
    pub fn transitive(package: PackageId) -> (r: Self)
        ensures
            r@.package == package.0@,
            r@.explicit == true,
            r@.reason is None,
    {
        Selection { package, explicit: true, reason: None }
    }

    /// The same selection with a free-form justification attached; every
    /// other field is unchanged.
    pub fn reason(self, reason: String) -> (r: Self)
        ensures
            r@.package == self@.package,
            r@.explicit == self@.explicit,
            r@.reason == Some(reason@),
    {
        Selection { reason: Some(reason), ..self }
    }
}

/// An immutable record of one generation.
#[derive(Debug, Clone)]
pub struct State {
    /// Unique identifier for this state
    pub id: Id,
    /// Quick summary for the state (optional)
    pub summary: Option<String>,
    /// Description for the state (optional)
    pub description: Option<String>,
    /// Selections in this state, in insertion order
    pub selections: Vec<Selection>,
    /// Creation timestamp
    pub created: Timestamp,
    /// Relevant type for this State
    pub kind: Kind,
}

/// The mathematical model of a state.
#[verifier::ext_equal]
pub struct StateModel {
    pub id: int,
    pub summary: Option<Seq<char>>,
    pub description: Option<Seq<char>>,
    pub selections: Seq<SelectionModel>,
    pub created: Timestamp,
    pub kind: Kind,
}

impl View for State {
    type V = StateModel;

    open spec fn view(&self) -> StateModel {
        StateModel {
            id: self.id.0 as int,
            summary: opt_text(self.summary),
            description: opt_text(self.description),
            selections: self.selections@.map_values(|s: Selection| s@),
            created: self.created,
            kind: self.kind,
        }
    }
}

fn opt_string_eq(a: &Option<String>, b: &Option<String>) -> (r: bool)
    ensures
        r == (opt_text(*a) == opt_text(*b)),
{
    match (a, b) {
        (Option::None, Option::None) => true,
        (Option::Some(x), Option::Some(y)) => x.eq(y),
        _ => false,
    }
}

impl PartialEq for Selection {
    fn eq(&self, other: &Selection) -> (r: bool) {
        self.package.0.eq(&other.package.0) && self.explicit == other.explicit
            && opt_string_eq(&self.reason, &other.reason)
    }
}

impl vstd::std_specs::cmp::PartialEqSpecImpl for Selection {
    open spec fn obeys_eq_spec() -> bool {
        true
    }

    open spec fn eq_spec(&self, other: &Selection) -> bool {
        self@ == other@
    }
}

impl PartialEq for State {
    fn eq(&self, other: &State) -> (r: bool) {
        if self.id.0 != other.id.0 {
            return false;
        }
        if !opt_string_eq(&self.summary, &other.summary) {
            return false;
        }
        if !opt_string_eq(&self.description, &other.description) {
            return false;
        }
        if self.created.seconds != other.created.seconds || self.created.nanos
            != other.created.nanos {
            return false;
        }
        if self.selections.len() != other.selections.len() {
            proof {
                assert(self@.selections.len() != other@.selections.len());
            }
            return false;
        }
        let n = self.selections.len();
        let mut i: usize = 0;
        while i < n
            invariant
                n == self.selections.len() == other.selections.len(),
                i <= n,
                forall|j: int| 0 <= j < i ==> self@.selections[j] == other@.selections[j],
            decreases n - i,
        {
            let same = self.selections[i] == other.selections[i];
            if !same {
                proof {
                    assert(self@.selections[i as int] != other@.selections[i as int]);
                    assert(self@ != other@);
                }
                return false;
            }
            i += 1;
        }
        proof {
            assert(self@.selections =~= other@.selections);
            assert(self@ =~= other@);
        }
        true
    }
}

impl vstd::std_specs::cmp::PartialEqSpecImpl for State {
    open spec fn obeys_eq_spec() -> bool {
        true
    }

    open spec fn eq_spec(&self, other: &State) -> bool {
        self@ == other@
    }
}

/// State equality is structural: two states are equal exactly when every
/// field of their models agrees, whatever path constructed them.
pub proof fn lemma_state_eq_structural(a: &State, b: &State)
    ensures
        (a@ == b@) <==> (a@.id == b@.id && a@.summary == b@.summary && a@.description
            == b@.description && a@.selections == b@.selections && a@.created == b@.created
            && a@.kind == b@.kind),
{
    if a@.id == b@.id && a@.summary == b@.summary && a@.description == b@.description
        && a@.selections == b@.selections && a@.created == b@.created && a@.kind == b@.kind {
        assert(a@ =~= b@);
    }
}

} // verus!
