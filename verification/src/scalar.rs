//! The scalar values of a collection, the form in which they are bound and
//! stored, and the coercion from a stored value to a requested kind.
use crate::text::{parse_integer, parsed_integer, same_text};
use vstd::prelude::*;

verus! {

/// The kinds of value that a caller can store and ask for.
#[derive(Clone, Copy, Debug, PartialEq, Eq, Structural)]
pub enum ScalarKind {
    Text,
    Integer,
    Boolean,
}

/// A typed value of a collection.
#[derive(Clone, Debug, PartialEq, Eq)]
pub enum Scalar {
    Text(String),
    Integer(i64),
    Boolean(bool),
}

/// What a [`Scalar`] stands for.
pub ghost enum ScalarView {
    Text(Seq<char>),
    Integer(i64),
    Boolean(bool),
}

impl View for Scalar {
    type V = ScalarView;

    open spec fn view(&self) -> ScalarView {
        match self {
            Scalar::Text(s) => ScalarView::Text(s@),
            Scalar::Integer(i) => ScalarView::Integer(*i),
            Scalar::Boolean(b) => ScalarView::Boolean(*b),
        }
    }
}

impl DeepView for Scalar {
    type V = ScalarView;

    open spec fn deep_view(&self) -> ScalarView {
        self@
    }
}

/// A value in the form in which it is handed to the engine as a statement
/// parameter: the engine has no booleans of its own.
#[derive(Clone, Debug, PartialEq, Eq)]
pub enum Bound {
    Text(String),
    Integer(i64),
}

/// What a [`Bound`] stands for.
pub ghost enum BoundView {
    Text(Seq<char>),
    Integer(i64),
}

impl View for Bound {
    type V = BoundView;

    open spec fn view(&self) -> BoundView {
        match self {
            Bound::Text(s) => BoundView::Text(s@),
            Bound::Integer(i) => BoundView::Integer(*i),
        }
    }
}

impl DeepView for Bound {
    type V = BoundView;

    open spec fn deep_view(&self) -> BoundView {
        self@
    }
}

/// What the engine holds in the value column of a row, by storage class.
/// Of a real number and of a blob only the class is kept.
#[derive(Clone, Debug, PartialEq, Eq)]
pub enum Stored {
    Null,
    Integer(i64),
    Real,
    Text(String),
    Blob,
}

/// What a [`Stored`] stands for.
pub ghost enum StoredView {
    Null,
    Integer(i64),
    Real,
    Text(Seq<char>),
    Blob,
}

impl View for Stored {
    type V = StoredView;

    open spec fn view(&self) -> StoredView {
        match self {
            Stored::Null => StoredView::Null,
            Stored::Integer(i) => StoredView::Integer(*i),
            Stored::Real => StoredView::Real,
            Stored::Text(s) => StoredView::Text(s@),
            Stored::Blob => StoredView::Blob,
        }
    }
}

/// The kind of a value.
pub open spec fn kind_of(v: ScalarView) -> ScalarKind {
    match v {
        ScalarView::Text(_) => ScalarKind::Text,
        ScalarView::Integer(_) => ScalarKind::Integer,
        ScalarView::Boolean(_) => ScalarKind::Boolean,
    }
}

/// The form in which a value is bound: text and integers as they are, a
/// boolean as the integer 1 or 0.
pub open spec fn bound_form(v: ScalarView) -> BoundView {
    match v {
        ScalarView::Text(s) => BoundView::Text(s),
        ScalarView::Integer(i) => BoundView::Integer(i),
        ScalarView::Boolean(b) => BoundView::Integer(
            if b {
                1
            } else {
                0
            },
        ),
    }
}

/// The stored value that a bound value becomes in a column without a
/// declared type: text stays text and an integer stays an integer.
pub open spec fn kept_as(b: BoundView) -> StoredView {
    match b {
        BoundView::Text(s) => StoredView::Text(s),
        BoundView::Integer(i) => StoredView::Integer(i),
    }
}

/// The boolean that a text spells: `true` or `1`, `false` or `0`.
pub open spec fn boolean_of_text(s: Seq<char>) -> Option<bool> {
    if s == "true"@ || s == "1"@ {
        Some(true)
    } else if s == "false"@ || s == "0"@ {
        Some(false)
    } else {
        None
    }
}

/// The value of kind `kind` that a stored value is read as, or `None` where
/// the two do not go together.
///
/// Text is read as text unchanged, as an integer where it writes one in
/// decimal, and as a boolean where it spells one. An integer is read as an
/// integer unchanged and as a boolean that is false for 0 and true
/// otherwise. Nothing else is read as anything.
pub open spec fn coerced(stored: StoredView, kind: ScalarKind) -> Option<ScalarView> {
    match (stored, kind) {
        (StoredView::Text(s), ScalarKind::Text) => Some(ScalarView::Text(s)),
        (StoredView::Text(s), ScalarKind::Integer) => match parsed_integer(s) {
            Some(i) => Some(ScalarView::Integer(i)),
            None => None,
        },
        (StoredView::Text(s), ScalarKind::Boolean) => match boolean_of_text(s) {
            Some(b) => Some(ScalarView::Boolean(b)),
            None => None,
        },
        (StoredView::Integer(i), ScalarKind::Integer) => Some(ScalarView::Integer(i)),
        (StoredView::Integer(i), ScalarKind::Boolean) => Some(ScalarView::Boolean(i != 0)),
        _ => None,
    }
}

impl Scalar {
    /// The kind of this value.
    pub fn kind(&self) -> (k: ScalarKind)
        ensures
            k == kind_of(self@),
    {
        match self {
            Scalar::Text(_) => ScalarKind::Text,
            Scalar::Integer(_) => ScalarKind::Integer,
            Scalar::Boolean(_) => ScalarKind::Boolean,
        }
    }

    /// The form in which this value is bound to a statement.
    pub fn to_bound(&self) -> (b: Bound)
        ensures
            b@ == bound_form(self@),
    {
        match self {
            Scalar::Text(s) => Bound::Text(s.clone()),
            Scalar::Integer(i) => Bound::Integer(*i),
            Scalar::Boolean(b) => Bound::Integer(
                if *b {
                    1
                } else {
                    0
                },
            ),
        }
    }
}

/// Reads the boolean that a text spells.
pub fn parse_boolean(s: &str) -> (r: Option<bool>)
    ensures
        r == boolean_of_text(s@),
{
    if same_text(s, "true") || same_text(s, "1") {
        Some(true)
    } else if same_text(s, "false") || same_text(s, "0") {
        Some(false)
    } else {
        None
    }
}

/// Reads a stored value as a value of the requested kind.
pub fn coerce(stored: Stored, kind: ScalarKind) -> (r: Option<Scalar>)
    ensures
        r.deep_view() == coerced(stored@, kind),
{
    match stored {
        Stored::Text(s) => match kind {
            ScalarKind::Text => Some(Scalar::Text(s)),
            ScalarKind::Integer => match parse_integer(s.as_str()) {
                Some(i) => Some(Scalar::Integer(i)),
                None => None,
            },
            ScalarKind::Boolean => match parse_boolean(s.as_str()) {
                Some(b) => Some(Scalar::Boolean(b)),
                None => None,
            },
        },
        Stored::Integer(i) => match kind {
            ScalarKind::Integer => Some(Scalar::Integer(i)),
            ScalarKind::Boolean => Some(Scalar::Boolean(i != 0)),
            ScalarKind::Text => None,
        },
        _ => None,
    }
}

/// A value that was bound and kept is read back, as its own kind, exactly.
pub proof fn lemma_round_trip(v: ScalarView)
    ensures
        coerced(kept_as(bound_form(v)), kind_of(v)) == Some(v),
{
}

/// Whatever is read as a kind has that kind.
pub proof fn lemma_coerced_kind(stored: StoredView, kind: ScalarKind)
    ensures
        coerced(stored, kind) matches Some(v) ==> kind_of(v) == kind,
{
}

} // verus!
