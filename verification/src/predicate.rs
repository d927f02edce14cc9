//! The filters of a query, and the lookup keys among them.

use crate::cell::Cell;
use crate::text::same_text;
use vstd::prelude::*;
use vstd::string::*;

verus! {

/// The operand of a filter.
#[derive(Debug, Clone)]
pub enum QualValue {
    Cell(Cell),
    Array(Vec<Cell>),
}

/// One filter of a query: a field, an operator and an operand.
#[derive(Debug, Clone)]
pub struct Qual {
    pub field: String,
    pub operator: String,
    pub value: QualValue,
}

impl Qual {
    pub fn new(field: &str, operator: &str, value: QualValue) -> (qual: Qual)
        ensures
            qual.field@ == field@,
            qual.operator@ == operator@,
            qual.value == value,
    {
        Qual { field: field.to_owned(), operator: operator.to_owned(), value }
    }
}

/// The key that a filter contributes: the string operand of an equality on
/// `email`. Any other filter contributes nothing.
pub open spec fn lookup_key_of(qual: Qual) -> Option<Seq<char>> {
    if qual.field@ == "email"@ && qual.operator@ == "="@ {
        match qual.value {
            QualValue::Cell(Cell::String(key)) => Some(key@),
            _ => None,
        }
    } else {
        None
    }
}

/// The keys of a list of filters: what each filter contributes, in the
/// order of the filters, with nothing left out for being there twice.
pub open spec fn lookup_keys(quals: Seq<Qual>) -> Seq<Seq<char>>
    decreases quals.len(),
{
    if quals.len() == 0 {
        Seq::empty()
    } else {
        match lookup_key_of(quals.last()) {
            Some(key) => lookup_keys(quals.drop_last()).push(key),
            None => lookup_keys(quals.drop_last()),
        }
    }
}

/// The texts of a list of strings.
pub open spec fn texts(strings: Seq<String>) -> Seq<Seq<char>> {
    strings.map_values(|s: String| s@)
}

/// Collects the lookup keys of a query.
pub fn extract_lookup_keys(quals: &Vec<Qual>) -> (keys: Vec<String>)
    ensures
        texts(keys@) == lookup_keys(quals@),
{
    let mut keys: Vec<String> = Vec::new();
    let mut i: usize = 0;
    assert(quals@.take(0) =~= Seq::empty());
    assert(texts(keys@) =~= Seq::empty());
    while i < quals.len()
        invariant
            i <= quals.len(),
            texts(keys@) == lookup_keys(quals@.take(i as int)),
        decreases quals.len() - i,
    {
        let qual = &quals[i];
        proof {
            let longer = quals@.take(i + 1);
            assert(longer.drop_last() =~= quals@.take(i as int));
            assert(longer.last() == quals@[i as int]);
        }
        if same_text(qual.field.as_str(), "email") && same_text(qual.operator.as_str(), "=") {
            match &qual.value {
                QualValue::Cell(Cell::String(key)) => {
                    let ghost before = keys@;
                    keys.push(key.clone());
                    assert(texts(keys@) =~= texts(before).push(key@));
                },
                _ => {},
            }
        }
        i += 1;
    }
    assert(quals@.take(i as int) =~= quals@);
    keys
}

/// The keys of two lists of filters, one after the other, are the keys of
/// the first followed by the keys of the second.
pub proof fn lemma_lookup_keys_of_concatenation(first: Seq<Qual>, second: Seq<Qual>)
    ensures
        lookup_keys(first + second) == lookup_keys(first) + lookup_keys(second),
    decreases second.len(),
{
    if second.len() == 0 {
        assert(first + second =~= first);
        assert(lookup_keys(first) + lookup_keys(second) =~= lookup_keys(first));
    } else {
        lemma_lookup_keys_of_concatenation(first, second.drop_last());
        assert((first + second).drop_last() =~= first + second.drop_last());
        assert((first + second).last() == second.last());
        match lookup_key_of(second.last()) {
            Some(key) => {
                assert((lookup_keys(first) + lookup_keys(second.drop_last())).push(key)
                    =~= lookup_keys(first) + lookup_keys(second.drop_last()).push(key));
            },
            None => {},
        }
    }
}

/// A single filter has the one key it contributes, or none.
pub proof fn lemma_lookup_keys_of_one(qual: Qual)
    ensures
        lookup_keys(seq![qual]) == match lookup_key_of(qual) {
            Some(key) => seq![key],
            None => Seq::empty(),
        },
{
    let one = seq![qual];
    assert(one.drop_last() =~= Seq::<Qual>::empty());
    assert(one.last() == qual);
    assert(lookup_keys(one.drop_last()) =~= Seq::empty());
    match lookup_key_of(qual) {
        Some(key) => {
            assert(Seq::<Seq<char>>::empty().push(key) =~= seq![key]);
        },
        None => {},
    }
}

/// Filters with no equality on `email` among them have no keys.
pub proof fn lemma_no_qualifying_filter_no_keys(quals: Seq<Qual>)
    requires
        forall|i: int| 0 <= i < quals.len() ==> lookup_key_of(#[trigger] quals[i]) is None,
    ensures
        lookup_keys(quals).len() == 0,
    decreases quals.len(),
{
    if quals.len() > 0 {
        lemma_no_qualifying_filter_no_keys(quals.drop_last());
    }
}

} // verus!
