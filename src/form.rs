use vstd::prelude::*;

verus! {

/// The name of the form field that carries a new item's text.
pub open spec fn item_field() -> Seq<char> {
    "todo"@
}

/// How many of the decoded form pairs are named `key`.
pub open spec fn count_field(pairs: Seq<(String, String)>, key: Seq<char>) -> nat
    decreases pairs.len(),
{
    if pairs.len() == 0 {
        0
    } else {
        count_field(pairs.drop_last(), key) + if pairs.last().0@ == key {
            1nat
        } else {
            0nat
        }
    }
}

/// Why a submitted form names no item.
#[derive(Debug, Clone, Copy, PartialEq, Eq, Structural)]
pub enum FormError {
    /// No pair is named `todo`.
    MissingField,
    /// More than one pair is named `todo`.
    DuplicateField,
}

impl FormError {
    /// The description of the error, as the form decoder words it.
    pub fn message(&self) -> (r: String)
        ensures
            r@ == match *self {
                FormError::MissingField => "missing field `todo`"@,
                FormError::DuplicateField => "duplicate field `todo`"@,
            },
    {
        match self {
            FormError::MissingField => String::from_str("missing field `todo`"),
            FormError::DuplicateField => String::from_str("duplicate field `todo`"),
        }
    }
}

/// Takes the item's text out of the decoded pairs of a submitted form. The
/// `todo` field must occur exactly once; other fields are ignored.
pub fn extract_item(pairs: &Vec<(String, String)>) -> (r: Result<String, FormError>)
    ensures
        count_field(pairs@, item_field()) == 0 <==> r == Err::<String, FormError>(
            FormError::MissingField,
        ),
        count_field(pairs@, item_field()) > 1 <==> r == Err::<String, FormError>(
            FormError::DuplicateField,
        ),
        count_field(pairs@, item_field()) == 1 <==> r is Ok,
        r matches Ok(s) ==> exists|i: int|
            0 <= i < pairs@.len() && pairs@[i].0@ == item_field() && #[trigger] pairs@[i].1@
                == s@,
{
    let field = String::from_str("todo");
    let mut found: Option<String> = None;
    let mut count: usize = 0;
    let mut i: usize = 0;
    while i < pairs.len()
        invariant
            field@ == item_field(),
            i <= pairs@.len(),
            count == count_field(pairs@.take(i as int), item_field()),
            count <= i,
            count == 0 <==> found is None,
            found matches Some(s) ==> exists|j: int|
                0 <= j < i && pairs@[j].0@ == item_field() && #[trigger] pairs@[j].1@ == s@,
        decreases pairs@.len() - i,
    {
        proof {
            assert(pairs@.take(i + 1).drop_last() =~= pairs@.take(i as int));
        }
        if pairs[i].0 == field {
            if count == 0 {
                let s = pairs[i].1.clone();
                proof {
                    assert(pairs@[i as int].1@ == s@);
                }
                found = Some(s);
            }
            count += 1;
        }
        i += 1;
    }
    proof {
        assert(pairs@.take(pairs@.len() as int) =~= pairs@);
    }
    if count == 0 {
        Err(FormError::MissingField)
    } else if count > 1 {
        Err(FormError::DuplicateField)
    } else {
        match found {
            Some(s) => Ok(s),
            None => Err(FormError::MissingField),
        }
    }
}

} // verus!
