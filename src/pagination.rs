use vstd::prelude::*;
use vstd::string::StringExecFns;

verus! {

/// The query of a listing request.
pub struct Pagination {
    pub page: usize,
    pub page_size: usize,
}

/// One listed item.
pub struct SomeData {
    pub id: usize,
    pub name: String,
}

/// The decimal digit for a value below ten.
pub open spec fn digit_char(d: nat) -> char {
    ((d + 48) as u8) as char
}

/// The decimal representation of `n`, most significant digit first, without
/// leading zeros.
pub open spec fn decimal(n: nat) -> Seq<char>
    decreases n,
{
    if n < 10 {
        seq![digit_char(n)]
    } else {
        decimal(n / 10) + seq![digit_char(n % 10)]
    }
}

/// The name of the item with the given id.
pub open spec fn item_name(id: nat) -> Seq<char> {
    "Item "@ + decimal(id)
}

/// Relies on the `Display` impl of `usize` (through `ToString`): base ten,
/// no sign, no padding.
#[verifier::external_body]
fn usize_to_decimal(n: usize) -> (r: String)
    ensures
        r@ == decimal(n as nat),
{
    n.to_string()
}

/// Lists one page of items: `page_size` of them, with ids 1 up to `page_size`
/// and names `Item 1`, `Item 2`, and so on. The page number does not change
/// the listing.
pub fn list_things(pagination: Pagination) -> (r: Vec<SomeData>)
    ensures
        r@.len() == pagination.page_size,
        forall|i: int|
            0 <= i < r@.len() ==> {
                &&& #[trigger] r@[i].id == i + 1
                &&& r@[i].name@ == item_name((i + 1) as nat)
            },
{
    let mut out: Vec<SomeData> = Vec::new();
    let mut i: usize = 0;
    while i < pagination.page_size
        invariant
            i <= pagination.page_size,
            out@.len() == i,
            forall|k: int|
                0 <= k < out@.len() ==> {
                    &&& #[trigger] out@[k].id == k + 1
                    &&& out@[k].name@ == item_name((k + 1) as nat)
                },
        decreases pagination.page_size - i,
    {
        let id = i + 1;
        let mut name = String::from_str("Item ");
        let digits = usize_to_decimal(id);
        name.append(digits.as_str());
        out.push(SomeData { id, name });
        i = i + 1;
    }
    out
}

} // verus!
