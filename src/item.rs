//! Workshop items and the references that name them: a bare identifier, or
//! the URL of the item's page with the identifier in its `id` parameter
//! (`https://steamcommunity.com/sharedfiles/filedetails/?id=123`).

use vstd::prelude::*;
use crate::text::{decimal_u64, parse_decimal};

verus! {

/// An item identifier, where it is positive.
pub open spec fn positive(o: Option<u64>) -> Option<u64> {
    match o {
        Some(n) => if n > 0 {
            Some(n)
        } else {
            None
        },
        None => None,
    }
}

/// `s[..k]` ends with an `id=` key that opens the URL's query or follows
/// another parameter (or `s` starts with it).
pub open spec fn id_key_ends_at(s: Seq<u8>, k: int) -> bool {
    &&& 3 <= k <= s.len()
    &&& s[k - 3] == 105 && s[k - 2] == 100 && s[k - 1] == 61
    &&& (k == 3 || s[k - 4] == 63 || s[k - 4] == 38)
}

/// The end of the first `id=` key at or after `from`.
pub open spec fn find_id_key(s: Seq<u8>, from: int) -> Option<int>
    decreases s.len() + 1 - from,
{
    if from > s.len() {
        None
    } else if id_key_ends_at(s, from) {
        Some(from)
    } else {
        find_id_key(s, from + 1)
    }
}

/// Where the parameter value that starts at `k` ends: at the next `&` or
/// `#`, or at the end of `s`.
pub open spec fn value_end(s: Seq<u8>, k: int) -> int
    decreases s.len() - k,
{
    if k >= s.len() {
        s.len() as int
    } else if s[k] == 38 || s[k] == 35 {
        k
    } else {
        value_end(s, k + 1)
    }
}

/// The item that a reference names: the reference itself as a positive
/// number, or else the value of its first `id` parameter as one.
pub open spec fn item_ref_id(s: Seq<u8>) -> Option<u64> {
    match positive(decimal_u64(s)) {
        Some(n) => Some(n),
        None => match find_id_key(s, 3) {
            Some(k) => positive(decimal_u64(s.subrange(k, value_end(s, k)))),
            None => None,
        },
    }
}

fn id_key_ends_here(s: &[u8], k: usize) -> (r: bool)
    requires
        3 <= k <= s@.len(),
    ensures
        r == id_key_ends_at(s@, k as int),
{
    s[k - 3] == 105 && s[k - 2] == 100 && s[k - 1] == 61 && (k == 3 || s[k - 4] == 63 || s[k
        - 4] == 38)
}

/// The item identifier that `reference` names, a bare number or an item URL.
pub fn parse_item_ref(reference: &[u8]) -> (r: Option<u64>)
    ensures
        r == item_ref_id(reference@),
        r matches Some(n) ==> n > 0,
{
    let n = reference.len();
    assert(reference@.subrange(0, n as int) =~= reference@);
    match parse_decimal(reference, 0, n) {
        Some(id) => if id > 0 {
            return Some(id);
        },
        None => {},
    }
    if n < 3 {
        return None;
    }
    let mut k: usize = 3;
    loop
        invariant
            n == reference@.len(),
            3 <= k <= n,
            find_id_key(reference@, 3) == find_id_key(reference@, k as int),
            positive(decimal_u64(reference@)) is None,
        ensures
            3 <= k <= n,
            find_id_key(reference@, 3) == Some(k as int),
            positive(decimal_u64(reference@)) is None,
        decreases n - k,
    {
        if id_key_ends_here(reference, k) {
            break;
        }
        if k == n {
            assert(find_id_key(reference@, n + 1) is None);
            return None;
        }
        k = k + 1;
    }
    let mut end: usize = k;
    while end < n && reference[end] != 38 && reference[end] != 35
        invariant
            k <= end <= n == reference@.len(),
            value_end(reference@, k as int) == value_end(reference@, end as int),
            find_id_key(reference@, 3) == Some(k as int),
            positive(decimal_u64(reference@)) is None,
        decreases n - end,
    {
        end = end + 1;
    }
    match parse_decimal(reference, k, end) {
        Some(id) => if id > 0 {
            Some(id)
        } else {
            None
        },
        None => None,
    }
}

/// One item to download: its identifier and, once resolved, the application
/// that owns it.
#[derive(Debug, Clone, Copy, PartialEq, Eq)]
pub struct WorkshopItem {
    pub item_id: u64,
    pub app_id: Option<u64>,
}

impl WorkshopItem {
    /// An item whose application is not known yet.
    pub fn new(item_id: u64) -> (r: WorkshopItem)
        ensures
            r.item_id == item_id,
            r.app_id is None,
    {
        WorkshopItem { item_id, app_id: None }
    }

    /// The item with the outcome of resolving its application.
    pub fn resolved(self, app_id: Option<u64>) -> (r: WorkshopItem)
        ensures
            r.item_id == self.item_id,
            r.app_id == app_id,
    {
        WorkshopItem { item_id: self.item_id, app_id }
    }
}

} // verus!
