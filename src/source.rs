use vstd::prelude::*;
use vstd::string::*;
use crate::text::{decimal, push_decimal};

verus! {

/// Why a fetch of the campaign snapshot failed, in words fit for a log or a reply.
pub struct FetchError {
    pub detail: String,
}

/// The page of the snapshot that is asked for.
pub const FETCH_PAGE: u64 = 1;

/// The number of records asked for.
pub const FETCH_ROWS: u64 = 20;

/// The JSON body of a request for a page of records.
pub open spec fn request_body(page: nat, rows: nat) -> Seq<char> {
    "{\"page\":"@ + decimal(page) + ",\"rows\":"@ + decimal(rows) + "}"@
}

/// Writes the JSON body of a request for `rows` records of page `page`.
pub fn fetch_request_body(page: u64, rows: u64) -> (r: String)
    ensures
        r@ == request_body(page as nat, rows as nat),
{
    let mut s = String::from_str("{\"page\":");
    push_decimal(&mut s, page);
    s.append(",\"rows\":");
    push_decimal(&mut s, rows);
    s.append("}");
    s
}

} // verus!
