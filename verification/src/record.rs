//! What the six kinds of record share.

use vstd::prelude::*;

verus! {

/// The edges of an adjacency list; a list that was never set has none.
pub open spec fn edges<T>(list: Option<Seq<T>>) -> Seq<T> {
    match list {
        Some(s) => s,
        None => Seq::empty(),
    }
}

/// The first row of a result, if it has one.
pub open spec fn first_of<T>(rows: Seq<T>) -> Option<T> {
    if rows.len() == 0 {
        None
    } else {
        Some(rows[0])
    }
}

/// The characters that a guid is drawn from.
pub open spec fn url_safe(c: char) -> bool {
    c == '_' || c == '-' || ('0' <= c && c <= '9') || ('a' <= c && c <= 'z') || ('A' <= c && c
        <= 'Z')
}

/// The shape of a freshly drawn guid: 21 characters of the URL-safe alphabet.
pub open spec fn guid_shaped(s: Seq<char>) -> bool {
    s.len() == 21 && forall|k: int| 0 <= k < s.len() ==> url_safe(#[trigger] s[k])
}

/// Draws a guid with `nanoid::format`, from the crate's default random source
/// and its alphabet `SAFE`, at length 21. The result is random; the contract
/// claims only its shape: `format` pushes one character of the alphabet for
/// each of the 21 bytes that the source hands it. The source panics where
/// the operating system gives it no entropy; there is no input to exclude.
#[verifier::external_body]
pub(crate) fn fresh_guid() -> (r: String)
    ensures
        guid_shaped(r@),
{
    nanoid::format(nanoid::rngs::default, &nanoid::alphabet::SAFE, 21)
}

/// A copy of each string of `list`, in order.
pub fn clone_texts(list: &Vec<String>) -> (r: Vec<String>)
    ensures
        r.deep_view() == list.deep_view(),
{
    let mut out: Vec<String> = Vec::new();
    let mut k: usize = 0;
    while k < list.len()
        invariant
            k <= list.len(),
            out.len() == k,
            forall|j: int| 0 <= j < k ==> out@[j]@ == list@[j]@,
        decreases list.len() - k,
    {
        out.push(list[k].clone());
        k += 1;
    }
    out
}

} // verus!
