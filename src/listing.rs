//! Accumulating the pages of a bucket listing; one failed page fails the whole listing.

use vstd::prelude::*;

verus! {

/// The text of one page, or of the error that took its place.
pub open spec fn page_view(p: Result<Vec<String>, String>) -> Result<Seq<Seq<char>>, Seq<char>> {
    match p {
        Ok(keys) => Ok(keys@.map_values(|k: String| k@)),
        Err(e) => Err(e@),
    }
}

/// The listing so far, after one more page.
pub open spec fn listing_step(
    acc: Result<Seq<Seq<char>>, Seq<char>>,
    page: Result<Seq<Seq<char>>, Seq<char>>,
) -> Result<Seq<Seq<char>>, Seq<char>> {
    match acc {
        Err(e) => Err(e),
        Ok(keys) => match page {
            Err(e) => Err(e),
            Ok(more) => Ok(keys + more),
        },
    }
}

/// The listing of a sequence of pages, folded from the first.
pub open spec fn listing_result(pages: Seq<Result<Seq<Seq<char>>, Seq<char>>>) -> Result<
    Seq<Seq<char>>,
    Seq<char>,
>
    decreases pages.len(),
{
    if pages.len() == 0 {
        Ok(seq![])
    } else {
        listing_step(listing_result(pages.drop_last()), pages.last())
    }
}

/// Adds one page to the listing so far: its keys go after those already listed, and a
/// failure, of this page or of an earlier one, is what the listing becomes.
pub fn add_page(acc: Result<Vec<String>, String>, page: Result<Vec<String>, String>) -> (r: Result<
    Vec<String>,
    String,
>)
    ensures
        page_view(r) == listing_step(page_view(acc), page_view(page)),
{
    match acc {
        Err(e) => Err(e),
        Ok(mut keys) => match page {
            Err(e) => Err(e),
            Ok(mut more) => {
                let ghost k0 = keys@;
                let ghost m0 = more@;
                keys.append(&mut more);
                assert(keys@.map_values(|k: String| k@) =~= k0.map_values(|k: String| k@)
                    + m0.map_values(|k: String| k@));
                Ok(keys)
            },
        },
    }
}

/// A listing in which any page failed has failed as a whole, whatever the other pages held.
pub proof fn failed_page_fails_listing(pages: Seq<Result<Seq<Seq<char>>, Seq<char>>>, i: int)
    requires
        0 <= i < pages.len(),
        pages[i] is Err,
    ensures
        listing_result(pages) is Err,
    decreases pages.len(),
{
    if i < pages.len() - 1 {
        failed_page_fails_listing(pages.drop_last(), i);
    }
}

} // verus!
