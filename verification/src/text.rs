//! Verified text helpers: joining string lists with a separator and substring
//! search. Both carry exact contracts over character sequences.

use vstd::prelude::*;

verus! {

/// The characters of `items` joined with `sep` between neighbours, in order.
pub open spec fn join_sep(items: Seq<Seq<char>>, sep: Seq<char>) -> Seq<char>
    decreases items.len(),
{
    if items.len() == 0 {
        Seq::empty()
    } else if items.len() == 1 {
        items[0]
    } else {
        join_sep(items.drop_last(), sep) + sep + items.last()
    }
}

/// Appending one more item extends the join with a separator, unless the
/// join was empty so far.
proof fn lemma_join_sep_push(items: Seq<Seq<char>>, sep: Seq<char>, x: Seq<char>)
    ensures
        join_sep(items.push(x), sep) == if items.len() == 0 {
            x
        } else {
            (join_sep(items, sep) + sep + x)
        },
{
    assert(items.push(x).drop_last() =~= items);
    assert(items.push(x).last() == x);
}

/// Joins the items with `", "` between neighbours, in their original order.
pub fn join_comma(items: &Vec<String>) -> (r: String)
    ensures
        r@ == join_sep(items@.map_values(|s: String| s@), ", "@),
{
    let ghost views: Seq<Seq<char>> = items@.map_values(|s: String| s@);
    let mut out = String::new();
    let mut i: usize = 0;
    while i < items.len()
        invariant
            i <= items.len(),
            views == items@.map_values(|s: String| s@),
            out@ == join_sep(views.subrange(0, i as int), ", "@),
        decreases items.len() - i,
    {
        proof {
            assert(views.subrange(0, i + 1 as int) =~= views.subrange(0, i as int).push(
                views[i as int],
            ));
            lemma_join_sep_push(views.subrange(0, i as int), ", "@, views[i as int]);
        }
        if i > 0 {
            out.append(", ");
        }
        out.append(items[i].as_str());
        proof {
            assert(views[i as int] == items@[i as int]@);
            if i == 0 {
                assert(out@ =~= views.subrange(0, i + 1 as int)[0]);
            }
        }
        i = i + 1;
    }
    proof {
        assert(views.subrange(0, items@.len() as int) =~= views);
    }
    out
}

/// `needle` occurs as a contiguous run of characters inside `hay`.
pub open spec fn contains_seq(hay: Seq<char>, needle: Seq<char>) -> bool {
    exists|i: int|
        0 <= i && i + needle.len() <= hay.len() && #[trigger] hay.subrange(i, i + needle.len())
            == needle
}

/// Naive substring search, exact over the character views.
pub fn contains_substring(hay: &str, needle: &str) -> (r: bool)
    ensures
        r == contains_seq(hay@, needle@),
{
    let h_len = hay.unicode_len();
    let n_len = needle.unicode_len();
    if n_len > h_len {
        return false;
    }
    if n_len == 0 {
        proof {
            assert(hay@.subrange(0, 0 + needle@.len() as int) =~= needle@);
        }
        return true;
    }
    let mut i: usize = 0;
    while i <= h_len - n_len
        invariant
            h_len == hay@.len(),
            n_len == needle@.len(),
            1 <= n_len <= h_len,
            i <= h_len - n_len + 1,
            forall|k: int|
                0 <= k < i ==> #[trigger] hay@.subrange(k, k + needle@.len()) != needle@,
        decreases h_len + 1 - n_len - i,
    {
        let mut j: usize = 0;
        let mut mismatch = false;
        while j < n_len && !mismatch
            invariant
                h_len == hay@.len(),
                n_len == needle@.len(),
                i + n_len <= h_len,
                j <= n_len,
                !mismatch ==> forall|k: int| 0 <= k < j ==> hay@[i + k] == #[trigger] needle@[k],
                mismatch ==> hay@.subrange(i as int, i + needle@.len()) != needle@,
            decreases n_len - j + (if mismatch { 0int } else { 1int }),
        {
            let hc = hay.get_char(i + j);
            let nc = needle.get_char(j);
            if hc != nc {
                proof {
                    assert(hay@.subrange(i as int, i + needle@.len())[j as int] == hay@[i + j]);
                }
                mismatch = true;
            } else {
                j = j + 1;
            }
        }
        if !mismatch {
            proof {
                assert(hay@.subrange(i as int, i + needle@.len()) =~= needle@);
            }
            return true;
        }
        i = i + 1;
    }
    proof {
        assert(forall|k: int|
            0 <= k && k + needle@.len() <= hay@.len() ==> #[trigger] hay@.subrange(
                k,
                k + needle@.len(),
            ) != needle@);
    }
    false
}

} // verus!
