//! Namespaced category lists: one mandatory primary tag followed by the
//! secondary tags in the order in which they were chosen.

use vstd::prelude::*;
use vstd::string::StringExecFns;

verus! {

/// The texts of a sequence of strings.
pub open spec fn texts(items: Seq<String>) -> Seq<Seq<char>> {
    Seq::new(items.len(), |i: int| items[i]@)
}

/// One tag under its namespace: `<namespace>::<item>`.
pub open spec fn qualified(namespace: Seq<char>, item: Seq<char>) -> Seq<char> {
    namespace + "::"@ + item
}

/// The qualified tags joined by `", "`, with no separator before the first or
/// after the last.
pub open spec fn joined(namespace: Seq<char>, items: Seq<Seq<char>>) -> Seq<char>
    decreases items.len(),
{
    if items.len() == 0 {
        Seq::empty()
    } else if items.len() == 1 {
        qualified(namespace, items[0])
    } else {
        joined(namespace, items.drop_last()) + ", "@ + qualified(namespace, items.last())
    }
}

/// The category list of a primary tag and its secondary tags: the primary tag
/// comes first, nothing is removed and nothing is reordered.
pub open spec fn category_list(
    namespace: Seq<char>,
    primary: Seq<char>,
    secondary: Seq<Seq<char>>,
) -> Seq<char> {
    joined(namespace, seq![primary] + secondary)
}

/// A primary tag without secondary tags gives the one qualified tag, with no
/// separator after it.
pub proof fn lemma_primary_alone(namespace: Seq<char>, primary: Seq<char>)
    ensures
        category_list(namespace, primary, Seq::empty()) == namespace + "::"@ + primary,
{
    assert(seq![primary] + Seq::<Seq<char>>::empty() =~= seq![primary]);
}

/// Each further secondary tag adds a separator and the qualified tag at the
/// end, and changes nothing before it.
pub proof fn lemma_one_more(
    namespace: Seq<char>,
    primary: Seq<char>,
    secondary: Seq<Seq<char>>,
    last: Seq<char>,
)
    ensures
        category_list(namespace, primary, secondary.push(last)) == category_list(
            namespace,
            primary,
            secondary,
        ) + ", "@ + qualified(namespace, last),
{
    let all = seq![primary] + secondary.push(last);
    assert(all.drop_last() =~= seq![primary] + secondary);
    assert(all.last() == last);
}

/// Formats the chosen categories as `"<namespace>::<tag>, <namespace>::<tag>, ..."`.
///
/// A tag that occurs both as the primary and among the secondary ones is
/// written twice: the options offered are the caller's business.
pub fn build_category_list(primary: &str, secondary: &Vec<String>, namespace: &str) -> (list:
    String)
    ensures
        list@ == category_list(namespace@, primary@, texts(secondary@)),
{
    let ghost all = seq![primary@] + texts(secondary@);
    let mut list = String::from_str(namespace);
    list.append("::");
    list.append(primary);
    assert(all.take(1) =~= seq![primary@]);
    assert(list@ == joined(namespace@, all.take(1)));
    let mut i: usize = 0;
    while i < secondary.len()
        invariant
            i <= secondary.len(),
            all == seq![primary@] + texts(secondary@),
            list@ == joined(namespace@, all.take(i + 1)),
        decreases secondary.len() - i,
    {
        list.append(", ");
        list.append(namespace);
        list.append("::");
        list.append(secondary[i].as_str());
        proof {
            let upto = all.take(i + 2);
            assert(upto.drop_last() =~= all.take(i + 1));
            assert(upto.last() == secondary@[i as int]@);
            assert(list@ =~= joined(namespace@, upto.drop_last()) + ", "@ + qualified(
                namespace@,
                upto.last(),
            ));
        }
        i = i + 1;
    }
    assert(all.take(secondary.len() + 1) =~= all);
    list
}

} // verus!
