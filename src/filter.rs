//! The name filter: a block-list of application names, comma separated.
use vstd::prelude::*;
use vstd::string::*;
use crate::text::{same_text, trim_white_space, trimmed};

verus! {

/// The entries of `s` split at each comma, read from left to right;
/// `s` without a comma is a single entry.
pub open spec fn split_commas(s: Seq<char>) -> Seq<Seq<char>>
    decreases s.len(),
{
    if s.len() == 0 {
        seq![Seq::empty()]
    } else {
        let prev = split_commas(s.drop_last());
        if s.last() == ',' {
            prev.push(Seq::empty())
        } else {
            prev.update(prev.len() - 1, prev.last().push(s.last()))
        }
    }
}

/// Whether `name` equals one of the trimmed entries of a non-empty `list`.
pub open spec fn ignored(name: Seq<char>, list: Seq<char>) -> bool {
    &&& list.len() > 0
    &&& exists|i: int|
        0 <= i < split_commas(list).len() && trimmed(#[trigger] split_commas(list)[i]) == name
}

/// Whether one of the first `n` entries of `entries` trims to `name`.
pub open spec fn matched_within(name: Seq<char>, entries: Seq<Seq<char>>, n: int) -> bool {
    exists|i: int| 0 <= i < n && trimmed(#[trigger] entries[i]) == name
}

/// One step of the split: the entries of a prefix one character longer.
proof fn lemma_split_step(s: Seq<char>, i: int, done: Seq<Seq<char>>, start: int)
    requires
        0 <= start <= i < s.len(),
        split_commas(s.subrange(0, i)) == done.push(s.subrange(start, i)),
    ensures
        s[i] == ',' ==> split_commas(s.subrange(0, i + 1)) == done.push(s.subrange(start, i)).push(
            s.subrange(i + 1, i + 1),
        ),
        s[i] != ',' ==> split_commas(s.subrange(0, i + 1)) == done.push(s.subrange(start, i + 1)),
{
    let p = s.subrange(0, i + 1);
    assert(p.drop_last() =~= s.subrange(0, i));
    assert(p.last() == s[i]);
    if s[i] == ',' {
        assert(s.subrange(i + 1, i + 1) =~= Seq::<char>::empty());
    } else {
        assert(s.subrange(start, i).push(s[i]) =~= s.subrange(start, i + 1));
        assert(done.push(s.subrange(start, i)).update(done.len() as int, s.subrange(start, i + 1))
            =~= done.push(s.subrange(start, i + 1)));
    }
}

/// Whether `name` exactly matches an entry of the comma-separated
/// `ignore_list`, once white space around the entry is trimmed; an empty
/// list matches nothing.
pub fn is_ignored(name: &str, ignore_list: &str) -> (r: bool)
    ensures
        r == ignored(name@, ignore_list@),
{
    let n = ignore_list.unicode_len();
    if n == 0 {
        return false;
    }
    let ghost list = ignore_list@;
    let ghost mut done: Seq<Seq<char>> = Seq::empty();
    let mut found = false;
    let mut start: usize = 0;
    let mut i: usize = 0;
    assert(list.subrange(0, 0) =~= Seq::<char>::empty());
    while i < n
        invariant
            list == ignore_list@,
            n == list.len(),
            0 <= start <= i <= n,
            split_commas(list.subrange(0, i as int)) == done.push(list.subrange(start as int, i as int)),
            found == matched_within(name@, done, done.len() as int),
        decreases n - i,
    {
        let c = ignore_list.get_char(i);
        proof {
            lemma_split_step(list, i as int, done, start as int);
        }
        if c == ',' {
            let entry = trim_white_space(ignore_list.substring_char(start, i));
            let hit = same_text(entry, name);
            let ghost old_done = done;
            proof {
                done = done.push(list.subrange(start as int, i as int));
                assert(done[old_done.len() as int] == list.subrange(start as int, i as int));
                assert(matched_within(name@, done, done.len() as int) == (matched_within(
                    name@,
                    old_done,
                    old_done.len() as int,
                ) || hit)) by {
                    if matched_within(name@, old_done, old_done.len() as int) {
                        let k = choose|k: int|
                            0 <= k < old_done.len() && trimmed(#[trigger] old_done[k]) == name@;
                        assert(done[k] == old_done[k]);
                    }
                    if matched_within(name@, done, done.len() as int) {
                        let k = choose|k: int|
                            0 <= k < done.len() && trimmed(#[trigger] done[k]) == name@;
                        if k < old_done.len() {
                            assert(done[k] == old_done[k]);
                        }
                    }
                }
            }
            found = found || hit;
            start = i + 1;
        }
        i = i + 1;
    }
    let entry = trim_white_space(ignore_list.substring_char(start, n));
    let hit = same_text(entry, name);
    proof {
        assert(list.subrange(0, n as int) =~= list);
        let all = split_commas(list);
        assert(all == done.push(list.subrange(start as int, n as int)));
        if ignored(name@, list) {
            let k = choose|k: int| 0 <= k < all.len() && trimmed(#[trigger] all[k]) == name@;
            if k < done.len() {
                assert(all[k] == done[k]);
            }
        }
        if found {
            let k = choose|k: int| 0 <= k < done.len() && trimmed(#[trigger] done[k]) == name@;
            assert(all[k] == done[k]);
        }
        if hit {
            assert(all[done.len() as int] == list.subrange(start as int, n as int));
        }
    }
    found || hit
}

} // verus!
