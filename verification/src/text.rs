//! Text helpers: joining strings, writing a number in decimal, and cutting a
//! request target at its question mark.

use vstd::prelude::*;

verus! {

/// The character that stands for a decimal digit.
pub open spec fn digit_char(d: int) -> char {
    if d == 0 {
        '0'
    } else if d == 1 {
        '1'
    } else if d == 2 {
        '2'
    } else if d == 3 {
        '3'
    } else if d == 4 {
        '4'
    } else if d == 5 {
        '5'
    } else if d == 6 {
        '6'
    } else if d == 7 {
        '7'
    } else if d == 8 {
        '8'
    } else {
        '9'
    }
}

/// A natural number written in base ten, without leading zeros.
pub open spec fn decimal(n: nat) -> Seq<char>
    decreases n,
{
    if n < 10 {
        seq![digit_char(n as int)]
    } else {
        decimal(n / 10).push(digit_char((n % 10) as int))
    }
}

/// The position of the first question mark in `target`, or its length where
/// it holds none.
pub open spec fn query_start(target: Seq<char>) -> int
    decreases target.len(),
{
    if target.len() == 0 {
        0
    } else if target[0] == '?' {
        0
    } else {
        1 + query_start(target.drop_first())
    }
}

/// What stands before the first question mark of a request target.
pub open spec fn path_part(target: Seq<char>) -> Seq<char> {
    target.subrange(0, query_start(target))
}

/// What follows the first question mark of a request target; empty where
/// there is no question mark.
pub open spec fn query_part(target: Seq<char>) -> Seq<char> {
    if query_start(target) < target.len() {
        target.subrange(query_start(target) + 1, target.len() as int)
    } else {
        Seq::empty()
    }
}

/// A position that passes over no question mark, and either ends the target
/// or holds one, is `query_start`.
pub proof fn lemma_query_start_is(target: Seq<char>, k: int)
    requires
        0 <= k <= target.len(),
        forall|j: int| 0 <= j < k ==> target[j] != '?',
        k < target.len() ==> target[k] == '?',
    ensures
        query_start(target) == k,
    decreases target.len(),
{
    if target.len() != 0 && target[0] != '?' {
        let rest = target.drop_first();
        assert forall|j: int| 0 <= j < k - 1 implies rest[j] != '?' by {
            assert(rest[j] == target[j + 1]);
        }
        if k < target.len() {
            assert(rest[k - 1] == target[k]);
        }
        lemma_query_start_is(rest, k - 1);
    } else if target.len() != 0 {
        if k > 0 {
            assert(target[0] != '?');
        }
    }
}

/// A target made of a path without a question mark, a question mark and a
/// query is cut back into that path and that query.
pub proof fn lemma_cut_joined(path: Seq<char>, query: Seq<char>)
    requires
        forall|j: int| 0 <= j < path.len() ==> path[j] != '?',
    ensures
        path_part(path + seq!['?'] + query) == path,
        query_part(path + seq!['?'] + query) == query,
{
    let target = path + seq!['?'] + query;
    lemma_query_start_is(target, path.len() as int);
    assert(path_part(target) =~= path);
    assert(query_part(target) =~= query);
}

/// `first` followed by `second`.
pub fn join(first: &str, second: &str) -> (r: String)
    ensures
        r@ == first@ + second@,
{
    let mut joined = String::from_str(first);
    joined.append(second);
    joined
}

/// One decimal digit as text.
fn digit_text(d: u16) -> (r: &'static str)
    requires
        d < 10,
    ensures
        r@ == seq![digit_char(d as int)],
{
    proof {
        reveal_strlit("0");
        reveal_strlit("1");
        reveal_strlit("2");
        reveal_strlit("3");
        reveal_strlit("4");
        reveal_strlit("5");
        reveal_strlit("6");
        reveal_strlit("7");
        reveal_strlit("8");
        reveal_strlit("9");
    }
    let r = if d == 0 {
        "0"
    } else if d == 1 {
        "1"
    } else if d == 2 {
        "2"
    } else if d == 3 {
        "3"
    } else if d == 4 {
        "4"
    } else if d == 5 {
        "5"
    } else if d == 6 {
        "6"
    } else if d == 7 {
        "7"
    } else if d == 8 {
        "8"
    } else {
        "9"
    };
    assert(r@ =~= seq![digit_char(d as int)]);
    r
}

/// `n` written in base ten.
pub fn decimal_text(n: u16) -> (r: String)
    ensures
        r@ == decimal(n as nat),
    decreases n,
{
    if n < 10 {
        String::from_str(digit_text(n))
    } else {
        let mut written = decimal_text(n / 10);
        written.append(digit_text(n % 10));
        assert(written@ =~= decimal(n as nat));
        written
    }
}

/// Cuts a request target at its first question mark: the path before it and
/// the query after it. A target without a question mark has an empty query.
pub fn split_target(target: &str) -> (r: (String, String))
    ensures
        r.0@ == path_part(target@),
        r.1@ == query_part(target@),
{
    let len = target.unicode_len();
    let mut at: usize = 0;
    while at < len && target.get_char(at) != '?'
        invariant
            len == target@.len(),
            at <= len,
            forall|j: int| 0 <= j < at ==> target@[j] != '?',
        decreases len - at,
    {
        at += 1;
    }
    proof {
        lemma_query_start_is(target@, at as int);
    }
    let path = String::from_str(target.substring_char(0, at));
    let query = if at < len {
        String::from_str(target.substring_char(at + 1, len))
    } else {
        String::new()
    };
    (path, query)
}

} // verus!
