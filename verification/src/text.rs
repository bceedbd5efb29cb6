//! Whitespace tokenization of wire payloads.

use vstd::prelude::*;

verus! {

/// A token separator in the wire payload: ASCII whitespace.
pub open spec fn is_space(c: char) -> bool {
    c == ' ' || c == '\t' || c == '\n' || c == '\r'
}

/// Whitespace splitting, read one character at a time; `cur` is the token
/// collected so far and is emitted when a separator or the end is reached.
pub open spec fn split_acc(s: Seq<char>, cur: Seq<char>) -> Seq<Seq<char>>
    decreases s.len(),
{
    if s.len() == 0 {
        if cur.len() == 0 {
            Seq::empty()
        } else {
            seq![cur]
        }
    } else if is_space(s[0]) {
        if cur.len() == 0 {
            split_acc(s.drop_first(), Seq::empty())
        } else {
            seq![cur] + split_acc(s.drop_first(), Seq::empty())
        }
    } else {
        split_acc(s.drop_first(), cur.push(s[0]))
    }
}

/// The whitespace-separated tokens of a payload, in order.
pub open spec fn tokens_of(s: Seq<char>) -> Seq<Seq<char>> {
    split_acc(s, Seq::empty())
}

/// The views of a vector of owned tokens.
pub open spec fn views_of(ts: Seq<String>) -> Seq<Seq<char>> {
    ts.map_values(|t: String| t@)
}

fn is_space_char(c: char) -> (b: bool)
    ensures
        b == is_space(c),
{
    c == ' ' || c == '\t' || c == '\n' || c == '\r'
}

/// The token being collected at position `i`, for the loop relation below.
spec fn cur_tok(s: Seq<char>, in_tok: bool, start: int, i: int) -> Seq<char> {
    if in_tok {
        s.subrange(start, i)
    } else {
        Seq::empty()
    }
}

/// Split a payload into its whitespace-separated tokens.
pub fn tokenize(s: &str) -> (r: Vec<String>)
    ensures
        views_of(r@) == tokens_of(s@),
{
    let n = s.unicode_len();
    let mut r: Vec<String> = Vec::new();
    let mut i: usize = 0;
    let mut in_tok: bool = false;
    let mut start: usize = 0;
    proof {
        assert(s@.subrange(0, n as int) =~= s@);
    }
    while i < n
        invariant
            n == s@.len(),
            i <= n,
            in_tok ==> start < i,
            in_tok ==> forall|k: int| start <= k < i ==> !is_space(s@[k]),
            views_of(r@) + split_acc(
                s@.subrange(i as int, n as int),
                cur_tok(s@, in_tok, start as int, i as int),
            ) =~~= tokens_of(s@),
        decreases n - i,
    {
        let ghost rest = s@.subrange(i as int, n as int);
        let ghost cur = cur_tok(s@, in_tok, start as int, i as int);
        proof {
            assert(rest[0] == s@[i as int]);
            assert(rest.drop_first() =~= s@.subrange(i as int + 1, n as int));
        }
        let c = s.get_char(i);
        if is_space_char(c) {
            if in_tok {
                let tok = s.substring_char(start, i).to_owned();
                proof {
                    assert(split_acc(rest, cur) =~~= seq![cur] + split_acc(
                        rest.drop_first(),
                        Seq::empty(),
                    ));
                    assert(views_of(r@.push(tok)) =~~= views_of(r@).push(tok@));
                    assert(views_of(r@) + split_acc(rest, cur) =~~= views_of(r@.push(tok))
                        + split_acc(rest.drop_first(), Seq::empty()));
                }
                r.push(tok);
                in_tok = false;
            }
        } else {
            if !in_tok {
                in_tok = true;
                start = i;
            }
            proof {
                assert(cur_tok(s@, true, start as int, i as int + 1) =~= cur.push(
                    s@[i as int],
                ));
                assert(split_acc(rest, cur) == split_acc(rest.drop_first(), cur.push(rest[0])));
            }
        }
        i = i + 1;
    }
    let ghost rest = s@.subrange(i as int, n as int);
    proof {
        assert(rest =~= Seq::<char>::empty());
    }
    if in_tok {
        let tok = s.substring_char(start, n).to_owned();
        proof {
            assert(views_of(r@.push(tok)) =~~= views_of(r@).push(tok@));
            assert(views_of(r@.push(tok)) =~~= tokens_of(s@));
        }
        r.push(tok);
    } else {
        proof {
            assert(views_of(r@) + split_acc(rest, Seq::empty()) =~~= views_of(r@));
        }
    }
    proof {
        assert(views_of(r@) =~~= tokens_of(s@));
    }
    r
}

} // verus!
